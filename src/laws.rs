use vstd::prelude::*;

use crate::model::{reserved_name, Error, HostModel};
use crate::namespace::lookup;
use crate::value::Value;

verus! {

/// Script-level writes, however many, change only the environment that names
/// resolve in: the base namespace, the active environment, the overrides and
/// every other environment's bindings stay as they were.
pub proof fn lemma_writes_stay_in_target(m: HostModel, ws: Seq<(Seq<char>, Value)>)
    requires
        m.wf(),
    ensures
        m.write_all(ws).wf(),
        m.write_all(ws).base == m.base,
        m.write_all(ws).active == m.active,
        m.write_all(ws).overrides == m.overrides,
        m.write_all(ws).envs.len() == m.envs.len(),
        forall|o: nat| o < m.envs.len() && m.target() != Some(o) ==> #[trigger] m.write_all(ws).envs[o as int] == m.envs[o as int],
    decreases ws.len(),
{
    if ws.len() > 0 {
        let next = m.write(ws[0].0, ws[0].1);
        lemma_writes_stay_in_target(next, ws.drop_first());
        assert forall|o: nat| o < m.envs.len() && m.target() != Some(o) implies #[trigger] m.write_all(ws).envs[o as int]
            == m.envs[o as int] by {
            assert(next.target() == m.target());
            assert(next.envs[o as int] == m.envs[o as int]);
        }
    }
}

/// Environments are isolated: script-level writes made while `e1` is the
/// environment that names resolve in change nothing that a read in any other
/// environment `e2` yields, now or once `e2` is activated. So two runs that
/// differ only in those writes agree on `e2`.
pub proof fn lemma_isolation(
    m: HostModel,
    e1: nat,
    e2: nat,
    ws1: Seq<(Seq<char>, Value)>,
    ws2: Seq<(Seq<char>, Value)>,
    n: Seq<char>,
)
    requires
        m.wf(),
        m.has_env(e1),
        m.has_env(e2),
        e1 != e2,
        m.target() == Some(e1),
    ensures
        m.write_all(ws1).envs[e2 as int] == m.envs[e2 as int],
        m.write_all(ws1).resolve(e2, n) == m.resolve(e2, n),
        m.write_all(ws1).envs[e2 as int] == m.write_all(ws2).envs[e2 as int],
        m.overrides.len() == 0 ==> m.write_all(ws1).activate(e2).read(n) == m.activate(e2).read(n),
        m.overrides.len() == 0 ==> m.write_all(ws1).activate(e2).read(n) == m.write_all(
            ws2,
        ).activate(e2).read(n),
{
    lemma_writes_stay_in_target(m, ws1);
    lemma_writes_stay_in_target(m, ws2);
    assert(m.write_all(ws1).envs[e2 as int] == m.envs[e2 as int]);
    assert(m.write_all(ws2).envs[e2 as int] == m.envs[e2 as int]);
}

/// Reads of names other than the reserved one never fail while an
/// environment is in effect: local binding first, else the base namespace's,
/// else nothing.
pub proof fn lemma_read_resolves(m: HostModel, n: Seq<char>)
    requires
        m.target() is Some,
        n != reserved_name(),
    ensures
        m.read(n) == Ok::<Option<Value>, Error>(
            if m.envs[m.target().unwrap() as int].contains_key(n) {
                Some(m.envs[m.target().unwrap() as int][n])
            } else {
                lookup(m.base, n)
            },
        ),
{
}

/// A name bound only in the base namespace reads as the base value; after a
/// local write of it, reads yield the local value (or the base value again,
/// where the write was `Nil`), and the base namespace is unchanged.
pub proof fn lemma_fallback(m: HostModel, name: Seq<char>, v: Value)
    requires
        m.wf(),
        m.target() is Some,
        name != reserved_name(),
        m.base.contains_key(name),
        !m.envs[m.target().unwrap() as int].contains_key(name),
    ensures
        m.read(name) == Ok::<Option<Value>, Error>(Some(m.base[name])),
        !(v is Nil) ==> m.write(name, v).read(name) == Ok::<Option<Value>, Error>(Some(v)),
        v is Nil ==> m.write(name, v).read(name) == Ok::<Option<Value>, Error>(Some(m.base[name])),
        m.write(name, v).base == m.base,
{
}

/// Removing a local binding brings the base value back, whatever the local
/// value was.
pub proof fn lemma_unset_restores_base(m: HostModel, name: Seq<char>, v: Value)
    requires
        m.wf(),
        m.target() is Some,
        name != reserved_name(),
    ensures
        m.write(name, v).unset(name).read(name) == Ok::<Option<Value>, Error>(lookup(m.base, name)),
        m.write(name, v).unset(name).base == m.base,
{
}

/// Values written in an environment stay there while other environments are
/// active, and are read again once it is reactivated: activate `e1` and write
/// `a`, activate `e2` and write `b`, then `e1` reads `a` and `e2` reads `b`.
/// Activation decides where names resolve only outside overridden calls.
pub proof fn lemma_reactivation(m: HostModel, e1: nat, e2: nat, name: Seq<char>, a: Value, b: Value)
    requires
        m.wf(),
        m.has_env(e1),
        m.has_env(e2),
        e1 != e2,
        m.overrides.len() == 0,
        name != reserved_name(),
    ensures
        ({
            let s = m.activate(e1).write(name, a).activate(e2).write(name, b);
            &&& !(a is Nil) ==> s.activate(e1).read(name) == Ok::<Option<Value>, Error>(Some(a))
            &&& !(b is Nil) ==> s.activate(e2).read(name) == Ok::<Option<Value>, Error>(Some(b))
            &&& s.activate(e1).read(name) == m.activate(e1).write(name, a).read(name)
        }),
{
}

/// An overridden call resolves names in its override; once it returns, names
/// resolve where they did before it began, and the writes made during the
/// call left the base namespace and every other environment as they were.
pub proof fn lemma_override_scoping(m: HostModel, e: nat, ws: Seq<(Seq<char>, Value)>, n: Seq<char>)
    requires
        m.wf(),
        m.has_env(e),
    ensures
        ({
            let inside = m.begin_call(e);
            let after = inside.write_all(ws).end_call();
            &&& inside.target() == Some(e)
            &&& n != reserved_name() ==> inside.read(n) == Ok::<Option<Value>, Error>(m.resolve(e, n))
            &&& inside.write_all(ws).target() == Some(e)
            &&& after.target() == m.target()
            &&& after.active == m.active
            &&& after.overrides == m.overrides
            &&& after.base == m.base
            &&& forall|o: nat| o != e && m.has_env(o) ==> #[trigger] after.envs[o as int] == m.envs[o as int]
            &&& (m.target() matches Some(t) && t != e) ==> after.read(n) == m.read(n)
        }),
{
    let inside = m.begin_call(e);
    lemma_writes_stay_in_target(inside, ws);
    assert(inside.write_all(ws).overrides.drop_last() =~= m.overrides);
}

/// Activating an environment during an overridden call does not change where
/// that call resolves names.
pub proof fn lemma_override_outranks_activation(m: HostModel, e: nat, a: nat)
    requires
        m.wf(),
        m.has_env(e),
    ensures
        m.begin_call(e).activate(a).target() == Some(e),
{
}

/// Setting a base binding twice leaves one binding, holding the later value.
pub proof fn lemma_base_overwrite(m: HostModel, name: Seq<char>, a: Value, b: Value)
    ensures
        m.privileged_set(name, a).privileged_set(name, b) == m.privileged_set(name, b),
        lookup(m.privileged_set(name, a).privileged_set(name, b).base, name) == (if b is Nil {
            None
        } else {
            Some(b)
        }),
{
    assert(m.privileged_set(name, a).privileged_set(name, b).base =~= m.privileged_set(name, b).base);
}

/// No script-level write or removal changes the base namespace, whatever the
/// names and whatever environment is in effect.
pub proof fn lemma_script_writes_keep_base(m: HostModel, ws: Seq<(Seq<char>, Value)>, name: Seq<char>)
    requires
        m.wf(),
    ensures
        m.write_all(ws).base == m.base,
        m.unset(name).base == m.base,
{
    lemma_writes_stay_in_target(m, ws);
}

} // verus!
