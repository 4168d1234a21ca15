use vstd::prelude::*;

use crate::model::{reserved_name, Error, HostModel};
use crate::namespace::{lookup, Namespace};
use crate::value::Value;

verus! {

/// Whether `name` is the reserved name.
pub fn is_reserved(name: &String) -> (r: bool)
    ensures
        r == (name@ == reserved_name()),
{
    let reserved = "_ENV".to_owned();
    proof {
        reveal_strlit("_ENV");
        assert(reserved@ =~= reserved_name());
    }
    *name == reserved
}

/// A handle on one environment of a host, by its index there. Copies of a
/// handle denote the same environment; they share its bindings. A handle is
/// meant for the host that created it: another host takes it for its own
/// environment at that index, if it has one.
#[derive(Debug, Clone, Copy, PartialEq, Eq, Structural)]
pub struct Env {
    id: usize,
}

/// The host of one interpreter: the protected base namespace that every
/// environment falls back to, the environments, the active environment and
/// the per-call overrides in effect.
pub struct Lua {
    base: Namespace,
    envs: Vec<Namespace>,
    active: Option<usize>,
    overrides: Vec<usize>,
}

impl View for Lua {
    type V = HostModel;

    closed spec fn view(&self) -> HostModel {
        HostModel {
            base: self.base@,
            envs: self.envs@.map_values(|n: Namespace| n@),
            active: match self.active {
                Some(a) => Some(a as nat),
                None => None,
            },
            overrides: self.overrides@.map_values(|i: usize| i as nat),
        }
    }
}

impl Env {
    /// The index of the environment within its host.
    pub closed spec fn index(self) -> nat {
        self.id as nat
    }

    /// Creates an environment of `lua` with no local bindings; reads in it
    /// fall back to the base namespace.
    pub fn new(lua: &mut Lua) -> (r: Env)
        requires
            old(lua).wf(),
            old(lua)@.envs.len() < usize::MAX,
        ensures
            final(lua).wf(),
            final(lua)@ == old(lua)@.create_env(),
            r.index() == old(lua)@.envs.len(),
    {
        let id = lua.envs.len();
        lua.envs.push(Namespace::new());
        proof {
            assert(lua@.envs =~= old(lua)@.create_env().envs);
            assert(lua@.overrides =~= old(lua)@.overrides);
        }
        Env { id }
    }

    /// Makes this environment the active one of `lua`.
    pub fn set(&self, lua: &mut Lua) -> (r: Result<(), Error>)
        requires
            old(lua).wf(),
        ensures
            final(lua).wf(),
            final(lua)@ == old(lua)@.activate(self.index()),
            r is Ok <==> old(lua)@.has_env(self.index()),
            r is Err ==> r == Err::<(), Error>(Error::UnknownEnvironment),
    {
        if self.id < lua.envs.len() {
            lua.active = Some(self.id);
            Ok(())
        } else {
            Err(Error::UnknownEnvironment)
        }
    }

    /// Reads `name` in this environment: its local binding, else the base
    /// namespace's, else nothing.
    pub fn resolve_read(&self, lua: &Lua, name: &String) -> (r: Result<Option<Value>, Error>)
        requires
            lua.wf(),
        ensures
            lua@.has_env(self.index()) ==> r == Ok::<Option<Value>, Error>(
                lua@.resolve(self.index(), name@),
            ),
            !lua@.has_env(self.index()) ==> r == Err::<Option<Value>, Error>(
                Error::UnknownEnvironment,
            ),
    {
        if self.id < lua.envs.len() {
            Ok(lua.read_in(self.id, name))
        } else {
            Err(Error::UnknownEnvironment)
        }
    }

    /// Binds `name` to `value` locally in this environment (removes the local
    /// binding where `value` is `Nil`); the base namespace and the other
    /// environments are left as they are.
    pub fn resolve_write(&self, lua: &mut Lua, name: String, value: Value) -> (r: Result<(), Error>)
        requires
            old(lua).wf(),
        ensures
            final(lua).wf(),
            old(lua)@.has_env(self.index()) ==> r is Ok && final(lua)@ == old(lua)@.env_write(
                self.index(),
                name@,
                value,
            ),
            !old(lua)@.has_env(self.index()) ==> r == Err::<(), Error>(Error::UnknownEnvironment)
                && final(lua)@ == old(lua)@,
    {
        if self.id < lua.envs.len() {
            lua.write_in(self.id, name, value);
            Ok(())
        } else {
            Err(Error::UnknownEnvironment)
        }
    }
}

impl Lua {
    /// The namespaces are well formed and every index refers to an
    /// environment.
    pub closed spec fn wf(&self) -> bool {
        &&& self.base.wf()
        &&& forall|i: int| 0 <= i < self.envs@.len() ==> (#[trigger] self.envs@[i]).wf()
        &&& self@.wf()
    }

    /// A host with an empty base namespace, no environments, none active and
    /// no override in effect.
    pub fn new() -> (r: Lua)
        ensures
            r.wf(),
            r@ == HostModel::initial(),
    {
        let r = Lua { base: Namespace::new(), envs: Vec::new(), active: None, overrides: Vec::new() };
        proof {
            assert(r@.envs =~= Seq::<crate::namespace::Bindings>::empty());
            assert(r@.overrides =~= Seq::<nat>::empty());
        }
        r
    }

    /// Host-side write to the base namespace: creates or overwrites the
    /// binding of `name`, or removes it where `value` is `Nil`.
    pub fn privileged_set(&mut self, name: String, value: Value)
        requires
            old(self).wf(),
        ensures
            final(self).wf(),
            final(self)@ == old(self)@.privileged_set(name@, value),
    {
        self.base.assign(name, value);
        proof {
            assert(self@.envs =~= old(self)@.envs);
            assert(self@.overrides =~= old(self)@.overrides);
        }
    }

    /// The base namespace's binding of `name`, if any.
    pub fn get(&self, name: &String) -> (r: Option<Value>)
        requires
            self.wf(),
        ensures
            r == lookup(self@.base, name@),
    {
        self.base.get(name)
    }

    /// A write that script code aims at the base namespace itself: always
    /// refused, whether or not `name` is bound there, and nothing changes.
    pub fn intercepted_set(&self, name: &String, value: Value) -> (r: Result<(), Error>)
        ensures
            r == Err::<(), Error>(Error::ReadOnlyViolation),
    {
        Err(Error::ReadOnlyViolation)
    }

    /// The active environment, if one has been set.
    pub fn current(&self) -> (r: Option<Env>)
        ensures
            r is None <==> self@.active is None,
            r matches Some(e) ==> self@.active == Some(e.index()),
    {
        match self.active {
            Some(a) => Some(Env { id: a }),
            None => None,
        }
    }

    fn read_in(&self, e: usize, name: &String) -> (r: Option<Value>)
        requires
            self.wf(),
            e < self.envs@.len(),
        ensures
            r == self@.resolve(e as nat, name@),
    {
        assert(self.envs@[e as int].wf());
        match self.envs[e].get(name) {
            Some(v) => Some(v),
            None => self.base.get(name),
        }
    }

    fn write_in(&mut self, e: usize, name: String, value: Value)
        requires
            old(self).wf(),
            e < old(self).envs@.len(),
        ensures
            final(self).wf(),
            final(self)@ == old(self)@.env_write(e as nat, name@, value),
    {
        assert(self.envs@[e as int].wf());
        self.envs[e].assign(name, value);
        proof {
            assert(self@.envs =~= old(self)@.env_write(e as nat, name@, value).envs);
            assert(self@.overrides =~= old(self)@.overrides);
        }
    }
    fn target(&self) -> (r: Option<usize>)
        requires
            self.wf(),
        ensures
            r is None <==> self@.target() is None,
            r matches Some(e) ==> self@.target() == Some(e as nat) && e < self.envs@.len(),
    {
        let n = self.overrides.len();
        if n > 0 {
            let e = self.overrides[n - 1];
            assert(self@.overrides[n - 1] == e as nat);
            Some(e)
        } else {
            self.active
        }
    }

    /// A read of `name` by script code: resolved in the innermost per-call
    /// override, else in the active environment.
    pub fn read(&self, name: &String) -> (r: Result<Option<Value>, Error>)
        requires
            self.wf(),
        ensures
            r == self@.read(name@),
    {
        if is_reserved(name) {
            return Err(Error::ReservedName);
        }
        match self.target() {
            Some(e) => Ok(self.read_in(e, name)),
            None => Err(Error::NoActiveEnvironment),
        }
    }

    /// A write of `name` by script code: a local binding in the innermost
    /// per-call override, else in the active environment. Writing `Nil`
    /// removes that local binding.
    pub fn write(&mut self, name: String, value: Value) -> (r: Result<(), Error>)
        requires
            old(self).wf(),
        ensures
            final(self).wf(),
            r == old(self)@.write_result(name@),
            final(self)@ == old(self)@.write(name@, value),
    {
        if is_reserved(&name) {
            return Err(Error::ReservedName);
        }
        match self.target() {
            Some(e) => {
                self.write_in(e, name, value);
                Ok(())
            },
            None => Err(Error::NoActiveEnvironment),
        }
    }

    /// Script code assigning nothing to `name`: the local binding goes, and
    /// reads of `name` fall back to the base namespace again.
    pub fn unset(&mut self, name: String) -> (r: Result<(), Error>)
        requires
            old(self).wf(),
        ensures
            final(self).wf(),
            r == old(self)@.write_result(name@),
            final(self)@ == old(self)@.unset(name@),
    {
        self.write(name, Value::Nil)
    }

    /// Begins a call that resolves names in `env`, whatever environment is
    /// active, until the matching `end_call`.
    pub fn begin_call(&mut self, env: Env) -> (r: Result<(), Error>)
        requires
            old(self).wf(),
            old(self)@.overrides.len() < usize::MAX,
        ensures
            final(self).wf(),
            final(self)@ == old(self)@.begin_call(env.index()),
            r is Ok <==> old(self)@.has_env(env.index()),
            r is Err ==> r == Err::<(), Error>(Error::UnknownEnvironment),
    {
        if env.id < self.envs.len() {
            self.overrides.push(env.id);
            proof {
                assert(self@.overrides =~= old(self)@.overrides.push(env.index()));
                assert(self@.envs =~= old(self)@.envs);
            }
            Ok(())
        } else {
            Err(Error::UnknownEnvironment)
        }
    }

    /// Ends the innermost overridden call: name resolution goes back to the
    /// override around it, or to the active environment.
    pub fn end_call(&mut self) -> (r: Result<(), Error>)
        requires
            old(self).wf(),
        ensures
            final(self).wf(),
            final(self)@ == old(self)@.end_call(),
            r is Ok <==> old(self)@.overrides.len() > 0,
            r is Err ==> r == Err::<(), Error>(Error::NoPendingCall),
    {
        if self.overrides.len() > 0 {
            self.overrides.pop();
            proof {
                assert(self@.overrides =~= old(self)@.overrides.drop_last());
                assert(self@.envs =~= old(self)@.envs);
            }
            Ok(())
        } else {
            Err(Error::NoPendingCall)
        }
    }
    /// Invokes `callable` with names resolved in `env` for the extent of that
    /// one call, whatever environment is active. The callable receives the
    /// host with the override in effect and hands it back; the override is
    /// then taken down, and resolution returns to what it was before.
    pub fn invoke_with_environment<R, F>(&mut self, env: Env, callable: F) -> (r: Result<R, Error>)
        where
            F: FnOnce(Lua) -> (Lua, R),
        requires
            old(self).wf(),
            old(self)@.overrides.len() < usize::MAX,
            forall|l: Lua|
                l.wf() && l@ == old(self)@.begin_call(env.index()) ==> #[trigger] callable.requires(
                    (l,),
                ),
            forall|l: Lua, out: (Lua, R)|
                l@ == old(self)@.begin_call(env.index()) && #[trigger] callable.ensures((l,), out)
                    ==> out.0.wf() && out.0@.overrides == l@.overrides,
        ensures
            final(self).wf(),
            !old(self)@.has_env(env.index()) ==> r == Err::<R, Error>(Error::UnknownEnvironment)
                && final(self)@ == old(self)@,
            old(self)@.has_env(env.index()) ==> final(self)@.overrides == old(self)@.overrides,
            old(self)@.has_env(env.index()) ==> exists|l: Lua, out: (Lua, R)|
                l@ == old(self)@.begin_call(env.index()) && #[trigger] callable.ensures((l,), out)
                    && final(self)@ == out.0@.end_call() && r == Ok::<R, Error>(out.1),
    {
        if env.id >= self.envs.len() {
            return Err(Error::UnknownEnvironment);
        }
        let _ = self.begin_call(env);
        let mut host = Lua::new();
        std::mem::swap(self, &mut host);
        let (mut back, res) = callable(host);
        let _ = back.end_call();
        *self = back;
        proof {
            assert(self@.overrides =~= old(self)@.overrides);
        }
        Ok(res)
    }
}

} // verus!
