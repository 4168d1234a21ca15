use vstd::prelude::*;

use crate::namespace::{assign, lookup, Bindings};
use crate::value::Value;

verus! {

/// The one name that scripts may not read or write: the interception layer
/// keeps its own bookkeeping under it.
pub open spec fn reserved_name() -> Seq<char> {
    seq!['_', 'E', 'N', 'V']
}

/// Why an operation of the host was refused.
#[derive(Debug, Clone, Copy, PartialEq, Eq, Structural)]
pub enum Error {
    /// Script code tried to write into the protected base namespace.
    ReadOnlyViolation,
    /// A script-level access was made while no environment is active.
    NoActiveEnvironment,
    /// The environment handle's index is beyond the environments of this
    /// host.
    UnknownEnvironment,
    /// Script code tried to read or write the reserved name.
    ReservedName,
    /// A call ended while no per-call override was in effect.
    NoPendingCall,
}

/// The abstract state of a host: the protected base namespace, the local
/// bindings of each environment (by index), the active environment, and the
/// stack of per-call overrides, innermost last.
pub ghost struct HostModel {
    pub base: Bindings,
    pub envs: Seq<Bindings>,
    pub active: Option<nat>,
    pub overrides: Seq<nat>,
}

impl HostModel {
    /// The state right after initialization.
    pub open spec fn initial() -> HostModel {
        HostModel {
            base: Map::empty(),
            envs: Seq::empty(),
            active: None,
            overrides: Seq::empty(),
        }
    }

    pub open spec fn has_env(self, e: nat) -> bool {
        e < self.envs.len()
    }

    /// Every environment that the state refers to exists.
    pub open spec fn wf(self) -> bool {
        &&& (self.active matches Some(a) ==> self.has_env(a))
        &&& forall|i: int| 0 <= i < self.overrides.len() ==> self.has_env(#[trigger] self.overrides[i])
    }

    /// The environment that script-level names resolve against: the
    /// innermost per-call override, else the active environment.
    pub open spec fn target(self) -> Option<nat> {
        if self.overrides.len() > 0 {
            Some(self.overrides.last())
        } else {
            self.active
        }
    }

    /// Reading `name` in environment `e`: its local binding, else the base
    /// namespace's, else nothing.
    pub open spec fn resolve(self, e: nat, name: Seq<char>) -> Option<Value> {
        if self.envs[e as int].contains_key(name) {
            Some(self.envs[e as int][name])
        } else {
            lookup(self.base, name)
        }
    }

    /// Writing `name` in environment `e`: only its local bindings change
    /// (writing `Nil` removes the local binding).
    pub open spec fn env_write(self, e: nat, name: Seq<char>, v: Value) -> HostModel {
        HostModel { envs: self.envs.update(e as int, assign(self.envs[e as int], name, v)), ..self }
    }

    /// What a script-level read of `name` yields.
    pub open spec fn read(self, name: Seq<char>) -> Result<Option<Value>, Error> {
        if name == reserved_name() {
            Err(Error::ReservedName)
        } else {
            match self.target() {
                Some(e) => Ok(self.resolve(e, name)),
                None => Err(Error::NoActiveEnvironment),
            }
        }
    }

    /// What a script-level write of `name` returns.
    pub open spec fn write_result(self, name: Seq<char>) -> Result<(), Error> {
        if name == reserved_name() {
            Err(Error::ReservedName)
        } else if self.target() is None {
            Err(Error::NoActiveEnvironment)
        } else {
            Ok(())
        }
    }

    /// The state after a script-level write of `name`.
    pub open spec fn write(self, name: Seq<char>, v: Value) -> HostModel {
        if self.write_result(name) is Ok {
            self.env_write(self.target().unwrap(), name, v)
        } else {
            self
        }
    }

    /// The state after script code removes its binding of `name`.
    pub open spec fn unset(self, name: Seq<char>) -> HostModel {
        self.write(name, Value::Nil)
    }

    /// The state after the script-level writes `ws` are made in order.
    pub open spec fn write_all(self, ws: Seq<(Seq<char>, Value)>) -> HostModel
        decreases ws.len(),
    {
        if ws.len() == 0 {
            self
        } else {
            self.write(ws[0].0, ws[0].1).write_all(ws.drop_first())
        }
    }

    /// The state after a new, empty environment is created.
    pub open spec fn create_env(self) -> HostModel {
        HostModel { envs: self.envs.push(Map::empty()), ..self }
    }

    /// The state after `e` is made the active environment.
    pub open spec fn activate(self, e: nat) -> HostModel {
        if self.has_env(e) {
            HostModel { active: Some(e), ..self }
        } else {
            self
        }
    }

    /// The state once a call overridden with `e` has begun.
    pub open spec fn begin_call(self, e: nat) -> HostModel {
        if self.has_env(e) {
            HostModel { overrides: self.overrides.push(e), ..self }
        } else {
            self
        }
    }

    /// The state once the innermost overridden call has returned.
    pub open spec fn end_call(self) -> HostModel {
        if self.overrides.len() > 0 {
            HostModel { overrides: self.overrides.drop_last(), ..self }
        } else {
            self
        }
    }

    /// The state after a privileged write to the base namespace (writing
    /// `Nil` removes the base binding).
    pub open spec fn privileged_set(self, name: Seq<char>, v: Value) -> HostModel {
        HostModel { base: assign(self.base, name, v), ..self }
    }
}

} // verus!
