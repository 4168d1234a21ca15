use vstd::prelude::*;

use crate::value::Value;

verus! {

/// What a namespace holds: names (as character sequences) to values.
pub type Bindings = Map<Seq<char>, Value>;

/// A finite mapping from names to values, with one binding per name.
pub struct Namespace {
    entries: Vec<(String, Value)>,
    bindings: Ghost<Bindings>,
}

impl View for Namespace {
    type V = Bindings;

    closed spec fn view(&self) -> Bindings {
        self.bindings@
    }
}

impl Namespace {
    /// The entries hold each name at most once, and hold exactly the
    /// bindings of the view.
    pub closed spec fn wf(&self) -> bool {
        &&& forall|i: int, j: int|
            0 <= i < j < self.entries@.len() ==> self.entries@[i].0@ != self.entries@[j].0@
        &&& forall|i: int|
            0 <= i < self.entries@.len() ==> #[trigger] self.bindings@.contains_key(
                self.entries@[i].0@,
            ) && self.bindings@[self.entries@[i].0@] == self.entries@[i].1
        &&& forall|k: Seq<char>|
            #[trigger] self.bindings@.contains_key(k) ==> exists|i: int|
                0 <= i < self.entries@.len() && self.entries@[i].0@ == k
    }

    /// An empty namespace.
    pub fn new() -> (r: Namespace)
        ensures
            r.wf(),
            r@ == Map::<Seq<char>, Value>::empty(),
    {
        Namespace { entries: Vec::new(), bindings: Ghost(Map::empty()) }
    }

    /// The position of `name` among the entries, if it is bound.
    fn position(&self, name: &String) -> (r: Option<usize>)
        requires
            self.wf(),
        ensures
            match r {
                Some(i) => i < self.entries@.len() && self.entries@[i as int].0@ == name@,
                None => !self@.contains_key(name@),
            },
    {
        let mut i: usize = 0;
        while i < self.entries.len()
            invariant
                i <= self.entries@.len(),
                forall|j: int| 0 <= j < i ==> self.entries@[j].0@ != name@,
            decreases self.entries@.len() - i,
        {
            if self.entries[i].0 == *name {
                return Some(i);
            }
            i = i + 1;
        }
        None
    }

    /// Whether `name` is bound here.
    pub fn contains(&self, name: &String) -> (r: bool)
        requires
            self.wf(),
        ensures
            r == self@.contains_key(name@),
    {
        self.position(name).is_some()
    }

    /// The value bound to `name`, or `None` where it is not bound.
    pub fn get(&self, name: &String) -> (r: Option<Value>)
        requires
            self.wf(),
        ensures
            r == lookup(self@, name@),
    {
        match self.position(name) {
            Some(i) => Some(self.entries[i].1.duplicate()),
            None => None,
        }
    }

    /// Binds `name` to `value`: creates the binding, or overwrites the one
    /// that is there.
    pub fn set(&mut self, name: String, value: Value)
        requires
            old(self).wf(),
        ensures
            final(self).wf(),
            final(self)@ == old(self)@.insert(name@, value),
    {
        let ghost key = name@;
        let ghost updated = self.bindings@.insert(key, value);
        let ghost at: int;
        match self.position(&name) {
            Some(i) => {
                proof {
                    at = i as int;
                }
                self.entries.set(i, (name, value));
            },
            None => {
                proof {
                    at = self.entries@.len() as int;
                }
                self.entries.push((name, value));
            },
        }
        self.bindings = Ghost(updated);
        assert(self.entries@[at].0@ == key);
        assert forall|k: Seq<char>| #[trigger] self.bindings@.contains_key(k) implies exists|i: int|
            0 <= i < self.entries@.len() && self.entries@[i].0@ == k by {
            if k != key {
                let i = choose|i: int|
                    0 <= i < old(self).entries@.len() && old(self).entries@[i].0@ == k;
                assert(self.entries@[i].0@ == k);
            }
        }
    }

    /// Removes the binding of `name`, if there is one.
    pub fn remove(&mut self, name: &String)
        requires
            old(self).wf(),
        ensures
            final(self).wf(),
            final(self)@ == old(self)@.remove(name@),
    {
        let ghost key = name@;
        match self.position(name) {
            Some(i) => {
                let _ = self.entries.remove(i);
                self.bindings = Ghost(old(self).bindings@.remove(key));
                let ghost o = old(self).entries@;
                assert forall|j: int| 0 <= j < self.entries@.len() implies #[trigger] self.entries@[j]
                    == (if j < i {
                    o[j]
                } else {
                    o[j + 1]
                }) by {}
                assert forall|j: int|
                    0 <= j < self.entries@.len() implies #[trigger] self.bindings@.contains_key(
                    self.entries@[j].0@,
                ) && self.bindings@[self.entries@[j].0@] == self.entries@[j].1 by {
                    let oj = if j < i {
                        j
                    } else {
                        j + 1
                    };
                    assert(self.entries@[j] == o[oj]);
                    if oj < i {
                        assert(o[oj].0@ != o[i as int].0@);
                    } else {
                        assert(o[i as int].0@ != o[oj].0@);
                    }
                    assert(old(self).bindings@.contains_key(o[oj].0@));
                    assert(old(self).bindings@[o[oj].0@] == o[oj].1);
                }
                assert forall|k: Seq<char>| #[trigger] self.bindings@.contains_key(k) implies exists|j: int|
                    0 <= j < self.entries@.len() && self.entries@[j].0@ == k by {
                    let oj = choose|oj: int| 0 <= oj < o.len() && o[oj].0@ == k;
                    assert(oj != i);
                    if oj < i {
                        assert(self.entries@[oj].0@ == k);
                    } else {
                        assert(self.entries@[oj - 1].0@ == k);
                    }
                }
                assert forall|a: int, b: int|
                    0 <= a < b < self.entries@.len() implies self.entries@[a].0@
                    != self.entries@[b].0@ by {
                    let oa = if a < i {
                        a
                    } else {
                        a + 1
                    };
                    let ob = if b < i {
                        b
                    } else {
                        b + 1
                    };
                    assert(self.entries@[a] == o[oa]);
                    assert(self.entries@[b] == o[ob]);
                }
            },
            None => {
                assert(self@ =~= old(self)@.remove(key));
            },
        }
    }

    /// Assigns `value` to `name`: binds it, or removes its binding where the
    /// value is `Nil`.
    pub fn assign(&mut self, name: String, value: Value)
        requires
            old(self).wf(),
        ensures
            final(self).wf(),
            final(self)@ == assign(old(self)@, name@, value),
    {
        if let Value::Nil = value {
            self.remove(&name);
        } else {
            self.set(name, value);
        }
    }
}

/// `m` after `name` is assigned `v`: a binding, or none where `v` is `Nil`.
pub open spec fn assign(m: Bindings, name: Seq<char>, v: Value) -> Bindings {
    if v is Nil {
        m.remove(name)
    } else {
        m.insert(name, v)
    }
}

/// The value bound to `name` in `m`, if any.
pub open spec fn lookup(m: Bindings, name: Seq<char>) -> Option<Value> {
    if m.contains_key(name) {
        Some(m[name])
    } else {
        None
    }
}

} // verus!
