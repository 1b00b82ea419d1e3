use vstd::prelude::*;
use std::any::TypeId;

verus! {

#[verifier::external_type_specification]
#[verifier::external_body]
pub struct ExTypeId(TypeId);

/// `TypeId::of::<T>()`: the identifier of the type `T`. The value itself is
/// left unstated here.
#[verifier::external_body]
fn type_key<T: ?Sized + 'static>() -> TypeId {
    TypeId::of::<T>()
}

/// `TypeId`'s `==`: two identifiers compare equal exactly when they are the
/// same value.
#[verifier::external_body]
fn same_key(a: &TypeId, b: &TypeId) -> (r: bool)
    ensures
        r == (*a == *b),
{
    *a == *b
}

/// The set of systems that currently hold gameplay input blocked, each
/// known by the identifier of its marker type. Input is blocked while the
/// set is not empty.
#[derive(Debug)]
pub struct InputBlocks {
    keys: Vec<TypeId>,
}

impl InputBlocks {
    /// The blockers, as a set.
    pub closed spec fn view(&self) -> Set<TypeId> {
        self.keys@.to_set()
    }

    /// Each blocker is held once.
    #[verifier::type_invariant]
    spec fn inv(self) -> bool {
        self.keys@.no_duplicates()
    }

    fn find(&self, key: &TypeId) -> (r: Option<usize>)
        ensures
            match r {
                Some(i) => i < self.keys.len() && self.keys@[i as int] == *key,
                None => !self.keys@.contains(*key),
            },
    {
        let mut i: usize = 0;
        while i < self.keys.len()
            invariant
                i <= self.keys.len(),
                forall|j: int| 0 <= j < i ==> self.keys@[j] != *key,
            decreases self.keys.len() - i,
        {
            if same_key(&self.keys[i], key) {
                return Some(i);
            }
            i = i + 1;
        }
        None
    }

    /// Whether any blocker is active.
    pub fn is_blocked(&self) -> (r: bool)
        ensures
            r == (self.view() != Set::<TypeId>::empty()),
    {
        proof {
            if self.keys@.len() > 0 {
                assert(self.keys@.to_set().contains(self.keys@[0]));
            } else {
                assert(self.keys@.to_set() =~= Set::<TypeId>::empty());
            }
        }
        self.keys.len() > 0
    }

    /// Adds the blocker `key`; adding one that is already there changes nothing.
    pub fn block_key(&mut self, key: TypeId)
        ensures
            final(self).view() == old(self).view().insert(key),
    {
        proof {
            use_type_invariant(&*self);
        }
        match self.find(&key) {
            Some(_) => {
                proof {
                    assert(self.keys@.to_set().insert(key) =~= self.keys@.to_set());
                }
            },
            None => {
                let mut keys: Vec<TypeId> = Vec::new();
                std::mem::swap(&mut keys, &mut self.keys);
                let ghost before = keys@;
                keys.push(key);
                proof {
                    assert(keys@ == before.push(key));
                    assert(keys@.to_set() =~= before.to_set().insert(key)) by {
                        assert forall|x: TypeId| keys@.to_set().contains(x) <==> before.to_set().insert(key).contains(x) by {
                            if x == key {
                                assert(keys@[before.len() as int] == key);
                            } else if before.contains(x) {
                                let j = choose|j: int| 0 <= j < before.len() && before[j] == x;
                                assert(keys@[j] == x);
                            }
                        }
                    }
                    assert(keys@.no_duplicates()) by {
                        assert forall|a: int, b: int| 0 <= a < keys@.len() && 0 <= b < keys@.len() && a != b
                            implies keys@[a] != keys@[b] by {
                            if a < before.len() && b < before.len() {
                            } else if a == before.len() {
                                assert(before[b] == keys@[b]);
                            } else {
                                assert(before[a] == keys@[a]);
                            }
                        }
                    }
                }
                self.keys = keys;
            },
        }
    }

    /// Removes the blocker `key`; removing one that is not there changes nothing.
    pub fn unblock_key(&mut self, key: TypeId)
        ensures
            final(self).view() == old(self).view().remove(key),
    {
        proof {
            use_type_invariant(&*self);
        }
        match self.find(&key) {
            None => {
                proof {
                    assert(self.keys@.to_set().remove(key) =~= self.keys@.to_set());
                }
            },
            Some(i) => {
                let mut keys: Vec<TypeId> = Vec::new();
                std::mem::swap(&mut keys, &mut self.keys);
                let ghost before = keys@;
                keys.remove(i);
                proof {
                    assert(keys@ == before.remove(i as int));
                    assert forall|j: int| 0 <= j < keys@.len() implies keys@[j] == (if j < i { before[j] } else { before[j + 1] }) by {}
                    assert(keys@.to_set() =~= before.to_set().remove(key)) by {
                        assert forall|x: TypeId| keys@.to_set().contains(x) <==> before.to_set().remove(key).contains(x) by {
                            if keys@.contains(x) {
                                let j = choose|j: int| 0 <= j < keys@.len() && keys@[j] == x;
                                if j < i {
                                    assert(before[j] == x);
                                    assert(j != i);
                                } else {
                                    assert(before[j + 1] == x);
                                    assert(j + 1 != i);
                                }
                            }
                            if x != key && before.contains(x) {
                                let j = choose|j: int| 0 <= j < before.len() && before[j] == x;
                                assert(j != i);
                                if j < i {
                                    assert(keys@[j] == x);
                                } else {
                                    assert(keys@[j - 1] == x);
                                }
                            }
                        }
                    }
                    assert(keys@.no_duplicates()) by {
                        assert forall|a: int, b: int| 0 <= a < keys@.len() && 0 <= b < keys@.len() && a != b
                            implies keys@[a] != keys@[b] by {
                            let aa = if a < i { a } else { a + 1 };
                            let bb = if b < i { b } else { b + 1 };
                            assert(keys@[a] == before[aa]);
                            assert(keys@[b] == before[bb]);
                        }
                    }
                }
                self.keys = keys;
            },
        }
    }

    /// Adds the blocker whose marker type is `T`.
    pub fn block<T: ?Sized + 'static>(&mut self)
        ensures
            exists|k: TypeId| final(self).view() == old(self).view().insert(k),
    {
        let k = type_key::<T>();
        self.block_key(k);
    }

    /// Removes the blocker whose marker type is `T`.
    pub fn unblock<T: ?Sized + 'static>(&mut self)
        ensures
            exists|k: TypeId| final(self).view() == old(self).view().remove(k),
    {
        let k = type_key::<T>();
        self.unblock_key(k);
    }
}

impl Default for InputBlocks {
    fn default() -> (b: Self)
        ensures
            b.view() == Set::<TypeId>::empty(),
    {
        let b = InputBlocks { keys: Vec::new() };
        proof {
            assert(b.keys@.to_set() =~= Set::<TypeId>::empty());
        }
        b
    }
}

/// Blocking is idempotent, and unblocking what was blocked last clears it:
/// after blocking `key` on a set that did not hold it, unblocking `key`
/// gives back the set that was there before.
pub proof fn law_block_unblock_round_trip(before: Set<TypeId>, key: TypeId)
    requires
        !before.contains(key),
    ensures
        before.insert(key).remove(key) == before,
        before.insert(key).insert(key) == before.insert(key),
{
    assert(before.insert(key).remove(key) =~= before);
    assert(before.insert(key).insert(key) =~= before.insert(key));
}

} // verus!
