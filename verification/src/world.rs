//! The world: the store of the resources that systems share.
//!
//! A resource is found by its key, and the world holds at most one resource
//! under a key. Resources are of one type `R`, which an application makes a
//! sum of all the kinds of resource it has, with one key for each kind.

use vstd::prelude::*;

verus! {

/// The key of a resource: what kind of resource it is.
pub type ResourceKey = u64;

/// The store of the resources that systems share.
#[derive(Debug, Clone)]
pub struct World<R> {
    /// The keys in use, each once.
    keys: Vec<ResourceKey>,
    /// The resource under each key, in the order of `keys`.
    values: Vec<R>,
    /// For each key, whether its resource is bound to the thread that
    /// inserted it.
    non_send: Vec<bool>,
    /// For each key, whether its resource was inserted or handed out for
    /// change since the trackers were last cleared.
    changed: Vec<bool>,
}

impl<R> World<R> {
    /// Whether the store is in order. This holds of a new world and of every
    /// world that follows from it.
    pub closed spec fn wf(&self) -> bool {
        &&& self.keys@.len() == self.values@.len()
        &&& self.keys@.len() == self.non_send@.len()
        &&& self.keys@.len() == self.changed@.len()
        &&& self.keys@.no_duplicates()
    }

    /// The resources by their keys.
    pub closed spec fn resources(&self) -> Map<ResourceKey, R> {
        Map::new(
            |key: ResourceKey| self.keys@.contains(key),
            |key: ResourceKey| self.values@[self.keys@.index_of(key)],
        )
    }

    /// The keys of the resources that are bound to the thread that inserted
    /// them.
    pub closed spec fn non_send(&self) -> Set<ResourceKey> {
        Set::new(
            |key: ResourceKey| self.keys@.contains(key) && self.non_send@[self.keys@.index_of(key)],
        )
    }

    /// The keys of the resources that were inserted or handed out for change
    /// since the trackers were last cleared.
    pub closed spec fn changed(&self) -> Set<ResourceKey> {
        Set::new(
            |key: ResourceKey| self.keys@.contains(key) && self.changed@[self.keys@.index_of(key)],
        )
    }

    /// Whether the world holds a resource under `key`.
    pub open spec fn has(&self, key: ResourceKey) -> bool {
        self.resources().dom().contains(key)
    }

    /// In a store that is in order a key is found where it stands.
    proof fn lemma_found(&self, i: int)
        requires
            self.wf(),
            0 <= i < self.keys@.len(),
        ensures
            self.keys@.contains(self.keys@[i]),
            self.keys@.index_of(self.keys@[i]) == i,
            self.has(self.keys@[i]),
            self.resources()[self.keys@[i]] == self.values@[i],
    {
        let key = self.keys@[i];
        assert(self.keys@.contains(key));
        let found = self.keys@.index_of(key);
        assert(0 <= found < self.keys@.len() && self.keys@[found] == key);
    }

    /// Nothing is marked that has no resource.
    pub proof fn lemma_marks_have_resources(&self)
        ensures
            self.non_send().subset_of(self.resources().dom()),
            self.changed().subset_of(self.resources().dom()),
    {
    }

    /// A world without resources.
    pub fn new() -> (world: Self)
        ensures
            world.wf(),
            world.resources() == Map::<ResourceKey, R>::empty(),
            world.non_send() == Set::<ResourceKey>::empty(),
            world.changed() == Set::<ResourceKey>::empty(),
    {
        let world = World {
            keys: Vec::new(),
            values: Vec::new(),
            non_send: Vec::new(),
            changed: Vec::new(),
        };
        assert(world.resources() =~= Map::<ResourceKey, R>::empty());
        assert(world.non_send() =~= Set::<ResourceKey>::empty());
        assert(world.changed() =~= Set::<ResourceKey>::empty());
        world
    }

    /// Where `key` stands among the keys in use.
    fn position(&self, key: ResourceKey) -> (at: Option<usize>)
        requires
            self.wf(),
        ensures
            match at {
                Some(i) => i < self.keys@.len() && self.keys@[i as int] == key
                    && self.keys@.index_of(key) == i,
                None => !self.keys@.contains(key),
            },
    {
        let mut i: usize = 0;
        while i < self.keys.len()
            invariant
                self.wf(),
                i <= self.keys@.len(),
                forall|j: int| 0 <= j < i ==> self.keys@[j] != key,
            decreases self.keys@.len() - i,
        {
            if self.keys[i] == key {
                proof {
                    self.lemma_found(i as int);
                }
                return Some(i);
            }
            i += 1;
        }
        None
    }

    /// Whether the world holds a resource under `key`.
    pub fn contains_resource(&self, key: ResourceKey) -> (r: bool)
        requires
            self.wf(),
        ensures
            r == self.has(key),
    {
        self.position(key).is_some()
    }

    /// The resource under `key`, if there is one.
    pub fn get_resource(&self, key: ResourceKey) -> (r: Option<&R>)
        requires
            self.wf(),
        ensures
            match r {
                Some(value) => self.has(key) && *value == self.resources()[key],
                None => !self.has(key),
            },
    {
        match self.position(key) {
            Some(i) => Some(&self.values[i]),
            None => None,
        }
    }

    /// How many resources the world holds.
    pub fn len(&self) -> (n: usize)
        requires
            self.wf(),
        ensures
            n == self.resources().dom().len(),
            self.resources().dom().finite(),
    {
        proof {
            self.lemma_dom();
            self.keys@.unique_seq_to_set();
        }
        self.keys.len()
    }

    /// The keys in use are the keys of the resources.
    proof fn lemma_dom(&self)
        ensures
            self.resources().dom() =~= self.keys@.to_set(),
    {
    }

    /// In a store that is in order every key is found where it stands.
    proof fn lemma_slots(&self)
        requires
            self.wf(),
        ensures
            forall|i: int|
                0 <= i < self.keys@.len() ==> self.keys@.contains(#[trigger] self.keys@[i])
                    && self.keys@.index_of(self.keys@[i]) == i,
    {
        assert forall|i: int| 0 <= i < self.keys@.len() implies self.keys@.contains(
            #[trigger] self.keys@[i],
        ) && self.keys@.index_of(self.keys@[i]) == i by {
            self.lemma_found(i);
        }
    }

    /// Puts `value` under `key`, in place of what was there, and marks it as
    /// changed and as bound to a thread or not.
    fn put(&mut self, key: ResourceKey, value: R, non_send: bool)
        requires
            old(self).wf(),
        ensures
            final(self).wf(),
            final(self).resources() == old(self).resources().insert(key, value),
            final(self).changed() == old(self).changed().insert(key),
            final(self).non_send() == if non_send {
                old(self).non_send().insert(key)
            } else {
                old(self).non_send().remove(key)
            },
    {
        let at = self.position(key);
        match at {
            Some(i) => {
                self.values.set(i, value);
                self.non_send.set(i, non_send);
                self.changed.set(i, true);
            },
            None => {
                self.keys.push(key);
                self.values.push(value);
                self.non_send.push(non_send);
                self.changed.push(true);
                assert(self.keys@.no_duplicates()) by {
                    assert forall|a: int, b: int|
                        0 <= a < self.keys@.len() && 0 <= b < self.keys@.len() && a
                            != b implies self.keys@[a] != self.keys@[b] by {
                        if a < old(self).keys@.len() {
                            assert(old(self).keys@.contains(old(self).keys@[a]));
                        }
                        if b < old(self).keys@.len() {
                            assert(old(self).keys@.contains(old(self).keys@[b]));
                        }
                    }
                }
            },
        }
        proof {
            old(self).lemma_slots();
            self.lemma_slots();
            let here: int = match at {
                Some(i) => i as int,
                None => old(self).keys@.len() as int,
            };
            assert(self.keys@[here] == key);
            assert forall|k: ResourceKey| self.keys@.contains(k) <==> (k == key || old(
                self,
            ).keys@.contains(k)) by {
                if old(self).keys@.contains(k) {
                    let j = old(self).keys@.index_of(k);
                    assert(self.keys@[j] == k);
                }
                if self.keys@.contains(k) && k != key {
                    let j = self.keys@.index_of(k);
                    assert(old(self).keys@[j] == k);
                }
            }
            assert forall|k: ResourceKey| k != key && old(self).keys@.contains(k) implies self.keys@.index_of(
                k,
            ) == old(self).keys@.index_of(k) by {
                let j = old(self).keys@.index_of(k);
                assert(self.keys@[j] == k);
            }
            assert(self.resources() =~= old(self).resources().insert(key, value));
            assert(self.changed() =~= old(self).changed().insert(key));
            if non_send {
                assert(self.non_send() =~= old(self).non_send().insert(key));
            } else {
                assert(self.non_send() =~= old(self).non_send().remove(key));
            }
        }
    }

    /// Puts `value` under `key`, in place of the resource that was there, if
    /// there was one. The resource counts as changed, and it is free to move
    /// between threads.
    pub fn insert_resource(&mut self, key: ResourceKey, value: R)
        requires
            old(self).wf(),
        ensures
            final(self).wf(),
            final(self).resources() == old(self).resources().insert(key, value),
            final(self).changed() == old(self).changed().insert(key),
            final(self).non_send() == old(self).non_send().remove(key),
    {
        self.put(key, value, false);
    }

    /// Puts `value` under `key`, in place of the resource that was there, if
    /// there was one. The resource counts as changed, and it is bound to the
    /// thread that inserts it.
    pub fn insert_non_send_resource(&mut self, key: ResourceKey, value: R)
        requires
            old(self).wf(),
        ensures
            final(self).wf(),
            final(self).resources() == old(self).resources().insert(key, value),
            final(self).changed() == old(self).changed().insert(key),
            final(self).non_send() == old(self).non_send().insert(key),
    {
        self.put(key, value, true);
    }

    /// Makes sure that there is a resource under `key`. Where there is none,
    /// `make` is asked for one, with this world to look at, and what it
    /// makes is inserted. Where there is one, nothing happens and `make` is
    /// not called.
    pub fn init_resource<F: FnOnce(&World<R>) -> R>(&mut self, key: ResourceKey, make: F)
        requires
            old(self).wf(),
            !old(self).has(key) ==> call_requires(make, (old(self),)),
        ensures
            final(self).wf(),
            old(self).has(key) ==> *final(self) == *old(self),
            !old(self).has(key) ==> {
                &&& final(self).has(key)
                &&& call_ensures(make, (old(self),), final(self).resources()[key])
                &&& final(self).resources() == old(self).resources().insert(
                    key,
                    final(self).resources()[key],
                )
                &&& final(self).changed() == old(self).changed().insert(key)
                &&& final(self).non_send() == old(self).non_send().remove(key)
            },
    {
        if !self.contains_resource(key) {
            let value = make(&*self);
            self.put(key, value, false);
        }
    }

    /// As [`World::init_resource`], for a resource that is bound to the
    /// thread that inserts it.
    pub fn init_non_send_resource<F: FnOnce(&World<R>) -> R>(&mut self, key: ResourceKey, make: F)
        requires
            old(self).wf(),
            !old(self).has(key) ==> call_requires(make, (old(self),)),
        ensures
            final(self).wf(),
            old(self).has(key) ==> *final(self) == *old(self),
            !old(self).has(key) ==> {
                &&& final(self).has(key)
                &&& call_ensures(make, (old(self),), final(self).resources()[key])
                &&& final(self).resources() == old(self).resources().insert(
                    key,
                    final(self).resources()[key],
                )
                &&& final(self).changed() == old(self).changed().insert(key)
                &&& final(self).non_send() == old(self).non_send().insert(key)
            },
    {
        if !self.contains_resource(key) {
            let value = make(&*self);
            self.put(key, value, true);
        }
    }

    /// Whether the resource under `key` is bound to the thread that inserted
    /// it.
    pub fn is_non_send(&self, key: ResourceKey) -> (r: bool)
        requires
            self.wf(),
        ensures
            r == self.non_send().contains(key),
    {
        match self.position(key) {
            Some(i) => self.non_send[i],
            None => false,
        }
    }

    /// Whether the resource under `key` was inserted or handed out for
    /// change since the trackers were last cleared.
    pub fn is_changed(&self, key: ResourceKey) -> (r: bool)
        requires
            self.wf(),
        ensures
            r == self.changed().contains(key),
    {
        match self.position(key) {
            Some(i) => self.changed[i],
            None => false,
        }
    }

    /// Forgets which resources have changed. This is the bookkeeping at the
    /// end of a tick.
    pub fn clear_trackers(&mut self)
        requires
            old(self).wf(),
        ensures
            final(self).wf(),
            final(self).resources() == old(self).resources(),
            final(self).non_send() == old(self).non_send(),
            final(self).changed() == Set::<ResourceKey>::empty(),
    {
        let mut i: usize = 0;
        while i < self.changed.len()
            invariant
                i <= self.changed@.len(),
                self.keys == old(self).keys,
                self.values == old(self).values,
                self.non_send == old(self).non_send,
                self.changed@.len() == old(self).changed@.len(),
                forall|j: int| 0 <= j < i ==> !self.changed@[j],
            decreases self.changed@.len() - i,
        {
            self.changed.set(i, false);
            i += 1;
        }
        assert(self.resources() =~= old(self).resources());
        assert(self.non_send() =~= old(self).non_send());
        assert(self.changed() =~= Set::<ResourceKey>::empty());
    }

    /// Takes the resource under `key` out of the world, if there is one.
    pub fn remove_resource(&mut self, key: ResourceKey) -> (r: Option<R>)
        requires
            old(self).wf(),
        ensures
            final(self).wf(),
            match r {
                Some(value) => old(self).has(key) && value == old(self).resources()[key],
                None => !old(self).has(key),
            },
            final(self).resources() == old(self).resources().remove(key),
            final(self).changed() == old(self).changed().remove(key),
            final(self).non_send() == old(self).non_send().remove(key),
    {
        let at = self.position(key);
        match at {
            Some(i) => {
                self.keys.swap_remove(i);
                let value = self.values.swap_remove(i);
                self.non_send.swap_remove(i);
                self.changed.swap_remove(i);
                proof {
                    old(self).lemma_slots();
                    let last = old(self).keys@.len() - 1;
                    assert forall|a: int| 0 <= a < self.keys@.len() implies #[trigger] self.keys@[a]
                        == old(self).keys@[if a == i { last } else { a }] by {}
                    assert(self.keys@.no_duplicates());
                    self.lemma_slots();
                    assert forall|k: ResourceKey| self.keys@.contains(k) <==> (k != key && old(
                        self,
                    ).keys@.contains(k)) by {
                        if old(self).keys@.contains(k) && k != key {
                            let j = old(self).keys@.index_of(k);
                            if j == last {
                                assert(self.keys@[i as int] == k);
                            } else {
                                assert(self.keys@[j] == k);
                            }
                        }
                        if self.keys@.contains(k) {
                            let j = self.keys@.index_of(k);
                            assert(old(self).keys@[if j == i { last } else { j }] == k);
                        }
                    }
                    assert forall|k: ResourceKey| self.keys@.contains(k) implies old(
                        self,
                    ).keys@.index_of(k) == (if self.keys@.index_of(k) == i {
                        last
                    } else {
                        self.keys@.index_of(k)
                    }) by {
                        let j = self.keys@.index_of(k);
                        assert(old(self).keys@[if j == i { last } else { j }] == k);
                    }
                    assert(self.resources() =~= old(self).resources().remove(key));
                    assert(self.changed() =~= old(self).changed().remove(key));
                    assert(self.non_send() =~= old(self).non_send().remove(key));
                }
                Some(value)
            },
            None => {
                proof {
                    assert(self.resources() =~= old(self).resources().remove(key));
                    assert(self.changed() =~= old(self).changed().remove(key));
                    assert(self.non_send() =~= old(self).non_send().remove(key));
                }
                None
            },
        }
    }

    /// The resource under `key`, to be changed in place, if there is one.
    /// The resource counts as changed from now on.
    pub fn get_resource_mut(&mut self, key: ResourceKey) -> (r: Option<&mut R>)
        requires
            old(self).wf(),
        ensures
            match r {
                Some(value) => {
                    &&& old(self).has(key)
                    &&& *value == old(self).resources()[key]
                    &&& final(self).wf()
                    &&& final(self).resources() == old(self).resources().insert(key, *final(value))
                    &&& final(self).changed() == old(self).changed().insert(key)
                    &&& final(self).non_send() == old(self).non_send()
                },
                None => !old(self).has(key) && *final(self) == *old(self),
            },
    {
        let at = self.position(key);
        match at {
            Some(i) => {
                self.changed.set(i, true);
                let value = &mut self.values[i];
                proof {
                    old(self).lemma_slots();
                }
                Some(value)
            },
            None => None,
        }
    }
}

} // verus!
