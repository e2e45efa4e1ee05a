//! Systems: the units of work that stages run over the world.

use vstd::prelude::*;
use crate::world::{ResourceKey, World};

verus! {

/// What a system needs of the world: the resources that it reads and those
/// that it writes, or the world as a whole.
#[derive(Debug, Clone)]
pub struct Access {
    /// The keys of the resources that the system reads.
    pub reads: Vec<ResourceKey>,
    /// The keys of the resources that the system writes.
    pub writes: Vec<ResourceKey>,
    /// Whether the system needs the world to itself.
    pub exclusive: bool,
}

/// Whether `keys` and `others` have a key in common.
pub open spec fn overlap(keys: Seq<ResourceKey>, others: Seq<ResourceKey>) -> bool {
    exists|key: ResourceKey| keys.contains(key) && others.contains(key)
}

/// Decides whether `keys` holds `key`.
fn holds(keys: &Vec<ResourceKey>, key: ResourceKey) -> (r: bool)
    ensures
        r == keys@.contains(key),
{
    let mut i: usize = 0;
    while i < keys.len()
        invariant
            i <= keys@.len(),
            forall|j: int| 0 <= j < i ==> keys@[j] != key,
        decreases keys@.len() - i,
    {
        if keys[i] == key {
            return true;
        }
        i += 1;
    }
    false
}

/// Decides whether `keys` and `others` have a key in common.
fn overlaps(keys: &Vec<ResourceKey>, others: &Vec<ResourceKey>) -> (r: bool)
    ensures
        r == overlap(keys@, others@),
{
    let mut i: usize = 0;
    while i < keys.len()
        invariant
            i <= keys@.len(),
            forall|j: int| 0 <= j < i ==> !others@.contains(#[trigger] keys@[j]),
        decreases keys@.len() - i,
    {
        if holds(others, keys[i]) {
            proof {
                assert(keys@.contains(keys@[i as int]));
            }
            return true;
        }
        i += 1;
    }
    proof {
        assert forall|key: ResourceKey| keys@.contains(key) implies !others@.contains(key) by {
            let j = keys@.index_of(key);
            assert(keys@[j] == key);
        }
    }
    false
}

impl Access {
    /// Whether a system with this access and one with the access `other`
    /// get in each other's way: one of them needs the world to itself, or
    /// writes a resource that the other reads or writes. Such systems must
    /// not run side by side.
    pub open spec fn spec_conflicts_with(&self, other: &Access) -> bool {
        ||| self.exclusive
        ||| other.exclusive
        ||| overlap(self.writes@, other.reads@)
        ||| overlap(self.writes@, other.writes@)
        ||| overlap(self.reads@, other.writes@)
    }

    /// Whether a system with this access and one with the access `other`
    /// get in each other's way: one of them needs the world to itself, or
    /// writes a resource that the other reads or writes. Such systems must
    /// not run side by side.
    #[verifier::when_used_as_spec(spec_conflicts_with)]
    pub fn conflicts_with(&self, other: &Access) -> (r: bool)
        ensures
            r == self.spec_conflicts_with(other),
    {
        self.exclusive || other.exclusive || overlaps(&self.writes, &other.reads) || overlaps(
            &self.writes,
            &other.writes,
        ) || overlaps(&self.reads, &other.writes)
    }
}

/// A unit of work over a world.
///
/// What an invocation does is up to the system. `step` is the name under
/// which others speak of it: it holds of the world before an invocation and
/// the world after it. `declares` is the name for what the system says it
/// needs of the world. A system that says nothing of itself may do anything
/// and declare anything.
pub trait System {
    /// The resources of the worlds that the system works on.
    type Resource;

    /// Whether `access` is what this system says it needs of the world.
    open spec fn declares(&self, access: Access) -> bool {
        true
    }

    /// Whether one invocation of this system can turn the world `before`
    /// into the world `after`.
    open spec fn step(&self, before: World<Self::Resource>, after: World<Self::Resource>) -> bool {
        true
    }

    /// What the system needs of the world: the resources that an invocation
    /// reads and those that it writes, or the world as a whole.
    fn access(&self) -> (access: Access)
        ensures
            self.declares(access),
    ;

    /// Does the work of the system on `world`.
    fn invoke(&self, world: &mut World<Self::Resource>)
        requires
            old(world).wf(),
        ensures
            final(world).wf(),
            self.step(*old(world), *final(world)),
    ;
}

/// Whether `worlds` are the worlds that a run of `systems` passes through:
/// the world it starts from, and after it the world that each system leaves
/// to the next.
pub open spec fn is_run<S: System>(systems: Seq<S>, worlds: Seq<World<S::Resource>>) -> bool {
    &&& worlds.len() == systems.len() + 1
    &&& forall|i: int|
        0 <= i < systems.len() ==> (#[trigger] systems[i]).step(worlds[i], worlds[i + 1])
}

/// Whether invoking `systems` one after the other, each on the world that
/// the one before it left, can turn the world `before` into the world
/// `after`.
pub open spec fn reaches<S: System>(systems: Seq<S>, before: World<S::Resource>, after: World<S::Resource>) -> bool {
    exists|worlds: Seq<World<S::Resource>>| #[trigger]
        is_run(systems, worlds) && worlds.first() == before && worlds.last() == after
}

/// Invoking no system leaves the world as it is.
pub proof fn lemma_reaches_none<S: System>(systems: Seq<S>, before: World<S::Resource>, after: World<S::Resource>)
    requires
        systems.len() == 0,
    ensures
        reaches(systems, before, after) <==> after == before,
{
    if after == before {
        assert(is_run(systems, seq![before]));
    }
}

/// One more invocation extends a run by one system.
pub proof fn lemma_reaches_push<S: System>(
    systems: Seq<S>,
    system: S,
    before: World<S::Resource>,
    between: World<S::Resource>,
    after: World<S::Resource>,
)
    requires
        reaches(systems, before, between),
        system.step(between, after),
    ensures
        reaches(systems.push(system), before, after),
{
    let worlds = choose|worlds: Seq<World<S::Resource>>| #[trigger]
        is_run(systems, worlds) && worlds.first() == before && worlds.last() == between;
    assert(is_run(systems.push(system), worlds.push(after)));
}

/// A run followed by a run is a run of the one sequence of systems followed
/// by the other.
pub proof fn lemma_reaches_concat<S: System>(
    first: Seq<S>,
    second: Seq<S>,
    before: World<S::Resource>,
    between: World<S::Resource>,
    after: World<S::Resource>,
)
    requires
        reaches(first, before, between),
        reaches(second, between, after),
    ensures
        reaches(first + second, before, after),
{
    let head = choose|worlds: Seq<World<S::Resource>>| #[trigger]
        is_run(first, worlds) && worlds.first() == before && worlds.last() == between;
    let tail = choose|worlds: Seq<World<S::Resource>>| #[trigger]
        is_run(second, worlds) && worlds.first() == between && worlds.last() == after;
    let worlds = head + tail.skip(1);
    assert forall|i: int| 0 <= i < (first + second).len() implies (#[trigger] (first + second)[i]).step(
        worlds[i],
        worlds[i + 1],
    ) by {
        if i < first.len() {
            assert(first[i].step(head[i], head[i + 1]));
            if i + 1 == first.len() {
                assert(worlds[i + 1] == tail[1 + (i + 1 - head.len())]);
            }
        } else {
            let j = i - first.len();
            assert(second[j].step(tail[j], tail[j + 1]));
        }
    }
    assert(is_run(first + second, worlds));
}

/// A run of one sequence of systems followed by another passes through a
/// world at which the first sequence is done and the second has not begun.
pub proof fn lemma_reaches_split<S: System>(
    first: Seq<S>,
    second: Seq<S>,
    before: World<S::Resource>,
    after: World<S::Resource>,
) -> (between: World<S::Resource>)
    requires
        reaches(first + second, before, after),
    ensures
        reaches(first, before, between),
        reaches(second, between, after),
{
    let worlds = choose|worlds: Seq<World<S::Resource>>| #[trigger]
        is_run(first + second, worlds) && worlds.first() == before && worlds.last() == after;
    let head = worlds.take(first.len() as int + 1);
    let tail = worlds.skip(first.len() as int);
    assert forall|i: int| 0 <= i < first.len() implies (#[trigger] first[i]).step(
        head[i],
        head[i + 1],
    ) by {
        assert((first + second)[i].step(worlds[i], worlds[i + 1]));
    }
    assert forall|i: int| 0 <= i < second.len() implies (#[trigger] second[i]).step(
        tail[i],
        tail[i + 1],
    ) by {
        assert((first + second)[first.len() + i].step(
            worlds[first.len() + i],
            worlds[first.len() + i + 1],
        ));
    }
    assert(is_run(first, head));
    assert(is_run(second, tail));
    head.last()
}

} // verus!
