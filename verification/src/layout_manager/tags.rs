use std::collections::HashSet;
use vstd::prelude::*;
use vstd::std_specs::iter::IteratorSpec;

verus! {

/// Whether two sets of tags have a tag in common.
pub open spec fn intersects(a: Set<u32>, b: Set<u32>) -> bool {
    exists|t: u32| #[trigger] a.contains(t) && b.contains(t)
}

/// Tells whether two sets of tags have a tag in common.
pub fn have_common_tag(a: &HashSet<u32>, b: &HashSet<u32>) -> (common: bool)
    ensures
        common == intersects(a@, b@),
{
    broadcast use vstd::std_specs::hash::group_hash_axioms;

    let mut found = false;
    let ghost keys: Seq<u32> = a.iter().remaining().unref();
    for t in it: a.iter()
        invariant
            keys == it.seq().unref(),
            keys.to_set() == a@,
            found ==> intersects(a@, b@),
            !found ==> forall|j: int| 0 <= j < it.index() ==> !b@.contains(#[trigger] keys[j]),
    {
        if b.contains(t) {
            proof {
                let j = it.index();
                assert(keys[j] == *t);
                assert(keys.contains(keys[j]));
                assert(a@.contains(*t));
            }
            found = true;
        }
    }
    proof {
        if !found && intersects(a@, b@) {
            let t = choose|t: u32| #[trigger] a@.contains(t) && b@.contains(t);
            assert(keys.contains(t));
        }
    }
    found
}

/// The tags that are on display. Everything else only reads it; the one
/// way to change it is `switch_to`.
pub struct ActiveTagSet {
    tags: HashSet<u32>,
}

impl View for ActiveTagSet {
    type V = Set<u32>;

    closed spec fn view(&self) -> Set<u32> {
        self.tags@
    }
}

impl ActiveTagSet {
    /// The set that holds `tag` alone.
    pub fn new(tag: u32) -> (active: ActiveTagSet)
        ensures
            active@ == set![tag],
    {
        broadcast use vstd::std_specs::hash::group_hash_axioms;

        let mut tags = HashSet::new();
        tags.insert(tag);
        assert(tags@ =~= set![tag]);
        ActiveTagSet { tags }
    }

    /// Puts `tag` alone on display.
    pub fn switch_to(&mut self, tag: u32)
        ensures
            final(self)@ == set![tag],
    {
        broadcast use vstd::std_specs::hash::group_hash_axioms;

        self.tags.clear();
        self.tags.insert(tag);
        assert(self.tags@ =~= set![tag]);
    }

    /// Whether `tag` is on display.
    pub fn contains(&self, tag: u32) -> (shown: bool)
        ensures
            shown == self@.contains(tag),
    {
        broadcast use vstd::std_specs::hash::group_hash_axioms;

        self.tags.contains(&tag)
    }

    /// Whether one of `tags` is on display.
    pub fn shows(&self, tags: &HashSet<u32>) -> (shown: bool)
        ensures
            shown == intersects(self@, tags@),
    {
        have_common_tag(&self.tags, tags)
    }
}

} // verus!
