//! At-most-once handling of arrived paths, and the checks an arrival
//! passes before it is worked on.

use vstd::prelude::*;
use crate::text::{is_hidden_name, is_hidden_spec, same_text};

verus! {

/// The paths already handled in this process; it only grows.
pub struct ProcessedSet {
    paths: Vec<String>,
}

impl View for ProcessedSet {
    type V = Set<Seq<char>>;

    closed spec fn view(&self) -> Set<Seq<char>> {
        Set::new(|p: Seq<char>| exists|j: int| 0 <= j < self.paths@.len() && #[trigger] self.paths@[j]@ == p)
    }
}

/// Whether an arrival at `path` is to be worked on, given the set of
/// processed paths.
pub open spec fn should_process_spec(processed: Set<Seq<char>>, path: Seq<char>) -> bool {
    !processed.contains(path)
}

/// The set after marking each of `later`, in order.
pub open spec fn after_marks(processed: Set<Seq<char>>, later: Seq<Seq<char>>) -> Set<Seq<char>>
    decreases later.len(),
{
    if later.len() == 0 {
        processed
    } else {
        after_marks(processed, later.drop_last()).insert(later.last())
    }
}

impl ProcessedSet {
    /// An empty set.
    pub fn new() -> (r: ProcessedSet)
        ensures
            r@ == Set::<Seq<char>>::empty(),
    {
        let r = ProcessedSet { paths: Vec::new() };
        assert(r@ =~= Set::<Seq<char>>::empty());
        r
    }

    /// Whether `path` was marked.
    pub fn contains(&self, path: &str) -> (r: bool)
        ensures
            r == self@.contains(path@),
    {
        let mut j: usize = 0;
        while j < self.paths.len()
            invariant
                j <= self.paths@.len(),
                forall|m: int| 0 <= m < j ==> #[trigger] self.paths@[m]@ != path@,
            decreases self.paths@.len() - j,
        {
            if same_text(self.paths[j].as_str(), path) {
                assert(self.paths@[j as int]@ == path@);
                return true;
            }
            j += 1;
        }
        false
    }

    /// Whether an arrival at `path` is to be worked on: not if it was
    /// already handled.
    pub fn should_process(&self, path: &str) -> (r: bool)
        ensures
            r == should_process_spec(self@, path@),
    {
        !self.contains(path)
    }

    /// Marks `path` as handled.
    pub fn mark_processed(&mut self, path: &str)
        ensures
            final(self)@ == old(self)@.insert(path@),
    {
        let ghost before = self.paths@;
        self.paths.push(String::from_str(path));
        assert forall|p: Seq<char>| #[trigger] self@.contains(p) == old(self)@.insert(path@).contains(p) by {
            if p == path@ {
                assert(self.paths@[before.len() as int]@ == p);
            } else if old(self)@.contains(p) {
                let j = choose|j: int| 0 <= j < before.len() && #[trigger] before[j]@ == p;
                assert(self.paths@[j]@ == p);
            } else if self@.contains(p) {
                let j = choose|j: int| 0 <= j < self.paths@.len() && #[trigger] self.paths@[j]@ == p;
                assert(j < before.len());
                assert(before[j]@ == p);
            }
        }
        assert(self@ =~= old(self)@.insert(path@));
    }
}

/// Once a path is marked, no later marks make it eligible again.
pub proof fn lemma_processed_stays_processed(
    processed: Set<Seq<char>>,
    path: Seq<char>,
    later: Seq<Seq<char>>,
)
    ensures
        !should_process_spec(after_marks(processed.insert(path), later), path),
    decreases later.len(),
{
    if later.len() > 0 {
        lemma_processed_stays_processed(processed, path, later.drop_last());
    }
}

/// The first check of an arrival: dropped while paused, and dropped when
/// already handled.
pub fn admit_arrival(processed: &ProcessedSet, path: &str, paused: bool) -> (r: bool)
    ensures
        r == (!paused && should_process_spec(processed@, path@)),
{
    !paused && processed.should_process(path)
}

/// The check after the settle delay: the file must still be there, and its
/// name must not mark a hidden or an editor's transient file.
pub fn ready_after_settle(still_exists: bool, filename: &str) -> (r: bool)
    ensures
        r == (still_exists && !is_hidden_spec(filename@)),
{
    still_exists && !is_hidden_name(filename)
}

} // verus!
