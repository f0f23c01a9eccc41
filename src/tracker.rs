use vstd::prelude::*;

use std::collections::HashSet;

use crate::chain::Chain;

verus! {

broadcast use vstd::std_specs::hash::group_hash_axioms;

/// Why the indexed heights of a chain could not be read: the store that
/// holds them did not answer. Never the same as an empty set.
#[derive(Debug, Clone, PartialEq, Eq)]
pub enum TrackerError {
    Unreachable(String),
}

/// The heights of one chain's blocks that are fully indexed. Heights are only
/// ever added; marking a height that is already there changes nothing.
#[derive(Debug, Clone)]
pub struct IndexedBlocks {
    chain: String,
    heights: Vec<i64>,
}

impl View for IndexedBlocks {
    type V = Set<i64>;

    closed spec fn view(&self) -> Set<i64> {
        self.heights@.to_set()
    }
}

/// The set reached from `start` by marking `marks` one after another.
pub open spec fn after_marks(start: Set<i64>, marks: Seq<i64>) -> Set<i64>
    decreases marks.len(),
{
    if marks.len() == 0 {
        start
    } else {
        after_marks(start, marks.drop_last()).insert(marks.last())
    }
}

impl IndexedBlocks {
    /// The name of the chain whose heights these are.
    pub closed spec fn key(&self) -> Seq<char> {
        self.chain@
    }

    /// A chain with no block indexed yet.
    pub fn new(chain: &Chain) -> (r: IndexedBlocks)
        ensures
            r@ == Set::<i64>::empty(),
            r.key() == chain.name@,
    {
        let r = IndexedBlocks { chain: chain.name.clone(), heights: Vec::new() };
        assert(r@ =~= Set::<i64>::empty());
        r
    }

    /// Rebuilds a chain's set from what its store answered: the heights it
    /// holds, or the reason it could not be read, which is passed on as a
    /// connectivity error and never taken for an empty set.
    pub fn restore(chain: &Chain, reply: Result<Vec<i64>, String>) -> (r: Result<
        IndexedBlocks,
        TrackerError,
    >)
        ensures
            r is Ok <==> reply is Ok,
            reply matches Ok(v) ==> r->Ok_0@ == v@.to_set() && r->Ok_0.key() == chain.name@,
            reply matches Err(m) ==> r matches Err(TrackerError::Unreachable(e)) && e@ == m@,
    {
        match reply {
            Ok(heights) => Ok(IndexedBlocks { chain: chain.name.clone(), heights }),
            Err(m) => Err(TrackerError::Unreachable(m)),
        }
    }

    /// The name of the chain whose heights these are.
    pub fn chain(&self) -> (r: &str)
        ensures
            r@ == self.key(),
    {
        self.chain.as_str()
    }

    /// Whether `height` is indexed.
    pub fn contains(&self, height: i64) -> (r: bool)
        ensures
            r == self@.contains(height),
    {
        let mut i: usize = 0;
        while i < self.heights.len()
            invariant
                i <= self.heights@.len(),
                forall|k: int| 0 <= k < i ==> self.heights@[k] != height,
            decreases self.heights@.len() - i,
        {
            if self.heights[i] == height {
                assert(self.heights@.contains(height));
                return true;
            }
            i = i + 1;
        }
        false
    }

    /// Records `height` as indexed. Returns whether it was new; marking a
    /// height twice has no further effect.
    pub fn mark_indexed(&mut self, height: i64) -> (r: bool)
        ensures
            final(self)@ == old(self)@.insert(height),
            final(self).key() == old(self).key(),
            r == !old(self)@.contains(height),
    {
        if self.contains(height) {
            assert(self@.insert(height) =~= self@);
            false
        } else {
            self.heights.push(height);
            proof {
                old(self).heights@.lemma_push_to_set_commute(height);
            }
            true
        }
    }

    /// Every indexed height of the chain.
    pub fn get_indexed_blocks(&self) -> (r: HashSet<i64>)
        ensures
            r@ == self@,
    {
        let mut out: HashSet<i64> = HashSet::new();
        let mut i: usize = 0;
        while i < self.heights.len()
            invariant
                i <= self.heights@.len(),
                out@ == self.heights@.subrange(0, i as int).to_set(),
            decreases self.heights@.len() - i,
        {
            out.insert(self.heights[i]);
            proof {
                self.heights@.subrange(0, i as int).lemma_push_to_set_commute(self.heights@[i as int]);
                assert(self.heights@.subrange(0, i as int).push(self.heights@[i as int])
                    =~= self.heights@.subrange(0, i as int + 1));
            }
            i = i + 1;
        }
        assert(self.heights@.subrange(0, self.heights@.len() as int) =~= self.heights@);
        out
    }
}

/// Marking a height a second time leaves the indexed set as the first
/// marking left it.
pub proof fn lemma_mark_twice(blocks: IndexedBlocks, height: i64)
    ensures
        blocks@.insert(height).insert(height) == blocks@.insert(height),
{
    assert(blocks@.insert(height).insert(height) =~= blocks@.insert(height));
}

/// No mark is lost: whatever order the marks come in, with repeats or not,
/// the indexed set ends as the starting set together with every marked height.
pub proof fn lemma_marks_lose_nothing(start: Set<i64>, marks: Seq<i64>)
    ensures
        after_marks(start, marks) == start + marks.to_set(),
    decreases marks.len(),
{
    if marks.len() == 0 {
        assert(marks.to_set() =~= Set::<i64>::empty());
        assert(start + marks.to_set() =~= start);
    } else {
        lemma_marks_lose_nothing(start, marks.drop_last());
        marks.drop_last().lemma_push_to_set_commute(marks.last());
        assert(marks.drop_last().push(marks.last()) =~= marks);
        assert(after_marks(start, marks) =~= start + marks.to_set());
    }
}

} // verus!
