//! The summary report: which lessons and reviews the service says are
//! currently available.
//!
//! The core only flattens the report's blocks into the subject id lists
//! that the session constructors take; it does not compute due dates.

use vstd::prelude::*;

verus! {

/// A block of lessons that became available together.
#[derive(Debug, Clone)]
pub struct LessonBlock {
    pub subject_ids: Vec<u64>,
}

/// A block of reviews that became available together.
#[derive(Debug, Clone)]
pub struct ReviewBlock {
    pub subject_ids: Vec<u64>,
}

/// The body of a summary report.
#[derive(Debug, Clone)]
pub struct SummaryData {
    pub lessons: Vec<LessonBlock>,
    pub reviews: Vec<ReviewBlock>,
}

/// A summary report fetched from the service.
#[derive(Debug, Clone)]
pub struct Summary {
    pub object: String,
    pub url: String,
    pub data: SummaryData,
}

/// The blocks' id lists laid end to end, in block order.
pub open spec fn flattened_ids(blocks: Seq<Seq<u64>>) -> Seq<u64>
    decreases blocks.len(),
{
    if blocks.len() == 0 {
        Seq::empty()
    } else {
        flattened_ids(blocks.drop_last()) + blocks.last()
    }
}

/// The id lists of the lesson blocks, in order.
pub open spec fn lesson_id_blocks(data: SummaryData) -> Seq<Seq<u64>> {
    data.lessons@.map_values(|b: LessonBlock| b.subject_ids@)
}

/// The id lists of the review blocks, in order.
pub open spec fn review_id_blocks(data: SummaryData) -> Seq<Seq<u64>> {
    data.reviews@.map_values(|b: ReviewBlock| b.subject_ids@)
}

impl Summary {
    /// All subject ids with an available lesson, in block order.
    pub fn get_available_lessons(&self) -> (r: Vec<u64>)
        ensures
            r@ == flattened_ids(lesson_id_blocks(self.data)),
    {
        let ghost blocks = lesson_id_blocks(self.data);
        let mut r: Vec<u64> = Vec::new();
        let mut i: usize = 0;
        proof {
            assert(blocks.subrange(0, 0) =~= Seq::<Seq<u64>>::empty());
            assert(r@ =~= flattened_ids(blocks.subrange(0, 0)));
        }
        while i < self.data.lessons.len()
            invariant
                i <= self.data.lessons@.len(),
                blocks == lesson_id_blocks(self.data),
                r@ == flattened_ids(blocks.subrange(0, i as int)),
            decreases self.data.lessons@.len() - i,
        {
            let block = &self.data.lessons[i];
            let ghost r0 = r@;
            let mut j: usize = 0;
            while j < block.subject_ids.len()
                invariant
                    j <= block.subject_ids@.len(),
                    r@ == r0 + block.subject_ids@.subrange(0, j as int),
                decreases block.subject_ids@.len() - j,
            {
                r.push(block.subject_ids[j]);
                j = j + 1;
                proof {
                    assert(r@ =~= r0 + block.subject_ids@.subrange(0, j as int));
                }
            }
            i = i + 1;
            proof {
                let pre = blocks.subrange(0, i as int);
                assert(pre.drop_last() =~= blocks.subrange(0, i as int - 1));
                assert(pre.last() == block.subject_ids@);
                assert(block.subject_ids@.subrange(0, block.subject_ids@.len() as int)
                    =~= block.subject_ids@);
            }
        }
        proof {
            assert(blocks.subrange(0, blocks.len() as int) =~= blocks);
        }
        r
    }

    /// All subject ids with an available review, in block order.
    pub fn get_available_reviews(&self) -> (r: Vec<u64>)
        ensures
            r@ == flattened_ids(review_id_blocks(self.data)),
    {
        let ghost blocks = review_id_blocks(self.data);
        let mut r: Vec<u64> = Vec::new();
        let mut i: usize = 0;
        proof {
            assert(blocks.subrange(0, 0) =~= Seq::<Seq<u64>>::empty());
            assert(r@ =~= flattened_ids(blocks.subrange(0, 0)));
        }
        while i < self.data.reviews.len()
            invariant
                i <= self.data.reviews@.len(),
                blocks == review_id_blocks(self.data),
                r@ == flattened_ids(blocks.subrange(0, i as int)),
            decreases self.data.reviews@.len() - i,
        {
            let block = &self.data.reviews[i];
            let ghost r0 = r@;
            let mut j: usize = 0;
            while j < block.subject_ids.len()
                invariant
                    j <= block.subject_ids@.len(),
                    r@ == r0 + block.subject_ids@.subrange(0, j as int),
                decreases block.subject_ids@.len() - j,
            {
                r.push(block.subject_ids[j]);
                j = j + 1;
                proof {
                    assert(r@ =~= r0 + block.subject_ids@.subrange(0, j as int));
                }
            }
            i = i + 1;
            proof {
                let pre = blocks.subrange(0, i as int);
                assert(pre.drop_last() =~= blocks.subrange(0, i as int - 1));
                assert(pre.last() == block.subject_ids@);
                assert(block.subject_ids@.subrange(0, block.subject_ids@.len() as int)
                    =~= block.subject_ids@);
            }
        }
        proof {
            assert(blocks.subrange(0, blocks.len() as int) =~= blocks);
        }
        r
    }
}

} // verus!
