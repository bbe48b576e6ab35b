//! Assignments: the service's records pairing a learner with a subject.
//!
//! A review session is built from the (assignment id, subject id) pairs of
//! the assignments currently up for review.

use vstd::prelude::*;

verus! {

/// Paging information of an assignment collection.
#[derive(Debug, Clone)]
pub struct Pages {
    pub per_page: u64,
    pub next_url: Option<String>,
    pub previous_url: Option<String>,
}

/// The body of one assignment record.
#[derive(Debug, Clone)]
pub struct AssignmentData {
    pub subject_id: u64,
    pub subject_type: String,
    pub srs_stage: u8,
}

/// One assignment record.
#[derive(Debug, Clone)]
pub struct Assignment {
    pub id: u64,
    pub object: String,
    pub url: String,
    pub data: AssignmentData,
}

/// A page of assignment records fetched from the service.
#[derive(Debug, Clone)]
pub struct AssignmentCollection {
    pub object: String,
    pub url: String,
    pub pages: Pages,
    pub total_count: u64,
    pub data: Vec<Assignment>,
}

/// The (assignment id, subject id) pair of each assignment, in order.
pub open spec fn spec_review_pairs(assignments: Seq<Assignment>) -> Seq<(u64, u64)> {
    assignments.map_values(|a: Assignment| (a.id, a.data.subject_id))
}

/// The (assignment id, subject id) pairs that a review session is built
/// from.
pub fn review_pairs(collection: &AssignmentCollection) -> (r: Vec<(u64, u64)>)
    ensures
        r@ == spec_review_pairs(collection.data@),
{
    let mut r: Vec<(u64, u64)> = Vec::new();
    let mut i: usize = 0;
    while i < collection.data.len()
        invariant
            i <= collection.data@.len(),
            r@.len() == i,
            forall|j: int|
                0 <= j < i ==> r@[j] == (
                #[trigger] collection.data@[j].id,
                collection.data@[j].data.subject_id,
                ),
        decreases collection.data@.len() - i,
    {
        let a = &collection.data[i];
        r.push((a.id, a.data.subject_id));
        i = i + 1;
    }
    proof {
        assert(r@ =~= spec_review_pairs(collection.data@));
    }
    r
}

} // verus!
