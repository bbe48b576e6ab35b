//! Review session state machine.
//!
//! A review session drives a queue of study items through meaning and
//! reading prompts.  Every item starts needing both answers; a correct
//! answer clears the phase's flag, a wrong answer increments the phase's
//! mistake counter and the prompt repeats.  An item whose flags are both
//! cleared is finalized exactly once: its result record is handed back for
//! submission to the remote tracker and the item leaves the queue.  The
//! session is over when the queue is empty.
//!
//! The queue keeps insertion order and the front item is always the
//! current one, so runs are reproducible.  The surrounding application
//! owns the prompt loop: it fetches the current subject, asks the session
//! what to prompt, collects the learner's input, and posts the submissions
//! the session hands back.  Any collaborator failure simply stops the
//! loop; the state here never records a submission for an unfinished item.

use vstd::prelude::*;

use crate::subject::Subject;
use crate::validate::check_meaning;
use crate::validate::check_reading;
use crate::validate::meaning_accepted;
use crate::validate::reading_matches;

verus! {

/// One study item: a subject's progress within the current session.
#[derive(Debug, Clone, Copy, PartialEq, Eq, Structural)]
pub struct ReviewItem {
    pub subject_id: u64,
    pub assignment_id: u64,
    pub incorrect_meaning_answers: u32,
    pub incorrect_reading_answers: u32,
    pub needs_meaning: bool,
    pub needs_reading: bool,
}

/// The result record reported to the tracker when an item completes.
#[derive(Debug, Clone, Copy, PartialEq, Eq, Structural)]
pub struct Submission {
    pub assignment_id: u64,
    pub incorrect_meaning_answers: u32,
    pub incorrect_reading_answers: u32,
}

/// The next step for the current item: which prompt to put to the
/// learner, or the finished item's submission when nothing is left to ask.
#[derive(Debug, Clone, Copy, PartialEq, Eq, Structural)]
pub enum ReviewAction {
    AskMeaning,
    AskReading,
    Finalize(Submission),
}

/// The outcome of grading one answer.
#[derive(Debug, Clone, Copy)]
pub struct AnswerOutcome {
    pub correct: bool,
    pub submission: Option<Submission>,
}

/// A fresh study item for an (assignment id, subject id) pair: no
/// mistakes yet, both phases still to answer.
pub open spec fn fresh_item(assignment_id: u64, subject_id: u64) -> ReviewItem {
    ReviewItem {
        subject_id: subject_id,
        assignment_id: assignment_id,
        incorrect_meaning_answers: 0,
        incorrect_reading_answers: 0,
        needs_meaning: true,
        needs_reading: true,
    }
}

/// The result record for a finished item.
pub open spec fn submission_of(item: ReviewItem) -> Submission {
    Submission {
        assignment_id: item.assignment_id,
        incorrect_meaning_answers: item.incorrect_meaning_answers,
        incorrect_reading_answers: item.incorrect_reading_answers,
    }
}

/// An item after its subject has been inspected: a radical requires no
/// reading answer.
pub open spec fn inspected(item: ReviewItem, is_radical: bool) -> ReviewItem {
    ReviewItem { needs_reading: item.needs_reading && !is_radical, ..item }
}

/// A counter increment that stops at the counter's maximum.
pub open spec fn sat_inc(c: u32) -> u32 {
    if c < u32::MAX {
        (c + 1) as u32
    } else {
        c
    }
}

/// The item after one graded answer of the pending phase: the meaning
/// while it is still needed, the reading afterwards.
pub open spec fn graded(item: ReviewItem, correct: bool) -> ReviewItem {
    if item.needs_meaning {
        if correct {
            ReviewItem { needs_meaning: false, ..item }
        } else {
            ReviewItem {
                incorrect_meaning_answers: sat_inc(item.incorrect_meaning_answers),
                ..item
            }
        }
    } else {
        if correct {
            ReviewItem { needs_reading: false, ..item }
        } else {
            ReviewItem {
                incorrect_reading_answers: sat_inc(item.incorrect_reading_answers),
                ..item
            }
        }
    }
}

/// Whether a subject id occurs in the pair list.
pub open spec fn has_subject(pairs: Seq<(u64, u64)>, subject_id: u64) -> bool {
    exists|i: int| 0 <= i < pairs.len() && pairs[i].1 == subject_id
}

/// The pair list with every later repetition of a subject id dropped: the
/// session holds one study item per subject, and the first pair for a
/// subject wins.
pub open spec fn dedup_pairs(pairs: Seq<(u64, u64)>) -> Seq<(u64, u64)>
    decreases pairs.len(),
{
    if pairs.len() == 0 {
        Seq::empty()
    } else {
        let d = dedup_pairs(pairs.drop_last());
        if has_subject(pairs.drop_last(), pairs.last().1) {
            d
        } else {
            d.push(pairs.last())
        }
    }
}

/// The fresh study items for a pair list, in order.
pub open spec fn items_of(pairs: Seq<(u64, u64)>) -> Seq<ReviewItem> {
    pairs.map_values(|p: (u64, u64)| fresh_item(p.0, p.1))
}

/// The assignment ids of a list of items, in order.
pub open spec fn item_aids(items: Seq<ReviewItem>) -> Seq<u64> {
    items.map_values(|it: ReviewItem| it.assignment_id)
}

/// The assignment ids of a list of submissions, in order.
pub open spec fn sub_aids(subs: Seq<Submission>) -> Seq<u64> {
    subs.map_values(|s: Submission| s.assignment_id)
}

/// Deduplication keeps exactly the subject ids of the given list.
proof fn lemma_dedup_same_subjects(pairs: Seq<(u64, u64)>, subject_id: u64)
    ensures
        has_subject(dedup_pairs(pairs), subject_id) == has_subject(pairs, subject_id),
    decreases pairs.len(),
{
    if pairs.len() == 0 {
    } else {
        let front = pairs.drop_last();
        lemma_dedup_same_subjects(front, subject_id);
        assert(forall|i: int| 0 <= i < front.len() ==> front[i] == pairs[i]);
        let d = dedup_pairs(front);
        if has_subject(front, pairs.last().1) {
            if has_subject(pairs, subject_id) {
                let w = choose|i: int| 0 <= i < pairs.len() && pairs[i].1 == subject_id;
                if w < pairs.len() - 1 {
                    assert(front[w].1 == subject_id);
                } else {
                    lemma_dedup_same_subjects(front, pairs.last().1);
                }
            }
        } else {
            assert(forall|i: int| 0 <= i < d.len() ==> d.push(pairs.last())[i] == d[i]);
            assert(d.push(pairs.last())[d.len() as int] == pairs.last());
            if has_subject(pairs, subject_id) {
                let w = choose|i: int| 0 <= i < pairs.len() && pairs[i].1 == subject_id;
                if w < pairs.len() - 1 {
                    assert(front[w].1 == subject_id);
                    assert(has_subject(front, subject_id));
                } else {
                    assert(pairs.last().1 == subject_id);
                }
            }
            if has_subject(d.push(pairs.last()), subject_id) {
                let w = choose|i: int|
                    0 <= i < d.push(pairs.last()).len() && d.push(pairs.last())[i].1 == subject_id;
                if w < d.len() {
                    assert(d[w].1 == subject_id);
                } else {
                    assert(pairs.last().1 == subject_id);
                }
            }
        }
    }
}

/// Deduplication leaves no two pairs with the same subject id.
proof fn lemma_dedup_distinct(pairs: Seq<(u64, u64)>)
    ensures
        forall|i: int, j: int|
            0 <= i < j < dedup_pairs(pairs).len()
                ==> (#[trigger] dedup_pairs(pairs)[i]).1 != (#[trigger] dedup_pairs(pairs)[j]).1,
    decreases pairs.len(),
{
    if pairs.len() == 0 {
    } else {
        let front = pairs.drop_last();
        lemma_dedup_distinct(front);
        let d = dedup_pairs(front);
        if has_subject(front, pairs.last().1) {
        } else {
            lemma_dedup_same_subjects(front, pairs.last().1);
            assert(!has_subject(d, pairs.last().1));
            assert forall|i: int, j: int|
                0 <= i < j < d.push(pairs.last()).len() implies (#[trigger] d.push(
                pairs.last(),
            )[i]).1 != (#[trigger] d.push(pairs.last())[j]).1 by {
                if j < d.len() {
                    assert(d.push(pairs.last())[i] == d[i]);
                    assert(d.push(pairs.last())[j] == d[j]);
                } else {
                    assert(d.push(pairs.last())[j] == pairs.last());
                    assert(d.push(pairs.last())[i] == d[i]);
                    if d[i].1 == pairs.last().1 {
                        assert(has_subject(d, pairs.last().1));
                    }
                }
            }
        }
    }
}

/// A review session: the active study items, front first, and the
/// submissions already made.
pub struct ReviewSession {
    /// The active set, in insertion order; the front item is the current
    /// one.
    pub items: Vec<ReviewItem>,
    /// The submissions of finished items, in completion order.
    pub submitted: Vec<Submission>,
    /// The assignment ids the session was built from.
    pub initial_aids: Ghost<Seq<u64>>,
}

impl ReviewSession {
    /// Session invariant: an item still in the queue has a phase left to
    /// answer; no two items share a subject; and the submissions made and
    /// the items still active together carry exactly the assignment ids
    /// the session was built from.
    pub open spec fn wf(&self) -> bool {
        &&& forall|i: int|
            0 <= i < self.items@.len() ==> (#[trigger] self.items@[i]).needs_meaning
                || self.items@[i].needs_reading
        &&& forall|i: int, j: int|
            0 <= i < j < self.items@.len()
                ==> (#[trigger] self.items@[i]).subject_id != (#[trigger] self.items@[j]).subject_id
        &&& sub_aids(self.submitted@) + item_aids(self.items@) == self.initial_aids@
    }

    /// Builds a session from (assignment id, subject id) pairs.  One study
    /// item per subject id; a repeated subject id keeps its first pair.
    /// Every item starts with both phases needed and no mistakes.
    pub fn new(assignment_ids: Vec<(u64, u64)>) -> (s: Self)
        ensures
            s.wf(),
            s.items@ == items_of(dedup_pairs(assignment_ids@)),
            s.submitted@.len() == 0,
            s.initial_aids@ == item_aids(items_of(dedup_pairs(assignment_ids@))),
    {
        let n = assignment_ids.len();
        let mut items: Vec<ReviewItem> = Vec::new();
        let mut i: usize = 0;
        proof {
            assert(assignment_ids@.subrange(0, 0) =~= Seq::<(u64, u64)>::empty());
            assert(items@ =~= items_of(dedup_pairs(assignment_ids@.subrange(0, 0))));
        }
        while i < n
            invariant
                n == assignment_ids@.len(),
                i <= n,
                items@ == items_of(dedup_pairs(assignment_ids@.subrange(0, i as int))),
            decreases n - i,
        {
            let ghost prefix = assignment_ids@.subrange(0, i as int);
            let pair = assignment_ids[i];
            let mut seen = false;
            let mut j: usize = 0;
            while j < items.len()
                invariant
                    j <= items@.len(),
                    items@ == items_of(dedup_pairs(prefix)),
                    seen == exists|k: int| 0 <= k < j && items@[k].subject_id == pair.1,
                decreases items@.len() - j,
            {
                if items[j].subject_id == pair.1 {
                    seen = true;
                }
                j = j + 1;
            }
            proof {
                assert(seen == has_subject(dedup_pairs(prefix), pair.1)) by {
                    if seen {
                        let k = choose|k: int|
                            0 <= k < items@.len() && items@[k].subject_id == pair.1;
                        assert(dedup_pairs(prefix)[k].1 == pair.1);
                    }
                    if has_subject(dedup_pairs(prefix), pair.1) {
                        let k = choose|k: int|
                            0 <= k < dedup_pairs(prefix).len() && dedup_pairs(prefix)[k].1
                                == pair.1;
                        assert(items@[k].subject_id == pair.1);
                    }
                }
                lemma_dedup_same_subjects(prefix, pair.1);
                let next = assignment_ids@.subrange(0, i as int + 1);
                assert(next.drop_last() =~= prefix);
                assert(next.last() == pair);
            }
            if !seen {
                items.push(
                    ReviewItem {
                        subject_id: pair.1,
                        assignment_id: pair.0,
                        incorrect_meaning_answers: 0,
                        incorrect_reading_answers: 0,
                        needs_meaning: true,
                        needs_reading: true,
                    },
                );
                proof {
                    let next = assignment_ids@.subrange(0, i as int + 1);
                    assert(items@ =~= items_of(dedup_pairs(next)));
                }
            } else {
                proof {
                    let next = assignment_ids@.subrange(0, i as int + 1);
                    assert(items@ =~= items_of(dedup_pairs(next)));
                }
            }
            i = i + 1;
        }
        proof {
            assert(assignment_ids@.subrange(0, n as int) =~= assignment_ids@);
        }
        let s = ReviewSession {
            items,
            submitted: Vec::new(),
            initial_aids: Ghost(item_aids(items_of(dedup_pairs(assignment_ids@)))),
        };
        proof {
            lemma_dedup_distinct(assignment_ids@);
            assert(sub_aids(s.submitted@) + item_aids(s.items@) =~= s.initial_aids@);
        }
        s
    }

    /// The number of items still active.
    pub fn remaining(&self) -> (n: usize)
        ensures
            n == self.items@.len(),
    {
        self.items.len()
    }

    /// Whether every item has been finished and submitted.
    pub fn is_finished(&self) -> (b: bool)
        ensures
            b == (self.items@.len() == 0),
    {
        self.items.is_empty()
    }

    /// The subject id of the current item, the front of the queue.
    pub fn current_subject_id(&self) -> (subject_id: u64)
        requires
            self.items@.len() > 0,
        ensures
            subject_id == self.items@[0].subject_id,
    {
        self.items[0].subject_id
    }

    /// The submissions made so far, in completion order.
    pub fn submissions(&self) -> (subs: &Vec<Submission>)
        ensures
            subs@ == self.submitted@,
    {
        &self.submitted
    }

    /// Decides the next step for the current item once its subject is
    /// known.  A radical requires no reading, so that flag is dropped on
    /// first inspection; then the meaning prompt comes before the reading
    /// prompt.  Should dropping the reading requirement leave nothing to
    /// ask, the item is finalized at once: its result is recorded and
    /// returned and the item leaves the queue.
    pub fn current_action(&mut self, subject: &Subject) -> (a: ReviewAction)
        requires
            old(self).wf(),
            old(self).items@.len() > 0,
            subject.id == old(self).items@[0].subject_id,
        ensures
            final(self).wf(),
            final(self).initial_aids@ == old(self).initial_aids@,
            ({
                let cleared = inspected(old(self).items@[0], subject.data is Radical);
                if cleared.needs_meaning {
                    &&& a == ReviewAction::AskMeaning
                    &&& final(self).items@ == old(self).items@.update(0, cleared)
                    &&& final(self).submitted@ == old(self).submitted@
                } else if cleared.needs_reading {
                    &&& a == ReviewAction::AskReading
                    &&& final(self).items@ == old(self).items@.update(0, cleared)
                    &&& final(self).submitted@ == old(self).submitted@
                } else {
                    &&& a == ReviewAction::Finalize(submission_of(cleared))
                    &&& final(self).items@ == old(self).items@.drop_first()
                    &&& final(self).submitted@ == old(self).submitted@.push(
                        submission_of(cleared),
                    )
                }
            }),
    {
        let mut item = self.items.remove(0);
        if subject.is_radical() {
            item.needs_reading = false;
        }
        proof {
            assert(item == inspected(old(self).items@[0], subject.data is Radical));
        }
        if item.needs_meaning || item.needs_reading {
            self.items.insert(0, item);
            proof {
                lemma_requeue_front(old(self).items@, self.items@, item);
                assert(sub_aids(self.submitted@) + item_aids(self.items@) =~= sub_aids(
                    old(self).submitted@,
                ) + item_aids(old(self).items@));
            }
            if item.needs_meaning {
                ReviewAction::AskMeaning
            } else {
                ReviewAction::AskReading
            }
        } else {
            let sub = Submission {
                assignment_id: item.assignment_id,
                incorrect_meaning_answers: item.incorrect_meaning_answers,
                incorrect_reading_answers: item.incorrect_reading_answers,
            };
            self.submitted.push(sub);
            proof {
                lemma_drop_front(old(self).items@, self.items@);
                lemma_accounting_finalize(old(self).submitted@, old(self).items@, item);
            }
            ReviewAction::Finalize(sub)
        }
    }

    /// Grades the learner's answer for the current item's pending phase:
    /// the meaning while it is still needed, the reading afterwards.  A
    /// correct answer clears the phase's flag; a wrong answer increments
    /// the phase's mistake counter and leaves the prompt to be repeated.
    /// Once both flags are cleared the item is finalized exactly once: its
    /// result record is recorded and returned, and the item leaves the
    /// queue.
    pub fn answer_current(&mut self, subject: &Subject, answer: &str) -> (r: AnswerOutcome)
        requires
            old(self).wf(),
            old(self).items@.len() > 0,
            subject.id == old(self).items@[0].subject_id,
        ensures
            final(self).wf(),
            final(self).initial_aids@ == old(self).initial_aids@,
            ({
                let item = old(self).items@[0];
                let correct = if item.needs_meaning {
                    meaning_accepted(subject.data, answer@)
                } else {
                    reading_matches(subject.data, answer@)
                };
                let updated = graded(item, correct);
                &&& r.correct == correct
                &&& if updated.needs_meaning || updated.needs_reading {
                    &&& r.submission is None
                    &&& final(self).items@ == old(self).items@.update(0, updated)
                    &&& final(self).submitted@ == old(self).submitted@
                } else {
                    &&& r.submission == Some(submission_of(updated))
                    &&& final(self).items@ == old(self).items@.drop_first()
                    &&& final(self).submitted@ == old(self).submitted@.push(
                        submission_of(updated),
                    )
                }
            }),
    {
        let mut item = self.items.remove(0);
        let correct: bool;
        if item.needs_meaning {
            correct = check_meaning(subject, answer);
            if correct {
                item.needs_meaning = false;
            } else if item.incorrect_meaning_answers < u32::MAX {
                item.incorrect_meaning_answers = item.incorrect_meaning_answers + 1;
            }
        } else {
            correct = check_reading(subject, answer);
            if correct {
                item.needs_reading = false;
            } else if item.incorrect_reading_answers < u32::MAX {
                item.incorrect_reading_answers = item.incorrect_reading_answers + 1;
            }
        }
        proof {
            assert(item == graded(
                old(self).items@[0],
                if old(self).items@[0].needs_meaning {
                    meaning_accepted(subject.data, answer@)
                } else {
                    reading_matches(subject.data, answer@)
                },
            ));
        }
        if item.needs_meaning || item.needs_reading {
            self.items.insert(0, item);
            proof {
                lemma_requeue_front(old(self).items@, self.items@, item);
                assert(sub_aids(self.submitted@) + item_aids(self.items@) =~= sub_aids(
                    old(self).submitted@,
                ) + item_aids(old(self).items@));
            }
            AnswerOutcome { correct, submission: None }
        } else {
            let sub = Submission {
                assignment_id: item.assignment_id,
                incorrect_meaning_answers: item.incorrect_meaning_answers,
                incorrect_reading_answers: item.incorrect_reading_answers,
            };
            self.submitted.push(sub);
            proof {
                lemma_drop_front(old(self).items@, self.items@);
                lemma_accounting_finalize(old(self).submitted@, old(self).items@, item);
            }
            AnswerOutcome { correct, submission: Some(sub) }
        }
    }
}

/// Removing the front item and re-inserting its updated version is an
/// update in place; it keeps every assignment id and every other item.
proof fn lemma_requeue_front(
    before: Seq<ReviewItem>,
    after: Seq<ReviewItem>,
    updated: ReviewItem,
)
    requires
        before.len() > 0,
        updated.assignment_id == before[0].assignment_id,
        after == before.remove(0).insert(0, updated),
    ensures
        after == before.update(0, updated),
        item_aids(after) == item_aids(before),
{
    assert(after =~= before.update(0, updated));
    assert(item_aids(after) =~= item_aids(before));
}

/// Removing the front item leaves the rest of the queue.
proof fn lemma_drop_front(before: Seq<ReviewItem>, after: Seq<ReviewItem>)
    requires
        before.len() > 0,
        after == before.remove(0),
    ensures
        after == before.drop_first(),
{
    assert(after =~= before.drop_first());
}

/// Finalizing the front item moves its assignment id from the active
/// queue to the submissions, keeping the combined id list unchanged.
proof fn lemma_accounting_finalize(
    subs: Seq<Submission>,
    items: Seq<ReviewItem>,
    finished: ReviewItem,
)
    requires
        items.len() > 0,
        finished.assignment_id == items[0].assignment_id,
    ensures
        sub_aids(subs.push(submission_of(finished))) + item_aids(items.drop_first()) == sub_aids(
            subs,
        ) + item_aids(items),
{
    assert(sub_aids(subs.push(submission_of(finished))) =~= sub_aids(subs).push(
        finished.assignment_id,
    ));
    assert(item_aids(items.drop_first()) =~= item_aids(items).drop_first());
    assert(sub_aids(subs).push(finished.assignment_id) + item_aids(items).drop_first() =~= sub_aids(
        subs,
    ) + item_aids(items));
}

/// Law: in every well-formed session state, an item still in the active
/// queue has a phase left to answer, and the submissions made so far plus
/// the items still active carry exactly the assignment ids the session was
/// built from - so an item that has left the queue has been submitted
/// exactly once, and nothing else ever is.
pub proof fn lemma_session_accounting(s: ReviewSession)
    requires
        s.wf(),
    ensures
        forall|i: int|
            0 <= i < s.items@.len() ==> (#[trigger] s.items@[i]).needs_meaning
                || s.items@[i].needs_reading,
        sub_aids(s.submitted@) + item_aids(s.items@) == s.initial_aids@,
{
}

} // verus!
