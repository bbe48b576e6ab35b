//! Lesson session: a linear walk over new subjects.
//!
//! A lesson session presents subjects one after the other with no
//! correctness checking, no counters and no submissions.  At each step the
//! learner either advances to the next subject or quits with the dedicated
//! quit command, ending the session early.  The session is over when the
//! cursor reaches the end of the list or the learner has quit.
//!
//! The surrounding application owns the walk's input and output: it
//! fetches and shows each subject's material and hands the learner's
//! command back to the session.

use vstd::prelude::*;

verus! {

/// A lesson session: an ordered list of subject ids and a cursor.
pub struct LessonSession {
    /// The subjects to present, in order.
    pub subject_ids: Vec<u64>,
    /// The zero-based cursor; the session is over once it reaches the end
    /// of the list.
    pub current_index: usize,
}

impl LessonSession {
    /// Session invariant: the cursor never passes the end of the list.
    pub open spec fn wf(&self) -> bool {
        self.current_index <= self.subject_ids@.len()
    }

    /// Builds a lesson session over the given subjects, starting at the
    /// first.
    pub fn new(subject_ids: Vec<u64>) -> (s: Self)
        ensures
            s.wf(),
            s.subject_ids@ == subject_ids@,
            s.current_index == 0,
    {
        LessonSession { subject_ids, current_index: 0 }
    }

    /// Whether the walk has reached the end of the list.
    pub fn is_finished(&self) -> (b: bool)
        ensures
            b == (self.current_index >= self.subject_ids@.len()),
    {
        self.current_index >= self.subject_ids.len()
    }

    /// The subject id under the cursor.
    pub fn current_subject_id(&self) -> (subject_id: u64)
        requires
            self.current_index < self.subject_ids@.len(),
        ensures
            subject_id == self.subject_ids@[self.current_index as int],
    {
        self.subject_ids[self.current_index]
    }

    /// Handles the learner's command after one subject was shown: the
    /// quit command ends the session and leaves the cursor where it is;
    /// any other input advances to the next subject.
    pub fn handle_command(&mut self, command: &str) -> (quit: bool)
        requires
            old(self).wf(),
            old(self).current_index < old(self).subject_ids@.len(),
        ensures
            final(self).wf(),
            final(self).subject_ids@ == old(self).subject_ids@,
            quit == (command@ == seq!['q']),
            quit ==> final(self).current_index == old(self).current_index,
            !quit ==> final(self).current_index == old(self).current_index + 1,
    {
        let quit = command.unicode_len() == 1 && command.get_char(0) == 'q';
        proof {
            if command@.len() == 1 && command@[0] == 'q' {
                assert(command@ =~= seq!['q']);
            }
            if command@ == seq!['q'] {
                assert(command@.len() == 1 && command@[0] == 'q');
            }
        }
        if !quit {
            let n = self.subject_ids.len();
            proof {
                assert(self.current_index < n);
            }
            self.current_index = self.current_index + 1;
        }
        quit
    }
}

} // verus!
