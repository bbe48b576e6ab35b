//! The display channel: the ordered transcript of texts shown to the
//! learner.
//!
//! The core is agnostic to how texts are rendered; it only appends them
//! here.  The surrounding application drains the transcript to whichever
//! front end is active, and tests read it back.

use vstd::prelude::*;

verus! {

/// An ordered transcript of displayed texts.
pub struct OutputChannel {
    /// The texts shown so far, oldest first.
    pub lines: Vec<String>,
}

/// The texts of a transcript, as character sequences.
pub open spec fn line_texts(channel: OutputChannel) -> Seq<Seq<char>> {
    channel.lines@.map_values(|s: String| s@)
}

impl OutputChannel {
    /// An empty transcript.
    pub fn new() -> (c: Self)
        ensures
            c.lines@.len() == 0,
    {
        OutputChannel { lines: Vec::new() }
    }
}

/// Shows a text: appends it to the channel's transcript.
pub fn display_text(channel: &mut OutputChannel, text: &str)
    ensures
        line_texts(*final(channel)) == line_texts(*old(channel)).push(text@),
{
    let line = text.to_owned();
    channel.lines.push(line);
    proof {
        assert(line_texts(*channel) =~= line_texts(*old(channel)).push(text@));
    }
}

} // verus!
