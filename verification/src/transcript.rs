//! The text that one generation has produced so far.

use core::convert::Infallible;
use vstd::prelude::*;
use vstd::string::*;

verus! {

/// What a [`Transcript`] stands for.
pub struct TranscriptView {
    /// The text collected so far.
    pub text: Seq<char>,
    /// How many times the engine has reported a piece of text. The engine
    /// reports a token's text once it is valid UTF-8, alone or together with
    /// the tokens before it, so there are at least as many tokens as reports.
    pub reports: nat,
}

impl TranscriptView {
    /// The transcript of a generation that has reported nothing yet.
    pub open spec fn empty() -> TranscriptView {
        TranscriptView { text: Seq::empty(), reports: 0 }
    }

    /// The transcript after one more report, of the text `piece`. The count
    /// stops at `usize::MAX`.
    pub open spec fn push(self, piece: Seq<char>) -> TranscriptView {
        TranscriptView {
            text: self.text + piece,
            reports: if self.reports < usize::MAX {
                self.reports + 1
            } else {
                self.reports
            },
        }
    }

    /// The transcript after the reports `pieces`, taken in order.
    pub open spec fn extend(self, pieces: Seq<Seq<char>>) -> TranscriptView
        decreases pieces.len(),
    {
        if pieces.len() == 0 {
            self
        } else {
            self.extend(pieces.drop_last()).push(pieces.last())
        }
    }
}

/// Collects the pieces of text that the engine reports, in the order in which
/// they arrive, and counts them.
pub struct Transcript {
    text: String,
    reports: usize,
}

impl View for Transcript {
    type V = TranscriptView;

    closed spec fn view(&self) -> TranscriptView {
        TranscriptView { text: self.text@, reports: self.reports as nat }
    }
}

impl Transcript {
    /// An empty transcript.
    pub fn new() -> (transcript: Transcript)
        ensures
            transcript@ == TranscriptView::empty(),
    {
        Transcript { text: String::new(), reports: 0 }
    }

    /// Appends one piece of text.
    pub fn push(&mut self, piece: &str)
        ensures
            final(self)@ == old(self)@.push(piece@),
    {
        self.text.append(piece);
        if self.reports < usize::MAX {
            self.reports = self.reports + 1;
        }
    }

    /// What the engine's loop calls with the text of a token, whether the
    /// token comes from the prompt or was sampled: the text is appended, and
    /// the answer is always `Ok`, which tells the engine to go on.
    pub fn on_token(&mut self, piece: &str) -> (feedback: Result<(), Infallible>)
        ensures
            final(self)@ == old(self)@.push(piece@),
            feedback is Ok,
    {
        self.push(piece);
        Ok(())
    }

    /// The text collected so far.
    pub fn as_str(&self) -> (text: &str)
        ensures
            text@ == self@.text,
    {
        self.text.as_str()
    }

    /// The number of reports collected so far.
    pub fn report_count(&self) -> (count: usize)
        ensures
            count == self@.reports,
    {
        self.reports
    }

    /// Gives up the transcript for its text.
    pub fn into_text(self) -> (text: String)
        ensures
            text@ == self@.text,
    {
        self.text
    }
}

/// After any reports the text collected before is still there, in front, and
/// the count has grown by at most one for each of them.
pub proof fn lemma_extend_keeps_prefix(start: TranscriptView, pieces: Seq<Seq<char>>)
    ensures
        start.text.is_prefix_of(start.extend(pieces).text),
        start.reports <= start.extend(pieces).reports <= start.reports + pieces.len(),
    decreases pieces.len(),
{
    if pieces.len() > 0 {
        lemma_extend_keeps_prefix(start, pieces.drop_last());
    }
}

} // verus!
