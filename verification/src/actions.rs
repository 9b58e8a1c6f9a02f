//! The Actions panel's state: a script being written, and what the last run
//! said.
//!
//! The panel runs nothing. It holds text and reports that the user pressed
//! Run; the engine belongs to whoever owns the document, so that a run can be
//! committed as one undo step.

use vstd::prelude::*;

use crate::text::{chars_of, is_blank_chars, trimmed};

verus! {

/// Everything the panel remembers between frames.
///
/// View state, not document state: a script in the box is not part of the
/// artwork, is not saved with it and is not undone.
#[derive(Debug, Clone, PartialEq)]
pub struct ActionsState {
    /// What the user has typed.
    pub source: String,
    /// Lines the last run passed to `fl.trace`.
    pub output: Vec<String>,
    /// The last run's failure, already worded for a person.
    pub error: Option<String>,
    /// One line about the last run, shown next to the Run button.
    pub summary: Option<String>,
}

impl Default for ActionsState {
    fn default() -> (s: Self)
        ensures
            s.source@ == Seq::<char>::empty(),
            s.output@ == Seq::<String>::empty(),
            s.error is None,
            s.summary is None,
    {
        ActionsState { source: String::new(), output: Vec::new(), error: None, summary: None }
    }
}

impl ActionsState {
    /// Record what a run produced, replacing whatever the last one said.
    pub fn report(&mut self, output: Vec<String>, error: Option<String>, summary: String)
        ensures
            final(self).source == old(self).source,
            final(self).output == output,
            final(self).error == error,
            final(self).summary == Some(summary),
    {
        self.output = output;
        self.error = error;
        self.summary = Some(summary);
    }

    /// Empty the Output area, as Animate's `fl.outputPanel.clear()` does.
    /// The script itself is left alone.
    pub fn clear_output(&mut self)
        ensures
            final(self).source == old(self).source,
            final(self).output@.len() == 0,
            final(self).error is None,
            final(self).summary is None,
    {
        self.output.clear();
        self.error = None;
        self.summary = None;
    }

    /// Load one of the examples: it replaces the script rather than being
    /// added to it, and what the last run said goes with the old script.
    pub fn load_sample(&mut self, sample: SampleEntry)
        ensures
            final(self).source@ == sample.source@,
            final(self).output@.len() == 0,
            final(self).error is None,
            final(self).summary is None,
    {
        self.source = String::from_str(sample.source);
        self.clear_output();
    }

    /// Is there anything worth running? White space alone is not a script.
    pub fn has_source(&self) -> (r: bool)
        ensures
            r == (trimmed(self.source@).len() > 0),
    {
        let chars = chars_of(self.source.as_str());
        !is_blank_chars(&chars)
    }
}

/// One script the panel can offer to load, named for a menu.
#[derive(Debug, Clone, Copy, PartialEq, Eq)]
pub struct SampleEntry {
    pub name: &'static str,
    pub summary: &'static str,
    pub source: &'static str,
}

/// What the user did.
#[derive(Debug, Clone, PartialEq)]
pub struct ActionsResponse {
    /// Run what is in the box.
    pub run: bool,
}

impl Default for ActionsResponse {
    fn default() -> (r: Self)
        ensures
            !r.run,
    {
        ActionsResponse { run: false }
    }
}

} // verus!
