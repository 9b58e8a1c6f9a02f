//! The keyboard-shortcut editor's state.
//!
//! Rebinding is a capture: press **Set** on a row, then the next key
//! combination becomes that command's shortcut — nobody knows how to spell
//! their own keyboard, and pressing Ctrl+K is a different thing from typing
//! it. Escape cancels a capture rather than binding it.

use vstd::prelude::*;

use crate::command::Command;

verus! {

/// The editor's open state and what it is doing.
#[derive(Debug)]
pub struct ShortcutEditorState {
    pub open: bool,
    /// What has been typed to narrow the list.
    pub filter: String,
    /// The command whose next keypress is being captured, if any.
    pub capturing: Option<Command>,
}

impl Default for ShortcutEditorState {
    fn default() -> (s: Self)
        ensures
            !s.open,
            s.filter@ == Seq::<char>::empty(),
            s.capturing is None,
    {
        ShortcutEditorState { open: false, filter: String::new(), capturing: None }
    }
}

impl ShortcutEditorState {
    /// Open the editor afresh: no filter, nothing being captured.
    pub fn open(&mut self)
        ensures
            final(self).open,
            final(self).filter@ == Seq::<char>::empty(),
            final(self).capturing is None,
    {
        self.open = true;
        self.filter = String::new();
        self.capturing = None;
    }

    /// Close the editor, abandoning any capture.
    pub fn close(&mut self)
        ensures
            !final(self).open,
            final(self).capturing is None,
            final(self).filter == old(self).filter,
    {
        self.open = false;
        self.capturing = None;
    }

    /// Press **Set** on `command`'s row: its next keypress becomes its
    /// shortcut.
    pub fn start_capture(&mut self, command: Command)
        ensures
            final(self).capturing == Some(command),
            final(self).open == old(self).open,
            final(self).filter == old(self).filter,
    {
        self.capturing = Some(command);
    }

    /// A key was pressed: the command to rebind to it, if a capture was
    /// waiting and the key was not Escape. Either way the capture is over.
    pub fn key_pressed(&mut self, escape: bool) -> (r: Option<Command>)
        ensures
            r == if escape {
                None
            } else {
                old(self).capturing
            },
            final(self).capturing is None,
            final(self).open == old(self).open,
            final(self).filter == old(self).filter,
    {
        let waiting = self.capturing;
        self.capturing = None;
        if escape {
            None
        } else {
            waiting
        }
    }
}

} // verus!
