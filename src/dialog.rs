//! The state of the modal error dialog: the message it shows and whether it
//! is open. Drawing it and reading the mouse are left to the caller.
use vstd::prelude::*;
use vstd::string::StringExecFns;

verus! {

/// What is appended to an input error when the dialog reports it.
pub open spec fn input_error_suffix() -> Seq<char> {
    ":\nplease check your input."@
}

pub struct DialogState {
    pub message: String,
    pub is_open: bool,
}

impl DialogState {
    /// A closed dialog with no message.
    pub fn new() -> (r: DialogState)
        ensures
            r.message@ == Seq::<char>::empty(),
            !r.is_open,
    {
        DialogState { message: String::new(), is_open: false }
    }

    /// Opens the dialog on `message`.
    pub fn show(&mut self, message: &str)
        ensures
            final(self).message@ == message@,
            final(self).is_open,
    {
        self.message = message.to_owned();
        self.is_open = true;
    }

    /// Opens the dialog on the error `err`, followed by a request to check
    /// the input.
    pub fn show_input_error(&mut self, err: &str)
        ensures
            final(self).message@ == err@ + input_error_suffix(),
            final(self).is_open,
    {
        let mut message = err.to_owned();
        proof {
            reveal_strlit(":\nplease check your input.");
        }
        message.append(":\nplease check your input.");
        self.message = message;
        self.is_open = true;
    }

    /// One frame of the dialog, given whether the left mouse button was just
    /// pressed and whether the pointer is on the dialog's OK button. An open
    /// dialog closes on a press on OK; the result tells whether it closed
    /// on this frame.
    pub fn update(&mut self, pressed: bool, on_ok: bool) -> (closed: bool)
        ensures
            closed == (old(self).is_open && pressed && on_ok),
            final(self).is_open == (old(self).is_open && !closed),
            final(self).message@ == old(self).message@,
    {
        if self.is_open && pressed && on_ok {
            self.is_open = false;
            true
        } else {
            false
        }
    }
}

} // verus!
