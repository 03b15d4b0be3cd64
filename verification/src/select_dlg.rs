//! State of the selection dialog.
use vstd::prelude::*;

verus! {

/// The selection dialog: whether its size is to be reset.
pub struct SelectDlg {
    pub reset: bool,
}

/// What the user chose in the selection dialog.
pub enum Response {
    Close,
    Index(usize),
}

impl SelectDlg {
    /// A dialog laid out afresh.
    pub fn new() -> (r: Self)
        ensures
            r.reset,
    {
        Self { reset: true }
    }

    /// Whether this frame lays the dialog out afresh.
    pub fn take_reset(&mut self) -> (r: bool)
        ensures
            r == old(self).reset,
            !final(self).reset,
    {
        let r = self.reset;
        self.reset = false;
        r
    }

    /// One frame of the dialog: `clicked` is the last choice clicked, if any,
    /// and `closed` is set when the window was closed or Escape pressed, which
    /// wins over a click. The next frame lays the dialog out afresh exactly when
    /// there is a response.
    pub fn respond(&mut self, clicked: Option<usize>, closed: bool) -> (r: Option<Response>)
        ensures
            closed ==> r == Some(Response::Close),
            !closed ==> r == match clicked {
                Some(i) => Some(Response::Index(i)),
                None => None,
            },
            final(self).reset == r is Some,
    {
        let mut selection = match clicked {
            Some(i) => Some(Response::Index(i)),
            None => None,
        };
        if closed {
            selection = Some(Response::Close);
        }
        self.reset = selection.is_some();
        selection
    }
}

} // verus!
