//! State of the error dialog.
use vstd::prelude::*;

verus! {

/// The error dialog: the message shown, and whether its size is to be reset.
pub struct ErrorDlg {
    pub text: Option<String>,
    pub reset: bool,
}

impl ErrorDlg {
    /// A dialog showing `text`, laid out afresh.
    pub fn open(text: String) -> (r: Self)
        ensures
            r.text == Some(text),
            r.reset,
    {
        Self { text: Some(text), reset: true }
    }

    /// Whether this frame lays the dialog out afresh; only the first frame
    /// after opening does.
    pub fn take_reset(&mut self) -> (r: bool)
        ensures
            r == old(self).reset,
            !final(self).reset,
            final(self).text == old(self).text,
    {
        let r = self.reset;
        self.reset = false;
        r
    }

    /// One frame of the dialog: `dismissed` when Enter or Escape was pressed,
    /// `window_open` false when the window's close box was used, `close_clicked`
    /// when the Close button was. Returns whether the dialog stays open: only
    /// when none of these happened and there is a message.
    pub fn respond(&mut self, dismissed: bool, window_open: bool, close_clicked: bool) -> (r: bool)
        ensures
            r == (old(self).text is Some && !dismissed && window_open && !close_clicked),
            final(self).text == (if dismissed || close_clicked {
                None
            } else {
                old(self).text
            }),
            final(self).reset == old(self).reset,
    {
        if dismissed {
            self.text = None;
        }
        let mut open = self.text.is_some() && window_open;
        if close_clicked {
            self.text = None;
        }
        if self.text.is_none() && open {
            open = false;
        }
        open
    }
}

} // verus!
