//! State of the find dialog.
use vstd::prelude::*;

verus! {

/// The find dialog: the text entered, and whether the entry is to take focus.
pub struct FindDlg {
    pub text: String,
    pub focus: bool,
}

/// What the user did with the find dialog.
#[derive(PartialEq, Eq)]
pub enum Response {
    /// No decision yet.
    Pending,
    Cancel,
    Id(String),
}

impl FindDlg {
    /// An empty dialog whose entry takes focus.
    pub fn open() -> (r: Self)
        ensures
            r.text@ == Seq::<char>::empty(),
            r.focus,
    {
        Self { text: String::new(), focus: true }
    }

    /// Whether the entry requests focus this frame; only the first frame after
    /// opening does.
    pub fn take_focus(&mut self) -> (r: bool)
        ensures
            r == old(self).focus,
            !final(self).focus,
            final(self).text == old(self).text,
    {
        let r = self.focus;
        self.focus = false;
        r
    }

    /// One frame of the dialog, after the entry took its edits: `submitted`
    /// when Enter left the entry, `ok_clicked` when the Ok button was clicked
    /// (it is enabled only while the entry holds text), `cancel_clicked` when
    /// Cancel was, and `window_open` false when Escape or the close box closed
    /// the window. Submitting hands the text over and empties the entry.
    pub fn respond(&mut self, submitted: bool, ok_clicked: bool, cancel_clicked: bool, window_open: bool) -> (r: Response)
        ensures
            cancel_clicked || !window_open ==> r == Response::Cancel,
            !cancel_clicked && window_open && submitted ==> (r matches Response::Id(t) && t@ == old(
                self,
            ).text@),
            !cancel_clicked && window_open && !submitted && ok_clicked && old(self).text@.len() > 0 ==> (
            r matches Response::Id(t) && t@ == old(self).text@),
            !cancel_clicked && window_open && !submitted && !(ok_clicked && old(self).text@.len() > 0)
                ==> r == Response::Pending,
            final(self).text@ == (if submitted || (ok_clicked && old(self).text@.len() > 0) {
                Seq::<char>::empty()
            } else {
                old(self).text@
            }),
            final(self).focus == old(self).focus,
    {
        let mut response = Response::Pending;
        if submitted {
            let mut t = String::new();
            std::mem::swap(&mut self.text, &mut t);
            response = Response::Id(t);
        }
        if ok_clicked && !self.text.as_str().is_empty() {
            let mut t = String::new();
            std::mem::swap(&mut self.text, &mut t);
            response = Response::Id(t);
        }
        if cancel_clicked {
            response = Response::Cancel;
        }
        if !window_open {
            response = Response::Cancel;
        }
        response
    }
}

} // verus!
