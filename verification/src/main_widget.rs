//! Decisions of the main window: what the airport status widgets show, which
//! choice a selection dialog is pending for, and what a chosen zip file opens.
//! The window toolkit performs the resulting actions.
use crate::nasr::airport::Reply;
use crate::nasr::apt_base_csv::{Detail, Summary};
use crate::text;
use crate::util::ZipInfo;
use vstd::prelude::*;

verus! {

/// The airport reader's state as the main window last showed it.
pub struct AirportStatus {
    /// The airport label is shown.
    pub reader: bool,
    /// The find button is shown.
    pub indexed: bool,
    /// The airport label is coloured busy.
    pub pending: bool,
}

/// The widget changes that one poll of the airport reader calls for.
pub struct StatusChange {
    /// Show the airport label.
    pub show_label: bool,
    /// Show (`Some(true)`) or hide (`Some(false)`) the find button.
    pub find_visible: Option<bool>,
    /// Colour the airport label busy (`Some(true)`) or idle (`Some(false)`).
    pub busy: Option<bool>,
}

/// The change a poll that observed `indexed` and `pending` calls for in state `s`.
pub open spec fn spec_status_change(s: AirportStatus, indexed: bool, pending: bool) -> StatusChange {
    StatusChange {
        show_label: !s.reader,
        find_visible: if s.indexed != indexed {
            Some(indexed)
        } else {
            None
        },
        busy: if s.pending != pending {
            Some(pending)
        } else {
            None
        },
    }
}

impl AirportStatus {
    /// Nothing shown yet.
    pub fn new() -> (r: Self)
        ensures
            !r.reader && !r.indexed && !r.pending,
    {
        AirportStatus { reader: false, indexed: false, pending: false }
    }

    /// Record a poll of the airport reader that found it `indexed` and with
    /// requests `pending`, and say which widgets change.
    pub fn update(&mut self, indexed: bool, pending: bool) -> (r: StatusChange)
        ensures
            r == spec_status_change(*old(self), indexed, pending),
            *final(self) == (AirportStatus { reader: true, indexed, pending }),
    {
        let change = StatusChange {
            show_label: !self.reader,
            find_visible: if self.indexed != indexed {
                Some(indexed)
            } else {
                None
            },
            busy: if self.pending != pending {
                Some(pending)
            } else {
                None
            },
        };
        self.reader = true;
        self.indexed = indexed;
        self.pending = pending;
        change
    }
}

/// Polling the airport reader again in the same state changes no widget.
pub proof fn lemma_status_settles(s: AirportStatus, indexed: bool, pending: bool)
    ensures
        spec_status_change(AirportStatus { reader: true, indexed, pending }, indexed, pending) == (
        StatusChange { show_label: false, find_visible: None, busy: None }),
{
}

/// A selection that the selection dialog is open for: either a choice among a
/// zip file's charts or a choice among airports, never both.
pub struct Selection<I> {
    chart_info: Option<(String, Vec<String>)>,
    airport_infos: Option<Vec<I>>,
}

/// What confirming an item of the selection dialog opens.
pub enum Confirmed<I> {
    /// Open the chart `file` of the zip file `path`.
    Chart { path: String, file: String },
    /// Go to the airport.
    Airport(I),
    /// Nothing: no selection was pending or the index is out of range.
    Nothing,
}

/// The pending chart choice: the zip file's path and its chart files.
pub open spec fn chart_choice_view(c: Option<(String, Vec<String>)>) -> Option<(Seq<char>, Seq<Seq<char>>)> {
    match c {
        Some((p, f)) => Some((p@, crate::util::strings_view(f@))),
        None => None,
    }
}

impl<I> Selection<I> {
    /// At most one choice is pending.
    #[verifier::type_invariant]
    spec fn one_choice(&self) -> bool {
        !(self.chart_info is Some && self.airport_infos is Some)
    }

    /// The pending chart choice, if any.
    pub closed spec fn chart_choice(&self) -> Option<(Seq<char>, Seq<Seq<char>>)> {
        chart_choice_view(self.chart_info)
    }

    /// The pending airport choice, if any.
    pub closed spec fn airport_choice(&self) -> Option<Seq<I>> {
        match self.airport_infos {
            Some(v) => Some(v@),
            None => None,
        }
    }

    /// No choice pending.
    pub fn new() -> (r: Self)
        ensures
            r.chart_choice() is None,
            r.airport_choice() is None,
    {
        Selection { chart_info: None, airport_infos: None }
    }

    /// Open the choice among the chart `files` of the zip file `path`; any
    /// airport choice is dropped.
    pub fn select_chart(&mut self, path: String, files: Vec<String>)
        ensures
            final(self).chart_choice() == Some((path@, crate::util::strings_view(files@))),
            final(self).airport_choice() is None,
    {
        *self = Selection { chart_info: Some((path, files)), airport_infos: None };
    }

    /// Open the choice among `airports`, unless another dialog is visible, in
    /// which case nothing changes; any chart choice is dropped. Returns whether
    /// the choice was opened.
    pub fn select_airport(&mut self, airports: Vec<I>, dialog_visible: bool) -> (r: bool)
        ensures
            r == !dialog_visible,
            r ==> final(self).airport_choice() == Some(airports@) && final(self).chart_choice() is None,
            !r ==> final(self).airport_choice() == old(self).airport_choice()
                && final(self).chart_choice() == old(self).chart_choice(),
    {
        if dialog_visible {
            return false;
        }
        *self = Selection { chart_info: None, airport_infos: Some(airports) };
        true
    }

    /// Confirm item `index` of the pending choice. Both choices are closed.
    pub fn select_item_confirmed(&mut self, index: u32) -> (r: Confirmed<I>)
        ensures
            final(self).chart_choice() is None,
            final(self).airport_choice() is None,
            match old(self).chart_choice() {
                Some((p, f)) => if index < f.len() {
                    r matches Confirmed::Chart { path, file } && path@ == p && file@ == f[index as int]
                } else {
                    r is Nothing
                },
                None => match old(self).airport_choice() {
                    Some(v) => if index < v.len() {
                        r == Confirmed::Airport(v[index as int])
                    } else {
                        r is Nothing
                    },
                    None => r is Nothing,
                },
            },
    {
        let mut taken = Selection::new();
        std::mem::swap(self, &mut taken);
        proof {
            use_type_invariant(&taken);
        }
        let Selection { chart_info, airport_infos } = taken;
        let idx = index as usize;
        if let Some((path, files)) = chart_info {
            if idx < files.len() {
                let file = text::owned(files[idx].as_str());
                return Confirmed::Chart { path, file };
            }
            return Confirmed::Nothing;
        }
        if let Some(mut infos) = airport_infos {
            if idx < infos.len() {
                let info = infos.remove(idx);
                return Confirmed::Airport(info);
            }
        }
        Confirmed::Nothing
    }

    /// Confirm the detail request for item `index` of the pending airport
    /// choice, which is closed; the airport, when there is one at `index`.
    pub fn select_info_confirmed(&mut self, index: u32) -> (r: Option<I>)
        ensures
            final(self).airport_choice() is None,
            final(self).chart_choice() == old(self).chart_choice(),
            r == match old(self).airport_choice() {
                Some(v) => if index < v.len() {
                    Some(v[index as int])
                } else {
                    None
                },
                None => None,
            },
    {
        let mut taken = Selection::new();
        std::mem::swap(self, &mut taken);
        let Selection { chart_info, airport_infos } = taken;
        *self = Selection { chart_info, airport_infos: None };
        let idx = index as usize;
        if let Some(mut infos) = airport_infos {
            if idx < infos.len() {
                return Some(infos.remove(idx));
            }
        }
        None
    }
}

/// What the main window does with a zip file the user chose.
pub enum ZipAction {
    /// Show the error.
    Alert(String),
    /// Ask which of the charts to open.
    SelectChart(Vec<String>),
    /// Open the only chart.
    OpenChart(String),
    /// Open the airport data of the CSV archive and shape file folder.
    OpenNasr { csv: String, shp: String },
    /// Nothing to open.
    Nothing,
}

/// The action for a zip file whose examination gave `info`, and whether the
/// file's folder is remembered as the asset folder.
pub fn zip_action(info: Result<ZipInfo, String>) -> (r: (ZipAction, bool))
    ensures
        r.1 == info is Ok,
        match info {
            Err(e) => r.0 matches ZipAction::Alert(a) && a@ == e@,
            Ok(ZipInfo::Chart(files)) => if files@.len() > 1 {
                r.0 matches ZipAction::SelectChart(f) && f@ == files@
            } else if files@.len() == 1 {
                r.0 matches ZipAction::OpenChart(f) && f == files@[0]
            } else {
                r.0 is Nothing
            },
            Ok(ZipInfo::Aero { csv, shp }) => r.0 == (ZipAction::OpenNasr { csv, shp }),
        },
{
    match info {
        Err(e) => (ZipAction::Alert(e), false),
        Ok(ZipInfo::Chart(mut files)) => {
            if files.len() > 1 {
                (ZipAction::SelectChart(files), true)
            } else if files.len() == 1 {
                let file = files.remove(0);
                (ZipAction::OpenChart(file), true)
            } else {
                (ZipAction::Nothing, true)
            }
        },
        Ok(ZipInfo::Aero { csv, shp }) => (ZipAction::OpenNasr { csv, shp }, true),
    }
}

/// A message for the user that an airport reply calls for.
pub enum Notice<C> {
    /// Show the airport's detail information.
    Info(Detail<C>),
    /// Show the error.
    Alert(String),
}

/// The notices that `replies` call for, in order.
pub open spec fn spec_notices<C>(replies: Seq<Reply<C>>) -> Seq<Notice<C>>
    decreases replies.len(),
{
    if replies.len() == 0 {
        Seq::empty()
    } else {
        let rest = spec_notices(replies.drop_last());
        match replies.last() {
            Reply::Detail(d) => rest.push(Notice::Info(d)),
            Reply::Error(e) => rest.push(Notice::Alert(e)),
            _ => rest,
        }
    }
}

/// The airports to choose among after `replies`: those of the last reply to an
/// ID lookup or a search, if any.
pub open spec fn spec_airport_choice<C>(replies: Seq<Reply<C>>) -> Option<Seq<Summary<C>>>
    decreases replies.len(),
{
    if replies.len() == 0 {
        None
    } else {
        match replies.last() {
            Reply::Airport(s) => Some(seq![s]),
            Reply::Search(v) => Some(v@),
            _ => spec_airport_choice(replies.drop_last()),
        }
    }
}

/// Sort the airport replies collected in one poll: the notices to show, in
/// order, and the airports to offer for choice.
pub fn process_replies<C>(replies: Vec<Reply<C>>) -> (r: (Vec<Notice<C>>, Option<Vec<Summary<C>>>))
    ensures
        r.0@ == spec_notices(replies@),
        match r.1 {
            Some(v) => spec_airport_choice(replies@) == Some(v@),
            None => spec_airport_choice(replies@) is None,
        },
{
    let ghost all = replies@;
    let mut rest = replies;
    let total: usize = rest.len();
    let mut notices: Vec<Notice<C>> = Vec::new();
    let mut choice: Option<Vec<Summary<C>>> = None;
    let mut k: usize = 0;
    while rest.len() > 0
        invariant
            k + rest@.len() == all.len(),
            all.len() == total,
            rest@ == all.skip(k as int),
            notices@ == spec_notices(all.take(k as int)),
            match choice {
                Some(v) => spec_airport_choice(all.take(k as int)) == Some(v@),
                None => spec_airport_choice(all.take(k as int)) is None,
            },
        decreases rest@.len(),
    {
        let ghost before = all.take(k as int);
        assert(all.take(k + 1).drop_last() =~= before);
        assert(all.take(k + 1).last() == all[k as int]);
        let reply = rest.remove(0);
        assert(reply == all[k as int]);
        match reply {
            Reply::Airport(s) => {
                let mut v: Vec<Summary<C>> = Vec::new();
                v.push(s);
                choice = Some(v);
            },
            Reply::Detail(d) => {
                notices.push(Notice::Info(d));
            },
            Reply::Nearby(_) => {},
            Reply::Search(v) => {
                choice = Some(v);
            },
            Reply::Error(e) => {
                notices.push(Notice::Alert(e));
            },
        }
        k = k + 1;
        assert(rest@ =~= all.skip(k as int));
    }
    assert(all.take(k as int) =~= all);
    (notices, choice)
}

/// Keyboard shortcuts of the main window, all with the command or control key.
pub enum Shortcut {
    /// Find an airport.
    Find,
    /// Open a zip file.
    Open,
    /// Quit.
    Quit,
}

/// The shortcut that key `key` pressed with modifiers makes: only with the
/// command or control key alone, for `F`, `O` and `Q`.
pub fn shortcut(cmd_or_ctrl: bool, key: char) -> (r: Option<Shortcut>)
    ensures
        !cmd_or_ctrl ==> r is None,
        cmd_or_ctrl ==> (r matches Some(Shortcut::Find) <==> key == 'F'),
        cmd_or_ctrl ==> (r matches Some(Shortcut::Open) <==> key == 'O'),
        cmd_or_ctrl ==> (r matches Some(Shortcut::Quit) <==> key == 'Q'),
        cmd_or_ctrl ==> (r is None <==> key != 'F' && key != 'O' && key != 'Q'),
{
    if !cmd_or_ctrl {
        None
    } else if key == 'F' {
        Some(Shortcut::Find)
    } else if key == 'O' {
        Some(Shortcut::Open)
    } else if key == 'Q' {
        Some(Shortcut::Quit)
    } else {
        None
    }
}

/// Whether the find dialog opens: only when the find button is shown and no
/// dialog, the find dialog included, is visible.
pub fn find_opens(find_button_visible: bool, dialog_visible: bool, find_dialog_visible: bool) -> (r: bool)
    ensures
        r == (find_button_visible && !dialog_visible && !find_dialog_visible),
{
    find_button_visible && !dialog_visible && !find_dialog_visible
}

/// The side panel toggle's new tooltip when the panel's visibility goes from
/// `visible_now` to `visible`; `None` when it does not change.
pub fn sidebar_tooltip(visible_now: bool, visible: bool) -> (r: Option<&'static str>)
    ensures
        visible_now == visible ==> r is None,
        visible_now != visible && visible ==> (r matches Some(t) && t@ == "Hide side panel"@),
        visible_now != visible && !visible ==> (r matches Some(t) && t@ == "Show side panel"@),
{
    if visible_now == visible {
        None
    } else if visible {
        Some("Hide side panel")
    } else {
        Some("Show side panel")
    }
}

/// Width of the file dialog in a window `window_width` wide: at most 500.
pub fn file_dialog_width(window_width: i32) -> (r: i32)
    ensures
        r == if window_width < 500 {
            window_width
        } else {
            500
        },
{
    if window_width < 500 {
        window_width
    } else {
        500
    }
}

} // verus!
