//! Decisions of the desktop application's frame loop: what a key press, an
//! airport reply or a dialog's answer changes and what the frame then does.
//! Drawing, input collection and the readers stay with the window toolkit.
use crate::find_dlg;
use crate::nasr::{AirportInfo, AirportReply};
use crate::select_dlg;
use crate::text;
use vstd::prelude::*;

verus! {

/// The airport information on display.
pub enum AirportInfos<C> {
    /// Nothing on display.
    Hidden,
    /// Popup menu at a clicked position: its latitude/longitude text and the
    /// nearby airports, once they arrive.
    Menu(String, Option<Vec<AirportInfo<C>>>),
    /// Selection dialog among the airports a search found.
    Dialog(Vec<AirportInfo<C>>),
}

impl<C> AirportInfos<C> {
    /// Remove the airport popup menu; true when there was one.
    pub fn reset_menu(&mut self) -> (r: bool)
        ensures
            r == *old(self) is Menu,
            r ==> *final(self) is Hidden,
            !r ==> *final(self) == *old(self),
    {
        if let AirportInfos::Menu(_, _) = self {
            *self = AirportInfos::Hidden;
            return true;
        }
        false
    }
}

/// The keys the application acts on.
pub enum Key {
    Escape,
    /// `F` with the command key alone.
    CommandF,
    /// `Q` with the command key alone.
    CommandQ,
    Other,
}

/// What a key press makes the frame do besides changing the airport infos.
pub struct KeyOutcome {
    /// Hide the side panel.
    pub close_side_panel: bool,
    /// Open the find dialog.
    pub open_find: bool,
    /// Close the application.
    pub quit: bool,
}

/// Handle a key event. Only a fresh press (not a repeat) while the interface
/// is enabled counts. Escape removes the airport menu, or hides the side panel
/// when there is none; command-F opens the find dialog when airports can be
/// searched on an open chart (`find_ready`); command-Q quits. Both commands
/// remove the airport menu when they act.
pub fn key_pressed<C>(infos: &mut AirportInfos<C>, key: Key, pressed: bool, repeat: bool, ui_enabled: bool, find_ready: bool) -> (r: KeyOutcome)
    ensures
        ({
            let acts = pressed && !repeat && ui_enabled;
            let menu = *old(infos) is Menu;
            &&& r.close_side_panel == (acts && key is Escape && !menu)
            &&& r.open_find == (acts && key is CommandF && find_ready)
            &&& r.quit == (acts && key is CommandQ)
            &&& (acts && (key is Escape || (key is CommandF && find_ready) || key is CommandQ)
                && menu ==> *final(infos) is Hidden)
            &&& (!(acts && (key is Escape || (key is CommandF && find_ready) || key is CommandQ))
                || !menu ==> *final(infos) == *old(infos))
        }),
{
    let mut r = KeyOutcome { close_side_panel: false, open_find: false, quit: false };
    if !(pressed && !repeat && ui_enabled) {
        return r;
    }
    match key {
        Key::Escape => {
            if !infos.reset_menu() {
                r.close_side_panel = true;
            }
        },
        Key::CommandF => {
            if find_ready {
                r.open_find = true;
                infos.reset_menu();
            }
        },
        Key::CommandQ => {
            r.quit = true;
            infos.reset_menu();
        },
        Key::Other => {},
    }
    r
}

/// What an airport reply makes the frame do.
pub enum ReplyAction<C> {
    /// Pan the chart to the coordinate.
    GoTo(C),
    /// Show the error.
    ShowError(String),
    Nothing,
}

/// Take an airport reply into account. An airport goes to its position; nearby
/// airports fill an open popup menu; search results go to the only airport or
/// offer a choice among several; errors are shown. A search reply is never
/// empty: an empty search is answered with an error.
pub fn airport_reply<C>(infos: &mut AirportInfos<C>, reply: AirportReply<C>) -> (r: ReplyAction<C>)
    requires
        !(reply matches AirportReply::Search(v) && v@.len() == 0),
    ensures
        match reply {
            AirportReply::Airport(info) => r == ReplyAction::GoTo(info.coord) && *final(infos)
                == *old(infos),
            AirportReply::Nearby(v) => r is Nothing && (match *old(infos) {
                AirportInfos::Menu(ll, _) => if v@.len() > 0 {
                    *final(infos) == AirportInfos::Menu(ll, Some(v))
                } else {
                    *final(infos) == *old(infos)
                },
                _ => *final(infos) == *old(infos),
            }),
            AirportReply::Search(v) => if v@.len() == 1 {
                r == ReplyAction::GoTo(v@[0].coord) && *final(infos) == *old(infos)
            } else {
                r is Nothing && *final(infos) == AirportInfos::Dialog(v)
            },
            AirportReply::Error(e) => r == ReplyAction::<C>::ShowError(e) && *final(infos)
                == *old(infos),
        },
{
    match reply {
        AirportReply::Airport(info) => ReplyAction::GoTo(info.coord),
        AirportReply::Nearby(v) => {
            if v.len() > 0 {
                if let AirportInfos::Menu(_, list) = infos {
                    *list = Some(v);
                }
            }
            ReplyAction::Nothing
        },
        AirportReply::Search(mut v) => {
            if v.len() == 1 {
                let info = v.remove(0);
                ReplyAction::GoTo(info.coord)
            } else {
                *infos = AirportInfos::Dialog(v);
                ReplyAction::Nothing
            }
        },
        AirportReply::Error(e) => ReplyAction::ShowError(e),
    }
}

/// The answer of the selection dialog among a zip file's `files`: the chart
/// file to open, or `None` when the dialog was closed (no chart is loaded then).
pub fn chart_chosen(files: &Vec<String>, response: select_dlg::Response) -> (r: Option<String>)
    requires
        response matches select_dlg::Response::Index(i) ==> i < files@.len(),
    ensures
        match response {
            select_dlg::Response::Index(i) => r matches Some(f) && f@ == files@[i as int]@,
            select_dlg::Response::Close => r is None,
        },
{
    match response {
        select_dlg::Response::Index(i) => Some(text::owned(files[i].as_str())),
        select_dlg::Response::Close => None,
    }
}

/// The answer of the selection dialog among searched airports: the position to
/// go to, if one was chosen. The dialog is closed either way.
pub fn airport_chosen<C>(infos: &mut AirportInfos<C>, response: select_dlg::Response) -> (r: Option<C>)
    requires
        *old(infos) matches AirportInfos::Dialog(v) && (response matches select_dlg::Response::Index(
            i,
        ) ==> i < v@.len()),
    ensures
        *final(infos) is Hidden,
        match response {
            select_dlg::Response::Index(i) => (*old(infos) matches AirportInfos::Dialog(v) && r == Some(
                v@[i as int].coord,
            )),
            select_dlg::Response::Close => r is None,
        },
{
    let mut taken = AirportInfos::Hidden;
    std::mem::swap(infos, &mut taken);
    match taken {
        AirportInfos::Dialog(mut v) => match response {
            select_dlg::Response::Index(i) => Some(v.remove(i).coord),
            select_dlg::Response::Close => None,
        },
        _ => None,
    }
}

/// What the find dialog's answer makes the frame do: keep the dialog (`None`),
/// or close it, with the term to search for when one was entered.
pub fn find_answered(response: find_dlg::Response) -> (r: Option<Option<String>>)
    ensures
        match response {
            find_dlg::Response::Pending => r is None,
            find_dlg::Response::Cancel => r == Some(None::<String>),
            find_dlg::Response::Id(t) => r == Some(Some(t)),
        },
{
    match response {
        find_dlg::Response::Pending => None,
        find_dlg::Response::Cancel => Some(None),
        find_dlg::Response::Id(t) => Some(Some(t)),
    }
}

} // verus!
