use aviate::app::{self, AirportInfos, Key, ReplyAction};
use aviate::chart::{check_color, is_chart_proj4, is_heliport_chart, open_error, palette_error, PAL_LEN};
use aviate::error_dlg::ErrorDlg;
use aviate::find_dlg::{self, FindDlg};
use aviate::main_widget::{
    file_dialog_width, find_opens, process_replies, shortcut, sidebar_tooltip, zip_action, AirportStatus,
    Confirmed, Notice, Selection, Shortcut, ZipAction,
};
use aviate::nasr::airport::Reply;
use aviate::nasr::apt_base_csv::Summary;
use aviate::nasr::{AirportInfo, AirportReply};
use aviate::select_dialog::{choice_columns, layout_choices};
use aviate::select_dlg::{self, SelectDlg};
use aviate::touch::{LongPressTracker, Request, TouchPhase, LONG_PRESS_NANOS};
use aviate::util::ZipInfo;

fn s(v: &str) -> String {
    v.to_string()
}

fn info(id: &str, coord: i32) -> AirportInfo<i32> {
    AirportInfo::new(1, s(id), s(id), "A", "PU", "PU", coord, false).unwrap()
}

fn summary(id: &str) -> Summary<i32> {
    Summary::new(s(id), s(id), "A", "PU", 0, false).unwrap()
}

#[test]
fn airport_status_changes_once() {
    let mut st = AirportStatus::new();
    let c = st.update(false, true);
    assert!(c.show_label);
    assert_eq!(c.find_visible, None);
    assert_eq!(c.busy, Some(true));
    let c = st.update(true, false);
    assert!(!c.show_label);
    assert_eq!(c.find_visible, Some(true));
    assert_eq!(c.busy, Some(false));
    let c = st.update(true, false);
    assert!(!c.show_label && c.find_visible.is_none() && c.busy.is_none());
}

#[test]
fn selection_holds_one_choice() {
    let mut sel: Selection<i32> = Selection::new();
    sel.select_chart(s("charts.zip"), vec![s("A.tif"), s("B.tif")]);
    assert!(sel.select_airport(vec![7, 8, 9], false));
    // The chart choice was dropped: confirming opens the airport.
    assert!(matches!(sel.select_item_confirmed(2), Confirmed::Airport(9)));
    assert!(matches!(sel.select_item_confirmed(0), Confirmed::Nothing));

    sel.select_chart(s("charts.zip"), vec![s("A.tif"), s("B.tif")]);
    assert!(!sel.select_airport(vec![1], true));
    match sel.select_item_confirmed(1) {
        Confirmed::Chart { path, file } => {
            assert_eq!(path, "charts.zip");
            assert_eq!(file, "B.tif");
        }
        _ => panic!("expected a chart"),
    }

    sel.select_chart(s("charts.zip"), vec![s("A.tif")]);
    assert!(matches!(sel.select_item_confirmed(5), Confirmed::Nothing));

    assert!(sel.select_airport(vec![4, 5], false));
    assert_eq!(sel.select_info_confirmed(1), Some(5));
    assert_eq!(sel.select_info_confirmed(0), None);
}

#[test]
fn zip_actions() {
    let (a, save) = zip_action(Err(s("Unable to read zip file")));
    assert!(!save);
    assert!(matches!(a, ZipAction::Alert(e) if e == "Unable to read zip file"));
    let (a, save) = zip_action(Ok(ZipInfo::Chart(vec![s("A.tif"), s("B.tif")])));
    assert!(save);
    assert!(matches!(a, ZipAction::SelectChart(f) if f.len() == 2));
    let (a, _) = zip_action(Ok(ZipInfo::Chart(vec![s("A.tif")])));
    assert!(matches!(a, ZipAction::OpenChart(f) if f == "A.tif"));
    let (a, save) = zip_action(Ok(ZipInfo::Chart(vec![])));
    assert!(save);
    assert!(matches!(a, ZipAction::Nothing));
    let (a, _) = zip_action(Ok(ZipInfo::Aero { csv: s("CSV_Data/x.zip"), shp: s("Additional_Data/Shape_Files") }));
    assert!(matches!(a, ZipAction::OpenNasr { csv, shp } if csv == "CSV_Data/x.zip" && shp == "Additional_Data/Shape_Files"));
}

#[test]
fn replies_sorted_into_notices_and_choice() {
    let replies: Vec<Reply<i32>> = vec![
        Reply::Search(vec![summary("A"), summary("B")]),
        Reply::Error(s("first")),
        Reply::Airport(summary("C")),
        Reply::Nearby(vec![summary("D")]),
        Reply::Error(s("second")),
    ];
    let (notices, choice) = process_replies(replies);
    assert_eq!(notices.len(), 2);
    assert!(matches!(&notices[0], Notice::Alert(e) if e == "first"));
    assert!(matches!(&notices[1], Notice::Alert(e) if e == "second"));
    let choice = choice.unwrap();
    assert_eq!(choice.len(), 1);
    assert_eq!(choice[0].id(), "C");
    let (notices, choice) = process_replies::<i32>(vec![Reply::Nearby(vec![])]);
    assert!(notices.is_empty() && choice.is_none());
}

#[test]
fn shortcuts_and_small_decisions() {
    assert!(matches!(shortcut(true, 'F'), Some(Shortcut::Find)));
    assert!(matches!(shortcut(true, 'O'), Some(Shortcut::Open)));
    assert!(matches!(shortcut(true, 'Q'), Some(Shortcut::Quit)));
    assert!(shortcut(true, 'X').is_none());
    assert!(shortcut(false, 'F').is_none());
    assert!(find_opens(true, false, false));
    assert!(!find_opens(true, true, false));
    assert!(!find_opens(false, false, false));
    assert!(!find_opens(true, false, true));
    assert_eq!(sidebar_tooltip(true, true), None);
    assert_eq!(sidebar_tooltip(false, true), Some("Hide side panel"));
    assert_eq!(sidebar_tooltip(true, false), Some("Show side panel"));
    assert_eq!(file_dialog_width(320), 320);
    assert_eq!(file_dialog_width(1920), 500);
    assert!(is_heliport_chart("New York HEL"));
    assert!(!is_heliport_chart("New York HELI"));
    assert!(!is_heliport_chart("HEL"));
    assert!(is_heliport_chart(" HEL"));
}

#[test]
fn choice_columns_split_at_last_parenthesis() {
    let (name, info) = choice_columns("  BOEING FIELD (BFI), A, PUB ");
    assert_eq!(name, "BOEING FIELD");
    assert_eq!(info.as_deref(), Some("(BFI), A, PUB"));
    let (name, info) = choice_columns("A (B) (C)");
    assert_eq!(name, "A (B)");
    assert_eq!(info.as_deref(), Some("(C)"));
    let (name, info) = choice_columns(" Seattle SEC ");
    assert_eq!(name, "Seattle SEC");
    assert!(info.is_none());
    let rows = layout_choices(&vec![None, Some(s("Seattle SEC")), Some(s("X (Y)"))]);
    assert_eq!(rows.rows.len(), 2);
    assert_eq!(rows.info_min_width, Some(4));
    assert!(!rows.select_first);
    let rows = layout_choices(&vec![Some(s("X (Y)")), None]);
    assert_eq!(rows.info_min_width, Some(100));
    assert!(rows.select_first);
    let rows = layout_choices(&vec![None]);
    assert_eq!(rows.info_min_width, None);
    assert!(!rows.select_first);
}

#[test]
fn find_dialog_answers() {
    let mut d = FindDlg::open();
    assert!(d.take_focus());
    assert!(!d.take_focus());
    assert!(d.respond(false, true, false, true) == find_dlg::Response::Pending);
    d.text = s("KSEA");
    assert!(d.respond(true, true, false, true) == find_dlg::Response::Id(s("KSEA")));
    assert_eq!(d.text, "");
    d.text = s("BFI");
    assert!(d.respond(false, true, false, true) == find_dlg::Response::Id(s("BFI")));
    d.text = s("RNT");
    assert!(d.respond(true, false, true, true) == find_dlg::Response::Cancel);
    assert!(d.respond(false, false, false, false) == find_dlg::Response::Cancel);
}

#[test]
fn error_dialog_closes() {
    let mut d = ErrorDlg::open(s("Bad zip"));
    assert!(d.take_reset());
    assert!(!d.take_reset());
    assert!(d.respond(false, true, false));
    assert!(!d.respond(false, true, true));
    assert!(d.text.is_none());
    let mut d = ErrorDlg::open(s("Bad zip"));
    assert!(!d.respond(true, true, false));
    let mut d = ErrorDlg::open(s("Bad zip"));
    assert!(!d.respond(false, false, false));
    assert!(d.text.is_some());
}

#[test]
fn select_dialog_answers() {
    let mut d = SelectDlg::new();
    assert!(d.take_reset());
    assert!(d.respond(None, false).is_none());
    assert!(!d.reset);
    assert!(matches!(d.respond(Some(3), false), Some(select_dlg::Response::Index(3))));
    assert!(d.reset);
    assert!(matches!(d.respond(Some(3), true), Some(select_dlg::Response::Close)));
}

#[test]
fn app_keys() {
    let mut infos: AirportInfos<i32> = AirportInfos::Menu(s("47°N, 122°W"), None);
    let r = app::key_pressed(&mut infos, Key::Escape, true, false, true, false);
    assert!(!r.close_side_panel && !r.open_find && !r.quit);
    assert!(matches!(infos, AirportInfos::Hidden));
    let r = app::key_pressed(&mut infos, Key::Escape, true, false, true, false);
    assert!(r.close_side_panel);
    let r = app::key_pressed(&mut infos, Key::CommandF, true, false, true, false);
    assert!(!r.open_find);
    let r = app::key_pressed(&mut infos, Key::CommandF, true, false, true, true);
    assert!(r.open_find);
    let r = app::key_pressed(&mut infos, Key::CommandQ, true, true, true, true);
    assert!(!r.quit);
    let r = app::key_pressed(&mut infos, Key::CommandQ, true, false, false, true);
    assert!(!r.quit);
    let r = app::key_pressed(&mut infos, Key::CommandQ, true, false, true, true);
    assert!(r.quit);
}

#[test]
fn app_airport_replies() {
    let mut infos: AirportInfos<i32> = AirportInfos::Hidden;
    assert!(matches!(app::airport_reply(&mut infos, AirportReply::Airport(info("SEA", 5))), ReplyAction::GoTo(5)));
    assert!(matches!(app::airport_reply(&mut infos, AirportReply::Nearby(vec![info("A", 1)])), ReplyAction::Nothing));
    assert!(matches!(infos, AirportInfos::Hidden));
    infos = AirportInfos::Menu(s("here"), None);
    app::airport_reply(&mut infos, AirportReply::Nearby(vec![]));
    assert!(matches!(&infos, AirportInfos::Menu(_, None)));
    app::airport_reply(&mut infos, AirportReply::Nearby(vec![info("A", 1)]));
    assert!(matches!(&infos, AirportInfos::Menu(ll, Some(v)) if ll == "here" && v.len() == 1));
    assert!(matches!(app::airport_reply(&mut infos, AirportReply::Search(vec![info("B", 2)])), ReplyAction::GoTo(2)));
    let r = app::airport_reply(&mut infos, AirportReply::Search(vec![info("B", 2), info("C", 3)]));
    assert!(matches!(r, ReplyAction::Nothing));
    assert!(matches!(&infos, AirportInfos::Dialog(v) if v.len() == 2));
    assert!(matches!(app::airport_reply(&mut infos, AirportReply::Error(s("no"))), ReplyAction::ShowError(e) if e == "no"));
    assert_eq!(app::airport_chosen(&mut infos, select_dlg::Response::Index(1)), Some(3));
    assert!(matches!(infos, AirportInfos::Hidden));
    assert_eq!(app::chart_chosen(&vec![s("A.tif"), s("B.tif")], select_dlg::Response::Index(0)), Some(s("A.tif")));
    assert_eq!(app::chart_chosen(&vec![s("A.tif")], select_dlg::Response::Close), None);
    assert_eq!(app::find_answered(find_dlg::Response::Pending), None);
    assert_eq!(app::find_answered(find_dlg::Response::Cancel), Some(None));
    assert_eq!(app::find_answered(find_dlg::Response::Id(s("SEA"))), Some(Some(s("SEA"))));
}

#[test]
fn long_press_tracking() {
    let mut t: LongPressTracker<(i32, i32)> = LongPressTracker::new();
    assert!(matches!(t.initiate(1, TouchPhase::Start, (10, 20)), Some(Request::Refresh(_))));
    assert_eq!(t.check_elapsed(Some(LONG_PRESS_NANOS - 1)), None);
    assert!(t.info.is_some());
    assert_eq!(t.check_elapsed(Some(LONG_PRESS_NANOS)), Some((10, 20)));
    assert!(t.info.is_none());
    // A second touch cancels the timing.
    assert!(matches!(t.initiate(2, TouchPhase::Start, (0, 0)), None));
    assert!(matches!(t.initiate(2, TouchPhase::End, (0, 0)), None));
    assert!(matches!(t.initiate(1, TouchPhase::End, (0, 0)), None));
    assert!(t.ids.is_empty());
    assert!(matches!(t.initiate(3, TouchPhase::Start, (1, 1)), Some(Request::Refresh(_))));
    assert!(matches!(t.initiate(3, TouchPhase::Move, (2, 2)), Some(Request::Cancel)));
    assert_eq!(t.check_elapsed(Some(LONG_PRESS_NANOS)), None);
    assert!(matches!(t.initiate(3, TouchPhase::Cancel, (2, 2)), None));
    assert!(matches!(t.initiate(4, TouchPhase::Start, (5, 5)), Some(Request::Refresh(_))));
    assert_eq!(t.check_elapsed(None), None);
    assert!(t.info.is_none());
    assert!(matches!(t.initiate(4, TouchPhase::Start, (5, 5)), None));
    assert_eq!(t.check(), None);
}

#[test]
fn chart_file_checks() {
    assert!(is_chart_proj4("+proj=lcc +lat_0=34 +datum=NAD83 +units=m +no_defs"));
    assert!(!is_chart_proj4("+proj=longlat +datum=NAD83 +no_defs"));
    assert!(!is_chart_proj4("+proj=lcc +datum=WGS84 +units=m"));
    assert_eq!(open_error("invalid pixel size"), "Unable to open chart:\ninvalid pixel size");
    assert!(check_color((0, 128, 255, 255)));
    assert!(!check_color((0, 256, 0, 255)));
    assert!(!check_color((-1, 0, 0, 255)));
    let good = vec![Some((1, 2, 3, 255)); PAL_LEN];
    assert_eq!(palette_error(&good), None);
    assert_eq!(palette_error(&vec![Some((1, 2, 3, 255)); 255]).as_deref(), Some("invalid color table"));
    let mut bad = good.clone();
    bad[10] = Some((0, 0, 300, 0));
    bad[20] = None;
    assert_eq!(palette_error(&bad).as_deref(), Some("color table contains invalid colors"));
    bad[5] = None;
    assert_eq!(palette_error(&bad).as_deref(), Some("invalid color table"));
}
