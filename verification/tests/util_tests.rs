use aviate::chart::PaletteType;
use aviate::error_dlg::ErrorDlg;
use aviate::find_dlg::{FindDlg, Response};
use aviate::geom::{Pos, Size};
use aviate::select_dlg::SelectDlg;
use aviate::touch::{check_time, long_press_due};
use aviate::util::{
    adjust_dialog, chart_files, chart_zip_info, check_files, has_zip_extension, zip_extension_error, zip_files,
    zip_read_error, ToU32, ZipInfo,
};
use std::time::{Duration, SystemTime};

fn strings(v: &[&str]) -> Vec<String> {
    v.iter().map(|s| s.to_string()).collect()
}

#[test]
fn to_u32_exact() {
    assert_eq!(5i64.to_u32(), Some(5));
    assert_eq!(4294967295i64.to_u32(), Some(u32::MAX));
    assert_eq!(4294967296i64.to_u32(), None);
    assert_eq!((-1i64).to_u32(), None);
}

#[test]
fn required_files() {
    let names = strings(&["README.txt", "APT_RWY.csv", "APT_BASE.csv"]);
    assert!(check_files(&names, &vec!["APT_BASE.csv", "APT_RWY.csv"]));
    assert!(!check_files(&names, &vec!["APT_BASE.csv", "FRQ.csv"]));
    assert!(!check_files(&names, &vec![]));
    assert!(!check_files(&vec![], &vec!["APT_BASE.csv"]));
}

#[test]
fn chart_rasters_need_world_files() {
    let files = strings(&[
        "SEATTLE SEC.tif",
        "SEATTLE SEC.tfw",
        "SEATTLE SEC.htm",
        "KLAMATH FALLS SEC.tif",
        "Seattle TAC.tfw",
        "Seattle TAC.tif",
    ]);
    assert_eq!(chart_files(&files), strings(&["SEATTLE SEC.tif", "Seattle TAC.tif"]));
    match chart_zip_info(&files) {
        Ok(ZipInfo::Chart(c)) => assert_eq!(c.len(), 2),
        _ => panic!(),
    }
    match chart_zip_info(&strings(&["a.tif", "b.tfw"])) {
        Err(e) => assert_eq!(e, "Zip file does not contain usable data"),
        _ => panic!(),
    }
    assert_eq!(zip_extension_error(), "Path must have 'zip' extension");
    assert_eq!(zip_read_error(), "Unable to read zip file");
}

#[test]
fn zip_names() {
    assert!(has_zip_extension("/home/me/Downloads/28DaySubscription.zip"));
    assert!(!has_zip_extension("/home/me/file.ZIP"));
    assert!(!has_zip_extension("zip"));
    assert_eq!(zip_files(&strings(&["a.zip", "b.csv", "c.zip"])), strings(&["a.zip", "c.zip"]));
}

#[test]
fn dialog_kept_inside() {
    let (size, pos) = adjust_dialog(Pos { x: 100, y: 100 }, Pos { x: 200, y: 100 }, Pos { x: 250, y: 200 });
    assert_eq!(size, None);
    assert_eq!(pos, Some(Pos { x: 42, y: 94 }));
    let (size, pos) = adjust_dialog(Pos { x: 0, y: 0 }, Pos { x: 300, y: 300 }, Pos { x: 250, y: 200 });
    assert_eq!(size, Some(Pos { x: 234, y: 162 }));
    assert_eq!(pos, Some(Pos { x: 8, y: 32 }));
    let (size, pos) = adjust_dialog(Pos { x: 20, y: 40 }, Pos { x: 100, y: 100 }, Pos { x: 800, y: 600 });
    assert_eq!(size, None);
    assert_eq!(pos, None);
}

#[test]
fn long_press() {
    assert!(!check_time(None));
    assert!(check_time(Some(SystemTime::UNIX_EPOCH)));
    assert!(!check_time(Some(SystemTime::now() + Duration::from_secs(3600))));
    assert!(long_press_due(Some(1_000_000_000)));
    assert!(!long_press_due(Some(999_999_999)));
    assert!(!long_press_due(None));
}

#[test]
fn dialogs_open_fresh() {
    let e = ErrorDlg::open("Unable to open chart".to_string());
    assert_eq!(e.text.as_deref(), Some("Unable to open chart"));
    assert!(e.reset);
    let f = FindDlg::open();
    assert!(f.text.is_empty() && f.focus);
    assert!(Response::Pending != Response::Cancel);
    assert!(SelectDlg::new().reset);
    assert_eq!(PaletteType::for_night_mode(true), PaletteType::Dark);
    assert_eq!(PaletteType::for_night_mode(false), PaletteType::Light);
}

#[test]
fn size_validity() {
    assert!(Size { w: 1, h: 1 }.is_valid());
    assert!(!Size { w: 0, h: 5 }.is_valid());
}

#[test]
fn normalized_list_stays_normalized() {
    let once = aviate::text::normalize_list(" 100LL ,A,, MOGAS\t");
    assert_eq!(once, "100LL, A, , MOGAS");
    assert_eq!(aviate::text::normalize_list(&once), once);
    assert_eq!(aviate::text::normalize_list(""), "");
}
