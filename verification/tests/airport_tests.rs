use aviate::nasr::airport::{self, index_setup, IndexStatus, Reply, DETAIL, NONE, SUMMARY, TRANSFORM};
use aviate::nasr::apt_base;
use aviate::nasr::apt_base_csv::{Detail, Record, Summary, Type, Use};
use aviate::nasr::apt_rmk_csv::Remark;
use aviate::nasr::cls_arsp_csv::ClassAirspace;
use aviate::nasr::common::{names_containing, sort_by_name, PhoneTagger};
use aviate::nasr::frq_csv::Frequency;
use aviate::nasr::{airport_query, nearby_query, search_query, AirportInfo, AirportReply, AirportType, AirportUse};
use aviate::text::normalize_term;

fn s(v: &str) -> String {
    v.to_string()
}

fn summary(id: &str, name: &str) -> Summary<(f64, f64)> {
    Summary::new(s(id), s(name), "A", "PU", (-122.3, 47.4), false).unwrap()
}

#[test]
fn summary_decoding() {
    let sea = summary("SEA", "SEATTLE-TACOMA INTL");
    assert_eq!(sea.get_text(), "SEATTLE-TACOMA INTL (SEA), A, PUB");
    assert_eq!(sea.id(), "SEA");
    assert_eq!(sea.name(), "SEATTLE-TACOMA INTL");
    assert_eq!(sea.coord(), (-122.3, 47.4));
    let h = Summary::new(s("1WA"), s("HOSPITAL"), "H", "PR", (0.0, 0.0), false);
    assert!(h.is_none());
    let h = Summary::new(s("1WA"), s("HOSPITAL"), "H", "PR", (0.0, 0.0), true).unwrap();
    assert_eq!(h.apt_type, Type::Heliport);
    assert_eq!(h.get_text(), "HOSPITAL (1WA), H, PVT");
    let h = Summary::new(s("2WA"), s("CITY"), "H", "PU", (0.0, 0.0), false).unwrap();
    assert_eq!(h.apt_use, Use::Public);
    let sp = Summary::new(s("W55"), s("LAKE UNION"), "C", "PU", (0.0, 0.0), false).unwrap();
    assert_eq!(sp.get_text(), "LAKE UNION (W55), S, PUB");
    assert!(Summary::new(s("X"), s("X"), "Z", "PU", (0.0, 0.0), true).is_none());
    assert!(Summary::new(s("X"), s("X"), "A", "MR", (0.0, 0.0), true).is_none());
    assert_eq!(Type::Seaplane.text(), "SEAPLANE BASE");
    assert_eq!(Use::Private.text(), "PRIVATE");
}

fn record() -> Record {
    Record {
        alt_toll_free_no: s("1-800-992-7433"),
        bcn_lens_color: s("WG"),
        bcn_lgt_sked: s("SS-SR"),
        city: s("SEATTLE"),
        elev: s("433"),
        fuel_types: s(" 100LL ,A,MOGAS "),
        lgt_sked: s("SEE RMK"),
        lndg_fee_flag: s("Y"),
        mag_hemis: s("E"),
        mag_varn: s("15"),
        seg_circle_mkr_flag: s("Y-L"),
        state_code: s("WA"),
        toll_free_no: s("1-800-WX-BRIEF"),
        tpa: s("1000"),
    }
}

#[test]
fn detail_fields() {
    let d = Detail::new(&record(), summary("SEA", "SEATTLE-TACOMA INTL"), vec![], vec![], vec![], None);
    assert_eq!(d.fuel_types, "100LL, A, MOGAS");
    assert_eq!(d.location, "SEATTLE, WA");
    assert_eq!(d.elevation, "433 FEET ASL");
    assert_eq!(d.pat_alt, "1000 FEET AGL");
    assert_eq!(d.mag_var, "15°E");
    assert_eq!(d.lndg_fee, "YES");
    assert_eq!(d.fss_phone, "1-800-WX-BRIEF (ALT 1-800-992-7433)");
    assert_eq!(d.seg_circ, "YES, LIGHTED");
    assert_eq!(d.bcn_sked, "SUNSET-SUNRISE");
    assert_eq!(d.bcn_color, "WHITE-GREEN (LIGHTED LAND AIRPORT)");
    assert_eq!(d.lgt_sked, "SEE REMARK");
    assert_eq!(d.summary().id(), "SEA");
}

#[test]
fn detail_field_edge_cases() {
    let mut r = record();
    r.state_code = s("");
    r.mag_hemis = s("");
    r.alt_toll_free_no = s("");
    r.fuel_types = s("A,,B");
    r.tpa = s("");
    let d = Detail::new(&r, summary("SEA", "S"), vec![], vec![], vec![], None);
    assert_eq!(d.location, "SEATTLE");
    assert_eq!(d.mag_var, "");
    assert_eq!(d.fss_phone, "1-800-WX-BRIEF");
    assert_eq!(d.fuel_types, "A, , B");
    assert_eq!(d.pat_alt, "");
    r.fuel_types = s("");
    let d = Detail::new(&r, summary("SEA", "S"), vec![], vec![], vec![], None);
    assert_eq!(d.fuel_types, "");
}

#[test]
fn detail_text() {
    let mut r = record();
    r.alt_toll_free_no = s("");
    r.seg_circle_mkr_flag = s("");
    r.bcn_lens_color = s("");
    r.bcn_lgt_sked = s("");
    r.lgt_sked = s("");
    r.lndg_fee_flag = s("");
    let freq = Frequency::new(s("119.9"), s(""), s(""), s(""), s(""), s(""), s(""));
    let rmk = Remark::new("GENERAL_REMARK", s(""), s("NOISE")).unwrap();
    let air = ClassAirspace::new("Y", "", "", "", s(""), s(""));
    let d = Detail::new(&r, summary("SEA", "S"), vec![freq], vec![], vec![rmk], air);
    let text = d.get_text("47°26'59.00\"N", "122°18'33.00\"W", &PhoneTagger::new());
    assert_eq!(
        text,
        [
            "Site Type: [color=white]AIRPORT[/color]\n",
            "Facility Use: [color=white]PUBLIC[/color]\n",
            "Location: [color=white]SEATTLE, WA[/color]\n",
            "Coordinates: [color=white]47°26'59.00\"N, 122°18'33.00\"W[/color]\n",
            "Magnetic Variation: [color=white]15°E[/color]\n",
            "Field Elevation: [color=white]433 FEET ASL[/color]\n",
            "Pattern Altitude: [color=white]1000 FEET AGL[/color]\n",
            "Fuel Types: [color=white]100LL, A, MOGAS[/color]\n",
            "Flight Service Station: [color=white][color=#A0C0FF]1-800-WX-BRIEF[/color][/color]\n",
            "Airspace, Class: [color=white]B[/color]\n",
            "\nFrequencies\n[indent][color=#A0FFA0]119.9[/color]\n[/indent]",
            "\nRemarks\n[ul] [color=white]NOISE[/color][/ul]\n"
        ].concat()
    );
}

#[test]
fn elevation_method_detail() {
    let rec = apt_base::Record {
        bcn_lens_color: s("G"),
        bcn_lgt_sked: s(""),
        city: s("RENTON"),
        elev_method_code: s("S"),
        elev: s("32"),
        fuel_types: s("100LL"),
        lgt_sked: s("SS-SR"),
        lndg_fee_flag: s("N"),
        mag_hemis: s("E"),
        mag_varn: s("16"),
        state_code: s("WA"),
        tpa: s(""),
    };
    let sm = apt_base::Summary::new(s("RNT"), s("RENTON MUNI"), "A", "PU", 0u8, false).unwrap();
    assert_eq!(sm.get_text(), "RENTON MUNI (RNT), A, PUB");
    let d = apt_base::Detail::new(&rec, sm, vec![], vec![]).unwrap();
    assert_eq!(d.elevation, "32 FEET ASL (SURVEYED)");
    assert_eq!(d.lndg_fee, "NO");
    assert_eq!(d.bcn_color, "GREEN (LIGHTED LAND AIRPORT)");
    assert_eq!(d.lgt_sked, "SUNSET-SUNRISE");
    assert_eq!(d.summary().id(), "RNT");
    let rec2 = apt_base::Record { elev_method_code: s(""), ..rec };
    let sm = apt_base::Summary::new(s("RNT"), s("RENTON MUNI"), "A", "PU", 0u8, false).unwrap();
    let d = apt_base::Detail::new(&rec2, sm, vec![], vec![]).unwrap();
    assert_eq!(d.elevation, "32");
    let rec3 = apt_base::Record { elev_method_code: s("X"), ..rec2 };
    let sm = apt_base::Summary::new(s("RNT"), s("RENTON MUNI"), "A", "PU", 0u8, false).unwrap();
    assert!(apt_base::Detail::new(&rec3, sm, vec![], vec![]).is_none());
}

fn info(fid: u64, id: &str, name: &str) -> AirportInfo<(f64, f64)> {
    AirportInfo::new(fid, s(id), s(name), "A", "PU", "PU", (0.0, 0.0), false).unwrap()
}

#[test]
fn airport_info_desc() {
    assert_eq!(info(1, "BFI", "BOEING FIELD").desc(), "BOEING FIELD (BFI), A, PUB");
    let mil = AirportInfo::new(2, s("TCM"), s("MCCHORD"), "A", "MA", "PR", (0.0, 0.0), false).unwrap();
    assert_eq!(mil.airport_use, AirportUse::AirForce);
    assert_eq!(mil.desc(), "MCCHORD (TCM), A, USAF");
    let pvt = AirportInfo::new(3, s("WA1"), s("FARM"), "A", "PR", "PR", (0.0, 0.0), false).unwrap();
    assert_eq!(pvt.desc(), "FARM (WA1), A, PVT");
    assert!(AirportInfo::new(4, s("H"), s("H"), "H", "PR", "PR", (0.0, 0.0), false).is_none());
    let heli = AirportInfo::new(4, s("H"), s("H"), "H", "PR", "PR", (0.0, 0.0), true).unwrap();
    assert_eq!(heli.airport_type, AirportType::Helicopter);
    assert!(AirportInfo::new(5, s("Q"), s("Q"), "A", "XX", "PU", (0.0, 0.0), true).is_none());
    assert_eq!(AirportUse::Navy.abv(), "USN");
    assert_eq!(AirportUse::CoastGuard.abv(), "USCG");
    assert_eq!(AirportUse::Army.abv(), "ARMY");
}

#[test]
fn airport_query_replies() {
    match airport_query::<(f64, f64)>(false, "SEA", None) {
        AirportReply::Error(e) => assert_eq!(e, "Chart transformation is required for airport ID search"),
        _ => panic!(),
    }
    match airport_query::<(f64, f64)>(true, "SEA", None) {
        AirportReply::Error(e) => assert_eq!(e, "No airport on this chart matches ID\n'SEA'"),
        _ => panic!(),
    }
    assert!(matches!(airport_query(true, "BFI", Some(info(1, "BFI", "B"))), AirportReply::Airport(_)));
    match nearby_query(false, vec![info(1, "A", "A")]) {
        AirportReply::Error(e) => assert_eq!(e, "Chart transformation is required to find nearby airports"),
        _ => panic!(),
    }
    assert!(matches!(nearby_query(true, vec![info(1, "A", "A")]), AirportReply::Nearby(v) if v.len() == 1));
    match search_query::<(f64, f64)>(true, "XYZ", None, vec![]) {
        AirportReply::Error(e) => assert_eq!(e, "Nothing on this chart matches\n'XYZ'"),
        _ => panic!(),
    }
    match search_query::<(f64, f64)>(false, "XYZ", None, vec![]) {
        AirportReply::Error(e) => assert_eq!(e, "Chart transformation is required for airport search"),
        _ => panic!(),
    }
    assert!(matches!(
        search_query(true, "KING", Some(info(9, "KING", "K")), vec![info(1, "A", "A")]),
        AirportReply::Airport(a) if a.fid == 9
    ));
    assert!(matches!(
        search_query(true, "KING", None, vec![info(1, "A", "A"), info(2, "B", "B")]),
        AirportReply::Search(v) if v.len() == 2
    ));
}

#[test]
fn index_levels() {
    let mut st = IndexStatus::new();
    assert_eq!(st.level, NONE);
    assert!(!st.has_chart_transformation());
    st.set_has_chart_transformation();
    assert!(st.has_chart_transformation() && !st.has_summary_index());
    st.set_has_summary_index();
    assert!(st.has_chart_transformation() && st.has_summary_index() && !st.has_detail_index());
    st.set_has_detail_index();
    assert!(st.has_detail_index() && st.has_summary_index() && st.has_chart_transformation());
    st.reset();
    assert_eq!(st.level, NONE);
}

#[test]
fn index_setup_outcomes() {
    let (st, err) = index_setup(Some("bad proj"), true, true);
    assert_eq!(st.level, NONE);
    assert_eq!(err.as_deref(), Some("Unable to create transformation:\nbad proj"));
    let (st, err) = index_setup(None, false, true);
    assert_eq!(st.level, TRANSFORM);
    assert_eq!(err.as_deref(), Some("Failed to create airport summary-level indexing"));
    let (st, err) = index_setup(None, true, false);
    assert_eq!(st.level, SUMMARY);
    assert_eq!(err.as_deref(), Some("Failed to create airport detail-level indexing"));
    let (st, err) = index_setup(None, true, true);
    assert_eq!(st.level, DETAIL);
    assert!(err.is_none());
}

#[test]
fn reader_replies() {
    let none = IndexStatus::new();
    let mut summary_level = IndexStatus::new();
    summary_level.set_has_summary_index();
    match airport::airport::<(f64, f64)>(none, "SEA", None) {
        Reply::Error(e) => assert_eq!(e, "Airport summary-level indexing is required for airport ID search"),
        _ => panic!(),
    }
    match airport::airport::<(f64, f64)>(summary_level, "SEA", None) {
        Reply::Error(e) => assert_eq!(e, "No airport on this chart matches ID\n'SEA'"),
        _ => panic!(),
    }
    assert!(matches!(airport::airport(summary_level, "SEA", Some(summary("SEA", "S"))), Reply::Airport(_)));
    match airport::detail::<(f64, f64)>(summary_level, "SEA", None) {
        Reply::Error(e) => assert_eq!(e, "Airport detail-level indexing is required for airport information"),
        _ => panic!(),
    }
    let mut detail_level = summary_level;
    detail_level.set_has_detail_index();
    match airport::detail::<(f64, f64)>(detail_level, "SEA", None) {
        Reply::Error(e) => assert_eq!(e, "Unable to get airport detail information for ID\n'SEA'"),
        _ => panic!(),
    }
    match airport::nearby::<(f64, f64)>(none, vec![]) {
        Reply::Error(e) => assert_eq!(e, "Airport summary-level indexing is required to find nearby airports"),
        _ => panic!(),
    }
    assert!(matches!(airport::nearby::<(f64, f64)>(detail_level, vec![]), Reply::Nearby(v) if v.is_empty()));
    match airport::search::<(f64, f64)>(none, "X", None, vec![]) {
        Reply::Error(e) => assert_eq!(e, "Airport summary-level indexing is required for airport search"),
        _ => panic!(),
    }
    match airport::search::<(f64, f64)>(summary_level, "X", None, vec![]) {
        Reply::Error(e) => assert_eq!(e, "Nothing on this chart matches\n'X'"),
        _ => panic!(),
    }
    assert!(matches!(
        airport::search(summary_level, "X", None, vec![summary("A", "X1")]),
        Reply::Search(v) if v.len() == 1
    ));
}

#[test]
fn results_sorted_by_name() {
    let sorted = sort_by_name(vec![info(1, "Z", "Zeta"), info(2, "a", "alpha"), info(3, "B", "Beta"), info(4, "B2", "Beta")]);
    let names: Vec<&str> = sorted.iter().map(|i| i.name.as_str()).collect();
    assert_eq!(names, vec!["Beta", "Beta", "Zeta", "alpha"]);
    let sorted = sort_by_name(vec![summary("B", "KING"), summary("A", "KIN"), summary("C", "")]);
    let names: Vec<&str> = sorted.iter().map(|s| s.name()).collect();
    assert_eq!(names, vec!["", "KIN", "KING"]);
    assert!(sort_by_name(Vec::<Summary<u8>>::new()).is_empty());
}

#[test]
fn name_search() {
    let names = vec![(s("KING COUNTY INTL"), 1u64), (s("KINGSTON"), 2), (s("SEATTLE"), 3)];
    assert_eq!(names_containing(&names, "KING"), vec![1, 2]);
    assert_eq!(names_containing(&names, "TTL"), vec![3]);
    assert_eq!(names_containing(&names, ""), vec![1, 2, 3]);
    assert_eq!(names_containing(&names, "SEATTLE-TACOMA"), Vec::<u64>::new());
}

#[test]
fn search_terms_normalized() {
    assert_eq!(normalize_term("  sea\t"), "SEA");
    assert_eq!(normalize_term("Boeing Field"), "BOEING FIELD");
    assert_eq!(normalize_term("straße"), "STRASSE");
}

#[test]
fn elevation_method_detail_text() {
    let rec = apt_base::Record {
        bcn_lens_color: s(""),
        bcn_lgt_sked: s(""),
        city: s("RENTON"),
        elev_method_code: s(""),
        elev: s("32"),
        fuel_types: s(""),
        lgt_sked: s(""),
        lndg_fee_flag: s(""),
        mag_hemis: s(""),
        mag_varn: s(""),
        state_code: s("WA"),
        tpa: s(""),
    };
    let sm = apt_base::Summary::new(s("RNT"), s("RENTON MUNI"), "A", "PU", 0u8, false).unwrap();
    let rwy = aviate::nasr::apt_rwy::Runway::new(&aviate::nasr::apt_rwy::Record {
        rwy_id: s("16/34"),
        rwy_len: 5382,
        rwy_width: 200,
        rwy_lgt_code: s(""),
        surface_type_code: s(""),
        cond: s(""),
    });
    let rmk = aviate::nasr::apt_rmk::Remark::new("TPA", s(""), s("CALL 425-555-1212")).unwrap();
    let d = apt_base::Detail::new(&rec, sm, vec![rwy], vec![rmk]).unwrap();
    assert_eq!(
        d.get_text("INFO\n", &PhoneTagger::new()),
        [
            "INFO\n",
            "\nRunway: [color=#FFD090]16/34[/color]\n",
            "[ul] Length: [color=white]5382 FEET[/color][/ul]\n",
            "[ul] Width: [color=white]200 FEET[/color][/ul]\n",
            "\nRemarks\n",
            "[ul] Pattern Altitude: [color=white]CALL [color=#A0C0FF]425-555-1212[/color][/color][/ul]\n",
        ]
        .concat()
    );
    let sm = apt_base::Summary::new(s("RNT"), s("RENTON MUNI"), "A", "PU", 0u8, false).unwrap();
    let bare = apt_base::Detail::new(&rec, sm, vec![], vec![]).unwrap();
    assert_eq!(bare.get_text("INFO\n", &PhoneTagger::new()), "INFO\n");
}
