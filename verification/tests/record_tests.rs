use aviate::nasr::apt_rmk_csv;
use aviate::nasr::apt_rwy_csv::{self, Runway};
use aviate::nasr::apt_rwy_end_csv::{Record as EndRecord, RunwayEnd, RunwayEndMap};
use aviate::nasr::cls_arsp_csv::{get_class_airspace, ClassAirspace};
use aviate::nasr::common::{get_unit_text, get_yes_no_text, HashMapVec, PhoneTagger};
use aviate::nasr::frq_csv::Frequency;
use aviate::nasr::{apt_rmk, apt_rwy};

fn s(v: &str) -> String {
    v.to_string()
}

#[test]
fn yes_no_and_units() {
    assert_eq!(get_yes_no_text("Y"), "YES");
    assert_eq!(get_yes_no_text("N"), "NO");
    assert_eq!(get_yes_no_text("Y-L"), "Y-L");
    assert_eq!(get_unit_text("", "FEET"), "");
    assert_eq!(get_unit_text("10", "FEET"), "10 FEET");
}

#[test]
fn frequency_text() {
    let f = Frequency::new(
        s("118.5"),
        s("LCL/P"),
        s("ATCT"),
        s(""),
        s("TOWER"),
        s(""),
        s("CALL 555-123-4567"),
    );
    assert_eq!(
        f.get_text(&PhoneTagger::new()),
        [
            "[color=#A0FFA0]118.5[/color]\n",
            "[ul] Use: [color=white]LCL/P[/color][/ul]\n",
            "[ul] Facility Type: [color=white]ATCT[/color][/ul]\n",
            "[ul] Tower/Comm Call: [color=white]TOWER[/color][/ul]\n",
            "[ul] [color=white]CALL [color=#A0C0FF]555-123-4567[/color][/color][/ul]\n"
        ].concat()
    );
    let bare = Frequency::new(s("122.8"), s(""), s(""), s(""), s(""), s(""), s(""));
    assert_eq!(bare.get_text(&PhoneTagger::new()), "[color=#A0FFA0]122.8[/color]\n");
}

#[test]
fn class_airspace() {
    assert_eq!(get_class_airspace("N", "Y", "Y", "N").as_deref(), Some("C, D"));
    assert_eq!(get_class_airspace("Y", "Y", "Y", "Y").as_deref(), Some("B, C, D, E"));
    assert_eq!(get_class_airspace("N", "", "", "y"), None);
    let a = ClassAirspace::new("", "", "Y", "", s("0600-2200"), s("SEE REMARK")).unwrap();
    assert_eq!(
        a.get_text(),
        [
            "Airspace, Class: [color=white]D[/color]\n",
            "[ul] Hours: [color=white]0600-2200[/color][/ul]\n",
            "[ul] [color=white]SEE REMARK[/color][/ul]\n"
        ].concat()
    );
    assert!(ClassAirspace::new("", "", "", "", s(""), s("")).is_none());
}

#[test]
fn remarks() {
    let tagger = PhoneTagger::new();
    let r = apt_rmk_csv::Remark::new("ELEV", s("RWY 1"), s("SURVEYED")).unwrap();
    assert_eq!(r.get_text(&tagger), "[ul] Elevation (RWY 1): [color=white]SURVEYED[/color][/ul]\n");
    let r = apt_rmk_csv::Remark::new("TPA", s(""), s("1000")).unwrap();
    assert_eq!(r.get_text(&tagger), "[ul] Pattern Altitude: [color=white]1000[/color][/ul]\n");
    let r = apt_rmk_csv::Remark::new("GENERAL_REMARK", s(""), s("CTC FSS 1-800-WX-BRIEF")).unwrap();
    assert_eq!(
        r.get_text(&tagger),
        "[ul] [color=white]CTC FSS [color=#A0C0FF]1-800-WX-BRIEF[/color][/color][/ul]\n"
    );
    assert!(apt_rmk_csv::Remark::new("OTHER", s(""), s("")).is_none());
    assert_eq!(
        apt_rmk_csv::get_reference("SEG_CIRCLE_MKR_FLAG").as_deref(),
        Some("Segmented Circle")
    );
    assert_eq!(apt_rmk::get_reference("SEG_CIRCLE_MKR_FLAG"), None);
    let r = apt_rmk::Remark::new("FUEL_TYPE", s(""), s("100LL")).unwrap();
    assert_eq!(r.get_text(&tagger), "[ul] Fuel Type: [color=white]100LL[/color][/ul]\n");
}

fn end_record(id: &str) -> EndRecord {
    EndRecord {
        rwy_id: s("18/36"),
        rwy_end_id: s(id),
        rwy_end_elev: s("1234.5"),
        true_alignment: s("179"),
        right_hand_traffic_pat_flag: s("Y"),
        rwy_marking_type_code: s("PIR"),
        rwy_marking_cond: s("G"),
        vgsi_code: s("P4L"),
        displaced_thr_elev: s(""),
        displaced_thr_len: s(""),
        tdz_elev: s(""),
        obstn_type: s("TREE"),
        obstn_mrkd_code: s("ML"),
        obstn_hgt: s("30"),
        dist_from_thr: s("500"),
        cntrln_offset: s("100"),
        cntrln_dir_code: s("L"),
    }
}

fn bare_end_record(id: &str) -> EndRecord {
    EndRecord {
        rwy_id: s("9/27"),
        rwy_end_id: s(id),
        rwy_end_elev: s(""),
        true_alignment: s(""),
        right_hand_traffic_pat_flag: s(""),
        rwy_marking_type_code: s(""),
        rwy_marking_cond: s(""),
        vgsi_code: s("N"),
        displaced_thr_elev: s(""),
        displaced_thr_len: s(""),
        tdz_elev: s(""),
        obstn_type: s(""),
        obstn_mrkd_code: s(""),
        obstn_hgt: s(""),
        dist_from_thr: s(""),
        cntrln_offset: s(""),
        cntrln_dir_code: s(""),
    }
}

#[test]
fn runway_end_fields_and_text() {
    let e = RunwayEnd::new(&end_record("18"));
    assert_eq!(e.elevation, "1234.5 FEET ASL");
    assert_eq!(e.true_alignment, "179°");
    assert_eq!(e.rh_traffic, "YES");
    assert_eq!(e.markings, "PRECISION INSTRUMENT, GOOD CONDITION");
    assert_eq!(e.gld_slp_ind, "4-LGT PAPI ON LEFT SIDE OF RUNWAY");
    assert_eq!(e.obstacle, "TREE (MARKED AND LIGHTED)");
    assert_eq!(e.obstacle_height, "30 FEET");
    assert_eq!(e.obstacle_offset, "500 FEET, 100 FEET LEFT OF CENTERLINE");
    assert_eq!(
        e.get_text(),
        [
            "End: [color=white]18[/color]\n",
            "[ul] Elevation: [color=white]1234.5 FEET ASL[/color][/ul]\n",
            "[ul] True Alignment: [color=white]179°[/color][/ul]\n",
            "[ul] Right Hand Traffic: [color=white]YES[/color][/ul]\n",
            "[ul] Markings: [color=white]PRECISION INSTRUMENT, GOOD CONDITION[/color][/ul]\n",
            "[ul] Glide Slope Indicator: [color=white]4-LGT PAPI ON LEFT SIDE OF RUNWAY[/color][/ul]\n",
            "[ul] Obstacle: [color=white]TREE (MARKED AND LIGHTED)[/color][/ul]\n",
            "[ul] Obstacle Height: [color=white]30 FEET[/color][/ul]\n",
            "[ul] Distance From Threshold: [color=white]500 FEET, 100 FEET LEFT OF CENTERLINE[/color][/ul]\n"
        ].concat()
    );
    let bare = RunwayEnd::new(&bare_end_record("9"));
    assert_eq!(bare.gld_slp_ind, "");
    assert_eq!(bare.get_text(), "");
}

#[test]
fn runway_end_codes() {
    let mut r = end_record("18");
    r.cntrln_offset = s("0");
    assert_eq!(RunwayEnd::new(&r).obstacle_offset, "500 FEET");
    r.cntrln_offset = s("20");
    r.cntrln_dir_code = s("B");
    assert_eq!(RunwayEnd::new(&r).obstacle_offset, "500 FEET");
    r.dist_from_thr = s("");
    assert_eq!(RunwayEnd::new(&r).obstacle_offset, "");
    r.rwy_marking_type_code = s("XYZ");
    r.rwy_marking_cond = s("P");
    assert_eq!(RunwayEnd::new(&r).markings, "XYZ, POOR CONDITION");
    r.rwy_marking_type_code = s("");
    assert_eq!(RunwayEnd::new(&r).markings, "");
    r.obstn_mrkd_code = s("X");
    assert_eq!(RunwayEnd::new(&r).obstacle, "TREE");
    r.vgsi_code = s("PVT");
    assert_eq!(
        RunwayEnd::new(&r).gld_slp_ind,
        "PRIVATELY OWNED APPROACH SLOPE INDICATOR LIGHT SYSTEM ON APUBLIC USE AIRPORT THAT IS INTENDED FOR PRIVATE USE ONLY"
    );
    r.true_alignment = s("");
    assert_eq!(RunwayEnd::new(&r).true_alignment, "");
}

#[test]
fn runway_takes_its_ends() {
    let mut map = RunwayEndMap::new();
    map.push(s("18/36"), RunwayEnd::new(&end_record("18")));
    map.push(s("9/27"), RunwayEnd::new(&bare_end_record("9")));
    map.push(s("18/36"), RunwayEnd::new(&end_record("36")));
    let rec = apt_rwy_csv::Record {
        rwy_id: s("18/36"),
        rwy_len: s("5000"),
        rwy_width: s("100"),
        rwy_lgt_code: s("MED"),
        surface_type_code: s("ASPH-CONC"),
        cond: s("GOOD"),
    };
    let rwy = Runway::new(&rec, &mut map);
    assert_eq!(rwy.ends.len(), 2);
    assert_eq!(rwy.ends[0].rwy_end_id, "18");
    assert_eq!(rwy.ends[1].rwy_end_id, "36");
    assert_eq!(rwy.length, "5000 FEET");
    assert_eq!(rwy.lighting, "MEDIUM");
    assert_eq!(rwy.surface, "ASPH-CONC");
    let ends = map.remove("9/27").unwrap();
    assert_eq!(ends.len(), 1);
    assert!(map.remove("9/27").is_none());
    assert!(map.remove("18/36").is_none());
    let text = rwy.get_text();
    assert!(text.starts_with(&[
        "\nRunway: [color=#FFD090]18/36[/color]\n",
        "[ul] Length: [color=white]5000 FEET[/color][/ul]\n",
        "[ul] Width: [color=white]100 FEET[/color][/ul]\n",
        "[ul] Lighting: [color=white]MEDIUM[/color][/ul]\n",
        "[ul] Surface: [color=white]ASPH-CONC[/color][/ul]\n",
        "[ul] Condition: [color=white]GOOD[/color][/ul]\n",
        "[indent]End: [color=white]18[/color]\n"
    ].concat()));
    assert!(text.ends_with("LEFT OF CENTERLINE[/color][/ul]\n[/indent]"));
    assert_eq!(text.matches("[indent]").count(), 2);
}

#[test]
fn runway_without_ends() {
    let mut map = RunwayEndMap::new();
    let rec = apt_rwy_csv::Record {
        rwy_id: s("H1"),
        rwy_len: s(""),
        rwy_width: s(""),
        rwy_lgt_code: s(""),
        surface_type_code: s("TURF"),
        cond: s(""),
    };
    let rwy = Runway::new(&rec, &mut map);
    assert_eq!(
        rwy.get_text(),
        [
            "\nRunway: [color=#FFD090]H1[/color]\n",
            "[ul] Length: [color=white][/color][/ul]\n",
            "[ul] Width: [color=white][/color][/ul]\n",
            "[ul] Surface: [color=white]GRASS; SOD[/color][/ul]\n"
        ].concat()
    );
}

#[test]
fn runway_lengths_in_decimal() {
    let rec = apt_rwy::Record {
        rwy_id: s("1/19"),
        rwy_len: -12,
        rwy_width: i64::MIN,
        rwy_lgt_code: s("NSTD"),
        surface_type_code: s(""),
        cond: s("FAIR"),
    };
    let rwy = apt_rwy::Runway::new(&rec);
    assert_eq!(rwy.length, "-12 FEET");
    assert_eq!(rwy.width, "-9223372036854775808 FEET");
    assert_eq!(rwy.lighting, "NON-STANDARD");
    assert_eq!(rwy.surface, "");
    let rec = apt_rwy::Record { rwy_len: 0, rwy_width: 75, surface_type_code: s("CONC"), ..rec };
    let rwy = apt_rwy::Runway::new(&rec);
    assert_eq!(rwy.length, "0 FEET");
    assert_eq!(rwy.width, "75 FEET");
    assert_eq!(
        rwy.get_text(),
        [
            "\nRunway: [color=#FFD090]1/19[/color]\n",
            "[ul] Length: [color=white]0 FEET[/color][/ul]\n",
            "[ul] Width: [color=white]75 FEET[/color][/ul]\n",
            "[ul] Lighting: [color=white]NON-STANDARD[/color][/ul]\n",
            "[ul] Surface: [color=white]PORTLAND CEMENT CONCRETE[/color][/ul]\n",
            "[ul] Condition: [color=white]FAIR[/color][/ul]\n"
        ].concat()
    );
}

#[test]
fn hash_map_vec_keeps_push_order() {
    let mut m: HashMapVec<String, u64> = HashMapVec::new(4);
    m.push(s("SEA"), 1);
    m.push(s("BFI"), 2);
    m.push(s("SEA"), 3);
    let map = m.into_map();
    assert_eq!(map.len(), 2);
    assert_eq!(map["SEA"], vec![1, 3]);
    assert_eq!(map["BFI"], vec![2]);
}
