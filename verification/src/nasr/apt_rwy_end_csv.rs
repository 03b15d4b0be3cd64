//! Runway end records (`APT_RWY_END.csv`).
use crate::nasr::common;
use crate::text;
use vstd::prelude::*;

verus! {

/// The columns of one runway end row that the reader uses.
pub struct Record {
    pub rwy_id: String,
    pub rwy_end_id: String,
    pub rwy_end_elev: String,
    pub true_alignment: String,
    pub right_hand_traffic_pat_flag: String,
    pub rwy_marking_type_code: String,
    pub rwy_marking_cond: String,
    pub vgsi_code: String,
    pub displaced_thr_elev: String,
    pub displaced_thr_len: String,
    pub tdz_elev: String,
    pub obstn_type: String,
    pub obstn_mrkd_code: String,
    pub obstn_hgt: String,
    pub dist_from_thr: String,
    pub cntrln_offset: String,
    pub cntrln_dir_code: String,
}

/// Readable runway marking type; unknown codes are kept.
pub open spec fn spec_marking_type_text(code: Seq<char>) -> Seq<char> {
    if code == "PIR"@ {
        "PRECISION INSTRUMENT"@
    } else if code == "NPI"@ {
        "NONPRECISION INSTRUMENT"@
    } else if code == "BSC"@ {
        "BASIC"@
    } else if code == "NRS"@ {
        "NUMBERS ONLY"@
    } else if code == "NSTD"@ {
        "NONSTANDARD (OTHER THAN NUMBERS ONLY)"@
    } else if code == "BUOY"@ {
        "BUOYS (SEAPLANE BASE)"@
    } else if code == "STOL"@ {
        "SHORT TAKEOFF AND LANDING"@
    } else {
        code
    }
}

/// Readable runway marking type; unknown codes are kept.
fn marking_type_text(code: &str) -> (r: String)
    ensures
        r@ == spec_marking_type_text(code@),
{
    let t: &str = if text::str_eq(code, "PIR") {
        "PRECISION INSTRUMENT"
    } else if text::str_eq(code, "NPI") {
        "NONPRECISION INSTRUMENT"
    } else if text::str_eq(code, "BSC") {
        "BASIC"
    } else if text::str_eq(code, "NRS") {
        "NUMBERS ONLY"
    } else if text::str_eq(code, "NSTD") {
        "NONSTANDARD (OTHER THAN NUMBERS ONLY)"
    } else if text::str_eq(code, "BUOY") {
        "BUOYS (SEAPLANE BASE)"
    } else if text::str_eq(code, "STOL") {
        "SHORT TAKEOFF AND LANDING"
    } else {
        code
    };
    text::owned(t)
}

/// Readable runway marking condition; unknown codes are kept.
pub open spec fn spec_marking_condition_text(code: Seq<char>) -> Seq<char> {
    if code == "G"@ {
        "GOOD"@
    } else if code == "F"@ {
        "FAIR"@
    } else if code == "P"@ {
        "POOR"@
    } else {
        code
    }
}

/// Readable runway marking condition; unknown codes are kept.
fn marking_condition_text(code: &str) -> (r: String)
    ensures
        r@ == spec_marking_condition_text(code@),
{
    let t: &str = if text::str_eq(code, "G") {
        "GOOD"
    } else if text::str_eq(code, "F") {
        "FAIR"
    } else if text::str_eq(code, "P") {
        "POOR"
    } else {
        code
    };
    text::owned(t)
}

/// Readable visual glide slope indicator; `N` (none) reads as empty, unknown codes are kept.
pub open spec fn spec_glide_slope_indicator_text(code: Seq<char>) -> Seq<char> {
    if code == "N"@ {
        ""@
    } else if code == "NSTD"@ {
        "NONSTANDARD VASI SYSTEM"@
    } else if code == "P2L"@ {
        "2-LGT PAPI ON LEFT SIDE OF RUNWAY"@
    } else if code == "P2R"@ {
        "2-LGT PAPI ON RIGHT SIDE OF RUNWAY"@
    } else if code == "P4L"@ {
        "4-LGT PAPI ON LEFT SIDE OF RUNWAY"@
    } else if code == "P4R"@ {
        "4-LGT PAPI ON RIGHT SIDE OF RUNWAY"@
    } else if code == "PAPI"@ {
        "PRECISION APPROACH PATH INDICATOR"@
    } else if code == "PNI"@ {
        "A SYSTEM OF PANELS USED FOR ALIGNMENT OF APPROACH SLOPE INDICATOR"@
    } else if code == "PNIL"@ {
        "SYSTEM OF PANELS ON LEFT SIDE OF RUNWAY THAT MAY OR MAY NOT BE LIGHTED"@
    } else if code == "PNIR"@ {
        "SYSTEM OF PANELS ON RIGHT SIDE OF RUNWAY THAT MAY OR MAY NOT BE LIGHTED"@
    } else if code == "PSI"@ {
        "PULSATING/STEADY BURNING VISUAL APPROACH SLOPE INDICATOR"@
    } else if code == "PSIL"@ {
        "PULSATING/STEADY BURNING VASI ON LEFT SIDE OF RUNWAY"@
    } else if code == "PSIR"@ {
        "PULSATING/STEADY BURNING VASI ON RIGHT SIDE OF RUNWAY"@
    } else if code == "PVT"@ {
        "PRIVATELY OWNED APPROACH SLOPE INDICATOR LIGHT SYSTEM ON APUBLIC USE AIRPORT THAT IS INTENDED FOR PRIVATE USE ONLY"@
    } else if code == "S2L"@ {
        "2-BOX SAVASI ON LEFT SIDE OF RUNWAY"@
    } else if code == "S2R"@ {
        "2-BOX SAVASI ON RIGHT SIDE OF RUNWAY"@
    } else if code == "SAVASI"@ {
        "SIMPLIFIED ABBREVIATED VISUAL APPROACH SLOPE INDICATOR"@
    } else if code == "TRI"@ {
        "TRI-COLOR VISUAL APPROACH SLOPE INDICATOR"@
    } else if code == "TRIL"@ {
        "TRI-COLOR VASI ON LEFT SIDE OF RUNWAY"@
    } else if code == "TRIR"@ {
        "TRI-COLOR VASI ON RIGHT SIDE OF RUNWAY"@
    } else if code == "V12"@ {
        "12-BOX VASI ON BOTH SIDES OF RUNWAY"@
    } else if code == "V16"@ {
        "16-BOX VASI ON BOTH SIDES OF RUNWAY"@
    } else if code == "V2L"@ {
        "2-BOX VASI ON LEFT SIDE OF RUNWAY"@
    } else if code == "V2R"@ {
        "2-BOX VASI ON RIGHT SIDE OF RUNWAY"@
    } else if code == "V4L"@ {
        "4-BOX VASI ON LEFT SIDE OF RUNWAY"@
    } else if code == "V4R"@ {
        "4-BOX VASI ON RIGHT SIDE OF RUNWAY"@
    } else if code == "V6L"@ {
        "6-BOX VASI ON LEFT SIDE OF RUNWAY"@
    } else if code == "V6R"@ {
        "6-BOX VASI ON RIGHT SIDE OF RUNWAY"@
    } else if code == "VAS"@ {
        "NON-SPECIFIC VASI SYSTEM"@
    } else if code == "VASI"@ {
        "VISUAL APPROACH SLOPE INDICATOR"@
    } else {
        code
    }
}

/// Readable visual glide slope indicator; `N` (none) reads as empty, unknown codes are kept.
fn glide_slope_indicator_text(code: &str) -> (r: String)
    ensures
        r@ == spec_glide_slope_indicator_text(code@),
{
    let t: &str = if text::str_eq(code, "N") {
        ""
    } else if text::str_eq(code, "NSTD") {
        "NONSTANDARD VASI SYSTEM"
    } else if text::str_eq(code, "P2L") {
        "2-LGT PAPI ON LEFT SIDE OF RUNWAY"
    } else if text::str_eq(code, "P2R") {
        "2-LGT PAPI ON RIGHT SIDE OF RUNWAY"
    } else if text::str_eq(code, "P4L") {
        "4-LGT PAPI ON LEFT SIDE OF RUNWAY"
    } else if text::str_eq(code, "P4R") {
        "4-LGT PAPI ON RIGHT SIDE OF RUNWAY"
    } else if text::str_eq(code, "PAPI") {
        "PRECISION APPROACH PATH INDICATOR"
    } else if text::str_eq(code, "PNI") {
        "A SYSTEM OF PANELS USED FOR ALIGNMENT OF APPROACH SLOPE INDICATOR"
    } else if text::str_eq(code, "PNIL") {
        "SYSTEM OF PANELS ON LEFT SIDE OF RUNWAY THAT MAY OR MAY NOT BE LIGHTED"
    } else if text::str_eq(code, "PNIR") {
        "SYSTEM OF PANELS ON RIGHT SIDE OF RUNWAY THAT MAY OR MAY NOT BE LIGHTED"
    } else if text::str_eq(code, "PSI") {
        "PULSATING/STEADY BURNING VISUAL APPROACH SLOPE INDICATOR"
    } else if text::str_eq(code, "PSIL") {
        "PULSATING/STEADY BURNING VASI ON LEFT SIDE OF RUNWAY"
    } else if text::str_eq(code, "PSIR") {
        "PULSATING/STEADY BURNING VASI ON RIGHT SIDE OF RUNWAY"
    } else if text::str_eq(code, "PVT") {
        "PRIVATELY OWNED APPROACH SLOPE INDICATOR LIGHT SYSTEM ON APUBLIC USE AIRPORT THAT IS INTENDED FOR PRIVATE USE ONLY"
    } else if text::str_eq(code, "S2L") {
        "2-BOX SAVASI ON LEFT SIDE OF RUNWAY"
    } else if text::str_eq(code, "S2R") {
        "2-BOX SAVASI ON RIGHT SIDE OF RUNWAY"
    } else if text::str_eq(code, "SAVASI") {
        "SIMPLIFIED ABBREVIATED VISUAL APPROACH SLOPE INDICATOR"
    } else if text::str_eq(code, "TRI") {
        "TRI-COLOR VISUAL APPROACH SLOPE INDICATOR"
    } else if text::str_eq(code, "TRIL") {
        "TRI-COLOR VASI ON LEFT SIDE OF RUNWAY"
    } else if text::str_eq(code, "TRIR") {
        "TRI-COLOR VASI ON RIGHT SIDE OF RUNWAY"
    } else if text::str_eq(code, "V12") {
        "12-BOX VASI ON BOTH SIDES OF RUNWAY"
    } else if text::str_eq(code, "V16") {
        "16-BOX VASI ON BOTH SIDES OF RUNWAY"
    } else if text::str_eq(code, "V2L") {
        "2-BOX VASI ON LEFT SIDE OF RUNWAY"
    } else if text::str_eq(code, "V2R") {
        "2-BOX VASI ON RIGHT SIDE OF RUNWAY"
    } else if text::str_eq(code, "V4L") {
        "4-BOX VASI ON LEFT SIDE OF RUNWAY"
    } else if text::str_eq(code, "V4R") {
        "4-BOX VASI ON RIGHT SIDE OF RUNWAY"
    } else if text::str_eq(code, "V6L") {
        "6-BOX VASI ON LEFT SIDE OF RUNWAY"
    } else if text::str_eq(code, "V6R") {
        "6-BOX VASI ON RIGHT SIDE OF RUNWAY"
    } else if text::str_eq(code, "VAS") {
        "NON-SPECIFIC VASI SYSTEM"
    } else if text::str_eq(code, "VASI") {
        "VISUAL APPROACH SLOPE INDICATOR"
    } else {
        code
    };
    text::owned(t)
}

/// Readable obstacle marking; unknown codes read as empty.
pub open spec fn spec_obstacle_marking_text(code: Seq<char>) -> Seq<char> {
    if code == "M"@ {
        "MARKED"@
    } else if code == "L"@ {
        "LIGHTED"@
    } else if code == "ML"@ {
        "MARKED AND LIGHTED"@
    } else {
        ""@
    }
}

/// Readable obstacle marking; unknown codes read as empty.
fn obstacle_marking_text(code: &str) -> (r: String)
    ensures
        r@ == spec_obstacle_marking_text(code@),
{
    let t: &str = if text::str_eq(code, "M") {
        "MARKED"
    } else if text::str_eq(code, "L") {
        "LIGHTED"
    } else if text::str_eq(code, "ML") {
        "MARKED AND LIGHTED"
    } else {
        ""
    };
    text::owned(t)
}

/// Readable side of the centerline; `B` and unknown codes read as empty.
pub open spec fn spec_centerline_direction_text(code: Seq<char>) -> Seq<char> {
    if code == "L"@ {
        "LEFT"@
    } else if code == "L/R"@ {
        "LEFT AND RIGHT"@
    } else if code == "R"@ {
        "RIGHT"@
    } else {
        ""@
    }
}

/// Readable side of the centerline; `B` and unknown codes read as empty.
fn centerline_direction_text(code: &str) -> (r: String)
    ensures
        r@ == spec_centerline_direction_text(code@),
{
    let t: &str = if text::str_eq(code, "L") {
        "LEFT"
    } else if text::str_eq(code, "L/R") {
        "LEFT AND RIGHT"
    } else if text::str_eq(code, "R") {
        "RIGHT"
    } else {
        ""
    };
    text::owned(t)
}

/// True alignment in degrees: a degree sign is added to a non-empty value.
pub open spec fn spec_true_alignment(alignment: Seq<char>) -> Seq<char> {
    if alignment.len() == 0 {
        alignment
    } else {
        alignment + "°"@
    }
}

fn get_true_alignment(alignment: &str) -> (r: String)
    ensures
        r@ == spec_true_alignment(alignment@),
{
    let mut s = text::owned(alignment);
    if !alignment.is_empty() {
        s.append("°");
    }
    s
}

/// Runway markings, followed by their condition when both are known.
pub open spec fn spec_markings(type_code: Seq<char>, cond_code: Seq<char>) -> Seq<char> {
    let markings = spec_marking_type_text(type_code);
    let condition = spec_marking_condition_text(cond_code);
    if markings.len() != 0 && condition.len() != 0 {
        markings + ", "@ + condition + " CONDITION"@
    } else {
        markings
    }
}

fn get_markings(type_code: &str, cond_code: &str) -> (r: String)
    ensures
        r@ == spec_markings(type_code@, cond_code@),
{
    let mut markings = marking_type_text(type_code);
    if !markings.as_str().is_empty() {
        let condition = marking_condition_text(cond_code);
        if !condition.as_str().is_empty() {
            markings.append(", ");
            markings.append(condition.as_str());
            markings.append(" CONDITION");
        }
    }
    markings
}

/// The obstacle, followed by its marking in brackets when both are known.
pub open spec fn spec_obstacle(obstacle: Seq<char>, marked_code: Seq<char>) -> Seq<char> {
    let marked = spec_obstacle_marking_text(marked_code);
    if obstacle.len() == 0 || marked.len() == 0 {
        obstacle
    } else {
        obstacle + " ("@ + marked + ")"@
    }
}

fn get_obstacle(obstacle: &str, marked_code: &str) -> (r: String)
    ensures
        r@ == spec_obstacle(obstacle@, marked_code@),
{
    let marked = obstacle_marking_text(marked_code);
    if obstacle.is_empty() || marked.as_str().is_empty() {
        return text::owned(obstacle);
    }
    let mut s = text::concat3(obstacle, " (", marked.as_str());
    s.append(")");
    s
}

/// Distance of the obstacle from the threshold, with its offset from the
/// centerline when that is known and not zero.
pub open spec fn spec_obstacle_offset(distance: Seq<char>, offset: Seq<char>, dir_code: Seq<char>) -> Seq<
    char,
> {
    let direction = spec_centerline_direction_text(dir_code);
    if distance.len() == 0 {
        distance
    } else if offset.len() == 0 || offset == "0"@ || direction.len() == 0 {
        distance + " FEET"@
    } else {
        distance + " FEET, "@ + offset + " FEET "@ + direction + " OF CENTERLINE"@
    }
}

fn get_obstacle_offset(distance: &str, offset: &str, dir_code: &str) -> (r: String)
    ensures
        r@ == spec_obstacle_offset(distance@, offset@, dir_code@),
{
    if distance.is_empty() {
        return text::owned(distance);
    }
    let direction = centerline_direction_text(dir_code);
    if offset.is_empty() || text::str_eq(offset, "0") || direction.as_str().is_empty() {
        let mut s = text::owned(distance);
        s.append(" FEET");
        return s;
    }
    let mut s = text::concat3(distance, " FEET, ", offset);
    s.append(" FEET ");
    s.append(direction.as_str());
    s.append(" OF CENTERLINE");
    s
}

/// The obstacle's offset names the side of the centerline its code gives: `R`
/// reads right, `L` left and `L/R` both sides; any other code (`B` among them)
/// leaves the side, and with it the offset, out. A distance is always in feet.
pub proof fn lemma_obstacle_offset_sides(distance: Seq<char>, offset: Seq<char>, dir_code: Seq<char>)
    requires
        distance.len() > 0,
        offset.len() > 0,
        offset != "0"@,
    ensures
        dir_code == "R"@ ==> spec_obstacle_offset(distance, offset, dir_code) == distance
            + " FEET, "@ + offset + " FEET RIGHT OF CENTERLINE"@,
        dir_code == "L"@ ==> spec_obstacle_offset(distance, offset, dir_code) == distance
            + " FEET, "@ + offset + " FEET LEFT OF CENTERLINE"@,
        dir_code == "L/R"@ ==> spec_obstacle_offset(distance, offset, dir_code) == distance
            + " FEET, "@ + offset + " FEET LEFT AND RIGHT OF CENTERLINE"@,
        dir_code != "R"@ && dir_code != "L"@ && dir_code != "L/R"@ ==> spec_obstacle_offset(
            distance,
            offset,
            dir_code,
        ) == distance + " FEET"@,
{
    reveal_strlit("R");
    reveal_strlit("L");
    reveal_strlit("L/R");
    reveal_strlit("RIGHT");
    reveal_strlit("LEFT");
    reveal_strlit("LEFT AND RIGHT");
    reveal_strlit("");
    reveal_strlit(" FEET ");
    reveal_strlit(" OF CENTERLINE");
    reveal_strlit(" FEET RIGHT OF CENTERLINE");
    reveal_strlit(" FEET LEFT OF CENTERLINE");
    reveal_strlit(" FEET LEFT AND RIGHT OF CENTERLINE");
    let head = distance + " FEET, "@ + offset;
    assert("R"@ != "L"@) by {
        assert("R"@[0] != "L"@[0]);
    }
    assert("L/R"@ != "L"@) by {
        assert("L/R"@.len() != "L"@.len());
    }
    assert("R"@ != "L/R"@) by {
        assert("R"@.len() != "L/R"@.len());
    }
    assert("RIGHT"@.len() > 0 && "LEFT"@.len() > 0 && "LEFT AND RIGHT"@.len() > 0);
    if dir_code == "R"@ {
        assert(head + " FEET "@ + "RIGHT"@ + " OF CENTERLINE"@ =~= head + " FEET RIGHT OF CENTERLINE"@);
    } else if dir_code == "L"@ {
        assert(head + " FEET "@ + "LEFT"@ + " OF CENTERLINE"@ =~= head + " FEET LEFT OF CENTERLINE"@);
    } else if dir_code == "L/R"@ {
        assert(head + " FEET "@ + "LEFT AND RIGHT"@ + " OF CENTERLINE"@ =~= head
            + " FEET LEFT AND RIGHT OF CENTERLINE"@);
    }
}

/// Airport runway end information.
pub struct RunwayEnd {
    pub rwy_end_id: String,
    pub elevation: String,
    pub true_alignment: String,
    pub rh_traffic: String,
    pub markings: String,
    pub gld_slp_ind: String,
    pub displaced_thr_elev: String,
    pub displaced_thr_len: String,
    pub tdz_elevation: String,
    pub obstacle: String,
    pub obstacle_height: String,
    pub obstacle_offset: String,
}

impl RunwayEnd {
    /// Runway end information from a row, with its codes expanded.
    pub fn new(rec: &Record) -> (r: Self)
        ensures
            r.rwy_end_id@ == rec.rwy_end_id@,
            r.elevation@ == common::spec_unit_text(rec.rwy_end_elev@, "FEET ASL"@),
            r.true_alignment@ == spec_true_alignment(rec.true_alignment@),
            r.rh_traffic@ == common::spec_yes_no_text(rec.right_hand_traffic_pat_flag@),
            r.markings@ == spec_markings(rec.rwy_marking_type_code@, rec.rwy_marking_cond@),
            r.gld_slp_ind@ == spec_glide_slope_indicator_text(rec.vgsi_code@),
            r.displaced_thr_elev@ == common::spec_unit_text(rec.displaced_thr_elev@, "FEET ASL"@),
            r.displaced_thr_len@ == common::spec_unit_text(rec.displaced_thr_len@, "FEET"@),
            r.tdz_elevation@ == common::spec_unit_text(rec.tdz_elev@, "FEET ASL"@),
            r.obstacle@ == spec_obstacle(rec.obstn_type@, rec.obstn_mrkd_code@),
            r.obstacle_height@ == common::spec_unit_text(rec.obstn_hgt@, "FEET"@),
            r.obstacle_offset@ == spec_obstacle_offset(
                rec.dist_from_thr@,
                rec.cntrln_offset@,
                rec.cntrln_dir_code@,
            ),
            rec.dist_from_thr@.len() > 0 && rec.cntrln_offset@.len() > 0 && rec.cntrln_offset@ != "0"@
                && rec.cntrln_dir_code@ == "R"@ ==> r.obstacle_offset@ == rec.dist_from_thr@
                + " FEET, "@ + rec.cntrln_offset@ + " FEET RIGHT OF CENTERLINE"@,
            rec.dist_from_thr@.len() > 0 && rec.cntrln_offset@.len() > 0 && rec.cntrln_offset@ != "0"@
                && rec.cntrln_dir_code@ == "L"@ ==> r.obstacle_offset@ == rec.dist_from_thr@
                + " FEET, "@ + rec.cntrln_offset@ + " FEET LEFT OF CENTERLINE"@,
    {
        proof {
            if rec.dist_from_thr@.len() > 0 && rec.cntrln_offset@.len() > 0 && rec.cntrln_offset@
                != "0"@ {
                lemma_obstacle_offset_sides(rec.dist_from_thr@, rec.cntrln_offset@, rec.cntrln_dir_code@);
            }
        }
        Self {
            rwy_end_id: text::owned(rec.rwy_end_id.as_str()),
            elevation: common::get_unit_text(rec.rwy_end_elev.as_str(), "FEET ASL"),
            true_alignment: get_true_alignment(rec.true_alignment.as_str()),
            rh_traffic: text::owned(
                common::get_yes_no_text(rec.right_hand_traffic_pat_flag.as_str()),
            ),
            markings: get_markings(rec.rwy_marking_type_code.as_str(), rec.rwy_marking_cond.as_str()),
            gld_slp_ind: glide_slope_indicator_text(rec.vgsi_code.as_str()),
            displaced_thr_elev: common::get_unit_text(rec.displaced_thr_elev.as_str(), "FEET ASL"),
            displaced_thr_len: common::get_unit_text(rec.displaced_thr_len.as_str(), "FEET"),
            tdz_elevation: common::get_unit_text(rec.tdz_elev.as_str(), "FEET ASL"),
            obstacle: get_obstacle(rec.obstn_type.as_str(), rec.obstn_mrkd_code.as_str()),
            obstacle_height: common::get_unit_text(rec.obstn_hgt.as_str(), "FEET"),
            obstacle_offset: get_obstacle_offset(
                rec.dist_from_thr.as_str(),
                rec.cntrln_offset.as_str(),
                rec.cntrln_dir_code.as_str(),
            ),
        }
    }

    /// No detail besides the end's identifier is known.
    pub open spec fn spec_is_bare(&self) -> bool {
        &&& self.elevation@.len() == 0
        &&& self.true_alignment@.len() == 0
        &&& self.rh_traffic@.len() == 0
        &&& self.markings@.len() == 0
        &&& self.gld_slp_ind@.len() == 0
        &&& self.displaced_thr_elev@.len() == 0
        &&& self.displaced_thr_len@.len() == 0
        &&& self.tdz_elevation@.len() == 0
        &&& self.obstacle@.len() == 0
        &&& self.obstacle_height@.len() == 0
        &&& self.obstacle_offset@.len() == 0
    }

    /// The text `get_text` produces.
    pub open spec fn spec_text(&self) -> Seq<char> {
        if self.spec_is_bare() {
            Seq::empty()
        } else {
            text::spec_info_line("End"@, self.rwy_end_id@)
                + text::spec_ul_line_nonempty("Elevation"@, self.elevation@)
                + text::spec_ul_line_nonempty("True Alignment"@, self.true_alignment@)
                + text::spec_ul_line_nonempty("Right Hand Traffic"@, self.rh_traffic@)
                + text::spec_ul_line_nonempty("Markings"@, self.markings@)
                + text::spec_ul_line_nonempty("Glide Slope Indicator"@, self.gld_slp_ind@)
                + text::spec_ul_line_nonempty("Displaced Threshold Elevation"@, self.displaced_thr_elev@)
                + text::spec_ul_line_nonempty("Displaced Threshold Length"@, self.displaced_thr_len@)
                + text::spec_ul_line_nonempty("Touchdown Zone Elevation"@, self.tdz_elevation@)
                + text::spec_ul_line_nonempty("Obstacle"@, self.obstacle@)
                + text::spec_ul_line_nonempty("Obstacle Height"@, self.obstacle_height@)
                + text::spec_ul_line_nonempty("Distance From Threshold"@, self.obstacle_offset@)
        }
    }

    /// Rich text describing the runway end; empty when nothing besides its
    /// identifier is known.
    pub fn get_text(&self) -> (r: String)
        ensures
            r@ == self.spec_text(),
    {
        if self.elevation.as_str().is_empty() && self.true_alignment.as_str().is_empty() && self.rh_traffic.as_str().is_empty()
            && self.markings.as_str().is_empty() && self.gld_slp_ind.as_str().is_empty()
            && self.displaced_thr_elev.as_str().is_empty() && self.displaced_thr_len.as_str().is_empty()
            && self.tdz_elevation.as_str().is_empty() && self.obstacle.as_str().is_empty()
            && self.obstacle_height.as_str().is_empty() && self.obstacle_offset.as_str().is_empty() {
            return String::new();
        }
        let mut s = self.get_id_text();
        s.append(self.get_elevation_text().as_str());
        s.append(self.get_true_alignment_text().as_str());
        s.append(self.get_rh_traffic_text().as_str());
        s.append(self.get_markings_text().as_str());
        s.append(self.get_gld_slp_ind_text().as_str());
        s.append(self.get_displaced_threshold_elevation_text().as_str());
        s.append(self.get_displaced_threshold_length_text().as_str());
        s.append(self.get_touchdown_zone_elevation_text().as_str());
        s.append(self.get_obstacle_text().as_str());
        s.append(self.get_obstacle_height_text().as_str());
        s.append(self.get_obstacle_offset_text().as_str());
        s
    }

    fn get_id_text(&self) -> (r: String)
        ensures
            r@ == text::spec_info_line("End"@, self.rwy_end_id@),
    {
        text::info_line("End", self.rwy_end_id.as_str())
    }

    fn get_elevation_text(&self) -> (r: String)
        ensures
            r@ == text::spec_ul_line_nonempty("Elevation"@, self.elevation@),
    {
        text::ul_line_nonempty("Elevation", self.elevation.as_str())
    }

    fn get_true_alignment_text(&self) -> (r: String)
        ensures
            r@ == text::spec_ul_line_nonempty("True Alignment"@, self.true_alignment@),
    {
        text::ul_line_nonempty("True Alignment", self.true_alignment.as_str())
    }

    fn get_rh_traffic_text(&self) -> (r: String)
        ensures
            r@ == text::spec_ul_line_nonempty("Right Hand Traffic"@, self.rh_traffic@),
    {
        text::ul_line_nonempty("Right Hand Traffic", self.rh_traffic.as_str())
    }

    fn get_markings_text(&self) -> (r: String)
        ensures
            r@ == text::spec_ul_line_nonempty("Markings"@, self.markings@),
    {
        text::ul_line_nonempty("Markings", self.markings.as_str())
    }

    fn get_gld_slp_ind_text(&self) -> (r: String)
        ensures
            r@ == text::spec_ul_line_nonempty("Glide Slope Indicator"@, self.gld_slp_ind@),
    {
        text::ul_line_nonempty("Glide Slope Indicator", self.gld_slp_ind.as_str())
    }

    fn get_displaced_threshold_elevation_text(&self) -> (r: String)
        ensures
            r@ == text::spec_ul_line_nonempty(
                "Displaced Threshold Elevation"@,
                self.displaced_thr_elev@,
            ),
    {
        text::ul_line_nonempty("Displaced Threshold Elevation", self.displaced_thr_elev.as_str())
    }

    fn get_displaced_threshold_length_text(&self) -> (r: String)
        ensures
            r@ == text::spec_ul_line_nonempty("Displaced Threshold Length"@, self.displaced_thr_len@),
    {
        text::ul_line_nonempty("Displaced Threshold Length", self.displaced_thr_len.as_str())
    }

    fn get_touchdown_zone_elevation_text(&self) -> (r: String)
        ensures
            r@ == text::spec_ul_line_nonempty("Touchdown Zone Elevation"@, self.tdz_elevation@),
    {
        text::ul_line_nonempty("Touchdown Zone Elevation", self.tdz_elevation.as_str())
    }

    fn get_obstacle_text(&self) -> (r: String)
        ensures
            r@ == text::spec_ul_line_nonempty("Obstacle"@, self.obstacle@),
    {
        text::ul_line_nonempty("Obstacle", self.obstacle.as_str())
    }

    fn get_obstacle_height_text(&self) -> (r: String)
        ensures
            r@ == text::spec_ul_line_nonempty("Obstacle Height"@, self.obstacle_height@),
    {
        text::ul_line_nonempty("Obstacle Height", self.obstacle_height.as_str())
    }

    fn get_obstacle_offset_text(&self) -> (r: String)
        ensures
            r@ == text::spec_ul_line_nonempty("Distance From Threshold"@, self.obstacle_offset@),
    {
        text::ul_line_nonempty("Distance From Threshold", self.obstacle_offset.as_str())
    }
}

/// The ends, in arrival order, of the runway `id`.
pub open spec fn ends_of(s: Seq<(String, RunwayEnd)>, id: Seq<char>) -> Seq<RunwayEnd>
    decreases s.len(),
{
    if s.len() == 0 {
        Seq::empty()
    } else if s.last().0@ == id {
        ends_of(s.drop_last(), id).push(s.last().1)
    } else {
        ends_of(s.drop_last(), id)
    }
}

/// The entries, in arrival order, of runways other than `id`.
pub open spec fn entries_without(s: Seq<(String, RunwayEnd)>, id: Seq<char>) -> Seq<(String, RunwayEnd)>
    decreases s.len(),
{
    if s.len() == 0 {
        Seq::empty()
    } else if s.last().0@ == id {
        entries_without(s.drop_last(), id)
    } else {
        entries_without(s.drop_last(), id).push(s.last())
    }
}

/// Runway ends collected per runway identifier, each runway's ends in arrival order.
pub struct RunwayEndMap {
    entries: Vec<(String, RunwayEnd)>,
}

impl View for RunwayEndMap {
    type V = Seq<(String, RunwayEnd)>;

    closed spec fn view(&self) -> Seq<(String, RunwayEnd)> {
        self.entries@
    }
}

impl RunwayEndMap {
    /// No runway ends.
    pub fn new() -> (r: Self)
        ensures
            r@ == Seq::<(String, RunwayEnd)>::empty(),
    {
        Self { entries: Vec::new() }
    }

    /// The ends collected for runway `id`.
    pub open spec fn spec_ends(&self, id: Seq<char>) -> Seq<RunwayEnd> {
        ends_of(self@, id)
    }

    /// Add an end of runway `id`.
    pub fn push(&mut self, id: String, end: RunwayEnd)
        ensures
            final(self)@ == old(self)@.push((id, end)),
    {
        self.entries.push((id, end));
    }

    /// Take out the ends of runway `id`; `None` when there are none.
    pub fn remove(&mut self, id: &str) -> (r: Option<Vec<RunwayEnd>>)
        ensures
            final(self)@ == entries_without(old(self)@, id@),
            r is None <==> ends_of(old(self)@, id@).len() == 0,
            r matches Some(v) ==> v@ == ends_of(old(self)@, id@),
    {
        let ghost orig = self.entries@;
        let mut rest: Vec<(String, RunwayEnd)> = Vec::new();
        std::mem::swap(&mut rest, &mut self.entries);
        let n = rest.len();
        let mut kept: Vec<(String, RunwayEnd)> = Vec::new();
        let mut taken: Vec<RunwayEnd> = Vec::new();
        let mut i: usize = 0;
        assert(orig.skip(0) =~= orig);
        while i < n
            invariant
                n == orig.len(),
                i <= n,
                rest@ == orig.skip(i as int),
                kept@ == entries_without(orig.take(i as int), id@),
                taken@ == ends_of(orig.take(i as int), id@),
            decreases n - i,
        {
            assert(orig.take(i + 1).drop_last() =~= orig.take(i as int));
            assert(orig.skip(i as int)[0] == orig[i as int]);
            let entry = rest.remove(0);
            assert(rest@ =~= orig.skip(i + 1));
            if text::str_eq(entry.0.as_str(), id) {
                taken.push(entry.1);
            } else {
                kept.push(entry);
            }
            i = i + 1;
        }
        assert(orig.take(n as int) =~= orig);
        self.entries = kept;
        if taken.len() == 0 {
            None
        } else {
            Some(taken)
        }
    }
}

/// Ends added for one runway are all taken out together, in the order added,
/// and the other runways' ends stay.
pub proof fn lemma_ends_of_push(s: Seq<(String, RunwayEnd)>, id: String, end: RunwayEnd, other: Seq<char>)
    ensures
        ends_of(s.push((id, end)), id@) == ends_of(s, id@).push(end),
        other != id@ ==> ends_of(s.push((id, end)), other) == ends_of(s, other),
        entries_without(s.push((id, end)), id@) == entries_without(s, id@),
{
    assert(s.push((id, end)).drop_last() =~= s);
}

} // verus!
