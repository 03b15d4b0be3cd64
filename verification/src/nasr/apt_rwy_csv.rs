//! Runway records (`APT_RWY.csv`).
use crate::nasr::apt_rwy_end_csv::{RunwayEnd, RunwayEndMap, ends_of};
use crate::nasr::common;
use crate::text;
use vstd::prelude::*;

verus! {

/// The columns of one runway row that the reader uses.
pub struct Record {
    pub rwy_id: String,
    pub rwy_len: String,
    pub rwy_width: String,
    pub rwy_lgt_code: String,
    pub surface_type_code: String,
    pub cond: String,
}

/// Readable runway lighting; other codes (`PERI` among them) are kept.
pub open spec fn spec_lighting_text(code: Seq<char>) -> Seq<char> {
    if code == "MED"@ {
        "MEDIUM"@
    } else if code == "NSTD"@ {
        "NON-STANDARD"@
    } else {
        code
    }
}

/// Readable runway lighting; other codes (`PERI` among them) are kept.
pub fn lighting_text(code: &str) -> (r: String)
    ensures
        r@ == spec_lighting_text(code@),
{
    let t: &str = if text::str_eq(code, "MED") {
        "MEDIUM"
    } else if text::str_eq(code, "NSTD") {
        "NON-STANDARD"
    } else {
        code
    };
    text::owned(t)
}

/// Readable runway surface; other codes (`ASPH-CONC` among them) are kept.
pub open spec fn spec_surface_text(code: Seq<char>) -> Seq<char> {
    if code == "ASPH"@ {
        "ASPHALT OR BITUMINOUS CONCRETE"@
    } else if code == "CONC"@ {
        "PORTLAND CEMENT CONCRETE"@
    } else if code == "DIRT"@ {
        "NATURAL SOIL"@
    } else if code == "GRAVEL"@ {
        "GRAVEL; CINDERS; CRUSHED ROCK; CORAL OR SHELLS; SLAG"@
    } else if code == "MATS"@ {
        "PIERCED STEEL PLANKING (PSP); LANDING MATS; MEMBRANES"@
    } else if code == "PEM"@ {
        "PARTIALLY CONCRETE, ASPHALT OR BITUMEN-BOUND MACADAM"@
    } else if code == "TREATED"@ {
        "OILED; SOIL CEMENT OR LIME STABILIZED"@
    } else if code == "TURF"@ {
        "GRASS; SOD"@
    } else {
        code
    }
}

/// Readable runway surface; other codes (`ASPH-CONC` among them) are kept.
pub fn surface_text(code: &str) -> (r: String)
    ensures
        r@ == spec_surface_text(code@),
{
    let t: &str = if text::str_eq(code, "ASPH") {
        "ASPHALT OR BITUMINOUS CONCRETE"
    } else if text::str_eq(code, "CONC") {
        "PORTLAND CEMENT CONCRETE"
    } else if text::str_eq(code, "DIRT") {
        "NATURAL SOIL"
    } else if text::str_eq(code, "GRAVEL") {
        "GRAVEL; CINDERS; CRUSHED ROCK; CORAL OR SHELLS; SLAG"
    } else if text::str_eq(code, "MATS") {
        "PIERCED STEEL PLANKING (PSP); LANDING MATS; MEMBRANES"
    } else if text::str_eq(code, "PEM") {
        "PARTIALLY CONCRETE, ASPHALT OR BITUMEN-BOUND MACADAM"
    } else if text::str_eq(code, "TREATED") {
        "OILED; SOIL CEMENT OR LIME STABILIZED"
    } else if text::str_eq(code, "TURF") {
        "GRASS; SOD"
    } else {
        code
    };
    text::owned(t)
}

/// The ends' texts, each indented.
pub open spec fn spec_ends_text(ends: Seq<RunwayEnd>) -> Seq<char>
    decreases ends.len(),
{
    if ends.len() == 0 {
        Seq::empty()
    } else {
        spec_ends_text(ends.drop_last()) + "[indent]"@ + ends.last().spec_text() + "[/indent]"@
    }
}

/// One runway end's text, indented.
fn end_section(e: &RunwayEnd) -> (r: String)
    ensures
        r@ == "[indent]"@ + e.spec_text() + "[/indent]"@,
{
    let mut s = text::owned("[indent]");
    s.append(e.get_text().as_str());
    s.append("[/indent]");
    s
}

/// Airport runway information.
pub struct Runway {
    pub rwy_id: String,
    pub length: String,
    pub width: String,
    pub lighting: String,
    pub surface: String,
    pub condition: String,
    pub ends: Vec<RunwayEnd>,
}

impl Runway {
    /// Runway information from a row; the runway's ends are taken out of `ends_map`.
    pub fn new(rec: &Record, ends_map: &mut RunwayEndMap) -> (r: Self)
        ensures
            r.rwy_id@ == rec.rwy_id@,
            r.length@ == common::spec_unit_text(rec.rwy_len@, "FEET"@),
            r.width@ == common::spec_unit_text(rec.rwy_width@, "FEET"@),
            r.lighting@ == spec_lighting_text(rec.rwy_lgt_code@),
            r.surface@ == spec_surface_text(rec.surface_type_code@),
            r.condition@ == rec.cond@,
            r.ends@ == ends_of(old(ends_map)@, rec.rwy_id@),
            final(ends_map)@ == crate::nasr::apt_rwy_end_csv::entries_without(
                old(ends_map)@,
                rec.rwy_id@,
            ),
    {
        let ends = match ends_map.remove(rec.rwy_id.as_str()) {
            Some(ends) => ends,
            None => Vec::new(),
        };
        Self {
            rwy_id: text::owned(rec.rwy_id.as_str()),
            length: common::get_unit_text(rec.rwy_len.as_str(), "FEET"),
            width: common::get_unit_text(rec.rwy_width.as_str(), "FEET"),
            lighting: lighting_text(rec.rwy_lgt_code.as_str()),
            surface: surface_text(rec.surface_type_code.as_str()),
            condition: text::owned(rec.cond.as_str()),
            ends,
        }
    }

    /// The text `get_text` produces.
    pub open spec fn spec_text(&self) -> Seq<char> {
        "\nRunway: [color=#FFD090]"@ + self.rwy_id@ + "[/color]\n"@ + text::spec_ul_line(
            "Length"@,
            self.length@,
        ) + text::spec_ul_line("Width"@, self.width@) + text::spec_ul_line_nonempty(
            "Lighting"@,
            self.lighting@,
        ) + text::spec_ul_line_nonempty("Surface"@, self.surface@) + text::spec_ul_line_nonempty(
            "Condition"@,
            self.condition@,
        ) + spec_ends_text(self.ends@)
    }

    /// Rich text describing the runway and its ends.
    pub fn get_text(&self) -> (r: String)
        ensures
            r@ == self.spec_text(),
    {
        let mut s = self.get_id_text();
        s.append(self.get_length_text().as_str());
        s.append(self.get_width_text().as_str());
        s.append(self.get_lighting_text().as_str());
        s.append(self.get_surface_text().as_str());
        s.append(self.get_condition_text().as_str());
        let ghost head = s@;
        let mut i: usize = 0;
        while i < self.ends.len()
            invariant
                i <= self.ends@.len(),
                s@ == head + spec_ends_text(self.ends@.take(i as int)),
            decreases self.ends@.len() - i,
        {
            assert(self.ends@.take(i + 1).drop_last() =~= self.ends@.take(i as int));
            let section = end_section(&self.ends[i]);
            s.append(section.as_str());
            i = i + 1;
        }
        assert(self.ends@.take(i as int) =~= self.ends@);
        s
    }

    fn get_id_text(&self) -> (r: String)
        ensures
            r@ == "\nRunway: [color=#FFD090]"@ + self.rwy_id@ + "[/color]\n"@,
    {
        text::concat3("\nRunway: [color=#FFD090]", self.rwy_id.as_str(), "[/color]\n")
    }

    fn get_length_text(&self) -> (r: String)
        ensures
            r@ == text::spec_ul_line("Length"@, self.length@),
    {
        text::ul_line("Length", self.length.as_str())
    }

    fn get_width_text(&self) -> (r: String)
        ensures
            r@ == text::spec_ul_line("Width"@, self.width@),
    {
        text::ul_line("Width", self.width.as_str())
    }

    fn get_lighting_text(&self) -> (r: String)
        ensures
            r@ == text::spec_ul_line_nonempty("Lighting"@, self.lighting@),
    {
        text::ul_line_nonempty("Lighting", self.lighting.as_str())
    }

    fn get_surface_text(&self) -> (r: String)
        ensures
            r@ == text::spec_ul_line_nonempty("Surface"@, self.surface@),
    {
        text::ul_line_nonempty("Surface", self.surface.as_str())
    }

    fn get_condition_text(&self) -> (r: String)
        ensures
            r@ == text::spec_ul_line_nonempty("Condition"@, self.condition@),
    {
        text::ul_line_nonempty("Condition", self.condition.as_str())
    }
}

} // verus!
