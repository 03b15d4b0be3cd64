//! Runway records with numeric length and width.
use crate::nasr::apt_rwy_csv::{lighting_text, spec_lighting_text, spec_surface_text, surface_text};
use crate::text;
use vstd::prelude::*;

verus! {

/// The columns of one runway row that the reader uses.
pub struct Record {
    pub rwy_id: String,
    pub rwy_len: i64,
    pub rwy_width: i64,
    pub rwy_lgt_code: String,
    pub surface_type_code: String,
    pub cond: String,
}

/// A length in feet.
pub open spec fn spec_feet(v: int) -> Seq<char> {
    text::spec_decimal(v) + " FEET"@
}

fn get_feet(v: i64) -> (r: String)
    ensures
        r@ == spec_feet(v as int),
{
    let mut s = text::decimal(v);
    s.append(" FEET");
    s
}

/// Readable surface: empty stays empty, known codes are expanded.
pub open spec fn spec_surface(code: Seq<char>) -> Seq<char> {
    if code.len() == 0 {
        code
    } else {
        spec_surface_text(code)
    }
}

fn get_surface(code: &str) -> (r: String)
    ensures
        r@ == spec_surface(code@),
{
    if code.is_empty() {
        return text::owned(code);
    }
    surface_text(code)
}

/// Airport runway information.
pub struct Runway {
    pub rwy_id: String,
    pub length: String,
    pub width: String,
    pub lighting: String,
    pub surface: String,
    pub condition: String,
}

impl Runway {
    /// Runway information from a row.
    pub fn new(rec: &Record) -> (r: Self)
        ensures
            r.rwy_id@ == rec.rwy_id@,
            r.length@ == spec_feet(rec.rwy_len as int),
            r.width@ == spec_feet(rec.rwy_width as int),
            r.lighting@ == spec_lighting_text(rec.rwy_lgt_code@),
            r.surface@ == spec_surface(rec.surface_type_code@),
            r.condition@ == rec.cond@,
    {
        Self {
            rwy_id: text::owned(rec.rwy_id.as_str()),
            length: get_feet(rec.rwy_len),
            width: get_feet(rec.rwy_width),
            lighting: lighting_text(rec.rwy_lgt_code.as_str()),
            surface: get_surface(rec.surface_type_code.as_str()),
            condition: text::owned(rec.cond.as_str()),
        }
    }

    /// The text `get_text` produces.
    pub open spec fn spec_text(&self) -> Seq<char> {
        "\nRunway: [color=#FFD090]"@ + self.rwy_id@ + "[/color]\n"@ + text::spec_ul_line(
            "Length"@,
            self.length@,
        ) + text::spec_ul_line("Width"@, self.width@) + text::spec_ul_line_nonempty(
            "Lighting"@,
            self.lighting@,
        ) + text::spec_ul_line_nonempty("Surface"@, self.surface@) + text::spec_ul_line_nonempty(
            "Condition"@,
            self.condition@,
        )
    }

    /// Rich text describing the runway.
    pub fn get_text(&self) -> (r: String)
        ensures
            r@ == self.spec_text(),
    {
        let mut s = self.get_id_text();
        s.append(self.get_length_text().as_str());
        s.append(self.get_width_text().as_str());
        s.append(self.get_lighting_text().as_str());
        s.append(self.get_surface_text().as_str());
        s.append(self.get_condition_text().as_str());
        s
    }

    fn get_id_text(&self) -> (r: String)
        ensures
            r@ == "\nRunway: [color=#FFD090]"@ + self.rwy_id@ + "[/color]\n"@,
    {
        text::concat3("\nRunway: [color=#FFD090]", self.rwy_id.as_str(), "[/color]\n")
    }

    fn get_length_text(&self) -> (r: String)
        ensures
            r@ == text::spec_ul_line("Length"@, self.length@),
    {
        text::ul_line("Length", self.length.as_str())
    }

    fn get_width_text(&self) -> (r: String)
        ensures
            r@ == text::spec_ul_line("Width"@, self.width@),
    {
        text::ul_line("Width", self.width.as_str())
    }

    fn get_lighting_text(&self) -> (r: String)
        ensures
            r@ == text::spec_ul_line_nonempty("Lighting"@, self.lighting@),
    {
        text::ul_line_nonempty("Lighting", self.lighting.as_str())
    }

    fn get_surface_text(&self) -> (r: String)
        ensures
            r@ == text::spec_ul_line_nonempty("Surface"@, self.surface@),
    {
        text::ul_line_nonempty("Surface", self.surface.as_str())
    }

    fn get_condition_text(&self) -> (r: String)
        ensures
            r@ == text::spec_ul_line_nonempty("Condition"@, self.condition@),
    {
        text::ul_line_nonempty("Condition", self.condition.as_str())
    }
}

} // verus!
