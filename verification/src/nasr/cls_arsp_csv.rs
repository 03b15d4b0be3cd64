//! Class airspace records (`CLS_ARSP.csv`).
use crate::text;
use vstd::prelude::*;

verus! {

/// The airspace classes whose flag is `"Y"`, in the order B, C, D, E.
pub open spec fn spec_classes(b: Seq<char>, c: Seq<char>, d: Seq<char>, e: Seq<char>) -> Seq<Seq<char>> {
    let s0 = Seq::<Seq<char>>::empty();
    let s1 = if b == "Y"@ { s0.push("B"@) } else { s0 };
    let s2 = if c == "Y"@ { s1.push("C"@) } else { s1 };
    let s3 = if d == "Y"@ { s2.push("D"@) } else { s2 };
    if e == "Y"@ { s3.push("E"@) } else { s3 }
}

/// Class airspace information.
pub struct ClassAirspace {
    pub airspace: String,
    pub hours: String,
    pub remark: String,
}

/// The list of classes, such as `"C, D"`, or `None` when no class flag is set.
pub fn get_class_airspace(b: &str, c: &str, d: &str, e: &str) -> (r: Option<String>)
    ensures
        spec_classes(b@, c@, d@, e@).len() == 0 <==> r is None,
        r matches Some(s) ==> s@ == text::spec_join(spec_classes(b@, c@, d@, e@), ", "@),
{
    let mut airspaces: Vec<&str> = Vec::new();
    if text::str_eq(b, "Y") {
        airspaces.push("B");
    }
    if text::str_eq(c, "Y") {
        airspaces.push("C");
    }
    if text::str_eq(d, "Y") {
        airspaces.push("D");
    }
    if text::str_eq(e, "Y") {
        airspaces.push("E");
    }
    assert(text::strs_view(airspaces@) =~= spec_classes(b@, c@, d@, e@));
    if airspaces.len() == 0 {
        return None;
    }
    Some(text::join_strs(&airspaces, ", "))
}

impl ClassAirspace {
    /// Class airspace from the class B, C, D and E flags, the hours and the remark;
    /// `None` when no class flag is set.
    pub fn new(b: &str, c: &str, d: &str, e: &str, hours: String, remark: String) -> (r: Option<Self>)
        ensures
            spec_classes(b@, c@, d@, e@).len() == 0 <==> r is None,
            r matches Some(a) ==> {
                &&& a.airspace@ == text::spec_join(spec_classes(b@, c@, d@, e@), ", "@)
                &&& a.hours == hours
                &&& a.remark == remark
            },
    {
        let airspace = get_class_airspace(b, c, d, e)?;
        Some(Self { airspace, hours, remark })
    }

    /// The text `get_text` produces.
    pub open spec fn spec_text(&self) -> Seq<char> {
        text::spec_info_line("Airspace, Class"@, self.airspace@) + text::spec_ul_line_nonempty(
            "Hours"@,
            self.hours@,
        ) + text::spec_wrap_nonempty("[ul] [color=white]"@, self.remark@, "[/color][/ul]\n"@)
    }

    /// Rich text describing the class airspace.
    pub fn get_text(&self) -> (r: String)
        ensures
            r@ == self.spec_text(),
    {
        let mut s = self.get_class_airspace_text();
        s.append(self.get_hours_text().as_str());
        s.append(self.get_remark_text().as_str());
        s
    }

    fn get_class_airspace_text(&self) -> (r: String)
        ensures
            r@ == text::spec_info_line("Airspace, Class"@, self.airspace@),
    {
        text::info_line("Airspace, Class", self.airspace.as_str())
    }

    fn get_hours_text(&self) -> (r: String)
        ensures
            r@ == text::spec_ul_line_nonempty("Hours"@, self.hours@),
    {
        text::ul_line_nonempty("Hours", self.hours.as_str())
    }

    fn get_remark_text(&self) -> (r: String)
        ensures
            r@ == text::spec_wrap_nonempty("[ul] [color=white]"@, self.remark@, "[/color][/ul]\n"@),
    {
        text::wrap_nonempty("[ul] [color=white]", self.remark.as_str(), "[/color][/ul]\n")
    }
}

} // verus!
