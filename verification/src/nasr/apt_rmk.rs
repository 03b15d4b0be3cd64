//! Airport remark records, with the references of the remark columns.
use crate::nasr::apt_rmk_csv::{remark_text, spec_remark_text};
use crate::nasr::common::PhoneTagger;
use crate::nasr::phone;
use crate::text;
use vstd::prelude::*;

verus! {

/// The readable name of the column a remark refers to; empty for a general
/// remark, `None` for a column this reader does not know.
pub open spec fn spec_reference(col: Seq<char>) -> Option<Seq<char>> {
    if col == "ARPT_ID"@ {
        Some("Airport ID"@)
    } else if col == "ARPT_NAME"@ {
        Some("Airport Name"@)
    } else if col == "BCN_LENS_COLOR"@ {
        Some("Beacon Color"@)
    } else if col == "BCN_LGT_SKED"@ {
        Some("Beacon Schedule"@)
    } else if col == "ELEV"@ {
        Some("Elevation"@)
    } else if col == "FACILITY_USE_CODE"@ {
        Some("Facility Use"@)
    } else if col == "FUEL_TYPE"@ {
        Some("Fuel Type"@)
    } else if col == "GENERAL_REMARK"@ {
        Some(Seq::empty())
    } else if col == "LGT_SKED"@ {
        Some("Lighting Schedule"@)
    } else if col == "LNDG_FEE_FLAG"@ {
        Some("Landing Fee"@)
    } else if col == "SITE_TYPE_CODE"@ {
        Some("Site Type"@)
    } else if col == "TPA"@ {
        Some("Pattern Altitude"@)
    } else {
        None
    }
}

/// Map a referenced column name to its readable name.
pub fn get_reference(col: &str) -> (r: Option<String>)
    ensures
        r is Some <==> spec_reference(col@) is Some,
        r matches Some(s) ==> s@ == spec_reference(col@)->0,
{
    let reference = if text::str_eq(col, "ARPT_ID") {
        "Airport ID"
    } else if text::str_eq(col, "ARPT_NAME") {
        "Airport Name"
    } else if text::str_eq(col, "BCN_LENS_COLOR") {
        "Beacon Color"
    } else if text::str_eq(col, "BCN_LGT_SKED") {
        "Beacon Schedule"
    } else if text::str_eq(col, "ELEV") {
        "Elevation"
    } else if text::str_eq(col, "FACILITY_USE_CODE") {
        "Facility Use"
    } else if text::str_eq(col, "FUEL_TYPE") {
        "Fuel Type"
    } else if text::str_eq(col, "GENERAL_REMARK") {
        return Some(String::new());
    } else if text::str_eq(col, "LGT_SKED") {
        "Lighting Schedule"
    } else if text::str_eq(col, "LNDG_FEE_FLAG") {
        "Landing Fee"
    } else if text::str_eq(col, "SITE_TYPE_CODE") {
        "Site Type"
    } else if text::str_eq(col, "TPA") {
        "Pattern Altitude"
    } else {
        return None;
    };
    Some(text::owned(reference))
}

/// Airport remark information.
pub struct Remark {
    pub reference: String,
    pub element: String,
    pub text: String,
}

impl Remark {
    /// A remark from the referenced column name, the element and the remark text;
    /// `None` when the column is not one this reader knows.
    pub fn new(ref_col_name: &str, element: String, text: String) -> (r: Option<Self>)
        ensures
            r is Some <==> spec_reference(ref_col_name@) is Some,
            r matches Some(m) ==> {
                &&& m.reference@ == spec_reference(ref_col_name@)->0
                &&& m.element == element
                &&& m.text == text
            },
    {
        let reference = get_reference(ref_col_name)?;
        Some(Self { reference, element, text })
    }

    /// The text `get_text` produces.
    pub open spec fn spec_text(&self, tel_links: bool) -> Seq<char> {
        spec_remark_text(self.reference@, self.element@, phone::spec_tag_phones(self.text@, tel_links))
    }

    /// Rich text describing the remark, telephone numbers tagged.
    pub fn get_text(&self, phone_tagger: &PhoneTagger) -> (r: String)
        ensures
            r@ == self.spec_text(phone_tagger.tel_links),
    {
        let tagged = phone_tagger.process_text(self.text.as_str());
        remark_text(self.reference.as_str(), self.element.as_str(), tagged.as_str())
    }
}

} // verus!
