//! Airport frequency records (`FRQ.csv`).
use crate::nasr::common::PhoneTagger;
use crate::nasr::phone;
use crate::text;
use vstd::prelude::*;

verus! {

/// Airport frequency information.
pub struct Frequency {
    pub freq: String,
    pub freq_use: String,
    pub facility_type: String,
    pub sectorization: String,
    pub tower_call: String,
    pub approach_call: String,
    pub remark: String,
}

/// A free-text remark line, telephone numbers tagged, or nothing when the remark is empty.
pub open spec fn spec_remark_line(remark: Seq<char>, tel_links: bool) -> Seq<char> {
    if remark.len() == 0 {
        Seq::empty()
    } else {
        "[ul] [color=white]"@ + phone::spec_tag_phones(remark, tel_links) + "[/color][/ul]\n"@
    }
}

/// Build a free-text remark line.
pub fn remark_line(remark: &str, phone_tagger: &PhoneTagger) -> (r: String)
    ensures
        r@ == spec_remark_line(remark@, phone_tagger.tel_links),
{
    if remark.is_empty() {
        return String::new();
    }
    let tagged = phone_tagger.process_text(remark);
    text::concat3("[ul] [color=white]", tagged.as_str(), "[/color][/ul]\n")
}

impl Frequency {
    /// A frequency record from the values of its columns.
    pub fn new(
        freq: String,
        freq_use: String,
        facility_type: String,
        sectorization: String,
        tower_call: String,
        approach_call: String,
        remark: String,
    ) -> (r: Self)
        ensures
            r.freq == freq,
            r.freq_use == freq_use,
            r.facility_type == facility_type,
            r.sectorization == sectorization,
            r.tower_call == tower_call,
            r.approach_call == approach_call,
            r.remark == remark,
    {
        Self { freq, freq_use, facility_type, sectorization, tower_call, approach_call, remark }
    }

    /// The text `get_text` produces.
    pub open spec fn spec_text(&self, tel_links: bool) -> Seq<char> {
        "[color=#A0FFA0]"@ + self.freq@ + "[/color]\n"@ + text::spec_ul_line_nonempty(
            "Use"@,
            self.freq_use@,
        ) + text::spec_ul_line_nonempty("Facility Type"@, self.facility_type@)
            + text::spec_ul_line_nonempty("Sectorization"@, self.sectorization@)
            + text::spec_ul_line_nonempty("Tower/Comm Call"@, self.tower_call@)
            + text::spec_ul_line_nonempty("Approach Call"@, self.approach_call@)
            + spec_remark_line(self.remark@, tel_links)
    }

    /// Rich text describing the frequency.
    pub fn get_text(&self, phone_tagger: &PhoneTagger) -> (r: String)
        ensures
            r@ == self.spec_text(phone_tagger.tel_links),
    {
        let mut s = self.get_frequency_text();
        s.append(self.get_frequency_use_text().as_str());
        s.append(self.get_facility_type_text().as_str());
        s.append(self.get_sectorization_text().as_str());
        s.append(self.get_tower_call_text().as_str());
        s.append(self.get_approach_call_text().as_str());
        s.append(self.get_remark_text(phone_tagger).as_str());
        s
    }

    fn get_frequency_text(&self) -> (r: String)
        ensures
            r@ == "[color=#A0FFA0]"@ + self.freq@ + "[/color]\n"@,
    {
        text::concat3("[color=#A0FFA0]", self.freq.as_str(), "[/color]\n")
    }

    fn get_frequency_use_text(&self) -> (r: String)
        ensures
            r@ == text::spec_ul_line_nonempty("Use"@, self.freq_use@),
    {
        text::ul_line_nonempty("Use", self.freq_use.as_str())
    }

    fn get_facility_type_text(&self) -> (r: String)
        ensures
            r@ == text::spec_ul_line_nonempty("Facility Type"@, self.facility_type@),
    {
        text::ul_line_nonempty("Facility Type", self.facility_type.as_str())
    }

    fn get_sectorization_text(&self) -> (r: String)
        ensures
            r@ == text::spec_ul_line_nonempty("Sectorization"@, self.sectorization@),
    {
        text::ul_line_nonempty("Sectorization", self.sectorization.as_str())
    }

    fn get_tower_call_text(&self) -> (r: String)
        ensures
            r@ == text::spec_ul_line_nonempty("Tower/Comm Call"@, self.tower_call@),
    {
        text::ul_line_nonempty("Tower/Comm Call", self.tower_call.as_str())
    }

    fn get_approach_call_text(&self) -> (r: String)
        ensures
            r@ == text::spec_ul_line_nonempty("Approach Call"@, self.approach_call@),
    {
        text::ul_line_nonempty("Approach Call", self.approach_call.as_str())
    }

    fn get_remark_text(&self, phone_tagger: &PhoneTagger) -> (r: String)
        ensures
            r@ == spec_remark_line(self.remark@, phone_tagger.tel_links),
    {
        remark_line(self.remark.as_str(), phone_tagger)
    }
}

} // verus!
