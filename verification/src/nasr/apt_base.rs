//! Airport base records whose elevation carries its determination method; the detail holds runways with numeric dimensions and remarks.
pub use crate::nasr::apt_base_csv::{Type, Use};
use crate::nasr::apt_base_csv::{
    beacon_color_text, get_airport_type, get_airport_use, schedule_text, spec_airport_type,
    spec_airport_use, spec_beacon_color_text, spec_excluded, spec_location,
    spec_magnetic_variation, spec_schedule_text,
};
use crate::nasr::apt_rmk::Remark;
use crate::nasr::apt_rwy::Runway;
use crate::nasr::common::{self, Named, PhoneTagger};
use crate::text;
use vstd::prelude::*;

verus! {

/// Airport summary information; `C` is the airport's decimal-degree coordinate.
pub struct Summary<C> {
    pub id: String,
    pub name: String,
    pub coord: C,
    pub apt_type: Type,
    pub apt_use: Use,
}

impl<C> Summary<C> {
    /// Summary information from an airport's identifier, name, site type code,
    /// facility use code and coordinate. `None` when a code is unknown, or when
    /// the airport is a non-public heliport and `nph` (include non-public
    /// heliports) is not set.
    pub fn new(id: String, name: String, site_type_code: &str, facility_use_code: &str, coord: C, nph: bool) -> (r: Option<Self>)
        ensures
            r is Some <==> {
                &&& spec_airport_type(site_type_code@) is Some
                &&& spec_airport_use(facility_use_code@) is Some
                &&& !spec_excluded(
                    spec_airport_type(site_type_code@)->0,
                    spec_airport_use(facility_use_code@)->0,
                    nph,
                )
            },
            r matches Some(s) ==> {
                &&& s.id == id
                &&& s.name == name
                &&& s.coord == coord
                &&& Some(s.apt_type) == spec_airport_type(site_type_code@)
                &&& Some(s.apt_use) == spec_airport_use(facility_use_code@)
            },
            spec_airport_type(site_type_code@) is Some && spec_airport_use(facility_use_code@) is Some
                && spec_airport_type(site_type_code@) != Some(Type::Heliport) ==> r is Some,
            spec_airport_type(site_type_code@) is Some && spec_airport_use(facility_use_code@) is Some
                && (nph || spec_airport_use(facility_use_code@) == Some(Use::Public)) ==> r is Some,
            r is None && spec_airport_type(site_type_code@) is Some && spec_airport_use(
                facility_use_code@,
            ) is Some ==> !nph && spec_airport_type(site_type_code@) == Some(Type::Heliport)
                && spec_airport_use(facility_use_code@) != Some(Use::Public),
    {
        let apt_type = get_airport_type(site_type_code)?;
        let apt_use = get_airport_use(facility_use_code)?;
        if !nph && apt_type == Type::Heliport && apt_use != Use::Public {
            return None;
        }
        Some(Self { id, name, coord, apt_type, apt_use })
    }

    /// The airport identifier.
    pub fn id(&self) -> (r: &str)
        ensures
            r@ == self.id@,
    {
        self.id.as_str()
    }

    /// The text `get_text` produces.
    pub open spec fn spec_text(&self) -> Seq<char> {
        self.name@ + " ("@ + self.id@ + "), "@ + self.apt_type.spec_abv() + ", "@
            + self.apt_use.spec_abv()
    }

    /// One-line description: name, identifier, type and use.
    pub fn get_text(&self) -> (r: String)
        ensures
            r@ == self.spec_text(),
    {
        let mut s = text::concat3(self.name.as_str(), " (", self.id.as_str());
        s.append("), ");
        s.append(self.apt_type.abv());
        s.append(", ");
        s.append(self.apt_use.abv());
        s
    }
}

impl<C: Copy> Summary<C> {
    /// The airport's coordinate.
    pub fn coord(&self) -> (r: C)
        ensures
            r == self.coord,
    {
        self.coord
    }
}

impl<C> Named for Summary<C> {
    open spec fn name_view(&self) -> Seq<char> {
        self.name@
    }

    fn name_text(&self) -> (r: &str) {
        self.name.as_str()
    }
}

/// The columns of an airport row that the detail uses.
pub struct Record {
    pub bcn_lens_color: String,
    pub bcn_lgt_sked: String,
    pub city: String,
    pub elev_method_code: String,
    pub elev: String,
    pub fuel_types: String,
    pub lgt_sked: String,
    pub lndg_fee_flag: String,
    pub mag_hemis: String,
    pub mag_varn: String,
    pub state_code: String,
    pub tpa: String,
}

/// The field elevation with how it was determined; the bare elevation when the
/// method is not given, `None` when the method code is unknown.
pub open spec fn spec_elevation(elev: Seq<char>, method: Seq<char>) -> Option<Seq<char>> {
    if method.len() == 0 {
        Some(elev)
    } else if method == "E"@ {
        Some(elev + " FEET ASL ("@ + "ESTIMATED"@ + ")"@)
    } else if method == "S"@ {
        Some(elev + " FEET ASL ("@ + "SURVEYED"@ + ")"@)
    } else {
        None
    }
}

fn get_elevation(elev: &str, method: &str) -> (r: Option<String>)
    ensures
        r is Some <==> spec_elevation(elev@, method@) is Some,
        r matches Some(s) ==> s@ == spec_elevation(elev@, method@)->0,
{
    if method.is_empty() {
        return Some(text::owned(elev));
    }
    let method_text = if text::str_eq(method, "E") {
        "ESTIMATED"
    } else if text::str_eq(method, "S") {
        "SURVEYED"
    } else {
        return None;
    };
    let mut s = text::concat3(elev, " FEET ASL (", method_text);
    s.append(")");
    Some(s)
}

/// Airport detail information.
pub struct Detail<C> {
    pub summary: Summary<C>,
    pub fuel_types: String,
    pub location: String,
    pub elevation: String,
    pub pat_alt: String,
    pub mag_var: String,
    pub lndg_fee: String,
    pub bcn_sked: String,
    pub bcn_color: String,
    pub lgt_sked: String,
    pub runways: Vec<Runway>,
    pub remarks: Vec<Remark>,
}

impl<C> Detail<C> {
    /// Detail information from an airport row and the airport's summary, runways
    /// and remarks; `None` when the elevation method code is unknown.
    pub fn new(rec: &Record, summary: Summary<C>, runways: Vec<Runway>, remarks: Vec<Remark>) -> (r: Option<Self>)
        ensures
            r is Some <==> spec_elevation(rec.elev@, rec.elev_method_code@) is Some,
            r matches Some(d) ==> {
                &&& d.summary == summary
                &&& d.fuel_types@ == text::spec_normalize_list(rec.fuel_types@)
                &&& d.location@ == spec_location(rec.city@, rec.state_code@)
                &&& d.elevation@ == spec_elevation(rec.elev@, rec.elev_method_code@)->0
                &&& d.pat_alt@ == common::spec_unit_text(rec.tpa@, "FEET AGL"@)
                &&& d.mag_var@ == spec_magnetic_variation(rec.mag_varn@, rec.mag_hemis@)
                &&& d.lndg_fee@ == common::spec_yes_no_text(rec.lndg_fee_flag@)
                &&& d.bcn_sked@ == spec_schedule_text(rec.bcn_lgt_sked@)
                &&& d.bcn_color@ == spec_beacon_color_text(rec.bcn_lens_color@)
                &&& d.lgt_sked@ == spec_schedule_text(rec.lgt_sked@)
                &&& d.runways == runways
                &&& d.remarks == remarks
            },
    {
        let elevation = get_elevation(rec.elev.as_str(), rec.elev_method_code.as_str())?;
        let location = if rec.state_code.as_str().is_empty() {
            text::owned(rec.city.as_str())
        } else {
            text::concat3(rec.city.as_str(), ", ", rec.state_code.as_str())
        };
        let mag_var = if rec.mag_varn.as_str().is_empty() || rec.mag_hemis.as_str().is_empty() {
            String::new()
        } else {
            text::concat3(rec.mag_varn.as_str(), "°", rec.mag_hemis.as_str())
        };
        Some(
            Self {
                summary,
                fuel_types: text::normalize_list(rec.fuel_types.as_str()),
                location,
                elevation,
                pat_alt: common::get_unit_text(rec.tpa.as_str(), "FEET AGL"),
                mag_var,
                lndg_fee: text::owned(common::get_yes_no_text(rec.lndg_fee_flag.as_str())),
                bcn_sked: schedule_text(rec.bcn_lgt_sked.as_str()),
                bcn_color: beacon_color_text(rec.bcn_lens_color.as_str()),
                lgt_sked: schedule_text(rec.lgt_sked.as_str()),
                runways,
                remarks,
            },
        )
    }

    /// The airport's summary information.
    pub fn summary(&self) -> (r: &Summary<C>)
        ensures
            r == &self.summary,
    {
        &self.summary
    }

    /// The runway and remark sections that follow the airport information.
    pub open spec fn spec_sections_text(&self, tel_links: bool) -> Seq<char> {
        spec_runways_text(self.runways@) + if self.remarks@.len() == 0 {
            Seq::empty()
        } else {
            "\nRemarks\n"@ + spec_remarks_text(self.remarks@, tel_links)
        }
    }

    /// Detail text: `info`, the airport information block as laid out by the
    /// airport information template, then each runway's text, then the remarks
    /// under a "Remarks" heading when there are any.
    pub fn get_text(&self, info: &str, phone_tagger: &PhoneTagger) -> (r: String)
        ensures
            r@ == info@ + self.spec_sections_text(phone_tagger.tel_links),
    {
        let mut s = text::owned(info);
        let ghost start = s@;
        let mut j: usize = 0;
        while j < self.runways.len()
            invariant
                j <= self.runways@.len(),
                s@ == start + spec_runways_text(self.runways@.take(j as int)),
            decreases self.runways@.len() - j,
        {
            assert(self.runways@.take(j + 1).drop_last() =~= self.runways@.take(j as int));
            s.append(self.runways[j].get_text().as_str());
            j = j + 1;
        }
        assert(self.runways@.take(j as int) =~= self.runways@);
        if self.remarks.len() > 0 {
            s.append("\nRemarks\n");
            let ghost mid = s@;
            let mut k: usize = 0;
            while k < self.remarks.len()
                invariant
                    k <= self.remarks@.len(),
                    s@ == mid + spec_remarks_text(self.remarks@.take(k as int), phone_tagger.tel_links),
                decreases self.remarks@.len() - k,
            {
                assert(self.remarks@.take(k + 1).drop_last() =~= self.remarks@.take(k as int));
                s.append(self.remarks[k].get_text(phone_tagger).as_str());
                k = k + 1;
            }
            assert(self.remarks@.take(k as int) =~= self.remarks@);
        }
        s
    }
}

/// The texts of runways, one after another.
pub open spec fn spec_runways_text(r: Seq<Runway>) -> Seq<char>
    decreases r.len(),
{
    if r.len() == 0 {
        Seq::empty()
    } else {
        spec_runways_text(r.drop_last()) + r.last().spec_text()
    }
}

/// The texts of remarks, one after another.
pub open spec fn spec_remarks_text(r: Seq<Remark>, tel_links: bool) -> Seq<char>
    decreases r.len(),
{
    if r.len() == 0 {
        Seq::empty()
    } else {
        spec_remarks_text(r.drop_last(), tel_links) + r.last().spec_text(tel_links)
    }
}

} // verus!
