//! Airport base records (`APT_BASE.csv`): summaries and details.
use crate::nasr::apt_rmk_csv::Remark;
use crate::nasr::apt_rwy_csv::Runway;
use crate::nasr::cls_arsp_csv::ClassAirspace;
use crate::nasr::common::{self, PhoneTagger};
use crate::nasr::frq_csv::Frequency;
use crate::nasr::phone;
use crate::text;
use vstd::prelude::*;

verus! {

/// Airport type.
#[derive(Clone, Copy, Debug, PartialEq, Eq, Structural)]
pub enum Type {
    Airport,
    Balloon,
    Glider,
    Heliport,
    Seaplane,
    Ultralight,
}

/// The type a site type code names.
pub open spec fn spec_airport_type(code: Seq<char>) -> Option<Type> {
    if code == "A"@ {
        Some(Type::Airport)
    } else if code == "B"@ {
        Some(Type::Balloon)
    } else if code == "C"@ {
        Some(Type::Seaplane)
    } else if code == "G"@ {
        Some(Type::Glider)
    } else if code == "H"@ {
        Some(Type::Heliport)
    } else if code == "U"@ {
        Some(Type::Ultralight)
    } else {
        None
    }
}

/// Decode a site type code; `None` for an unknown code.
pub fn get_airport_type(code: &str) -> (r: Option<Type>)
    ensures
        r == spec_airport_type(code@),
{
    if text::str_eq(code, "A") {
        Some(Type::Airport)
    } else if text::str_eq(code, "B") {
        Some(Type::Balloon)
    } else if text::str_eq(code, "C") {
        Some(Type::Seaplane)
    } else if text::str_eq(code, "G") {
        Some(Type::Glider)
    } else if text::str_eq(code, "H") {
        Some(Type::Heliport)
    } else if text::str_eq(code, "U") {
        Some(Type::Ultralight)
    } else {
        None
    }
}

impl Type {
    /// Abbreviation of the type.
    pub open spec fn spec_abv(self) -> Seq<char> {
        match self {
            Type::Airport => "A"@,
            Type::Balloon => "B"@,
            Type::Glider => "G"@,
            Type::Heliport => "H"@,
            Type::Seaplane => "S"@,
            Type::Ultralight => "U"@,
        }
    }

    /// Name of the type.
    pub open spec fn spec_name(self) -> Seq<char> {
        match self {
            Type::Airport => "AIRPORT"@,
            Type::Balloon => "BALLOONPORT"@,
            Type::Glider => "GLIDERPORT"@,
            Type::Heliport => "HELIPORT"@,
            Type::Seaplane => "SEAPLANE BASE"@,
            Type::Ultralight => "ULTRALIGHT"@,
        }
    }

    /// Airport type abbreviation.
    pub fn abv(&self) -> (r: &'static str)
        ensures
            r@ == self.spec_abv(),
    {
        match *self {
            Type::Airport => "A",
            Type::Balloon => "B",
            Type::Glider => "G",
            Type::Heliport => "H",
            Type::Seaplane => "S",
            Type::Ultralight => "U",
        }
    }

    /// Airport type text.
    pub fn text(&self) -> (r: &'static str)
        ensures
            r@ == self.spec_name(),
    {
        match *self {
            Type::Airport => "AIRPORT",
            Type::Balloon => "BALLOONPORT",
            Type::Glider => "GLIDERPORT",
            Type::Heliport => "HELIPORT",
            Type::Seaplane => "SEAPLANE BASE",
            Type::Ultralight => "ULTRALIGHT",
        }
    }
}

/// Airport use.
#[derive(Clone, Copy, Debug, PartialEq, Eq, Structural)]
pub enum Use {
    Private,
    Public,
}

/// The use a facility use code names.
pub open spec fn spec_airport_use(code: Seq<char>) -> Option<Use> {
    if code == "PR"@ {
        Some(Use::Private)
    } else if code == "PU"@ {
        Some(Use::Public)
    } else {
        None
    }
}

/// Decode a facility use code; `None` for an unknown code.
pub fn get_airport_use(code: &str) -> (r: Option<Use>)
    ensures
        r == spec_airport_use(code@),
{
    if text::str_eq(code, "PR") {
        Some(Use::Private)
    } else if text::str_eq(code, "PU") {
        Some(Use::Public)
    } else {
        None
    }
}

impl Use {
    /// Abbreviation of the use.
    pub open spec fn spec_abv(self) -> Seq<char> {
        match self {
            Use::Private => "PVT"@,
            Use::Public => "PUB"@,
        }
    }

    /// Name of the use.
    pub open spec fn spec_name(self) -> Seq<char> {
        match self {
            Use::Private => "PRIVATE"@,
            Use::Public => "PUBLIC"@,
        }
    }

    /// Airport use abbreviation.
    pub fn abv(&self) -> (r: &'static str)
        ensures
            r@ == self.spec_abv(),
    {
        match *self {
            Use::Private => "PVT",
            Use::Public => "PUB",
        }
    }

    /// Airport use text.
    pub fn text(&self) -> (r: &'static str)
        ensures
            r@ == self.spec_name(),
    {
        match *self {
            Use::Private => "PRIVATE",
            Use::Public => "PUBLIC",
        }
    }
}

/// Airport summary information; `C` is the airport's decimal-degree coordinate.
pub struct Summary<C> {
    pub id: String,
    pub name: String,
    pub coord: C,
    pub apt_type: Type,
    pub apt_use: Use,
}

/// Whether an airport of this type and use is left out: non-public heliports are,
/// unless they are asked for.
pub open spec fn spec_excluded(apt_type: Type, apt_use: Use, nph: bool) -> bool {
    !nph && apt_type == Type::Heliport && apt_use != Use::Public
}

/// Only heliports are ever left out, and only non-public ones when they are not
/// asked for: every other type, every public facility, and everything when `nph`
/// is set, is kept.
pub proof fn lemma_only_non_public_heliports_excluded(apt_type: Type, apt_use: Use, nph: bool)
    ensures
        spec_excluded(apt_type, apt_use, nph) ==> apt_type == Type::Heliport && apt_use != Use::Public
            && !nph,
        apt_type != Type::Heliport ==> !spec_excluded(apt_type, apt_use, nph),
        apt_use == Use::Public ==> !spec_excluded(apt_type, apt_use, nph),
        nph ==> !spec_excluded(apt_type, apt_use, nph),
        apt_type == Type::Heliport && apt_use == Use::Private && !nph ==> spec_excluded(
            apt_type,
            apt_use,
            nph,
        ),
{
}

impl<C> Summary<C> {
    /// Summary information from an airport's identifier, name, site type code,
    /// facility use code and coordinate. `None` when a code is unknown, or when
    /// the airport is a non-public heliport and `nph` (include non-public
    /// heliports) is not set.
    pub fn new(id: String, name: String, site_type_code: &str, facility_use_code: &str, coord: C, nph: bool) -> (r: Option<Self>)
        ensures
            r is Some <==> {
                &&& spec_airport_type(site_type_code@) is Some
                &&& spec_airport_use(facility_use_code@) is Some
                &&& !spec_excluded(
                    spec_airport_type(site_type_code@)->0,
                    spec_airport_use(facility_use_code@)->0,
                    nph,
                )
            },
            r matches Some(s) ==> {
                &&& s.id == id
                &&& s.name == name
                &&& s.coord == coord
                &&& Some(s.apt_type) == spec_airport_type(site_type_code@)
                &&& Some(s.apt_use) == spec_airport_use(facility_use_code@)
            },
            spec_airport_type(site_type_code@) is Some && spec_airport_use(facility_use_code@) is Some
                && spec_airport_type(site_type_code@) != Some(Type::Heliport) ==> r is Some,
            spec_airport_type(site_type_code@) is Some && spec_airport_use(facility_use_code@) is Some
                && (nph || spec_airport_use(facility_use_code@) == Some(Use::Public)) ==> r is Some,
            r is None && spec_airport_type(site_type_code@) is Some && spec_airport_use(
                facility_use_code@,
            ) is Some ==> !nph && spec_airport_type(site_type_code@) == Some(Type::Heliport)
                && spec_airport_use(facility_use_code@) != Some(Use::Public),
    {
        let apt_type = get_airport_type(site_type_code)?;
        let apt_use = get_airport_use(facility_use_code)?;
        if !nph && apt_type == Type::Heliport && apt_use != Use::Public {
            return None;
        }
        Some(Self { id, name, coord, apt_type, apt_use })
    }

    /// The airport identifier.
    pub fn id(&self) -> (r: &str)
        ensures
            r@ == self.id@,
    {
        self.id.as_str()
    }

    /// The airport name.
    pub fn name(&self) -> (r: &str)
        ensures
            r@ == self.name@,
    {
        self.name.as_str()
    }

    /// The text `get_text` produces.
    pub open spec fn spec_text(&self) -> Seq<char> {
        self.name@ + " ("@ + self.id@ + "), "@ + self.apt_type.spec_abv() + ", "@
            + self.apt_use.spec_abv()
    }

    /// One-line description: name, identifier, type and use.
    pub fn get_text(&self) -> (r: String)
        ensures
            r@ == self.spec_text(),
    {
        let mut s = text::concat3(self.name.as_str(), " (", self.id.as_str());
        s.append("), ");
        s.append(self.apt_type.abv());
        s.append(", ");
        s.append(self.apt_use.abv());
        s
    }

    /// The coordinate line, from the formatted latitude and longitude.
    pub open spec fn spec_coordinates_text(latitude: Seq<char>, longitude: Seq<char>) -> Seq<char> {
        text::spec_info_line("Coordinates"@, latitude + ", "@ + longitude)
    }

    fn get_coordinates_text(&self, latitude: &str, longitude: &str) -> (r: String)
        ensures
            r@ == Self::spec_coordinates_text(latitude@, longitude@),
    {
        let value = text::concat3(latitude, ", ", longitude);
        text::info_line("Coordinates", value.as_str())
    }

    fn get_apt_type_text(&self) -> (r: String)
        ensures
            r@ == text::spec_info_line("Site Type"@, self.apt_type.spec_name()),
    {
        text::info_line("Site Type", self.apt_type.text())
    }

    fn get_apt_use_text(&self) -> (r: String)
        ensures
            r@ == text::spec_info_line("Facility Use"@, self.apt_use.spec_name()),
    {
        text::info_line("Facility Use", self.apt_use.text())
    }
}

impl<C: Copy> Summary<C> {
    /// The airport's coordinate.
    pub fn coord(&self) -> (r: C)
        ensures
            r == self.coord,
    {
        self.coord
    }
}

/// Readable lighting or beacon schedule; other codes are kept.
pub open spec fn spec_schedule_text(code: Seq<char>) -> Seq<char> {
    if code == "SS-SR"@ {
        "SUNSET-SUNRISE"@
    } else if code == "SEE RMK"@ {
        "SEE REMARK"@
    } else {
        code
    }
}

/// Readable lighting or beacon schedule; other codes are kept.
pub fn schedule_text(code: &str) -> (r: String)
    ensures
        r@ == spec_schedule_text(code@),
{
    let t: &str = if text::str_eq(code, "SS-SR") {
        "SUNSET-SUNRISE"
    } else if text::str_eq(code, "SEE RMK") {
        "SEE REMARK"
    } else {
        code
    };
    text::owned(t)
}

/// Readable beacon lens color; other codes are kept.
pub open spec fn spec_beacon_color_text(code: Seq<char>) -> Seq<char> {
    if code == "WG"@ {
        "WHITE-GREEN (LIGHTED LAND AIRPORT)"@
    } else if code == "WY"@ {
        "WHITE-YELLOW (LIGHTED SEAPLANE BASE)"@
    } else if code == "WGY"@ {
        "WHITE-GREEN-YELLOW (HELIPORT)"@
    } else if code == "SWG"@ {
        "SPLIT-WHITE-GREEN (LIGHTED MILITARY AIRPORT)"@
    } else if code == "W"@ {
        "WHITE (UNLIGHTED LAND AIRPORT)"@
    } else if code == "Y"@ {
        "YELLOW (UNLIGHTED SEAPLANE BASE)"@
    } else if code == "G"@ {
        "GREEN (LIGHTED LAND AIRPORT)"@
    } else if code == "N"@ {
        "NONE"@
    } else {
        code
    }
}

/// Readable beacon lens color; other codes are kept.
pub fn beacon_color_text(code: &str) -> (r: String)
    ensures
        r@ == spec_beacon_color_text(code@),
{
    let t: &str = if text::str_eq(code, "WG") {
        "WHITE-GREEN (LIGHTED LAND AIRPORT)"
    } else if text::str_eq(code, "WY") {
        "WHITE-YELLOW (LIGHTED SEAPLANE BASE)"
    } else if text::str_eq(code, "WGY") {
        "WHITE-GREEN-YELLOW (HELIPORT)"
    } else if text::str_eq(code, "SWG") {
        "SPLIT-WHITE-GREEN (LIGHTED MILITARY AIRPORT)"
    } else if text::str_eq(code, "W") {
        "WHITE (UNLIGHTED LAND AIRPORT)"
    } else if text::str_eq(code, "Y") {
        "YELLOW (UNLIGHTED SEAPLANE BASE)"
    } else if text::str_eq(code, "G") {
        "GREEN (LIGHTED LAND AIRPORT)"
    } else if text::str_eq(code, "N") {
        "NONE"
    } else {
        code
    };
    text::owned(t)
}

/// Readable segmented circle marker flag; other codes are kept.
pub open spec fn spec_segmented_circle_text(code: Seq<char>) -> Seq<char> {
    if code == "Y"@ {
        "YES"@
    } else if code == "N"@ {
        "NO"@
    } else if code == "Y-L"@ {
        "YES, LIGHTED"@
    } else {
        code
    }
}

/// Readable segmented circle marker flag; other codes are kept.
pub fn segmented_circle_text(code: &str) -> (r: String)
    ensures
        r@ == spec_segmented_circle_text(code@),
{
    let t: &str = if text::str_eq(code, "Y") {
        "YES"
    } else if text::str_eq(code, "N") {
        "NO"
    } else if text::str_eq(code, "Y-L") {
        "YES, LIGHTED"
    } else {
        code
    };
    text::owned(t)
}

/// The columns of an airport row that the detail uses.
pub struct Record {
    pub alt_toll_free_no: String,
    pub bcn_lens_color: String,
    pub bcn_lgt_sked: String,
    pub city: String,
    pub elev: String,
    pub fuel_types: String,
    pub lgt_sked: String,
    pub lndg_fee_flag: String,
    pub mag_hemis: String,
    pub mag_varn: String,
    pub seg_circle_mkr_flag: String,
    pub state_code: String,
    pub toll_free_no: String,
    pub tpa: String,
}

/// `city, state`, or the city alone when the state is empty.
pub open spec fn spec_location(city: Seq<char>, state: Seq<char>) -> Seq<char> {
    if state.len() == 0 {
        city
    } else {
        city + ", "@ + state
    }
}

fn get_location(city: &str, state: &str) -> (r: String)
    ensures
        r@ == spec_location(city@, state@),
{
    if state.is_empty() {
        return text::owned(city);
    }
    text::concat3(city, ", ", state)
}

/// `variation°hemisphere`, or nothing when either is empty.
pub open spec fn spec_magnetic_variation(var: Seq<char>, hem: Seq<char>) -> Seq<char> {
    if var.len() == 0 || hem.len() == 0 {
        Seq::empty()
    } else {
        var + "°"@ + hem
    }
}

fn get_magnetic_variation(var: &str, hem: &str) -> (r: String)
    ensures
        r@ == spec_magnetic_variation(var@, hem@),
{
    if var.is_empty() || hem.is_empty() {
        return String::new();
    }
    text::concat3(var, "°", hem)
}

/// The flight service station number, with the alternate number when both are known.
pub open spec fn spec_fss_phone(phone: Seq<char>, alt: Seq<char>) -> Seq<char> {
    if phone.len() != 0 && alt.len() != 0 {
        phone + " (ALT "@ + alt + ")"@
    } else {
        phone
    }
}

fn get_fss_phone(phone: &str, alt: &str) -> (r: String)
    ensures
        r@ == spec_fss_phone(phone@, alt@),
{
    if !phone.is_empty() && !alt.is_empty() {
        let mut s = text::concat3(phone, " (ALT ", alt);
        s.append(")");
        return s;
    }
    text::owned(phone)
}

/// The texts of frequencies, one after another.
pub open spec fn spec_frequencies_text(f: Seq<Frequency>, tel_links: bool) -> Seq<char>
    decreases f.len(),
{
    if f.len() == 0 {
        Seq::empty()
    } else {
        spec_frequencies_text(f.drop_last(), tel_links) + f.last().spec_text(tel_links)
    }
}

/// The texts of runways, one after another.
pub open spec fn spec_runways_text(r: Seq<Runway>) -> Seq<char>
    decreases r.len(),
{
    if r.len() == 0 {
        Seq::empty()
    } else {
        spec_runways_text(r.drop_last()) + r.last().spec_text()
    }
}

/// The texts of remarks, one after another.
pub open spec fn spec_remarks_text(r: Seq<Remark>, tel_links: bool) -> Seq<char>
    decreases r.len(),
{
    if r.len() == 0 {
        Seq::empty()
    } else {
        spec_remarks_text(r.drop_last(), tel_links) + r.last().spec_text(tel_links)
    }
}

/// Airport detail information.
pub struct Detail<C> {
    pub summary: Summary<C>,
    pub fuel_types: String,
    pub location: String,
    pub elevation: String,
    pub pat_alt: String,
    pub mag_var: String,
    pub lndg_fee: String,
    pub fss_phone: String,
    pub seg_circ: String,
    pub bcn_sked: String,
    pub bcn_color: String,
    pub lgt_sked: String,
    pub frequencies: Vec<Frequency>,
    pub runways: Vec<Runway>,
    pub remarks: Vec<Remark>,
    pub airspace: Option<ClassAirspace>,
}

impl<C> Detail<C> {
    /// Detail information from an airport row and the airport's summary,
    /// frequencies, runways, remarks and class airspace.
    pub fn new(
        rec: &Record,
        summary: Summary<C>,
        frequencies: Vec<Frequency>,
        runways: Vec<Runway>,
        remarks: Vec<Remark>,
        airspace: Option<ClassAirspace>,
    ) -> (r: Self)
        ensures
            r.summary == summary,
            r.fuel_types@ == text::spec_normalize_list(rec.fuel_types@),
            r.location@ == spec_location(rec.city@, rec.state_code@),
            r.elevation@ == common::spec_unit_text(rec.elev@, "FEET ASL"@),
            r.pat_alt@ == common::spec_unit_text(rec.tpa@, "FEET AGL"@),
            r.mag_var@ == spec_magnetic_variation(rec.mag_varn@, rec.mag_hemis@),
            r.lndg_fee@ == common::spec_yes_no_text(rec.lndg_fee_flag@),
            r.fss_phone@ == spec_fss_phone(rec.toll_free_no@, rec.alt_toll_free_no@),
            r.seg_circ@ == spec_segmented_circle_text(rec.seg_circle_mkr_flag@),
            r.bcn_sked@ == spec_schedule_text(rec.bcn_lgt_sked@),
            r.bcn_color@ == spec_beacon_color_text(rec.bcn_lens_color@),
            r.lgt_sked@ == spec_schedule_text(rec.lgt_sked@),
            r.frequencies == frequencies,
            r.runways == runways,
            r.remarks == remarks,
            r.airspace == airspace,
    {
        Self {
            summary,
            fuel_types: text::normalize_list(rec.fuel_types.as_str()),
            location: get_location(rec.city.as_str(), rec.state_code.as_str()),
            elevation: common::get_unit_text(rec.elev.as_str(), "FEET ASL"),
            pat_alt: common::get_unit_text(rec.tpa.as_str(), "FEET AGL"),
            mag_var: get_magnetic_variation(rec.mag_varn.as_str(), rec.mag_hemis.as_str()),
            lndg_fee: text::owned(common::get_yes_no_text(rec.lndg_fee_flag.as_str())),
            fss_phone: get_fss_phone(rec.toll_free_no.as_str(), rec.alt_toll_free_no.as_str()),
            seg_circ: segmented_circle_text(rec.seg_circle_mkr_flag.as_str()),
            bcn_sked: schedule_text(rec.bcn_lgt_sked.as_str()),
            bcn_color: beacon_color_text(rec.bcn_lens_color.as_str()),
            lgt_sked: schedule_text(rec.lgt_sked.as_str()),
            frequencies,
            runways,
            remarks,
            airspace,
        }
    }

    /// The airport's summary information.
    pub fn summary(&self) -> (r: &Summary<C>)
        ensures
            r == &self.summary,
    {
        &self.summary
    }

    /// The general lines of the detail text, before the class airspace.
    pub open spec fn spec_general_text(&self, latitude: Seq<char>, longitude: Seq<char>, tel_links: bool) -> Seq<char> {
        text::spec_info_line("Site Type"@, self.summary.apt_type.spec_name())
            + text::spec_info_line("Facility Use"@, self.summary.apt_use.spec_name())
            + text::spec_info_line("Location"@, self.location@)
            + Summary::<C>::spec_coordinates_text(latitude, longitude)
            + text::spec_info_line_nonempty("Magnetic Variation"@, self.mag_var@)
            + text::spec_info_line("Field Elevation"@, self.elevation@)
            + text::spec_info_line_nonempty("Pattern Altitude"@, self.pat_alt@)
            + text::spec_info_line_nonempty("Fuel Types"@, self.fuel_types@)
            + text::spec_info_line_nonempty("Landing Fee"@, self.lndg_fee@)
            + Self::spec_fss_phone_text(self.fss_phone@, tel_links)
            + text::spec_info_line_nonempty("Segmented Circle"@, self.seg_circ@)
            + text::spec_info_line_nonempty("Beacon Schedule"@, self.bcn_sked@)
            + text::spec_info_line_nonempty("Beacon Color"@, self.bcn_color@)
            + text::spec_info_line_nonempty("Lighting Schedule"@, self.lgt_sked@)
    }

    /// The flight service station line, its numbers tagged.
    pub open spec fn spec_fss_phone_text(fss_phone: Seq<char>, tel_links: bool) -> Seq<char> {
        if fss_phone.len() == 0 {
            Seq::empty()
        } else {
            text::spec_info_line("Flight Service Station"@, phone::spec_tag_phones(fss_phone, tel_links))
        }
    }

    /// The class airspace section.
    pub open spec fn spec_airspace_text(&self) -> Seq<char> {
        match self.airspace {
            Some(a) => a.spec_text(),
            None => Seq::empty(),
        }
    }

    /// The frequency section.
    pub open spec fn spec_frequency_section(&self, tel_links: bool) -> Seq<char> {
        if self.frequencies@.len() == 0 {
            Seq::empty()
        } else {
            "\nFrequencies\n[indent]"@ + spec_frequencies_text(self.frequencies@, tel_links)
                + "[/indent]"@
        }
    }

    /// The remark section.
    pub open spec fn spec_remark_section(&self, tel_links: bool) -> Seq<char> {
        if self.remarks@.len() == 0 {
            Seq::empty()
        } else {
            "\nRemarks\n"@ + spec_remarks_text(self.remarks@, tel_links)
        }
    }

    /// The text `get_text` produces.
    pub open spec fn spec_text(&self, latitude: Seq<char>, longitude: Seq<char>, tel_links: bool) -> Seq<char> {
        self.spec_general_text(latitude, longitude, tel_links) + self.spec_airspace_text()
            + self.spec_frequency_section(tel_links) + spec_runways_text(self.runways@)
            + self.spec_remark_section(tel_links)
    }

    /// Rich text describing the airport in detail. `latitude` and `longitude` are
    /// the airport's coordinate formatted as degrees, minutes and seconds.
    pub fn get_text(&self, latitude: &str, longitude: &str, phone_tagger: &PhoneTagger) -> (r: String)
        ensures
            r@ == self.spec_text(latitude@, longitude@, phone_tagger.tel_links),
    {
        let mut s = self.get_general_text(latitude, longitude, phone_tagger);
        match &self.airspace {
            Some(airspace) => {
                s.append(airspace.get_text().as_str());
            },
            None => {},
        }
        s.append(self.get_frequency_section(phone_tagger).as_str());
        s.append(self.get_runways_text().as_str());
        s.append(self.get_remark_section(phone_tagger).as_str());
        s
    }

    fn get_general_text(&self, latitude: &str, longitude: &str, phone_tagger: &PhoneTagger) -> (r: String)
        ensures
            r@ == self.spec_general_text(latitude@, longitude@, phone_tagger.tel_links),
    {
        let mut s = self.summary.get_apt_type_text();
        s.append(self.summary.get_apt_use_text().as_str());
        s.append(self.get_location_text().as_str());
        s.append(self.summary.get_coordinates_text(latitude, longitude).as_str());
        s.append(self.get_mag_var_text().as_str());
        s.append(self.get_elevation_text().as_str());
        s.append(self.get_pattern_altitude_text().as_str());
        s.append(self.get_fuel_types_text().as_str());
        s.append(self.get_landing_fee_text().as_str());
        s.append(self.get_fss_phone_text(phone_tagger).as_str());
        s.append(self.get_segmented_circle_text().as_str());
        s.append(self.get_beacon_schedule_text().as_str());
        s.append(self.get_beacon_color_text().as_str());
        s.append(self.get_lighting_schedule_text().as_str());
        s
    }

    fn get_frequency_section(&self, phone_tagger: &PhoneTagger) -> (r: String)
        ensures
            r@ == self.spec_frequency_section(phone_tagger.tel_links),
    {
        let mut s = String::new();
        if self.frequencies.len() > 0 {
            s.append("\nFrequencies\n[indent]");
            let ghost start = s@;
            let mut i: usize = 0;
            while i < self.frequencies.len()
                invariant
                    i <= self.frequencies@.len(),
                    s@ == start + spec_frequencies_text(self.frequencies@.take(i as int), phone_tagger.tel_links),
                decreases self.frequencies@.len() - i,
            {
                assert(self.frequencies@.take(i + 1).drop_last() =~= self.frequencies@.take(i as int));
                s.append(self.frequencies[i].get_text(phone_tagger).as_str());
                i = i + 1;
            }
            assert(self.frequencies@.take(i as int) =~= self.frequencies@);
            s.append("[/indent]");
        }
        s
    }

    fn get_runways_text(&self) -> (r: String)
        ensures
            r@ == spec_runways_text(self.runways@),
    {
        let mut s = String::new();
        let mut j: usize = 0;
        while j < self.runways.len()
            invariant
                j <= self.runways@.len(),
                s@ == spec_runways_text(self.runways@.take(j as int)),
            decreases self.runways@.len() - j,
        {
            assert(self.runways@.take(j + 1).drop_last() =~= self.runways@.take(j as int));
            s.append(self.runways[j].get_text().as_str());
            j = j + 1;
        }
        assert(self.runways@.take(j as int) =~= self.runways@);
        s
    }

    fn get_remark_section(&self, phone_tagger: &PhoneTagger) -> (r: String)
        ensures
            r@ == self.spec_remark_section(phone_tagger.tel_links),
    {
        let mut s = String::new();
        if self.remarks.len() > 0 {
            s.append("\nRemarks\n");
            let ghost start = s@;
            let mut k: usize = 0;
            while k < self.remarks.len()
                invariant
                    k <= self.remarks@.len(),
                    s@ == start + spec_remarks_text(self.remarks@.take(k as int), phone_tagger.tel_links),
                decreases self.remarks@.len() - k,
            {
                assert(self.remarks@.take(k + 1).drop_last() =~= self.remarks@.take(k as int));
                s.append(self.remarks[k].get_text(phone_tagger).as_str());
                k = k + 1;
            }
            assert(self.remarks@.take(k as int) =~= self.remarks@);
        }
        s
    }

    fn get_fuel_types_text(&self) -> (r: String)
        ensures
            r@ == text::spec_info_line_nonempty("Fuel Types"@, self.fuel_types@),
    {
        text::info_line_nonempty("Fuel Types", self.fuel_types.as_str())
    }

    fn get_location_text(&self) -> (r: String)
        ensures
            r@ == text::spec_info_line("Location"@, self.location@),
    {
        text::info_line("Location", self.location.as_str())
    }

    fn get_elevation_text(&self) -> (r: String)
        ensures
            r@ == text::spec_info_line("Field Elevation"@, self.elevation@),
    {
        text::info_line("Field Elevation", self.elevation.as_str())
    }

    fn get_pattern_altitude_text(&self) -> (r: String)
        ensures
            r@ == text::spec_info_line_nonempty("Pattern Altitude"@, self.pat_alt@),
    {
        text::info_line_nonempty("Pattern Altitude", self.pat_alt.as_str())
    }

    fn get_mag_var_text(&self) -> (r: String)
        ensures
            r@ == text::spec_info_line_nonempty("Magnetic Variation"@, self.mag_var@),
    {
        text::info_line_nonempty("Magnetic Variation", self.mag_var.as_str())
    }

    fn get_landing_fee_text(&self) -> (r: String)
        ensures
            r@ == text::spec_info_line_nonempty("Landing Fee"@, self.lndg_fee@),
    {
        text::info_line_nonempty("Landing Fee", self.lndg_fee.as_str())
    }

    fn get_fss_phone_text(&self, phone_tagger: &PhoneTagger) -> (r: String)
        ensures
            r@ == Self::spec_fss_phone_text(self.fss_phone@, phone_tagger.tel_links),
    {
        if self.fss_phone.as_str().is_empty() {
            return String::new();
        }
        let tagged = phone_tagger.process_text(self.fss_phone.as_str());
        text::info_line("Flight Service Station", tagged.as_str())
    }

    fn get_segmented_circle_text(&self) -> (r: String)
        ensures
            r@ == text::spec_info_line_nonempty("Segmented Circle"@, self.seg_circ@),
    {
        text::info_line_nonempty("Segmented Circle", self.seg_circ.as_str())
    }

    fn get_beacon_schedule_text(&self) -> (r: String)
        ensures
            r@ == text::spec_info_line_nonempty("Beacon Schedule"@, self.bcn_sked@),
    {
        text::info_line_nonempty("Beacon Schedule", self.bcn_sked.as_str())
    }

    fn get_beacon_color_text(&self) -> (r: String)
        ensures
            r@ == text::spec_info_line_nonempty("Beacon Color"@, self.bcn_color@),
    {
        text::info_line_nonempty("Beacon Color", self.bcn_color.as_str())
    }

    fn get_lighting_schedule_text(&self) -> (r: String)
        ensures
            r@ == text::spec_info_line_nonempty("Lighting Schedule"@, self.lgt_sked@),
    {
        text::info_line_nonempty("Lighting Schedule", self.lgt_sked.as_str())
    }
}

/// Every field of an airport's detail shows in its detail text under its label:
/// site type, facility use, location, coordinates and field elevation always,
/// the others whenever they are not empty (the flight service station with its
/// numbers tagged), and so do the class airspace, frequency, runway and remark
/// sections.
pub proof fn lemma_detail_text_shows_fields<C>(d: Detail<C>, latitude: Seq<char>, longitude: Seq<char>, tel_links: bool)
    ensures
        ({
            let t = d.spec_text(latitude, longitude, tel_links);
            let has = |label: Seq<char>, value: Seq<char>|
                text::spec_contains(t, label + ": [color=white]"@ + value + "[/color]\n"@);
            &&& has("Site Type"@, d.summary.apt_type.spec_name())
            &&& has("Facility Use"@, d.summary.apt_use.spec_name())
            &&& has("Location"@, d.location@)
            &&& has("Coordinates"@, latitude + ", "@ + longitude)
            &&& has("Field Elevation"@, d.elevation@)
            &&& (d.mag_var@.len() > 0 ==> has("Magnetic Variation"@, d.mag_var@))
            &&& (d.pat_alt@.len() > 0 ==> has("Pattern Altitude"@, d.pat_alt@))
            &&& (d.fuel_types@.len() > 0 ==> has("Fuel Types"@, d.fuel_types@))
            &&& (d.lndg_fee@.len() > 0 ==> has("Landing Fee"@, d.lndg_fee@))
            &&& (d.fss_phone@.len() > 0 ==> has(
                "Flight Service Station"@,
                phone::spec_tag_phones(d.fss_phone@, tel_links),
            ))
            &&& (d.seg_circ@.len() > 0 ==> has("Segmented Circle"@, d.seg_circ@))
            &&& (d.bcn_sked@.len() > 0 ==> has("Beacon Schedule"@, d.bcn_sked@))
            &&& (d.bcn_color@.len() > 0 ==> has("Beacon Color"@, d.bcn_color@))
            &&& (d.lgt_sked@.len() > 0 ==> has("Lighting Schedule"@, d.lgt_sked@))
            &&& text::spec_contains(t, d.spec_airspace_text())
            &&& text::spec_contains(t, d.spec_frequency_section(tel_links))
            &&& text::spec_contains(t, spec_runways_text(d.runways@))
            &&& text::spec_contains(t, d.spec_remark_section(tel_links))
        }),
{
    let g0 = text::spec_info_line("Site Type"@, d.summary.apt_type.spec_name());
    let g1 = text::spec_info_line("Facility Use"@, d.summary.apt_use.spec_name());
    let g2 = text::spec_info_line("Location"@, d.location@);
    let g3 = Summary::<C>::spec_coordinates_text(latitude, longitude);
    let g4 = text::spec_info_line_nonempty("Magnetic Variation"@, d.mag_var@);
    let g5 = text::spec_info_line("Field Elevation"@, d.elevation@);
    let g6 = text::spec_info_line_nonempty("Pattern Altitude"@, d.pat_alt@);
    let g7 = text::spec_info_line_nonempty("Fuel Types"@, d.fuel_types@);
    let g8 = text::spec_info_line_nonempty("Landing Fee"@, d.lndg_fee@);
    let g9 = Detail::<C>::spec_fss_phone_text(d.fss_phone@, tel_links);
    let g10 = text::spec_info_line_nonempty("Segmented Circle"@, d.seg_circ@);
    let g11 = text::spec_info_line_nonempty("Beacon Schedule"@, d.bcn_sked@);
    let g12 = text::spec_info_line_nonempty("Beacon Color"@, d.bcn_color@);
    let g13 = text::spec_info_line_nonempty("Lighting Schedule"@, d.lgt_sked@);
    let g14 = d.spec_airspace_text();
    let g15 = d.spec_frequency_section(tel_links);
    let g16 = spec_runways_text(d.runways@);
    let g17 = d.spec_remark_section(tel_links);
    let p0 = g0;
    let p1 = p0 + g1;
    let p2 = p1 + g2;
    let p3 = p2 + g3;
    let p4 = p3 + g4;
    let p5 = p4 + g5;
    let p6 = p5 + g6;
    let p7 = p6 + g7;
    let p8 = p7 + g8;
    let p9 = p8 + g9;
    let p10 = p9 + g10;
    let p11 = p10 + g11;
    let p12 = p11 + g12;
    let p13 = p12 + g13;
    let p14 = p13 + g14;
    let p15 = p14 + g15;
    let p16 = p15 + g16;
    let p17 = p16 + g17;
    assert(p17 == d.spec_text(latitude, longitude, tel_links));
    assert(p0.subrange(0, p0.len() as int) =~= p0);
    assert(text::occurs_at(p0, g0, 0));
    text::lemma_contains_end(p0, g1);
    text::lemma_contains_end(p1, g2);
    text::lemma_contains_end(p2, g3);
    text::lemma_contains_end(p3, g4);
    text::lemma_contains_end(p4, g5);
    text::lemma_contains_end(p5, g6);
    text::lemma_contains_end(p6, g7);
    text::lemma_contains_end(p7, g8);
    text::lemma_contains_end(p8, g9);
    text::lemma_contains_end(p9, g10);
    text::lemma_contains_end(p10, g11);
    text::lemma_contains_end(p11, g12);
    text::lemma_contains_end(p12, g13);
    text::lemma_contains_end(p13, g14);
    text::lemma_contains_end(p14, g15);
    text::lemma_contains_end(p15, g16);
    text::lemma_contains_end(p16, g17);
    assert forall|x: Seq<char>| text::spec_contains(p0, x) implies text::spec_contains(p1, x) by {
        text::lemma_contains_append(p0, x, g1);
    }
    assert forall|x: Seq<char>| text::spec_contains(p1, x) implies text::spec_contains(p2, x) by {
        text::lemma_contains_append(p1, x, g2);
    }
    assert forall|x: Seq<char>| text::spec_contains(p2, x) implies text::spec_contains(p3, x) by {
        text::lemma_contains_append(p2, x, g3);
    }
    assert forall|x: Seq<char>| text::spec_contains(p3, x) implies text::spec_contains(p4, x) by {
        text::lemma_contains_append(p3, x, g4);
    }
    assert forall|x: Seq<char>| text::spec_contains(p4, x) implies text::spec_contains(p5, x) by {
        text::lemma_contains_append(p4, x, g5);
    }
    assert forall|x: Seq<char>| text::spec_contains(p5, x) implies text::spec_contains(p6, x) by {
        text::lemma_contains_append(p5, x, g6);
    }
    assert forall|x: Seq<char>| text::spec_contains(p6, x) implies text::spec_contains(p7, x) by {
        text::lemma_contains_append(p6, x, g7);
    }
    assert forall|x: Seq<char>| text::spec_contains(p7, x) implies text::spec_contains(p8, x) by {
        text::lemma_contains_append(p7, x, g8);
    }
    assert forall|x: Seq<char>| text::spec_contains(p8, x) implies text::spec_contains(p9, x) by {
        text::lemma_contains_append(p8, x, g9);
    }
    assert forall|x: Seq<char>| text::spec_contains(p9, x) implies text::spec_contains(p10, x) by {
        text::lemma_contains_append(p9, x, g10);
    }
    assert forall|x: Seq<char>| text::spec_contains(p10, x) implies text::spec_contains(p11, x) by {
        text::lemma_contains_append(p10, x, g11);
    }
    assert forall|x: Seq<char>| text::spec_contains(p11, x) implies text::spec_contains(p12, x) by {
        text::lemma_contains_append(p11, x, g12);
    }
    assert forall|x: Seq<char>| text::spec_contains(p12, x) implies text::spec_contains(p13, x) by {
        text::lemma_contains_append(p12, x, g13);
    }
    assert forall|x: Seq<char>| text::spec_contains(p13, x) implies text::spec_contains(p14, x) by {
        text::lemma_contains_append(p13, x, g14);
    }
    assert forall|x: Seq<char>| text::spec_contains(p14, x) implies text::spec_contains(p15, x) by {
        text::lemma_contains_append(p14, x, g15);
    }
    assert forall|x: Seq<char>| text::spec_contains(p15, x) implies text::spec_contains(p16, x) by {
        text::lemma_contains_append(p15, x, g16);
    }
    assert forall|x: Seq<char>| text::spec_contains(p16, x) implies text::spec_contains(p17, x) by {
        text::lemma_contains_append(p16, x, g17);
    }
}

} // verus!
