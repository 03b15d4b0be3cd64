//! NASR (National Airspace System Resources) airport data: the records of the
//! airport reader, their text, and the replies to airport requests.
use crate::nasr::common::Named;
use crate::text;
use vstd::prelude::*;

pub mod airport;
pub mod apt_base;
pub mod apt_base_csv;
pub mod apt_rmk;
pub mod apt_rmk_csv;
pub mod apt_rwy;
pub mod apt_rwy_csv;
pub mod apt_rwy_end_csv;
pub mod cls_arsp_csv;
pub mod common;
pub mod frq_csv;
pub mod phone;

verus! {

/// Airport type.
#[derive(Clone, Copy, Debug, PartialEq, Eq, Structural)]
pub enum AirportType {
    Airport,
    Balloon,
    Glider,
    Helicopter,
    Seaplane,
    Ultralight,
}

impl AirportType {
    /// Abbreviation of the type.
    pub open spec fn spec_abv(self) -> Seq<char> {
        match self {
            AirportType::Airport => "A"@,
            AirportType::Balloon => "B"@,
            AirportType::Glider => "G"@,
            AirportType::Helicopter => "H"@,
            AirportType::Seaplane => "S"@,
            AirportType::Ultralight => "U"@,
        }
    }

    /// Airport type abbreviation.
    pub fn abv(&self) -> (r: &'static str)
        ensures
            r@ == self.spec_abv(),
    {
        match *self {
            AirportType::Airport => "A",
            AirportType::Balloon => "B",
            AirportType::Glider => "G",
            AirportType::Helicopter => "H",
            AirportType::Seaplane => "S",
            AirportType::Ultralight => "U",
        }
    }
}

/// Airport use.
#[derive(Clone, Copy, Debug, PartialEq, Eq, Structural)]
pub enum AirportUse {
    AirForce,
    Army,
    CoastGuard,
    Navy,
    Private,
    Public,
}

impl AirportUse {
    /// Abbreviation of the use.
    pub open spec fn spec_abv(self) -> Seq<char> {
        match self {
            AirportUse::AirForce => "USAF"@,
            AirportUse::Army => "ARMY"@,
            AirportUse::CoastGuard => "USCG"@,
            AirportUse::Navy => "USN"@,
            AirportUse::Private => "PVT"@,
            AirportUse::Public => "PUB"@,
        }
    }

    /// Airport use abbreviation.
    pub fn abv(&self) -> (r: &'static str)
        ensures
            r@ == self.spec_abv(),
    {
        match *self {
            AirportUse::AirForce => "USAF",
            AirportUse::Army => "ARMY",
            AirportUse::CoastGuard => "USCG",
            AirportUse::Navy => "USN",
            AirportUse::Private => "PVT",
            AirportUse::Public => "PUB",
        }
    }
}

/// The type a site type code names.
pub open spec fn spec_airport_type(code: Seq<char>) -> Option<AirportType> {
    if code == "A"@ {
        Some(AirportType::Airport)
    } else if code == "B"@ {
        Some(AirportType::Balloon)
    } else if code == "C"@ {
        Some(AirportType::Seaplane)
    } else if code == "G"@ {
        Some(AirportType::Glider)
    } else if code == "H"@ {
        Some(AirportType::Helicopter)
    } else if code == "U"@ {
        Some(AirportType::Ultralight)
    } else {
        None
    }
}

/// Decode a site type code; `None` for an unknown code.
pub fn get_airport_type(code: &str) -> (r: Option<AirportType>)
    ensures
        r == spec_airport_type(code@),
{
    if text::str_eq(code, "A") {
        Some(AirportType::Airport)
    } else if text::str_eq(code, "B") {
        Some(AirportType::Balloon)
    } else if text::str_eq(code, "C") {
        Some(AirportType::Seaplane)
    } else if text::str_eq(code, "G") {
        Some(AirportType::Glider)
    } else if text::str_eq(code, "H") {
        Some(AirportType::Helicopter)
    } else if text::str_eq(code, "U") {
        Some(AirportType::Ultralight)
    } else {
        None
    }
}

/// The use an ownership code names; for public and private ownership the
/// facility use code decides between private and public use.
pub open spec fn spec_airport_use(ownership: Seq<char>, facility_use: Seq<char>) -> Option<AirportUse> {
    if ownership == "CG"@ {
        Some(AirportUse::CoastGuard)
    } else if ownership == "MA"@ {
        Some(AirportUse::AirForce)
    } else if ownership == "MN"@ {
        Some(AirportUse::Navy)
    } else if ownership == "MR"@ {
        Some(AirportUse::Army)
    } else if ownership == "PU"@ || ownership == "PR"@ {
        if facility_use == "PR"@ {
            Some(AirportUse::Private)
        } else {
            Some(AirportUse::Public)
        }
    } else {
        None
    }
}

/// Decode an ownership and facility use code; `None` for an unknown ownership.
pub fn get_airport_use(ownership: &str, facility_use: &str) -> (r: Option<AirportUse>)
    ensures
        r == spec_airport_use(ownership@, facility_use@),
{
    if text::str_eq(ownership, "CG") {
        Some(AirportUse::CoastGuard)
    } else if text::str_eq(ownership, "MA") {
        Some(AirportUse::AirForce)
    } else if text::str_eq(ownership, "MN") {
        Some(AirportUse::Navy)
    } else if text::str_eq(ownership, "MR") {
        Some(AirportUse::Army)
    } else if text::str_eq(ownership, "PU") || text::str_eq(ownership, "PR") {
        if text::str_eq(facility_use, "PR") {
            Some(AirportUse::Private)
        } else {
            Some(AirportUse::Public)
        }
    } else {
        None
    }
}

/// Airport information; `C` is the airport's decimal-degree coordinate.
pub struct AirportInfo<C> {
    /// Feature record ID.
    pub fid: u64,
    /// Airport ID.
    pub id: String,
    /// Airport name.
    pub name: String,
    /// Decimal-degree coordinate.
    pub coord: C,
    /// Airport type.
    pub airport_type: AirportType,
    /// Airport usage.
    pub airport_use: AirportUse,
}

impl<C> AirportInfo<C> {
    /// Airport information from a record's fields. `None` when the type or
    /// ownership code is unknown, or when the airport is a non-public heliport
    /// and `nph` (include non-public heliports) is not set.
    pub fn new(
        fid: u64,
        id: String,
        name: String,
        site_type_code: &str,
        ownership_code: &str,
        facility_use_code: &str,
        coord: C,
        nph: bool,
    ) -> (r: Option<Self>)
        ensures
            r is Some <==> {
                &&& spec_airport_type(site_type_code@) is Some
                &&& spec_airport_use(ownership_code@, facility_use_code@) is Some
                &&& !(!nph && spec_airport_type(site_type_code@) == Some(AirportType::Helicopter)
                    && spec_airport_use(ownership_code@, facility_use_code@) != Some(
                    AirportUse::Public,
                ))
            },
            r matches Some(a) ==> {
                &&& a.fid == fid
                &&& a.id == id
                &&& a.name == name
                &&& a.coord == coord
                &&& Some(a.airport_type) == spec_airport_type(site_type_code@)
                &&& Some(a.airport_use) == spec_airport_use(ownership_code@, facility_use_code@)
            },
    {
        let airport_type = get_airport_type(site_type_code)?;
        let airport_use = get_airport_use(ownership_code, facility_use_code)?;
        if !nph && airport_type == AirportType::Helicopter && airport_use != AirportUse::Public {
            return None;
        }
        Some(Self { fid, id, name, coord, airport_type, airport_use })
    }

    /// The text `desc` produces.
    pub open spec fn spec_desc(&self) -> Seq<char> {
        self.name@ + " ("@ + self.id@ + "), "@ + self.airport_type.spec_abv() + ", "@
            + self.airport_use.spec_abv()
    }

    /// One-line description: name, identifier, type and use.
    pub fn desc(&self) -> (r: String)
        ensures
            r@ == self.spec_desc(),
    {
        let mut s = text::concat3(self.name.as_str(), " (", self.id.as_str());
        s.append("), ");
        s.append(self.airport_type.abv());
        s.append(", ");
        s.append(self.airport_use.abv());
        s
    }
}

impl<C> Named for AirportInfo<C> {
    open spec fn name_view(&self) -> Seq<char> {
        self.name@
    }

    fn name_text(&self) -> (r: &str) {
        self.name.as_str()
    }
}

/// Reply to an airport request.
pub enum AirportReply<C> {
    /// Airport info from ID search.
    Airport(AirportInfo<C>),
    /// Airport infos from a nearby search.
    Nearby(Vec<AirportInfo<C>>),
    /// Airport infos matching a name/ID search.
    Search(Vec<AirportInfo<C>>),
    /// Request resulted in an error.
    Error(String),
}

/// `prefix` followed by the term in single quotes.
pub open spec fn spec_quoted(prefix: Seq<char>, term: Seq<char>) -> Seq<char> {
    prefix + "\n'"@ + term + "'"@
}

/// Build `prefix`, a new line and the term in single quotes.
pub fn quoted(prefix: &str, term: &str) -> (r: String)
    ensures
        r@ == spec_quoted(prefix@, term@),
{
    let mut s = text::concat3(prefix, "\n'", term);
    s.append("'");
    s
}

fn error_reply<C>(msg: &str) -> (r: AirportReply<C>)
    ensures
        r matches AirportReply::Error(e) && e@ == msg@,
{
    AirportReply::Error(text::owned(msg))
}

/// Answer an airport ID lookup: an error without a chart transformation, the
/// airport when the (normalized) `id` was found, an error naming `id` otherwise.
pub fn airport_query<C>(indexed: bool, id: &str, found: Option<AirportInfo<C>>) -> (r: AirportReply<C>)
    ensures
        !indexed ==> (r matches AirportReply::Error(e) && e@
            == "Chart transformation is required for airport ID search"@),
        indexed && found is Some ==> r == AirportReply::Airport(found->0),
        indexed && found is None ==> (r matches AirportReply::Error(e) && e@ == spec_quoted(
            "No airport on this chart matches ID"@,
            id@,
        )),
{
    if !indexed {
        return error_reply("Chart transformation is required for airport ID search");
    }
    match found {
        Some(info) => AirportReply::Airport(info),
        None => AirportReply::Error(quoted("No airport on this chart matches ID", id)),
    }
}

/// Answer a nearby request: an error without a chart transformation, else the
/// airports found.
pub fn nearby_query<C>(indexed: bool, infos: Vec<AirportInfo<C>>) -> (r: AirportReply<C>)
    ensures
        !indexed ==> (r matches AirportReply::Error(e) && e@
            == "Chart transformation is required to find nearby airports"@),
        indexed ==> r == AirportReply::Nearby(infos),
{
    if !indexed {
        return error_reply("Chart transformation is required to find nearby airports");
    }
    AirportReply::Nearby(infos)
}

/// Answer a search: an ID match wins; otherwise the name matches, or an error
/// naming the term when there are none.
pub fn search_query<C>(indexed: bool, term: &str, by_id: Option<AirportInfo<C>>, by_name: Vec<AirportInfo<C>>) -> (r: AirportReply<C>)
    ensures
        !indexed ==> (r matches AirportReply::Error(e) && e@
            == "Chart transformation is required for airport search"@),
        indexed && by_id is Some ==> r == AirportReply::Airport(by_id->0),
        indexed && by_id is None && by_name@.len() == 0 ==> (r matches AirportReply::Error(e)
            && e@ == spec_quoted("Nothing on this chart matches"@, term@)),
        indexed && by_id is None && by_name@.len() > 0 ==> r == AirportReply::Search(by_name),
{
    if !indexed {
        return error_reply("Chart transformation is required for airport search");
    }
    if let Some(info) = by_id {
        return AirportReply::Airport(info);
    }
    if by_name.len() == 0 {
        return AirportReply::Error(quoted("Nothing on this chart matches", term));
    }
    AirportReply::Search(by_name)
}

} // verus!
