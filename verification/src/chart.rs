//! Chart display options, and the checks a chart file passes before it is opened.
use crate::text;
use vstd::prelude::*;

verus! {

/// Color palette a chart image is drawn with.
#[derive(Clone, Copy, Debug, PartialEq, Eq, Structural)]
pub enum PaletteType {
    Light,
    Dark,
}

impl PaletteType {
    /// The dark palette in night mode, the light one otherwise.
    pub fn for_night_mode(night_mode: bool) -> (r: Self)
        ensures
            r == (if night_mode {
                PaletteType::Dark
            } else {
                PaletteType::Light
            }),
    {
        if night_mode {
            PaletteType::Dark
        } else {
            PaletteType::Light
        }
    }
}

/// True when `name` ends with `suffix`.
pub open spec fn ends_with(name: Seq<char>, suffix: Seq<char>) -> bool {
    name.len() >= suffix.len() && name.subrange(name.len() - suffix.len(), name.len() as int)
        == suffix
}

/// A chart is a heliport chart when its name ends in " HEL"; searches on such a
/// chart include non-public heliports.
pub fn is_heliport_chart(name: &str) -> (r: bool)
    ensures
        r == ends_with(name@, " HEL"@),
{
    proof {
        reveal_strlit(" HEL");
    }
    let n = name.unicode_len();
    if n < 4 {
        return false;
    }
    let r = name.get_char(n - 4) == ' ' && name.get_char(n - 3) == 'H' && name.get_char(n - 2) == 'E'
        && name.get_char(n - 1) == 'L';
    proof {
        let t = name@.subrange(n - 4, n as int);
        if r {
            assert(t =~= " HEL"@);
        } else {
            assert(t[0] != ' ' || t[1] != 'H' || t[2] != 'E' || t[3] != 'L');
        }
    }
    r
}

/// The PROJ4 text of an FAA chart's spatial reference names a Lambert conformal
/// conic projection on the NAD83 datum in meters.
pub open spec fn spec_is_chart_proj4(proj4: Seq<char>) -> bool {
    &&& text::spec_contains(proj4, "+proj=lcc"@)
    &&& text::spec_contains(proj4, "+datum=NAD83"@)
    &&& text::spec_contains(proj4, "+units=m"@)
}

/// Whether a spatial reference's PROJ4 text is that of an FAA chart.
pub fn is_chart_proj4(proj4: &str) -> (r: bool)
    ensures
        r == spec_is_chart_proj4(proj4@),
{
    text::str_contains(proj4, "+proj=lcc") && text::str_contains(proj4, "+datum=NAD83")
        && text::str_contains(proj4, "+units=m")
}

/// The error for a chart that cannot be opened, with its reason.
pub fn open_error(reason: &str) -> (r: String)
    ensures
        r@ == "Unable to open chart:\n"@ + reason@,
{
    let mut s = text::owned("Unable to open chart:\n");
    s.append(reason);
    s
}

/// Number of entries in a chart's color table.
pub const PAL_LEN: usize = 256;

/// A color table entry's red, green, blue and alpha components.
pub type Rgba = (i16, i16, i16, i16);

/// Every component lies in `0..256`.
pub open spec fn spec_color_ok(c: Rgba) -> bool {
    &&& 0 <= c.0 < 256
    &&& 0 <= c.1 < 256
    &&& 0 <= c.2 < 256
    &&& 0 <= c.3 < 256
}

/// Whether every component of a color table entry lies in `0..256`.
pub fn check_color(c: Rgba) -> (r: bool)
    ensures
        r == spec_color_ok(c),
{
    0 <= c.0 && c.0 < 256 && 0 <= c.1 && c.1 < 256 && 0 <= c.2 && c.2 < 256 && 0 <= c.3 && c.3 < 256
}

/// What is wrong with the entries `entries` of a chart's color table, each
/// `None` where the entry could not be read as a color: `None` when nothing is.
/// The table must have `PAL_LEN` entries; the first entry that is unreadable or
/// out of range decides the error.
pub open spec fn spec_palette_error(entries: Seq<Option<Rgba>>) -> Option<Seq<char>> {
    if entries.len() != PAL_LEN {
        Some("invalid color table"@)
    } else {
        spec_first_bad_entry(entries, 0)
    }
}

/// The error for the first bad entry at or after `i`.
pub open spec fn spec_first_bad_entry(entries: Seq<Option<Rgba>>, i: int) -> Option<Seq<char>>
    decreases entries.len() - i,
{
    if i < 0 || i >= entries.len() {
        None
    } else {
        match entries[i] {
            None => Some("invalid color table"@),
            Some(c) => if !spec_color_ok(c) {
                Some("color table contains invalid colors"@)
            } else {
                spec_first_bad_entry(entries, i + 1)
            },
        }
    }
}

/// Check a chart's color table, as `spec_palette_error` says.
pub fn palette_error(entries: &Vec<Option<Rgba>>) -> (r: Option<String>)
    ensures
        match r {
            Some(e) => spec_palette_error(entries@) == Some(e@),
            None => spec_palette_error(entries@) is None,
        },
{
    if entries.len() != PAL_LEN {
        return Some(text::owned("invalid color table"));
    }
    let mut i: usize = entries.len();
    let mut result: Option<String> = None;
    while i > 0
        invariant
            i <= entries@.len(),
            match result {
                Some(e) => spec_first_bad_entry(entries@, i as int) == Some(e@),
                None => spec_first_bad_entry(entries@, i as int) is None,
            },
        decreases i,
    {
        i = i - 1;
        match entries[i] {
            None => {
                result = Some(text::owned("invalid color table"));
            },
            Some(c) => {
                if !check_color(c) {
                    result = Some(text::owned("color table contains invalid colors"));
                }
            },
        }
    }
    result
}

} // verus!
