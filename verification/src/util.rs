//! Constants, conversions, zip content classification and dialog placement.
use crate::geom::{Pos, Size};
use crate::text;
use vstd::prelude::*;

verus! {

/// PROJ4 text of the NAD83 decimal-degree spatial reference the FAA uses.
pub const PROJ4_NAD83: &'static str = "+proj=longlat +datum=NAD83 +no_defs";

/// Height of a dialog's title bar.
pub const TITLE_HEIGHT: i32 = 32;

/// Width of a dialog's side border.
pub const BORDER_WIDTH: i32 = 8;

/// Height of a dialog's bottom border.
pub const BORDER_HEIGHT: i32 = 6;

/// Fewest characters a find term may have.
pub const MIN_FIND_CHARS: usize = 3;

/// Exact conversion to `u32`.
pub trait ToU32 {
    fn to_u32(self) -> Option<u32>;
}

impl ToU32 for i64 {
    /// `Some` exactly when the value is representable as a `u32`.
    fn to_u32(self) -> (r: Option<u32>)
        ensures
            r == (if 0 <= self <= u32::MAX {
                Some(self as u32)
            } else {
                None
            }),
    {
        if 0 <= self && self <= 0xffff_ffffi64 {
            Some(self as u32)
        } else {
            None
        }
    }
}

/// A value converted to `u32` and back is unchanged.
pub proof fn lemma_to_u32_round_trip(v: i64)
    requires
        0 <= v <= u32::MAX,
    ensures
        (v as u32) as i64 == v,
{
}

/// Main window placement.
#[derive(Default, PartialEq, Eq)]
pub struct WinInfo {
    pub pos: Option<Pos>,
    pub size: Option<Size>,
    pub maxed: bool,
}

/// What the standard library's `Path::extension` returns for the path `p`.
pub uninterp spec fn spec_path_extension(p: Seq<char>) -> Option<Seq<char>>;

/// What the standard library's `Path::file_stem` returns for the path `p`.
pub uninterp spec fn spec_path_file_stem(p: Seq<char>) -> Option<Seq<char>>;

/// `std::path::Path::extension` of a path given as text: the contract says only
/// that the result is the one `spec_path_extension` names for that text.
#[verifier::external_body]
fn path_extension(p: &str) -> (r: Option<String>)
    ensures
        match r {
            Some(e) => spec_path_extension(p@) == Some(e@),
            None => spec_path_extension(p@) is None,
        },
{
    std::path::Path::new(p).extension().and_then(|e| e.to_str()).map(|e| e.to_string())
}

/// `std::path::Path::file_stem` of a path given as text: the contract says only
/// that the result is the one `spec_path_file_stem` names for that text.
#[verifier::external_body]
fn path_file_stem(p: &str) -> (r: Option<String>)
    ensures
        match r {
            Some(e) => spec_path_file_stem(p@) == Some(e@),
            None => spec_path_file_stem(p@) is None,
        },
{
    std::path::Path::new(p).file_stem().and_then(|e| e.to_str()).map(|e| e.to_string())
}

/// The path's extension is exactly `ext`.
pub open spec fn has_extension(p: Seq<char>, ext: Seq<char>) -> bool {
    spec_path_extension(p) == Some(ext)
}

fn has_extension_exec(p: &str, ext: &str) -> (r: bool)
    ensures
        r == has_extension(p@, ext@),
{
    match path_extension(p) {
        Some(e) => text::str_eq(e.as_str(), ext),
        None => false,
    }
}

/// True when the path names a zip file.
pub fn has_zip_extension(path: &str) -> (r: bool)
    ensures
        r == has_extension(path@, "zip"@),
{
    has_extension_exec(path, "zip")
}

/// The views of a list of strings.
pub open spec fn strings_view(v: Seq<String>) -> Seq<Seq<char>> {
    v.map_values(|s: String| s@)
}

/// Every required name is among `names`, and at least one is required.
pub open spec fn spec_has_files(names: Seq<Seq<char>>, required: Seq<Seq<char>>) -> bool {
    &&& required.len() > 0
    &&& forall|j: int| 0 <= j < required.len() ==> names.contains(#[trigger] required[j])
}

fn contains_name(names: &Vec<String>, name: &str) -> (r: bool)
    ensures
        r == strings_view(names@).contains(name@),
{
    let ghost nv = strings_view(names@);
    let mut i: usize = 0;
    while i < names.len()
        invariant
            nv == strings_view(names@),
            i <= names@.len(),
            forall|k: int| 0 <= k < i ==> nv[k] != name@,
        decreases names@.len() - i,
    {
        if text::str_eq(names[i].as_str(), name) {
            assert(nv[i as int] == name@);
            return true;
        }
        i = i + 1;
    }
    false
}

/// Whether a folder listing holds every one of a set of required files.
pub fn check_files(names: &Vec<String>, required: &Vec<&str>) -> (r: bool)
    ensures
        r == spec_has_files(strings_view(names@), text::strs_view(required@)),
{
    let ghost rv = text::strs_view(required@);
    if required.len() == 0 {
        return false;
    }
    let mut j: usize = 0;
    while j < required.len()
        invariant
            rv == text::strs_view(required@),
            j <= required@.len(),
            forall|k: int| 0 <= k < j ==> strings_view(names@).contains(#[trigger] rv[k]),
        decreases required@.len() - j,
    {
        if !contains_name(names, required[j]) {
            assert(rv[j as int] == required@[j as int]@);
            return false;
        }
        j = j + 1;
    }
    true
}

/// The file `f` is a GeoTIFF raster: its extension is `tif` and it has a stem.
pub open spec fn is_raster(f: Seq<char>) -> bool {
    has_extension(f, "tif"@) && spec_path_file_stem(f) is Some
}

/// Some file of the listing is a world file (`tfw`) with the same stem as `f`.
pub open spec fn has_world_file(files: Seq<Seq<char>>, f: Seq<char>) -> bool {
    exists|j: int|
        0 <= j < files.len() && has_extension(#[trigger] files[j], "tfw"@) && spec_path_file_stem(
            files[j],
        ) is Some && spec_path_file_stem(files[j]) == spec_path_file_stem(f)
}

/// The rasters among the first `n` files that have a matching world file, in listing order.
pub open spec fn spec_chart_files(files: Seq<Seq<char>>, n: int) -> Seq<Seq<char>>
    decreases n,
{
    if n <= 0 {
        Seq::empty()
    } else if is_raster(files[n - 1]) && has_world_file(files, files[n - 1]) {
        spec_chart_files(files, n - 1).push(files[n - 1])
    } else {
        spec_chart_files(files, n - 1)
    }
}

/// Membership in a sequence after pushing an element.
proof fn lemma_contains_push<A>(s: Seq<A>, x: A, y: A)
    ensures
        s.push(x).contains(y) <==> (s.contains(y) || y == x),
{
    if s.contains(y) {
        let k = choose|k: int| 0 <= k < s.len() && s[k] == y;
        assert(s.push(x)[k] == y);
    }
    if y == x {
        assert(s.push(x)[s.len() as int] == y);
    }
    if s.push(x).contains(y) {
        let k = choose|k: int| 0 <= k < s.push(x).len() && s.push(x)[k] == y;
        if k < s.len() {
            assert(s[k] == y);
        }
    }
}

/// The chart rasters of a zip folder listing: `tif` files that have a `tfw` world
/// file with the same stem, in listing order.
pub fn chart_files(files: &Vec<String>) -> (r: Vec<String>)
    ensures
        strings_view(r@) == spec_chart_files(strings_view(files@), files@.len() as int),
{
    let ghost fv = strings_view(files@);
    let mut stems: Vec<String> = Vec::new();
    let mut i: usize = 0;
    while i < files.len()
        invariant
            fv == strings_view(files@),
            i <= files@.len(),
            forall|s: Seq<char>|
                strings_view(stems@).contains(s) <==> exists|j: int|
                    0 <= j < i && has_extension(#[trigger] fv[j], "tfw"@)
                        && spec_path_file_stem(fv[j]) == Some(s),
        decreases files@.len() - i,
    {
        if has_extension_exec(files[i].as_str(), "tfw") {
            match path_file_stem(files[i].as_str()) {
                Some(stem) => {
                    let ghost old_stems = strings_view(stems@);
                    stems.push(stem);
                    assert(strings_view(stems@) =~= old_stems.push(stem@));
                    assert forall|s: Seq<char>|
                        strings_view(stems@).contains(s) <==> exists|j: int|
                            0 <= j < i + 1 && has_extension(#[trigger] fv[j], "tfw"@)
                                && spec_path_file_stem(fv[j]) == Some(s) by {
                        lemma_contains_push(old_stems, stem@, s);
                        if s == stem@ {
                            assert(has_extension(fv[i as int], "tfw"@));
                        }
                        if exists|j: int|
                            0 <= j < i + 1 && has_extension(#[trigger] fv[j], "tfw"@)
                                && spec_path_file_stem(fv[j]) == Some(s) {
                            let j = choose|j: int|
                                0 <= j < i + 1 && has_extension(#[trigger] fv[j], "tfw"@)
                                    && spec_path_file_stem(fv[j]) == Some(s);
                            if j < i {
                                assert(old_stems.contains(s));
                            }
                        }
                    }
                },
                None => {},
            }
        }
        i = i + 1;
    }
    let mut out: Vec<String> = Vec::new();
    let mut k: usize = 0;
    while k < files.len()
        invariant
            fv == strings_view(files@),
            k <= files@.len(),
            forall|s: Seq<char>|
                strings_view(stems@).contains(s) <==> exists|j: int|
                    0 <= j < files@.len() && has_extension(#[trigger] fv[j], "tfw"@)
                        && spec_path_file_stem(fv[j]) == Some(s),
            strings_view(out@) == spec_chart_files(fv, k as int),
        decreases files@.len() - k,
    {
        let ghost old_out = strings_view(out@);
        if has_extension_exec(files[k].as_str(), "tif") {
            match path_file_stem(files[k].as_str()) {
                Some(stem) => {
                    if contains_name(&stems, stem.as_str()) {
                        let name = text::owned(files[k].as_str());
                        out.push(name);
                        assert(strings_view(out@) =~= old_out.push(fv[k as int]));
                    } else {
                        assert(!has_world_file(fv, fv[k as int]));
                    }
                },
                None => {},
            }
        }
        k = k + 1;
    }
    out
}

/// The files of a folder listing that are zip archives, in listing order.
pub open spec fn spec_zip_files(files: Seq<Seq<char>>, n: int) -> Seq<Seq<char>>
    decreases n,
{
    if n <= 0 {
        Seq::empty()
    } else if has_extension(files[n - 1], "zip"@) {
        spec_zip_files(files, n - 1).push(files[n - 1])
    } else {
        spec_zip_files(files, n - 1)
    }
}

/// The zip archives of a folder listing, in listing order.
pub fn zip_files(files: &Vec<String>) -> (r: Vec<String>)
    ensures
        strings_view(r@) == spec_zip_files(strings_view(files@), files@.len() as int),
{
    let ghost fv = strings_view(files@);
    let mut out: Vec<String> = Vec::new();
    let mut k: usize = 0;
    while k < files.len()
        invariant
            fv == strings_view(files@),
            k <= files@.len(),
            strings_view(out@) == spec_zip_files(fv, k as int),
        decreases files@.len() - k,
    {
        let ghost old_out = strings_view(out@);
        if has_zip_extension(files[k].as_str()) {
            out.push(text::owned(files[k].as_str()));
            assert(strings_view(out@) =~= old_out.push(fv[k as int]));
        }
        k = k + 1;
    }
    out
}

/// What kind of FAA data a zip file holds.
pub enum ZipInfo {
    /// Chart raster data: the raster files.
    Chart(Vec<String>),
    /// NASR aeronautical data: the CSV archive and the shape file folder.
    Aero { csv: String, shp: String },
}

/// The chart information of a zip whose root folder lists `files`: the usable
/// rasters, or an error when there are none.
pub fn chart_zip_info(files: &Vec<String>) -> (r: Result<ZipInfo, String>)
    ensures
        spec_chart_files(strings_view(files@), files@.len() as int).len() == 0 <==> r is Err,
        r matches Err(e) ==> e@ == "Zip file does not contain usable data"@,
        r matches Ok(ZipInfo::Chart(c)) ==> strings_view(c@) == spec_chart_files(
            strings_view(files@),
            files@.len() as int,
        ),
        r matches Ok(ZipInfo::Aero { .. }) ==> false,
{
    let charts = chart_files(files);
    if charts.len() == 0 {
        return Err(text::owned("Zip file does not contain usable data"));
    }
    Ok(ZipInfo::Chart(charts))
}

/// The error for a path that does not name a zip file.
pub fn zip_extension_error() -> (r: String)
    ensures
        r@ == "Path must have 'zip' extension"@,
{
    text::owned("Path must have 'zip' extension")
}

/// The error for a zip file whose contents cannot be listed.
pub fn zip_read_error() -> (r: String)
    ensures
        r@ == "Unable to read zip file"@,
{
    text::owned("Unable to read zip file")
}

/// Room taken by a dialog's decorations: both side borders, the title bar and
/// the bottom border.
pub open spec fn deco() -> (int, int) {
    (2 * BORDER_WIDTH, TITLE_HEIGHT + BORDER_HEIGHT)
}

/// Offset from a dialog's outer corner to its content position.
pub open spec fn delta() -> (int, int) {
    (BORDER_WIDTH as int, TITLE_HEIGHT as int)
}

/// Coordinates small enough that no sum below can overflow.
pub open spec fn small(v: int) -> bool {
    -0x2000_0000 <= v <= 0x2000_0000
}

/// A dialog's outer extent, capped by the main window's extent.
pub open spec fn capped(size: int, deco: int, max: int) -> int {
    if size + deco < max {
        size + deco
    } else {
        max
    }
}

/// Where a dialog's outer corner goes on one axis: moved back if it overhangs the
/// far edge, then forward if it lies before the near edge.
pub open spec fn placed(pos: int, delta: int, outer: int, max: int) -> int {
    let p = pos - delta;
    let p1 = if p + outer > max {
        max - outer
    } else {
        p
    };
    if p1 < 0 {
        0
    } else {
        p1
    }
}

/// The new content size (if it changes) and position (if it changes) that keep a
/// dialog of content size `size` at `pos` inside a main window of size `max`.
pub open spec fn spec_adjust_dialog(pos: Pos, size: Pos, max: Pos) -> (Option<Pos>, Option<Pos>) {
    let ox = size.x + deco().0;
    let oy = size.y + deco().1;
    let cx = capped(size.x as int, deco().0, max.x as int);
    let cy = capped(size.y as int, deco().1, max.y as int);
    let new_size = if cx != ox || cy != oy {
        Some(Pos { x: (cx - deco().0) as i32, y: (cy - deco().1) as i32 })
    } else {
        None
    };
    let nx = placed(pos.x as int, delta().0, ox, max.x as int) + delta().0;
    let ny = placed(pos.y as int, delta().1, oy, max.y as int) + delta().1;
    let new_pos = if nx != pos.x || ny != pos.y {
        Some(Pos { x: nx as i32, y: ny as i32 })
    } else {
        None
    };
    (new_size, new_pos)
}

/// Keep a dialog within the main window: shrink it when it is larger, and move it
/// when it lies outside. Returns the new content size and position, each only
/// when it changes.
pub fn adjust_dialog(pos: Pos, size: Pos, max: Pos) -> (r: (Option<Pos>, Option<Pos>))
    requires
        small(pos.x as int),
        small(pos.y as int),
        small(size.x as int),
        small(size.y as int),
        small(max.x as int),
        small(max.y as int),
    ensures
        r == spec_adjust_dialog(pos, size, max),
{
    let deco_x = BORDER_WIDTH * 2;
    let deco_y = TITLE_HEIGHT + BORDER_HEIGHT;
    let ox = size.x + deco_x;
    let oy = size.y + deco_y;
    let cx = if ox < max.x {
        ox
    } else {
        max.x
    };
    let cy = if oy < max.y {
        oy
    } else {
        max.y
    };
    let new_size = if cx != ox || cy != oy {
        Some(Pos { x: cx - deco_x, y: cy - deco_y })
    } else {
        None
    };
    let mut px = pos.x - BORDER_WIDTH;
    let mut py = pos.y - TITLE_HEIGHT;
    if px + ox > max.x {
        px = max.x - ox;
    }
    if py + oy > max.y {
        py = max.y - oy;
    }
    if px < 0 {
        px = 0;
    }
    if py < 0 {
        py = 0;
    }
    px = px + BORDER_WIDTH;
    py = py + TITLE_HEIGHT;
    let new_pos = if px != pos.x || py != pos.y {
        Some(Pos { x: px, y: py })
    } else {
        None
    };
    (new_size, new_pos)
}

/// A dialog that fits within the main window is placed entirely inside it.
pub proof fn lemma_dialog_placed_inside(pos: int, delta: int, outer: int, max: int)
    requires
        0 <= outer <= max,
    ensures
        0 <= placed(pos, delta, outer, max),
        placed(pos, delta, outer, max) + outer <= max,
{
}

/// A dialog whose decorated size fits within the main window ends up entirely
/// inside it, decorations included.
pub proof fn lemma_adjusted_dialog_inside(pos: Pos, size: Pos, max: Pos)
    requires
        0 <= size.x + deco().0 <= max.x,
        0 <= size.y + deco().1 <= max.y,
    ensures
        ({
            let (_, new_pos) = spec_adjust_dialog(pos, size, max);
            let p = match new_pos {
                Some(p) => p,
                None => pos,
            };
            &&& 0 <= p.x - delta().0
            &&& p.x - delta().0 + size.x + deco().0 <= max.x
            &&& 0 <= p.y - delta().1
            &&& p.y - delta().1 + size.y + deco().1 <= max.y
        }),
{
    lemma_dialog_placed_inside(pos.x as int, delta().0, size.x + deco().0, max.x as int);
    lemma_dialog_placed_inside(pos.y as int, delta().1, size.y + deco().1, max.y as int);
}

} // verus!
