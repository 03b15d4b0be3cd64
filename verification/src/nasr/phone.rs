//! Recognition of telephone numbers in free text.
//!
//! The numbers recognised are those of the six forms below, searched the way a
//! leftmost-first backtracking matcher searches the alternation
//! `(?<=\s|^)\+1 \(\d{3}\) \d{3}-\d{4}\b | (?<=\s|^)\+1 \d{3}-\d{3}-\d{4}\b |
//! (?<=\s|^)\(\d{3}\) \d{3}-\d{4}\b | \b1-\d{3}-\d{3}-\d{4}\b | \b\d{3}-\d{3}-\d{4}\b |
//! \b1-800-WX-BRIEF\b` with ASCII character classes: start positions are tried
//! from left to right, the first alternative that matches at a position wins, and
//! the next search starts where the previous match ended.
//!
//! In the pattern texts below `#` stands for one decimal digit.
use vstd::prelude::*;

verus! {

/// `+1 (XXX) XXX-XXXX`, preceded by white space or the start of the text.
pub open spec fn pattern_intl_paren() -> Seq<char> {
    "+1 (###) ###-####"@
}

/// `+1 XXX-XXX-XXXX`, preceded by white space or the start of the text.
pub open spec fn pattern_intl_dash() -> Seq<char> {
    "+1 ###-###-####"@
}

/// `(XXX) XXX-XXXX`, preceded by white space or the start of the text.
pub open spec fn pattern_paren() -> Seq<char> {
    "(###) ###-####"@
}

/// `1-XXX-XXX-XXXX` as a whole word.
pub open spec fn pattern_one_dash() -> Seq<char> {
    "1-###-###-####"@
}

/// `XXX-XXX-XXXX` as a whole word.
pub open spec fn pattern_dash() -> Seq<char> {
    "###-###-####"@
}

/// `1-800-WX-BRIEF` as a whole word.
pub open spec fn pattern_wx_brief() -> Seq<char> {
    "1-800-WX-BRIEF"@
}

/// ASCII decimal digit (`\d`).
pub open spec fn is_digit(c: char) -> bool {
    '0' <= c && c <= '9'
}

/// ASCII word character (`\w`).
pub open spec fn is_word(c: char) -> bool {
    is_digit(c) || ('a' <= c && c <= 'z') || ('A' <= c && c <= 'Z') || c == '_'
}

/// ASCII white space (`\s`): tab, line feed, vertical tab, form feed, carriage return, space.
pub open spec fn is_space(c: char) -> bool {
    c == ' ' || ('\t' <= c && c <= '\r')
}

/// True when position `i` holds a word character.
pub open spec fn word_at(t: Seq<char>, i: int) -> bool {
    0 <= i < t.len() && is_word(t[i])
}

/// Word boundary (`\b`) at position `p`, which lies between `t[p - 1]` and `t[p]`.
pub open spec fn boundary(t: Seq<char>, p: int) -> bool {
    word_at(t, p - 1) != word_at(t, p)
}

/// `(?<=\s|^)` at position `p`.
pub open spec fn space_or_start_before(t: Seq<char>, p: int) -> bool {
    p == 0 || (0 < p <= t.len() && is_space(t[p - 1]))
}

/// Pattern character `pc` accepts text character `c`.
pub open spec fn accepts(pc: char, c: char) -> bool {
    if pc == '#' {
        is_digit(c)
    } else {
        c == pc
    }
}

/// The pattern `p` lies in `t` at position `s`.
pub open spec fn fits(t: Seq<char>, s: int, p: Seq<char>) -> bool {
    &&& 0 <= s
    &&& s + p.len() <= t.len()
    &&& forall|i: int| 0 <= i < p.len() ==> accepts(#[trigger] p[i], t[s + i])
}

/// An alternative anchored by `(?<=\s|^)` before and `\b` after.
pub open spec fn anchored_after_space(t: Seq<char>, s: int, p: Seq<char>) -> bool {
    space_or_start_before(t, s) && fits(t, s, p) && boundary(t, s + p.len())
}

/// An alternative anchored by `\b` on both sides.
pub open spec fn whole_word(t: Seq<char>, s: int, p: Seq<char>) -> bool {
    boundary(t, s) && fits(t, s, p) && boundary(t, s + p.len())
}

/// Length of the telephone number that a search finds starting exactly at `s`,
/// or zero when none starts there.
pub open spec fn match_len(t: Seq<char>, s: int) -> int {
    if anchored_after_space(t, s, pattern_intl_paren()) {
        pattern_intl_paren().len() as int
    } else if anchored_after_space(t, s, pattern_intl_dash()) {
        pattern_intl_dash().len() as int
    } else if anchored_after_space(t, s, pattern_paren()) {
        pattern_paren().len() as int
    } else if whole_word(t, s, pattern_one_dash()) {
        pattern_one_dash().len() as int
    } else if whole_word(t, s, pattern_dash()) {
        pattern_dash().len() as int
    } else if whole_word(t, s, pattern_wx_brief()) {
        pattern_wx_brief().len() as int
    } else {
        0
    }
}

/// All telephone numbers found by successive searches starting at `from`, as
/// `(start, end)` character ranges.
pub open spec fn phone_matches(t: Seq<char>, from: int) -> Seq<(int, int)>
    decreases t.len() - from,
{
    if from < 0 || from >= t.len() {
        Seq::empty()
    } else if match_len(t, from) > 0 {
        seq![(from, from + match_len(t, from))] + phone_matches(t, from + match_len(t, from))
    } else {
        phone_matches(t, from + 1)
    }
}

/// Ranges that are ordered, do not overlap, start at or after `from` and end by `len`.
pub open spec fn valid_ranges(r: Seq<(int, int)>, from: int, len: int) -> bool
    decreases r.len(),
{
    if r.len() == 0 {
        from <= len
    } else {
        from <= r[0].0 && r[0].0 <= r[0].1 && valid_ranges(r.drop_first(), r[0].1, len)
    }
}

/// The markup placed around a telephone number; `tel_links` adds a dialling link.
pub open spec fn spec_phone_markup(num: Seq<char>, tel_links: bool) -> Seq<char> {
    if tel_links {
        "[url=\"tel:"@ + num + "\"][color=#A0C0FF]"@ + num + "[/color][/url]"@
    } else {
        "[color=#A0C0FF]"@ + num + "[/color]"@
    }
}

/// The text from `pos` on, with every range of `r` wrapped in markup.
pub open spec fn tag_ranges(t: Seq<char>, r: Seq<(int, int)>, pos: int, tel_links: bool) -> Seq<
    char,
>
    decreases r.len(),
{
    if r.len() == 0 {
        t.subrange(pos, t.len() as int)
    } else {
        t.subrange(pos, r[0].0) + spec_phone_markup(t.subrange(r[0].0, r[0].1), tel_links)
            + tag_ranges(t, r.drop_first(), r[0].1, tel_links)
    }
}

/// The text with every telephone number that a search finds wrapped in markup.
pub open spec fn spec_tag_phones(t: Seq<char>, tel_links: bool) -> Seq<char> {
    tag_ranges(t, phone_matches(t, 0), 0, tel_links)
}

/// The ranges as mathematical integers.
pub open spec fn ranges_view(r: Seq<(usize, usize)>) -> Seq<(int, int)> {
    r.map_values(|p: (usize, usize)| (p.0 as int, p.1 as int))
}

/// The characters of a string slice.
pub fn chars_of(s: &str) -> (v: Vec<char>)
    ensures
        v@ == s@,
{
    let n = s.unicode_len();
    let mut v: Vec<char> = Vec::new();
    let mut i: usize = 0;
    while i < n
        invariant
            n == s@.len(),
            i <= n,
            v@ =~= s@.subrange(0, i as int),
        decreases n - i,
    {
        v.push(s.get_char(i));
        i = i + 1;
    }
    v
}

fn is_digit_exec(c: char) -> (r: bool)
    ensures
        r == is_digit(c),
{
    '0' <= c && c <= '9'
}

fn is_word_exec(c: char) -> (r: bool)
    ensures
        r == is_word(c),
{
    is_digit_exec(c) || ('a' <= c && c <= 'z') || ('A' <= c && c <= 'Z') || c == '_'
}

fn word_at_exec(t: &Vec<char>, i: usize) -> (r: bool)
    ensures
        r == word_at(t@, i as int),
{
    i < t.len() && is_word_exec(t[i])
}

fn boundary_exec(t: &Vec<char>, p: usize) -> (r: bool)
    requires
        p <= t@.len(),
    ensures
        r == boundary(t@, p as int),
{
    let before = p > 0 && word_at_exec(t, p - 1);
    let after = word_at_exec(t, p);
    before != after
}

fn space_or_start_before_exec(t: &Vec<char>, p: usize) -> (r: bool)
    ensures
        r == space_or_start_before(t@, p as int),
{
    if p == 0 {
        true
    } else if p <= t.len() {
        let c = t[p - 1];
        c == ' ' || ('\t' <= c && c <= '\r')
    } else {
        false
    }
}

fn fits_exec(t: &Vec<char>, s: usize, p: &str) -> (r: bool)
    ensures
        r == fits(t@, s as int, p@),
{
    let n = p.unicode_len();
    if s > t.len() || n > t.len() - s {
        return false;
    }
    let mut i: usize = 0;
    while i < n
        invariant
            n == p@.len(),
            s + n <= t.len(),
            i <= n,
            forall|j: int| 0 <= j < i ==> accepts(#[trigger] p@[j], t@[s + j]),
        decreases n - i,
    {
        let pc = p.get_char(i);
        let c = t[s + i];
        let ok = if pc == '#' {
            is_digit_exec(c)
        } else {
            c == pc
        };
        if !ok {
            assert(!accepts(p@[i as int], t@[s + i]));
            return false;
        }
        i = i + 1;
    }
    true
}

fn anchored_after_space_exec(t: &Vec<char>, s: usize, p: &str) -> (r: bool)
    ensures
        r == anchored_after_space(t@, s as int, p@),
{
    if !space_or_start_before_exec(t, s) || !fits_exec(t, s, p) {
        return false;
    }
    let tl = t.len();
    assert(s + p@.len() <= tl);
    boundary_exec(t, s + p.unicode_len())
}

fn whole_word_exec(t: &Vec<char>, s: usize, p: &str) -> (r: bool)
    ensures
        r == whole_word(t@, s as int, p@),
{
    if !fits_exec(t, s, p) || !boundary_exec(t, s) {
        return false;
    }
    let tl = t.len();
    assert(s + p@.len() <= tl);
    boundary_exec(t, s + p.unicode_len())
}

/// Length of the telephone number found starting exactly at `s` (zero for none).
fn match_len_exec(t: &Vec<char>, s: usize) -> (r: usize)
    ensures
        r as int == match_len(t@, s as int),
{
    if anchored_after_space_exec(t, s, "+1 (###) ###-####") {
        "+1 (###) ###-####".unicode_len()
    } else if anchored_after_space_exec(t, s, "+1 ###-###-####") {
        "+1 ###-###-####".unicode_len()
    } else if anchored_after_space_exec(t, s, "(###) ###-####") {
        "(###) ###-####".unicode_len()
    } else if whole_word_exec(t, s, "1-###-###-####") {
        "1-###-###-####".unicode_len()
    } else if whole_word_exec(t, s, "###-###-####") {
        "###-###-####".unicode_len()
    } else if whole_word_exec(t, s, "1-800-WX-BRIEF") {
        "1-800-WX-BRIEF".unicode_len()
    } else {
        0
    }
}

/// Find every telephone number in `text`, as character ranges, in the order a
/// repeated search finds them.
pub fn find_phone_numbers(text: &str) -> (r: Vec<(usize, usize)>)
    ensures
        ranges_view(r@) == phone_matches(text@, 0),
{
    let t = chars_of(text);
    let n = t.len();
    let mut res: Vec<(usize, usize)> = Vec::new();
    let mut pos: usize = 0;
    while pos < n
        invariant
            n == t@.len(),
            t@ == text@,
            pos <= n,
            ranges_view(res@) + phone_matches(t@, pos as int) == phone_matches(t@, 0),
        decreases n - pos,
    {
        let l = match_len_exec(&t, pos);
        let ghost old_res = res@;
        if l > 0 {
            assert(pos + l <= n);
            res.push((pos, pos + l));
            assert(ranges_view(res@) =~= ranges_view(old_res) + seq![
                (pos as int, pos + l as int),
            ]);
            pos = pos + l;
        } else {
            pos = pos + 1;
        }
    }
    assert(phone_matches(t@, pos as int) =~= Seq::<(int, int)>::empty());
    assert(ranges_view(res@) =~= phone_matches(t@, 0));
    res
}


/// Well-ordered ranges never end past the end of the text.
pub proof fn lemma_valid_ranges_bound(r: Seq<(int, int)>, from: int, len: int)
    requires
        valid_ranges(r, from, len),
    ensures
        from <= len,
        r.len() > 0 ==> r[0].1 <= len,
    decreases r.len(),
{
    if r.len() > 0 {
        lemma_valid_ranges_bound(r.drop_first(), r[0].1, len);
    }
}

/// The searches from `from` report ordered, non-overlapping ranges inside the text.
pub proof fn lemma_phone_matches_valid(t: Seq<char>, from: int)
    requires
        0 <= from <= t.len(),
    ensures
        valid_ranges(phone_matches(t, from), from, t.len() as int),
    decreases t.len() - from,
{
    if from < t.len() {
        let l = match_len(t, from);
        if l > 0 {
            lemma_phone_matches_valid(t, from + l);
            let r = phone_matches(t, from);
            assert(r.drop_first() =~= phone_matches(t, from + l));
        } else {
            lemma_phone_matches_valid(t, from + 1);
            let r = phone_matches(t, from + 1);
            if r.len() > 0 {
                assert(valid_ranges(r.drop_first(), r[0].1, t.len() as int));
            }
        }
    }
}

/// Each range that the searches report holds a telephone number of one of the
/// six forms, found at the range's start, and is not empty.
pub proof fn lemma_phone_matches_are_numbers(t: Seq<char>, from: int, k: int)
    requires
        0 <= from,
        0 <= k < phone_matches(t, from).len(),
    ensures
        phone_matches(t, from)[k].0 < phone_matches(t, from)[k].1,
        phone_matches(t, from)[k].1 - phone_matches(t, from)[k].0 == match_len(
            t,
            phone_matches(t, from)[k].0,
        ),
    decreases t.len() - from,
{
    if from < t.len() {
        let l = match_len(t, from);
        if l > 0 {
            if k > 0 {
                lemma_phone_matches_are_numbers(t, from + l, k - 1);
            }
        } else {
            lemma_phone_matches_are_numbers(t, from + 1, k);
        }
    }
}

/// Text in which no telephone number starts anywhere comes back unchanged.
pub proof fn lemma_no_numbers_unchanged(t: Seq<char>, tel_links: bool)
    requires
        forall|s: int| 0 <= s < t.len() ==> #[trigger] match_len(t, s) == 0,
    ensures
        spec_tag_phones(t, tel_links) == t,
{
    lemma_no_numbers_no_matches(t, 0);
    assert(t.subrange(0, t.len() as int) =~= t);
}

proof fn lemma_no_numbers_no_matches(t: Seq<char>, from: int)
    requires
        0 <= from,
        forall|s: int| 0 <= s < t.len() ==> #[trigger] match_len(t, s) == 0,
    ensures
        phone_matches(t, from).len() == 0,
    decreases t.len() - from,
{
    if from < t.len() {
        assert(match_len(t, from) == 0);
        lemma_no_numbers_no_matches(t, from + 1);
    }
}

/// The markup around one telephone number.
pub fn phone_markup(num: &str, tel_links: bool) -> (r: String)
    ensures
        r@ == spec_phone_markup(num@, tel_links),
{
    if tel_links {
        let mut s = String::from_str("[url=\"tel:");
        s.append(num);
        s.append("\"][color=#A0C0FF]");
        s.append(num);
        s.append("[/color][/url]");
        s
    } else {
        let mut s = String::from_str("[color=#A0C0FF]");
        s.append(num);
        s.append("[/color]");
        s
    }
}

/// Wrap each of the given character ranges of `text` in telephone markup.
pub fn tag_phone_ranges(text: &str, ranges: &Vec<(usize, usize)>, tel_links: bool) -> (r: String)
    requires
        valid_ranges(ranges_view(ranges@), 0, text@.len() as int),
    ensures
        r@ == tag_ranges(text@, ranges_view(ranges@), 0, tel_links),
{
    let ghost t = text@;
    let ghost rv = ranges_view(ranges@);
    let n = text.unicode_len();
    let mut out = String::new();
    let mut pos: usize = 0;
    let mut i: usize = 0;
    assert(rv.skip(0) =~= rv);
    while i < ranges.len()
        invariant
            t == text@,
            n == t.len(),
            rv == ranges_view(ranges@),
            i <= ranges@.len(),
            pos <= n,
            valid_ranges(rv.skip(i as int), pos as int, n as int),
            out@ + tag_ranges(t, rv.skip(i as int), pos as int, tel_links) == tag_ranges(
                t,
                rv,
                0,
                tel_links,
            ),
        decreases ranges@.len() - i,
    {
        let (s, e) = ranges[i];
        let ghost rest = rv.skip(i as int);
        assert(rest[0] == (s as int, e as int));
        assert(rest.drop_first() =~= rv.skip(i + 1));
        proof {
            lemma_valid_ranges_bound(rest, pos as int, n as int);
        }
        let ghost before = out@;
        out.append(text.substring_char(pos, s));
        let num = text.substring_char(s, e);
        let m = phone_markup(num, tel_links);
        out.append(m.as_str());
        assert(out@ + tag_ranges(t, rv.skip(i + 1), e as int, tel_links) =~= before + tag_ranges(
            t,
            rest,
            pos as int,
            tel_links,
        ));
        pos = e;
        i = i + 1;
    }
    let ghost before = out@;
    out.append(text.substring_char(pos, n));
    assert(rv.skip(i as int).len() == 0);
    out
}

/// The text with every telephone number wrapped in markup.
pub fn tag_phones(text: &str, tel_links: bool) -> (r: String)
    ensures
        r@ == spec_tag_phones(text@, tel_links),
{
    let ranges = find_phone_numbers(text);
    proof {
        lemma_phone_matches_valid(text@, 0);
    }
    if ranges.len() == 0 {
        assert(text@.subrange(0, text@.len() as int) =~= text@);
        return String::from_str(text);
    }
    tag_phone_ranges(text, &ranges, tel_links)
}

} // verus!
