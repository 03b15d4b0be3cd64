//! Character-level text helpers shared by the record formatters.
use vstd::prelude::*;

verus! {

/// Exact comparison of two string slices, character by character.
pub fn str_eq(a: &str, b: &str) -> (r: bool)
    ensures
        r == (a@ == b@),
{
    let n = a.unicode_len();
    let m = b.unicode_len();
    if n != m {
        return false;
    }
    let mut i: usize = 0;
    while i < n
        invariant
            n == a@.len(),
            m == b@.len(),
            n == m,
            i <= n,
            forall|j: int| 0 <= j < i ==> a@[j] == b@[j],
        decreases n - i,
    {
        if a.get_char(i) != b.get_char(i) {
            return false;
        }
        i = i + 1;
    }
    assert(a@ =~= b@);
    true
}

/// Copy a string slice into an owned `String`.
pub fn owned(s: &str) -> (r: String)
    ensures
        r@ == s@,
{
    String::from_str(s)
}

/// Concatenation of three pieces.
pub fn concat3(a: &str, b: &str, c: &str) -> (r: String)
    ensures
        r@ == a@ + b@ + c@,
{
    let mut s = String::from_str(a);
    s.append(b);
    s.append(c);
    s
}

/// The text `prefix + value + suffix`, or nothing when `value` is empty.
pub open spec fn spec_wrap_nonempty(prefix: Seq<char>, value: Seq<char>, suffix: Seq<char>) -> Seq<
    char,
> {
    if value.len() == 0 {
        Seq::empty()
    } else {
        prefix + value + suffix
    }
}

/// `prefix + value + suffix`, or an empty string when `value` is empty.
pub fn wrap_nonempty(prefix: &str, value: &str, suffix: &str) -> (r: String)
    ensures
        r@ == spec_wrap_nonempty(prefix@, value@, suffix@),
{
    if value.is_empty() {
        String::new()
    } else {
        concat3(prefix, value, suffix)
    }
}

/// Opening markup of an indented, bulleted detail line.
pub open spec fn spec_ul_open(label: Seq<char>) -> Seq<char> {
    "[ul] "@ + label + ": [color=white]"@
}

/// A bulleted detail line: `[ul] {label}: [color=white]{value}[/color][/ul]` and a new line.
pub open spec fn spec_ul_line(label: Seq<char>, value: Seq<char>) -> Seq<char> {
    spec_ul_open(label) + value + "[/color][/ul]\n"@
}

/// A bulleted detail line, left out when the value is empty.
pub open spec fn spec_ul_line_nonempty(label: Seq<char>, value: Seq<char>) -> Seq<char> {
    if value.len() == 0 {
        Seq::empty()
    } else {
        spec_ul_line(label, value)
    }
}

/// Build a bulleted detail line.
pub fn ul_line(label: &str, value: &str) -> (r: String)
    ensures
        r@ == spec_ul_line(label@, value@),
{
    let mut s = String::from_str("[ul] ");
    s.append(label);
    s.append(": [color=white]");
    s.append(value);
    s.append("[/color][/ul]\n");
    s
}

/// Build a bulleted detail line, or nothing when the value is empty.
pub fn ul_line_nonempty(label: &str, value: &str) -> (r: String)
    ensures
        r@ == spec_ul_line_nonempty(label@, value@),
{
    if value.is_empty() {
        String::new()
    } else {
        ul_line(label, value)
    }
}

/// A top-level detail line: `{label}: [color=white]{value}[/color]` and a new line.
pub open spec fn spec_info_line(label: Seq<char>, value: Seq<char>) -> Seq<char> {
    label + ": [color=white]"@ + value + "[/color]\n"@
}

/// A top-level detail line, left out when the value is empty.
pub open spec fn spec_info_line_nonempty(label: Seq<char>, value: Seq<char>) -> Seq<char> {
    if value.len() == 0 {
        Seq::empty()
    } else {
        spec_info_line(label, value)
    }
}

/// Build a top-level detail line.
pub fn info_line(label: &str, value: &str) -> (r: String)
    ensures
        r@ == spec_info_line(label@, value@),
{
    let mut s = String::from_str(label);
    s.append(": [color=white]");
    s.append(value);
    s.append("[/color]\n");
    s
}

/// Build a top-level detail line, or nothing when the value is empty.
pub fn info_line_nonempty(label: &str, value: &str) -> (r: String)
    ensures
        r@ == spec_info_line_nonempty(label@, value@),
{
    if value.is_empty() {
        String::new()
    } else {
        info_line(label, value)
    }
}

/// The pieces joined with `sep` between neighbours.
pub open spec fn spec_join(parts: Seq<Seq<char>>, sep: Seq<char>) -> Seq<char>
    decreases parts.len(),
{
    if parts.len() == 0 {
        Seq::empty()
    } else if parts.len() == 1 {
        parts[0]
    } else {
        spec_join(parts.drop_last(), sep) + sep + parts.last()
    }
}

/// The views of a list of string slices.
pub open spec fn strs_view(parts: Seq<&str>) -> Seq<Seq<char>> {
    parts.map_values(|p: &str| p@)
}

/// Join string slices with a separator between neighbours.
pub fn join_strs(parts: &Vec<&str>, sep: &str) -> (r: String)
    ensures
        r@ == spec_join(strs_view(parts@), sep@),
{
    let ghost pv = strs_view(parts@);
    let mut out = String::new();
    let mut i: usize = 0;
    while i < parts.len()
        invariant
            pv == strs_view(parts@),
            i <= parts@.len(),
            out@ == spec_join(pv.take(i as int), sep@),
        decreases parts@.len() - i,
    {
        assert(pv.take(i + 1).drop_last() =~= pv.take(i as int));
        if i > 0 {
            out.append(sep);
        } else {
            assert(out@ =~= Seq::<char>::empty());
        }
        out.append(parts[i]);
        i = i + 1;
    }
    assert(pv.take(i as int) =~= pv);
    out
}

/// Unicode white space (the `White_Space` property), as `char::is_whitespace` tests it.
pub open spec fn is_white_space(c: char) -> bool {
    ('\u{9}' <= c && c <= '\u{d}') || c == ' ' || c == '\u{85}' || c == '\u{a0}' || c
        == '\u{1680}' || ('\u{2000}' <= c && c <= '\u{200a}') || c == '\u{2028}' || c == '\u{2029}'
        || c == '\u{202f}' || c == '\u{205f}' || c == '\u{3000}'
}

fn is_white_space_exec(c: char) -> (r: bool)
    ensures
        r == is_white_space(c),
{
    ('\u{9}' <= c && c <= '\u{d}') || c == ' ' || c == '\u{85}' || c == '\u{a0}' || c
        == '\u{1680}' || ('\u{2000}' <= c && c <= '\u{200a}') || c == '\u{2028}' || c == '\u{2029}'
        || c == '\u{202f}' || c == '\u{205f}' || c == '\u{3000}'
}

/// The text without its leading white space.
pub open spec fn spec_trim_start(s: Seq<char>) -> Seq<char>
    decreases s.len(),
{
    if s.len() > 0 && is_white_space(s[0]) {
        spec_trim_start(s.drop_first())
    } else {
        s
    }
}

/// The text without its trailing white space.
pub open spec fn spec_trim_end(s: Seq<char>) -> Seq<char>
    decreases s.len(),
{
    if s.len() > 0 && is_white_space(s.last()) {
        spec_trim_end(s.drop_last())
    } else {
        s
    }
}

/// The text without leading and trailing white space.
pub open spec fn spec_trim(s: Seq<char>) -> Seq<char> {
    spec_trim_end(spec_trim_start(s))
}

/// Remove leading and trailing white space.
pub fn trim(s: &str) -> (r: String)
    ensures
        r@ == spec_trim(s@),
{
    let n = s.unicode_len();
    let mut a: usize = 0;
    assert(s@.subrange(0, n as int) =~= s@);
    while a < n && is_white_space_exec(s.get_char(a))
        invariant
            n == s@.len(),
            a <= n,
            spec_trim_start(s@) == spec_trim_start(s@.subrange(a as int, n as int)),
        decreases n - a,
    {
        assert(s@.subrange(a as int, n as int).drop_first() =~= s@.subrange(a + 1, n as int));
        a = a + 1;
    }
    let mut b: usize = n;
    while b > a && is_white_space_exec(s.get_char(b - 1))
        invariant
            n == s@.len(),
            a <= b <= n,
            spec_trim_start(s@) == s@.subrange(a as int, n as int),
            spec_trim(s@) == spec_trim_end(s@.subrange(a as int, b as int)),
        decreases b - a,
    {
        assert(s@.subrange(a as int, b as int).drop_last() =~= s@.subrange(a as int, b - 1));
        b = b - 1;
    }
    text_slice(s, a, b)
}

/// The characters of `s` from `a` up to `b`.
pub fn text_slice(s: &str, a: usize, b: usize) -> (r: String)
    requires
        a <= b <= s@.len(),
    ensures
        r@ == s@.subrange(a as int, b as int),
{
    String::from_str(s.substring_char(a, b))
}

/// The pieces of `s` between occurrences of `sep` (an empty text has one empty piece).
pub open spec fn spec_split(s: Seq<char>, sep: char) -> Seq<Seq<char>>
    decreases s.len(),
{
    if s.len() == 0 {
        seq![Seq::empty()]
    } else {
        let p = spec_split(s.drop_last(), sep);
        if s.last() == sep {
            p.push(Seq::empty())
        } else {
            p.update(p.len() - 1, p.last().push(s.last()))
        }
    }
}

/// Splitting always yields at least one piece.
pub proof fn lemma_split_nonempty(s: Seq<char>, sep: char)
    ensures
        spec_split(s, sep).len() >= 1,
    decreases s.len(),
{
    if s.len() > 0 {
        lemma_split_nonempty(s.drop_last(), sep);
    }
}

/// Each piece trimmed.
pub open spec fn trim_all(p: Seq<Seq<char>>) -> Seq<Seq<char>> {
    p.map_values(|x: Seq<char>| spec_trim(x))
}

/// A comma-separated list with the white space around each item removed and the
/// items joined by a comma and a space.
pub open spec fn spec_normalize_list(s: Seq<char>) -> Seq<char> {
    spec_join(trim_all(spec_split(s, ',')), ", "@)
}

/// Normalise the separators of a comma-separated list.
pub fn normalize_list(s: &str) -> (r: String)
    ensures
        r@ == spec_normalize_list(s@),
{
    let n = s.unicode_len();
    let mut out = String::new();
    let mut start: usize = 0;
    let mut first = true;
    let mut i: usize = 0;
    let ghost mut done: Seq<Seq<char>> = Seq::empty();
    assert(s@.take(0) =~= Seq::<char>::empty());
    while i < n
        invariant
            n == s@.len(),
            start <= i <= n,
            spec_split(s@.take(i as int), ',') == done.push(s@.subrange(start as int, i as int)),
            first == (done.len() == 0),
            out@ == spec_join(trim_all(done), ", "@),
        decreases n - i,
    {
        let c = s.get_char(i);
        let ghost cur = s@.subrange(start as int, i as int);
        let ghost p = spec_split(s@.take(i as int), ',');
        assert(s@.take(i + 1).drop_last() =~= s@.take(i as int));
        if c == ',' {
            let piece = trim(s.substring_char(start, i));
            if !first {
                out.append(", ");
            }
            out.append(piece.as_str());
            proof {
                assert(trim_all(done.push(cur)) =~= trim_all(done).push(spec_trim(cur)));
                assert(trim_all(done.push(cur)).drop_last() =~= trim_all(done));
                done = done.push(cur);
            }
            first = false;
            start = i + 1;
            assert(s@.subrange(start as int, i + 1) =~= Seq::<char>::empty());
        } else {
            assert(s@.subrange(start as int, i + 1) =~= cur.push(c));
            assert(p.update(p.len() - 1, p.last().push(c)) =~= done.push(cur.push(c)));
        }
        i = i + 1;
    }
    let ghost cur = s@.subrange(start as int, n as int);
    let piece = trim(s.substring_char(start, n));
    if !first {
        out.append(", ");
    }
    out.append(piece.as_str());
    assert(s@.take(n as int) =~= s@);
    assert(trim_all(done.push(cur)) =~= trim_all(done).push(spec_trim(cur)));
    assert(trim_all(done.push(cur)).drop_last() =~= trim_all(done));
    out
}

/// No white space at either end.
pub open spec fn is_trimmed(s: Seq<char>) -> bool {
    s.len() == 0 || (!is_white_space(s[0]) && !is_white_space(s.last()))
}

/// Trimming the start keeps a suffix, which starts with no white space.
proof fn lemma_trim_start_suffix(s: Seq<char>)
    ensures
        spec_trim_start(s).len() <= s.len(),
        spec_trim_start(s) == s.subrange(s.len() - spec_trim_start(s).len(), s.len() as int),
        spec_trim_start(s).len() > 0 ==> !is_white_space(spec_trim_start(s)[0]),
    decreases s.len(),
{
    if s.len() > 0 && is_white_space(s[0]) {
        lemma_trim_start_suffix(s.drop_first());
        let t = spec_trim_start(s.drop_first());
        assert(s.drop_first().subrange(s.drop_first().len() - t.len(), s.drop_first().len() as int)
            =~= s.subrange(s.len() - t.len(), s.len() as int));
    } else {
        assert(s.subrange(0, s.len() as int) =~= s);
    }
}

/// Trimming the end keeps a prefix, which ends with no white space.
proof fn lemma_trim_end_prefix(s: Seq<char>)
    ensures
        spec_trim_end(s).len() <= s.len(),
        spec_trim_end(s) == s.subrange(0, spec_trim_end(s).len() as int),
        spec_trim_end(s).len() > 0 ==> !is_white_space(spec_trim_end(s).last()),
    decreases s.len(),
{
    if s.len() > 0 && is_white_space(s.last()) {
        lemma_trim_end_prefix(s.drop_last());
        let t = spec_trim_end(s.drop_last());
        assert(s.drop_last().subrange(0, t.len() as int) =~= s.subrange(0, t.len() as int));
    } else {
        assert(s.subrange(0, s.len() as int) =~= s);
    }
}

/// A trimmed text is trimmed, and holds no character the text did not hold.
proof fn lemma_trim_trimmed(s: Seq<char>, c: char)
    ensures
        is_trimmed(spec_trim(s)),
        !s.contains(c) ==> !spec_trim(s).contains(c),
{
    let a = spec_trim_start(s);
    lemma_trim_start_suffix(s);
    lemma_trim_end_prefix(a);
    let b = spec_trim_end(a);
    if b.len() > 0 {
        assert(b[0] == a[0]);
    }
    if !s.contains(c) && b.contains(c) {
        let i = choose|i: int| 0 <= i < b.len() && b[i] == c;
        assert(a[i] == c);
        assert(s[s.len() - a.len() + i] == c);
    }
}

/// Trimming leaves a trimmed text unchanged, and removes a single leading space from one.
proof fn lemma_trim_of_trimmed(t: Seq<char>)
    requires
        is_trimmed(t),
    ensures
        spec_trim(t) == t,
        spec_trim(seq![' '] + t) == t,
{
    assert((seq![' '] + t).drop_first() =~= t);
    if t.len() > 0 {
        assert(spec_trim_start(t) == t);
        assert(spec_trim_end(t) == t);
    } else {
        assert(spec_trim_start(t) == t);
        assert(spec_trim_end(t) =~= t);
    }
}

/// A text without the separator is one piece.
proof fn lemma_split_single(t: Seq<char>, sep: char)
    requires
        !t.contains(sep),
    ensures
        spec_split(t, sep) == seq![t],
    decreases t.len(),
{
    if t.len() > 0 {
        assert(!t.drop_last().contains(sep)) by {
            if t.drop_last().contains(sep) {
                let i = choose|i: int| 0 <= i < t.drop_last().len() && t.drop_last()[i] == sep;
                assert(t[i] == sep);
            }
        }
        lemma_split_single(t.drop_last(), sep);
        assert(t.last() != sep) by {
            assert(t[t.len() - 1] == t.last());
        }
        assert(t.drop_last().push(t.last()) =~= t);
        assert(seq![t.drop_last()].update(0, t.drop_last().push(t.last())) =~= seq![t]);
    } else {
        assert(t =~= Seq::<char>::empty());
    }
}

/// Splitting at a separator splits the two sides apart.
proof fn lemma_split_concat(x: Seq<char>, y: Seq<char>, sep: char)
    ensures
        spec_split(x + seq![sep] + y, sep) == spec_split(x, sep) + spec_split(y, sep),
    decreases y.len(),
{
    let xs = x + seq![sep];
    if y.len() == 0 {
        assert(xs + y =~= xs);
        assert(xs.drop_last() =~= x);
        assert(spec_split(x, sep).push(Seq::empty()) =~= spec_split(x, sep) + seq![
            Seq::<char>::empty(),
        ]);
    } else {
        let y1 = y.drop_last();
        lemma_split_concat(x, y1, sep);
        lemma_split_nonempty(y1, sep);
        assert((xs + y).drop_last() =~= xs + y1);
        assert((xs + y).last() == y.last());
        let p = spec_split(xs + y1, sep);
        let q = spec_split(y1, sep);
        if y.last() == sep {
            assert(p.push(Seq::empty()) =~= spec_split(x, sep) + q.push(Seq::empty()));
        } else {
            assert(p.update(p.len() - 1, p.last().push(y.last())) =~= spec_split(x, sep) + q.update(
                q.len() - 1,
                q.last().push(y.last()),
            ));
        }
    }
}

/// The pieces of a list after the first, each with a space in front.
pub open spec fn spaced(p: Seq<Seq<char>>) -> Seq<Seq<char>> {
    Seq::new(
        p.len(),
        |i: int|
            if i == 0 {
                p[0]
            } else {
                seq![' '] + p[i]
            },
    )
}

/// Splitting a list joined with ", " at the commas gives the pieces back, each
/// after the first with its leading space, when no piece holds a comma.
proof fn lemma_split_join(p: Seq<Seq<char>>)
    requires
        p.len() >= 1,
        forall|i: int| 0 <= i < p.len() ==> !(#[trigger] p[i]).contains(','),
    ensures
        spec_split(spec_join(p, ", "@), ',') == spaced(p),
    decreases p.len(),
{
    reveal_strlit(", ");
    if p.len() == 1 {
        lemma_split_single(p[0], ',');
        assert(spaced(p) =~= seq![p[0]]);
    } else {
        let q = p.drop_last();
        lemma_split_join(q);
        let t = p.last();
        assert(!(seq![' '] + t).contains(',')) by {
            if (seq![' '] + t).contains(',') {
                let i = choose|i: int| 0 <= i < (seq![' '] + t).len() && (seq![' '] + t)[i] == ',';
                assert(t[i - 1] == ',');
                assert(t.contains(','));
            }
        }
        lemma_split_single(seq![' '] + t, ',');
        assert(spec_join(p, ", "@) =~= spec_join(q, ", "@) + seq![','] + (seq![' '] + t));
        lemma_split_concat(spec_join(q, ", "@), seq![' '] + t, ',');
        assert(spaced(q) + seq![seq![' '] + t] =~= spaced(p));
    }
}

/// The pieces of a split hold no separator.
proof fn lemma_split_pieces(s: Seq<char>, sep: char)
    ensures
        forall|i: int|
            0 <= i < spec_split(s, sep).len() ==> !(#[trigger] spec_split(s, sep)[i]).contains(sep),
    decreases s.len(),
{
    if s.len() > 0 {
        lemma_split_pieces(s.drop_last(), sep);
        lemma_split_nonempty(s.drop_last(), sep);
        let p = spec_split(s.drop_last(), sep);
        if s.last() != sep {
            let u = p.last().push(s.last());
            assert(!u.contains(sep)) by {
                if u.contains(sep) {
                    let k = choose|k: int| 0 <= k < u.len() && u[k] == sep;
                    if k < p.last().len() {
                        assert(p[p.len() - 1][k] == sep);
                        assert(p[p.len() - 1].contains(sep));
                    }
                }
            }
        }
    }
}

/// Normalizing a normalized list changes nothing: its items are already trimmed
/// and separated by a comma and a space.
pub proof fn lemma_normalize_list_idempotent(s: Seq<char>)
    ensures
        spec_normalize_list(spec_normalize_list(s)) == spec_normalize_list(s),
{
    let p = trim_all(spec_split(s, ','));
    lemma_split_nonempty(s, ',');
    lemma_split_pieces(s, ',');
    assert forall|i: int| 0 <= i < p.len() implies is_trimmed(#[trigger] p[i]) && !p[i].contains(
        ',',
    ) by {
        lemma_trim_trimmed(spec_split(s, ',')[i], ',');
    }
    lemma_split_join(p);
    assert forall|i: int| 0 <= i < p.len() implies spec_trim(#[trigger] spaced(p)[i]) == p[i] by {
        lemma_trim_of_trimmed(p[i]);
    }
    assert(trim_all(spaced(p)) =~= p);
}

/// The decimal digit character for `d` (0 to 9).
pub open spec fn spec_digit_char(d: int) -> char {
    if d == 0 {
        '0'
    } else if d == 1 {
        '1'
    } else if d == 2 {
        '2'
    } else if d == 3 {
        '3'
    } else if d == 4 {
        '4'
    } else if d == 5 {
        '5'
    } else if d == 6 {
        '6'
    } else if d == 7 {
        '7'
    } else if d == 8 {
        '8'
    } else if d == 9 {
        '9'
    } else {
        '?'
    }
}

/// Decimal digits of a natural number, most significant first.
pub open spec fn spec_digits(n: nat) -> Seq<char>
    decreases n,
{
    if n < 10 {
        seq![spec_digit_char(n as int)]
    } else {
        spec_digits(n / 10).push(spec_digit_char((n % 10) as int))
    }
}

/// Decimal text of an integer, with a leading minus sign when negative.
pub open spec fn spec_decimal(v: int) -> Seq<char> {
    if v < 0 {
        "-"@ + spec_digits((-v) as nat)
    } else {
        spec_digits(v as nat)
    }
}

fn digit_text(d: u64) -> (r: &'static str)
    requires
        d < 10,
    ensures
        r@ == seq![spec_digit_char(d as int)],
{
    if d == 0 {
        proof {
            reveal_strlit("0");
        }
        "0"
    } else if d == 1 {
        proof {
            reveal_strlit("1");
        }
        "1"
    } else if d == 2 {
        proof {
            reveal_strlit("2");
        }
        "2"
    } else if d == 3 {
        proof {
            reveal_strlit("3");
        }
        "3"
    } else if d == 4 {
        proof {
            reveal_strlit("4");
        }
        "4"
    } else if d == 5 {
        proof {
            reveal_strlit("5");
        }
        "5"
    } else if d == 6 {
        proof {
            reveal_strlit("6");
        }
        "6"
    } else if d == 7 {
        proof {
            reveal_strlit("7");
        }
        "7"
    } else if d == 8 {
        proof {
            reveal_strlit("8");
        }
        "8"
    } else if d == 9 {
        proof {
            reveal_strlit("9");
        }
        "9"
    } else {
        proof {
            reveal_strlit("?");
        }
        "?"
    }
}

fn digits(n: u64) -> (r: String)
    ensures
        r@ == spec_digits(n as nat),
    decreases n,
{
    if n < 10 {
        owned(digit_text(n))
    } else {
        let mut s = digits(n / 10);
        s.append(digit_text(n % 10));
        s
    }
}

/// Decimal text of a signed integer.
pub fn decimal(v: i64) -> (r: String)
    ensures
        r@ == spec_decimal(v as int),
{
    if v < 0 {
        let m: u64 = if v == i64::MIN {
            0x8000_0000_0000_0000u64
        } else {
            (-v) as u64
        };
        let mut s = owned("-");
        s.append(digits(m).as_str());
        s
    } else {
        digits(v as u64)
    }
}

/// `t` occurs in `s` starting at position `i`.
pub open spec fn occurs_at(s: Seq<char>, t: Seq<char>, i: int) -> bool {
    0 <= i && i + t.len() <= s.len() && s.subrange(i, i + t.len()) == t
}

/// `t` occurs somewhere in `s` (the empty text occurs everywhere).
pub open spec fn spec_contains(s: Seq<char>, t: Seq<char>) -> bool {
    exists|i: int| occurs_at(s, t, i)
}

fn occurs_at_exec(s: &Vec<char>, t: &Vec<char>, i: usize) -> (r: bool)
    requires
        i + t@.len() <= s@.len(),
    ensures
        r == occurs_at(s@, t@, i as int),
{
    let n = s.len();
    let mut k: usize = 0;
    while k < t.len()
        invariant
            n == s@.len(),
            i + t@.len() <= n,
            k <= t@.len(),
            forall|j: int| 0 <= j < k ==> s@[i + j] == t@[j],
        decreases t@.len() - k,
    {
        if s[i + k] != t[k] {
            assert(s@.subrange(i as int, i + t@.len())[k as int] != t@[k as int]);
            return false;
        }
        k = k + 1;
    }
    assert(s@.subrange(i as int, i + t@.len()) =~= t@);
    true
}

/// Whether `term` occurs in `s`.
pub fn str_contains(s: &str, term: &str) -> (r: bool)
    ensures
        r == spec_contains(s@, term@),
{
    let sc = crate::nasr::phone::chars_of(s);
    let tc = crate::nasr::phone::chars_of(term);
    if tc.len() > sc.len() {
        assert forall|i: int| !occurs_at(s@, term@, i) by {}
        return false;
    }
    let last = sc.len() - tc.len();
    let mut i: usize = 0;
    loop
        invariant
            sc@ == s@,
            tc@ == term@,
            last + tc@.len() == sc@.len(),
            i <= last,
            forall|j: int| 0 <= j < i ==> !occurs_at(s@, term@, j),
        decreases last - i,
    {
        if occurs_at_exec(&sc, &tc, i) {
            return true;
        }
        if i == last {
            assert forall|j: int| !occurs_at(s@, term@, j) by {
                if 0 <= j && j < i {
                } else if j == i {
                } else {
                }
            }
            return false;
        }
        i = i + 1;
    }
}

/// Lexicographic order of texts by character code (the order of `str`'s `Ord`).
pub open spec fn lex_le(a: Seq<char>, b: Seq<char>) -> bool
    decreases a.len(),
{
    if a.len() == 0 {
        true
    } else if b.len() == 0 {
        false
    } else if a[0] < b[0] {
        true
    } else if a[0] > b[0] {
        false
    } else {
        lex_le(a.drop_first(), b.drop_first())
    }
}

/// Any two texts are ordered one way or the other.
pub proof fn lemma_lex_total(a: Seq<char>, b: Seq<char>)
    ensures
        lex_le(a, b) || lex_le(b, a),
    decreases a.len(),
{
    if a.len() > 0 && b.len() > 0 && a[0] == b[0] {
        lemma_lex_total(a.drop_first(), b.drop_first());
    }
}

/// The order is transitive.
pub proof fn lemma_lex_transitive(a: Seq<char>, b: Seq<char>, c: Seq<char>)
    requires
        lex_le(a, b),
        lex_le(b, c),
    ensures
        lex_le(a, c),
    decreases a.len(),
{
    if a.len() > 0 && b.len() > 0 && c.len() > 0 && a[0] == b[0] && b[0] == c[0] {
        lemma_lex_transitive(a.drop_first(), b.drop_first(), c.drop_first());
    }
}

/// `a` comes before `b` at position `k`: they agree before `k` and `a[k] < b[k]`.
pub open spec fn differs_lower_at(a: Seq<char>, b: Seq<char>, k: int) -> bool {
    0 <= k < a.len() && k < b.len() && a.take(k) == b.take(k) && a[k] < b[k]
}

/// The order of names is the lexicographic order of texts, whatever their
/// lengths: `a` comes first (or equal) exactly when `a` is a prefix of `b`, or
/// at the first position where they differ `a` has the lower character.
pub proof fn lemma_lex_le_characterized(a: Seq<char>, b: Seq<char>)
    ensures
        lex_le(a, b) <==> (a.is_prefix_of(b) || exists|k: int| differs_lower_at(a, b, k)),
    decreases a.len(),
{
    if a.len() == 0 {
        assert(a =~= b.subrange(0, 0));
    } else if b.len() == 0 {
        assert(!a.is_prefix_of(b));
        assert(forall|k: int| !differs_lower_at(a, b, k));
    } else if a[0] < b[0] {
        assert(a.take(0) =~= b.take(0));
        assert(differs_lower_at(a, b, 0));
    } else if a[0] > b[0] {
        assert(!a.is_prefix_of(b)) by {
            if a.is_prefix_of(b) {
                assert(a[0] == b.subrange(0, a.len() as int)[0]);
            }
        }
        assert forall|k: int| !differs_lower_at(a, b, k) by {
            if differs_lower_at(a, b, k) && k > 0 {
                assert(a.take(k)[0] == b.take(k)[0]);
            }
        }
    } else {
        let a1 = a.drop_first();
        let b1 = b.drop_first();
        lemma_lex_le_characterized(a1, b1);
        assert(a1.is_prefix_of(b1) <==> a.is_prefix_of(b)) by {
            if a1.is_prefix_of(b1) {
                assert forall|i: int| 0 <= i < a.len() implies a[i] == b.subrange(0, a.len() as int)[i] by {
                    if i > 0 {
                        assert(a[i] == a1[i - 1]);
                        assert(a1[i - 1] == b1.subrange(0, a1.len() as int)[i - 1]);
                    }
                }
                assert(a =~= b.subrange(0, a.len() as int));
            }
            if a.is_prefix_of(b) {
                assert(a1 =~= b1.subrange(0, a1.len() as int));
            }
        }
        assert((exists|k: int| differs_lower_at(a1, b1, k)) <==> (exists|k: int|
            differs_lower_at(a, b, k))) by {
            if exists|k: int| differs_lower_at(a1, b1, k) {
                let k = choose|k: int| differs_lower_at(a1, b1, k);
                assert(a.take(k + 1) =~= seq![a[0]] + a1.take(k));
                assert(b.take(k + 1) =~= seq![b[0]] + b1.take(k));
                assert(differs_lower_at(a, b, k + 1));
            }
            if exists|k: int| differs_lower_at(a, b, k) {
                let k = choose|k: int| differs_lower_at(a, b, k);
                assert(k > 0);
                assert(a1.take(k - 1) =~= a.take(k).drop_first());
                assert(b1.take(k - 1) =~= b.take(k).drop_first());
                assert(differs_lower_at(a1, b1, k - 1));
            }
        }
    }
}

/// Compare two texts in lexicographic character order.
pub fn lex_le_exec(a: &str, b: &str) -> (r: bool)
    ensures
        r == lex_le(a@, b@),
{
    let ac = crate::nasr::phone::chars_of(a);
    let bc = crate::nasr::phone::chars_of(b);
    let mut i: usize = 0;
    assert(a@.skip(0) =~= a@);
    assert(b@.skip(0) =~= b@);
    while i < ac.len() && i < bc.len() && ac[i] == bc[i]
        invariant
            ac@ == a@,
            bc@ == b@,
            i <= ac@.len(),
            i <= bc@.len(),
            lex_le(a@, b@) == lex_le(a@.skip(i as int), b@.skip(i as int)),
        decreases ac@.len() - i,
    {
        assert(a@.skip(i as int).drop_first() =~= a@.skip(i + 1));
        assert(b@.skip(i as int).drop_first() =~= b@.skip(i + 1));
        i = i + 1;
    }
    if i == ac.len() {
        return true;
    }
    if i == bc.len() {
        return false;
    }
    assert(a@.skip(i as int)[0] == a@[i as int]);
    assert(b@.skip(i as int)[0] == b@[i as int]);
    ac[i] < bc[i]
}

/// A text occurs at the end of what it ends.
pub proof fn lemma_contains_end(x: Seq<char>, t: Seq<char>)
    ensures
        spec_contains(x + t, t),
{
    assert((x + t).subrange(x.len() as int, (x.len() + t.len()) as int) =~= t);
    assert(occurs_at(x + t, t, x.len() as int));
}

/// What occurs in a text occurs in it with more appended.
pub proof fn lemma_contains_append(s: Seq<char>, t: Seq<char>, y: Seq<char>)
    requires
        spec_contains(s, t),
    ensures
        spec_contains(s + y, t),
{
    let i = choose|i: int| occurs_at(s, t, i);
    assert((s + y).subrange(i, i + t.len()) =~= s.subrange(i, i + t.len()));
    assert(occurs_at(s + y, t, i));
}

/// What the standard library's `str::to_uppercase` returns for `s`.
pub uninterp spec fn spec_to_uppercase(s: Seq<char>) -> Seq<char>;

/// `str::to_uppercase`: the contract says only that the result is the one
/// `spec_to_uppercase` names for the argument; the Unicode case mapping is not
/// restated here.
#[verifier::external_body]
pub(crate) fn to_uppercase(s: &str) -> (r: String)
    ensures
        r@ == spec_to_uppercase(s@),
{
    s.to_uppercase()
}

/// A search term as looked up: white space trimmed, then in upper case.
pub open spec fn spec_normalize_term(s: Seq<char>) -> Seq<char> {
    spec_to_uppercase(spec_trim(s))
}

/// Trim a search term and put it in upper case.
pub fn normalize_term(s: &str) -> (r: String)
    ensures
        r@ == spec_normalize_term(s@),
{
    let t = trim(s);
    to_uppercase(t.as_str())
}

} // verus!
