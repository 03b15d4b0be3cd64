//! Layout of the choices in the selection dialog: each choice's name and, for
//! choices that end in a parenthesised part, that part in a second column.
use crate::text;
use vstd::prelude::*;

verus! {

/// Position of the last `(` in `s`, if any.
pub open spec fn last_paren(s: Seq<char>) -> Option<int>
    decreases s.len(),
{
    if s.len() == 0 {
        None
    } else if s.last() == '(' {
        Some(s.len() - 1)
    } else {
        last_paren(s.drop_last())
    }
}

/// The two columns of a choice: the name, trimmed, and the trimmed part from the
/// last `(` on, when there is one.
pub open spec fn spec_columns(choice: Seq<char>) -> (Seq<char>, Option<Seq<char>>) {
    match last_paren(choice) {
        Some(p) => (
            text::spec_trim(choice.subrange(0, p)),
            Some(text::spec_trim(choice.subrange(p, choice.len() as int))),
        ),
        None => (text::spec_trim(choice), None),
    }
}

/// Split a choice into its two columns.
pub fn choice_columns(choice: &str) -> (r: (String, Option<String>))
    ensures
        r.0@ == spec_columns(choice@).0,
        match r.1 {
            Some(i) => spec_columns(choice@).1 == Some(i@),
            None => spec_columns(choice@).1 is None,
        },
{
    let n = choice.unicode_len();
    let mut k: usize = n;
    assert(choice@.subrange(0, n as int) =~= choice@);
    while k > 0
        invariant
            n == choice@.len(),
            k <= n,
            last_paren(choice@) == last_paren(choice@.subrange(0, k as int)),
        decreases k,
    {
        if choice.get_char(k - 1) == '(' {
            assert(choice@.subrange(0, k as int).last() == '(');
            let name = text::trim(text::text_slice(choice, 0, k - 1).as_str());
            let info = text::trim(text::text_slice(choice, k - 1, n).as_str());
            assert(choice@.subrange(0, k as int).len() - 1 == k - 1);
            return (name, Some(info));
        }
        assert(choice@.subrange(0, k as int).drop_last() =~= choice@.subrange(0, k - 1));
        k = k - 1;
    }
    assert(choice@.subrange(0, 0) =~= Seq::<char>::empty());
    (text::trim(choice), None)
}

/// The rows of the selection dialog.
pub struct ChoiceRows {
    /// The columns of each choice shown, in order.
    pub rows: Vec<(String, Option<String>)>,
    /// Minimum width of the second column: wide when the first choice shown has
    /// a parenthesised part, narrow otherwise; `None` when no choice is shown.
    pub info_min_width: Option<i32>,
    /// Select the only choice right away.
    pub select_first: bool,
}

/// The choices that are shown: those present.
pub open spec fn shown(choices: Seq<Option<String>>) -> Seq<Seq<char>>
    decreases choices.len(),
{
    if choices.len() == 0 {
        Seq::empty()
    } else {
        match choices.last() {
            Some(c) => shown(choices.drop_last()).push(c@),
            None => shown(choices.drop_last()),
        }
    }
}

/// The view of one laid-out row.
pub open spec fn row_view(r: (String, Option<String>)) -> (Seq<char>, Option<Seq<char>>) {
    (
        r.0@,
        match r.1 {
            Some(i) => Some(i@),
            None => None,
        },
    )
}

/// Width of the second column for a dialog whose first shown choice is `first`.
pub open spec fn spec_info_min_width(first: Seq<char>) -> i32 {
    if last_paren(first) is Some {
        100
    } else {
        4
    }
}

/// Lay out `choices`, skipping those absent.
pub fn layout_choices(choices: &Vec<Option<String>>) -> (r: ChoiceRows)
    ensures
        r.rows@.len() == shown(choices@).len(),
        forall|i: int|
            0 <= i < r.rows@.len() ==> row_view(#[trigger] r.rows@[i]) == spec_columns(
                shown(choices@)[i],
            ),
        r.info_min_width == (if shown(choices@).len() == 0 {
            None
        } else {
            Some(spec_info_min_width(shown(choices@)[0]))
        }),
        r.select_first == (shown(choices@).len() == 1),
{
    let mut rows: Vec<(String, Option<String>)> = Vec::new();
    let mut info_min_width: Option<i32> = None;
    let mut j: usize = 0;
    while j < choices.len()
        invariant
            j <= choices@.len(),
            rows@.len() == shown(choices@.take(j as int)).len(),
            forall|i: int|
                0 <= i < rows@.len() ==> row_view(#[trigger] rows@[i]) == spec_columns(
                    shown(choices@.take(j as int))[i],
                ),
            info_min_width == (if shown(choices@.take(j as int)).len() == 0 {
                None
            } else {
                Some(spec_info_min_width(shown(choices@.take(j as int))[0]))
            }),
        decreases choices@.len() - j,
    {
        assert(choices@.take(j + 1).drop_last() =~= choices@.take(j as int));
        assert(choices@.take(j + 1).last() == choices@[j as int]);
        if let Some(choice) = &choices[j] {
            let (name, info) = choice_columns(choice.as_str());
            if rows.len() == 0 {
                info_min_width = Some(
                    if info.is_some() {
                        100
                    } else {
                        4
                    },
                );
            }
            rows.push((name, info));
        }
        j = j + 1;
    }
    assert(choices@.take(j as int) =~= choices@);
    let select_first = rows.len() == 1;
    ChoiceRows { rows, info_min_width, select_first }
}

} // verus!
