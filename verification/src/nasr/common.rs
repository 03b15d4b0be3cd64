//! Pieces shared by the NASR record readers.
use crate::nasr::phone;
use crate::text;
use std::collections::HashMap;
use std::hash::Hash;
use vstd::prelude::*;
use vstd::multiset::Multiset;
use vstd::std_specs::hash::obeys_key_model;

verus! {

broadcast use vstd::std_specs::hash::group_hash_axioms;

/// `"Y"` reads as `"YES"` and `"N"` as `"NO"`; any other flag text is kept.
pub open spec fn spec_yes_no_text(text: Seq<char>) -> Seq<char> {
    if text == "Y"@ {
        "YES"@
    } else if text == "N"@ {
        "NO"@
    } else {
        text
    }
}

/// Expand a yes/no flag.
pub fn get_yes_no_text<'a>(text: &'a str) -> (r: &'a str)
    ensures
        r@ == spec_yes_no_text(text@),
{
    if text::str_eq(text, "Y") {
        "YES"
    } else if text::str_eq(text, "N") {
        "NO"
    } else {
        text
    }
}

/// A value followed by a space and its unit, or nothing when the value is empty.
pub open spec fn spec_unit_text(text: Seq<char>, unit: Seq<char>) -> Seq<char> {
    if text.len() == 0 {
        Seq::empty()
    } else {
        text + " "@ + unit
    }
}

/// Attach a unit to a value.
pub fn get_unit_text(text: &str, unit: &str) -> (r: String)
    ensures
        r@ == spec_unit_text(text@, unit@),
{
    if text.is_empty() {
        return String::new();
    }
    text::concat3(text, " ", unit)
}

/// Collects, for each key, the values pushed under it, in the order pushed.
pub struct HashMapVec<K, V> {
    map: HashMap<K, Vec<V>>,
}

impl<K, V> View for HashMapVec<K, V> {
    type V = Map<K, Seq<V>>;

    closed spec fn view(&self) -> Map<K, Seq<V>> {
        Map::new(|k: K| self.map@.contains_key(k), |k: K| self.map@[k]@)
    }
}

/// The values collected under `key` after `val` is pushed.
pub open spec fn pushed<K, V>(m: Map<K, Seq<V>>, key: K, val: V) -> Seq<V> {
    if m.contains_key(key) {
        m[key].push(val)
    } else {
        seq![val]
    }
}

impl<K: Eq + Hash, V> HashMapVec<K, V> {
    /// An empty collection with room for `size` keys.
    pub fn new(size: usize) -> (r: Self)
        ensures
            r@ == Map::<K, Seq<V>>::empty(),
    {
        let r = Self { map: HashMap::with_capacity(size) };
        assert(r@ =~= Map::<K, Seq<V>>::empty());
        r
    }

    /// Append `val` to the values collected under `key`.
    pub fn push(&mut self, key: K, val: V)
        ensures
            obeys_key_model::<K>() ==> final(self)@ == old(self)@.insert(
                key,
                pushed(old(self)@, key, val),
            ),
    {
        let ghost old_map = self.map@;
        match self.map.remove(&key) {
            Some(mut vec) => {
                vec.push(val);
                self.map.insert(key, vec);
            },
            None => {
                let mut vec = Vec::new();
                vec.push(val);
                self.map.insert(key, vec);
            },
        }
        proof {
            if obeys_key_model::<K>() {
                assert(self@ =~= old(self)@.insert(key, pushed(old(self)@, key, val)));
            }
        }
    }

    /// The collected values, keyed.
    pub fn into_map(self) -> (r: HashMap<K, Vec<V>>)
        ensures
            r@.dom() == self@.dom(),
            forall|k: K| #[trigger] r@.contains_key(k) ==> r@[k]@ == self@[k],
    {
        self.map
    }
}

/// Tags telephone numbers in text.
pub struct PhoneTagger {
    /// Wrap each number in a dialling link as well as in color.
    pub tel_links: bool,
}

impl PhoneTagger {
    /// A tagger that colors numbers without dialling links.
    pub fn new() -> (r: Self)
        ensures
            !r.tel_links,
    {
        Self { tel_links: false }
    }

    /// A tagger that adds dialling links when `tel_links` is set (as on phones).
    pub fn with_tel_links(tel_links: bool) -> (r: Self)
        ensures
            r.tel_links == tel_links,
    {
        Self { tel_links }
    }

    /// The text with each telephone number wrapped in markup.
    pub fn process_text(&self, text: &str) -> (r: String)
        ensures
            r@ == phone::spec_tag_phones(text@, self.tel_links),
    {
        phone::tag_phones(text, self.tel_links)
    }
}

/// Something with a name that search results are ordered by.
pub trait Named {
    /// The name.
    spec fn name_view(&self) -> Seq<char>;

    /// The name.
    fn name_text(&self) -> (r: &str)
        ensures
            r@ == self.name_view(),
    ;
}

/// Ascending by name, in lexicographic character order.
pub open spec fn sorted_by_name<T: Named>(s: Seq<T>) -> bool {
    forall|i: int, j: int|
        0 <= i < j < s.len() ==> text::lex_le(#[trigger] s[i].name_view(), #[trigger] s[j].name_view())
}

/// Inserting an element adds it to the sequence's multiset.
proof fn lemma_insert_to_multiset<A>(s: Seq<A>, p: int, x: A)
    requires
        0 <= p <= s.len(),
    ensures
        s.insert(p, x).to_multiset() =~= s.to_multiset().insert(x),
{
    broadcast use vstd::seq_lib::group_to_multiset_ensures;

    let t = s.insert(p, x);
    t.to_multiset_ensures();
    assert(t.remove(p) =~= s);
    assert(t[p] == x);
    assert(t.contains(x));
    assert(t.to_multiset().count(x) > 0);
}

/// Sort by name, ascending. Items with equal names keep no particular order.
pub fn sort_by_name<T: Named>(items: Vec<T>) -> (r: Vec<T>)
    ensures
        sorted_by_name(r@),
        r@.to_multiset() == items@.to_multiset(),
{
    broadcast use vstd::seq_lib::group_to_multiset_ensures;

    let ghost orig = items@;
    let mut input = items;
    let mut out: Vec<T> = Vec::new();
    assert(out@.to_multiset() =~= Multiset::<T>::empty());
    assert(out@.to_multiset().add(input@.to_multiset()) =~= orig.to_multiset());
    while input.len() > 0
        invariant
            sorted_by_name(out@),
            out@.to_multiset().add(input@.to_multiset()) == orig.to_multiset(),
        decreases input@.len(),
    {
        let ghost old_in = input@;
        let ghost old_out = out@;
        let x = input.remove(0);
        proof {
            old_in.to_multiset_ensures();
        }
        assert(old_in.remove(0).to_multiset() == old_in.to_multiset().remove(old_in[0]));
        assert(old_in.contains(x)) by {
            assert(old_in[0] == x);
        }
        let mut p: usize = 0;
        while p < out.len() && text::lex_le_exec(out[p].name_text(), x.name_text())
            invariant
                out@ == old_out,
                p <= out@.len(),
                forall|k: int| 0 <= k < p ==> text::lex_le(#[trigger] out@[k].name_view(), x.name_view()),
            decreases out@.len() - p,
        {
            p = p + 1;
        }
        proof {
            if p < old_out.len() {
                text::lemma_lex_total(old_out[p as int].name_view(), x.name_view());
            }
            lemma_insert_to_multiset(old_out, p as int, x);
        }
        out.insert(p, x);
        proof {
            let n = out@;
            assert forall|i: int, j: int| 0 <= i < j < n.len() implies text::lex_le(
                #[trigger] n[i].name_view(),
                #[trigger] n[j].name_view(),
            ) by {
                if j < p {
                    assert(n[i] == old_out[i] && n[j] == old_out[j]);
                } else if j == p {
                    assert(n[i] == old_out[i]);
                } else if i < p {
                    assert(n[i] == old_out[i] && n[j] == old_out[j - 1]);
                } else if i == p {
                    assert(n[j] == old_out[j - 1]);
                    if j - 1 > p {
                        assert(text::lex_le(old_out[p as int].name_view(), old_out[j - 1].name_view()));
                        text::lemma_lex_transitive(
                            x.name_view(),
                            old_out[p as int].name_view(),
                            old_out[j - 1].name_view(),
                        );
                    }
                } else {
                    assert(n[i] == old_out[i - 1] && n[j] == old_out[j - 1]);
                }
            }
            assert(out@.to_multiset().add(input@.to_multiset()) =~= orig.to_multiset());
        }
    }
    assert(input@.to_multiset() =~= Multiset::<T>::empty());
    assert(out@.to_multiset() =~= orig.to_multiset());
    out
}

/// Identifiers, in order, of the named entries whose name contains `term`.
pub open spec fn spec_names_containing(names: Seq<(String, u64)>, term: Seq<char>) -> Seq<u64>
    decreases names.len(),
{
    if names.len() == 0 {
        Seq::empty()
    } else if text::spec_contains(names.last().0@, term) {
        spec_names_containing(names.drop_last(), term).push(names.last().1)
    } else {
        spec_names_containing(names.drop_last(), term)
    }
}

/// The record identifiers of the names that contain `term`, in list order.
pub fn names_containing(names: &Vec<(String, u64)>, term: &str) -> (r: Vec<u64>)
    ensures
        r@ == spec_names_containing(names@, term@),
{
    let mut out: Vec<u64> = Vec::new();
    let mut i: usize = 0;
    while i < names.len()
        invariant
            i <= names@.len(),
            out@ == spec_names_containing(names@.take(i as int), term@),
        decreases names@.len() - i,
    {
        assert(names@.take(i + 1).drop_last() =~= names@.take(i as int));
        if text::str_contains(names[i].0.as_str(), term) {
            out.push(names[i].1);
        }
        i = i + 1;
    }
    assert(names@.take(i as int) =~= names@);
    out
}

} // verus!
