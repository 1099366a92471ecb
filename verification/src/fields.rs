//! The fields of an event: a map from field names to JSON values, kept in
//! ascending order of the names so that equal maps look alike wherever they
//! came from.

use vstd::prelude::*;
use serde_json::Value;

verus! {

/// `serde_json::Value`, a JSON value; the library stores and hands back such
/// values without looking inside them.
#[verifier::external_type_specification]
#[verifier::external_body]
pub struct ExJsonValue(serde_json::Value);

/// A copy of a JSON value.
///
/// Wraps `<serde_json::Value as Clone>::clone`, which serde_json derives: the
/// copy equals the value it was made from.
#[verifier::external_body]
pub(crate) fn clone_value(v: &Value) -> (r: Value)
    ensures
        r == *v,
{
    v.clone()
}

/// Whether `a` sorts before `b`: lexicographic order of the characters,
/// each compared by its code point (the order of `str`).
pub open spec fn key_less(a: Seq<char>, b: Seq<char>) -> bool
    decreases a.len(),
{
    if b.len() == 0 {
        false
    } else if a.len() == 0 {
        true
    } else if a[0] != b[0] {
        (a[0] as int) < (b[0] as int)
    } else {
        key_less(a.drop_first(), b.drop_first())
    }
}

/// No name sorts before itself.
pub proof fn lemma_key_less_irreflexive(a: Seq<char>)
    ensures
        !key_less(a, a),
    decreases a.len(),
{
    if a.len() > 0 {
        lemma_key_less_irreflexive(a.drop_first());
    }
}

/// The order is transitive.
pub proof fn lemma_key_less_transitive(a: Seq<char>, b: Seq<char>, c: Seq<char>)
    requires
        key_less(a, b),
        key_less(b, c),
    ensures
        key_less(a, c),
    decreases a.len(),
{
    if a.len() > 0 && b.len() > 0 && c.len() > 0 && a[0] == b[0] && b[0] == c[0] {
        lemma_key_less_transitive(a.drop_first(), b.drop_first(), c.drop_first());
    }
}

/// Of two different names, one sorts before the other.
pub proof fn lemma_key_less_total(a: Seq<char>, b: Seq<char>)
    requires
        a != b,
    ensures
        key_less(a, b) || key_less(b, a),
    decreases a.len(),
{
    if a.len() > 0 && b.len() > 0 {
        if a[0] == b[0] {
            if a.drop_first() == b.drop_first() {
                assert(a =~= seq![a[0]] + a.drop_first());
                assert(b =~= seq![b[0]] + b.drop_first());
            }
            lemma_key_less_total(a.drop_first(), b.drop_first());
        } else {
            assert((a[0] as int) != (b[0] as int));
        }
    } else if a.len() == 0 && b.len() == 0 {
        assert(a =~= b);
    }
}

/// Whether `a < b` for two strings.
///
/// Wraps `<str as PartialOrd>::lt`. The standard library documents that
/// strings are ordered lexicographically by their bytes, which orders Unicode
/// code points by their positions in the code charts; the contract states that
/// order over the characters.
#[verifier::external_body]
fn str_less(a: &str, b: &str) -> (r: bool)
    ensures
        r == key_less(a@, b@),
{
    a < b
}

/// Whether the names of `s` ascend strictly.
pub open spec fn strictly_sorted(s: Seq<(Seq<char>, Value)>) -> bool {
    forall|i: int, j: int| 0 <= i < j < s.len() ==> key_less(s[i].0, s[j].0)
}

/// The map that a sequence of (name, value) pairs holds, later pairs
/// overriding earlier ones of the same name.
pub open spec fn entries_map(s: Seq<(Seq<char>, Value)>) -> Map<Seq<char>, Value>
    decreases s.len(),
{
    if s.len() == 0 {
        Map::empty()
    } else {
        entries_map(s.drop_last()).insert(s.last().0, s.last().1)
    }
}

/// A name is in the map exactly when some pair carries it.
proof fn lemma_map_dom(s: Seq<(Seq<char>, Value)>, k: Seq<char>)
    ensures
        entries_map(s).contains_key(k) <==> exists|i: int| 0 <= i < s.len() && s[i].0 == k,
        entries_map(s).dom().finite(),
    decreases s.len(),
{
    if s.len() > 0 {
        let t = s.drop_last();
        lemma_map_dom(t, k);
        if entries_map(s).contains_key(k) && s.last().0 != k {
            let i = choose|i: int| 0 <= i < t.len() && t[i].0 == k;
            assert(s[i].0 == k);
        }
        if exists|i: int| 0 <= i < s.len() && s[i].0 == k {
            let i = choose|i: int| 0 <= i < s.len() && s[i].0 == k;
            if i < s.len() - 1 {
                assert(t[i].0 == k);
            }
        }
    }
}

/// The (name, value) pairs of a vector of owned pairs.
pub open spec fn entries_of(v: Seq<(String, Value)>) -> Seq<(Seq<char>, Value)> {
    v.map_values(|e: (String, Value)| (e.0@, e.1))
}

/// In a strictly sorted sequence a name occurs at one position only.
proof fn lemma_sorted_index(s: Seq<(Seq<char>, Value)>, n: int)
    requires
        strictly_sorted(s),
        0 <= n < s.len(),
    ensures
        entries_map(s).contains_key(s[n].0),
        entries_map(s)[s[n].0] == s[n].1,
    decreases s.len(),
{
    let t = s.drop_last();
    if n < s.len() - 1 {
        assert(strictly_sorted(t));
        lemma_sorted_index(t, n);
        assert(key_less(s[n].0, s[s.len() - 1].0));
        if s[n].0 == s.last().0 {
            lemma_key_less_irreflexive(s[n].0);
        }
    }
}

/// The fields of an event: names mapped to JSON values, held in ascending
/// order of the names.
#[derive(Debug, PartialEq)]
pub struct Fields {
    entries: Vec<(String, Value)>,
}

impl View for Fields {
    type V = Map<Seq<char>, Value>;

    /// The fields as a map from names to values.
    open spec fn view(&self) -> Map<Seq<char>, Value> {
        entries_map(self.entry_seq())
    }
}

impl Fields {
    #[verifier::type_invariant]
    spec fn well_formed(self) -> bool {
        strictly_sorted(self.entry_seq())
    }

    /// The (name, value) pairs in ascending order of the names.
    pub closed spec fn entry_seq(self) -> Seq<(Seq<char>, Value)> {
        entries_of(self.entries@)
    }

    /// No fields.
    pub fn new() -> (f: Fields)
        ensures
            f.entry_seq() == Seq::<(Seq<char>, Value)>::empty(),
            f@ == Map::<Seq<char>, Value>::empty(),
    {
        let f = Fields { entries: Vec::new() };
        assert(f.entry_seq() =~= Seq::<(Seq<char>, Value)>::empty());
        assert(f@ =~= Map::<Seq<char>, Value>::empty());
        f
    }

    /// The number of fields.
    pub fn len(&self) -> (n: usize)
        ensures
            n == self.entry_seq().len(),
            n == self@.len(),
    {
        proof {
            use_type_invariant(self);
            lemma_map_len(self.entry_seq());
        }
        self.entries.len()
    }

    /// Whether there are no fields.
    pub fn is_empty(&self) -> (b: bool)
        ensures
            b == (self@.len() == 0),
            b == (self.entry_seq().len() == 0),
    {
        self.len() == 0
    }

    /// The pairs, in ascending order of the names.
    pub fn entries(&self) -> (r: &Vec<(String, Value)>)
        ensures
            r@.map_values(|e: (String, Value)| (e.0@, e.1)) == self.entry_seq(),
            strictly_sorted(self.entry_seq()),
    {
        proof {
            use_type_invariant(self);
        }
        &self.entries
    }

    /// The position of the first pair whose name does not sort before `key`,
    /// and whether that pair is named `key`.
    fn position(&self, key: &str) -> (r: (usize, bool))
        ensures
            r.0 <= self.entry_seq().len(),
            forall|j: int| 0 <= j < r.0 ==> key_less(#[trigger] self.entry_seq()[j].0, key@),
            r.0 < self.entry_seq().len() ==> !key_less(self.entry_seq()[r.0 as int].0, key@),
            r.1 == (r.0 < self.entry_seq().len() && self.entry_seq()[r.0 as int].0 == key@),
    {
        proof {
            use_type_invariant(self);
        }
        let n = self.entries.len();
        let mut i: usize = 0;
        while i < n
            invariant
                n == self.entries@.len(),
                i <= n,
                forall|j: int| 0 <= j < i ==> key_less(#[trigger] self.entry_seq()[j].0, key@),
            decreases n - i,
        {
            if !str_less(self.entries[i].0.as_str(), key) {
                let equal = !str_less(key, self.entries[i].0.as_str());
                proof {
                    if !equal {
                        lemma_key_less_irreflexive(key@);
                    } else if self.entry_seq()[i as int].0 != key@ {
                        lemma_key_less_total(self.entry_seq()[i as int].0, key@);
                    }
                }
                return (i, equal);
            }
            i = i + 1;
        }
        (i, false)
    }

    /// Whether a field is named `key`.
    pub fn contains_key(&self, key: &str) -> (b: bool)
        ensures
            b == self@.contains_key(key@),
    {
        let (pos, found) = self.position(key);
        proof {
            use_type_invariant(self);
            self.lemma_absent_or_at(key@, pos as int);
        }
        found
    }

    /// The value of the field named `key`, if there is one.
    pub fn get(&self, key: &str) -> (r: Option<&Value>)
        ensures
            r.is_some() == self@.contains_key(key@),
            r.is_some() ==> *r.unwrap() == self@[key@],
    {
        let (pos, found) = self.position(key);
        proof {
            use_type_invariant(self);
            self.lemma_absent_or_at(key@, pos as int);
        }
        if found {
            Some(&self.entries[pos].1)
        } else {
            None
        }
    }

    /// Where `position` stops, the name is either there or nowhere.
    proof fn lemma_absent_or_at(&self, key: Seq<char>, pos: int)
        requires
            strictly_sorted(self.entry_seq()),
            0 <= pos <= self.entry_seq().len(),
            forall|j: int| 0 <= j < pos ==> key_less(#[trigger] self.entry_seq()[j].0, key),
            pos < self.entry_seq().len() ==> !key_less(self.entry_seq()[pos].0, key),
        ensures
            self@.contains_key(key) == (pos < self.entry_seq().len() && self.entry_seq()[pos].0
                == key),
            pos < self.entry_seq().len() && self.entry_seq()[pos].0 == key ==> self@[key]
                == self.entry_seq()[pos].1,
    {
        let s = self.entry_seq();
        if pos < s.len() && s[pos].0 == key {
            lemma_sorted_index(s, pos);
        } else if self@.contains_key(key) {
            lemma_map_dom(s, key);
            let j = choose|j: int| 0 <= j < s.len() && s[j].0 == key;
            if j < pos {
                lemma_key_less_irreflexive(key);
            } else {
                assert(key_less(s[pos].0, s[j].0));
                if key_less(key, s[pos].0) {
                    lemma_key_less_transitive(key, s[pos].0, key);
                    lemma_key_less_irreflexive(key);
                }
                lemma_key_less_total(s[pos].0, key);
            }
        }
    }

    /// Sets the field `key` to `value`, returning the value it replaces.
    pub fn insert(&mut self, key: String, value: Value) -> (old_value: Option<Value>)
        ensures
            final(self)@ == old(self)@.insert(key@, value),
            old_value == if old(self)@.contains_key(key@) {
                Some(old(self)@[key@])
            } else {
                None
            },
    {
        proof {
            use_type_invariant(&*self);
        }
        let (pos, found) = self.position(key.as_str());
        proof {
            self.lemma_absent_or_at(key@, pos as int);
        }
        let ghost old_seq = self.entry_seq();
        let ghost k = key@;
        let mut entries = Vec::new();
        std::mem::swap(&mut entries, &mut self.entries);
        assert(entries_of(entries@) == old_seq);
        if found {
            let (_name, previous) = entries.remove(pos);
            entries.insert(pos, (key, value));
            proof {
                let s = entries_of(entries@);
                assert(s =~= old_seq.update(pos as int, (k, value)));
                assert forall|i: int, j: int| 0 <= i < j < s.len() implies key_less(
                    s[i].0,
                    s[j].0,
                ) by {
                    assert(s[i].0 == old_seq[i].0);
                    assert(s[j].0 == old_seq[j].0);
                }
            }
            self.entries = entries;
            proof {
                lemma_view_update(old_seq, self.entry_seq(), pos as int, k, value);
            }
            Some(previous)
        } else {
            entries.insert(pos, (key, value));
            proof {
                let s = entries_of(entries@);
                assert(s =~= old_seq.insert(pos as int, (k, value)));
                if pos < old_seq.len() {
                    assert(!key_less(old_seq[pos as int].0, k));
                    lemma_key_less_total(old_seq[pos as int].0, k);
                    assert(key_less(k, old_seq[pos as int].0));
                }
                assert forall|j: int| pos < j < s.len() implies key_less(k, #[trigger] s[j].0) by {
                    assert(s[j] == old_seq[j - 1]);
                    if j - 1 > pos {
                        lemma_key_less_transitive(k, old_seq[pos as int].0, s[j].0);
                    }
                }
                assert forall|i: int| 0 <= i < pos implies key_less(#[trigger] s[i].0, k) by {
                    assert(s[i] == old_seq[i]);
                }
                assert forall|i: int, j: int| 0 <= i < j < s.len() implies key_less(
                    s[i].0,
                    s[j].0,
                ) by {
                    if i < pos && j > pos {
                        lemma_key_less_transitive(s[i].0, k, s[j].0);
                    } else if i < pos && j < pos {
                        assert(s[i] == old_seq[i] && s[j] == old_seq[j]);
                    } else if i > pos {
                        assert(s[i] == old_seq[i - 1] && s[j] == old_seq[j - 1]);
                    }
                }
            }
            self.entries = entries;
            proof {
                lemma_view_insert(old_seq, self.entry_seq(), pos as int, k, value);
            }
            None
        }
    }
}

proof fn lemma_view_update(
        old_seq: Seq<(Seq<char>, Value)>,
        s: Seq<(Seq<char>, Value)>,
        pos: int,
        k: Seq<char>,
        value: Value,
    )
        requires
            strictly_sorted(old_seq),
            0 <= pos < old_seq.len(),
            old_seq[pos].0 == k,
            s == old_seq.update(pos, (k, value)),
            strictly_sorted(s),
        ensures
            entries_map(s) =~= entries_map(old_seq).insert(k, value),
    {
        assert forall|key: Seq<char>| #[trigger]
            entries_map(s).contains_key(key) == entries_map(old_seq).insert(
                k,
                value,
            ).contains_key(key) by {
            lemma_map_dom(s, key);
            lemma_map_dom(old_seq, key);
            if entries_map(old_seq).contains_key(key) {
                let j = choose|j: int| 0 <= j < old_seq.len() && old_seq[j].0 == key;
                assert(s[j].0 == key);
            }
            if entries_map(s).contains_key(key) {
                let j = choose|j: int| 0 <= j < s.len() && s[j].0 == key;
                assert(old_seq[j].0 == key);
            }
        }
        assert forall|key: Seq<char>| #[trigger] entries_map(s).contains_key(key) implies entries_map(
            s,
        )[key] == entries_map(old_seq).insert(k, value)[key] by {
            lemma_map_dom(s, key);
            lemma_map_dom(old_seq, key);
            let j = choose|j: int| 0 <= j < s.len() && s[j].0 == key;
            lemma_sorted_index(s, j);
            if j != pos {
                lemma_sorted_index(old_seq, j);
                if key == k {
                    if j < pos {
                        assert(key_less(s[j].0, s[pos].0));
                    } else {
                        assert(key_less(s[pos].0, s[j].0));
                    }
                    lemma_key_less_irreflexive(k);
                }
            }
        }
    }

proof fn lemma_view_insert(
        old_seq: Seq<(Seq<char>, Value)>,
        s: Seq<(Seq<char>, Value)>,
        pos: int,
        k: Seq<char>,
        value: Value,
    )
        requires
            strictly_sorted(old_seq),
            0 <= pos <= old_seq.len(),
            s == old_seq.insert(pos, (k, value)),
            strictly_sorted(s),
        ensures
            entries_map(s) =~= entries_map(old_seq).insert(k, value),
    {
        assert forall|key: Seq<char>| #[trigger]
            entries_map(s).contains_key(key) == entries_map(old_seq).insert(
                k,
                value,
            ).contains_key(key) by {
            lemma_map_dom(s, key);
            lemma_map_dom(old_seq, key);
            if entries_map(old_seq).contains_key(key) {
                let j = choose|j: int| 0 <= j < old_seq.len() && old_seq[j].0 == key;
                if j < pos {
                    assert(s[j].0 == key);
                } else {
                    assert(s[j + 1].0 == key);
                }
            }
            if key == k {
                assert(s[pos].0 == key);
            }
            if entries_map(s).contains_key(key) {
                let j = choose|j: int| 0 <= j < s.len() && s[j].0 == key;
                if j < pos {
                    assert(old_seq[j].0 == key);
                } else if j > pos {
                    assert(old_seq[j - 1].0 == key);
                }
            }
        }
        assert forall|key: Seq<char>| #[trigger] entries_map(s).contains_key(key) implies entries_map(
            s,
        )[key] == entries_map(old_seq).insert(k, value)[key] by {
            lemma_map_dom(s, key);
            lemma_map_dom(old_seq, key);
            let j = choose|j: int| 0 <= j < s.len() && s[j].0 == key;
            lemma_sorted_index(s, j);
            if j < pos {
                assert(s[j] == old_seq[j]);
                lemma_sorted_index(old_seq, j);
                assert(key_less(s[j].0, s[pos].0));
                if key == k {
                    lemma_key_less_irreflexive(k);
                }
            } else if j > pos {
                assert(s[j] == old_seq[j - 1]);
                lemma_sorted_index(old_seq, j - 1);
                assert(key_less(s[pos].0, s[j].0));
                if key == k {
                    lemma_key_less_irreflexive(k);
                }
            }
        }
    }

impl Clone for Fields {
    /// A copy with the same names and values.
    fn clone(&self) -> (c: Self)
        ensures
            c.entry_seq() == self.entry_seq(),
            c@ == self@,
    {
        proof {
            use_type_invariant(self);
        }
        let n = self.entries.len();
        let mut entries: Vec<(String, Value)> = Vec::new();
        let mut i: usize = 0;
        while i < n
            invariant
                n == self.entries@.len(),
                i <= n,
                entries@.len() == i,
                entries_of(entries@) == entries_of(self.entries@).take(i as int),
            decreases n - i,
        {
            let name = self.entries[i].0.clone();
            let value = clone_value(&self.entries[i].1);
            entries.push((name, value));
            assert(entries@[i as int] == (name, value));
            assert(entries_of(entries@)[i as int] == entries_of(self.entries@)[i as int]);
            assert(entries_of(entries@) =~= entries_of(self.entries@).take(i + 1));
            i = i + 1;
        }
        assert(entries_of(entries@) =~= entries_of(self.entries@));
        Fields { entries }
    }
}

/// A strictly sorted sequence holds as many fields as its map.
proof fn lemma_map_len(s: Seq<(Seq<char>, Value)>)
    requires
        strictly_sorted(s),
    ensures
        entries_map(s).len() == s.len(),
    decreases s.len(),
{
    if s.len() > 0 {
        let t = s.drop_last();
        assert(strictly_sorted(t));
        lemma_map_len(t);
        let k = s.last().0;
        lemma_map_dom(t, k);
        if entries_map(t).contains_key(k) {
            let j = choose|j: int| 0 <= j < t.len() && t[j].0 == k;
            assert(key_less(s[j].0, s[s.len() - 1].0));
            lemma_key_less_irreflexive(k);
        }
    }
}

/// Law: after a field is set, reading it gives the value set, and every
/// other name reads as before.
pub proof fn lemma_read_after_insert(
    before: Fields,
    after: Fields,
    key: Seq<char>,
    value: Value,
    other: Seq<char>,
)
    requires
        after@ == before@.insert(key, value),
    ensures
        after@.contains_key(key),
        after@[key] == value,
        other != key ==> after@.contains_key(other) == before@.contains_key(other),
        other != key && before@.contains_key(other) ==> after@[other] == before@[other],
{
}

/// In a strictly sorted sequence the last name is not among the earlier
/// pairs.
proof fn lemma_last_absent(s: Seq<(Seq<char>, Value)>)
    requires
        strictly_sorted(s),
        s.len() > 0,
    ensures
        !entries_map(s.drop_last()).contains_key(s.last().0),
{
    let t = s.drop_last();
    lemma_map_dom(t, s.last().0);
    if entries_map(t).contains_key(s.last().0) {
        let j = choose|j: int| 0 <= j < t.len() && t[j].0 == s.last().0;
        assert(key_less(s[j].0, s[s.len() - 1].0));
        lemma_key_less_irreflexive(s.last().0);
    }
}

/// Law: a map of fields has exactly one strictly sorted sequence of pairs.
/// Two collections of fields that map the same names to the same values hold
/// the same pairs in the same order, whatever order the fields were inserted
/// in.
pub proof fn lemma_sorted_entries_determined(
    s: Seq<(Seq<char>, Value)>,
    t: Seq<(Seq<char>, Value)>,
)
    requires
        strictly_sorted(s),
        strictly_sorted(t),
        entries_map(s) == entries_map(t),
    ensures
        s == t,
    decreases s.len(),
{
    if s.len() == 0 || t.len() == 0 {
        if t.len() > 0 {
            lemma_map_dom(t, t[0].0);
            lemma_map_dom(s, t[0].0);
        }
        if s.len() > 0 {
            lemma_map_dom(s, s[0].0);
            lemma_map_dom(t, s[0].0);
        }
        assert(s =~= t);
    } else {
        let ks = s.last().0;
        let kt = t.last().0;
        lemma_map_dom(s, ks);
        lemma_map_dom(t, ks);
        lemma_map_dom(s, kt);
        lemma_map_dom(t, kt);
        assert(s[s.len() - 1].0 == ks);
        assert(t[t.len() - 1].0 == kt);
        if ks != kt {
            let j = choose|j: int| 0 <= j < t.len() && t[j].0 == ks;
            assert(key_less(t[j].0, t[t.len() - 1].0));
            let i = choose|i: int| 0 <= i < s.len() && s[i].0 == kt;
            assert(key_less(s[i].0, s[s.len() - 1].0));
            lemma_key_less_transitive(ks, kt, ks);
            lemma_key_less_irreflexive(ks);
        }
        assert(entries_map(s)[ks] == s.last().1);
        assert(entries_map(t)[kt] == t.last().1);
        assert(s.last() == t.last());
        lemma_last_absent(s);
        lemma_last_absent(t);
        assert(entries_map(s.drop_last()) =~= entries_map(s).remove(ks));
        assert(entries_map(t.drop_last()) =~= entries_map(t).remove(ks));
        assert(strictly_sorted(s.drop_last()));
        assert(strictly_sorted(t.drop_last()));
        lemma_sorted_entries_determined(s.drop_last(), t.drop_last());
        assert(s =~= s.drop_last().push(s.last()));
        assert(t =~= t.drop_last().push(t.last()));
    }
}

} // verus!
