//! Events: a timestamp, a sample rate and key-value fields, the unit of data
//! that is sent to Honeycomb, with their JSON text for the batch API and the
//! content hash that drives sampling.

use vstd::prelude::*;
use serde_json::Value;
use std::hash::{DefaultHasher, Hasher};
use vstd::std_specs::hash::DefaultHasherAdditionalSpecFns;
use std::time::SystemTime;
use vstd::std_specs::convert::IntoSpec;
use vstd::arithmetic::div_mod::{lemma_fundamental_div_mod, lemma_mod_multiples_basic};
use crate::calendar::{format_utc_timestamp, timestamp_text};
use crate::error::{error_message, Error};
use crate::json::{hash_text, hash_tree, json_tree, json_tree_of, text_hash_writes, tree_sorted, tree_writes, JsonTree};
use crate::fields::{clone_value, entries_of, lemma_sorted_entries_determined, strictly_sorted, Fields};
use crate::text::{dec_digits, push_decimal};

verus! {

/// `std::time::SystemTime`, an instant of the system clock.
#[verifier::external_type_specification]
#[verifier::external_body]
pub struct ExSystemTime(std::time::SystemTime);

/// The lower-case hexadecimal digit for `n` (below 16).
pub open spec fn hex_lower(n: int) -> char {
    if n < 10 {
        (48 + n) as char
    } else {
        (87 + n) as char
    }
}

/// How serde_json writes the character `c` inside a JSON string: `"` and
/// `\` behind a backslash; backspace, tab, line feed, form feed and carriage
/// return as `\b`, `\t`, `\n`, `\f`, `\r`; every other character below
/// U+0020 as `\u00` and two lower-case hexadecimal digits; anything else as
/// itself.
pub open spec fn escaped_char(c: char) -> Seq<char> {
    let n = c as u32;
    if c == '"' {
        seq!['\\', '"']
    } else if c == '\\' {
        seq!['\\', '\\']
    } else if n == 8 {
        seq!['\\', 'b']
    } else if n == 9 {
        seq!['\\', 't']
    } else if n == 10 {
        seq!['\\', 'n']
    } else if n == 12 {
        seq!['\\', 'f']
    } else if n == 13 {
        seq!['\\', 'r']
    } else if n < 32 {
        seq!['\\', 'u', '0', '0', hex_lower(n as int / 16), hex_lower(n as int % 16)]
    } else {
        seq![c]
    }
}

/// The characters of `s`, each written as `escaped_char` writes it.
pub open spec fn escaped_text(s: Seq<char>) -> Seq<char>
    decreases s.len(),
{
    if s.len() == 0 {
        Seq::empty()
    } else {
        escaped_text(s.drop_last()) + escaped_char(s.last())
    }
}

/// The JSON string literal that serde_json writes for the text `s`: the
/// escaped text between double quotes.
pub open spec fn json_string_literal(s: Seq<char>) -> Seq<char> {
    seq!['"'] + escaped_text(s) + seq!['"']
}

/// The current time of the system clock.
///
/// Wraps `SystemTime::now`; nothing is stated of the result, which reads the
/// clock.
#[verifier::external_body]
fn current_time() -> SystemTime {
    SystemTime::now()
}

/// The whole seconds and the milliseconds past them from the Unix epoch to
/// the instant `t`, or `None` when `t` lies before the epoch.
pub uninterp spec fn unix_offset(t: SystemTime) -> Option<(u64, u32)>;

/// The whole seconds and the milliseconds past them from the Unix epoch to
/// `t`, or `None` when `t` lies before the epoch.
///
/// Wraps `SystemTime::duration_since(UNIX_EPOCH)`, which fails exactly for
/// instants before the epoch; the milliseconds are those of the duration's
/// `subsec_millis`, below 1000. The result is named `unix_offset`.
#[verifier::external_body]
fn since_unix_epoch(t: &SystemTime) -> (r: Option<(u64, u32)>)
    ensures
        r == unix_offset(*t),
        r matches Some(p) ==> p.1 < 1000,
{
    match t.duration_since(std::time::UNIX_EPOCH) {
        Ok(d) => Some((d.as_secs(), d.subsec_millis())),
        Err(_) => None,
    }
}

/// The ISO 8601 text of the instant `t`: the epoch itself for an instant
/// before it.
pub open spec fn system_time_text(t: SystemTime) -> Seq<char> {
    match unix_offset(t) {
        Some(p) => timestamp_text(p.0 as nat, p.1 as nat),
        None => timestamp_text(0, 0),
    }
}

/// The members of the serde_json value `v` when it is an object, in the
/// object's order (ascending names), or `None` when it is not an object.
pub uninterp spec fn json_object_members(v: Value) -> Option<Seq<(Seq<char>, Value)>>;

/// The members of a JSON object in serde_json's order (ascending names), or
/// `None` when the value is not an object.
///
/// Tells apart the variants of `serde_json::Value` and collects the object's
/// `serde_json::Map` into pairs; the result is named `json_object_members`.
#[verifier::external_body]
fn object_members(v: Value) -> (r: Option<Vec<(String, Value)>>)
    ensures
        r is None <==> json_object_members(v) is None,
        r matches Some(ms) ==> json_object_members(v) == Some(entries_of(ms@)),
{
    match v {
        Value::Object(m) => Some(m.into_iter().collect()),
        _ => None,
    }
}

/// The JSON string literal for `s`.
///
/// Wraps `serde_json::to_string` on a `str`, which cannot fail for a string
/// and writes it between double quotes with the escapes of its `ESCAPE`
/// table (`format_escaped_str` in serde_json's `ser.rs`), as
/// `json_string_literal` states.
#[verifier::external_body]
fn json_quote(s: &str) -> (r: String)
    ensures
        r@ == json_string_literal(s@),
{
    match serde_json::to_string(s) {
        Ok(t) => t,
        Err(_) => String::new(),
    }
}

/// The compact JSON text that serde_json writes for a value.
pub uninterp spec fn json_value_text(v: Value) -> Seq<char>;

/// The compact JSON text of a value.
///
/// Wraps `<serde_json::Value as Display>::to_string`, which writes the
/// value as compact JSON (object members in the map's ascending order); the
/// text is named `json_value_text`.
#[verifier::external_body]
fn value_json_text(v: &Value) -> (r: String)
    ensures
        r@ == json_value_text(*v),
{
    v.to_string()
}

/// The JSON texts of the values of (name, value) pairs, in their order.
pub open spec fn value_texts_of(entries: Seq<(Seq<char>, Value)>) -> Seq<Seq<char>> {
    entries.map_values(|e: (Seq<char>, Value)| json_value_text(e.1))
}

/// The JSON members written one after another with commas between them.
pub open spec fn join_members(members: Seq<Seq<char>>) -> Seq<char>
    decreases members.len(),
{
    if members.len() == 0 {
        Seq::empty()
    } else if members.len() == 1 {
        members[0]
    } else {
        join_members(members.drop_last()) + seq![','] + members.last()
    }
}

/// The JSON object member for a field named `key` whose value has the JSON
/// text `value_text`.
pub open spec fn member_text(key: Seq<char>, value_text: Seq<char>) -> Seq<char> {
    json_string_literal(key) + seq![':'] + value_text
}

/// The members for the names `keys` and the value texts `value_texts`.
pub open spec fn members_of(keys: Seq<Seq<char>>, value_texts: Seq<Seq<char>>) -> Seq<Seq<char>> {
    Seq::new(keys.len(), |i: int| member_text(keys[i], value_texts[i]))
}

/// The names of (name, value) pairs.
pub open spec fn keys_of(entries: Seq<(Seq<char>, Value)>) -> Seq<Seq<char>> {
    entries.map_values(|e: (Seq<char>, Value)| e.0)
}

/// The JSON text of an event for the batch API:
/// `{"time":<timestamp>,"samplerate":<rate>,"data":{<name>:<value>,...}}`.
pub open spec fn event_json_text(
    timestamp: Seq<char>,
    sample_rate: nat,
    keys: Seq<Seq<char>>,
    value_texts: Seq<Seq<char>>,
) -> Seq<char> {
    "{\"time\":"@ + json_string_literal(timestamp) + ",\"samplerate\":"@ + dec_digits(sample_rate)
        + ",\"data\":{"@ + join_members(members_of(keys, value_texts)) + "}}"@
}

/// The JSON text of the event `e` for the batch API.
pub open spec fn event_text(e: Event) -> Seq<char> {
    event_json_text(
        e.timestamp@,
        e.sample_rate as nat,
        keys_of(e.data.entry_seq()),
        value_texts_of(e.data.entry_seq()),
    )
}

/// Whether sampling drops the event `e`.
pub open spec fn event_sampled_out(e: Event) -> bool {
    is_sampled_out(
        content_hash_of(e.timestamp@, keys_of(e.data.entry_seq()), trees_of(e.data.entry_seq())),
        e.sample_rate,
    )
}

/// The map `m` after inserting the pairs `s` in order.
pub open spec fn insert_all(m: Map<Seq<char>, Value>, s: Seq<(Seq<char>, Value)>) -> Map<
    Seq<char>,
    Value,
>
    decreases s.len(),
{
    if s.len() == 0 {
        m
    } else {
        insert_all(m, s.drop_last()).insert(s.last().0, s.last().1)
    }
}

/// The writes for fields with names `keys` and value trees `trees`: each
/// name followed by its value.
pub open spec fn field_hash_writes(keys: Seq<Seq<char>>, trees: Seq<JsonTree>) -> Seq<Seq<u8>>
    decreases keys.len(),
{
    if keys.len() == 0 {
        Seq::empty()
    } else {
        field_hash_writes(keys.drop_last(), trees.drop_last()) + text_hash_writes(keys.last())
            + tree_writes(trees.last())
    }
}

/// The trees of the values of (name, value) pairs, in their order.
pub open spec fn trees_of(entries: Seq<(Seq<char>, Value)>) -> Seq<JsonTree> {
    entries.map_values(|e: (Seq<char>, Value)| json_tree_of(e.1))
}

/// The content hash of an event with timestamp `timestamp`, field names
/// `keys` (ascending) and value trees `trees`: the default hasher fed the
/// timestamp, then each name and its value.
pub open spec fn content_hash_of(
    timestamp: Seq<char>,
    keys: Seq<Seq<char>>,
    trees: Seq<JsonTree>,
) -> u64 {
    DefaultHasher::spec_finish(text_hash_writes(timestamp) + field_hash_writes(keys, trees))
}

/// Whether an event with sample rate `sample_rate` and content hash `hash`
/// is dropped: only when sampling is on (a rate above one) and the hash is
/// not a multiple of the rate, which keeps about one event in `sample_rate`.
pub open spec fn is_sampled_out(hash: u64, sample_rate: usize) -> bool {
    sample_rate > 1 && hash % (sample_rate as u64) != 0
}

/// The sampling decision for an event whose content hash is `hash`: `true`
/// when the event is dropped.
pub fn sampling_decision(hash: u64, sample_rate: usize) -> (drop: bool)
    ensures
        drop == is_sampled_out(hash, sample_rate),
{
    if sample_rate <= 1 {
        return false;
    }
    hash % (sample_rate as u64) != 0
}

/// `k` times `n`.
pub open spec fn times(k: nat, n: nat) -> nat {
    k * n
}

/// Law: with a sample rate of one or less nothing is dropped; with a higher
/// rate an event is kept exactly when its content hash is a whole multiple of
/// the rate (so one hash in every `rate` consecutive ones is kept).
pub proof fn lemma_sampling_keeps_multiples(hash: u64, rate: usize)
    ensures
        rate <= 1 ==> !is_sampled_out(hash, rate),
        rate > 1 ==> (!is_sampled_out(hash, rate) <==> exists|k: nat|
            hash == #[trigger] times(k, rate as nat)),
{
    if rate > 1 {
        let r = rate as u64;
        lemma_fundamental_div_mod(hash as int, r as int);
        if hash % r == 0 {
            let k = (hash / r) as nat;
            assert(hash == times(k, rate as nat));
        }
        if exists|k: nat| hash == #[trigger] times(k, rate as nat) {
            let k = choose|k: nat| hash == #[trigger] times(k, rate as nat);
            lemma_mod_multiples_basic(k as int, r as int);
        }
    }
}

/// Whether two events have the same timestamp, sample rate and metadata.
pub open spec fn same_header(a: Event, b: Event) -> bool {
    a.timestamp == b.timestamp && a.sample_rate == b.sample_rate && a.metadata == b.metadata
}

/// An event to be sent to Honeycomb.
///
/// Events contain arbitrary key-value data and a timestamp. In the batch API
/// they take the form `{"time":"2024-01-15T10:30:00.000Z","samplerate":1,
/// "data":{"field1":"value1","field2":42}}`.
#[derive(Debug)]
pub struct Event {
    /// Timestamp when the event occurred, in ISO 8601 format.
    pub timestamp: String,
    /// Sample rate for this event.
    pub sample_rate: usize,
    /// The actual event data as key-value pairs.
    pub data: Fields,
    /// Optional metadata (not sent to Honeycomb, used for response correlation).
    pub metadata: Option<Value>,
}

impl Clone for Event {
    /// A copy with the same timestamp, sample rate, fields and metadata.
    fn clone(&self) -> (c: Self)
        ensures
            c.timestamp == self.timestamp,
            c.sample_rate == self.sample_rate,
            c.data@ == self.data@,
            c.data.entry_seq() == self.data.entry_seq(),
            c.metadata == self.metadata,
    {
        Event {
            timestamp: self.timestamp.clone(),
            sample_rate: self.sample_rate,
            data: self.data.clone(),
            metadata: match &self.metadata {
                Some(v) => Some(clone_value(v)),
                None => None,
            },
        }
    }
}

impl Default for Event {
    /// An event at the current time; see `Event::new`.
    fn default() -> (e: Self)
        ensures
            e.sample_rate == 1,
            e.data@ == Map::<Seq<char>, Value>::empty(),
            e.data.entry_seq().len() == 0,
            e.metadata is None,
            exists|secs: nat, millis: nat| millis < 1000 && e.timestamp@ == timestamp_text(secs, millis),
            exists|now: SystemTime| e.timestamp@ == system_time_text(now),
    {
        Self::new()
    }
}

impl Event {
    /// Create a new event with the current timestamp, sample rate 1, no
    /// fields and no metadata.
    pub fn new() -> (e: Self)
        ensures
            e.sample_rate == 1,
            e.data@ == Map::<Seq<char>, Value>::empty(),
            e.data.entry_seq().len() == 0,
            e.metadata is None,
            exists|secs: nat, millis: nat| millis < 1000 && e.timestamp@ == timestamp_text(secs, millis),
            exists|now: SystemTime| e.timestamp@ == system_time_text(now),
    {
        let now = current_time();
        let timestamp = Self::format_timestamp(now);
        assert(timestamp@ == system_time_text(now));
        Event { timestamp, sample_rate: 1, data: Fields::new(), metadata: None }
    }

    /// Create a new event with a specific timestamp, sample rate 1, no fields
    /// and no metadata.
    pub fn with_timestamp(timestamp: SystemTime) -> (e: Self)
        ensures
            e.sample_rate == 1,
            e.data@ == Map::<Seq<char>, Value>::empty(),
            e.data.entry_seq().len() == 0,
            e.metadata is None,
            e.timestamp@ == system_time_text(timestamp),
    {
        Event {
            timestamp: Self::format_timestamp(timestamp),
            sample_rate: 1,
            data: Fields::new(),
            metadata: None,
        }
    }

    /// Format a `SystemTime` as ISO 8601 (`YYYY-MM-DDTHH:MM:SS.mmmZ`, UTC).
    ///
    /// An instant before the Unix epoch is formatted as the epoch itself.
    pub fn format_timestamp(time: SystemTime) -> (t: String)
        ensures
            t@ == system_time_text(time),
            exists|secs: nat, millis: nat| millis < 1000 && t@ == timestamp_text(secs, millis),
    {
        let (secs, millis) = match since_unix_epoch(&time) {
            Some(p) => p,
            None => (0, 0),
        };
        let t = format_utc_timestamp(secs, millis);
        assert(t@ == timestamp_text(secs as nat, millis as nat));
        t
    }

    /// Add a field to the event, replacing any field of the same name.
    ///
    /// The value is converted into JSON by serde_json.
    pub fn add_field<V: Into<Value>>(&mut self, key: &str, value: V)
        ensures
            same_header(*final(self), *old(self)),
            final(self).data@.dom() == old(self).data@.dom().insert(key@),
            forall|k: Seq<char>|
                k != key@ && #[trigger] old(self).data@.contains_key(k) ==> final(self).data@[k]
                    == old(self).data@[k],
            V::obeys_into_spec() ==> final(self).data@[key@] == value.into_spec(),
    {
        let v: Value = value.into();
        self.data.insert(String::from_str(key), v);
    }

    /// Add every member of a JSON object as a field, in the object's order,
    /// replacing fields of the same names.
    ///
    /// Returns an error, and leaves the event unchanged, when the value is
    /// not a JSON object.
    pub fn add(&mut self, value: Value) -> (r: Result<(), Error>)
        ensures
            same_header(*final(self), *old(self)),
            json_object_members(value) is None ==> {
                &&& r matches Err(e) && e is Serialization && error_message(e)
                    == "Event::add expected a JSON object at the top level"@
                &&& final(self).data@ == old(self).data@
            },
            json_object_members(value) matches Some(members) ==> {
                &&& r is Ok
                &&& final(self).data@ == insert_all(old(self).data@, members)
            },
    {
        match object_members(value) {
            None => Err(
                Error::Serialization(
                    String::from_str("Event::add expected a JSON object at the top level"),
                ),
            ),
            Some(members) => {
                self.add_members(&members);
                Ok(())
            },
        }
    }

    /// Add the (name, value) pairs as fields, in order, replacing fields of
    /// the same names.
    pub fn add_members(&mut self, members: &Vec<(String, Value)>)
        ensures
            same_header(*final(self), *old(self)),
            final(self).data@ == insert_all(old(self).data@, entries_of(members@)),
    {
        let n = members.len();
        let mut i: usize = 0;
        while i < n
            invariant
                n == members@.len(),
                i <= n,
                same_header(*self, *old(self)),
                self.data@ == insert_all(old(self).data@, entries_of(members@).take(i as int)),
            decreases n - i,
        {
            let name = members[i].0.clone();
            let value = clone_value(&members[i].1);
            self.data.insert(name, value);
            assert(entries_of(members@).take(i + 1).drop_last() =~= entries_of(members@).take(
                i as int,
            ));
            i = i + 1;
        }
        assert(entries_of(members@).take(n as int) =~= entries_of(members@));
    }

    /// Set the sample rate for this event.
    pub fn set_sample_rate(&mut self, rate: usize)
        ensures
            final(self).sample_rate == rate,
            final(self).timestamp == old(self).timestamp,
            final(self).data == old(self).data,
            final(self).metadata == old(self).metadata,
    {
        self.sample_rate = rate;
    }

    /// Set the timestamp for this event.
    pub fn set_timestamp(&mut self, timestamp: SystemTime)
        ensures
            final(self).timestamp@ == system_time_text(timestamp),
            final(self).sample_rate == old(self).sample_rate,
            final(self).data == old(self).data,
            final(self).metadata == old(self).metadata,
    {
        self.timestamp = Self::format_timestamp(timestamp);
    }

    /// Set metadata for this event.
    ///
    /// Metadata is not sent to Honeycomb but can be used to correlate
    /// responses with events.
    pub fn set_metadata<V: Into<Value>>(&mut self, metadata: V)
        ensures
            final(self).metadata is Some,
            V::obeys_into_spec() ==> final(self).metadata == Some(metadata.into_spec()),
            final(self).timestamp == old(self).timestamp,
            final(self).sample_rate == old(self).sample_rate,
            final(self).data == old(self).data,
    {
        let v: Value = metadata.into();
        self.metadata = Some(v);
    }

    /// Get the event's metadata.
    pub fn metadata(&self) -> (m: Option<&Value>)
        ensures
            m is Some == self.metadata is Some,
            m is Some ==> *m.unwrap() == self.metadata.unwrap(),
    {
        match &self.metadata {
            Some(v) => Some(v),
            None => None,
        }
    }

    /// Get the event's fields.
    pub fn fields(&self) -> (f: &Fields)
        ensures
            *f == self.data,
    {
        &self.data
    }

    /// Get mutable access to the event's fields.
    pub fn fields_mut(&mut self) -> (f: &mut Fields)
        ensures
            *f == old(self).data,
            final(self).timestamp == old(self).timestamp,
            final(self).sample_rate == old(self).sample_rate,
            final(self).metadata == old(self).metadata,
            final(self).data == *final(f),
    {
        &mut self.data
    }

    /// Check if the event has any fields.
    pub fn is_empty(&self) -> (b: bool)
        ensures
            b == (self.data@.len() == 0),
    {
        self.data.is_empty()
    }

    /// Get the number of fields in the event.
    pub fn len(&self) -> (n: usize)
        ensures
            n == self.data@.len(),
    {
        self.data.len()
    }

    /// The JSON text of the event for the batch API, given the JSON texts of
    /// its field values in the order of the field names.
    pub fn json_with_value_texts(&self, value_texts: &Vec<String>) -> (t: String)
        requires
            value_texts@.len() == self.data.entry_seq().len(),
        ensures
            t@ == event_json_text(
                self.timestamp@,
                self.sample_rate as nat,
                keys_of(self.data.entry_seq()),
                value_texts@.map_values(|s: String| s@),
            ),
    {
        let entries = self.data.entries();
        let ghost keys = keys_of(self.data.entry_seq());
        let ghost texts = value_texts@.map_values(|s: String| s@);
        let ghost members = members_of(keys, texts);
        let mut t = String::from_str("{\"time\":");
        let ts = json_quote(self.timestamp.as_str());
        t.append(ts.as_str());
        t.append(",\"samplerate\":");
        push_decimal(&mut t, self.sample_rate as u128);
        t.append(",\"data\":{");
        let ghost head = t@;
        let n = entries.len();
        let mut i: usize = 0;
        while i < n
            invariant
                n == entries@.len(),
                n == value_texts@.len(),
                entries_of(entries@) == self.data.entry_seq(),
                keys == keys_of(self.data.entry_seq()),
                texts == value_texts@.map_values(|s: String| s@),
                members == members_of(keys, texts),
                i <= n,
                t@ == head + join_members(members.take(i as int)),
            decreases n - i,
        {
            let ghost before = t@;
            if i > 0 {
                t.append(",");
            }
            let key = json_quote(entries[i].0.as_str());
            t.append(key.as_str());
            t.append(":");
            t.append(value_texts[i].as_str());
            proof {
                assert(keys[i as int] == entries@[i as int].0@);
                assert(members[i as int] == member_text(keys[i as int], texts[i as int]));
                assert(members.take(i + 1).drop_last() =~= members.take(i as int));
                reveal_strlit(",");
                reveal_strlit(":");
                if i == 0 {
                    assert(t@ =~= head + join_members(members.take(i + 1)));
                } else {
                    assert(t@ =~= head + join_members(members.take(i + 1)));
                }
            }
            i = i + 1;
        }
        t.append("}}");
        assert(members.take(n as int) =~= members);
        assert(t@ =~= event_json_text(
            self.timestamp@,
            self.sample_rate as nat,
            keys,
            texts,
        ));
        t
    }

    /// The JSON texts of the field values, in the order of the field names.
    pub fn value_texts(&self) -> (texts: Vec<String>)
        ensures
            texts@.len() == self.data.entry_seq().len(),
            texts@.map_values(|s: String| s@) == value_texts_of(self.data.entry_seq()),
    {
        let entries = self.data.entries();
        let n = entries.len();
        let ghost target = value_texts_of(self.data.entry_seq());
        let mut texts: Vec<String> = Vec::new();
        let mut i: usize = 0;
        while i < n
            invariant
                n == entries@.len(),
                entries_of(entries@) == self.data.entry_seq(),
                target == value_texts_of(self.data.entry_seq()),
                i <= n,
                texts@.len() == i,
                forall|j: int| 0 <= j < i ==> #[trigger] texts@[j]@ == target[j],
            decreases n - i,
        {
            let t = value_json_text(&entries[i].1);
            assert(target[i as int] == json_value_text(entries@[i as int].1));
            texts.push(t);
            i = i + 1;
        }
        assert(texts@.map_values(|s: String| s@) =~= target);
        texts
    }

    /// The JSON text of the event for the Honeycomb batch API; the metadata
    /// is left out.
    pub fn json_text(&self) -> (t: String)
        ensures
            t@ == event_text(*self),
    {
        let texts = self.value_texts();
        self.json_with_value_texts(&texts)
    }

    /// Serialize the event to JSON for the Honeycomb batch API; the metadata
    /// is left out.
    pub fn to_json(&self) -> (r: Result<String, Error>)
        ensures
            r matches Ok(t) && t@ == event_text(*self),
    {
        Ok(self.json_text())
    }

    /// The trees of the field values, in the order of the field names.
    pub fn value_trees(&self) -> (trees: Vec<JsonTree>)
        ensures
            trees@ == trees_of(self.data.entry_seq()),
            forall|i: int| 0 <= i < trees@.len() ==> tree_sorted(#[trigger] trees@[i]),
    {
        let entries = self.data.entries();
        let n = entries.len();
        let ghost target = trees_of(self.data.entry_seq());
        let mut trees: Vec<JsonTree> = Vec::new();
        let mut i: usize = 0;
        while i < n
            invariant
                n == entries@.len(),
                entries_of(entries@) == self.data.entry_seq(),
                target == trees_of(self.data.entry_seq()),
                i <= n,
                trees@ == target.take(i as int),
                forall|j: int| 0 <= j < trees@.len() ==> tree_sorted(#[trigger] trees@[j]),
            decreases n - i,
        {
            let t = json_tree(&entries[i].1);
            assert(target[i as int] == json_tree_of(entries@[i as int].1));
            trees.push(t);
            assert(trees@ =~= target.take(i + 1));
            i = i + 1;
        }
        assert(target.take(n as int) =~= target);
        trees
    }

    /// The content hash of the event given the trees of its field values in
    /// the order of the field names.
    pub fn content_hash_with_trees(&self, trees: &Vec<JsonTree>) -> (h: u64)
        requires
            trees@.len() == self.data.entry_seq().len(),
        ensures
            h == content_hash_of(self.timestamp@, keys_of(self.data.entry_seq()), trees@),
    {
        let mut hasher = DefaultHasher::new();
        hash_text(&mut hasher, self.timestamp.as_str());
        let ghost start = hasher@;
        let ghost keys = keys_of(self.data.entry_seq());
        let entries = self.data.entries();
        let n = entries.len();
        let mut i: usize = 0;
        while i < n
            invariant
                n == entries@.len(),
                n == trees@.len(),
                entries_of(entries@) == self.data.entry_seq(),
                keys == keys_of(self.data.entry_seq()),
                i <= n,
                hasher@ == start + field_hash_writes(keys.take(i as int), trees@.take(i as int)),
            decreases n - i,
        {
            hash_text(&mut hasher, entries[i].0.as_str());
            hash_tree(&mut hasher, &trees[i]);
            proof {
                assert(keys[i as int] == entries@[i as int].0@);
                assert(keys.take(i + 1).drop_last() =~= keys.take(i as int));
                assert(trees@.take(i + 1).drop_last() =~= trees@.take(i as int));
                assert(hasher@ =~= start + field_hash_writes(keys.take(i + 1), trees@.take(i + 1)));
            }
            i = i + 1;
        }
        assert(keys.take(n as int) =~= keys);
        assert(trees@.take(n as int) =~= trees@);
        hasher.finish()
    }

    /// A hash of the event's content for sampling: the timestamp, then each
    /// field name and its value, in ascending order of the names, so that
    /// the order in which fields were added does not matter.
    pub fn content_hash(&self) -> (h: u64)
        ensures
            h == content_hash_of(
                self.timestamp@,
                keys_of(self.data.entry_seq()),
                trees_of(self.data.entry_seq()),
            ),
            forall|i: int|
                0 <= i < self.data.entry_seq().len() ==> tree_sorted(
                    #[trigger] trees_of(self.data.entry_seq())[i],
                ),
    {
        let trees = self.value_trees();
        self.content_hash_with_trees(&trees)
    }

    /// Determine if this event should be dropped based on sampling.
    ///
    /// Returns true if the event should be dropped (not sent). With a sample
    /// rate of one or less every event is kept; otherwise the content hash
    /// decides, keeping the events whose hash is a multiple of the rate.
    pub fn should_drop(&self) -> (drop: bool)
        ensures
            drop == event_sampled_out(*self),
            self.sample_rate <= 1 ==> !drop,
    {
        if self.sample_rate <= 1 {
            return false;
        }
        let hash = self.content_hash();
        sampling_decision(hash, self.sample_rate)
    }
}

/// Law: an event's JSON text and content hash depend on its fields only as
/// a map. Two events with the same timestamp and sample rate whose fields map
/// the same names to the same values serialize to the same text, have the
/// same content hash and so are sampled alike, whatever order their fields
/// were added in.
pub proof fn lemma_field_order_irrelevant(a: Event, b: Event)
    requires
        strictly_sorted(a.data.entry_seq()),
        strictly_sorted(b.data.entry_seq()),
        a.timestamp@ == b.timestamp@,
        a.sample_rate == b.sample_rate,
        a.data@ == b.data@,
    ensures
        event_text(a) == event_text(b),
        content_hash_of(a.timestamp@, keys_of(a.data.entry_seq()), trees_of(a.data.entry_seq()))
            == content_hash_of(b.timestamp@, keys_of(b.data.entry_seq()), trees_of(b.data.entry_seq())),
        event_sampled_out(a) == event_sampled_out(b),
{
    lemma_sorted_entries_determined(a.data.entry_seq(), b.data.entry_seq());
}

/// Types that can hold fields.
pub trait FieldHolder {
    /// Add a single field.
    fn add_field<V: Into<Value>>(&mut self, key: &str, value: V);

    /// Add every member of a JSON object as a field.
    fn add(&mut self, value: Value) -> Result<(), Error>;
}

impl FieldHolder for Event {
    /// Sets the field `key` as `Event::add_field` does.
    fn add_field<V: Into<Value>>(&mut self, key: &str, value: V)
        ensures
            same_header(*final(self), *old(self)),
            final(self).data@.dom() == old(self).data@.dom().insert(key@),
            forall|k: Seq<char>|
                k != key@ && #[trigger] old(self).data@.contains_key(k) ==> final(self).data@[k]
                    == old(self).data@[k],
            V::obeys_into_spec() ==> final(self).data@[key@] == value.into_spec(),
    {
        Event::add_field(self, key, value);
    }

    /// Adds the members of a JSON object as `Event::add` does.
    fn add(&mut self, value: Value) -> (r: Result<(), Error>)
        ensures
            same_header(*final(self), *old(self)),
            json_object_members(value) is None ==> {
                &&& r matches Err(e) && e is Serialization && error_message(e)
                    == "Event::add expected a JSON object at the top level"@
                &&& final(self).data@ == old(self).data@
            },
            json_object_members(value) matches Some(members) ==> {
                &&& r is Ok
                &&& final(self).data@ == insert_all(old(self).data@, members)
            },
    {
        Event::add(self, value)
    }
}

} // verus!
