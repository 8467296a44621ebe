//! JSON documents as trees of plain values.
//!
//! The wire protocol and the loosely typed option payloads are JSON.
//! Everything the library does with a document happens on [`JsonValue`],
//! whose mathematical content is [`Json`].
//!
//! Reading and writing JSON text is left to `serde_json`. Its calls stand at
//! the end of this file, each behind a function of one call whose contract
//! is taken on trust; [`parse`] and [`to_bytes`] walk between the trees of
//! the library and the values of `serde_json` through them.

use vstd::prelude::*;
use crate::text::same_text;

verus! {

/// A JSON number. A number with a fraction or an exponent is carried as
/// the numeral that stands for it in JSON text.
#[derive(Debug, PartialEq, Eq)]
pub enum JsonNumber {
    Unsigned(u64),
    Signed(i64),
    Real(String),
}

/// The mathematical content of a [`JsonNumber`].
pub enum Numeral {
    Unsigned(u64),
    Signed(i64),
    Real(Seq<char>),
}

impl View for JsonNumber {
    type V = Numeral;

    open spec fn view(&self) -> Numeral {
        match self {
            JsonNumber::Unsigned(n) => Numeral::Unsigned(*n),
            JsonNumber::Signed(n) => Numeral::Signed(*n),
            JsonNumber::Real(s) => Numeral::Real(s@),
        }
    }
}

impl Clone for JsonNumber {
    fn clone(&self) -> (r: Self)
        ensures
            r@ == self@,
    {
        match self {
            JsonNumber::Unsigned(n) => JsonNumber::Unsigned(*n),
            JsonNumber::Signed(n) => JsonNumber::Signed(*n),
            JsonNumber::Real(s) => JsonNumber::Real(s.clone()),
        }
    }
}

/// A JSON document. An object keeps its members in a list; where a key
/// occurs more than once the last member counts.
#[derive(Debug, PartialEq)]
pub enum JsonValue {
    Null,
    Bool(bool),
    Number(JsonNumber),
    Text(String),
    Array(Vec<JsonValue>),
    Object(Vec<(String, JsonValue)>),
}

/// The mathematical content of a [`JsonValue`].
pub enum Json {
    Null,
    Bool(bool),
    Number(Numeral),
    Text(Seq<char>),
    Array(Seq<Json>),
    Object(Seq<(Seq<char>, Json)>),
}

/// The member of `members` that counts for `key`: the last one with that key.
pub open spec fn find_member(members: Seq<(Seq<char>, Json)>, key: Seq<char>) -> Option<Json>
    decreases members.len(),
{
    if members.len() == 0 {
        None
    } else if members.last().0 == key {
        Some(members.last().1)
    } else {
        find_member(members.drop_last(), key)
    }
}

impl Json {
    /// The value of member `key` of an object; `None` for a missing member
    /// and for a document that is not an object.
    pub open spec fn lookup(self, key: Seq<char>) -> Option<Json> {
        match self {
            Json::Object(members) => find_member(members, key),
            _ => None,
        }
    }

    /// The value of member `key` where it is a boolean.
    pub open spec fn bool_member(self, key: Seq<char>) -> Option<bool> {
        match self.lookup(key) {
            Some(Json::Bool(b)) => Some(b),
            _ => None,
        }
    }

    /// The value of member `key` where it is a string.
    pub open spec fn text_member(self, key: Seq<char>) -> Option<Seq<char>> {
        match self.lookup(key) {
            Some(Json::Text(s)) => Some(s),
            _ => None,
        }
    }

    /// The value of member `key` where it is a number.
    pub open spec fn number_member(self, key: Seq<char>) -> Option<Numeral> {
        match self.lookup(key) {
            Some(Json::Number(n)) => Some(n),
            _ => None,
        }
    }

    /// The value of member `key` where it is a non-negative integer written
    /// without fraction or exponent.
    pub open spec fn unsigned_member(self, key: Seq<char>) -> Option<u64> {
        match self.lookup(key) {
            Some(Json::Number(Numeral::Unsigned(n))) => Some(n),
            _ => None,
        }
    }
}

/// The content of a list of documents.
pub open spec fn items_model(items: Seq<JsonValue>) -> Seq<Json> {
    Seq::new(items.len(), |i: int| items[i].model())
}

/// The content of a list of object members.
pub open spec fn members_model(members: Seq<(String, JsonValue)>) -> Seq<(Seq<char>, Json)> {
    Seq::new(members.len(), |i: int| (members[i].0@, members[i].1.model()))
}

impl JsonValue {
    /// The content of this document.
    pub open spec fn model(&self) -> Json
        decreases self,
    {
        match self {
            JsonValue::Null => Json::Null,
            JsonValue::Bool(b) => Json::Bool(*b),
            JsonValue::Number(n) => Json::Number(n@),
            JsonValue::Text(s) => Json::Text(s@),
            JsonValue::Array(items) => Json::Array(
                Seq::new(
                    items@.len(),
                    |i: int|
                        if 0 <= i < items@.len() {
                            items@[i].model()
                        } else {
                            Json::Null
                        },
                ),
            ),
            JsonValue::Object(members) => Json::Object(
                Seq::new(
                    members@.len(),
                    |i: int|
                        if 0 <= i < members@.len() {
                            (members@[i].0@, members@[i].1.model())
                        } else {
                            (Seq::empty(), Json::Null)
                        },
                ),
            ),
        }
    }

    /// States the content of an array or an object over its parts.
    pub proof fn model_unfold(&self)
        ensures
            self matches JsonValue::Array(items) ==> self.model() == Json::Array(
                items_model(items@),
            ),
            self matches JsonValue::Object(members) ==> self.model() == Json::Object(
                members_model(members@),
            ),
    {
        match self {
            JsonValue::Array(items) => {
                assert(self.model()->Array_0 =~= items_model(items@));
            },
            JsonValue::Object(members) => {
                assert(self.model()->Object_0 =~= members_model(members@));
            },
            _ => {},
        }
    }

    /// An object with the given members.
    pub fn object(members: Vec<(String, JsonValue)>) -> (r: JsonValue)
        ensures
            r.model() == Json::Object(members_model(members@)),
    {
        let r = JsonValue::Object(members);
        proof {
            r.model_unfold();
        }
        r
    }

    /// The document `{ key: value }`.
    pub fn single(key: &str, value: JsonValue) -> (r: JsonValue)
        ensures
            r.model() == Json::Object(seq![(key@, value.model())]),
    {
        let mut members: Vec<(String, JsonValue)> = Vec::new();
        members.push((key.to_owned(), value));
        let r = JsonValue::Object(members);
        proof {
            r.model_unfold();
            assert(members_model(members@) =~= seq![(key@, value.model())]);
        }
        r
    }

    /// A string document.
    pub fn text(s: &str) -> (r: JsonValue)
        ensures
            r.model() == Json::Text(s@),
    {
        JsonValue::Text(s.to_owned())
    }

    /// A non-negative integer document.
    pub fn unsigned(n: u64) -> (r: JsonValue)
        ensures
            r.model() == Json::Number(Numeral::Unsigned(n)),
    {
        JsonValue::Number(JsonNumber::Unsigned(n))
    }

    /// Whether this document is `null`.
    pub fn is_null(&self) -> (b: bool)
        ensures
            b == (self.model() == Json::Null),
    {
        match self {
            JsonValue::Null => true,
            _ => false,
        }
    }

    /// The member that counts for `key`, if this is an object that has one.
    pub fn get(&self, key: &str) -> (r: Option<&JsonValue>)
        ensures
            match r {
                Some(v) => self.model().lookup(key@) == Some(v.model()),
                None => self.model().lookup(key@).is_none(),
            },
    {
        match self {
            JsonValue::Object(members) => {
                proof {
                    self.model_unfold();
                }
                let ghost all = members_model(members@);
                let mut i: usize = members.len();
                assert(all.take(i as int) =~= all);
                while i > 0
                    invariant
                        i <= members.len(),
                        all == members_model(members@),
                        self.model() == Json::Object(all),
                        find_member(all, key@) == find_member(all.take(i as int), key@),
                    decreases i,
                {
                    let ghost prefix = all.take(i as int);
                    assert(prefix.drop_last() =~= all.take(i - 1));
                    assert(prefix.last() == all[i - 1]);
                    i = i - 1;
                    if same_text(members[i].0.as_str(), key) {
                        assert(find_member(prefix, key@) == Some(members@[i as int].1.model()));
                        return Some(&members[i].1);
                    }
                }
                assert(all.take(0).len() == 0);
                None
            },
            _ => None,
        }
    }

    /// The boolean this document is, if it is one.
    pub fn as_bool(&self) -> (r: Option<bool>)
        ensures
            r == match self.model() {
                Json::Bool(b) => Some(b),
                _ => None,
            },
    {
        match self {
            JsonValue::Bool(b) => Some(*b),
            _ => None,
        }
    }

    /// The string this document is, if it is one.
    pub fn as_text(&self) -> (r: Option<&String>)
        ensures
            match r {
                Some(s) => self.model() == Json::Text(s@),
                None => !(self.model() is Text),
            },
    {
        match self {
            JsonValue::Text(s) => Some(s),
            _ => None,
        }
    }

    /// The number this document is, if it is one.
    pub fn as_number(&self) -> (r: Option<&JsonNumber>)
        ensures
            match r {
                Some(n) => self.model() == Json::Number(n@),
                None => !(self.model() is Number),
            },
    {
        match self {
            JsonValue::Number(n) => Some(n),
            _ => None,
        }
    }

    /// The non-negative integer this document is, if it is one written
    /// without fraction or exponent.
    pub fn as_unsigned(&self) -> (r: Option<u64>)
        ensures
            r == match self.model() {
                Json::Number(Numeral::Unsigned(n)) => Some(n),
                _ => None,
            },
    {
        match self {
            JsonValue::Number(JsonNumber::Unsigned(n)) => Some(*n),
            _ => None,
        }
    }

    /// A copy of this document.
    pub fn duplicate(&self) -> (r: JsonValue)
        ensures
            r.model() == self.model(),
        decreases self,
    {
        match self {
            JsonValue::Null => JsonValue::Null,
            JsonValue::Bool(b) => JsonValue::Bool(*b),
            JsonValue::Number(n) => JsonValue::Number(n.clone()),
            JsonValue::Text(s) => JsonValue::Text(s.clone()),
            JsonValue::Array(items) => {
                let mut copy: Vec<JsonValue> = Vec::new();
                let mut i: usize = 0;
                while i < items.len()
                    invariant
                        i <= items.len(),
                        copy.len() == i,
                        self == JsonValue::Array(*items),
                        forall|k: int| 0 <= k < i ==> (#[trigger] copy@[k]).model() == items@[k].model(),
                    decreases items.len() - i,
                {
                    proof {
                        vstd::std_specs::vec::axiom_vec_index_decreases(*items, i as int);
                        assert(decreases_to!(self => self->Array_0));
                    }
                    let item = items[i].duplicate();
                    copy.push(item);
                    i = i + 1;
                }
                let r = JsonValue::Array(copy);
                proof {
                    r.model_unfold();
                    self.model_unfold();
                    assert(items_model(copy@) =~= items_model(items@));
                }
                r
            },
            JsonValue::Object(members) => {
                let mut copy: Vec<(String, JsonValue)> = Vec::new();
                let mut i: usize = 0;
                while i < members.len()
                    invariant
                        i <= members.len(),
                        copy.len() == i,
                        self == JsonValue::Object(*members),
                        forall|k: int|
                            0 <= k < i ==> (#[trigger] copy@[k]).0@ == members@[k].0@
                                && copy@[k].1.model() == members@[k].1.model(),
                    decreases members.len() - i,
                {
                    proof {
                        vstd::std_specs::vec::axiom_vec_index_decreases(*members, i as int);
                        assert(decreases_to!(self => self->Object_0));
                    }
                    let value = members[i].1.duplicate();
                    copy.push((members[i].0.clone(), value));
                    i = i + 1;
                }
                let r = JsonValue::Object(copy);
                proof {
                    r.model_unfold();
                    self.model_unfold();
                    assert(members_model(copy@) =~= members_model(members@));
                }
                r
            },
        }
    }
}

impl Clone for JsonValue {
    fn clone(&self) -> (r: Self)
        ensures
            r.model() == self.model(),
    {
        self.duplicate()
    }
}

/// The member at position `at` counts for its key where no later member
/// has the same key.
pub proof fn lemma_member_at(members: Seq<(Seq<char>, Json)>, key: Seq<char>, at: int)
    requires
        0 <= at < members.len(),
        members[at].0 == key,
        forall|j: int| at < j < members.len() ==> (#[trigger] members[j]).0 != key,
    ensures
        find_member(members, key) == Some(members[at].1),
    decreases members.len(),
{
    if at < members.len() - 1 {
        let front = members.drop_last();
        assert(members.last() == members[members.len() - 1]);
        assert forall|j: int| at < j < front.len() implies (#[trigger] front[j]).0 != key by {
            assert(front[j] == members[j]);
        }
        lemma_member_at(front, key, at);
    }
}

/// `serde_json::Value`: a JSON document as `serde_json` holds it.
#[verifier::external_type_specification]
#[verifier::external_body]
pub struct ExValue(serde_json::Value);

/// The document that a `serde_json::Value` holds, as a tree. The members
/// of an object stand in the order in which `serde_json` walks its map, and
/// a number that is no integer is the numeral that its `Display` writes.
pub uninterp spec fn content(value: serde_json::Value) -> Json;

/// The document that `serde_json::from_slice` reads from a text; `None`
/// where it rejects the text.
pub uninterp spec fn parsed(text: Seq<u8>) -> Option<Json>;

/// The text that `serde_json::to_vec` writes for a value that holds the
/// given document; `None` where it reports an error.
pub uninterp spec fn printed(document: Json) -> Option<Seq<u8>>;

/// The number that `serde_json` reads from a numeral, as a document;
/// `None` where it reads none.
pub uninterp spec fn numeral_json(numeral: Seq<char>) -> Option<Json>;

/// The members that the map of `serde_json` holds once the given members
/// were collected into it.
pub uninterp spec fn collected(members: Seq<(Seq<char>, Json)>) -> Seq<(Seq<char>, Json)>;

/// `serde_json::from_slice` for a `serde_json::Value`: what was read, or
/// `None` where the text is rejected. What was read has the name
/// [`parsed`]: it depends on the text alone.
#[verifier::external_body]
fn read_value(text: &[u8]) -> (r: Option<serde_json::Value>)
    ensures
        match r {
            Some(v) => parsed(text@) == Some(content(v)),
            None => parsed(text@).is_none(),
        },
{
    match serde_json::from_slice::<serde_json::Value>(text) {
        Ok(value) => Some(value),
        Err(_) => None,
    }
}

/// `serde_json::to_vec`: the text of a value, or `None` where an error is
/// reported. What comes back has the name [`printed`]: it depends on what
/// the value holds alone.
#[verifier::external_body]
fn write_value(value: &serde_json::Value) -> (r: Option<Vec<u8>>)
    ensures
        match r {
            Some(text) => printed(content(*value)) == Some(text@),
            None => printed(content(*value)).is_none(),
        },
{
    match serde_json::to_vec(value) {
        Ok(text) => Some(text),
        Err(_) => None,
    }
}

/// `Value::is_null`: whether the value is `null`.
#[verifier::external_body]
fn value_is_null(value: &serde_json::Value) -> (r: bool)
    ensures
        r == (content(*value) == Json::Null),
{
    value.is_null()
}

/// `Value::as_bool`: the boolean, if the value is one.
#[verifier::external_body]
fn value_bool(value: &serde_json::Value) -> (r: Option<bool>)
    ensures
        r == match content(*value) {
            Json::Bool(b) => Some(b),
            _ => None,
        },
{
    value.as_bool()
}

/// `Value::as_u64`: the integer, if the value is a non-negative integer.
#[verifier::external_body]
fn value_unsigned(value: &serde_json::Value) -> (r: Option<u64>)
    ensures
        r == match content(*value) {
            Json::Number(Numeral::Unsigned(n)) => Some(n),
            _ => None,
        },
{
    value.as_u64()
}

/// `Value::as_i64`: the integer, if the value is an integer that fits.
#[verifier::external_body]
fn value_signed(value: &serde_json::Value) -> (r: Option<i64>)
    ensures
        r == match content(*value) {
            Json::Number(Numeral::Signed(n)) => Some(n),
            Json::Number(Numeral::Unsigned(n)) => if n <= i64::MAX {
                Some(n as i64)
            } else {
                None
            },
            _ => None,
        },
{
    value.as_i64()
}

/// `Value::as_number` and `Number`'s `Display`: the numeral of the value,
/// if the value is a number.
#[verifier::external_body]
fn value_numeral(value: &serde_json::Value) -> (r: Option<String>)
    ensures
        match content(*value) {
            Json::Number(Numeral::Real(numeral)) => r matches Some(s) && s@ == numeral,
            Json::Number(_) => r.is_some(),
            _ => r.is_none(),
        },
{
    match value.as_number() {
        Some(number) => Some(number.to_string()),
        None => None,
    }
}

/// `Value::as_str`: the string, if the value is one.
#[verifier::external_body]
fn value_text(value: &serde_json::Value) -> (r: Option<&str>)
    ensures
        match r {
            Some(s) => content(*value) == Json::Text(s@),
            None => !(content(*value) is Text),
        },
{
    value.as_str()
}

/// What a list of values holds.
pub open spec fn items_content(items: Seq<serde_json::Value>) -> Seq<Json> {
    Seq::new(items.len(), |i: int| content(items[i]))
}

/// `Value::as_array`: the items, if the value is an array.
#[verifier::external_body]
fn value_items(value: &serde_json::Value) -> (r: Option<&Vec<serde_json::Value>>)
    ensures
        match r {
            Some(items) => content(*value) == Json::Array(items_content(items@)),
            None => !(content(*value) is Array),
        },
{
    value.as_array()
}

/// What a list of borrowed members holds.
pub open spec fn entries_content(entries: Seq<(&String, &serde_json::Value)>) -> Seq<
    (Seq<char>, Json),
> {
    Seq::new(entries.len(), |i: int| (entries[i].0@, content(*entries[i].1)))
}

/// `Value::as_object` and `Map::iter`: the members, if the value is an
/// object, in the order in which the map is walked.
#[verifier::external_body]
fn value_members(value: &serde_json::Value) -> (r: Option<Vec<(&String, &serde_json::Value)>>)
    ensures
        match r {
            Some(entries) => content(*value) == Json::Object(entries_content(entries@)),
            None => !(content(*value) is Object),
        },
{
    match value.as_object() {
        Some(members) => Some(members.iter().collect()),
        None => None,
    }
}

/// `Value::Null`.
#[verifier::external_body]
fn null_value() -> (r: serde_json::Value)
    ensures
        content(r) == Json::Null,
{
    serde_json::Value::Null
}

/// `Value::Bool`.
#[verifier::external_body]
fn bool_value(b: bool) -> (r: serde_json::Value)
    ensures
        content(r) == Json::Bool(b),
{
    serde_json::Value::Bool(b)
}

/// `Value::from` for `u64`.
#[verifier::external_body]
fn unsigned_value(n: u64) -> (r: serde_json::Value)
    ensures
        content(r) == Json::Number(Numeral::Unsigned(n)),
{
    serde_json::Value::from(n)
}

/// `Value::from` for `i64`: an integer that is not negative is held as a
/// non-negative integer.
#[verifier::external_body]
fn signed_value(n: i64) -> (r: serde_json::Value)
    ensures
        content(r) == Json::Number(integer_numeral(n)),
{
    serde_json::Value::from(n)
}

/// `Number`'s `FromStr`, with the number as a value: the number that the
/// numeral stands for, or `None` where it stands for none. What comes back
/// has the name [`numeral_json`]: it depends on the numeral alone.
#[verifier::external_body]
fn numeral_value(numeral: &str) -> (r: Option<serde_json::Value>)
    ensures
        match r {
            Some(value) => numeral_json(numeral@) == Some(content(value)),
            None => numeral_json(numeral@).is_none(),
        },
{
    match numeral.parse::<serde_json::Number>() {
        Ok(number) => Some(serde_json::Value::Number(number)),
        Err(_) => None,
    }
}

/// `Value::String`.
#[verifier::external_body]
fn text_value(text: &str) -> (r: serde_json::Value)
    ensures
        content(r) == Json::Text(text@),
{
    serde_json::Value::String(text.to_owned())
}

/// `Value::Array`.
#[verifier::external_body]
fn array_value(items: Vec<serde_json::Value>) -> (r: serde_json::Value)
    ensures
        content(r) == Json::Array(items_content(items@)),
{
    serde_json::Value::Array(items)
}

/// What a list of members holds.
pub open spec fn pairs_content(members: Seq<(String, serde_json::Value)>) -> Seq<
    (Seq<char>, Json),
> {
    Seq::new(members.len(), |i: int| (members[i].0@, content(members[i].1)))
}

/// `Value::Object` of the map that the members are collected into. What
/// the map holds has the name [`collected`]: it depends on the keys and on
/// what the values hold alone.
#[verifier::external_body]
fn object_value(members: Vec<(String, serde_json::Value)>) -> (r: serde_json::Value)
    ensures
        content(r) == Json::Object(collected(pairs_content(members@))),
{
    serde_json::Value::Object(members.into_iter().collect())
}

/// The form in which an integer is held: as a non-negative integer where
/// it is not negative.
pub open spec fn integer_numeral(n: i64) -> Numeral {
    if n >= 0 {
        Numeral::Unsigned(n as u64)
    } else {
        Numeral::Signed(n)
    }
}

/// A document as `serde_json` holds it once it was built from the tree:
/// integers in the form in which they are held, numerals read as numbers
/// and `null` in place of a numeral that is none, the members of an object
/// as its map holds them.
pub open spec fn canonical(document: Json) -> Json
    decreases document,
{
    match document {
        Json::Null => Json::Null,
        Json::Bool(b) => Json::Bool(b),
        Json::Number(Numeral::Unsigned(n)) => Json::Number(Numeral::Unsigned(n)),
        Json::Number(Numeral::Signed(n)) => Json::Number(integer_numeral(n)),
        Json::Number(Numeral::Real(numeral)) => match numeral_json(numeral) {
            Some(number) => number,
            None => Json::Null,
        },
        Json::Text(s) => Json::Text(s),
        Json::Array(items) => Json::Array(
            Seq::new(
                items.len(),
                |i: int|
                    if 0 <= i < items.len() {
                        canonical(items[i])
                    } else {
                        Json::Null
                    },
            ),
        ),
        Json::Object(members) => Json::Object(collected(canonical_members(members))),
    }
}

/// The members of an object before they are collected, each value as
/// `serde_json` holds it.
pub open spec fn canonical_members(members: Seq<(Seq<char>, Json)>) -> Seq<(Seq<char>, Json)>
    decreases members,
{
    Seq::new(
        members.len(),
        |i: int|
            if 0 <= i < members.len() {
                (members[i].0, canonical(members[i].1))
            } else {
                (Seq::empty(), Json::Null)
            },
    )
}

/// Builds the tree of what a `serde_json::Value` holds.
fn tree_of(value: &serde_json::Value) -> (tree: JsonValue)
    ensures
        tree.model() == content(*value),
    decreases content(*value),
{
    if value_is_null(value) {
        return JsonValue::Null;
    }
    if let Some(b) = value_bool(value) {
        return JsonValue::Bool(b);
    }
    if let Some(n) = value_unsigned(value) {
        return JsonValue::Number(JsonNumber::Unsigned(n));
    }
    if let Some(n) = value_signed(value) {
        return JsonValue::Number(JsonNumber::Signed(n));
    }
    if let Some(numeral) = value_numeral(value) {
        return JsonValue::Number(JsonNumber::Real(numeral));
    }
    if let Some(text) = value_text(value) {
        return JsonValue::Text(text.to_owned());
    }
    if let Some(items) = value_items(value) {
        let ghost all = items_content(items@);
        let mut trees: Vec<JsonValue> = Vec::new();
        let mut i: usize = 0;
        while i < items.len()
            invariant
                i <= items@.len(),
                trees@.len() == i,
                all == items_content(items@),
                content(*value) == Json::Array(all),
                forall|k: int| 0 <= k < i ==> (#[trigger] trees@[k]).model() == all[k],
            decreases items@.len() - i,
        {
            proof {
                assert(all[i as int] == content(items@[i as int]));
                vstd::seq::axiom_seq_index_decreases(all, i as int);
                assert(decreases_to!(content(*value) => content(*value)->Array_0));
            }
            let tree = tree_of(&items[i]);
            trees.push(tree);
            i = i + 1;
        }
        let tree = JsonValue::Array(trees);
        proof {
            tree.model_unfold();
            assert(items_model(trees@) =~= all);
        }
        return tree;
    }
    if let Some(entries) = value_members(value) {
        let ghost all = entries_content(entries@);
        let mut members: Vec<(String, JsonValue)> = Vec::new();
        let mut i: usize = 0;
        while i < entries.len()
            invariant
                i <= entries@.len(),
                members@.len() == i,
                all == entries_content(entries@),
                content(*value) == Json::Object(all),
                forall|k: int|
                    0 <= k < i ==> (#[trigger] members@[k]).0@ == all[k].0 && members@[k].1.model()
                        == all[k].1,
            decreases entries@.len() - i,
        {
            proof {
                assert(all[i as int] == (entries@[i as int].0@, content(*entries@[i as int].1)));
                vstd::seq::axiom_seq_index_decreases(all, i as int);
                assert(decreases_to!(content(*value) => content(*value)->Object_0));
                assert(decreases_to!(all[i as int] => all[i as int].1));
            }
            let entry = &entries[i];
            let tree = tree_of(entry.1);
            members.push((entry.0.clone(), tree));
            i = i + 1;
        }
        let tree = JsonValue::Object(members);
        proof {
            tree.model_unfold();
            assert(members_model(members@) =~= all);
        }
        return tree;
    }
    JsonValue::Null
}

/// Builds the `serde_json::Value` of a tree.
fn value_of(tree: &JsonValue) -> (value: serde_json::Value)
    ensures
        content(value) == canonical(tree.model()),
    decreases tree,
{
    match tree {
        JsonValue::Null => null_value(),
        JsonValue::Bool(b) => bool_value(*b),
        JsonValue::Number(JsonNumber::Unsigned(n)) => unsigned_value(*n),
        JsonValue::Number(JsonNumber::Signed(n)) => signed_value(*n),
        JsonValue::Number(JsonNumber::Real(numeral)) => match numeral_value(numeral.as_str()) {
            Some(number) => number,
            None => null_value(),
        },
        JsonValue::Text(s) => text_value(s.as_str()),
        JsonValue::Array(items) => {
            let ghost wanted = canonical(tree.model())->Array_0;
            let mut values: Vec<serde_json::Value> = Vec::new();
            let mut i: usize = 0;
            proof {
                tree.model_unfold();
            }
            while i < items.len()
                invariant
                    i <= items@.len(),
                    values@.len() == i,
                    tree == JsonValue::Array(*items),
                    tree.model() == Json::Array(items_model(items@)),
                    wanted == canonical(tree.model())->Array_0,
                    wanted.len() == items@.len(),
                    forall|k: int| 0 <= k < i ==> content(#[trigger] values@[k]) == wanted[k],
                decreases items@.len() - i,
            {
                proof {
                    vstd::std_specs::vec::axiom_vec_index_decreases(*items, i as int);
                    assert(decreases_to!(tree => tree->Array_0));
                    assert(wanted[i as int] == canonical(items@[i as int].model()));
                }
                let value = value_of(&items[i]);
                values.push(value);
                i = i + 1;
            }
            assert(items_content(values@) =~= wanted);
            array_value(values)
        },
        JsonValue::Object(members) => {
            let ghost wanted = canonical_members(members_model(members@));
            let mut pairs: Vec<(String, serde_json::Value)> = Vec::new();
            let mut i: usize = 0;
            proof {
                tree.model_unfold();
            }
            while i < members.len()
                invariant
                    i <= members@.len(),
                    pairs@.len() == i,
                    tree == JsonValue::Object(*members),
                    wanted == canonical_members(members_model(members@)),
                    wanted.len() == members@.len(),
                    forall|k: int|
                        0 <= k < i ==> (#[trigger] pairs@[k]).0@ == wanted[k].0 && content(
                            pairs@[k].1,
                        ) == wanted[k].1,
                decreases members@.len() - i,
            {
                proof {
                    vstd::std_specs::vec::axiom_vec_index_decreases(*members, i as int);
                    assert(decreases_to!(tree => tree->Object_0));
                    assert(wanted[i as int] == (
                        members@[i as int].0@,
                        canonical(members@[i as int].1.model()),
                    ));
                }
                let value = value_of(&members[i].1);
                pairs.push((members[i].0.clone(), value));
                i = i + 1;
            }
            assert(pairs_content(pairs@) =~= wanted);
            object_value(pairs)
        },
    }
}

/// Reads a JSON text. `None` where `serde_json` rejects the text.
pub fn parse(text: &[u8]) -> (r: Option<JsonValue>)
    ensures
        match r {
            Some(tree) => parsed(text@) == Some(tree.model()),
            None => parsed(text@).is_none(),
        },
{
    match read_value(text) {
        Some(value) => Some(tree_of(&value)),
        None => None,
    }
}

/// Writes a document as JSON text: the text that `serde_json` writes for
/// the document as it holds it, and `None` exactly where `serde_json`
/// reports that it could not write it.
pub fn to_bytes(document: &JsonValue) -> (r: Option<Vec<u8>>)
    ensures
        match r {
            Some(text) => printed(canonical(document.model())) == Some(text@),
            None => printed(canonical(document.model())).is_none(),
        },
{
    write_value(&value_of(document))
}

} // verus!
