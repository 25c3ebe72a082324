use vstd::prelude::*;
use vstd::string::StringExecFns;

verus! {

/// The mathematical model of a JSON document.
pub enum Json {
    Null,
    Bool(bool),
    Int(i64),
    Number(Seq<char>),
    Str(Seq<char>),
    Array(Seq<Json>),
    Object(Seq<(Seq<char>, Json)>),
}

/// A JSON document held in memory.
#[derive(Debug, PartialEq)]
pub enum JsonValue {
    Null,
    Bool(bool),
    Int(i64),
    /// A number that does not fit an `i64` (a fraction, an exponent, a large
    /// unsigned value), kept as its literal text.
    Number(String),
    Str(String),
    Array(Vec<JsonValue>),
    Object(Vec<(String, JsonValue)>),
}

pub open spec fn json_view(v: JsonValue) -> Json
    decreases v,
{
    match v {
        JsonValue::Null => Json::Null,
        JsonValue::Bool(b) => Json::Bool(b),
        JsonValue::Int(n) => Json::Int(n),
        JsonValue::Number(s) => Json::Number(s@),
        JsonValue::Str(s) => Json::Str(s@),
        JsonValue::Array(items) => Json::Array(items_view(items@)),
        JsonValue::Object(entries) => Json::Object(entries_view(entries@)),
    }
}

pub open spec fn items_view(items: Seq<JsonValue>) -> Seq<Json>
    decreases items,
{
    Seq::new(
        items.len(),
        |i: int|
            if 0 <= i < items.len() {
                json_view(items[i])
            } else {
                Json::Null
            },
    )
}

pub open spec fn entries_view(entries: Seq<(String, JsonValue)>) -> Seq<(Seq<char>, Json)>
    decreases entries,
{
    Seq::new(
        entries.len(),
        |i: int|
            if 0 <= i < entries.len() {
                (entries[i].0@, json_view(entries[i].1))
            } else {
                (Seq::empty(), Json::Null)
            },
    )
}

impl View for JsonValue {
    type V = Json;

    open spec fn view(&self) -> Json {
        json_view(*self)
    }
}

pub open spec fn opt_json(v: Option<JsonValue>) -> Option<Json> {
    match v {
        Some(j) => Some(j@),
        None => None,
    }
}

pub open spec fn opt_str(v: Option<String>) -> Option<Seq<char>> {
    match v {
        Some(s) => Some(s@),
        None => None,
    }
}

impl Clone for JsonValue {
    fn clone(&self) -> (r: JsonValue)
        ensures
            r@ == self@,
    {
        self.duplicate()
    }
}

impl JsonValue {
    /// A copy of this document that shares nothing with it.
    pub fn duplicate(&self) -> (r: JsonValue)
        ensures
            r@ == self@,
        decreases self,
    {
        match self {
            JsonValue::Null => JsonValue::Null,
            JsonValue::Bool(b) => JsonValue::Bool(*b),
            JsonValue::Int(n) => JsonValue::Int(*n),
            JsonValue::Number(s) => JsonValue::Number(s.clone()),
            JsonValue::Str(s) => JsonValue::Str(s.clone()),
            JsonValue::Array(items) => {
                let mut out: Vec<JsonValue> = Vec::new();
                let mut i: usize = 0;
                while i < items.len()
                    invariant
                        *self == JsonValue::Array(*items),
                        i <= items@.len(),
                        out@.len() == i,
                        forall|k: int| 0 <= k < i ==> #[trigger] out@[k]@ == items@[k]@,
                    decreases items@.len() - i,
                {
                    proof {
                        assert(decreases_to!(*self => self->Array_0));
                        assert(decreases_to!(*items => items[i as int]));
                    }
                    let item = items[i].duplicate();
                    out.push(item);
                    i += 1;
                }
                assert forall|k: int| 0 <= k < out@.len() implies #[trigger] items_view(out@)[k]
                    == items_view(items@)[k] by {
                    assert(out@[k]@ == items@[k]@);
                }
                assert(items_view(out@) =~= items_view(items@));
                JsonValue::Array(out)
            },
            JsonValue::Object(entries) => {
                let mut out: Vec<(String, JsonValue)> = Vec::new();
                let mut i: usize = 0;
                while i < entries.len()
                    invariant
                        *self == JsonValue::Object(*entries),
                        i <= entries@.len(),
                        out@.len() == i,
                        forall|k: int|
                            0 <= k < i ==> (#[trigger] out@[k]).0@ == entries@[k].0@ && out@[k].1@
                                == entries@[k].1@,
                    decreases entries@.len() - i,
                {
                    proof {
                        assert(decreases_to!(*self => self->Object_0));
                        assert(decreases_to!(*entries => entries[i as int]));
                        assert(decreases_to!(entries[i as int] => entries[i as int].1));
                    }
                    let value = entries[i].1.duplicate();
                    out.push((entries[i].0.clone(), value));
                    i += 1;
                }
                assert forall|k: int| 0 <= k < out@.len() implies #[trigger] entries_view(out@)[k]
                    == entries_view(entries@)[k] by {
                    assert(out@[k].0@ == entries@[k].0@ && out@[k].1@ == entries@[k].1@);
                }
                assert(entries_view(out@) =~= entries_view(entries@));
                JsonValue::Object(out)
            },
        }
    }
}

/// The value stored under `key` among an object's entries. Where a key occurs
/// more than once, the last occurrence wins.
pub open spec fn lookup(entries: Seq<(Seq<char>, Json)>, key: Seq<char>) -> Option<Json>
    decreases entries.len(),
{
    if entries.len() == 0 {
        None
    } else if entries.last().0 == key {
        Some(entries.last().1)
    } else {
        lookup(entries.drop_last(), key)
    }
}

/// The entries that an object is written with, given its fields in declared
/// order: a present field is written under its key, an absent one is left out.
pub open spec fn present(fields: Seq<(Seq<char>, Option<Json>)>) -> Seq<(Seq<char>, Json)>
    decreases fields.len(),
{
    if fields.len() == 0 {
        Seq::empty()
    } else {
        let rest = present(fields.drop_last());
        match fields.last().1 {
            Some(v) => rest.push((fields.last().0, v)),
            None => rest,
        }
    }
}

/// No two fields share a key.
pub open spec fn keys_distinct(fields: Seq<(Seq<char>, Option<Json>)>) -> bool {
    forall|i: int, j: int|
        0 <= i < fields.len() && 0 <= j < fields.len() && i != j ==> #[trigger] fields[i].0
            != #[trigger] fields[j].0
}

/// A key that no field carries is found nowhere among the written entries.
pub proof fn lemma_present_lacks(fields: Seq<(Seq<char>, Option<Json>)>, key: Seq<char>)
    requires
        forall|i: int| 0 <= i < fields.len() ==> #[trigger] fields[i].0 != key || fields[i].1 is None,
    ensures
        lookup(present(fields), key) is None,
        forall|k: int| 0 <= k < present(fields).len() ==> #[trigger] present(fields)[k].0 != key,
    decreases fields.len(),
{
    if fields.len() > 0 {
        let rest = fields.drop_last();
        assert forall|i: int| 0 <= i < rest.len() implies #[trigger] rest[i].0 != key
            || rest[i].1 is None by {
            assert(rest[i] == fields[i]);
        }
        lemma_present_lacks(rest, key);
        assert(fields.last() == fields[fields.len() - 1]);
        match fields.last().1 {
            Some(v) => {
                let p = present(rest).push((fields.last().0, v));
                assert(p.drop_last() =~= present(rest));
            },
            None => {},
        }
    }
}

/// Reading a field back from the written entries gives what was written: the
/// value of a present field, and nothing for an absent one.
pub proof fn lemma_present_lookup(fields: Seq<(Seq<char>, Option<Json>)>, i: int)
    requires
        keys_distinct(fields),
        0 <= i < fields.len(),
    ensures
        lookup(present(fields), fields[i].0) == fields[i].1,
    decreases fields.len(),
{
    let rest = fields.drop_last();
    let last = fields.len() - 1;
    assert(fields.last() == fields[last]);
    if i == last {
        match fields.last().1 {
            Some(v) => {},
            None => {
                assert forall|j: int| 0 <= j < rest.len() implies #[trigger] rest[j].0
                    != fields[i].0 || rest[j].1 is None by {
                    assert(rest[j] == fields[j]);
                }
                lemma_present_lacks(rest, fields[i].0);
            },
        }
    } else {
        assert(rest[i] == fields[i]);
        assert(keys_distinct(rest)) by {
            assert forall|a: int, b: int|
                0 <= a < rest.len() && 0 <= b < rest.len() && a != b implies #[trigger] rest[a].0
                != #[trigger] rest[b].0 by {
                assert(rest[a] == fields[a]);
                assert(rest[b] == fields[b]);
            }
        }
        lemma_present_lookup(rest, i);
        match fields.last().1 {
            Some(v) => {
                let p = present(rest).push((fields.last().0, v));
                assert(p.drop_last() =~= present(rest));
            },
            None => {},
        }
    }
}

/// What decoding reports when a document does not have the expected shape.
pub enum WireFault {
    NotAnObject { owner: Seq<char>, raw: Json },
    MissingField { owner: Seq<char>, field: Seq<char> },
    InvalidValue { field: Seq<char>, raw: Json },
}

/// A document that does not have the shape that a type expects.
#[derive(Debug, Clone, PartialEq)]
pub enum WireError {
    /// The type is read from a JSON object and got something else.
    NotAnObject { owner: String, raw: JsonValue },
    /// A required field is absent.
    MissingField { owner: String, field: String },
    /// A field holds a value of the wrong JSON type, or a token that names no
    /// variant.
    InvalidValue { field: String, raw: JsonValue },
}

impl View for WireError {
    type V = WireFault;

    open spec fn view(&self) -> WireFault {
        match self {
            WireError::NotAnObject { owner, raw } => WireFault::NotAnObject {
                owner: owner@,
                raw: raw@,
            },
            WireError::MissingField { owner, field } => WireFault::MissingField {
                owner: owner@,
                field: field@,
            },
            WireError::InvalidValue { field, raw } => WireFault::InvalidValue {
                field: field@,
                raw: raw@,
            },
        }
    }
}

/// A decoding outcome seen through the views of its value and its error.
pub open spec fn rview<T: View>(r: Result<T, WireError>) -> Result<T::V, WireFault> {
    match r {
        Ok(v) => Ok(v@),
        Err(e) => Err(e@),
    }
}

pub open spec fn as_int(j: Json) -> Option<i64> {
    match j {
        Json::Int(n) => Some(n),
        _ => None,
    }
}

pub open spec fn as_bool(j: Json) -> Option<bool> {
    match j {
        Json::Bool(b) => Some(b),
        _ => None,
    }
}

pub open spec fn as_str(j: Json) -> Option<Seq<char>> {
    match j {
        Json::Str(s) => Some(s),
        _ => None,
    }
}

/// A required field read with `read`.
pub open spec fn required<T>(
    entries: Seq<(Seq<char>, Json)>,
    key: Seq<char>,
    owner: Seq<char>,
    read: spec_fn(Json) -> Option<T>,
) -> Result<T, WireFault> {
    match lookup(entries, key) {
        None => Err(WireFault::MissingField { owner: owner, field: key }),
        Some(v) => match read(v) {
            Some(x) => Ok(x),
            None => Err(WireFault::InvalidValue { field: key, raw: v }),
        },
    }
}

/// An optional field read with `read`: absent and `null` both mean absent.
pub open spec fn optional<T>(
    entries: Seq<(Seq<char>, Json)>,
    key: Seq<char>,
    read: spec_fn(Json) -> Option<T>,
) -> Result<Option<T>, WireFault> {
    match lookup(entries, key) {
        None => Ok(None),
        Some(Json::Null) => Ok(None),
        Some(v) => match read(v) {
            Some(x) => Ok(Some(x)),
            None => Err(WireFault::InvalidValue { field: key, raw: v }),
        },
    }
}

/// An optional field that holds any JSON value.
pub open spec fn optional_any(entries: Seq<(Seq<char>, Json)>, key: Seq<char>) -> Option<Json> {
    match lookup(entries, key) {
        None => None,
        Some(Json::Null) => None,
        Some(v) => Some(v),
    }
}

pub open spec fn req_int(entries: Seq<(Seq<char>, Json)>, key: Seq<char>, owner: Seq<char>) -> Result<i64, WireFault> {
    required(entries, key, owner, |j: Json| as_int(j))
}

pub open spec fn opt_int(entries: Seq<(Seq<char>, Json)>, key: Seq<char>) -> Result<Option<i64>, WireFault> {
    optional(entries, key, |j: Json| as_int(j))
}

pub open spec fn req_bool(entries: Seq<(Seq<char>, Json)>, key: Seq<char>, owner: Seq<char>) -> Result<bool, WireFault> {
    required(entries, key, owner, |j: Json| as_bool(j))
}

pub open spec fn opt_bool(entries: Seq<(Seq<char>, Json)>, key: Seq<char>) -> Result<Option<bool>, WireFault> {
    optional(entries, key, |j: Json| as_bool(j))
}

pub open spec fn req_str(entries: Seq<(Seq<char>, Json)>, key: Seq<char>, owner: Seq<char>) -> Result<Seq<char>, WireFault> {
    required(entries, key, owner, |j: Json| as_str(j))
}

pub open spec fn opt_string(entries: Seq<(Seq<char>, Json)>, key: Seq<char>) -> Result<Option<Seq<char>>, WireFault> {
    optional(entries, key, |j: Json| as_str(j))
}

/// How an optional integer field is written.
pub open spec fn int_field(v: Option<i64>) -> Option<Json> {
    match v {
        Some(n) => Some(Json::Int(n)),
        None => None,
    }
}

/// How an optional boolean field is written.
pub open spec fn bool_field(v: Option<bool>) -> Option<Json> {
    match v {
        Some(b) => Some(Json::Bool(b)),
        None => None,
    }
}

/// How an optional string field is written.
pub open spec fn str_field(v: Option<Seq<char>>) -> Option<Json> {
    match v {
        Some(s) => Some(Json::Str(s)),
        None => None,
    }
}

pub fn int_value(v: Option<i64>) -> (r: Option<JsonValue>)
    ensures
        opt_json(r) == int_field(v),
{
    match v {
        Some(n) => Some(JsonValue::Int(n)),
        None => None,
    }
}

pub fn bool_value(v: Option<bool>) -> (r: Option<JsonValue>)
    ensures
        opt_json(r) == bool_field(v),
{
    match v {
        Some(b) => Some(JsonValue::Bool(b)),
        None => None,
    }
}

pub fn str_value(v: &Option<String>) -> (r: Option<JsonValue>)
    ensures
        opt_json(r) == str_field(opt_str(*v)),
{
    match v {
        Some(s) => Some(JsonValue::Str(s.clone())),
        None => None,
    }
}

/// The position of the entry that `lookup` reads for `key`.
pub fn find_key(entries: &Vec<(String, JsonValue)>, key: &str) -> (r: Option<usize>)
    ensures
        match r {
            Some(i) => i < entries@.len() && lookup(entries_view(entries@), key@) == Some(
                entries@[i as int].1@,
            ),
            None => lookup(entries_view(entries@), key@) is None,
        },
{
    let ghost ev = entries_view(entries@);
    let k = key.to_owned();
    let mut i: usize = entries.len();
    assert(ev.subrange(0, i as int) =~= ev);
    while i > 0
        invariant
            i <= entries@.len(),
            ev == entries_view(entries@),
            k@ == key@,
            lookup(ev, key@) == lookup(ev.subrange(0, i as int), key@),
        decreases i,
    {
        let ghost prefix = ev.subrange(0, i as int);
        assert(prefix.drop_last() =~= ev.subrange(0, i - 1));
        assert(prefix.last() == ev[i - 1]);
        if entries[i - 1].0 == k {
            return Some(i - 1);
        }
        i -= 1;
    }
    assert(ev.subrange(0, 0).len() == 0);
    None
}

/// Builds the entries of a JSON object one field at a time.
pub struct ObjectWriter {
    pub entries: Vec<(String, JsonValue)>,
    pub fields: Ghost<Seq<(Seq<char>, Option<Json>)>>,
}

impl ObjectWriter {
    pub open spec fn wf(&self) -> bool {
        entries_view(self.entries@) == present(self.fields@)
    }

    pub fn new() -> (r: ObjectWriter)
        ensures
            r.wf(),
            r.fields@ == Seq::<(Seq<char>, Option<Json>)>::empty(),
    {
        let r = ObjectWriter { entries: Vec::new(), fields: Ghost(Seq::empty()) };
        assert(entries_view(r.entries@) =~= Seq::empty());
        r
    }

    /// Writes `value` under `key` when it is present, and nothing when it is
    /// absent.
    pub fn field(&mut self, key: &str, value: Option<JsonValue>)
        requires
            old(self).wf(),
        ensures
            final(self).wf(),
            final(self).fields@ == old(self).fields@.push((key@, opt_json(value))),
    {
        let ghost before = self.fields@;
        let ghost fields = before.push((key@, opt_json(value)));
        assert(fields.drop_last() =~= before);
        assert(fields.last() == (key@, opt_json(value)));
        match value {
            Some(v) => {
                let ghost old_entries = self.entries@;
                self.entries.push((key.to_owned(), v));
                assert(entries_view(self.entries@) =~= entries_view(old_entries).push(
                    (key@, v@),
                ));
            },
            None => {},
        }
        self.fields = Ghost(fields);
    }

    /// Writes `value` under `key`.
    pub fn put(&mut self, key: &str, value: JsonValue)
        requires
            old(self).wf(),
        ensures
            final(self).wf(),
            final(self).fields@ == old(self).fields@.push((key@, Some(value@))),
    {
        self.field(key, Some(value));
    }

    pub fn finish(self) -> (r: JsonValue)
        requires
            self.wf(),
        ensures
            r@ == Json::Object(present(self.fields@)),
    {
        JsonValue::Object(self.entries)
    }
}

/// A required integer field.
pub fn read_int(entries: &Vec<(String, JsonValue)>, key: &str, owner: &str) -> (r: Result<
    i64,
    WireError,
>)
    ensures
        rview(r) == req_int(entries_view(entries@), key@, owner@),
{
    match find_key(entries, key) {
        None => Err(WireError::MissingField { owner: owner.to_owned(), field: key.to_owned() }),
        Some(i) => match &entries[i].1 {
            JsonValue::Int(n) => Ok(*n),
            other => Err(WireError::InvalidValue { field: key.to_owned(), raw: other.duplicate() }),
        },
    }
}

/// An optional integer field.
pub fn read_opt_int(entries: &Vec<(String, JsonValue)>, key: &str) -> (r: Result<
    Option<i64>,
    WireError,
>)
    ensures
        rview(r) == opt_int(entries_view(entries@), key@),
{
    match find_key(entries, key) {
        None => Ok(None),
        Some(i) => match &entries[i].1 {
            JsonValue::Null => Ok(None),
            JsonValue::Int(n) => Ok(Some(*n)),
            other => Err(WireError::InvalidValue { field: key.to_owned(), raw: other.duplicate() }),
        },
    }
}

/// A required boolean field.
pub fn read_bool(entries: &Vec<(String, JsonValue)>, key: &str, owner: &str) -> (r: Result<
    bool,
    WireError,
>)
    ensures
        rview(r) == req_bool(entries_view(entries@), key@, owner@),
{
    match find_key(entries, key) {
        None => Err(WireError::MissingField { owner: owner.to_owned(), field: key.to_owned() }),
        Some(i) => match &entries[i].1 {
            JsonValue::Bool(b) => Ok(*b),
            other => Err(WireError::InvalidValue { field: key.to_owned(), raw: other.duplicate() }),
        },
    }
}

/// An optional boolean field.
pub fn read_opt_bool(entries: &Vec<(String, JsonValue)>, key: &str) -> (r: Result<
    Option<bool>,
    WireError,
>)
    ensures
        rview(r) == opt_bool(entries_view(entries@), key@),
{
    match find_key(entries, key) {
        None => Ok(None),
        Some(i) => match &entries[i].1 {
            JsonValue::Null => Ok(None),
            JsonValue::Bool(b) => Ok(Some(*b)),
            other => Err(WireError::InvalidValue { field: key.to_owned(), raw: other.duplicate() }),
        },
    }
}

/// A required string field.
pub fn read_str(entries: &Vec<(String, JsonValue)>, key: &str, owner: &str) -> (r: Result<
    String,
    WireError,
>)
    ensures
        rview(r) == req_str(entries_view(entries@), key@, owner@),
{
    match find_key(entries, key) {
        None => Err(WireError::MissingField { owner: owner.to_owned(), field: key.to_owned() }),
        Some(i) => match &entries[i].1 {
            JsonValue::Str(s) => Ok(s.clone()),
            other => Err(WireError::InvalidValue { field: key.to_owned(), raw: other.duplicate() }),
        },
    }
}

/// An optional string field.
pub fn read_opt_str(entries: &Vec<(String, JsonValue)>, key: &str) -> (r: Result<
    Option<String>,
    WireError,
>)
    ensures
        match r {
            Ok(v) => opt_string(entries_view(entries@), key@) == Ok::<
                Option<Seq<char>>,
                WireFault,
            >(opt_str(v)),
            Err(e) => opt_string(entries_view(entries@), key@) == Err::<
                Option<Seq<char>>,
                WireFault,
            >(e@),
        },
{
    match find_key(entries, key) {
        None => Ok(None),
        Some(i) => match &entries[i].1 {
            JsonValue::Null => Ok(None),
            JsonValue::Str(s) => Ok(Some(s.clone())),
            other => Err(WireError::InvalidValue { field: key.to_owned(), raw: other.duplicate() }),
        },
    }
}

/// An optional field that holds any JSON value.
pub fn read_opt_any(entries: &Vec<(String, JsonValue)>, key: &str) -> (r: Option<JsonValue>)
    ensures
        opt_json(r) == optional_any(entries_view(entries@), key@),
{
    match find_key(entries, key) {
        None => None,
        Some(i) => match &entries[i].1 {
            JsonValue::Null => None,
            other => Some(other.duplicate()),
        },
    }
}


/// A copy of an optional document.
pub fn duplicate_opt(v: &Option<JsonValue>) -> (r: Option<JsonValue>)
    ensures
        opt_json(r) == opt_json(*v),
{
    match v {
        Some(j) => Some(j.duplicate()),
        None => None,
    }
}

pub open spec fn opt_str_list(v: Option<Vec<String>>) -> Option<Seq<Seq<char>>> {
    match v {
        Some(items) => Some(items@.map_values(|s: String| s@)),
        None => None,
    }
}

/// The strings of a JSON array that holds nothing but strings.
pub open spec fn as_str_list(j: Json) -> Option<Seq<Seq<char>>> {
    match j {
        Json::Array(items) => if forall|i: int| 0 <= i < items.len() ==> #[trigger] items[i] is Str {
            Some(items.map_values(|x: Json| x->Str_0))
        } else {
            None
        },
        _ => None,
    }
}

pub open spec fn opt_strings(entries: Seq<(Seq<char>, Json)>, key: Seq<char>) -> Result<
    Option<Seq<Seq<char>>>,
    WireFault,
> {
    optional(entries, key, |j: Json| as_str_list(j))
}

/// An optional field that holds an array of strings.
pub fn read_opt_str_list(entries: &Vec<(String, JsonValue)>, key: &str) -> (r: Result<
    Option<Vec<String>>,
    WireError,
>)
    ensures
        match r {
            Ok(v) => opt_strings(entries_view(entries@), key@) == Ok::<
                Option<Seq<Seq<char>>>,
                WireFault,
            >(opt_str_list(v)),
            Err(e) => opt_strings(entries_view(entries@), key@) == Err::<
                Option<Seq<Seq<char>>>,
                WireFault,
            >(e@),
        },
{
    match find_key(entries, key) {
        None => Ok(None),
        Some(i) => {
            let v = &entries[i].1;
            match v {
                JsonValue::Null => Ok(None),
                JsonValue::Array(items) => {
                    let ghost iv = items_view(items@);
                    let mut out: Vec<String> = Vec::new();
                    let mut k: usize = 0;
                    while k < items.len()
                        invariant
                            k <= items@.len(),
                            iv == items_view(items@),
                            v@ == Json::Array(iv),
                            lookup(entries_view(entries@), key@) == Some(v@),
                            out@.len() == k,
                            forall|m: int| 0 <= m < k ==> #[trigger] iv[m] is Str && out@[m]@ == iv[m]->Str_0,
                        decreases items@.len() - k,
                    {
                        match &items[k] {
                            JsonValue::Str(s) => {
                                out.push(s.clone());
                            },
                            _ => {
                                assert(!(iv[k as int] is Str));
                                return Err(WireError::InvalidValue { field: key.to_owned(), raw: v.duplicate() });
                            },
                        }
                        k += 1;
                    }
                    assert(out@.map_values(|s: String| s@) =~= iv.map_values(|x: Json| x->Str_0));
                    Ok(Some(out))
                },
                _ => Err(WireError::InvalidValue { field: key.to_owned(), raw: v.duplicate() }),
            }
        },
    }
}


/// A copy of the entries of an object that shares nothing with them.
pub fn duplicate_entries(entries: &Vec<(String, JsonValue)>) -> (r: Vec<(String, JsonValue)>)
    ensures
        entries_view(r@) == entries_view(entries@),
{
    let mut out: Vec<(String, JsonValue)> = Vec::new();
    let mut i: usize = 0;
    while i < entries.len()
        invariant
            i <= entries@.len(),
            out@.len() == i,
            forall|k: int|
                0 <= k < i ==> (#[trigger] out@[k]).0@ == entries@[k].0@ && out@[k].1@
                    == entries@[k].1@,
        decreases entries@.len() - i,
    {
        let value = entries[i].1.duplicate();
        out.push((entries[i].0.clone(), value));
        i += 1;
    }
    assert forall|k: int| 0 <= k < out@.len() implies #[trigger] entries_view(out@)[k]
        == entries_view(entries@)[k] by {
        assert(out@[k].0@ == entries@[k].0@ && out@[k].1@ == entries@[k].1@);
    }
    assert(entries_view(out@) =~= entries_view(entries@));
    out
}


/// What an error inside the value under `key` becomes for the enclosing
/// object: a field path through `key`, or, where that value is not an object,
/// an invalid value at `key`.
pub open spec fn nested_fault(key: Seq<char>, f: WireFault) -> WireFault {
    match f {
        WireFault::NotAnObject { owner, raw } => WireFault::InvalidValue { field: key, raw },
        WireFault::MissingField { owner, field } => WireFault::MissingField {
            owner,
            field: key + "."@ + field,
        },
        WireFault::InvalidValue { field, raw } => WireFault::InvalidValue {
            field: key + "."@ + field,
            raw,
        },
    }
}

pub fn nest_error(key: &str, e: WireError) -> (r: WireError)
    ensures
        r@ == nested_fault(key@, e@),
{
    match e {
        WireError::NotAnObject { owner: _, raw } => WireError::InvalidValue { field: key.to_owned(), raw },
        WireError::MissingField { owner, field } => {
            let mut path = key.to_owned();
            path.append(".");
            path.append(field.as_str());
            WireError::MissingField { owner, field: path }
        },
        WireError::InvalidValue { field, raw } => {
            let mut path = key.to_owned();
            path.append(".");
            path.append(field.as_str());
            WireError::InvalidValue { field: path, raw }
        },
    }
}

} // verus!
