//! A JSON document model with the lookup semantics of `serde_json::Value`.
use vstd::prelude::*;
use serde_json::Value;

verus! {

broadcast use vstd::std_specs::vec::group_vec_axioms;

/// A JSON number as `serde_json` keeps it: a non-negative integer, a negative
/// integer, or a finite float held by its IEEE-754 bit pattern.
#[derive(Clone, Copy, Debug, PartialEq, Eq, Structural)]
pub enum JsonNumber {
    PosInt(u64),
    NegInt(i64),
    FloatBits(u64),
}

/// A JSON document. Object entries keep the order in which they were read.
#[derive(Debug)]
pub enum Json {
    Null,
    Bool(bool),
    Number(JsonNumber),
    Str(String),
    Array(Vec<Json>),
    Object(Vec<(String, Json)>),
}

/// The mathematical value of a JSON document.
pub enum JsonModel {
    Null,
    Bool(bool),
    Number(JsonNumber),
    Str(Seq<char>),
    Array(Seq<JsonModel>),
    Object(Seq<(Seq<char>, JsonModel)>),
}

/// The mathematical value of a JSON document.
pub open spec fn model_of(j: Json) -> JsonModel
    decreases j, 0nat,
{
    match j {
        Json::Null => JsonModel::Null,
        Json::Bool(b) => JsonModel::Bool(b),
        Json::Number(n) => JsonModel::Number(n),
        Json::Str(s) => JsonModel::Str(s@),
        Json::Array(v) => JsonModel::Array(models_of(v@)),
        Json::Object(v) => JsonModel::Object(entry_models_of(v@)),
    }
}

/// The values of a sequence of documents, in order.
pub open spec fn models_of(s: Seq<Json>) -> Seq<JsonModel>
    decreases s, s.len(),
{
    if s.len() == 0 {
        Seq::empty()
    } else {
        seq![model_of(s[0])] + models_of(s.drop_first())
    }
}

/// The values of a sequence of object entries, in order.
pub open spec fn entry_models_of(s: Seq<(String, Json)>) -> Seq<(Seq<char>, JsonModel)>
    decreases s, s.len(),
{
    if s.len() == 0 {
        Seq::empty()
    } else {
        seq![(s[0].0@, model_of(s[0].1))] + entry_models_of(s.drop_first())
    }
}

pub proof fn lemma_models_of(s: Seq<Json>)
    ensures
        models_of(s).len() == s.len(),
        forall|i: int| 0 <= i < s.len() ==> #[trigger] models_of(s)[i] == model_of(s[i]),
    decreases s.len(),
{
    if s.len() > 0 {
        lemma_models_of(s.drop_first());
        assert forall|i: int| 0 <= i < s.len() implies #[trigger] models_of(s)[i] == model_of(s[i]) by {
            if i > 0 {
                assert(s.drop_first()[i - 1] == s[i]);
            }
        }
    }
}

pub proof fn lemma_entry_models_of(s: Seq<(String, Json)>)
    ensures
        entry_models_of(s).len() == s.len(),
        forall|i: int| 0 <= i < s.len() ==> #[trigger] entry_models_of(s)[i] == (s[i].0@, model_of(s[i].1)),
    decreases s.len(),
{
    if s.len() > 0 {
        lemma_entry_models_of(s.drop_first());
        assert forall|i: int| 0 <= i < s.len() implies #[trigger] entry_models_of(s)[i] == (s[i].0@, model_of(s[i].1)) by {
            if i > 0 {
                assert(s.drop_first()[i - 1] == s[i]);
            }
        }
    }
}

impl View for Json {
    type V = JsonModel;

    open spec fn view(&self) -> JsonModel {
        model_of(*self)
    }
}

/// The value of the first entry whose key is `key`.
pub open spec fn entries_get(es: Seq<(Seq<char>, JsonModel)>, key: Seq<char>) -> Option<JsonModel>
    decreases es.len(),
{
    if es.len() == 0 {
        None
    } else if es[0].0 == key {
        Some(es[0].1)
    } else {
        entries_get(es.drop_first(), key)
    }
}

impl JsonModel {
    /// `Value::get` with a string key: the member of an object, if present.
    pub open spec fn get(self, key: Seq<char>) -> Option<JsonModel> {
        match self {
            JsonModel::Object(es) => entries_get(es, key),
            _ => None,
        }
    }

    /// `value[key]`: the member of an object, or null where there is none.
    pub open spec fn at(self, key: Seq<char>) -> JsonModel {
        match self.get(key) {
            Some(v) => v,
            None => JsonModel::Null,
        }
    }

    pub open spec fn as_str(self) -> Option<Seq<char>> {
        match self {
            JsonModel::Str(s) => Some(s),
            _ => None,
        }
    }

    pub open spec fn as_bool(self) -> Option<bool> {
        match self {
            JsonModel::Bool(b) => Some(b),
            _ => None,
        }
    }

    pub open spec fn as_u64(self) -> Option<u64> {
        match self {
            JsonModel::Number(JsonNumber::PosInt(n)) => Some(n),
            _ => None,
        }
    }

    pub open spec fn as_i64(self) -> Option<i64> {
        match self {
            JsonModel::Number(JsonNumber::PosInt(n)) => if n <= i64::MAX {
                Some(n as i64)
            } else {
                None
            },
            JsonModel::Number(JsonNumber::NegInt(n)) => Some(n),
            _ => None,
        }
    }

    pub open spec fn as_array(self) -> Option<Seq<JsonModel>> {
        match self {
            JsonModel::Array(v) => Some(v),
            _ => None,
        }
    }

    pub open spec fn is_array(self) -> bool {
        self is Array
    }

    pub open spec fn is_object(self) -> bool {
        self is Object
    }

    pub open spec fn is_string(self) -> bool {
        self is Str
    }

    pub open spec fn is_null(self) -> bool {
        self is Null
    }

    /// `value == text`: the value is a string equal to `text`.
    pub open spec fn is_text(self, text: Seq<char>) -> bool {
        self.as_str() == Some(text)
    }

    /// `value == n` for an integer `n`.
    pub open spec fn is_int(self, n: i64) -> bool {
        self.as_i64() == Some(n)
    }
}

/// The value of an optional borrowed document.
pub open spec fn opt_model(o: Option<&Json>) -> Option<JsonModel> {
    match o {
        Some(j) => Some(j@),
        None => None,
    }
}

/// The text of an optional borrowed string.
pub open spec fn opt_text(o: Option<&String>) -> Option<Seq<char>> {
    match o {
        Some(s) => Some(s@),
        None => None,
    }
}

impl Json {
    /// The member `key` of an object; `None` for a missing key or a non-object.
    pub fn get(&self, key: &str) -> (r: Option<&Json>)
        ensures
            opt_model(r) == self@.get(key@),
    {
        match self {
            Json::Object(es) => {
                proof {
                    lemma_entry_models_of(es@);
                }
                let k = key.to_owned();
                let mut i: usize = 0;
                assert(entry_models_of(es@).skip(0) == entry_models_of(es@));
                while i < es.len()
                    invariant
                        0 <= i <= es.len(),
                        k@ == key@,
                        self@ == JsonModel::Object(entry_models_of(es@)),
                        entry_models_of(es@).len() == es@.len(),
                        forall|j: int| 0 <= j < es@.len() ==> #[trigger] entry_models_of(es@)[j] == (es@[j].0@, model_of(es@[j].1)),
                        entries_get(entry_models_of(es@), key@) == entries_get(entry_models_of(es@).skip(i as int), key@),
                    decreases es.len() - i,
                {
                    let ghost rest = entry_models_of(es@).skip(i as int);
                    assert(rest.drop_first() == entry_models_of(es@).skip(i + 1));
                    if es[i].0 == k {
                        return Some(&es[i].1);
                    }
                    i = i + 1;
                }
                None
            },
            _ => None,
        }
    }

    pub fn as_str(&self) -> (r: Option<&String>)
        ensures
            opt_text(r) == self@.as_str(),
    {
        match self {
            Json::Str(s) => Some(s),
            _ => None,
        }
    }

    pub fn as_bool(&self) -> (r: Option<bool>)
        ensures
            r == self@.as_bool(),
    {
        match self {
            Json::Bool(b) => Some(*b),
            _ => None,
        }
    }

    pub fn as_u64(&self) -> (r: Option<u64>)
        ensures
            r == self@.as_u64(),
    {
        match self {
            Json::Number(JsonNumber::PosInt(n)) => Some(*n),
            _ => None,
        }
    }

    pub fn as_i64(&self) -> (r: Option<i64>)
        ensures
            r == self@.as_i64(),
    {
        match self {
            Json::Number(JsonNumber::PosInt(n)) => {
                if *n <= 9223372036854775807u64 {
                    Some(*n as i64)
                } else {
                    None
                }
            },
            Json::Number(JsonNumber::NegInt(n)) => Some(*n),
            _ => None,
        }
    }

    pub fn as_array(&self) -> (r: Option<&Vec<Json>>)
        ensures
            r is Some <==> self@.is_array(),
            r matches Some(v) ==> self@.as_array() == Some(models_of(v@)),
    {
        match self {
            Json::Array(v) => Some(v),
            _ => None,
        }
    }

    pub fn is_array(&self) -> (r: bool)
        ensures
            r == self@.is_array(),
    {
        match self {
            Json::Array(_) => true,
            _ => false,
        }
    }

    pub fn is_object(&self) -> (r: bool)
        ensures
            r == self@.is_object(),
    {
        match self {
            Json::Object(_) => true,
            _ => false,
        }
    }

    pub fn is_string(&self) -> (r: bool)
        ensures
            r == self@.is_string(),
    {
        match self {
            Json::Str(_) => true,
            _ => false,
        }
    }

    pub fn is_null(&self) -> (r: bool)
        ensures
            r == self@.is_null(),
    {
        match self {
            Json::Null => true,
            _ => false,
        }
    }

    /// `value == text` in `serde_json`.
    pub fn is_text(&self, text: &str) -> (r: bool)
        ensures
            r == self@.is_text(text@),
    {
        match self {
            Json::Str(s) => *s == text.to_owned(),
            _ => false,
        }
    }

    /// `value == n` for an integer `n` in `serde_json`.
    pub fn is_int(&self, n: i64) -> (r: bool)
        ensures
            r == self@.is_int(n),
    {
        match self.as_i64() {
            Some(m) => m == n,
            None => false,
        }
    }

    /// A copy of the document.
    pub fn deep_clone(&self) -> (r: Json)
        ensures
            r@ == self@,
        decreases self,
    {
        match self {
            Json::Null => Json::Null,
            Json::Bool(b) => Json::Bool(*b),
            Json::Number(n) => Json::Number(*n),
            Json::Str(s) => Json::Str(s.clone()),
            Json::Array(v) => {
                let mut out: Vec<Json> = Vec::new();
                let mut i: usize = 0;
                proof {
                    lemma_models_of(v@);
                }
                while i < v.len()
                    invariant
                        0 <= i <= v.len(),
                        out@.len() == i,
                        *self == Json::Array(*v),
                        models_of(v@).len() == v@.len(),
                        forall|j: int| 0 <= j < v@.len() ==> #[trigger] models_of(v@)[j] == model_of(v@[j]),
                        forall|j: int| 0 <= j < i ==> #[trigger] model_of(out@[j]) == model_of(v@[j]),
                    decreases v.len() - i,
                {
                    proof {
                        assert(decreases_to!(*self => (*self)->Array_0));
                        assert(decreases_to!(*v => v[i as int]));
                    }
                    let e = v[i].deep_clone();
                    out.push(e);
                    i = i + 1;
                }
                proof {
                    lemma_models_of(out@);
                    assert(models_of(out@) =~= models_of(v@));
                }
                Json::Array(out)
            },
            Json::Object(v) => {
                let mut out: Vec<(String, Json)> = Vec::new();
                let mut i: usize = 0;
                proof {
                    lemma_entry_models_of(v@);
                }
                while i < v.len()
                    invariant
                        0 <= i <= v.len(),
                        out@.len() == i,
                        *self == Json::Object(*v),
                        entry_models_of(v@).len() == v@.len(),
                        forall|j: int| 0 <= j < v@.len() ==> #[trigger] entry_models_of(v@)[j] == (v@[j].0@, model_of(v@[j].1)),
                        forall|j: int| 0 <= j < i ==> #[trigger] out@[j].0@ == v@[j].0@ && model_of(out@[j].1) == model_of(v@[j].1),
                    decreases v.len() - i,
                {
                    proof {
                        assert(decreases_to!(*self => (*self)->Object_0));
                        assert(decreases_to!(*v => v[i as int]));
                        assert(decreases_to!(v[i as int] => v[i as int].1));
                    }
                    let k = v[i].0.clone();
                    let e = v[i].1.deep_clone();
                    out.push((k, e));
                    i = i + 1;
                }
                proof {
                    lemma_entry_models_of(out@);
                    assert(entry_models_of(out@) =~= entry_models_of(v@));
                }
                Json::Object(out)
            },
        }
    }
}

/// `value[key]` on an optional document: `None` stays `None`.
pub open spec fn opt_at(o: Option<JsonModel>, key: Seq<char>) -> Option<JsonModel> {
    match o {
        Some(m) => Some(m.at(key)),
        None => None,
    }
}

/// `Value::get` on an optional document.
pub open spec fn opt_get(o: Option<JsonModel>, key: Seq<char>) -> Option<JsonModel> {
    match o {
        Some(m) => m.get(key),
        None => None,
    }
}

/// The text of an optional document that is a string.
pub open spec fn opt_as_str(o: Option<JsonModel>) -> Option<Seq<char>> {
    match o {
        Some(m) => m.as_str(),
        None => None,
    }
}

/// The text of a string value, or `d` for any other value.
pub open spec fn text_or(j: JsonModel, d: Seq<char>) -> Seq<char> {
    match j.as_str() {
        Some(s) => s,
        None => d,
    }
}

/// The value of an optional owned string.
pub open spec fn opt_string_view(o: Option<String>) -> Option<Seq<char>> {
    match o {
        Some(s) => Some(s@),
        None => None,
    }
}

impl Json {
    /// `value[key]`: the member `key` of an object, or null.
    pub fn at(&self, key: &str) -> (r: &Json)
        ensures
            r@ == self@.at(key@),
    {
        match self.get(key) {
            Some(v) => v,
            None => &Json::Null,
        }
    }

    /// `value.as_str().unwrap_or("").to_string()`.
    pub fn text_or_empty(&self) -> (r: String)
        ensures
            r@ == text_or(self@, Seq::empty()),
    {
        match self {
            Json::Str(s) => s.clone(),
            _ => String::new(),
        }
    }

    /// `value.as_str().map(|s| s.to_string())`.
    pub fn text_owned(&self) -> (r: Option<String>)
        ensures
            opt_string_view(r) == self@.as_str(),
    {
        match self {
            Json::Str(s) => Some(s.clone()),
            _ => None,
        }
    }
}

/// `o.map(|v| &v[key])`.
pub fn member_of<'a>(o: Option<&'a Json>, key: &str) -> (r: Option<&'a Json>)
    ensures
        opt_model(r) == opt_at(opt_model(o), key@),
{
    match o {
        Some(v) => Some(v.at(key)),
        None => None,
    }
}

/// `o.and_then(|v| v.get(key))`.
pub fn get_in<'a>(o: Option<&'a Json>, key: &str) -> (r: Option<&'a Json>)
    ensures
        opt_model(r) == opt_get(opt_model(o), key@),
{
    match o {
        Some(v) => v.get(key),
        None => None,
    }
}

/// `o.and_then(|v| v.as_str()).map(|s| s.to_string())`.
pub fn opt_text_owned(o: Option<&Json>) -> (r: Option<String>)
    ensures
        opt_string_view(r) == opt_as_str(opt_model(o)),
{
    match o {
        Some(v) => v.text_owned(),
        None => None,
    }
}

#[verifier::external_type_specification]
#[verifier::external_body]
pub struct ExValue(serde_json::Value);

#[verifier::external_type_specification]
#[verifier::external_body]
pub struct ExNumber(serde_json::Number);

/// The document that `serde_json::from_str` reads from a text, or `None`
/// where the text is not JSON.
pub uninterp spec fn json_text_model(text: Seq<char>) -> Option<JsonModel>;

pub open spec fn opt_json_view(o: Option<Json>) -> Option<JsonModel> {
    match o {
        Some(j) => Some(j@),
        None => None,
    }
}

/// `serde_json::from_str::<serde_json::Value>`: reads a JSON text. Its
/// result is a function of the text alone (named `json_text_model`); the
/// value is copied one for one into a `Json`, object members in the order
/// that the map keeps them. Nothing more of the parser is stated.
#[verifier::external_body]
fn json_text_value(text: &str) -> (r: Option<Json>)
    ensures
        opt_json_view(r) == json_text_model(text@),
{
    match serde_json::from_str::<serde_json::Value>(text) {
        Ok(v) => Some(json_of_value(&v)),
        Err(_) => None,
    }
}

/// Copies a `serde_json::Number` into a `JsonNumber`: an integer that fits
/// a `u64`, else one that fits an `i64`, else the float's bits.
#[verifier::external_body]
fn json_number_of(n: &serde_json::Number) -> JsonNumber {
    match (n.as_u64(), n.as_i64()) {
        (Some(u), _) => JsonNumber::PosInt(u),
        (None, Some(i)) => JsonNumber::NegInt(i),
        (None, None) => JsonNumber::FloatBits(n.as_f64().map(|x| x.to_bits()).unwrap_or(0)),
    }
}

/// Copies a `serde_json::Value` into a `Json`, variant for variant.
#[verifier::external_body]
fn json_of_value(v: &Value) -> Json {
    match v {
        Value::Null => Json::Null,
        Value::Bool(b) => Json::Bool(*b),
        Value::Number(n) => Json::Number(json_number_of(n)),
        Value::String(t) => Json::Str(t.clone()),
        Value::Array(a) => Json::Array(a.iter().map(json_of_value).collect()),
        Value::Object(m) => Json::Object(m.iter().map(|(k, x)| (k.clone(), json_of_value(x))).collect()),
    }
}

/// Reads a JSON text: the answer text of a page script or a stored document.
pub fn parse_json_text(text: &str) -> (r: Option<Json>)
    ensures
        opt_json_view(r) == json_text_model(text@),
{
    json_text_value(text)
}

} // verus!
