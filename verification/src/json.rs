//! A self-contained JSON tree: the wire payloads arrive as JSON text, and the
//! decoder works over this representation. Parsing text into the tree is
//! delegated to `serde_json`; everything that walks the tree is verified.

use vstd::prelude::*;

verus! {

broadcast use vstd::std_specs::vec::group_vec_axioms;

/// One JSON value. A number with an exact signed 64-bit representation is
/// `Int`; any other number is `Float`, carried as the IEEE-754 bit pattern of
/// its closest 64-bit binary approximation. An object is an ordered list of
/// key/value entries.
#[derive(Debug, PartialEq)]
pub enum Json {
    Null,
    Bool(bool),
    Int(i64),
    Float(u64),
    Str(String),
    Arr(Vec<Json>),
    Obj(Vec<(String, Json)>),
}

/// The mathematical shape of a `Json` tree: strings become sequences of
/// characters, vectors become sequences.
pub ghost enum JsonS {
    Null,
    Bool(bool),
    Int(i64),
    Float(u64),
    Str(Seq<char>),
    Arr(Seq<JsonS>),
    Obj(Seq<(Seq<char>, JsonS)>),
}

impl DeepView for Json {
    type V = JsonS;

    open spec fn deep_view(&self) -> JsonS
        decreases self,
    {
        match self {
            Json::Null => JsonS::Null,
            Json::Bool(b) => JsonS::Bool(*b),
            Json::Int(i) => JsonS::Int(*i),
            Json::Float(bits) => JsonS::Float(*bits),
            Json::Str(s) => JsonS::Str(s@),
            Json::Arr(items) => JsonS::Arr(
                Seq::new(
                    items@.len(),
                    |i: int|
                        if 0 <= i < items@.len() {
                            items@[i].deep_view()
                        } else {
                            JsonS::Null
                        },
                ),
            ),
            Json::Obj(entries) => JsonS::Obj(
                Seq::new(
                    entries@.len(),
                    |i: int|
                        if 0 <= i < entries@.len() {
                            (entries@[i].0@, entries@[i].1.deep_view())
                        } else {
                            (Seq::empty(), JsonS::Null)
                        },
                ),
            ),
        }
    }
}

impl Clone for Json {
    /// A structural copy: the copy has the same mathematical shape as the
    /// original.
    #[verifier::loop_isolation(false)]
    fn clone(&self) -> (r: Json)
        ensures
            r.deep_view() == self.deep_view(),
        decreases self,
    {
        match self {
            Json::Null => Json::Null,
            Json::Bool(b) => Json::Bool(*b),
            Json::Int(i) => Json::Int(*i),
            Json::Float(bits) => Json::Float(*bits),
            Json::Str(s) => Json::Str(s.clone()),
            Json::Arr(items) => {
                let mut out: Vec<Json> = Vec::new();
                let mut i: usize = 0;
                while i < items.len()
                    invariant
                        i <= items.len(),
                        out.len() == i,
                        forall|k: int|
                            0 <= k < i ==> out[k].deep_view() == items[k].deep_view(),
                    decreases items.len() - i,
                {
                    out.push(items[i].clone());
                    i += 1;
                }
                proof {
                    assert(Json::Arr(out).deep_view()->Arr_0 =~= self.deep_view()->Arr_0);
                }
                Json::Arr(out)
            },
            Json::Obj(entries) => {
                let mut out: Vec<(String, Json)> = Vec::new();
                let mut i: usize = 0;
                while i < entries.len()
                    invariant
                        i <= entries.len(),
                        out.len() == i,
                        forall|k: int|
                            0 <= k < i ==> out[k].0@ == entries[k].0@ && out[k].1.deep_view()
                                == entries[k].1.deep_view(),
                    decreases entries.len() - i,
                {
                    let e = &entries[i];
                    out.push((e.0.clone(), e.1.clone()));
                    i += 1;
                }
                proof {
                    assert(Json::Obj(out).deep_view()->Obj_0 =~= self.deep_view()->Obj_0);
                }
                Json::Obj(out)
            },
        }
    }
}

/// The shape of an array value is the shape of its items.
pub broadcast proof fn lemma_json_deep_view_arr(j: Json)
    requires
        j is Arr,
    ensures
        #[trigger] j.deep_view() == JsonS::Arr((j->Arr_0).deep_view()),
{
    reveal_with_fuel(<Json as DeepView>::deep_view, 2);
    assert(j.deep_view()->Arr_0 =~= (j->Arr_0).deep_view());
}

/// The shape of an object value is the shape of its entries.
pub broadcast proof fn lemma_json_deep_view_obj(j: Json)
    requires
        j is Obj,
    ensures
        #[trigger] j.deep_view() == JsonS::Obj((j->Obj_0).deep_view()),
{
    reveal_with_fuel(<Json as DeepView>::deep_view, 2);
    assert(j.deep_view()->Obj_0 =~= (j->Obj_0).deep_view());
}

/// What reading raw bytes as UTF-8 text comes to, with every ill-formed
/// sequence replaced: a function of the bytes alone, which only the trusted
/// conversion below says anything about.
pub uninterp spec fn lossy_text(bytes: Seq<u8>) -> Seq<char>;

/// Relies on `String::from_utf8_lossy`: the text depends on the bytes alone,
/// with ill-formed sequences replaced, so reading a payload never fails.
#[verifier::external_body]
pub(crate) fn utf8_lossy(bytes: &[u8]) -> (r: String)
    ensures
        r@ == lossy_text(bytes@),
{
    String::from_utf8_lossy(bytes).into_owned()
}

/// What parsing a given text comes to: `None` where the parser rejects the
/// text, and otherwise the document's tree. The outcome is a function of the
/// characters alone; only the trusted parser below says anything about it.
pub uninterp spec fn json_parse(s: Seq<char>) -> Option<JsonS>;

#[verifier::external_type_specification]
#[verifier::external_body]
pub struct ExSerdeValue(serde_json::Value);

#[verifier::external_type_specification]
#[verifier::external_body]
pub struct ExSerdeNumber(serde_json::Number);

/// Relies on `serde_json::Number::as_i64` and `as_f64`: a number with an
/// exact signed 64-bit reading becomes `Int`; any other becomes `Float`,
/// carried as its bit pattern. Both readings fail only under number
/// representations this crate does not enable.
#[verifier::external_body]
fn num_of_serde(n: &serde_json::Number) -> Option<Json> {
    match (n.as_i64(), n.as_f64()) {
        (Some(i), _) => Some(Json::Int(i)),
        (None, Some(x)) => Some(Json::Float(x.to_bits())),
        (None, None) => None,
    }
}

/// Relies on `serde_json::Value`'s variants: each arm moves one variant's
/// contents into the matching `Json` variant, recursing into arrays and
/// objects.
#[verifier::external_body]
fn json_of_serde(v: serde_json::Value) -> Option<Json> {
    Some(match v {
        serde_json::Value::Null => Json::Null,
        serde_json::Value::Bool(b) => Json::Bool(b),
        serde_json::Value::Number(n) => num_of_serde(&n)?,
        serde_json::Value::String(s) => Json::Str(s),
        serde_json::Value::Array(a) => Json::Arr(
            a.into_iter().map(json_of_serde).collect::<Option<_>>()?,
        ),
        serde_json::Value::Object(m) => Json::Obj(
            m.into_iter().map(|e| Some((e.0, json_of_serde(e.1)?))).collect::<Option<_>>()?,
        ),
    })
}

/// Relies on `serde_json::from_str`: whether a text parses, and the tree it
/// parses to, depend on the characters alone, which is all `json_parse`
/// names.
#[verifier::external_body]
pub(crate) fn parse_json_text(s: &str) -> (r: Option<Json>)
    ensures
        r.deep_view() == json_parse(s@),
{
    match serde_json::from_str::<serde_json::Value>(s) {
        Ok(v) => json_of_serde(v),
        Err(_) => None,
    }
}

} // verus!
