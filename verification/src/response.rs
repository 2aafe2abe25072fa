//! The response envelope.
//!
//! Every Asana reply is one JSON object with two optional keys: `data`, an
//! arbitrary JSON value that defaults to `null`, and `errors`, a list of
//! API-reported errors that defaults to empty. [`Response`] parses that
//! envelope and offers typed extraction: one value, many values, or the
//! error list. When errors are present they take precedence: the consuming
//! extractor returns them without ever reading `data`.

use vstd::prelude::*;

use crate::json::{
    depth, ints_only, ints_only_check, json_parse, keys_sorted, lemma_depth_lookup,
    lemma_keys_sorted_lookup, lookup, obj_view, parse_text, to_text, Json, JsonValue, MAX_DEPTH,
};
use crate::schema::{decode_arr, decode_vec, views_of, Error, ErrorV, FromJson};

verus! {

/// Why a reply's text could not be read as an envelope.
#[derive(Debug, PartialEq, Eq, Structural)]
pub enum ParseError {
    /// The text is not valid JSON.
    NotJson,
    /// The text is valid JSON but not an object, or its `errors` key does
    /// not hold an array of error-shaped objects.
    BadEnvelope,
}

/// A parsed reply: the `data` payload and the reported errors.
#[derive(Debug)]
pub struct Response {
    pub data: JsonValue,
    pub errors: Vec<Error>,
}

/// The model of a [`Response`].
pub struct ResponseV {
    pub data: Json,
    pub errors: Seq<ErrorV>,
}

impl View for Response {
    type V = ResponseV;

    open spec fn view(&self) -> ResponseV {
        ResponseV { data: self.data@, errors: views_of(self.errors@) }
    }
}

/// What parsing makes of a JSON document: the envelope, or `None` when the
/// document is not an object or its `errors` key is malformed. A missing
/// `data` key defaults to `null`; a missing `errors` key defaults to the
/// empty list.
pub open spec fn envelope_spec(j: Json) -> Option<ResponseV> {
    match j {
        Json::Obj(fs) => {
            let data = match lookup(fs, "data"@) {
                Option::Some(d) => d,
                Option::None => Json::Null,
            };
            match lookup(fs, "errors"@) {
                Option::None => Option::Some(ResponseV { data, errors: Seq::empty() }),
                Option::Some(e) => match decode_arr::<Error>(e) {
                    Option::Some(errors) => Option::Some(ResponseV { data, errors }),
                    Option::None => Option::None,
                },
            }
        },
        _ => Option::None,
    }
}

/// What multi-value extraction makes of the `data` payload: a single
/// decodable `T` comes back as a one-element sequence — this reading is
/// tried first — and otherwise the payload must be an array whose elements
/// all decode; the empty array yields the empty sequence.
pub open spec fn values_spec<T: FromJson>(d: Json) -> Option<Seq<T::V>> {
    match T::decode_spec(d) {
        Option::Some(v) => Option::Some(seq![v]),
        Option::None => decode_arr::<T>(d),
    }
}

impl Response {
    /// Parses a reply's text into an envelope. The payload comes out with
    /// every object's keys sorted, as `serde_json`'s maps keep them, and
    /// nested no deeper than the parser accepts.
    pub fn from_text(text: &str) -> (r: Result<Response, ParseError>)
        ensures
            match r {
                Result::Ok(resp) => json_parse(text@) matches Option::Some(j)
                    && envelope_spec(j) == Option::Some(resp@) && keys_sorted(resp.data@)
                    && depth(resp.data@) <= MAX_DEPTH as nat,
                Result::Err(ParseError::NotJson) => json_parse(text@) is None,
                Result::Err(ParseError::BadEnvelope) => json_parse(text@) matches Option::Some(j)
                    && envelope_spec(j) is None,
            },
    {
        match parse_text(text) {
            Option::None => Result::Err(ParseError::NotJson),
            Option::Some(v) => match v {
                JsonValue::Obj(fields) => {
                    proof {
                        lemma_keys_sorted_lookup(obj_view(fields@), "data"@);
                        lemma_depth_lookup(obj_view(fields@), "data"@);
                    }
                    let data: JsonValue = match get_data(&fields) {
                        Option::Some(d) => d,
                        Option::None => JsonValue::Null,
                    };
                    match crate::json::get_field(&fields, "errors") {
                        Option::None => {
                            let errors: Vec<Error> = Vec::new();
                            proof {
                                assert(views_of(errors@) =~= Seq::<ErrorV>::empty());
                            }
                            Result::Ok(Response { data, errors })
                        },
                        Option::Some(e) => match decode_vec::<Error>(e) {
                            Option::Some(errors) => Result::Ok(Response { data, errors }),
                            Option::None => Result::Err(ParseError::BadEnvelope),
                        },
                    }
                },
                _ => Result::Err(ParseError::BadEnvelope),
            },
        }
    }

    /// Reads `data` as one `T`. Absent exactly when `data` does not have
    /// the shape of `T`; the reported errors are not consulted.
    pub fn value<T: FromJson>(&self) -> (r: Option<T>)
        ensures
            match r {
                Option::Some(t) => T::decode_spec(self.data@) == Option::Some(t@),
                Option::None => T::decode_spec(self.data@) is None,
            },
    {
        T::from_json(&self.data)
    }

    /// The reported errors, exactly as parsed and in order; `None` when the
    /// reply reported none.
    pub fn errors(&self) -> (r: Option<Vec<Error>>)
        ensures
            match r {
                Option::Some(es) => self.errors@.len() > 0 && es@ == self.errors@,
                Option::None => self.errors@.len() == 0,
            },
    {
        if self.errors.len() > 0 {
            let es = self.errors.clone();
            proof {
                assert(es@ =~= self.errors@);
            }
            Option::Some(es)
        } else {
            Option::None
        }
    }

    /// Consumes the envelope: the reported errors when there are any —
    /// `data` is then never read — otherwise `data` decoded as `T`, or an
    /// empty error list when `data` does not have the shape of `T`.
    pub fn into<T: FromJson>(self) -> (r: Result<T, Vec<Error>>)
        ensures
            self.errors@.len() > 0 ==> r == Result::<T, Vec<Error>>::Err(self.errors),
            self.errors@.len() == 0 ==> match T::decode_spec(self.data@) {
                Option::Some(v) => r matches Result::Ok(t) && t@ == v,
                Option::None => r matches Result::Err(es) && es@.len() == 0,
            },
    {
        if self.errors.len() > 0 {
            return Result::Err(self.errors);
        }
        match T::from_json(&self.data) {
            Option::Some(t) => Result::Ok(t),
            Option::None => Result::Err(Vec::new()),
        }
    }

    /// Consumes the envelope, reading `data` as an array of `T`: the
    /// reported errors when there are any — `data` is then never read —
    /// otherwise the decoded vector, or an empty error list when `data` is
    /// not an array of `T`.
    pub fn into_vec<T: FromJson>(self) -> (r: Result<Vec<T>, Vec<Error>>)
        ensures
            self.errors@.len() > 0 ==> r == Result::<Vec<T>, Vec<Error>>::Err(self.errors),
            self.errors@.len() == 0 ==> match decode_arr::<T>(self.data@) {
                Option::Some(vs) => r matches Result::Ok(v) && views_of(v@) == vs,
                Option::None => r matches Result::Err(es) && es@.len() == 0,
            },
    {
        if self.errors.len() > 0 {
            return Result::Err(self.errors);
        }
        match decode_vec::<T>(&self.data) {
            Option::Some(v) => Result::Ok(v),
            Option::None => Result::Err(Vec::new()),
        }
    }

    /// Reads `data` as zero, one or many `T`: a single object first, then
    /// an array. An empty array is a present, empty vector; `None` only
    /// when neither reading fits.
    pub fn values<T: FromJson>(&self) -> (r: Option<Vec<T>>)
        ensures
            match r {
                Option::Some(v) => values_spec::<T>(self.data@) == Option::Some(views_of(v@)),
                Option::None => values_spec::<T>(self.data@) is None,
            },
    {
        match T::from_json(&self.data) {
            Option::Some(t) => {
                let ghost tv = t@;
                let mut out: Vec<T> = Vec::new();
                out.push(t);
                proof {
                    assert(views_of(out@) =~= seq![tv]);
                }
                Option::Some(out)
            },
            Option::None => decode_vec::<T>(&self.data),
        }
    }
}

/// Finds and copies the `data` payload out of the envelope's field list.
fn get_data(fields: &Vec<(String, JsonValue)>) -> (r: Option<JsonValue>)
    ensures
        match r {
            Option::Some(v) => lookup(obj_view(fields@), "data"@) == Option::Some(v@),
            Option::None => lookup(obj_view(fields@), "data"@) is None,
        },
{
    match crate::json::get_field(fields, "data") {
        Option::Some(d) => Option::Some(d.clone()),
        Option::None => Option::None,
    }
}

/// The round trip: re-serializing a parsed envelope's `data` and
/// re-deserializing it into the same target shape reads back exactly what
/// direct single-value extraction reads — the two agree on success, and on
/// the value. The two premises — sorted keys and bounded nesting — hold of
/// every payload that came out of [`Response::from_text`]. The trip is
/// reported `None` only when `data` holds a number that is not a canonical
/// integer literal, the one payload whose text the serializer does not
/// promise to preserve.
pub fn round_trip_value<T: FromJson>(resp: &Response) -> (r: Option<(Option<T>, Option<T>)>)
    requires
        keys_sorted(resp.data@),
        depth(resp.data@) <= MAX_DEPTH as nat,
    ensures
        match r {
            Option::Some(pair) => match (pair.0, pair.1) {
                (Option::Some(a), Option::Some(b)) => a@ == b@ && T::decode_spec(resp.data@)
                    == Option::Some(a@),
                (Option::None, Option::None) => T::decode_spec(resp.data@) is None,
                _ => false,
            },
            Option::None => !ints_only(resp.data@),
        },
{
    if !ints_only_check(&resp.data) {
        return Option::None;
    }
    let direct = resp.value::<T>();
    match to_text(&resp.data) {
        Option::Some(text) => match parse_text(text.as_str()) {
            Option::Some(v) => {
                proof {
                    assert(v@ == resp.data@);
                }
                let re = T::from_json(&v);
                Option::Some((direct, re))
            },
            Option::None => {
                proof {
                    assert(false);
                }
                Option::None
            },
        },
        Option::None => {
            proof {
                assert(false);
            }
            Option::None
        },
    }
}

/// A reply without an `errors` key always parses, and parses to an envelope
/// whose error list is empty — so the error accessor has nothing to return.
pub proof fn lemma_missing_errors_key(fs: Seq<(Seq<char>, Json)>)
    requires
        lookup(fs, "errors"@) is None,
    ensures
        envelope_spec(Json::Obj(fs)) matches Option::Some(rv) && rv.errors.len() == 0,
{
}

/// When a reply has no `data` key, its envelope — whenever the reply parses
/// at all, which can only fail on a malformed `errors` key — carries `null`
/// as its payload.
pub proof fn lemma_missing_data_key(fs: Seq<(Seq<char>, Json)>)
    requires
        lookup(fs, "data"@) is None,
    ensures
        match envelope_spec(Json::Obj(fs)) {
            Option::Some(rv) => rv.data == Json::Null,
            Option::None => lookup(fs, "errors"@) matches Option::Some(e) && decode_arr::<Error>(
                e,
            ) is None,
        },
{
}

/// A payload that decodes as a single `T` is read as the one-element
/// sequence holding exactly that value.
pub proof fn lemma_values_single<T: FromJson>(d: Json, v: T::V)
    requires
        T::decode_spec(d) == Option::Some(v),
    ensures
        values_spec::<T>(d) == Option::Some(seq![v]),
{
}

/// The empty array is read as the empty sequence: present, not absent.
pub proof fn lemma_values_empty_array<T: FromJson>()
    ensures
        values_spec::<T>(Json::Arr(Seq::empty())) == Option::Some(Seq::<T::V>::empty()),
{
    let d = Json::Arr(Seq::<Json>::empty());
    T::decode_obj_only(d);
    assert(Seq::new(0, |i: int| T::decode_spec(Seq::<Json>::empty()[i])->Some_0) =~= Seq::<
        T::V,
    >::empty());
}

/// A two-element array of decodable payloads is read elementwise, in its
/// original order.
pub proof fn lemma_values_pair<T: FromJson>(d1: Json, d2: Json, v1: T::V, v2: T::V)
    requires
        T::decode_spec(d1) == Option::Some(v1),
        T::decode_spec(d2) == Option::Some(v2),
    ensures
        values_spec::<T>(Json::Arr(seq![d1, d2])) == Option::Some(seq![v1, v2]),
{
    let items = seq![d1, d2];
    T::decode_obj_only(Json::Arr(items));
    assert(forall|i: int| 0 <= i < items.len() ==> (#[trigger] T::decode_spec(
        items[i],
    )) is Some) by {
        assert(items[0] == d1);
        assert(items[1] == d2);
    }
    assert(Seq::new(items.len(), |i: int| T::decode_spec(items[i])->Some_0) =~= seq![v1, v2]);
}

/// A payload that is neither an object nor an array — a string where an
/// object is expected, say — is read as absent.
pub proof fn lemma_values_mismatch<T: FromJson>(d: Json)
    requires
        !(d matches Json::Obj(_)),
        !(d matches Json::Arr(_)),
    ensures
        values_spec::<T>(d) is None,
{
    T::decode_obj_only(d);
}

} // verus!
