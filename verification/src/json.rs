//! An in-memory model of a JSON document.
//!
//! [`JsonValue`] is the executable tree; its mathematical counterpart is
//! [`Json`], reached through the `view` operator. JSON text is turned into a
//! [`JsonValue`] by `serde_json` behind a trusted boundary; everything that
//! walks or builds the tree afterwards is verified against the [`Json`] model.

use vstd::prelude::*;

verus! {

/// A JSON document: null, a boolean, a number (kept as its literal text, so
/// that no floating point enters the library), a string, an array, or an
/// object given as a key/value list.
#[derive(Debug)]
pub enum JsonValue {
    Null,
    Bool(bool),
    Num(String),
    Text(String),
    Arr(Vec<JsonValue>),
    Obj(Vec<(String, JsonValue)>),
}

/// The mathematical shape of a JSON document, used by every contract.
pub enum Json {
    Null,
    Bool(bool),
    Num(Seq<char>),
    Text(Seq<char>),
    Arr(Seq<Json>),
    Obj(Seq<(Seq<char>, Json)>),
}

/// The model of an array's elements, elementwise.
pub open spec fn arr_view(items: Seq<JsonValue>) -> Seq<Json>
    decreases items,
{
    if items.len() == 0 {
        Seq::empty()
    } else {
        seq![json_view(items[0])] + arr_view(items.drop_first())
    }
}

/// The model of an object's key/value pairs, elementwise.
pub open spec fn obj_view(fields: Seq<(String, JsonValue)>) -> Seq<(Seq<char>, Json)>
    decreases fields,
{
    if fields.len() == 0 {
        Seq::empty()
    } else {
        seq![(fields[0].0@, json_view(fields[0].1))] + obj_view(fields.drop_first())
    }
}

/// The model of a JSON tree.
pub open spec fn json_view(v: JsonValue) -> Json
    decreases v,
{
    match v {
        JsonValue::Null => Json::Null,
        JsonValue::Bool(b) => Json::Bool(b),
        JsonValue::Num(s) => Json::Num(s@),
        JsonValue::Text(s) => Json::Text(s@),
        JsonValue::Arr(items) => Json::Arr(arr_view(items@)),
        JsonValue::Obj(fields) => Json::Obj(obj_view(fields@)),
    }
}

impl View for JsonValue {
    type V = Json;

    open spec fn view(&self) -> Json {
        json_view(*self)
    }
}

/// Declares `serde_json`'s value type so that the trusted converters below
/// can carry a parsed document across the boundary.
#[verifier::external_type_specification]
#[verifier::external_body]
pub struct ExValue(serde_json::Value);

/// What `serde_json::from_str::<serde_json::Value>` makes of a text: `None`
/// when the text is not valid JSON, otherwise the parsed document. The
/// result depends on the text alone, so it can be given a name.
pub uninterp spec fn json_parse(s: Seq<char>) -> Option<Json>;

/// Rebuilds a `serde_json::Value` as a [`JsonValue`], one variant at a time;
/// numbers keep the literal text that `serde_json` prints for them. Called
/// only from inside the trusted parsing boundary.
#[verifier::external_body]
fn of_value(v: serde_json::Value) -> JsonValue {
    match v {
        serde_json::Value::Null => JsonValue::Null,
        serde_json::Value::Bool(b) => JsonValue::Bool(b),
        serde_json::Value::Number(n) => JsonValue::Num(n.to_string()),
        serde_json::Value::String(s) => JsonValue::Text(s),
        serde_json::Value::Array(a) => JsonValue::Arr(a.into_iter().map(of_value).collect()),
        serde_json::Value::Object(o) => JsonValue::Obj(
            o.into_iter().map(|p| (p.0, of_value(p.1))).collect(),
        ),
    }
}

/// Relies on `serde_json::from_str::<serde_json::Value>`: it returns `Ok`
/// exactly on the JSON texts it accepts — valid JSON whose containers nest
/// no deeper than its recursion guard allows ([`MAX_DEPTH`]; anything
/// deeper is refused like invalid text) — and the parsed document is a
/// function of the text alone, here named [`json_parse`]. Parsed objects
/// come out of `serde_json::Map` — a sorted map — so every object's keys
/// are strictly ascending, and every parsed tree respects the depth bound.
#[verifier::external_body]
fn parse_json(text: &str) -> (r: Option<JsonValue>)
    ensures
        match r {
            Option::Some(v) => json_parse(text@) == Option::Some(v@) && keys_sorted(v@) && depth(
                v@,
            ) <= MAX_DEPTH as nat,
            Option::None => json_parse(text@) is None,
        },
{
    match serde_json::from_str::<serde_json::Value>(text) {
        Ok(v) => Some(of_value(v)),
        Err(_) => None,
    }
}

/// Parses a JSON text into a [`JsonValue`]; `None` exactly when the text is
/// not valid JSON or nests containers deeper than [`MAX_DEPTH`]. The parsed
/// tree keeps every object's keys sorted and stays within the depth bound.
pub fn parse_text(text: &str) -> (r: Option<JsonValue>)
    ensures
        match r {
            Option::Some(v) => json_parse(text@) == Option::Some(v@) && keys_sorted(v@) && depth(
                v@,
            ) <= MAX_DEPTH as nat,
            Option::None => json_parse(text@) is None,
        },
{
    parse_json(text)
}

/// Rebuilds a [`JsonValue`] as a `serde_json::Value`; `None` when a number
/// literal does not read back as a number. Called only from inside the
/// trusted serializing boundary.
#[verifier::external_body]
fn to_value(j: &JsonValue) -> Option<serde_json::Value> {
    match j {
        JsonValue::Null => Some(serde_json::Value::Null),
        JsonValue::Bool(b) => Some(serde_json::Value::Bool(*b)),
        JsonValue::Num(s) => s.parse().ok().map(serde_json::Value::Number),
        JsonValue::Text(s) => Some(serde_json::Value::String(s.clone())),
        JsonValue::Arr(a) => a.iter().map(to_value).collect::<Option<_>>().map(
            serde_json::Value::Array,
        ),
        JsonValue::Obj(o) => o.iter().map(|p| Some((p.0.clone(), to_value(&p.1)?))).collect::<
            Option<_>,
        >().map(serde_json::Value::Object),
    }
}

/// Relies on `serde_json::to_string`: serializing a value never fails, and
/// on a tree in [`canonical`] form — sorted keys, so the sorted map holds
/// the pairs in their given order; integer literals that the number parser
/// reads back exactly; and nesting within the parser's recursion guard,
/// which the serializer itself does not enforce — the produced text parses
/// back to the same tree. The depth bound is required up front so that the
/// conversion below never recurses beyond it.
#[verifier::external_body]
fn to_text_raw(j: &JsonValue) -> (r: Option<String>)
    requires
        depth(j@) <= MAX_DEPTH as nat,
    ensures
        match r {
            Option::Some(s) => canonical(j@) ==> json_parse(s@) == Option::Some(j@),
            Option::None => !canonical(j@),
        },
{
    let v = to_value(j)?;
    serde_json::to_string(&v).ok()
}

/// Serializes a tree to JSON text. On a tree in [`canonical`] form — which
/// every tree coming out of [`parse_text`] is, once its numbers are checked
/// with [`ints_only_check`] — the text is guaranteed to parse back to the
/// same tree. The depth bound holds of every parsed tree; it is required
/// here because the parser would refuse anything nested deeper.
pub fn to_text(j: &JsonValue) -> (r: Option<String>)
    requires
        depth(j@) <= MAX_DEPTH as nat,
    ensures
        canonical(j@) ==> (r matches Option::Some(s) && json_parse(s@) == Option::Some(j@)),
{
    to_text_raw(j)
}

/// Strict lexicographic order on strings, by code point — the order in
/// which `serde_json`'s maps keep their keys.
pub open spec fn lex_lt(a: Seq<char>, b: Seq<char>) -> bool
    decreases a.len(),
{
    if b.len() == 0 {
        false
    } else if a.len() == 0 {
        true
    } else if a[0] < b[0] {
        true
    } else if a[0] == b[0] {
        lex_lt(a.drop_first(), b.drop_first())
    } else {
        false
    }
}

/// Every object in the tree keeps its keys strictly ascending — the shape
/// every parsed document has, since `serde_json`'s maps are sorted.
pub open spec fn keys_sorted(j: Json) -> bool
    decreases j,
{
    match j {
        Json::Arr(items) => keys_sorted_arr(items),
        Json::Obj(fs) => adjacent_sorted(fs) && keys_sorted_obj(fs),
        _ => true,
    }
}

/// Every element of an array has sorted keys.
pub open spec fn keys_sorted_arr(items: Seq<Json>) -> bool
    decreases items,
{
    items.len() == 0 || (keys_sorted(items[0]) && keys_sorted_arr(items.drop_first()))
}

/// Every value of an object has sorted keys.
pub open spec fn keys_sorted_obj(fs: Seq<(Seq<char>, Json)>) -> bool
    decreases fs,
{
    fs.len() == 0 || (keys_sorted(fs[0].1) && keys_sorted_obj(fs.drop_first()))
}

/// The keys of an object are strictly ascending.
pub open spec fn adjacent_sorted(fs: Seq<(Seq<char>, Json)>) -> bool
    decreases fs,
{
    fs.len() <= 1 || (lex_lt(fs[0].0, fs[1].0) && adjacent_sorted(fs.drop_first()))
}

/// A decimal digit.
pub open spec fn spec_digit(c: char) -> bool {
    '0' <= c && c <= '9'
}

/// A canonical run of digits: non-empty, digits only, and no leading zero
/// unless the run is exactly "0".
pub open spec fn digits_canonical(t: Seq<char>) -> bool {
    t.len() > 0 && (forall|i: int| 0 <= i < t.len() ==> spec_digit(#[trigger] t[i])) && (t[0]
        != '0' || t.len() == 1)
}

/// An integer literal that survives a trip through `serde_json` unchanged:
/// an optional minus sign, canonical digits, short enough to fit the
/// integer representations (at most 19 digits unsigned, 18 signed), and not
/// "-0", which reads back as a float.
pub open spec fn int_literal(s: Seq<char>) -> bool {
    if s.len() > 0 && s[0] == '-' {
        digits_canonical(s.drop_first()) && s.drop_first()[0] != '0' && s.len() <= 19
    } else {
        digits_canonical(s) && s.len() <= 19
    }
}

/// Every number in the tree is an integer literal in canonical form.
pub open spec fn ints_only(j: Json) -> bool
    decreases j,
{
    match j {
        Json::Num(s) => int_literal(s),
        Json::Arr(items) => ints_arr(items),
        Json::Obj(fs) => ints_obj(fs),
        _ => true,
    }
}

/// Every element of an array holds canonical integers only.
pub open spec fn ints_arr(items: Seq<Json>) -> bool
    decreases items,
{
    items.len() == 0 || (ints_only(items[0]) && ints_arr(items.drop_first()))
}

/// Every value of an object holds canonical integers only.
pub open spec fn ints_obj(fs: Seq<(Seq<char>, Json)>) -> bool
    decreases fs,
{
    fs.len() == 0 || (ints_only(fs[0].1) && ints_obj(fs.drop_first()))
}

/// The deepest container nesting `serde_json`'s parser accepts: its
/// recursion guard starts at 128 and refuses the 128th nested array or
/// object.
pub const MAX_DEPTH: u32 = 127;

/// How deeply containers nest in a tree: zero for a scalar, one more than
/// the deepest child for an array or object.
pub open spec fn depth(j: Json) -> nat
    decreases j,
{
    match j {
        Json::Arr(items) => 1 + depth_arr(items),
        Json::Obj(fs) => 1 + depth_obj(fs),
        _ => 0,
    }
}

/// The deepest nesting among an array's elements.
pub open spec fn depth_arr(items: Seq<Json>) -> nat
    decreases items,
{
    if items.len() == 0 {
        0
    } else if depth(items[0]) > depth_arr(items.drop_first()) {
        depth(items[0])
    } else {
        depth_arr(items.drop_first())
    }
}

/// The deepest nesting among an object's values.
pub open spec fn depth_obj(fs: Seq<(Seq<char>, Json)>) -> nat
    decreases fs,
{
    if fs.len() == 0 {
        0
    } else if depth(fs[0].1) > depth_obj(fs.drop_first()) {
        depth(fs[0].1)
    } else {
        depth_obj(fs.drop_first())
    }
}

/// A tree in the exact form `serde_json` itself produces: sorted keys,
/// canonical integer literals, and nesting no deeper than the parser
/// accepts. Such a tree serializes to a text that parses back to the very
/// same tree.
pub open spec fn canonical(j: Json) -> bool {
    keys_sorted(j) && ints_only(j) && depth(j) <= MAX_DEPTH as nat
}

/// The value under `key` in an object's key/value list, taking the first
/// entry whose key matches; `None` when no entry does.
pub open spec fn lookup(fields: Seq<(Seq<char>, Json)>, key: Seq<char>) -> Option<Json>
    decreases fields.len(),
{
    if fields.len() == 0 {
        Option::None
    } else if fields[0].0 == key {
        Option::Some(fields[0].1)
    } else {
        lookup(fields.drop_first(), key)
    }
}

/// In an object with sorted keys, whatever a lookup finds has sorted keys
/// itself.
pub proof fn lemma_keys_sorted_lookup(fs: Seq<(Seq<char>, Json)>, key: Seq<char>)
    requires
        keys_sorted(Json::Obj(fs)),
    ensures
        lookup(fs, key) matches Option::Some(d) ==> keys_sorted(d),
    decreases fs.len(),
{
    if fs.len() > 0 && fs[0].0 != key {
        let rest = fs.drop_first();
        assert(rest.len() <= 1 || adjacent_sorted(rest));
        lemma_keys_sorted_lookup(rest, key);
    }
}

/// Whatever a lookup finds nests no deeper than the object's deepest value.
pub proof fn lemma_depth_lookup(fs: Seq<(Seq<char>, Json)>, key: Seq<char>)
    ensures
        lookup(fs, key) matches Option::Some(d) ==> depth(d) <= depth_obj(fs),
    decreases fs.len(),
{
    if fs.len() > 0 && fs[0].0 != key {
        lemma_depth_lookup(fs.drop_first(), key);
    }
}

/// Every canonical integer literal is ASCII.
proof fn lemma_int_literal_ascii(s: Seq<char>)
    ensures
        int_literal(s) ==> vstd::utf8::is_ascii_chars(s),
{
    if int_literal(s) {
        assert forall|i: int| 0 <= i < s.len() implies '\0' <= #[trigger] s[i] <= '\u{7f}' by {
            if s[0] == '-' {
                if i > 0 {
                    assert(spec_digit(s.drop_first()[i - 1]));
                    assert(s.drop_first()[i - 1] == s[i]);
                }
            } else {
                assert(spec_digit(s[i]));
            }
        }
    }
}

/// Decides whether a string is a canonical integer literal.
#[verifier::loop_isolation(false)]
pub fn is_int_literal(s: &str) -> (b: bool)
    ensures
        b == int_literal(s@),
{
    proof {
        lemma_int_literal_ascii(s@);
    }
    if !s.is_ascii() {
        return false;
    }
    let bytes = s.as_bytes();
    proof {
        broadcast use vstd::string::is_ascii_spec_bytes;

        assert(bytes@ =~= Seq::new(s@.len(), |i: int| s@[i] as u8));
    }
    let n = bytes.len();
    if n == 0 {
        return false;
    }
    if n > 19 {
        return false;
    }
    // 45, 48 and 57 are the bytes of '-', '0' and '9'
    let neg = bytes[0] == 45;
    proof {
        assert(neg == (s@[0] == '-'));
    }
    let d0: usize = if neg {
        1
    } else {
        0
    };
    if n == d0 {
        return false;
    }
    if neg && bytes[1] == 48 {
        return false;
    }
    if !neg && bytes[0] == 48 && n > 1 {
        return false;
    }
    let mut i: usize = d0;
    while i < n
        invariant
            d0 <= i <= n,
            forall|k: int| d0 <= k < i ==> spec_digit(#[trigger] s@[k]),
        decreases n - i,
    {
        let c = bytes[i];
        if c < 48 || c > 57 {
            proof {
                assert(!spec_digit(s@[i as int]));
                if s@[0] == '-' {
                    assert(s@.drop_first()[i - 1] == s@[i as int]);
                }
            }
            return false;
        }
        i += 1;
    }
    proof {
        if neg {
            let t = s@.drop_first();
            assert forall|k: int| 0 <= k < t.len() implies spec_digit(#[trigger] t[k]) by {
                assert(t[k] == s@[k + 1]);
            }
            assert(t[0] == s@[1]);
        }
    }
    true
}

/// Decides whether every number in a tree is a canonical integer literal.
#[verifier::loop_isolation(false)]
pub fn ints_only_check(j: &JsonValue) -> (b: bool)
    ensures
        b == ints_only(j@),
    decreases *j,
{
    match j {
        JsonValue::Null => true,
        JsonValue::Bool(_) => true,
        JsonValue::Num(s) => is_int_literal(s.as_str()),
        JsonValue::Text(_) => true,
        JsonValue::Arr(items) => {
            let ghost m = arr_view(items@);
            proof {
                lemma_arr_view(items@);
                assert(m.skip(0) =~= m);
            }
            let mut i: usize = 0;
            while i < items.len()
                invariant
                    i <= items.len(),
                    ints_arr(m) == ints_arr(m.skip(i as int)),
                decreases items.len() - i,
            {
                proof {
                    assert(m.skip(i as int)[0] == m[i as int]);
                    assert(m.skip(i as int).drop_first() =~= m.skip(i as int + 1));
                    assert(m[i as int] == json_view(items@[i as int]));
                    assert(decreases_to!(*j => *items));
                    assert(decreases_to!(*items => items@));
                    assert(decreases_to!(items@ => items@[i as int]));
                    assert(decreases_to!(*j => items@[i as int]));
                }
                if !ints_only_check(&items[i]) {
                    return false;
                }
                i += 1;
            }
            proof {
                assert(m.skip(items@.len() as int) =~= Seq::empty());
            }
            true
        },
        JsonValue::Obj(fields) => {
            let ghost m = obj_view(fields@);
            proof {
                lemma_obj_view(fields@);
                assert(m.skip(0) =~= m);
            }
            let mut i: usize = 0;
            while i < fields.len()
                invariant
                    i <= fields.len(),
                    ints_obj(m) == ints_obj(m.skip(i as int)),
                decreases fields.len() - i,
            {
                proof {
                    assert(m.skip(i as int)[0] == m[i as int]);
                    assert(m.skip(i as int).drop_first() =~= m.skip(i as int + 1));
                    assert(m[i as int] == (fields@[i as int].0@, json_view(fields@[i as int].1)));
                    assert(decreases_to!(*j => *fields));
                    assert(decreases_to!(*fields => fields@));
                    assert(decreases_to!(fields@ => fields@[i as int]));
                    assert(decreases_to!(fields@[i as int] => fields@[i as int].1));
                    assert(decreases_to!(*j => fields@[i as int].1));
                }
                let pair = &fields[i];
                if !ints_only_check(&pair.1) {
                    return false;
                }
                i += 1;
            }
            proof {
                assert(m.skip(fields@.len() as int) =~= Seq::empty());
            }
            true
        },
    }
}

/// Finds the first entry named `name` in an object's key/value list.
pub fn get_field<'a>(fields: &'a Vec<(String, JsonValue)>, name: &str) -> (r: Option<
    &'a JsonValue,
>)
    ensures
        match r {
            Option::Some(v) => lookup(obj_view(fields@), name@) == Option::Some(v@),
            Option::None => lookup(obj_view(fields@), name@) is None,
        },
{
    let key: String = name.to_owned();
    let ghost m = obj_view(fields@);
    proof {
        lemma_obj_view(fields@);
    }
    proof {
        assert(m.skip(0) =~= m);
    }
    let mut i: usize = 0;
    while i < fields.len()
        invariant
            i <= fields.len(),
            key@ == name@,
            m == obj_view(fields@),
            m.len() == fields@.len(),
            forall|j: int| 0 <= j < fields@.len() ==> m[j] == (
                #[trigger] fields@[j].0@,
                json_view(fields@[j].1),
            ),
            lookup(m, name@) == lookup(m.skip(i as int), name@),
        decreases fields.len() - i,
    {
        proof {
            assert(m.skip(i as int).len() > 0);
            assert(m.skip(i as int)[0] == m[i as int]);
            assert(m.skip(i as int).drop_first() =~= m.skip(i as int + 1));
        }
        if fields[i].0 == key {
            return Some(&fields[i].1);
        }
        i += 1;
    }
    proof {
        assert(m.skip(fields@.len() as int) =~= Seq::empty());
    }
    None
}

impl Clone for JsonValue {
    /// A structural copy: the clone has the same model as the original.
    #[verifier::loop_isolation(false)]
    fn clone(&self) -> (r: Self)
        ensures
            r@ == self@,
        decreases *self,
    {
        match self {
            JsonValue::Null => JsonValue::Null,
            JsonValue::Bool(b) => JsonValue::Bool(*b),
            JsonValue::Num(s) => JsonValue::Num(s.clone()),
            JsonValue::Text(s) => JsonValue::Text(s.clone()),
            JsonValue::Arr(items) => {
                let mut out: Vec<JsonValue> = Vec::new();
                let mut i: usize = 0;
                while i < items.len()
                    invariant
                        i <= items.len(),
                        out@.len() == i,
                        forall|j: int| 0 <= j < i ==> json_view(#[trigger] out@[j]) == json_view(
                            items@[j],
                        ),
                    decreases items.len() - i,
                {
                    proof {
                        assert(decreases_to!(*self => *items)) by {
                            assert(*items == self->Arr_0);
                            assert(decreases_to!(*self => self->Arr_0));
                        }
                        assert(decreases_to!(*items => items@));
                        assert(decreases_to!(items@ => items@[i as int]));
                        assert(decreases_to!(*self => items@[i as int]));
                    }
                    out.push(items[i].clone());
                    i += 1;
                }
                proof {
                    lemma_arr_view(out@);
                    lemma_arr_view(items@);
                    assert forall|j: int| 0 <= j < out@.len() implies arr_view(out@)[j]
                        == arr_view(items@)[j] by {
                        assert(json_view(out@[j]) == json_view(items@[j]));
                    }
                    assert(arr_view(out@) =~= arr_view(items@));
                }
                JsonValue::Arr(out)
            },
            JsonValue::Obj(fields) => {
                let mut out: Vec<(String, JsonValue)> = Vec::new();
                let mut i: usize = 0;
                while i < fields.len()
                    invariant
                        i <= fields.len(),
                        out@.len() == i,
                        forall|j: int| 0 <= j < i ==> #[trigger] out@[j].0@ == fields@[j].0@
                            && json_view(out@[j].1) == json_view(fields@[j].1),
                    decreases fields.len() - i,
                {
                    proof {
                        assert(decreases_to!(*self => *fields)) by {
                            assert(*fields == self->Obj_0);
                            assert(decreases_to!(*self => self->Obj_0));
                        }
                        assert(decreases_to!(*fields => fields@));
                        assert(decreases_to!(fields@ => fields@[i as int]));
                        assert(decreases_to!(fields@[i as int] => fields@[i as int].1));
                        assert(decreases_to!(*self => fields@[i as int].1));
                    }
                    let pair = &fields[i];
                    out.push((pair.0.clone(), pair.1.clone()));
                    i += 1;
                }
                proof {
                    lemma_obj_view(out@);
                    lemma_obj_view(fields@);
                    assert forall|j: int| 0 <= j < out@.len() implies obj_view(out@)[j]
                        == obj_view(fields@)[j] by {
                        assert(out@[j].0@ == fields@[j].0@);
                        assert(json_view(out@[j].1) == json_view(fields@[j].1));
                    }
                    assert(obj_view(out@) =~= obj_view(fields@));
                }
                JsonValue::Obj(out)
            },
        }
    }
}

pub proof fn lemma_arr_view(items: Seq<JsonValue>)
    ensures
        arr_view(items).len() == items.len(),
        forall|i: int| 0 <= i < items.len() ==> arr_view(items)[i] == json_view(#[trigger] items[i]),
    decreases items.len(),
{
    if items.len() > 0 {
        lemma_arr_view(items.drop_first());
        assert forall|i: int| 0 <= i < items.len() implies arr_view(items)[i] == json_view(
            #[trigger] items[i],
        ) by {
            if i > 0 {
                assert(items.drop_first()[i - 1] == items[i]);
            }
        }
    }
}

pub proof fn lemma_obj_view(fields: Seq<(String, JsonValue)>)
    ensures
        obj_view(fields).len() == fields.len(),
        forall|i: int| 0 <= i < fields.len() ==> obj_view(fields)[i] == (
            #[trigger] fields[i].0@,
            json_view(fields[i].1),
        ),
    decreases fields.len(),
{
    if fields.len() > 0 {
        lemma_obj_view(fields.drop_first());
        assert forall|i: int| 0 <= i < fields.len() implies obj_view(fields)[i] == (
            #[trigger] fields[i].0@,
            json_view(fields[i].1),
        ) by {
            if i > 0 {
                assert(fields.drop_first()[i - 1] == fields[i]);
            }
        }
    }
}

} // verus!
