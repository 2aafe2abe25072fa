//! The Asana resource schemas and their decoders.
//!
//! Every schema struct implements [`FromJson`]: a verified decoder from the
//! [`Json`] model into the struct, specified by a `decode_spec` function on
//! the model. Decoders target JSON objects; unknown keys are ignored, a
//! missing or `null` optional field reads as `None`, and any field of the
//! wrong shape makes the whole decode fail.

use vstd::prelude::*;

use crate::json::{arr_view, get_field, json_view, lemma_arr_view, lookup, obj_view, Json, JsonValue};

verus! {

/// A type that can be decoded from a JSON document.
pub trait FromJson: View + Sized {
    /// What the decoder makes of a document: `None` when the shape does not
    /// fit, otherwise the model of the decoded value.
    spec fn decode_spec(j: Json) -> Option<Self::V>;

    /// Decoders only ever accept JSON objects.
    proof fn decode_obj_only(j: Json)
        ensures
            Self::decode_spec(j) is Some ==> j matches Json::Obj(_),
    ;

    /// Decodes a document, exactly as `decode_spec` says.
    fn from_json(j: &JsonValue) -> (r: Option<Self>)
        ensures
            match r {
                Option::Some(t) => Self::decode_spec(j@) == Option::Some(t@),
                Option::None => Self::decode_spec(j@) is None,
            },
    ;
}

/// A required string field: present and a JSON string, else the decode fails.
pub open spec fn req_text(fs: Seq<(Seq<char>, Json)>, key: Seq<char>) -> Option<Seq<char>> {
    match lookup(fs, key) {
        Option::Some(Json::Text(s)) => Option::Some(s),
        _ => Option::None,
    }
}

/// An optional string field: absent or `null` reads as `None`; any value
/// other than a string makes the decode fail (outer `None`).
pub open spec fn opt_text(fs: Seq<(Seq<char>, Json)>, key: Seq<char>) -> Option<
    Option<Seq<char>>,
> {
    match lookup(fs, key) {
        Option::None => Option::Some(Option::None),
        Option::Some(Json::Null) => Option::Some(Option::None),
        Option::Some(Json::Text(s)) => Option::Some(Option::Some(s)),
        Option::Some(_) => Option::None,
    }
}

/// An optional boolean field, with the same reading as [`opt_text`].
pub open spec fn opt_bool(fs: Seq<(Seq<char>, Json)>, key: Seq<char>) -> Option<Option<bool>> {
    match lookup(fs, key) {
        Option::None => Option::Some(Option::None),
        Option::Some(Json::Null) => Option::Some(Option::None),
        Option::Some(Json::Bool(b)) => Option::Some(Option::Some(b)),
        Option::Some(_) => Option::None,
    }
}

/// The string under a JSON string document; arbitrary elsewhere.
pub open spec fn text_of(j: Json) -> Seq<char> {
    match j {
        Json::Text(s) => s,
        _ => Seq::empty(),
    }
}

/// The strings of an array of JSON strings: `None` as soon as one element is
/// not a string.
pub open spec fn text_elems(items: Seq<Json>) -> Option<Seq<Seq<char>>> {
    if forall|i: int| 0 <= i < items.len() ==> (#[trigger] items[i]) matches Json::Text(_) {
        Option::Some(Seq::new(items.len(), |i: int| text_of(items[i])))
    } else {
        Option::None
    }
}

/// An optional field holding an array of strings: absent or `null` reads as
/// `None`; anything else must be an array whose elements are all strings.
pub open spec fn opt_text_arr(fs: Seq<(Seq<char>, Json)>, key: Seq<char>) -> Option<
    Option<Seq<Seq<char>>>,
> {
    match lookup(fs, key) {
        Option::None => Option::Some(Option::None),
        Option::Some(Json::Null) => Option::Some(Option::None),
        Option::Some(Json::Arr(items)) => match text_elems(items) {
            Option::Some(texts) => Option::Some(Option::Some(texts)),
            Option::None => Option::None,
        },
        Option::Some(_) => Option::None,
    }
}

/// The decoded elements of a sequence of documents: `None` as soon as one
/// element does not decode.
pub open spec fn decode_elems<T: FromJson>(items: Seq<Json>) -> Option<Seq<T::V>> {
    if forall|i: int| 0 <= i < items.len() ==> (#[trigger] T::decode_spec(items[i])) is Some {
        Option::Some(Seq::new(items.len(), |i: int| T::decode_spec(items[i])->Some_0))
    } else {
        Option::None
    }
}

/// A whole document read as an array of `T`: it must be a JSON array and
/// every element must decode.
pub open spec fn decode_arr<T: FromJson>(j: Json) -> Option<Seq<T::V>> {
    match j {
        Json::Arr(items) => decode_elems::<T>(items),
        _ => Option::None,
    }
}

/// The models of a vector's elements, elementwise.
pub open spec fn views_of<T: View>(s: Seq<T>) -> Seq<T::V> {
    s.map_values(|t: T| t@)
}

/// Reads a required string field out of an object's key/value list.
pub fn take_req_text(fields: &Vec<(String, JsonValue)>, name: &str) -> (r: Option<String>)
    ensures
        match r {
            Option::Some(s) => req_text(obj_view(fields@), name@) == Option::Some(s@),
            Option::None => req_text(obj_view(fields@), name@) is None,
        },
{
    match get_field(fields, name) {
        Option::Some(JsonValue::Text(s)) => Option::Some(s.clone()),
        _ => Option::None,
    }
}

/// Reads an optional string field out of an object's key/value list; the
/// outer `None` reports a field of the wrong shape.
pub fn take_opt_text(fields: &Vec<(String, JsonValue)>, name: &str) -> (r: Option<Option<String>>)
    ensures
        match r {
            Option::Some(Option::Some(s)) => opt_text(obj_view(fields@), name@) == Option::Some(
                Option::Some(s@),
            ),
            Option::Some(Option::None) => opt_text(obj_view(fields@), name@) == Option::Some(
                Option::None::<Seq<char>>,
            ),
            Option::None => opt_text(obj_view(fields@), name@) is None,
        },
{
    match get_field(fields, name) {
        Option::None => Option::Some(Option::None),
        Option::Some(JsonValue::Null) => Option::Some(Option::None),
        Option::Some(JsonValue::Text(s)) => Option::Some(Option::Some(s.clone())),
        Option::Some(_) => Option::None,
    }
}

/// Reads an optional boolean field out of an object's key/value list.
pub fn take_opt_bool(fields: &Vec<(String, JsonValue)>, name: &str) -> (r: Option<Option<bool>>)
    ensures
        match r {
            Option::Some(ob) => opt_bool(obj_view(fields@), name@) == Option::Some(ob),
            Option::None => opt_bool(obj_view(fields@), name@) is None,
        },
{
    match get_field(fields, name) {
        Option::None => Option::Some(Option::None),
        Option::Some(JsonValue::Null) => Option::Some(Option::None),
        Option::Some(JsonValue::Bool(b)) => Option::Some(Option::Some(*b)),
        Option::Some(_) => Option::None,
    }
}

/// Reads an optional array-of-strings field out of an object's key/value
/// list.
#[verifier::loop_isolation(false)]
pub fn take_opt_text_arr(fields: &Vec<(String, JsonValue)>, name: &str) -> (r: Option<
    Option<Vec<String>>,
>)
    ensures
        match r {
            Option::Some(Option::Some(v)) => opt_text_arr(obj_view(fields@), name@)
                == Option::Some(Option::Some(views_of(v@))),
            Option::Some(Option::None) => opt_text_arr(obj_view(fields@), name@) == Option::Some(
                Option::None::<Seq<Seq<char>>>,
            ),
            Option::None => opt_text_arr(obj_view(fields@), name@) is None,
        },
{
    match get_field(fields, name) {
        Option::None => Option::Some(Option::None),
        Option::Some(JsonValue::Null) => Option::Some(Option::None),
        Option::Some(JsonValue::Arr(items)) => {
            let ghost m = arr_view(items@);
            proof {
                lemma_arr_view(items@);
            }
            let mut out: Vec<String> = Vec::new();
            let mut i: usize = 0;
            while i < items.len()
                invariant
                    i <= items.len(),
                    out@.len() == i,
                    m == arr_view(items@),
                    m.len() == items@.len(),
                    forall|k: int| 0 <= k < items@.len() ==> m[k] == json_view(items@[k]),
                    forall|k: int| 0 <= k < i ==> (#[trigger] m[k]) matches Json::Text(_),
                    forall|k: int| 0 <= k < i ==> #[trigger] out@[k]@ == text_of(m[k]),
                decreases items.len() - i,
            {
                match &items[i] {
                    JsonValue::Text(s) => {
                        out.push(s.clone());
                    },
                    _ => {
                        proof {
                            assert(!(m[i as int] matches Json::Text(_)));
                        }
                        return Option::None;
                    },
                }
                i += 1;
            }
            proof {
                let texts = text_elems(m)->Some_0;
                assert(views_of(out@) =~= texts);
            }
            Option::Some(Option::Some(out))
        },
        Option::Some(_) => Option::None,
    }
}

/// A resource as Asana identifies it: a globally unique id and a type tag.
#[derive(Debug)]
pub struct AsanaResource {
    pub gid: String,
    pub resource_type: String,
}

/// The model of an [`AsanaResource`].
pub struct AsanaResourceV {
    pub gid: Seq<char>,
    pub resource_type: Seq<char>,
}

impl View for AsanaResource {
    type V = AsanaResourceV;

    open spec fn view(&self) -> AsanaResourceV {
        AsanaResourceV { gid: self.gid@, resource_type: self.resource_type@ }
    }
}

impl FromJson for AsanaResource {
    open spec fn decode_spec(j: Json) -> Option<AsanaResourceV> {
        match j {
            Json::Obj(fs) => match (req_text(fs, "gid"@), req_text(fs, "resource_type"@)) {
                (Option::Some(gid), Option::Some(resource_type)) => Option::Some(
                    AsanaResourceV { gid, resource_type },
                ),
                _ => Option::None,
            },
            _ => Option::None,
        }
    }

    proof fn decode_obj_only(j: Json) {
    }

    fn from_json(j: &JsonValue) -> (r: Option<Self>) {
        match j {
            JsonValue::Obj(fields) => {
                let gid = match take_req_text(fields, "gid") {
                    Option::Some(s) => s,
                    Option::None => {
                        return Option::None;
                    },
                };
                let resource_type = match take_req_text(fields, "resource_type") {
                    Option::Some(s) => s,
                    Option::None => {
                        return Option::None;
                    },
                };
                Option::Some(AsanaResource { gid, resource_type })
            },
            _ => Option::None,
        }
    }
}

/// A resource that also carries a display name.
#[derive(Debug)]
pub struct AsanaNamedResource {
    pub gid: String,
    pub resource_type: String,
    pub name: String,
}

/// The model of an [`AsanaNamedResource`].
pub struct AsanaNamedResourceV {
    pub gid: Seq<char>,
    pub resource_type: Seq<char>,
    pub name: Seq<char>,
}

impl View for AsanaNamedResource {
    type V = AsanaNamedResourceV;

    open spec fn view(&self) -> AsanaNamedResourceV {
        AsanaNamedResourceV {
            gid: self.gid@,
            resource_type: self.resource_type@,
            name: self.name@,
        }
    }
}

impl FromJson for AsanaNamedResource {
    open spec fn decode_spec(j: Json) -> Option<AsanaNamedResourceV> {
        match j {
            Json::Obj(fs) => match (
                req_text(fs, "gid"@),
                req_text(fs, "resource_type"@),
                req_text(fs, "name"@),
            ) {
                (Option::Some(gid), Option::Some(resource_type), Option::Some(name)) =>
                    Option::Some(AsanaNamedResourceV { gid, resource_type, name }),
                _ => Option::None,
            },
            _ => Option::None,
        }
    }

    proof fn decode_obj_only(j: Json) {
    }

    fn from_json(j: &JsonValue) -> (r: Option<Self>) {
        match j {
            JsonValue::Obj(fields) => {
                let gid = match take_req_text(fields, "gid") {
                    Option::Some(s) => s,
                    Option::None => {
                        return Option::None;
                    },
                };
                let resource_type = match take_req_text(fields, "resource_type") {
                    Option::Some(s) => s,
                    Option::None => {
                        return Option::None;
                    },
                };
                let name = match take_req_text(fields, "name") {
                    Option::Some(s) => s,
                    Option::None => {
                        return Option::None;
                    },
                };
                Option::Some(AsanaNamedResource { gid, resource_type, name })
            },
            _ => Option::None,
        }
    }
}

/// One error reported by the API inside a structurally valid reply. All
/// three fields are optional and independent.
#[derive(Debug)]
pub struct Error {
    pub help: Option<String>,
    pub message: Option<String>,
    pub phrase: Option<String>,
}

/// The model of an [`Error`].
pub struct ErrorV {
    pub help: Option<Seq<char>>,
    pub message: Option<Seq<char>>,
    pub phrase: Option<Seq<char>>,
}

/// The model of an optional string.
pub open spec fn opt_view(s: Option<String>) -> Option<Seq<char>> {
    match s {
        Option::Some(t) => Option::Some(t@),
        Option::None => Option::None,
    }
}

impl View for Error {
    type V = ErrorV;

    open spec fn view(&self) -> ErrorV {
        ErrorV {
            help: opt_view(self.help),
            message: opt_view(self.message),
            phrase: opt_view(self.phrase),
        }
    }
}

impl Clone for Error {
    /// A field-by-field copy, equal to the original.
    fn clone(&self) -> (r: Self)
        ensures
            r == *self,
    {
        Error {
            help: self.help.clone(),
            message: self.message.clone(),
            phrase: self.phrase.clone(),
        }
    }
}

impl FromJson for Error {
    open spec fn decode_spec(j: Json) -> Option<ErrorV> {
        match j {
            Json::Obj(fs) => match (
                opt_text(fs, "help"@),
                opt_text(fs, "message"@),
                opt_text(fs, "phrase"@),
            ) {
                (Option::Some(help), Option::Some(message), Option::Some(phrase)) => Option::Some(
                    ErrorV { help, message, phrase },
                ),
                _ => Option::None,
            },
            _ => Option::None,
        }
    }

    proof fn decode_obj_only(j: Json) {
    }

    fn from_json(j: &JsonValue) -> (r: Option<Self>) {
        match j {
            JsonValue::Obj(fields) => {
                let help = match take_opt_text(fields, "help") {
                    Option::Some(o) => o,
                    Option::None => {
                        return Option::None;
                    },
                };
                let message = match take_opt_text(fields, "message") {
                    Option::Some(o) => o,
                    Option::None => {
                        return Option::None;
                    },
                };
                let phrase = match take_opt_text(fields, "phrase") {
                    Option::Some(o) => o,
                    Option::None => {
                        return Option::None;
                    },
                };
                Option::Some(Error { help, message, phrase })
            },
            _ => Option::None,
        }
    }
}

/// The error list as Asana wraps it: an object with one `errors` key.
#[derive(Debug)]
pub struct Errors {
    pub errors: Vec<Error>,
}

/// The model of an [`Errors`] list.
pub struct ErrorsV {
    pub errors: Seq<ErrorV>,
}

impl View for Errors {
    type V = ErrorsV;

    open spec fn view(&self) -> ErrorsV {
        ErrorsV { errors: views_of(self.errors@) }
    }
}

impl FromJson for Errors {
    open spec fn decode_spec(j: Json) -> Option<ErrorsV> {
        match j {
            Json::Obj(fs) => match lookup(fs, "errors"@) {
                Option::Some(e) => match decode_arr::<Error>(e) {
                    Option::Some(errors) => Option::Some(ErrorsV { errors }),
                    Option::None => Option::None,
                },
                Option::None => Option::None,
            },
            _ => Option::None,
        }
    }

    proof fn decode_obj_only(j: Json) {
    }

    fn from_json(j: &JsonValue) -> (r: Option<Self>) {
        match j {
            JsonValue::Obj(fields) => match get_field(fields, "errors") {
                Option::Some(e) => match decode_vec::<Error>(e) {
                    Option::Some(errors) => Option::Some(Errors { errors }),
                    Option::None => Option::None,
                },
                Option::None => Option::None,
            },
            _ => Option::None,
        }
    }
}

/// A workspace or organization.
#[derive(Debug)]
pub struct Workspace {
    pub gid: String,
    pub resource_type: String,
    pub name: String,
    pub email_domains: Option<Vec<String>>,
    pub is_organization: Option<bool>,
}

/// The model of a [`Workspace`].
pub struct WorkspaceV {
    pub gid: Seq<char>,
    pub resource_type: Seq<char>,
    pub name: Seq<char>,
    pub email_domains: Option<Seq<Seq<char>>>,
    pub is_organization: Option<bool>,
}

/// The model of an optional vector of strings.
pub open spec fn opt_texts_view(s: Option<Vec<String>>) -> Option<Seq<Seq<char>>> {
    match s {
        Option::Some(v) => Option::Some(views_of(v@)),
        Option::None => Option::None,
    }
}

impl View for Workspace {
    type V = WorkspaceV;

    open spec fn view(&self) -> WorkspaceV {
        WorkspaceV {
            gid: self.gid@,
            resource_type: self.resource_type@,
            name: self.name@,
            email_domains: opt_texts_view(self.email_domains),
            is_organization: self.is_organization,
        }
    }
}

impl FromJson for Workspace {
    open spec fn decode_spec(j: Json) -> Option<WorkspaceV> {
        match j {
            Json::Obj(fs) => match (
                req_text(fs, "gid"@),
                req_text(fs, "resource_type"@),
                req_text(fs, "name"@),
                opt_text_arr(fs, "email_domains"@),
                opt_bool(fs, "is_organization"@),
            ) {
                (
                    Option::Some(gid),
                    Option::Some(resource_type),
                    Option::Some(name),
                    Option::Some(email_domains),
                    Option::Some(is_organization),
                ) => Option::Some(
                    WorkspaceV { gid, resource_type, name, email_domains, is_organization },
                ),
                _ => Option::None,
            },
            _ => Option::None,
        }
    }

    proof fn decode_obj_only(j: Json) {
    }

    fn from_json(j: &JsonValue) -> (r: Option<Self>) {
        match j {
            JsonValue::Obj(fields) => {
                let gid = match take_req_text(fields, "gid") {
                    Option::Some(s) => s,
                    Option::None => {
                        return Option::None;
                    },
                };
                let resource_type = match take_req_text(fields, "resource_type") {
                    Option::Some(s) => s,
                    Option::None => {
                        return Option::None;
                    },
                };
                let name = match take_req_text(fields, "name") {
                    Option::Some(s) => s,
                    Option::None => {
                        return Option::None;
                    },
                };
                let email_domains = match take_opt_text_arr(fields, "email_domains") {
                    Option::Some(o) => o,
                    Option::None => {
                        return Option::None;
                    },
                };
                let is_organization = match take_opt_bool(fields, "is_organization") {
                    Option::Some(o) => o,
                    Option::None => {
                        return Option::None;
                    },
                };
                Option::Some(
                    Workspace { gid, resource_type, name, email_domains, is_organization },
                )
            },
            _ => Option::None,
        }
    }
}

/// A user's avatar, in the five sizes Asana serves.
#[derive(Debug)]
pub struct Photo {
    pub image_128x128: String,
    pub image_21x21: String,
    pub image_27x27: String,
    pub image_36x36: String,
    pub image_60x60: String,
}

/// The model of a [`Photo`].
pub struct PhotoV {
    pub image_128x128: Seq<char>,
    pub image_21x21: Seq<char>,
    pub image_27x27: Seq<char>,
    pub image_36x36: Seq<char>,
    pub image_60x60: Seq<char>,
}

impl View for Photo {
    type V = PhotoV;

    open spec fn view(&self) -> PhotoV {
        PhotoV {
            image_128x128: self.image_128x128@,
            image_21x21: self.image_21x21@,
            image_27x27: self.image_27x27@,
            image_36x36: self.image_36x36@,
            image_60x60: self.image_60x60@,
        }
    }
}

impl FromJson for Photo {
    open spec fn decode_spec(j: Json) -> Option<PhotoV> {
        match j {
            Json::Obj(fs) => match (
                req_text(fs, "image_128x128"@),
                req_text(fs, "image_21x21"@),
                req_text(fs, "image_27x27"@),
                req_text(fs, "image_36x36"@),
                req_text(fs, "image_60x60"@),
            ) {
                (
                    Option::Some(image_128x128),
                    Option::Some(image_21x21),
                    Option::Some(image_27x27),
                    Option::Some(image_36x36),
                    Option::Some(image_60x60),
                ) => Option::Some(
                    PhotoV { image_128x128, image_21x21, image_27x27, image_36x36, image_60x60 },
                ),
                _ => Option::None,
            },
            _ => Option::None,
        }
    }

    proof fn decode_obj_only(j: Json) {
    }

    fn from_json(j: &JsonValue) -> (r: Option<Self>) {
        match j {
            JsonValue::Obj(fields) => {
                let image_128x128 = match take_req_text(fields, "image_128x128") {
                    Option::Some(s) => s,
                    Option::None => {
                        return Option::None;
                    },
                };
                let image_21x21 = match take_req_text(fields, "image_21x21") {
                    Option::Some(s) => s,
                    Option::None => {
                        return Option::None;
                    },
                };
                let image_27x27 = match take_req_text(fields, "image_27x27") {
                    Option::Some(s) => s,
                    Option::None => {
                        return Option::None;
                    },
                };
                let image_36x36 = match take_req_text(fields, "image_36x36") {
                    Option::Some(s) => s,
                    Option::None => {
                        return Option::None;
                    },
                };
                let image_60x60 = match take_req_text(fields, "image_60x60") {
                    Option::Some(s) => s,
                    Option::None => {
                        return Option::None;
                    },
                };
                Option::Some(
                    Photo { image_128x128, image_21x21, image_27x27, image_36x36, image_60x60 },
                )
            },
            _ => Option::None,
        }
    }
}

/// A user record in compact form: the three fields every listing carries.
#[derive(Debug)]
pub struct UserCompact {
    pub gid: String,
    pub resource_type: String,
    pub name: String,
}

/// The model of a [`UserCompact`].
pub struct UserCompactV {
    pub gid: Seq<char>,
    pub resource_type: Seq<char>,
    pub name: Seq<char>,
}

impl View for UserCompact {
    type V = UserCompactV;

    open spec fn view(&self) -> UserCompactV {
        UserCompactV { gid: self.gid@, resource_type: self.resource_type@, name: self.name@ }
    }
}

impl FromJson for UserCompact {
    open spec fn decode_spec(j: Json) -> Option<UserCompactV> {
        match j {
            Json::Obj(fs) => match (
                req_text(fs, "gid"@),
                req_text(fs, "resource_type"@),
                req_text(fs, "name"@),
            ) {
                (Option::Some(gid), Option::Some(resource_type), Option::Some(name)) =>
                    Option::Some(UserCompactV { gid, resource_type, name }),
                _ => Option::None,
            },
            _ => Option::None,
        }
    }

    proof fn decode_obj_only(j: Json) {
    }

    fn from_json(j: &JsonValue) -> (r: Option<Self>) {
        match j {
            JsonValue::Obj(fields) => {
                let gid = match take_req_text(fields, "gid") {
                    Option::Some(s) => s,
                    Option::None => {
                        return Option::None;
                    },
                };
                let resource_type = match take_req_text(fields, "resource_type") {
                    Option::Some(s) => s,
                    Option::None => {
                        return Option::None;
                    },
                };
                let name = match take_req_text(fields, "name") {
                    Option::Some(s) => s,
                    Option::None => {
                        return Option::None;
                    },
                };
                Option::Some(UserCompact { gid, resource_type, name })
            },
            _ => Option::None,
        }
    }
}

/// A full user record.
#[derive(Debug)]
pub struct User {
    pub gid: String,
    pub resource_type: String,
    pub name: String,
    pub email: String,
    pub photo: Option<Photo>,
    pub workspaces: Vec<Workspace>,
}

/// The model of a [`User`].
pub struct UserV {
    pub gid: Seq<char>,
    pub resource_type: Seq<char>,
    pub name: Seq<char>,
    pub email: Seq<char>,
    pub photo: Option<PhotoV>,
    pub workspaces: Seq<WorkspaceV>,
}

/// The model of an optional photo.
pub open spec fn opt_photo_view(p: Option<Photo>) -> Option<PhotoV> {
    match p {
        Option::Some(photo) => Option::Some(photo@),
        Option::None => Option::None,
    }
}

impl View for User {
    type V = UserV;

    open spec fn view(&self) -> UserV {
        UserV {
            gid: self.gid@,
            resource_type: self.resource_type@,
            name: self.name@,
            email: self.email@,
            photo: opt_photo_view(self.photo),
            workspaces: views_of(self.workspaces@),
        }
    }
}

/// An optional field holding a photo: absent or `null` reads as `None`;
/// anything else must decode as a [`Photo`].
pub open spec fn opt_photo(fs: Seq<(Seq<char>, Json)>, key: Seq<char>) -> Option<Option<PhotoV>> {
    match lookup(fs, key) {
        Option::None => Option::Some(Option::None),
        Option::Some(Json::Null) => Option::Some(Option::None),
        Option::Some(p) => match Photo::decode_spec(p) {
            Option::Some(pv) => Option::Some(Option::Some(pv)),
            Option::None => Option::None,
        },
    }
}

impl FromJson for User {
    open spec fn decode_spec(j: Json) -> Option<UserV> {
        match j {
            Json::Obj(fs) => match (
                req_text(fs, "gid"@),
                req_text(fs, "resource_type"@),
                req_text(fs, "name"@),
                req_text(fs, "email"@),
                opt_photo(fs, "photo"@),
                match lookup(fs, "workspaces"@) {
                    Option::Some(w) => decode_arr::<Workspace>(w),
                    Option::None => Option::None,
                },
            ) {
                (
                    Option::Some(gid),
                    Option::Some(resource_type),
                    Option::Some(name),
                    Option::Some(email),
                    Option::Some(photo),
                    Option::Some(workspaces),
                ) => Option::Some(
                    UserV { gid, resource_type, name, email, photo, workspaces },
                ),
                _ => Option::None,
            },
            _ => Option::None,
        }
    }

    proof fn decode_obj_only(j: Json) {
    }

    fn from_json(j: &JsonValue) -> (r: Option<Self>) {
        match j {
            JsonValue::Obj(fields) => {
                let gid = match take_req_text(fields, "gid") {
                    Option::Some(s) => s,
                    Option::None => {
                        return Option::None;
                    },
                };
                let resource_type = match take_req_text(fields, "resource_type") {
                    Option::Some(s) => s,
                    Option::None => {
                        return Option::None;
                    },
                };
                let name = match take_req_text(fields, "name") {
                    Option::Some(s) => s,
                    Option::None => {
                        return Option::None;
                    },
                };
                let email = match take_req_text(fields, "email") {
                    Option::Some(s) => s,
                    Option::None => {
                        return Option::None;
                    },
                };
                let photo = match get_field(fields, "photo") {
                    Option::None => Option::None,
                    Option::Some(JsonValue::Null) => Option::None,
                    Option::Some(p) => match Photo::from_json(p) {
                        Option::Some(photo) => Option::Some(photo),
                        Option::None => {
                            return Option::None;
                        },
                    },
                };
                let workspaces = match get_field(fields, "workspaces") {
                    Option::Some(w) => match decode_vec::<Workspace>(w) {
                        Option::Some(ws) => ws,
                        Option::None => {
                            return Option::None;
                        },
                    },
                    Option::None => {
                        return Option::None;
                    },
                };
                Option::Some(User { gid, resource_type, name, email, photo, workspaces })
            },
            _ => Option::None,
        }
    }
}

/// Decodes a whole document as a vector of `T`: it must be a JSON array and
/// every element must decode.
#[verifier::loop_isolation(false)]
pub fn decode_vec<T: FromJson>(j: &JsonValue) -> (r: Option<Vec<T>>)
    ensures
        match r {
            Option::Some(v) => decode_arr::<T>(j@) == Option::Some(views_of(v@)),
            Option::None => decode_arr::<T>(j@) is None,
        },
{
    match j {
        JsonValue::Arr(items) => {
            let ghost m = arr_view(items@);
            proof {
                lemma_arr_view(items@);
            }
            let mut out: Vec<T> = Vec::new();
            let mut i: usize = 0;
            while i < items.len()
                invariant
                    i <= items.len(),
                    out@.len() == i,
                    m == arr_view(items@),
                    m.len() == items@.len(),
                    forall|k: int| 0 <= k < items@.len() ==> m[k] == json_view(items@[k]),
                    forall|k: int| 0 <= k < i ==> (#[trigger] T::decode_spec(m[k])) is Some,
                    forall|k: int| 0 <= k < i ==> T::decode_spec(m[k]) == Option::Some(
                        #[trigger] out@[k]@,
                    ),
                decreases items.len() - i,
            {
                match T::from_json(&items[i]) {
                    Option::Some(t) => {
                        out.push(t);
                    },
                    Option::None => {
                        proof {
                            assert(T::decode_spec(m[i as int]) is None);
                        }
                        return Option::None;
                    },
                }
                i += 1;
            }
            proof {
                let decoded = decode_elems::<T>(m)->Some_0;
                assert(views_of(out@) =~= decoded);
            }
            Option::Some(out)
        },
        _ => Option::None,
    }
}

} // verus!
