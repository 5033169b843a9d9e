//! The records of the service that keeps canvases, and how they are made.

use crate::config::{EditorType, StateInfo};
use crate::http::UserInfo;
use rand::distributions::Alphanumeric;
use rand::{thread_rng, Rng};
use vstd::prelude::*;
use vstd::string::StringExecFns;

verus! {

pub type QueryId = i32;

/// That the canvas `c_id` holds the canvas `r_id` as an object.
#[derive(Debug)]
pub struct CanvasRef {
    pub c_id: QueryId,
    pub r_id: QueryId,
}

#[derive(Debug)]
pub struct NewCanvasRef {
    pub c_id: QueryId,
    pub r_id: QueryId,
}

#[derive(Debug)]
pub struct CanvasModel {
    pub id: QueryId,
    pub user_id: QueryId,
    pub canvas_id: String,
    pub revision: i32,
    pub forked_id: Option<String>,
    pub title: Option<String>,
    pub description: Option<String>,
    pub private: bool,
    pub json: String,
    pub created_at: i64,
    pub updated_at: i64,
}

#[derive(Debug)]
pub struct NewCanvasModel {
    pub user_id: QueryId,
    pub canvas_id: String,
    pub revision: i32,
    pub forked_id: Option<String>,
    pub title: Option<String>,
    pub description: Option<String>,
    pub private: bool,
    pub json: String,
    pub created_at: i64,
    pub updated_at: i64,
}

/// What is to change in the record of a canvas: `None` leaves a column as
/// it is.
#[derive(Debug)]
pub struct EditCanvasModel {
    pub title: Option<Option<String>>,
    pub description: Option<Option<String>>,
    pub private: Option<bool>,
    pub json: Option<String>,
    pub updated_at: Option<i64>,
}

#[derive(Debug)]
pub struct UserModel {
    pub id: QueryId,
    pub name: String,
    pub name_lower: String,
    pub password: String,
    pub email: Option<String>,
    pub created_at: i64,
    pub updated_at: i64,
}

impl UserModel {
    /// What of a user is shown to others.
    pub fn into_user_info(self) -> (info: UserInfo)
        ensures
            info.id == self.id,
            info.name == self.name,
            info.created_at == self.created_at,
            info.updated_at == self.updated_at,
    {
        UserInfo {
            id: self.id,
            name: self.name,
            created_at: self.created_at,
            updated_at: self.updated_at,
        }
    }
}

#[derive(Debug)]
pub struct NewUserModel {
    pub name: String,
    pub name_lower: String,
    pub password: String,
    pub email: Option<String>,
    pub created_at: i64,
    pub updated_at: i64,
}

#[derive(Debug)]
pub struct EditUserModel {
    pub name: Option<String>,
    pub name_lower: Option<String>,
    pub password: Option<String>,
    pub email: Option<Option<String>>,
    pub updated_at: Option<i64>,
}

/// Why a password could not be hashed.
#[derive(Debug)]
pub enum PwHashError {
    /// No random value could be had.
    RandomError(String),
    EncodingError,
    InsufficientLength,
    InvalidRounds,
    InvalidHashString,
}

/// The text in lower case, as `str::to_lowercase` gives it.
pub uninterp spec fn lowercased(text: Seq<char>) -> Seq<char>;

/// Calls `str::to_lowercase`. The contract gives the result its name.
#[verifier::external_body]
fn lowercase(text: &str) -> (lower: String)
    ensures
        lower@ == lowercased(text@),
{
    text.to_lowercase()
}

/// Calls `pwhash::bcrypt::hash`, which salts the password at random, and
/// hands its error over variant by variant. The contract says nothing of
/// the result.
#[verifier::external_body]
fn hash_password(password: String) -> (hashed: Result<String, PwHashError>) {
    match pwhash::bcrypt::hash(password) {
        Ok(hashed) => Ok(hashed),
        Err(pwhash::error::Error::RandomError(why)) => Err(PwHashError::RandomError(why)),
        Err(pwhash::error::Error::EncodingError) => Err(PwHashError::EncodingError),
        Err(pwhash::error::Error::InsufficientLength) => Err(PwHashError::InsufficientLength),
        Err(pwhash::error::Error::InvalidRounds) => Err(PwHashError::InvalidRounds),
        Err(pwhash::error::Error::InvalidHashString) => Err(PwHashError::InvalidHashString),
    }
}

/// Calls `chrono::Utc::now` and `DateTime::timestamp_millis`: the time in
/// milliseconds since 1970. The contract says nothing of the result.
#[verifier::external_body]
fn now() -> (millis: i64) {
    chrono::Utc::now().timestamp_millis()
}

impl NewUserModel {
    /// The record of a new user, given the name in lower case, what came
    /// of hashing the password, and the times.
    pub fn with_hash(
        username: String,
        name_lower: String,
        hashed: Result<String, PwHashError>,
        created_at: i64,
        updated_at: i64,
    ) -> (model: Result<Self, PwHashError>)
        ensures
            match (hashed, model) {
                (Ok(hashed), Ok(model)) => model == (NewUserModel {
                    name: username,
                    name_lower,
                    password: hashed,
                    email: None,
                    created_at,
                    updated_at,
                }),
                (Err(why), Err(error)) => error == why,
                _ => false,
            },
    {
        match hashed {
            Ok(password) => Ok(
                NewUserModel {
                    name_lower,
                    name: username,
                    password,
                    email: None,
                    created_at,
                    updated_at,
                },
            ),
            Err(why) => Err(why),
        }
    }

    /// The record of a new user: the name as given and in lower case, the
    /// password hashed, no address, and the time of now.
    pub fn new_with_name_and_password(username: String, password: String) -> (model: Result<
        Self,
        PwHashError,
    >)
        ensures
            model matches Ok(model) ==> {
                &&& model.name == username
                &&& model.name_lower@ == lowercased(username@)
                &&& model.email is None
            },
    {
        let name_lower = lowercase(username.as_str());
        let hashed = hash_password(password);
        let created_at = now();
        let updated_at = now();
        Self::with_hash(username, name_lower, hashed, created_at, updated_at)
    }
}

/// Whether `c` is one of the letters a to z and A to Z and the digits.
pub open spec fn is_alphanumeric(c: char) -> bool {
    ('a' <= c && c <= 'z') || ('A' <= c && c <= 'Z') || ('0' <= c && c <= '9')
}

/// Calls `Rng::sample` of `rand` on the generator of the thread, with the
/// distribution `Alphanumeric`: a letter or a digit, picked at random.
#[verifier::external_body]
fn sample_alphanumeric() -> (c: u8)
    ensures
        is_alphanumeric(c as char),
{
    thread_rng().sample(Alphanumeric)
}

/// Calls `String::from_iter` on the characters.
#[verifier::external_body]
fn text_of(chars: &Vec<char>) -> (text: String)
    ensures
        text@ == chars@,
{
    String::from_iter(chars.iter())
}

/// The letter that the public identifier of a canvas of the kind begins
/// with: "c" for a canvas, "o" for an object of the user's own.
pub open spec fn id_prefix(editor_type: EditorType) -> Seq<char> {
    match editor_type {
        EditorType::Canvas => seq!['c'],
        EditorType::CustomObject => seq!['o'],
    }
}

/// Whether `id` is a public identifier for the kind: the letter of the
/// kind and then eight letters or digits.
pub open spec fn is_unique_id(id: Seq<char>, editor_type: EditorType) -> bool {
    &&& id.len() == 9
    &&& id.subrange(0, 1) == id_prefix(editor_type)
    &&& forall|i: int| 1 <= i < 9 ==> is_alphanumeric(#[trigger] id[i])
}

/// The public identifier for the kind that ends in `tail`.
pub fn unique_id_with(editor_type: EditorType, tail: &str) -> (id: String)
    ensures
        id@ == id_prefix(editor_type) + tail@,
{
    let prefix = match editor_type {
        EditorType::Canvas => "c",
        EditorType::CustomObject => "o",
    };
    proof {
        reveal_strlit("c");
        reveal_strlit("o");
    }
    String::from_str(prefix).concat(tail)
}

/// A new public identifier for the kind: its letter and eight letters or
/// digits picked at random.
pub fn gen_unique_id(editor_type: EditorType) -> (id: String)
    ensures
        is_unique_id(id@, editor_type),
{
    let mut tail: Vec<char> = Vec::new();
    let mut n: usize = 0;
    while n < 8
        invariant
            n <= 8,
            tail@.len() == n,
            forall|i: int| 0 <= i < n ==> is_alphanumeric(#[trigger] tail@[i]),
        decreases 8 - n,
    {
        tail.push(sample_alphanumeric() as char);
        n += 1;
    }
    let id = unique_id_with(editor_type, text_of(&tail).as_str());
    assert(id@.subrange(0, 1) =~= id_prefix(editor_type));
    id
}

/// A copy of a text that may be missing.
fn copy_of(text: &Option<String>) -> (copy: Option<String>)
    ensures
        copy == *text,
{
    match text {
        Some(text) => Some(text.clone()),
        None => None,
    }
}

/// The record under which a canvas is kept for the first time: what is
/// known of the canvas, and its document as text.
pub fn into_new_canvas_model(state: &StateInfo, json: String) -> (model: NewCanvasModel)
    requires
        state.canvas_id is Some,
    ensures
        model == (NewCanvasModel {
            user_id: state.user_id,
            canvas_id: state.canvas_id.unwrap(),
            revision: state.revision,
            forked_id: state.forked_id,
            title: state.title,
            description: state.description,
            private: state.private,
            json,
            created_at: state.created_at,
            updated_at: state.updated_at,
        }),
{
    let canvas_id = match &state.canvas_id {
        Some(id) => id.clone(),
        None => String::new(),
    };
    NewCanvasModel {
        json,
        user_id: state.user_id,
        canvas_id,
        revision: state.revision,
        forked_id: copy_of(&state.forked_id),
        title: copy_of(&state.title),
        description: copy_of(&state.description),
        private: state.private,
        created_at: state.created_at,
        updated_at: state.updated_at,
    }
}

/// What is to change in the record of a canvas when it is kept again: its
/// document, its title and description, whether it is private, and the
/// time of the change.
pub fn into_edit_canvas_model(state: &StateInfo, json: String) -> (model: EditCanvasModel)
    ensures
        model == (EditCanvasModel {
            json: Some(json),
            title: Some(state.title),
            description: Some(state.description),
            private: Some(state.private),
            updated_at: Some(state.updated_at),
        }),
{
    EditCanvasModel {
        json: Some(json),
        title: Some(copy_of(&state.title)),
        description: Some(copy_of(&state.description)),
        private: Some(state.private),
        updated_at: Some(state.updated_at),
    }
}

/// What is known of a canvas, and its document as text, from the record
/// under which it is kept.
pub fn from_canvas_model(model: CanvasModel) -> (found: (StateInfo, String))
    ensures
        found.0 == (StateInfo {
            id: Some(model.id),
            user_id: model.user_id,
            canvas_id: Some(model.canvas_id),
            revision: model.revision,
            forked_id: model.forked_id,
            title: model.title,
            description: model.description,
            private: model.private,
            created_at: model.created_at,
            updated_at: model.updated_at,
            is_edited: false,
        }),
        found.1 == model.json,
{
    (
        StateInfo {
            id: Some(model.id),
            user_id: model.user_id,
            private: model.private,
            canvas_id: Some(model.canvas_id),
            revision: model.revision,
            forked_id: model.forked_id,
            title: model.title,
            description: model.description,
            created_at: model.created_at,
            updated_at: model.updated_at,
            is_edited: false,
        },
        model.json,
    )
}

} // verus!
