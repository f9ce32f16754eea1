//! The JSON document of a profile.

use vstd::prelude::*;
use vstd::string::*;
use crate::model::{DataError, Profile, ProfileModel};
use crate::text::opt_text;

verus! {

/// The error of `serde_json`, which the library passes on unopened.
#[verifier::external_type_specification]
#[verifier::external_body]
pub struct ExJsonError(serde_json::Error);

/// The JSON string literal that `serde_json` writes for a text, quotes and
/// escapes included, or `None` where it reports an error.
pub uninterp spec fn json_string(text: Seq<char>) -> Option<Seq<char>>;

/// `serde_json::to_string` on a string slice: the literal it writes is a
/// function of the text alone, and so is whether it fails.
#[verifier::external_body]
fn encode_string(text: &str) -> (encoded: Result<String, serde_json::Error>)
    ensures
        match encoded {
            Ok(literal) => json_string(text@) == Some(literal@),
            Err(_) => json_string(text@) is None,
        },
{
    serde_json::to_string(text)
}

/// The JSON value of an optional text: `null` when it is absent.
pub open spec fn json_optional(text: Option<Seq<char>>) -> Option<Seq<char>> {
    match text {
        Some(t) => json_string(t),
        None => Some("null"@),
    }
}

/// The object with the members `id`, `handle` and `avatar`, in this order,
/// whose values are the given JSON texts.
pub open spec fn object_text(id: Seq<char>, handle: Seq<char>, avatar: Seq<char>) -> Seq<char> {
    "{\"id\":"@ + id + ",\"handle\":"@ + handle + ",\"avatar\":"@ + avatar + "}"@
}

/// The JSON document of a profile, or `None` where one of its texts cannot be
/// written.
pub open spec fn profile_json(p: ProfileModel) -> Option<Seq<char>> {
    match (json_optional(p.id), json_string(p.handle), json_optional(p.avatar)) {
        (Some(id), Some(handle), Some(avatar)) => Some(object_text(id, handle, avatar)),
        _ => None,
    }
}

/// Writes the object of a profile around three values that are JSON already.
pub fn profile_object(id: &str, handle: &str, avatar: &str) -> (document: String)
    ensures
        document@ == object_text(id@, handle@, avatar@),
{
    let mut document = String::from_str("{\"id\":");
    document.append(id);
    document.append(",\"handle\":");
    document.append(handle);
    document.append(",\"avatar\":");
    document.append(avatar);
    document.append("}");
    document
}

/// The JSON value of an optional text.
fn encode_optional(text: &Option<String>) -> (encoded: Result<String, DataError>)
    ensures
        match encoded {
            Ok(value) => json_optional(opt_text(*text)) == Some(value@),
            Err(e) => e is Encode && json_optional(opt_text(*text)) is None,
        },
{
    match text {
        Some(t) => match encode_string(t.as_str()) {
            Ok(literal) => Ok(literal),
            Err(_) => Err(DataError::Encode),
        },
        None => Ok(String::from_str("null")),
    }
}

impl Profile {
    /// Writes this profile as the JSON object `{"id":..,"handle":..,"avatar":..}`,
    /// with `null` for an absent id or avatar.
    pub fn to_json(&self) -> (outcome: Result<String, DataError>)
        ensures
            match outcome {
                Ok(document) => profile_json(self@) == Some(document@),
                Err(e) => e is Encode && profile_json(self@) is None,
            },
    {
        let id = match encode_optional(&self.id) {
            Ok(id) => id,
            Err(e) => {
                return Err(e);
            },
        };
        let handle = match encode_string(self.handle.as_str()) {
            Ok(handle) => handle,
            Err(_) => {
                return Err(DataError::Encode);
            },
        };
        let avatar = match encode_optional(&self.avatar) {
            Ok(avatar) => avatar,
            Err(e) => {
                return Err(e);
            },
        };
        Ok(profile_object(id.as_str(), handle.as_str(), avatar.as_str()))
    }
}

} // verus!
