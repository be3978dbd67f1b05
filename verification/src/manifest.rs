//! Reading a package manifest.
//!
//! The manifest is a JSON document; `serde_json` parses it. What the library reads from it
//! is the version that the manifest declares for a dependency: the member of that name
//! in the object under `dependencies`, if it is a string.

use vstd::prelude::*;

verus! {

/// `serde_json::Value`, a parsed JSON value, as a type whose inside the verifier does
/// not see.
#[verifier::external_type_specification]
#[verifier::external_body]
pub struct ExJsonValue(serde_json::Value);

/// `serde_json::Error`, why a text was refused, as a type whose inside the verifier does
/// not see.
#[verifier::external_type_specification]
#[verifier::external_body]
pub struct ExJsonError(serde_json::Error);

/// A JSON value as a tree. A number stands without its value: nothing here reads one.
pub enum Json {
    Null,
    Bool(bool),
    Number,
    String(Seq<char>),
    Array(Seq<Json>),
    Object(Map<Seq<char>, Json>),
}

/// The tree that `serde_json::from_str` reads from a text, if it accepts the text.
pub uninterp spec fn json_document(text: Seq<char>) -> Option<Json>;

/// The tree that a `serde_json::Value` holds.
pub uninterp spec fn json_tree(value: serde_json::Value) -> Json;

impl Json {
    /// The member of an object under a key; none if the value is no object or has no
    /// such member.
    pub open spec fn member(self, key: Seq<char>) -> Option<Json> {
        match self {
            Json::Object(members) => if members.contains_key(key) {
                Some(members[key])
            } else {
                None
            },
            _ => None,
        }
    }

    /// The text of a string; none if the value is no string.
    pub open spec fn text(self) -> Option<Seq<char>> {
        match self {
            Json::String(text) => Some(text),
            _ => None,
        }
    }

    /// The version that a manifest declares for a dependency: the string under the
    /// package's name in the object under `dependencies`.
    pub open spec fn declared_version(self, package_name: Seq<char>) -> Option<Seq<char>> {
        match self.member("dependencies"@) {
            Some(dependencies) => match dependencies.member(package_name) {
                Some(declared) => declared.text(),
                None => None,
            },
            None => None,
        }
    }
}

/// Parses a text as JSON with `serde_json::from_str`. Not proved: that the outcome is a
/// function of the text, [`json_document`], which is none where the parser refuses the
/// text and else the tree of the value that the parser returns.
#[verifier::external_body]
pub(crate) fn parse_json(text: &str) -> (r: Result<serde_json::Value, serde_json::Error>)
    ensures
        match r {
            Ok(value) => json_document(text@) == Some(json_tree(value)),
            Err(_) => json_document(text@) is None,
        },
{
    serde_json::from_str::<serde_json::Value>(text)
}

/// Looks a key up with `serde_json::Value::get`. Not proved: that an object gives the
/// member under the key, if it has one, and that any other value gives nothing.
#[verifier::external_body]
pub(crate) fn json_member<'a>(value: &'a serde_json::Value, key: &str) -> (r: Option<
    &'a serde_json::Value,
>)
    ensures
        match r {
            Some(found) => json_tree(*value).member(key@) == Some(json_tree(*found)),
            None => json_tree(*value).member(key@) is None,
        },
{
    value.get(key)
}

/// `serde_json::Value::as_str` gives the text of a string and nothing for any other value.
pub assume_specification<'a>[ serde_json::Value::as_str ](value: &'a serde_json::Value) -> (r:
    Option<&'a str>)
    ensures
        match r {
            Some(text) => json_tree(*value).text() == Some(text@),
            None => json_tree(*value).text() is None,
        },
;

/// The version that a parsed manifest declares for a dependency.
pub fn dependency_version<'a>(manifest: &'a serde_json::Value, package_name: &str) -> (r: Option<
    &'a str,
>)
    ensures
        match r {
            Some(declared) => json_tree(*manifest).declared_version(package_name@) == Some(
                declared@,
            ),
            None => json_tree(*manifest).declared_version(package_name@) is None,
        },
{
    match json_member(manifest, "dependencies") {
        Some(dependencies) => match json_member(dependencies, package_name) {
            Some(declared) => declared.as_str(),
            None => None,
        },
        None => None,
    }
}

} // verus!
