//! The bundled packaging descriptor: a structured-text resource that
//! names the launcher's version.
//!
//! The host hands the descriptor's content in as text; decoding it is
//! the one place the library leans on an outside decoder.

use vstd::prelude::*;

use crate::error::Error;

verus! {

/// The part of the packaging descriptor the library reads: the
/// launcher's version string.
pub struct Launcher {
    pub version: String,
}

/// The version string that the descriptor text carries, if the text is
/// a structured document whose `version` field is a string: a function
/// of the text alone, left uninterpreted and fixed by the decoder.
pub uninterp spec fn launcher_version_of(content: Seq<char>) -> Option<Seq<char>>;

/// Relies on serde_json::from_str::<serde_json::Value>, Value::get and
/// Value::as_str: together they decode the text and hand out its
/// `version` field exactly when the text is valid JSON whose `version`
/// field is a string, and their result depends on the text alone.
#[verifier::external_body]
fn decode_version_field(content: &str) -> (r: Option<String>)
    ensures
        match r {
            Some(v) => launcher_version_of(content@) == Some(v@),
            None => launcher_version_of(content@) is None,
        },
{
    let value: serde_json::Value = match serde_json::from_str(content) {
        Ok(v) => v,
        Err(_) => return None,
    };
    match value.get("version") {
        Some(field) => field.as_str().map(|s| s.to_owned()),
        None => None,
    }
}

/// Reads the packaging descriptor out of its content.
///
/// Returns the [`Launcher`] carrying the descriptor's version string
/// exactly when the content carries one, and fails with
/// [`Error::DeserializationError`] exactly when it does not — when the
/// content is not valid structured text, has no `version` field, or has
/// one that is not a string.
pub fn read_package_json(content: &str) -> (r: Result<Launcher, Error>)
    ensures
        match r {
            Ok(launcher) => launcher_version_of(content@) == Some(launcher.version@),
            Err(e) => e == Error::DeserializationError && launcher_version_of(content@) is None,
        },
{
    match decode_version_field(content) {
        Some(version) => Ok(Launcher { version }),
        None => Err(Error::DeserializationError),
    }
}

} // verus!
