//! Which storefront application id a build carries: the one the environment
//! names, else the one in the local id file, else the default.

use crate::text::{blank, first_line, first_line_of, is_blank, trim, trimmed};
use vstd::prelude::*;

verus! {

/// Where the application id of a build came from.
#[derive(Clone, Copy, Debug, PartialEq, Eq, Structural)]
pub enum AppIdSource {
    /// The environment named it.
    Environment,
    /// The first line of the local id file named it.
    File,
    /// The default: the local id file is there, but its first line is blank.
    EmptyFile,
    /// The default: there is no local id file to read.
    NoFile,
}

/// The application id of a build, and where it came from.
pub struct AppId {
    pub id: String,
    pub source: AppIdSource,
}

/// The id used where neither the environment nor the local file names one.
pub open spec fn default_app_id() -> Seq<char> {
    "480"@
}

/// The characters of a text that may be absent.
pub open spec fn chars_of(text: Option<&str>) -> Option<Seq<char>> {
    match text {
        Some(t) => Some(t@),
        None => None,
    }
}

/// Whether the environment names an id: its value is there and not blank.
pub open spec fn environment_names_id(env_value: Option<Seq<char>>) -> bool {
    env_value matches Some(v) && !is_blank(v)
}

/// Where the id comes from. The environment goes first; a blank value
/// there counts as none. Then the local file, if it can be read and its
/// first line is not blank. Then the default.
pub open spec fn resolved_source(
    env_value: Option<Seq<char>>,
    file_text: Option<Seq<char>>,
) -> AppIdSource {
    if environment_names_id(env_value) {
        AppIdSource::Environment
    } else {
        match file_text {
            Some(text) => if is_blank(first_line(text)) {
                AppIdSource::EmptyFile
            } else {
                AppIdSource::File
            },
            None => AppIdSource::NoFile,
        }
    }
}

/// The id itself: the environment's value as it stands; or the first line
/// of the local file, trimmed; or the default.
pub open spec fn resolved_id(
    env_value: Option<Seq<char>>,
    file_text: Option<Seq<char>>,
) -> Seq<char> {
    match resolved_source(env_value, file_text) {
        AppIdSource::Environment => env_value->0,
        AppIdSource::File => trimmed(first_line(file_text->0)),
        AppIdSource::EmptyFile => default_app_id(),
        AppIdSource::NoFile => default_app_id(),
    }
}

/// Picks the application id of a build from the environment's value, if
/// the variable is set, and the local id file's text, if the file could be
/// read. Always gives an id: nothing here can fail.
pub fn resolve_app_id(env_value: Option<&str>, file_text: Option<&str>) -> (app_id: AppId)
    ensures
        app_id.source == resolved_source(chars_of(env_value), chars_of(file_text)),
        app_id.id@ == resolved_id(chars_of(env_value), chars_of(file_text)),
{
    if let Some(value) = env_value {
        if !blank(value) {
            return AppId { id: value.to_owned(), source: AppIdSource::Environment };
        }
    }
    match file_text {
        Some(text) => {
            let id = trim(first_line_of(text));
            proof {
                crate::text::lemma_blank_iff_trims_to_nothing(first_line(text@));
            }
            if id.is_empty() {
                AppId { id: "480".to_owned(), source: AppIdSource::EmptyFile }
            } else {
                AppId { id: id.to_owned(), source: AppIdSource::File }
            }
        },
        None => AppId { id: "480".to_owned(), source: AppIdSource::NoFile },
    }
}

/// An id that came from the environment or from the file is never empty.
pub proof fn lemma_named_id_is_not_blank(
    env_value: Option<Seq<char>>,
    file_text: Option<Seq<char>>,
)
    requires
        resolved_source(env_value, file_text) == AppIdSource::Environment || resolved_source(
            env_value,
            file_text,
        ) == AppIdSource::File,
    ensures
        resolved_id(env_value, file_text).len() > 0,
{
    if resolved_source(env_value, file_text) == AppIdSource::File {
        crate::text::lemma_blank_iff_trims_to_nothing(first_line(file_text->0));
    } else {
        crate::text::lemma_empty_is_blank();
        assert(env_value->0 != Seq::<char>::empty());
        assert(env_value->0.len() > 0) by {
            if env_value->0.len() == 0 {
                assert(env_value->0 =~= Seq::<char>::empty());
            }
        }
    }
}

} // verus!
