//! Saving the query to a file and loading it from one: the two actions of
//! the file dialog, and the path that the dialog proposes for saving.

use vstd::prelude::*;
use vstd::string::*;
use crate::text::{ends_with, str_ends_with};

verus! {

/// What the file dialog is open for.
#[derive(Clone, Copy, Debug, PartialEq, Eq, Structural)]
pub enum FileAction {
    /// Write the query text to the path.
    Save,
    /// Read the query text from the path.
    Load,
}

/// The extension of a file that holds a query.
pub open spec fn sql_extension() -> Seq<char> {
    ".sql"@
}

/// The last second that can be written as a timestamp with a year of four
/// digits: the end of the year 9999, counted from the start of 1970.
pub const MAX_TIMESTAMP_SECONDS: u64 = 253_402_300_799;

/// The timestamp of a second counted from the start of 1970, in the form
/// `2018-02-14T00:28:07Z`, as `humantime` writes it.
pub uninterp spec fn rfc3339_seconds(seconds: u64) -> Seq<char>;

/// Writes the timestamp of `seconds`.
///
/// Trusted: calls `humantime::format_rfc3339_seconds` on the time that lies
/// `seconds` seconds after the start of 1970, and takes the text that the
/// result displays as. The text depends on `seconds` alone: the value is
/// always UTC. Times after the year 9999 cannot be displayed and are left
/// out.
#[verifier::external_body]
fn format_rfc3339_seconds(seconds: u64) -> (r: String)
    requires
        seconds <= MAX_TIMESTAMP_SECONDS,
    ensures
        r@ == rfc3339_seconds(seconds),
{
    let time = std::time::UNIX_EPOCH + std::time::Duration::from_secs(seconds);
    humantime::format_rfc3339_seconds(time).to_string()
}

/// The name that the dialog proposes for a file saved at `seconds`.
pub open spec fn default_file_name(seconds: u64) -> Seq<char> {
    "query_"@ + rfc3339_seconds(seconds) + sql_extension()
}

/// The sign between a directory and a file in a path.
pub open spec fn path_separator(windows: bool) -> Seq<char> {
    if windows {
        "\\"@
    } else {
        "/"@
    }
}

/// Whether a path names a file that holds a query, by its extension.
pub open spec fn has_sql_extension(path: Seq<char>) -> bool {
    ends_with(path, sql_extension())
}

/// What the dialog adds to `path` when it opens for saving: nothing where
/// the path has the extension, else a separator and the default file name.
pub open spec fn save_suffix(path: Seq<char>, seconds: u64, windows: bool) -> Seq<char> {
    if has_sql_extension(path) {
        Seq::empty()
    } else {
        path_separator(windows) + default_file_name(seconds)
    }
}

/// The path that the dialog proposes for saving, from the path it held.
pub open spec fn save_path(path: Seq<char>, seconds: u64, windows: bool) -> Seq<char> {
    path + save_suffix(path, seconds, windows)
}

/// The proposed path always has the extension; a path that has it already is
/// proposed unchanged; and what the user had typed is kept in front of
/// whatever is added.
pub proof fn lemma_save_path_has_extension(path: Seq<char>, seconds: u64, windows: bool)
    ensures
        has_sql_extension(save_path(path, seconds, windows)),
        has_sql_extension(path) ==> save_path(path, seconds, windows) == path,
        path.is_prefix_of(save_path(path, seconds, windows)),
{
    let proposed = save_path(path, seconds, windows);
    let ext = sql_extension();
    if has_sql_extension(path) {
    } else {
        let head = path + path_separator(windows) + "query_"@ + rfc3339_seconds(seconds);
        assert(proposed.subrange(proposed.len() - ext.len(), proposed.len() as int) =~= ext);
    }
}

/// Whether `path` has the extension of a query file.
pub fn path_has_sql_extension(path: &str) -> (r: bool)
    ensures
        r == has_sql_extension(path@),
{
    str_ends_with(path, ".sql")
}

/// Writes the name that the dialog proposes for a file saved at `seconds`.
pub fn suggested_file_name(seconds: u64) -> (r: String)
    requires
        seconds <= MAX_TIMESTAMP_SECONDS,
    ensures
        r@ == default_file_name(seconds),
{
    let stamp = format_rfc3339_seconds(seconds);
    let mut name = "query_".to_owned();
    name.append(stamp.as_str());
    name.append(".sql");
    name
}

/// Writes what the dialog adds to `path` when it opens for saving at
/// `seconds`.
pub fn suggested_suffix(path: &str, seconds: u64, windows: bool) -> (r: String)
    requires
        seconds <= MAX_TIMESTAMP_SECONDS,
    ensures
        r@ == save_suffix(path@, seconds, windows),
{
    if path_has_sql_extension(path) {
        String::new()
    } else {
        let mut suffix = if windows {
            "\\".to_owned()
        } else {
            "/".to_owned()
        };
        let name = suggested_file_name(seconds);
        suffix.append(name.as_str());
        suffix
    }
}

/// Writes the path that the dialog proposes for saving at `seconds`, from
/// the path it held.
pub fn suggested_save_path(path: &str, seconds: u64, windows: bool) -> (r: String)
    requires
        seconds <= MAX_TIMESTAMP_SECONDS,
    ensures
        r@ == save_path(path@, seconds, windows),
        has_sql_extension(r@),
{
    let suffix = suggested_suffix(path, seconds, windows);
    let mut proposed = path.to_owned();
    proposed.append(suffix.as_str());
    proof {
        lemma_save_path_has_extension(path@, seconds, windows);
    }
    proposed
}

/// The title of the file dialog.
pub open spec fn dialog_title(action: Option<FileAction>) -> Seq<char> {
    match action {
        Some(FileAction::Save) => "Save SQL to File"@,
        Some(FileAction::Load) => "Load SQL from File"@,
        None => "File Action"@,
    }
}

/// The title of the file dialog.
pub fn file_dialog_title(action: Option<FileAction>) -> (r: &'static str)
    ensures
        r@ == dialog_title(action),
{
    match action {
        Some(FileAction::Save) => "Save SQL to File",
        Some(FileAction::Load) => "Load SQL from File",
        None => "File Action",
    }
}

} // verus!
