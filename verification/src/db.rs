//! Location of the on-disk database.
use vstd::prelude::*;
use std::path::{Path, PathBuf};

verus! {

#[verifier::external_type_specification]
#[verifier::external_body]
pub struct ExPath(Path);

#[verifier::external_type_specification]
#[verifier::external_body]
pub struct ExPathBuf(PathBuf);

/// File name of the application's SQLite database inside its data directory.
pub const DB_FILE_NAME: &'static str = "borge_equipment_rental.sqlite3";

/// Name for the path `Path::join` gives for `base` extended by `name`.
pub uninterp spec fn joined_path(base: &Path, name: Seq<char>) -> PathBuf;

/// `Path::join`: `base` extended by the relative path `name`. Claims: the
/// result is a function of `base` and the text of `name` (`join` reads no file
/// and never fails).
#[verifier::external_body]
fn path_join(base: &Path, name: &str) -> (joined: PathBuf)
    ensures
        joined == joined_path(base, name@),
{
    base.join(name)
}

/// The database file's path: the application's data directory joined with
/// `DB_FILE_NAME`, so the file sits directly inside that directory.
pub fn resolve_db_path(app_data_dir: &Path) -> (db_path: PathBuf)
    ensures
        db_path == joined_path(app_data_dir, DB_FILE_NAME@),
{
    path_join(app_data_dir, DB_FILE_NAME)
}

} // verus!
