//! Where the database file lives: in a directory of the application's own,
//! below the data directory that the platform gives to each user.

use vstd::prelude::*;
use std::path::PathBuf;
use crate::error::{ErrorKind, StoreError, NO_DATA_DIR_MESSAGE};
use crate::table::Text;

verus! {

/// The application's directory below the user's data directory.
pub const APP_DIR: &'static str = "paymanager";

/// The database file inside the application's directory.
pub const DB_FILE: &'static str = "paymanager.db";

/// `std::path::PathBuf`, a location in the file system.
#[verifier::external_type_specification]
#[verifier::external_body]
pub struct ExPathBuf(std::path::PathBuf);

/// The path that `PathBuf::push` makes of `base` when `name` is pushed onto
/// it.
pub uninterp spec fn path_with(base: PathBuf, name: Text) -> PathBuf;

/// `PathBuf::push`: `base` extended by `name`.
#[verifier::external_body]
fn pushed(base: PathBuf, name: &str) -> (path: PathBuf)
    ensures
        path == path_with(base, name@),
{
    let mut path = base;
    path.push(name);
    path
}

/// The directory that holds the database file, given the user's data
/// directory. Fails if the platform named none. The directory is not
/// created here.
pub fn settings_dir(data_dir: Option<PathBuf>) -> (r: Result<PathBuf, StoreError>)
    ensures
        match data_dir {
            Some(base) => r matches Ok(dir) && dir == path_with(base, APP_DIR@),
            None => r matches Err(error) && error.kind == ErrorKind::StorageUnavailable
                && error.message@ == NO_DATA_DIR_MESSAGE@,
        },
{
    match data_dir {
        Some(base) => Ok(pushed(base, APP_DIR)),
        None => Err(StoreError::no_data_dir()),
    }
}

/// The database file inside the directory `dir`.
pub fn database_file(dir: PathBuf) -> (path: PathBuf)
    ensures
        path == path_with(dir, DB_FILE@),
{
    pushed(dir, DB_FILE)
}

/// The database file, given the user's data directory. Fails if the platform
/// named none.
pub fn get_db_path(data_dir: Option<PathBuf>) -> (r: Result<PathBuf, StoreError>)
    ensures
        match data_dir {
            Some(base) => r matches Ok(path) && path == path_with(
                path_with(base, APP_DIR@),
                DB_FILE@,
            ),
            None => r matches Err(error) && error.kind == ErrorKind::StorageUnavailable
                && error.message@ == NO_DATA_DIR_MESSAGE@,
        },
{
    match settings_dir(data_dir) {
        Ok(dir) => Ok(database_file(dir)),
        Err(error) => Err(error),
    }
}

} // verus!
