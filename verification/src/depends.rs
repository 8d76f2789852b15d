//! Locations of the bundled patcher and its libraries under the
//! temporary directory.

use vstd::prelude::*;

use crate::helper::{format_dir_spec, format_directory_path};

verus! {

/// File name of the patcher binary.
pub const BUTLER_LOCATION: &'static str = "butler";

/// File name of the patcher's first library.
pub const BUTLER_1: &'static str = "7z.so";

/// File name of the patcher's second library.
pub const BUTLER_2: &'static str = "libc7zip.so";

/// Do all three patcher files exist (given each file's presence)?
pub fn butler_exists(has_butler: bool, has_lib_1: bool, has_lib_2: bool) -> (r: bool)
    ensures
        r == (has_butler && has_lib_1 && has_lib_2),
{
    has_butler && has_lib_1 && has_lib_2
}

/// Location of the patcher binary under the temporary directory.
pub fn get_butler_location(tmp_dir: String) -> (r: String)
    ensures
        r@ == format_dir_spec(tmp_dir@) + BUTLER_LOCATION@,
{
    let mut path = format_directory_path(tmp_dir);
    path.append(BUTLER_LOCATION);
    path
}

/// Location of the patcher's first library under the temporary
/// directory.
pub fn get_butler_1_location(tmp_dir: String) -> (r: String)
    ensures
        r@ == format_dir_spec(tmp_dir@) + BUTLER_1@,
{
    let mut path = format_directory_path(tmp_dir);
    path.append(BUTLER_1);
    path
}

/// Location of the patcher's second library under the temporary
/// directory.
pub fn get_butler_2_location(tmp_dir: String) -> (r: String)
    ensures
        r@ == format_dir_spec(tmp_dir@) + BUTLER_2@,
{
    let mut path = format_directory_path(tmp_dir);
    path.append(BUTLER_2);
    path
}

} // verus!
