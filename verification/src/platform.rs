//! What the program takes from the desktop: its directories, clipboard, processes and the other
//! instances of itself.
use vstd::prelude::*;
use vstd::utf8::*;

use crate::bytes;
use crate::launch;

pub mod kde_activation;
pub mod laws;
pub mod process;
pub mod single_instance;

verus! {

/// A value of the environment that is not empty.
pub open spec fn nonempty(value: Option<Vec<u8>>) -> Option<Seq<u8>> {
    match value {
        Some(value) => if value@.len() > 0 {
            Some(value@)
        } else {
            None
        },
        None => None,
    }
}

/// The contents of an optional path.
pub open spec fn path_view(path: Option<Vec<u8>>) -> Option<Seq<u8>> {
    match path {
        Some(path) => Some(path@),
        None => None,
    }
}

/// The user's directory, from the value of `HOME`.
pub fn user_home_dir_with(home: Option<Vec<u8>>) -> (directory: Option<Vec<u8>>)
    ensures
        path_view(directory) == nonempty(home),
{
    match home {
        Some(home) => {
            if home.len() > 0 {
                Some(home)
            } else {
                None
            }
        },
        None => None,
    }
}

/// The directory of the user's settings, from the values of `XDG_CONFIG_HOME` and `HOME`: the first
/// where it is given, `.config` below the second otherwise.
pub fn config_home_dir_with(config_home: Option<Vec<u8>>, home: Option<Vec<u8>>) -> (directory:
    Option<Vec<u8>>)
    ensures
        path_view(directory) == match (nonempty(config_home), nonempty(home)) {
            (Some(path), _) => Some(path),
            (None, Some(path)) => Some(launch::joined(path, encode_utf8(".config"@))),
            (None, None) => None,
        },
{
    match user_home_dir_with(config_home) {
        Some(path) => Some(path),
        None => match user_home_dir_with(home) {
            Some(path) => Some(launch::join_path(path.as_slice(), ".config".as_bytes())),
            None => None,
        },
    }
}

/// A path of the clipboard's file list without the carriage return that the transport leaves.
pub open spec fn without_transport_cr(path: Seq<u8>) -> Seq<u8> {
    if path.len() > 0 && path.last() == 0x0d {
        path.drop_last()
    } else {
        path
    }
}

/// Takes the carriage return that the transport leaves off the end of each path, one at most.
pub fn normalize_linux_arboard_file_list(paths: &mut Vec<Vec<u8>>)
    ensures
        final(paths)@.len() == old(paths)@.len(),
        forall|i: int|
            0 <= i < old(paths)@.len() ==> #[trigger] final(paths)@[i]@ == without_transport_cr(
                old(paths)@[i]@,
            ),
{
    let ghost before = paths@;
    let mut normalized: Vec<Vec<u8>> = Vec::new();
    let mut i: usize = 0;
    while i < paths.len()
        invariant
            i <= paths@.len(),
            paths@ == before,
            normalized@.len() == i,
            forall|j: int|
                0 <= j < i ==> #[trigger] normalized@[j]@ == without_transport_cr(before[j]@),
        decreases paths@.len() - i,
    {
        let mut path = bytes::copy(paths[i].as_slice());
        if path.len() > 0 && path[path.len() - 1] == 0x0d {
            let _ = path.pop();
        }
        normalized.push(path);
        i += 1;
    }
    *paths = normalized;
}

} // verus!
