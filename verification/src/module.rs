//! Opening the watched module through the dynamic library loader.

use crate::hotloader::Hotloader;
use crate::proxy::HotloadProxy;
use libloading::Library;
use std::path::PathBuf;
use vstd::prelude::*;

verus! {

/// `libloading::Library`: exclusive ownership of one opened module. Nothing
/// inside it is visible here; dropping it unloads the module.
#[verifier::external_type_specification]
#[verifier::external_body]
pub struct ExLibrary(Library);

/// `libloading::Error`: why an open, a lookup or a close failed.
#[verifier::external_type_specification]
#[verifier::external_body]
pub struct ExLoadError(libloading::Error);

/// `std::path::PathBuf`: the path of the watched module, carried as it is.
#[verifier::external_type_specification]
#[verifier::external_body]
pub struct ExPathBuf(PathBuf);

/// Calls `libloading::Library::new` on the path. Whether the open succeeds
/// depends on what is on disk at the moment of the call, so nothing is
/// claimed of the result.
#[verifier::external_body]
fn load_library(path: &PathBuf) -> (opened: Result<Library, libloading::Error>) {
    Library::new(path)
}

/// `module` is an outcome of an attempt, made by an unloaded hotloader, to
/// open the module at `path`, with the reason for a failure dropped. Nothing
/// more is known of it: what an open gives depends on what is on disk at
/// that moment, and two attempts on one path may differ. Only
/// `open_watched` establishes it.
pub closed spec fn opened_for(path: PathBuf, module: Option<Library>) -> bool {
    exists|opened: Result<Library, libloading::Error>|
        call_ensures(load_library, (&path,), opened) && module == match opened {
            Ok(library) => Some(library),
            Err(_) => None,
        }
}

/// Attempts to open the module at the hotloader's watched path. A missing
/// file, a file that is still being written and a malformed binary all give
/// `None`. The hotloader must be unloaded: the adapter it held, and with it
/// the module opened before, is gone by the time the path is opened again,
/// so a hotloader never has two module handles.
pub fn open_watched<T: HotloadProxy>(hotloader: &Hotloader<T>) -> (module: Option<Library>)
    requires
        hotloader@.proxy is None,
    ensures
        opened_for(hotloader@.watched_path, module),
{
    match load_library(hotloader.watched_path()) {
        Ok(library) => Some(library),
        Err(_) => None,
    }
}

} // verus!
