//! The launcher's settings.
use vstd::prelude::*;
use std::path::PathBuf;

verus! {

#[verifier::external_type_specification]
#[verifier::external_body]
pub struct ExPathBuf(PathBuf);

/// Relies on `std::path::Path::join`: `name` appended to `dir` with the
/// platform's separator (or `name` alone where it is absolute). What it gives
/// depends on the platform, so nothing more is stated of it.
#[verifier::external_body]
fn join_path(dir: &str, name: &str) -> (r: PathBuf) {
    std::path::Path::new(dir).join(name)
}

/// Where the first program is, and which process to wait for afterwards.
#[derive(Debug, Clone)]
pub struct Config {
    /// Directory that holds the program to launch first.
    pub dir: String,
    /// File name of that program.
    pub name_exe: String,
    /// Executable name of the process to find once it has finished.
    pub name_process: String,
}

impl Config {
    /// Path of the program to launch: its file name under its directory.
    pub fn exe_path(&self) -> PathBuf {
        join_path(self.dir.as_str(), self.name_exe.as_str())
    }
}

} // verus!
