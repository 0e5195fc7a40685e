//! Packaging of Rainmeter skin projects into `.rmskin` archives.
//!
//! Every function here works on plain values: bytes, strings and the
//! directory listings that a caller has already read.
use vstd::prelude::*;

pub mod cli;
pub mod discover;
pub mod error;
pub mod file_utils;
pub mod logger;
pub mod project;
pub mod text;

pub use cli::{CliArgs, CliError, Environment, GitQuery, Lookup};
pub use discover::{discover_components, HasComponents};
pub use error::{ArchiveError, IniError, RmSkinBuildError};
pub use file_utils::{
    bitness::{get_dll_bitness, BinaryError, Bitness},
    header_img::{validate_header_image, HeaderImage},
    parse_ini::{parse_rmskin_ini, Defaults, Manifest, Missing, Release},
    zip::{init_zip_for_package, plan_archive, seal, ArchiveEntry},
};
pub use logger::{logger_init, Logger};
pub use project::Node;

verus! {

/// What follows the name and the version in the name of an rmskin file.
pub const ARCHIVE_EXTENSION: &'static str = ".rmskin";

/// The name under which the name of the rmskin file is reported.
pub const GH_OUT_VAR_NAME: &'static str = "arc-name";

/// The name of the rmskin file of a release: its name, `_`, its version
/// and the extension.
pub open spec fn spec_archive_name(name: Seq<char>, version: Seq<char>) -> Seq<char> {
    name + seq!['_'] + version + ARCHIVE_EXTENSION@
}

/// The name of the rmskin file of a release.
pub fn archive_name(name: &str, version: &str) -> (r: String)
    ensures
        r@ == spec_archive_name(name@, version@),
{
    proof {
        reveal_strlit("_");
    }
    let mut out = String::from_str(name);
    out.append("_");
    out.append(version);
    out.append(ARCHIVE_EXTENSION);
    out
}

/// The line that reports the name of the rmskin file: the name of the
/// report, `=`, and the file's name.
pub fn output_line(archive_name: &str) -> (r: String)
    ensures
        r@ == GH_OUT_VAR_NAME@ + seq!['='] + archive_name@,
{
    proof {
        reveal_strlit("=");
    }
    let mut out = String::from_str(GH_OUT_VAR_NAME);
    out.append("=");
    out.append(archive_name);
    out
}

/// Whether a build may go on with what was found in the project: it
/// must hold a manifest and at least one skin.
pub fn check_project(components: &HasComponents) -> (r: Result<(), RmSkinBuildError>)
    ensures
        components.spec_is_valid() ==> r is Ok,
        !components.spec_is_valid() ==> r matches Err(RmSkinBuildError::MalformedProject),
{
    if components.is_valid() {
        Ok(())
    } else {
        Err(RmSkinBuildError::MalformedProject)
    }
}

} // verus!
