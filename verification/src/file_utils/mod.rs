//! Inspection and preparation of the files that go into an archive.
use vstd::prelude::*;

pub mod bitness;
pub mod header_img;
pub mod parse_ini;
pub mod zip;

verus! {

/// Name of the manifest in a project's root folder and in the archive.
pub const RMSKIN_INI_NAME: &'static str = "RMSKIN.ini";

/// Name of the header image in a project's root folder and in the archive.
pub const RMSKIN_BMP_NAME: &'static str = "RMSKIN.bmp";

} // verus!
