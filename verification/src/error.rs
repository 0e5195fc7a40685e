//! The errors of the library's operations.
use crate::cli::CliError;
use crate::file_utils::bitness::BinaryError;
use vstd::prelude::*;

verus! {

/// `zip::result::ZipError`, handed on as it came.
#[verifier::external_type_specification]
#[verifier::external_body]
pub struct ExZipError(zip::result::ZipError);

/// `std::io::Error`, handed on as it came.
#[verifier::external_type_specification]
#[verifier::external_body]
pub struct ExIoError(std::io::Error);

/// `ini::Error`, handed on as it came.
#[verifier::external_type_specification]
#[verifier::external_body]
pub struct ExIniError(ini::Error);

/// Errors emitted by [`parse_rmskin_ini()`](fn@crate::parse_rmskin_ini).
#[derive(Debug)]
pub enum IniError {
    /// The file that the manifest loads on install could not be found,
    /// or the text of the manifest could not be made.
    Io(std::io::Error),
    /// The manifest is no UTF-8 or no INI file.
    ParseError(ini::Error),
    /// The manifest lacks the section of this name.
    MissingSection(String),
    /// A default for a key that the manifest lacks could not be had.
    CliError(CliError),
}

/// Errors emitted by [`init_zip_for_package()`](fn@crate::init_zip_for_package).
#[derive(Debug)]
pub enum ArchiveError {
    /// The archive writer could not take the contents of a file.
    Io(std::io::Error),
    /// A plugin library could not be read as a PE image.
    Binary(BinaryError),
    /// The archive writer refused an entry or could not finish.
    ZipError(zip::result::ZipError),
    /// A plugin library is for a machine that is neither x86 nor x86-64.
    InvalidPlugin(u16),
}

/// Errors emitted by a build as a whole.
#[derive(Debug)]
pub enum RmSkinBuildError {
    /// A file or folder could not be read or written.
    Io(std::io::Error),
    /// The header image could not be decoded or encoded.
    ImageError(image::ImageError),
    /// The manifest could not be resolved.
    IniError(IniError),
    /// A default for the release could not be had.
    CliError(CliError),
    /// The archive could not be put together.
    ArchiveError(ArchiveError),
    /// Project is malformed. It must contain a RMSKIN.ini and a populated Skins folder
    MalformedProject,
}

} // verus!
