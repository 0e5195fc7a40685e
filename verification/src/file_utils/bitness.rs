//! Classification of a plugin library by the machine type in its PE header.
use vstd::prelude::*;

verus! {

/// The target architecture of a plugin library.
#[derive(Debug, PartialEq, Eq, Clone, Copy)]
pub enum Bitness {
    Bit32(),
    Bit64(),
    Unknown(u16),
}

/// Why a file could not be read as a PE image.
#[derive(Debug, PartialEq, Eq, Clone, Copy)]
pub enum BinaryError {
    /// The file ends before the field that was to be read.
    UnexpectedEof,
    /// The bytes at the PE offset are not the PE signature.
    InvalidData,
}

/// Length of the DOS header, which ends with the offset of the PE header.
pub const DOS_HEADER_LEN: usize = 64;

/// Position in the DOS header of the 32-bit offset of the PE header.
pub const PE_OFFSET_POS: usize = 0x3c;

/// Machine type of 32-bit x86 images.
pub const MACHINE_I386: u16 = 0x014c;

/// Machine type of x86-64 images.
pub const MACHINE_AMD64: u16 = 0x8664;

/// The value of two bytes read as a little-endian number.
pub open spec fn le_u16(s: Seq<u8>, at: int) -> int {
    s[at] + 256 * s[at + 1]
}

/// The value of four bytes read as a little-endian number.
pub open spec fn le_u32(s: Seq<u8>, at: int) -> int {
    s[at] + 256 * s[at + 1] + 65536 * s[at + 2] + 16777216 * s[at + 3]
}

/// Whether the four bytes at `at` are `P`, `E`, 0, 0.
pub open spec fn has_pe_signature(s: Seq<u8>, at: int) -> bool {
    s[at] == 0x50 && s[at + 1] == 0x45 && s[at + 2] == 0 && s[at + 3] == 0
}

/// The architecture that a machine type stands for.
pub open spec fn classify_machine(machine: u16) -> Bitness {
    if machine == MACHINE_I386 {
        Bitness::Bit32()
    } else if machine == MACHINE_AMD64 {
        Bitness::Bit64()
    } else {
        Bitness::Unknown(machine)
    }
}

/// Where the PE header of `data` starts, for `data` that holds a DOS header.
pub open spec fn pe_offset(data: Seq<u8>) -> int {
    le_u32(data, PE_OFFSET_POS as int)
}

/// What reading `data` as a PE image yields.
///
/// The DOS header is read first, then the signature at the offset it names,
/// then the machine type behind the signature; the first of them that the
/// file is too short for, or a wrong signature, ends the reading.
pub open spec fn spec_get_dll_bitness(data: Seq<u8>) -> Result<Bitness, BinaryError> {
    if data.len() < DOS_HEADER_LEN {
        Err(BinaryError::UnexpectedEof)
    } else if pe_offset(data) + 4 > data.len() {
        Err(BinaryError::UnexpectedEof)
    } else if !has_pe_signature(data, pe_offset(data)) {
        Err(BinaryError::InvalidData)
    } else if pe_offset(data) + 6 > data.len() {
        Err(BinaryError::UnexpectedEof)
    } else {
        Ok(classify_machine(le_u16(data, pe_offset(data) + 4) as u16))
    }
}

/// Get the "bitness" of the DLL whose contents are `data`.
pub fn get_dll_bitness(data: &[u8]) -> (r: Result<Bitness, BinaryError>)
    ensures
        r == spec_get_dll_bitness(data@),
{
    if data.len() < DOS_HEADER_LEN {
        return Err(BinaryError::UnexpectedEof);
    }
    let offset: u64 = data[PE_OFFSET_POS] as u64 + 256 * (data[PE_OFFSET_POS + 1] as u64) + 65536
        * (data[PE_OFFSET_POS + 2] as u64) + 16777216 * (data[PE_OFFSET_POS + 3] as u64);
    let len: u64 = data.len() as u64;
    if offset + 4 > len {
        return Err(BinaryError::UnexpectedEof);
    }
    let at: usize = offset as usize;
    if !(data[at] == 0x50 && data[at + 1] == 0x45 && data[at + 2] == 0 && data[at + 3] == 0) {
        return Err(BinaryError::InvalidData);
    }
    if offset + 6 > len {
        return Err(BinaryError::UnexpectedEof);
    }
    let machine: u16 = data[at + 4] as u16 + 256 * (data[at + 5] as u16);
    if machine == MACHINE_I386 {
        Ok(Bitness::Bit32())
    } else if machine == MACHINE_AMD64 {
        Ok(Bitness::Bit64())
    } else {
        Ok(Bitness::Unknown(machine))
    }
}

/// Every image with a DOS header, a PE signature and a machine type is
/// classified by the machine type alone: `0x014c` is 32-bit, `0x8664` is
/// 64-bit, and any other value comes back unchanged as unknown.
pub proof fn lemma_machine_type_decides(data: Seq<u8>, machine: u16)
    requires
        data.len() >= DOS_HEADER_LEN,
        pe_offset(data) + 6 <= data.len(),
        has_pe_signature(data, pe_offset(data)),
        le_u16(data, pe_offset(data) + 4) == machine,
    ensures
        machine == 0x014c ==> spec_get_dll_bitness(data) == Ok::<Bitness, BinaryError>(
            Bitness::Bit32(),
        ),
        machine == 0x8664 ==> spec_get_dll_bitness(data) == Ok::<Bitness, BinaryError>(
            Bitness::Bit64(),
        ),
        machine != 0x014c && machine != 0x8664 ==> spec_get_dll_bitness(data) == Ok::<
            Bitness,
            BinaryError,
        >(Bitness::Unknown(machine)),
{
}

} // verus!
