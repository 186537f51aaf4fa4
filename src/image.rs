//! Reading the executable image: virtual addresses to bytes, and instructions
//! decoded in place.
use vstd::prelude::*;
use pelite::pe64::{Pe, PeFile};
use crate::code;
use crate::error::VmError;
use crate::instruction::Insn;

verus! {

/// pelite's view of a 64-bit PE file, carried opaquely.
#[verifier::external_type_specification]
#[verifier::external_body]
pub struct ExPeFile<'a>(PeFile<'a>);

/// Relies on pelite's `PeFile::from_bytes`: the header check, which also
/// depends on where the bytes lie in memory, so nothing is stated of it.
#[verifier::external_body]
fn parse_pe<'a>(bytes: &'a [u8]) -> Option<PeFile<'a>> {
    PeFile::from_bytes(bytes).ok()
}

/// A 64-bit PE file: its bytes, and pelite's view of the same bytes.
pub struct PeImage<'a> {
    pe: PeFile<'a>,
    bytes: &'a [u8],
}

/// The relative address of virtual address `va` in the PE file `image`,
/// by its optional header; none when the address lies outside the image.
pub uninterp spec fn pe_rva_of(image: Seq<u8>, va: u64) -> Option<u32>;

/// The file offset of relative address `rva` in the PE file `image`, by its
/// headers and section table; none when no file bytes back it.
pub uninterp spec fn pe_file_offset_of(image: Seq<u8>, rva: u32) -> Option<usize>;

impl<'a> PeImage<'a> {
    /// The file's bytes.
    pub closed spec fn image(&self) -> Seq<u8> {
        self.bytes@
    }

    /// Parses `bytes` as a 64-bit PE file; `OutOfImage` when pelite
    /// refuses its headers.
    pub fn from_bytes(bytes: &'a [u8]) -> (r: Result<PeImage<'a>, VmError>)
        ensures
            r matches Ok(image) ==> image.image() == bytes@,
    {
        match parse_pe(bytes) {
            Some(pe) => Ok(PeImage { pe, bytes }),
            None => Err(VmError::OutOfImage),
        }
    }

    /// The file's bytes.
    pub fn bytes(&self) -> (r: &'a [u8])
        ensures
            r@ == self.image(),
    {
        self.bytes
    }
}

/// Relies on pelite's `Pe::va_to_rva`, which reads only the optional header
/// of the bytes the view was parsed from; an error becomes none.
#[verifier::external_body]
fn pe_va_to_rva(image: &PeImage, va: u64) -> (r: Option<u32>)
    ensures
        r == pe_rva_of(image.image(), va),
{
    image.pe.va_to_rva(va).ok()
}

/// Relies on pelite's `Pe::rva_to_file_offset`, which reads only the headers
/// and section table of the bytes the view was parsed from; an error
/// becomes none.
#[verifier::external_body]
fn pe_rva_to_file_offset(image: &PeImage, rva: u32) -> (r: Option<usize>)
    ensures
        r == pe_file_offset_of(image.image(), rva),
{
    image.pe.rva_to_file_offset(rva).ok()
}

/// The `n` file bytes mapped at virtual address `va`, if the address is
/// mapped and the file holds them.
pub open spec fn bytes_at(image: Seq<u8>, va: u64, n: nat) -> Option<Seq<u8>> {
    match pe_rva_of(image, va) {
        Some(rva) => match pe_file_offset_of(image, rva) {
            Some(off) => if off + n <= image.len() {
                Some(image.subrange(off as int, off + n))
            } else {
                None
            },
            None => None,
        },
        None => None,
    }
}

/// The `size` bytes mapped at virtual address `va` (see `bytes_at`), or
/// `OutOfImage`.
pub fn read_bytes_at_va<'a>(image: &PeImage<'a>, va: u64, size: usize) -> (r: Result<
    &'a [u8],
    VmError,
>)
    ensures
        r is Ok <==> bytes_at(image.image(), va, size as nat) is Some,
        r matches Ok(b) ==> bytes_at(image.image(), va, size as nat) == Some(b@),
        r matches Err(e) ==> e == VmError::OutOfImage,
{
    let pe_bytes = image.bytes();
    let rva = match pe_va_to_rva(image, va) {
        Some(rva) => rva,
        None => return Err(VmError::OutOfImage),
    };
    let file_offset = match pe_rva_to_file_offset(image, rva) {
        Some(off) => off,
        None => return Err(VmError::OutOfImage),
    };
    if file_offset > pe_bytes.len() || size > pe_bytes.len() - file_offset {
        return Err(VmError::OutOfImage);
    }
    let bytes = &pe_bytes[file_offset..file_offset + size];
    assert(bytes@ == pe_bytes@.subrange(file_offset as int, file_offset + size));
    Ok(bytes)
}

/// How many bytes the decoder is handed: the longest x86 instruction, plus one.
pub const DECODE_WINDOW: usize = 16;

/// Decodes the instruction at virtual address `instruction_address`;
/// `Unreadable` when the bytes there are no valid instruction.
pub fn disassemble_instruction_at_va(image: &PeImage, instruction_address: u64) -> (r: Result<Insn, VmError>)
    ensures
        r matches Ok(i) ==> i.code != code::INVALID,
        r matches Err(e) ==> e == VmError::OutOfImage || e == VmError::Unreadable,
{
    let bytes = read_bytes_at_va(image, instruction_address, DECODE_WINDOW)?;
    let instruction = Insn::decode(instruction_address, bytes);
    if instruction.code == code::INVALID {
        return Err(VmError::Unreadable);
    }
    Ok(instruction)
}

/// The values at a VM call site decoded as `push_instruction` and
/// `call_instruction` (see `entry_site_values`).
pub open spec fn entry_site_values_spec(push_instruction: Insn, call_instruction: Insn) -> Result<
    (u64, u64),
    VmError,
> {
    if push_instruction.code == code::PUSHQ_IMM32 && call_instruction.code == code::CALL_REL32_64 {
        Ok((push_instruction.immediate32to64 as u64, call_instruction.near_branch))
    } else {
        Err(VmError::BadEntrySite)
    }
}

/// The values at a VM call site, `push imm32; call rel32`: the pushed
/// immediate (sign-extended to 64 bits, then read as unsigned) and the call
/// target, the VM entry.
pub fn entry_site_values(push_instruction: &Insn, call_instruction: &Insn) -> (r: Result<
    (u64, u64),
    VmError,
>)
    ensures
        r == entry_site_values_spec(*push_instruction, *call_instruction),
{
    if push_instruction.code != code::PUSHQ_IMM32 || call_instruction.code != code::CALL_REL32_64 {
        return Err(VmError::BadEntrySite);
    }
    Ok((push_instruction.immediate32to64 as u64, call_instruction.near_branch))
}

/// Decodes the call site at `push_call_addr` and returns the pushed value and
/// the VM entry address (see `entry_site_values`).
pub fn handle_vm_call(image: &PeImage, push_call_addr: u64) -> (r: Result<
    (u64, u64),
    VmError,
>)
    ensures
        r matches Err(e) ==> e == VmError::OutOfImage || e == VmError::Unreadable || e
            == VmError::BadEntrySite,
        r matches Ok((pushed, target)) ==> exists|push: Insn, call: Insn|
            #[trigger] entry_site_values_spec(push, call) == Ok::<(u64, u64), VmError>(
                (pushed, target),
            ),
{
    let push_instruction = disassemble_instruction_at_va(image, push_call_addr)?;
    let call_address = match push_call_addr.checked_add(push_instruction.len as u64) {
        Some(a) => a,
        None => return Err(VmError::OutOfImage),
    };
    let call_instruction = disassemble_instruction_at_va(image, call_address)?;
    entry_site_values(&push_instruction, &call_instruction)
}

/// The value of little-endian bytes.
pub open spec fn le_value(b: Seq<u8>) -> nat
    decreases b.len(),
{
    if b.len() == 0 {
        0
    } else {
        (b[0] + 256 * le_value(b.drop_first())) as nat
    }
}

/// The little-endian 16-bit value of two bytes.
pub fn le_u16(b: &[u8]) -> (r: u16)
    requires
        b@.len() == 2,
    ensures
        r == le_value(b@),
{
    proof {
        reveal_with_fuel(le_value, 3);
    }
    b[0] as u16 + 256 * (b[1] as u16)
}

/// The little-endian 32-bit value of four bytes.
pub fn le_u32(b: &[u8]) -> (r: u32)
    requires
        b@.len() == 4,
    ensures
        r == le_value(b@),
{
    proof {
        reveal_with_fuel(le_value, 5);
    }
    b[0] as u32 + 256 * (b[1] as u32 + 256 * (b[2] as u32 + 256 * (b[3] as u32)))
}

/// The little-endian 64-bit value of eight bytes.
pub fn le_u64(b: &[u8]) -> (r: u64)
    requires
        b@.len() == 8,
    ensures
        r == le_value(b@),
{
    proof {
        reveal_with_fuel(le_value, 9);
    }
    b[0] as u64 + 256 * (b[1] as u64 + 256 * (b[2] as u64 + 256 * (b[3] as u64 + 256 * (b[4] as u64
        + 256 * (b[5] as u64 + 256 * (b[6] as u64 + 256 * (b[7] as u64)))))))
}

} // verus!
