//! The reversible arithmetic steps that handlers compose into their cipher,
//! and their bit-exact emulation.
use vstd::prelude::*;
use crate::code;
use crate::error::VmError;
use crate::instruction::{check_full_reg_written, writes_full, Insn};

verus! {

/// One step of a handler's cipher: an operation on a value of 8, 16, 32 or 64
/// bits. Constants carry the operation's width; rotations carry their count.
#[derive(Clone, Copy, Debug, PartialEq, Eq, Structural)]
pub enum Transform {
    ByteSwap64,
    ByteSwap32,
    ByteSwap16,
    SubtractConstant64(u64),
    SubtractConstant32(u32),
    SubtractConstant16(u16),
    SubtractConstant8(u8),
    AddConstant64(u64),
    AddConstant32(u32),
    AddConstant16(u16),
    AddConstant8(u8),
    Negate64,
    Negate32,
    Negate16,
    Negate8,
    Not64,
    Not32,
    Not16,
    Not8,
    RotateLeft64(u32),
    RotateLeft32(u32),
    RotateLeft16(u32),
    RotateLeft8(u32),
    RotateRight64(u32),
    RotateRight32(u32),
    RotateRight16(u32),
    RotateRight8(u32),
    Increment64,
    Increment32,
    Increment16,
    Increment8,
    Decrement64,
    Decrement32,
    Decrement16,
    Decrement8,
    XorConstant64(u64),
    XorConstant32(u32),
    XorConstant16(u16),
    XorConstant8(u8),
}

impl Transform {
    /// The width in bits of the values the transform applies to.
    pub open spec fn size(self) -> usize {
        match self {
            Transform::ByteSwap64 => 64,
            Transform::ByteSwap32 => 32,
            Transform::ByteSwap16 => 16,
            Transform::SubtractConstant64(_) => 64,
            Transform::SubtractConstant32(_) => 32,
            Transform::SubtractConstant16(_) => 16,
            Transform::SubtractConstant8(_) => 8,
            Transform::AddConstant64(_) => 64,
            Transform::AddConstant32(_) => 32,
            Transform::AddConstant16(_) => 16,
            Transform::AddConstant8(_) => 8,
            Transform::Negate64 => 64,
            Transform::Negate32 => 32,
            Transform::Negate16 => 16,
            Transform::Negate8 => 8,
            Transform::Not64 => 64,
            Transform::Not32 => 32,
            Transform::Not16 => 16,
            Transform::Not8 => 8,
            Transform::RotateLeft64(_) => 64,
            Transform::RotateLeft32(_) => 32,
            Transform::RotateLeft16(_) => 16,
            Transform::RotateLeft8(_) => 8,
            Transform::RotateRight64(_) => 64,
            Transform::RotateRight32(_) => 32,
            Transform::RotateRight16(_) => 16,
            Transform::RotateRight8(_) => 8,
            Transform::Increment64 => 64,
            Transform::Increment32 => 32,
            Transform::Increment16 => 16,
            Transform::Increment8 => 8,
            Transform::Decrement64 => 64,
            Transform::Decrement32 => 32,
            Transform::Decrement16 => 16,
            Transform::Decrement8 => 8,
            Transform::XorConstant64(_) => 64,
            Transform::XorConstant32(_) => 32,
            Transform::XorConstant16(_) => 16,
            Transform::XorConstant8(_) => 8,
        }
    }

    /// The width in bits of the values the transform applies to.
    pub fn get_size(&self) -> (r: usize)
        ensures
            r == self.size(),
            r == 8 || r == 16 || r == 32 || r == 64,
    {
        match self {
            Transform::ByteSwap64 => 64,
            Transform::ByteSwap32 => 32,
            Transform::ByteSwap16 => 16,
            Transform::SubtractConstant64(_) => 64,
            Transform::SubtractConstant32(_) => 32,
            Transform::SubtractConstant16(_) => 16,
            Transform::SubtractConstant8(_) => 8,
            Transform::AddConstant64(_) => 64,
            Transform::AddConstant32(_) => 32,
            Transform::AddConstant16(_) => 16,
            Transform::AddConstant8(_) => 8,
            Transform::Negate64 => 64,
            Transform::Negate32 => 32,
            Transform::Negate16 => 16,
            Transform::Negate8 => 8,
            Transform::Not64 => 64,
            Transform::Not32 => 32,
            Transform::Not16 => 16,
            Transform::Not8 => 8,
            Transform::RotateLeft64(_) => 64,
            Transform::RotateLeft32(_) => 32,
            Transform::RotateLeft16(_) => 16,
            Transform::RotateLeft8(_) => 8,
            Transform::RotateRight64(_) => 64,
            Transform::RotateRight32(_) => 32,
            Transform::RotateRight16(_) => 16,
            Transform::RotateRight8(_) => 8,
            Transform::Increment64 => 64,
            Transform::Increment32 => 32,
            Transform::Increment16 => 16,
            Transform::Increment8 => 8,
            Transform::Decrement64 => 64,
            Transform::Decrement32 => 32,
            Transform::Decrement16 => 16,
            Transform::Decrement8 => 8,
            Transform::XorConstant64(_) => 64,
            Transform::XorConstant32(_) => 32,
            Transform::XorConstant16(_) => 16,
            Transform::XorConstant8(_) => 8,
        }
    }
}
/// `x` rotated left by `n` modulo 8 bits.
pub open spec fn rotate_left8(x: u8, n: u32) -> u8 {
    let s = (n % 8) as u8;
    if s == 0 {
        x
    } else {
        (x << s) | (x >> ((8 - s) as u8))
    }
}

/// `x` rotated right by `n` modulo 8 bits.
pub open spec fn rotate_right8(x: u8, n: u32) -> u8 {
    let s = (n % 8) as u8;
    if s == 0 {
        x
    } else {
        (x >> s) | (x << ((8 - s) as u8))
    }
}

fn rotl8(x: u8, n: u32) -> (r: u8)
    ensures
        r == rotate_left8(x, n),
{
    let s = (n % 8) as u8;
    if s == 0 {
        x
    } else {
        (x << s) | (x >> (8 - s))
    }
}

fn rotr8(x: u8, n: u32) -> (r: u8)
    ensures
        r == rotate_right8(x, n),
{
    let s = (n % 8) as u8;
    if s == 0 {
        x
    } else {
        (x >> s) | (x << (8 - s))
    }
}

/// `x` rotated left by `n` modulo 16 bits.
pub open spec fn rotate_left16(x: u16, n: u32) -> u16 {
    let s = (n % 16) as u16;
    if s == 0 {
        x
    } else {
        (x << s) | (x >> ((16 - s) as u16))
    }
}

/// `x` rotated right by `n` modulo 16 bits.
pub open spec fn rotate_right16(x: u16, n: u32) -> u16 {
    let s = (n % 16) as u16;
    if s == 0 {
        x
    } else {
        (x >> s) | (x << ((16 - s) as u16))
    }
}

fn rotl16(x: u16, n: u32) -> (r: u16)
    ensures
        r == rotate_left16(x, n),
{
    let s = (n % 16) as u16;
    if s == 0 {
        x
    } else {
        (x << s) | (x >> (16 - s))
    }
}

fn rotr16(x: u16, n: u32) -> (r: u16)
    ensures
        r == rotate_right16(x, n),
{
    let s = (n % 16) as u16;
    if s == 0 {
        x
    } else {
        (x >> s) | (x << (16 - s))
    }
}

/// `x` rotated left by `n` modulo 32 bits.
pub open spec fn rotate_left32(x: u32, n: u32) -> u32 {
    let s = (n % 32) as u32;
    if s == 0 {
        x
    } else {
        (x << s) | (x >> ((32 - s) as u32))
    }
}

/// `x` rotated right by `n` modulo 32 bits.
pub open spec fn rotate_right32(x: u32, n: u32) -> u32 {
    let s = (n % 32) as u32;
    if s == 0 {
        x
    } else {
        (x >> s) | (x << ((32 - s) as u32))
    }
}

fn rotl32(x: u32, n: u32) -> (r: u32)
    ensures
        r == rotate_left32(x, n),
{
    let s = (n % 32) as u32;
    if s == 0 {
        x
    } else {
        (x << s) | (x >> (32 - s))
    }
}

fn rotr32(x: u32, n: u32) -> (r: u32)
    ensures
        r == rotate_right32(x, n),
{
    let s = (n % 32) as u32;
    if s == 0 {
        x
    } else {
        (x >> s) | (x << (32 - s))
    }
}

/// `x` rotated left by `n` modulo 64 bits.
pub open spec fn rotate_left64(x: u64, n: u32) -> u64 {
    let s = (n % 64) as u64;
    if s == 0 {
        x
    } else {
        (x << s) | (x >> ((64 - s) as u64))
    }
}

/// `x` rotated right by `n` modulo 64 bits.
pub open spec fn rotate_right64(x: u64, n: u32) -> u64 {
    let s = (n % 64) as u64;
    if s == 0 {
        x
    } else {
        (x >> s) | (x << ((64 - s) as u64))
    }
}

fn rotl64(x: u64, n: u32) -> (r: u64)
    ensures
        r == rotate_left64(x, n),
{
    let s = (n % 64) as u64;
    if s == 0 {
        x
    } else {
        (x << s) | (x >> (64 - s))
    }
}

fn rotr64(x: u64, n: u32) -> (r: u64)
    ensures
        r == rotate_right64(x, n),
{
    let s = (n % 64) as u64;
    if s == 0 {
        x
    } else {
        (x >> s) | (x << (64 - s))
    }
}

/// `x` with its two bytes exchanged.
pub open spec fn byte_swap16(x: u16) -> u16 {
    (x << 8u16) | (x >> 8u16)
}

/// `x` with its four bytes in reverse order.
pub open spec fn byte_swap32(x: u32) -> u32 {
    ((x & 0xffu32) << 24u32) | ((x & 0xff00u32) << 8u32) | ((x >> 8u32) & 0xff00u32) | (x >> 24u32)
}

/// `x` with its eight bytes in reverse order.
pub open spec fn byte_swap64(x: u64) -> u64 {
    ((x & 0xffu64) << 56u64) | ((x & 0xff00u64) << 40u64) | ((x & 0xff0000u64) << 24u64) | ((x
        & 0xff000000u64) << 8u64) | ((x >> 8u64) & 0xff000000u64) | ((x >> 24u64) & 0xff0000u64)
        | ((x >> 40u64) & 0xff00u64) | (x >> 56u64)
}

fn bswap16(x: u16) -> (r: u16)
    ensures
        r == byte_swap16(x),
{
    (x << 8u16) | (x >> 8u16)
}

fn bswap32(x: u32) -> (r: u32)
    ensures
        r == byte_swap32(x),
{
    ((x & 0xffu32) << 24u32) | ((x & 0xff00u32) << 8u32) | ((x >> 8u32) & 0xff00u32) | (x >> 24u32)
}

fn bswap64(x: u64) -> (r: u64)
    ensures
        r == byte_swap64(x),
{
    ((x & 0xffu64) << 56u64) | ((x & 0xff00u64) << 40u64) | ((x & 0xff0000u64) << 24u64) | ((x
        & 0xff000000u64) << 8u64) | ((x >> 8u64) & 0xff000000u64) | ((x >> 24u64) & 0xff0000u64)
        | ((x >> 40u64) & 0xff00u64) | (x >> 56u64)
}

/// The transform applied to a 8-bit value; a transform of another width
/// leaves the value as it is (it is never applied at this width).
pub open spec fn emulate8(t: Transform, x: u8) -> u8 {
    match t {
        Transform::SubtractConstant8(a) => x.wrapping_sub(a),
        Transform::AddConstant8(a) => x.wrapping_add(a),
        Transform::XorConstant8(a) => x ^ a,
        Transform::Negate8 => (!x).wrapping_add(1),
        Transform::Not8 => !x,
        Transform::RotateLeft8(n) => rotate_left8(x, n),
        Transform::RotateRight8(n) => rotate_right8(x, n),
        Transform::Decrement8 => x.wrapping_sub(1),
        Transform::Increment8 => x.wrapping_add(1),
        _ => x,
    }
}

fn emulate_transform8(transform: Transform, input: u8) -> (r: u8)
    requires
        transform.size() == 8,
    ensures
        r == emulate8(transform, input),
{
    match transform {
        Transform::SubtractConstant8(amount) => input.wrapping_sub(amount),
        Transform::AddConstant8(amount) => input.wrapping_add(amount),
        Transform::XorConstant8(amount) => input ^ amount,
        Transform::Negate8 => (!input).wrapping_add(1),
        Transform::Not8 => !input,
        Transform::RotateLeft8(amount) => rotl8(input, amount),
        Transform::RotateRight8(amount) => rotr8(input, amount),
        Transform::Decrement8 => input.wrapping_sub(1),
        Transform::Increment8 => input.wrapping_add(1),
        _ => input,
    }
}

/// The transform applied to a 16-bit value; a transform of another width
/// leaves the value as it is (it is never applied at this width).
pub open spec fn emulate16(t: Transform, x: u16) -> u16 {
    match t {
        Transform::ByteSwap16 => byte_swap16(x),
        Transform::SubtractConstant16(a) => x.wrapping_sub(a),
        Transform::AddConstant16(a) => x.wrapping_add(a),
        Transform::XorConstant16(a) => x ^ a,
        Transform::Negate16 => (!x).wrapping_add(1),
        Transform::Not16 => !x,
        Transform::RotateLeft16(n) => rotate_left16(x, n),
        Transform::RotateRight16(n) => rotate_right16(x, n),
        Transform::Decrement16 => x.wrapping_sub(1),
        Transform::Increment16 => x.wrapping_add(1),
        _ => x,
    }
}

fn emulate_transform16(transform: Transform, input: u16) -> (r: u16)
    requires
        transform.size() == 16,
    ensures
        r == emulate16(transform, input),
{
    match transform {
        Transform::ByteSwap16 => bswap16(input),
        Transform::SubtractConstant16(amount) => input.wrapping_sub(amount),
        Transform::AddConstant16(amount) => input.wrapping_add(amount),
        Transform::XorConstant16(amount) => input ^ amount,
        Transform::Negate16 => (!input).wrapping_add(1),
        Transform::Not16 => !input,
        Transform::RotateLeft16(amount) => rotl16(input, amount),
        Transform::RotateRight16(amount) => rotr16(input, amount),
        Transform::Decrement16 => input.wrapping_sub(1),
        Transform::Increment16 => input.wrapping_add(1),
        _ => input,
    }
}

/// The transform applied to a 32-bit value; a transform of another width
/// leaves the value as it is (it is never applied at this width).
pub open spec fn emulate32(t: Transform, x: u32) -> u32 {
    match t {
        Transform::ByteSwap32 => byte_swap32(x),
        Transform::SubtractConstant32(a) => x.wrapping_sub(a),
        Transform::AddConstant32(a) => x.wrapping_add(a),
        Transform::XorConstant32(a) => x ^ a,
        Transform::Negate32 => (!x).wrapping_add(1),
        Transform::Not32 => !x,
        Transform::RotateLeft32(n) => rotate_left32(x, n),
        Transform::RotateRight32(n) => rotate_right32(x, n),
        Transform::Decrement32 => x.wrapping_sub(1),
        Transform::Increment32 => x.wrapping_add(1),
        _ => x,
    }
}

fn emulate_transform32(transform: Transform, input: u32) -> (r: u32)
    requires
        transform.size() == 32,
    ensures
        r == emulate32(transform, input),
{
    match transform {
        Transform::ByteSwap32 => bswap32(input),
        Transform::SubtractConstant32(amount) => input.wrapping_sub(amount),
        Transform::AddConstant32(amount) => input.wrapping_add(amount),
        Transform::XorConstant32(amount) => input ^ amount,
        Transform::Negate32 => (!input).wrapping_add(1),
        Transform::Not32 => !input,
        Transform::RotateLeft32(amount) => rotl32(input, amount),
        Transform::RotateRight32(amount) => rotr32(input, amount),
        Transform::Decrement32 => input.wrapping_sub(1),
        Transform::Increment32 => input.wrapping_add(1),
        _ => input,
    }
}

/// The transform applied to a 64-bit value; a transform of another width
/// leaves the value as it is (it is never applied at this width).
pub open spec fn emulate64(t: Transform, x: u64) -> u64 {
    match t {
        Transform::ByteSwap64 => byte_swap64(x),
        Transform::SubtractConstant64(a) => x.wrapping_sub(a),
        Transform::AddConstant64(a) => x.wrapping_add(a),
        Transform::XorConstant64(a) => x ^ a,
        Transform::Negate64 => (!x).wrapping_add(1),
        Transform::Not64 => !x,
        Transform::RotateLeft64(n) => rotate_left64(x, n),
        Transform::RotateRight64(n) => rotate_right64(x, n),
        Transform::Decrement64 => x.wrapping_sub(1),
        Transform::Increment64 => x.wrapping_add(1),
        _ => x,
    }
}

fn emulate_transform64(transform: Transform, input: u64) -> (r: u64)
    requires
        transform.size() == 64,
    ensures
        r == emulate64(transform, input),
{
    match transform {
        Transform::ByteSwap64 => bswap64(input),
        Transform::SubtractConstant64(amount) => input.wrapping_sub(amount),
        Transform::AddConstant64(amount) => input.wrapping_add(amount),
        Transform::XorConstant64(amount) => input ^ amount,
        Transform::Negate64 => (!input).wrapping_add(1),
        Transform::Not64 => !input,
        Transform::RotateLeft64(amount) => rotl64(input, amount),
        Transform::RotateRight64(amount) => rotr64(input, amount),
        Transform::Decrement64 => input.wrapping_sub(1),
        Transform::Increment64 => input.wrapping_add(1),
        _ => input,
    }
}

/// The transform that an instruction performs on its destination, if it is
/// one of the unary or immediate arithmetic forms the cipher is built from.
/// Immediates are taken at the width the encoding implies.
pub open spec fn transform_for(insn: Insn) -> Option<Transform> {
    if insn.code == code::BSWAP_R16 {
        Some(Transform::ByteSwap16)
    } else if insn.code == code::BSWAP_R32 {
        Some(Transform::ByteSwap32)
    } else if insn.code == code::BSWAP_R64 {
        Some(Transform::ByteSwap64)
    } else if insn.code == code::SUB_AL_IMM8 {
        Some(Transform::SubtractConstant8(insn.immediate8))
    } else if insn.code == code::SUB_RM8_IMM8 {
        Some(Transform::SubtractConstant8(insn.immediate8))
    } else if insn.code == code::SUB_AX_IMM16 {
        Some(Transform::SubtractConstant16(insn.immediate16))
    } else if insn.code == code::SUB_RM16_IMM16 {
        Some(Transform::SubtractConstant16(insn.immediate16))
    } else if insn.code == code::SUB_EAX_IMM32 {
        Some(Transform::SubtractConstant32(insn.immediate32))
    } else if insn.code == code::SUB_RM32_IMM32 {
        Some(Transform::SubtractConstant32(insn.immediate32))
    } else if insn.code == code::SUB_RAX_IMM32 {
        Some(Transform::SubtractConstant64(insn.immediate64))
    } else if insn.code == code::SUB_RM64_IMM32 {
        Some(Transform::SubtractConstant64(insn.immediate64))
    } else if insn.code == code::ADD_AL_IMM8 {
        Some(Transform::AddConstant8(insn.immediate8))
    } else if insn.code == code::ADD_RM8_IMM8 {
        Some(Transform::AddConstant8(insn.immediate8))
    } else if insn.code == code::ADD_AX_IMM16 {
        Some(Transform::AddConstant16(insn.immediate16))
    } else if insn.code == code::ADD_RM16_IMM16 {
        Some(Transform::AddConstant16(insn.immediate16))
    } else if insn.code == code::ADD_EAX_IMM32 {
        Some(Transform::AddConstant32(insn.immediate32))
    } else if insn.code == code::ADD_RM32_IMM32 {
        Some(Transform::AddConstant32(insn.immediate32))
    } else if insn.code == code::ADD_RAX_IMM32 {
        Some(Transform::AddConstant64(insn.immediate64))
    } else if insn.code == code::ADD_RM64_IMM32 {
        Some(Transform::AddConstant64(insn.immediate64))
    } else if insn.code == code::NEG_RM8 {
        Some(Transform::Negate8)
    } else if insn.code == code::NEG_RM16 {
        Some(Transform::Negate16)
    } else if insn.code == code::NEG_RM32 {
        Some(Transform::Negate32)
    } else if insn.code == code::NEG_RM64 {
        Some(Transform::Negate64)
    } else if insn.code == code::NOT_RM8 {
        Some(Transform::Not8)
    } else if insn.code == code::NOT_RM16 {
        Some(Transform::Not16)
    } else if insn.code == code::NOT_RM32 {
        Some(Transform::Not32)
    } else if insn.code == code::NOT_RM64 {
        Some(Transform::Not64)
    } else if insn.code == code::ROL_RM8_IMM8 {
        Some(Transform::RotateLeft8(insn.immediate8 as u32))
    } else if insn.code == code::ROL_RM16_IMM8 {
        Some(Transform::RotateLeft16(insn.immediate8 as u32))
    } else if insn.code == code::ROL_RM32_IMM8 {
        Some(Transform::RotateLeft32(insn.immediate8 as u32))
    } else if insn.code == code::ROL_RM64_IMM8 {
        Some(Transform::RotateLeft64(insn.immediate8 as u32))
    } else if insn.code == code::ROR_RM8_IMM8 {
        Some(Transform::RotateRight8(insn.immediate8 as u32))
    } else if insn.code == code::ROR_RM16_IMM8 {
        Some(Transform::RotateRight16(insn.immediate8 as u32))
    } else if insn.code == code::ROR_RM32_IMM8 {
        Some(Transform::RotateRight32(insn.immediate8 as u32))
    } else if insn.code == code::ROR_RM64_IMM8 {
        Some(Transform::RotateRight64(insn.immediate8 as u32))
    } else if insn.code == code::ROL_RM8_1 {
        Some(Transform::RotateLeft8(1u32))
    } else if insn.code == code::ROL_RM16_1 {
        Some(Transform::RotateLeft16(1u32))
    } else if insn.code == code::ROL_RM32_1 {
        Some(Transform::RotateLeft32(1u32))
    } else if insn.code == code::ROL_RM64_1 {
        Some(Transform::RotateLeft64(1u32))
    } else if insn.code == code::ROR_RM8_1 {
        Some(Transform::RotateRight8(1u32))
    } else if insn.code == code::ROR_RM16_1 {
        Some(Transform::RotateRight16(1u32))
    } else if insn.code == code::ROR_RM32_1 {
        Some(Transform::RotateRight32(1u32))
    } else if insn.code == code::ROR_RM64_1 {
        Some(Transform::RotateRight64(1u32))
    } else if insn.code == code::INC_RM8 {
        Some(Transform::Increment8)
    } else if insn.code == code::INC_RM16 {
        Some(Transform::Increment16)
    } else if insn.code == code::INC_RM32 {
        Some(Transform::Increment32)
    } else if insn.code == code::INC_RM64 {
        Some(Transform::Increment64)
    } else if insn.code == code::DEC_RM8 {
        Some(Transform::Decrement8)
    } else if insn.code == code::DEC_RM16 {
        Some(Transform::Decrement16)
    } else if insn.code == code::DEC_RM32 {
        Some(Transform::Decrement32)
    } else if insn.code == code::DEC_RM64 {
        Some(Transform::Decrement64)
    } else if insn.code == code::XOR_AL_IMM8 {
        Some(Transform::XorConstant8(insn.immediate8))
    } else if insn.code == code::XOR_RM8_IMM8 {
        Some(Transform::XorConstant8(insn.immediate8))
    } else if insn.code == code::XOR_AX_IMM16 {
        Some(Transform::XorConstant16(insn.immediate16))
    } else if insn.code == code::XOR_RM16_IMM16 {
        Some(Transform::XorConstant16(insn.immediate16))
    } else if insn.code == code::XOR_EAX_IMM32 {
        Some(Transform::XorConstant32(insn.immediate32))
    } else if insn.code == code::XOR_RM32_IMM32 {
        Some(Transform::XorConstant32(insn.immediate32))
    } else if insn.code == code::XOR_RAX_IMM32 {
        Some(Transform::XorConstant64(insn.immediate64))
    } else if insn.code == code::XOR_RM64_IMM32 {
        Some(Transform::XorConstant64(insn.immediate64))
    } else {
        None
    }
}

/// The transform that an instruction performs on its destination, if any.
pub fn get_transform_for_instruction(insn: &Insn) -> (r: Option<Transform>)
    ensures
        r == transform_for(*insn),
{
    let c = insn.code;
    if c == code::BSWAP_R16 {
        Some(Transform::ByteSwap16)
    } else if c == code::BSWAP_R32 {
        Some(Transform::ByteSwap32)
    } else if c == code::BSWAP_R64 {
        Some(Transform::ByteSwap64)
    } else if c == code::SUB_AL_IMM8 {
        Some(Transform::SubtractConstant8(insn.immediate8))
    } else if c == code::SUB_RM8_IMM8 {
        Some(Transform::SubtractConstant8(insn.immediate8))
    } else if c == code::SUB_AX_IMM16 {
        Some(Transform::SubtractConstant16(insn.immediate16))
    } else if c == code::SUB_RM16_IMM16 {
        Some(Transform::SubtractConstant16(insn.immediate16))
    } else if c == code::SUB_EAX_IMM32 {
        Some(Transform::SubtractConstant32(insn.immediate32))
    } else if c == code::SUB_RM32_IMM32 {
        Some(Transform::SubtractConstant32(insn.immediate32))
    } else if c == code::SUB_RAX_IMM32 {
        Some(Transform::SubtractConstant64(insn.immediate64))
    } else if c == code::SUB_RM64_IMM32 {
        Some(Transform::SubtractConstant64(insn.immediate64))
    } else if c == code::ADD_AL_IMM8 {
        Some(Transform::AddConstant8(insn.immediate8))
    } else if c == code::ADD_RM8_IMM8 {
        Some(Transform::AddConstant8(insn.immediate8))
    } else if c == code::ADD_AX_IMM16 {
        Some(Transform::AddConstant16(insn.immediate16))
    } else if c == code::ADD_RM16_IMM16 {
        Some(Transform::AddConstant16(insn.immediate16))
    } else if c == code::ADD_EAX_IMM32 {
        Some(Transform::AddConstant32(insn.immediate32))
    } else if c == code::ADD_RM32_IMM32 {
        Some(Transform::AddConstant32(insn.immediate32))
    } else if c == code::ADD_RAX_IMM32 {
        Some(Transform::AddConstant64(insn.immediate64))
    } else if c == code::ADD_RM64_IMM32 {
        Some(Transform::AddConstant64(insn.immediate64))
    } else if c == code::NEG_RM8 {
        Some(Transform::Negate8)
    } else if c == code::NEG_RM16 {
        Some(Transform::Negate16)
    } else if c == code::NEG_RM32 {
        Some(Transform::Negate32)
    } else if c == code::NEG_RM64 {
        Some(Transform::Negate64)
    } else if c == code::NOT_RM8 {
        Some(Transform::Not8)
    } else if c == code::NOT_RM16 {
        Some(Transform::Not16)
    } else if c == code::NOT_RM32 {
        Some(Transform::Not32)
    } else if c == code::NOT_RM64 {
        Some(Transform::Not64)
    } else if c == code::ROL_RM8_IMM8 {
        Some(Transform::RotateLeft8(insn.immediate8 as u32))
    } else if c == code::ROL_RM16_IMM8 {
        Some(Transform::RotateLeft16(insn.immediate8 as u32))
    } else if c == code::ROL_RM32_IMM8 {
        Some(Transform::RotateLeft32(insn.immediate8 as u32))
    } else if c == code::ROL_RM64_IMM8 {
        Some(Transform::RotateLeft64(insn.immediate8 as u32))
    } else if c == code::ROR_RM8_IMM8 {
        Some(Transform::RotateRight8(insn.immediate8 as u32))
    } else if c == code::ROR_RM16_IMM8 {
        Some(Transform::RotateRight16(insn.immediate8 as u32))
    } else if c == code::ROR_RM32_IMM8 {
        Some(Transform::RotateRight32(insn.immediate8 as u32))
    } else if c == code::ROR_RM64_IMM8 {
        Some(Transform::RotateRight64(insn.immediate8 as u32))
    } else if c == code::ROL_RM8_1 {
        Some(Transform::RotateLeft8(1u32))
    } else if c == code::ROL_RM16_1 {
        Some(Transform::RotateLeft16(1u32))
    } else if c == code::ROL_RM32_1 {
        Some(Transform::RotateLeft32(1u32))
    } else if c == code::ROL_RM64_1 {
        Some(Transform::RotateLeft64(1u32))
    } else if c == code::ROR_RM8_1 {
        Some(Transform::RotateRight8(1u32))
    } else if c == code::ROR_RM16_1 {
        Some(Transform::RotateRight16(1u32))
    } else if c == code::ROR_RM32_1 {
        Some(Transform::RotateRight32(1u32))
    } else if c == code::ROR_RM64_1 {
        Some(Transform::RotateRight64(1u32))
    } else if c == code::INC_RM8 {
        Some(Transform::Increment8)
    } else if c == code::INC_RM16 {
        Some(Transform::Increment16)
    } else if c == code::INC_RM32 {
        Some(Transform::Increment32)
    } else if c == code::INC_RM64 {
        Some(Transform::Increment64)
    } else if c == code::DEC_RM8 {
        Some(Transform::Decrement8)
    } else if c == code::DEC_RM16 {
        Some(Transform::Decrement16)
    } else if c == code::DEC_RM32 {
        Some(Transform::Decrement32)
    } else if c == code::DEC_RM64 {
        Some(Transform::Decrement64)
    } else if c == code::XOR_AL_IMM8 {
        Some(Transform::XorConstant8(insn.immediate8))
    } else if c == code::XOR_RM8_IMM8 {
        Some(Transform::XorConstant8(insn.immediate8))
    } else if c == code::XOR_AX_IMM16 {
        Some(Transform::XorConstant16(insn.immediate16))
    } else if c == code::XOR_RM16_IMM16 {
        Some(Transform::XorConstant16(insn.immediate16))
    } else if c == code::XOR_EAX_IMM32 {
        Some(Transform::XorConstant32(insn.immediate32))
    } else if c == code::XOR_RM32_IMM32 {
        Some(Transform::XorConstant32(insn.immediate32))
    } else if c == code::XOR_RAX_IMM32 {
        Some(Transform::XorConstant64(insn.immediate64))
    } else if c == code::XOR_RM64_IMM32 {
        Some(Transform::XorConstant64(insn.immediate64))
    } else {
        None
    }
}

/// The transform applied to the low `t.size()` bits of `x`, zero-extended back
/// to 64 bits.
pub open spec fn emulate(t: Transform, x: u64) -> u64 {
    if t.size() == 8 {
        emulate8(t, x as u8) as u64
    } else if t.size() == 16 {
        emulate16(t, x as u16) as u64
    } else if t.size() == 32 {
        emulate32(t, x as u32) as u64
    } else {
        emulate64(t, x)
    }
}

/// Applies a transform to the low `transform.get_size()` bits of `input`.
pub fn emulate_value(transform: Transform, input: u64) -> (r: u64)
    ensures
        r == emulate(transform, input),
{
    let size = transform.get_size();
    if size == 8 {
        emulate_transform8(transform, input as u8) as u64
    } else if size == 16 {
        emulate_transform16(transform, input as u16) as u64
    } else if size == 32 {
        emulate_transform32(transform, input as u32) as u64
    } else {
        emulate_transform64(transform, input)
    }
}

/// The transforms that `insns` apply to `reg`, in order: those instructions
/// that write the full register of `reg` and perform a transform.
pub open spec fn transforms_in(insns: Seq<Insn>, reg: u8) -> Seq<Transform>
    decreases insns.len(),
{
    if insns.len() == 0 {
        Seq::empty()
    } else {
        let earlier = transforms_in(insns.drop_last(), reg);
        let last = insns.last();
        if writes_full(last, reg) && transform_for(last) is Some {
            earlier.push(transform_for(last)->Some_0)
        } else {
            earlier
        }
    }
}

/// `x` after each transform of `ts`, first to last.
pub open spec fn apply_all(ts: Seq<Transform>, x: u64) -> u64
    decreases ts.len(),
{
    if ts.len() == 0 {
        x
    } else {
        emulate(ts.last(), apply_all(ts.drop_last(), x))
    }
}

/// Every transform of `ts` has width `width`.
pub open spec fn all_of_width(ts: Seq<Transform>, width: usize) -> bool {
    forall|k: int| 0 <= k < ts.len() ==> (#[trigger] ts[k]).size() == width
}

/// The low `width` bits of `x`.
pub open spec fn truncate(x: u64, width: usize) -> u64 {
    if width == 8 {
        x as u8 as u64
    } else if width == 16 {
        x as u16 as u64
    } else if width == 32 {
        x as u32 as u64
    } else {
        x
    }
}

/// A width the emulator handles.
pub open spec fn is_width(width: usize) -> bool {
    width == 8 || width == 16 || width == 32 || width == 64
}

/// Decrypts (or, equally, encrypts) one `width`-bit value with a handler's
/// cipher: the value is XORed with the low bits of the rolling key, the
/// transforms that `instructions` apply to `encrypted_reg` are applied in
/// order, and the key is XORed with the result. A transform of another
/// width than `width` fails the call and leaves the key as it was.
pub fn emulate_encryption(
    width: usize,
    ciphertext: u64,
    instructions: &[Insn],
    rolling_key: &mut u64,
    encrypted_reg: u8,
) -> (r: Result<u64, VmError>)
    requires
        is_width(width),
    ensures
        r is Ok <==> all_of_width(transforms_in(instructions@, encrypted_reg), width),
        r is Ok ==> r->Ok_0 == apply_all(
            transforms_in(instructions@, encrypted_reg),
            truncate(ciphertext ^ *old(rolling_key), width),
        ),
        r is Ok ==> *final(rolling_key) == *old(rolling_key) ^ r->Ok_0,
        r is Err ==> r->Err_0 == VmError::WidthMismatch && *final(rolling_key) == *old(
            rolling_key,
        ),
{
    let mixed = ciphertext ^ *rolling_key;
    let mut value: u64 = if width == 8 {
        (#[verifier::truncate] (mixed as u8)) as u64
    } else if width == 16 {
        (#[verifier::truncate] (mixed as u16)) as u64
    } else if width == 32 {
        (#[verifier::truncate] (mixed as u32)) as u64
    } else {
        mixed
    };
    let ghost start = value;
    let n = instructions.len();
    let mut k: usize = 0;
    while k < n
        invariant
            n == instructions@.len(),
            0 <= k <= n,
            is_width(width),
            all_of_width(transforms_in(instructions@.subrange(0, k as int), encrypted_reg), width),
            value == apply_all(transforms_in(instructions@.subrange(0, k as int), encrypted_reg), start),
        decreases n - k,
    {
        let insn = &instructions[k];
        proof {
            assert(instructions@.subrange(0, k + 1).drop_last() =~= instructions@.subrange(0, k as int));
            assert(instructions@.subrange(0, k + 1).last() == instructions@[k as int]);
        }
        if check_full_reg_written(insn, encrypted_reg) {
            match get_transform_for_instruction(insn) {
                Some(t) => {
                    let ghost before = transforms_in(instructions@.subrange(0, k as int), encrypted_reg);
                    proof {
                        assert(transforms_in(instructions@.subrange(0, k + 1), encrypted_reg) == before.push(t));
                        assert(before.push(t).drop_last() =~= before);
                        assert(before.push(t)[before.len() as int] == t);
                    }
                    if t.get_size() != width {
                        proof {
                            lemma_width_mismatch_persists(instructions@, k as int + 1, encrypted_reg, width);
                        }
                        return Err(VmError::WidthMismatch);
                    }
                    value = emulate_value(t, value);
                },
                None => {},
            }
        }
        k = k + 1;
    }
    proof {
        assert(instructions@.subrange(0, n as int) =~= instructions@);
    }
    *rolling_key = *rolling_key ^ value;
    Ok(value)
}

/// A transform of the wrong width among the first `k` instructions stays one
/// among all of them.
proof fn lemma_width_mismatch_persists(insns: Seq<Insn>, k: int, reg: u8, width: usize)
    requires
        0 <= k <= insns.len(),
        !all_of_width(transforms_in(insns.subrange(0, k), reg), width),
    ensures
        !all_of_width(transforms_in(insns, reg), width),
    decreases insns.len() - k,
{
    if k < insns.len() {
        assert(insns.subrange(0, k + 1).drop_last() =~= insns.subrange(0, k));
        let before = transforms_in(insns.subrange(0, k), reg);
        let after = transforms_in(insns.subrange(0, k + 1), reg);
        let j = choose|j: int| 0 <= j < before.len() && before[j].size() != width;
        assert(after[j] == before[j]);
        lemma_width_mismatch_persists(insns, k + 1, reg, width);
    } else {
        assert(insns.subrange(0, k) =~= insns);
    }
}

/// The transform that undoes `t` on values of its width.
pub open spec fn inverse(t: Transform) -> Transform {
    match t {
        Transform::ByteSwap64 => Transform::ByteSwap64,
        Transform::SubtractConstant64(a) => Transform::AddConstant64(a),
        Transform::AddConstant64(a) => Transform::SubtractConstant64(a),
        Transform::Negate64 => Transform::Negate64,
        Transform::Not64 => Transform::Not64,
        Transform::RotateLeft64(n) => Transform::RotateRight64(n),
        Transform::RotateRight64(n) => Transform::RotateLeft64(n),
        Transform::Increment64 => Transform::Decrement64,
        Transform::Decrement64 => Transform::Increment64,
        Transform::XorConstant64(a) => Transform::XorConstant64(a),
        Transform::ByteSwap32 => Transform::ByteSwap32,
        Transform::SubtractConstant32(a) => Transform::AddConstant32(a),
        Transform::AddConstant32(a) => Transform::SubtractConstant32(a),
        Transform::Negate32 => Transform::Negate32,
        Transform::Not32 => Transform::Not32,
        Transform::RotateLeft32(n) => Transform::RotateRight32(n),
        Transform::RotateRight32(n) => Transform::RotateLeft32(n),
        Transform::Increment32 => Transform::Decrement32,
        Transform::Decrement32 => Transform::Increment32,
        Transform::XorConstant32(a) => Transform::XorConstant32(a),
        Transform::ByteSwap16 => Transform::ByteSwap16,
        Transform::SubtractConstant16(a) => Transform::AddConstant16(a),
        Transform::AddConstant16(a) => Transform::SubtractConstant16(a),
        Transform::Negate16 => Transform::Negate16,
        Transform::Not16 => Transform::Not16,
        Transform::RotateLeft16(n) => Transform::RotateRight16(n),
        Transform::RotateRight16(n) => Transform::RotateLeft16(n),
        Transform::Increment16 => Transform::Decrement16,
        Transform::Decrement16 => Transform::Increment16,
        Transform::XorConstant16(a) => Transform::XorConstant16(a),
        Transform::SubtractConstant8(a) => Transform::AddConstant8(a),
        Transform::AddConstant8(a) => Transform::SubtractConstant8(a),
        Transform::Negate8 => Transform::Negate8,
        Transform::Not8 => Transform::Not8,
        Transform::RotateLeft8(n) => Transform::RotateRight8(n),
        Transform::RotateRight8(n) => Transform::RotateLeft8(n),
        Transform::Increment8 => Transform::Decrement8,
        Transform::Decrement8 => Transform::Increment8,
        Transform::XorConstant8(a) => Transform::XorConstant8(a),
    }
}

proof fn lemma_bits_invert8(x: u8, a: u8, n: u32)
    by (bit_vector)
    ensures
        !(!x) == x,
        x ^ a ^ a == x,
        (!((!x).wrapping_add(1))).wrapping_add(1) == x,
        rotate_right8(rotate_left8(x, n), n) == x,
        rotate_left8(rotate_right8(x, n), n) == x,
{
}

proof fn lemma_invert8(t: Transform, x: u8)
    requires
        t.size() == 8,
    ensures
        emulate8(inverse(t), emulate8(t, x)) == x,
{
    match t {
        Transform::RotateLeft8(n) => lemma_bits_invert8(x, 0, n),
        Transform::RotateRight8(n) => lemma_bits_invert8(x, 0, n),
        Transform::XorConstant8(a) => lemma_bits_invert8(x, a, 0),
        _ => lemma_bits_invert8(x, 0, 0),
    }
}

proof fn lemma_bits_invert16(x: u16, a: u16, n: u32)
    by (bit_vector)
    ensures
        byte_swap16(byte_swap16(x)) == x,
        !(!x) == x,
        x ^ a ^ a == x,
        (!((!x).wrapping_add(1))).wrapping_add(1) == x,
        rotate_right16(rotate_left16(x, n), n) == x,
        rotate_left16(rotate_right16(x, n), n) == x,
{
}

proof fn lemma_invert16(t: Transform, x: u16)
    requires
        t.size() == 16,
    ensures
        emulate16(inverse(t), emulate16(t, x)) == x,
{
    match t {
        Transform::RotateLeft16(n) => lemma_bits_invert16(x, 0, n),
        Transform::RotateRight16(n) => lemma_bits_invert16(x, 0, n),
        Transform::XorConstant16(a) => lemma_bits_invert16(x, a, 0),
        _ => lemma_bits_invert16(x, 0, 0),
    }
}

proof fn lemma_bits_invert32(x: u32, a: u32)
    by (bit_vector)
    ensures
        byte_swap32(byte_swap32(x)) == x,
        !(!x) == x,
        x ^ a ^ a == x,
        (!((!x).wrapping_add(1))).wrapping_add(1) == x,
{
}

proof fn lemma_rotate_invert32(x: u32, s: u32)
    by (bit_vector)
    requires
        0 < s < 32,
    ensures
        (((x << s) | (x >> ((32 - s) as u32))) >> s) | (((x << s) | (x >> ((32 - s) as u32))) << ((
            32 - s) as u32)) == x,
        (((x >> s) | (x << ((32 - s) as u32))) << s) | (((x >> s) | (x << ((32 - s) as u32))) >> ((
            32 - s) as u32)) == x,
{
}

proof fn lemma_invert32(t: Transform, x: u32)
    requires
        t.size() == 32,
    ensures
        emulate32(inverse(t), emulate32(t, x)) == x,
{
    match t {
        Transform::RotateLeft32(n) | Transform::RotateRight32(n) => {
            let s = (n % 32) as u32;
            if s != 0 {
                lemma_rotate_invert32(x, s);
            }
        },
        Transform::XorConstant32(a) => lemma_bits_invert32(x, a),
        _ => lemma_bits_invert32(x, 0),
    }
}

proof fn lemma_bits_invert64(x: u64, a: u64)
    by (bit_vector)
    ensures
        !(!x) == x,
        x ^ a ^ a == x,
        (!((!x).wrapping_add(1))).wrapping_add(1) == x,
{
}

proof fn lemma_swap_invert64(x: u64)
    by (bit_vector)
    ensures
        byte_swap64(byte_swap64(x)) == x,
{
}

proof fn lemma_rotate_invert64(x: u64, s: u64)
    by (bit_vector)
    requires
        0 < s < 64,
    ensures
        (((x << s) | (x >> ((64 - s) as u64))) >> s) | (((x << s) | (x >> ((64 - s) as u64))) << ((
            64 - s) as u64)) == x,
{
}

proof fn lemma_rotate_invert64_back(x: u64, s: u64)
    by (bit_vector)
    requires
        0 < s < 64,
    ensures
        (((x >> s) | (x << ((64 - s) as u64))) << s) | (((x >> s) | (x << ((64 - s) as u64))) >> ((
            64 - s) as u64)) == x,
{
}

proof fn lemma_invert64(t: Transform, x: u64)
    requires
        t.size() == 64,
    ensures
        emulate64(inverse(t), emulate64(t, x)) == x,
{
    match t {
        Transform::RotateLeft64(n) => {
            let s = (n % 64) as u64;
            if s != 0 {
                lemma_rotate_invert64(x, s);
            }
        },
        Transform::RotateRight64(n) => {
            let s = (n % 64) as u64;
            if s != 0 {
                lemma_rotate_invert64_back(x, s);
            }
        },
        Transform::ByteSwap64 => lemma_swap_invert64(x),
        Transform::XorConstant64(a) => lemma_bits_invert64(x, a),
        _ => lemma_bits_invert64(x, 0),
    }
}

/// Every transform is undone by its inverse, on every value of its width.
pub proof fn lemma_inverse_undoes(t: Transform, x: u64)
    requires
        x == truncate(x, t.size()),
    ensures
        inverse(t).size() == t.size(),
        emulate(inverse(t), emulate(t, x)) == x,
{
    if t.size() == 8 {
        lemma_invert8(t, x as u8);
    } else if t.size() == 16 {
        lemma_invert16(t, x as u16);
    } else if t.size() == 32 {
        lemma_invert32(t, x as u32);
    } else {
        lemma_invert64(t, x);
    }
}

/// A transform reads only the low bits of its width, and its result has no
/// bits above them.
pub proof fn lemma_emulate_ignores_high_bits(t: Transform, x: u64)
    ensures
        emulate(t, x) == emulate(t, truncate(x, t.size())),
        emulate(t, x) == truncate(emulate(t, x), t.size()),
{
}

/// Rotations count modulo the width: a rotation by the full width leaves the
/// value unchanged.
pub proof fn lemma_rotation_modulo_width(x: u64, n: u32)
    ensures
        emulate(Transform::RotateLeft64(64), x) == x,
        emulate(Transform::RotateLeft8(8), x) == truncate(x, 8),
        emulate(Transform::RotateLeft64(n), x) == emulate(Transform::RotateLeft64(n % 64), x),
        emulate(Transform::RotateLeft32(n), x) == emulate(Transform::RotateLeft32(n % 32), x),
        emulate(Transform::RotateLeft16(n), x) == emulate(Transform::RotateLeft16(n % 16), x),
        emulate(Transform::RotateLeft8(n), x) == emulate(Transform::RotateLeft8(n % 8), x),
        emulate(Transform::RotateRight64(n), x) == emulate(Transform::RotateRight64(n % 64), x),
        emulate(Transform::RotateRight32(n), x) == emulate(Transform::RotateRight32(n % 32), x),
        emulate(Transform::RotateRight16(n), x) == emulate(Transform::RotateRight16(n % 16), x),
        emulate(Transform::RotateRight8(n), x) == emulate(Transform::RotateRight8(n % 8), x),
{
}

/// The width of an instruction's transform is fixed by its opcode alone.
pub proof fn lemma_transform_width_by_opcode(a: Insn, b: Insn)
    requires
        a.code == b.code,
        transform_for(a) is Some,
    ensures
        transform_for(b) is Some,
        transform_for(a)->Some_0.size() == transform_for(b)->Some_0.size(),
{
}

/// The inverses of `ts`, last first.
pub open spec fn invert_all(ts: Seq<Transform>) -> Seq<Transform>
    decreases ts.len(),
{
    if ts.len() == 0 {
        Seq::empty()
    } else {
        seq![inverse(ts.last())] + invert_all(ts.drop_last())
    }
}

proof fn lemma_apply_concat(a: Seq<Transform>, b: Seq<Transform>, x: u64)
    ensures
        apply_all(a + b, x) == apply_all(b, apply_all(a, x)),
    decreases b.len(),
{
    if b.len() == 0 {
        assert(a + b =~= a);
    } else {
        assert((a + b).drop_last() =~= a + b.drop_last());
        lemma_apply_concat(a, b.drop_last(), x);
    }
}

pub proof fn lemma_apply_keeps_width(ts: Seq<Transform>, x: u64, width: usize)
    requires
        all_of_width(ts, width),
        x == truncate(x, width),
    ensures
        apply_all(ts, x) == truncate(apply_all(ts, x), width),
    decreases ts.len(),
{
    if ts.len() > 0 {
        assert(all_of_width(ts.drop_last(), width)) by {
            assert forall|k: int| 0 <= k < ts.drop_last().len() implies (
            #[trigger] ts.drop_last()[k]).size() == width by {
                assert(ts.drop_last()[k] == ts[k]);
            }
        }
        lemma_apply_keeps_width(ts.drop_last(), x, width);
        assert(ts.last() == ts[ts.len() - 1]);
        lemma_emulate_ignores_high_bits(ts.last(), apply_all(ts.drop_last(), x));
    }
}

/// Applying the inverses of a chain of equal-width transforms in reverse
/// order gives back the value the chain started from.
pub proof fn lemma_chain_invertible(ts: Seq<Transform>, x: u64, width: usize)
    requires
        is_width(width),
        all_of_width(ts, width),
        x == truncate(x, width),
    ensures
        apply_all(invert_all(ts), apply_all(ts, x)) == x,
    decreases ts.len(),
{
    if ts.len() > 0 {
        let rest = ts.drop_last();
        assert(all_of_width(rest, width)) by {
            assert forall|k: int| 0 <= k < rest.len() implies (#[trigger] rest[k]).size()
                == width by {
                assert(rest[k] == ts[k]);
            }
        }
        assert(ts.last() == ts[ts.len() - 1]);
        let mid = apply_all(rest, x);
        lemma_apply_keeps_width(rest, x, width);
        let y = apply_all(ts, x);
        let first = seq![inverse(ts.last())];
        assert(y == emulate(ts.last(), mid));
        assert(invert_all(ts) == first + invert_all(rest));
        lemma_apply_concat(first, invert_all(rest), y);
        assert(first.drop_last() =~= Seq::<Transform>::empty());
        assert(apply_all(first.drop_last(), y) == y);
        assert(apply_all(first, y) == emulate(inverse(ts.last()), y));
        lemma_inverse_undoes(ts.last(), mid);
        lemma_chain_invertible(rest, x, width);
    }
}

proof fn lemma_xor_twice(key: u64, p: u64)
    by (bit_vector)
    ensures
        (key ^ p) ^ p == key,
{
}

/// The cipher can be run backwards: from the plaintext `p` of a call, the
/// inverse transforms in reverse order give back the ciphertext mixed with
/// the key's low bits, and the key after the call, XORed with `p`, gives
/// back the key before it.
pub proof fn lemma_cipher_invertible(
    width: usize,
    ciphertext: u64,
    insns: Seq<Insn>,
    key: u64,
    reg: u8,
)
    requires
        is_width(width),
        all_of_width(transforms_in(insns, reg), width),
    ensures
        ({
            let ts = transforms_in(insns, reg);
            let p = apply_all(ts, truncate(ciphertext ^ key, width));
            &&& apply_all(invert_all(ts), p) == truncate(ciphertext ^ key, width)
            &&& (key ^ p) ^ p == key
        }),
{
    let ts = transforms_in(insns, reg);
    let x = truncate(ciphertext ^ key, width);
    lemma_chain_invertible(ts, x, width);
    lemma_xor_twice(key, apply_all(ts, x));
}

/// Bit-exact emulation of a transform on an unsigned value of its own width.
pub trait EmulateTransform: Sized {
    /// The width in bits of `Self`.
    spec fn bits() -> usize;

    /// The value after the transform.
    spec fn emulated(self, transform: Transform) -> Self;

    fn emulate_transform(self, transform: Transform) -> (r: Self)
        requires
            transform.size() == Self::bits(),
        ensures
            r == self.emulated(transform),
    ;
}

impl EmulateTransform for u8 {
    open spec fn bits() -> usize {
        8
    }

    open spec fn emulated(self, transform: Transform) -> u8 {
        emulate8(transform, self)
    }

    fn emulate_transform(self, transform: Transform) -> (r: u8) {
        emulate_transform8(transform, self)
    }
}

impl EmulateTransform for u16 {
    open spec fn bits() -> usize {
        16
    }

    open spec fn emulated(self, transform: Transform) -> u16 {
        emulate16(transform, self)
    }

    fn emulate_transform(self, transform: Transform) -> (r: u16) {
        emulate_transform16(transform, self)
    }
}

impl EmulateTransform for u32 {
    open spec fn bits() -> usize {
        32
    }

    open spec fn emulated(self, transform: Transform) -> u32 {
        emulate32(transform, self)
    }

    fn emulate_transform(self, transform: Transform) -> (r: u32) {
        emulate_transform32(transform, self)
    }
}

impl EmulateTransform for u64 {
    open spec fn bits() -> usize {
        64
    }

    open spec fn emulated(self, transform: Transform) -> u64 {
        emulate64(transform, self)
    }

    fn emulate_transform(self, transform: Transform) -> (r: u64) {
        emulate_transform64(transform, self)
    }
}

/// The handler cipher on a value of the implementing width (see
/// `emulate_encryption`).
pub trait EmulateEncryption: Sized {
    /// The width in bits of `Self`.
    spec fn width() -> usize;

    /// The value zero-extended to 64 bits.
    spec fn widened(self) -> u64;

    fn emulate_encryption(
        self,
        instructions: &[Insn],
        rolling_key: &mut u64,
        encrypted_reg: u8,
    ) -> (r: Result<Self, VmError>)
        ensures
            r is Ok <==> all_of_width(transforms_in(instructions@, encrypted_reg), Self::width()),
            r matches Ok(v) ==> v.widened() == apply_all(
                transforms_in(instructions@, encrypted_reg),
                truncate(self.widened() ^ *old(rolling_key), Self::width()),
            ) && *final(rolling_key) == *old(rolling_key) ^ v.widened(),
            r matches Err(e) ==> e == VmError::WidthMismatch && *final(rolling_key) == *old(
                rolling_key,
            ),
    ;
}

impl EmulateEncryption for u8 {
    open spec fn width() -> usize {
        8
    }

    open spec fn widened(self) -> u64 {
        self as u64
    }

    fn emulate_encryption(
        self,
        instructions: &[Insn],
        rolling_key: &mut u64,
        encrypted_reg: u8,
    ) -> (r: Result<u8, VmError>) {
        match emulate_encryption(8, self as u64, instructions, rolling_key, encrypted_reg) {
            Ok(v) => {
                proof {
                    lemma_apply_keeps_width(
                        transforms_in(instructions@, encrypted_reg),
                        truncate(self as u64 ^ *old(rolling_key), 8),
                        8,
                    );
                }
                Ok(v as u8)
            },
            Err(e) => Err(e),
        }
    }
}

impl EmulateEncryption for u16 {
    open spec fn width() -> usize {
        16
    }

    open spec fn widened(self) -> u64 {
        self as u64
    }

    fn emulate_encryption(
        self,
        instructions: &[Insn],
        rolling_key: &mut u64,
        encrypted_reg: u8,
    ) -> (r: Result<u16, VmError>) {
        match emulate_encryption(16, self as u64, instructions, rolling_key, encrypted_reg) {
            Ok(v) => {
                proof {
                    lemma_apply_keeps_width(
                        transforms_in(instructions@, encrypted_reg),
                        truncate(self as u64 ^ *old(rolling_key), 16),
                        16,
                    );
                }
                Ok(v as u16)
            },
            Err(e) => Err(e),
        }
    }
}

impl EmulateEncryption for u32 {
    open spec fn width() -> usize {
        32
    }

    open spec fn widened(self) -> u64 {
        self as u64
    }

    fn emulate_encryption(
        self,
        instructions: &[Insn],
        rolling_key: &mut u64,
        encrypted_reg: u8,
    ) -> (r: Result<u32, VmError>) {
        match emulate_encryption(32, self as u64, instructions, rolling_key, encrypted_reg) {
            Ok(v) => {
                proof {
                    lemma_apply_keeps_width(
                        transforms_in(instructions@, encrypted_reg),
                        truncate(self as u64 ^ *old(rolling_key), 32),
                        32,
                    );
                }
                Ok(v as u32)
            },
            Err(e) => Err(e),
        }
    }
}

impl EmulateEncryption for u64 {
    open spec fn width() -> usize {
        64
    }

    open spec fn widened(self) -> u64 {
        self as u64
    }

    fn emulate_encryption(
        self,
        instructions: &[Insn],
        rolling_key: &mut u64,
        encrypted_reg: u8,
    ) -> (r: Result<u64, VmError>) {
        match emulate_encryption(64, self as u64, instructions, rolling_key, encrypted_reg) {
            Ok(v) => {
                Ok(v)
            },
            Err(e) => Err(e),
        }
    }
}

} // verus!
