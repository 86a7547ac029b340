//! Pure 8-bit and 16-bit arithmetic helpers for the CPU core: flag
//! computation, wrapping addition and subtraction, shifts and rotates,
//! and packing of the status byte. Every function's result is pinned
//! exactly by its contract, stated over mathematical integers.

use vstd::prelude::*;

verus! {

/// The high bit of a byte, i.e. its sign when read as two's complement.
pub open spec fn is_neg(v: u8) -> bool {
    v >= 128
}

/// A byte result together with the carry and overflow it produced.
pub struct AluOut {
    pub value: u8,
    pub carry: bool,
    pub overflow: bool,
}

/// Add with carry: `a + b + carry_in` wrapped to a byte.
/// Carry out reports the unsigned overflow; overflow reports the
/// two's-complement sign overflow exactly as the hardware flag does.
pub fn adc_core(a: u8, b: u8, carry_in: bool) -> (r: AluOut)
    ensures
        r.value == (a + b + (if carry_in { 1int } else { 0int })) % 256,
        r.carry == (a + b + (if carry_in { 1int } else { 0int }) >= 256),
        r.overflow == ((is_neg(a) == is_neg(b)) && (is_neg(a) != is_neg(r.value))),
{
    let cin: u32 = if carry_in { 1 } else { 0 };
    let sum: u32 = a as u32 + b as u32 + cin;
    let value: u8 = (sum % 256) as u8;
    AluOut {
        value,
        carry: sum >= 256,
        overflow: (a >= 128) == (b >= 128) && ((a >= 128) != (value >= 128)),
    }
}

/// Subtract with borrow: `a - b - (1 - carry_in)` wrapped to a byte.
/// Carry out is the hardware convention: set when no borrow occurred.
pub fn sbc_core(a: u8, b: u8, carry_in: bool) -> (r: AluOut)
    ensures
        r.value == (256 + a - b - (if carry_in { 0int } else { 1int })) % 256,
        r.carry == (a - b - (if carry_in { 0int } else { 1int }) >= 0),
        r.overflow == ((is_neg(a) != is_neg(b)) && (is_neg(a) != is_neg(r.value))),
{
    let borrow: u32 = if carry_in { 0 } else { 1 };
    let t: u32 = 256 + a as u32 - b as u32 - borrow;
    let value: u8 = (t % 256) as u8;
    AluOut {
        value,
        carry: t >= 256,
        overflow: (a >= 128) != (b >= 128) && ((a >= 128) != (value >= 128)),
    }
}

/// Compare: the flags of `a - b`, with the difference byte returned so
/// zero and negative can be derived from it.
pub fn cmp_core(a: u8, b: u8) -> (r: AluOut)
    ensures
        r.value == (256 + a - b) % 256,
        r.carry == (a >= b),
        !r.overflow,
{
    let t: u32 = 256 + a as u32 - b as u32;
    AluOut { value: (t % 256) as u8, carry: a >= b, overflow: false }
}

/// Arithmetic shift left: bit 7 moves into the carry.
pub fn asl_core(v: u8) -> (r: AluOut)
    ensures
        r.value == (v * 2) % 256,
        r.carry == (v >= 128),
        !r.overflow,
{
    let t: u32 = v as u32 * 2;
    AluOut { value: (t % 256) as u8, carry: v >= 128, overflow: false }
}

/// Logical shift right: bit 0 moves into the carry.
pub fn lsr_core(v: u8) -> (r: AluOut)
    ensures
        r.value == v / 2,
        r.carry == (v % 2 == 1),
        !r.overflow,
{
    AluOut { value: v / 2, carry: v % 2 == 1, overflow: false }
}

/// Rotate left through the carry.
pub fn rol_core(v: u8, carry_in: bool) -> (r: AluOut)
    ensures
        r.value == (v * 2 + (if carry_in { 1int } else { 0int })) % 256,
        r.carry == (v >= 128),
        !r.overflow,
{
    let cin: u32 = if carry_in { 1 } else { 0 };
    let t: u32 = v as u32 * 2 + cin;
    AluOut { value: (t % 256) as u8, carry: v >= 128, overflow: false }
}

/// Rotate right through the carry.
pub fn ror_core(v: u8, carry_in: bool) -> (r: AluOut)
    ensures
        r.value == v / 2 + (if carry_in { 128int } else { 0int }),
        r.carry == (v % 2 == 1),
        !r.overflow,
{
    let cin: u8 = if carry_in { 128 } else { 0 };
    AluOut { value: v / 2 + cin, carry: v % 2 == 1, overflow: false }
}

/// Increment wrapping to a byte.
pub fn inc8(v: u8) -> (r: u8)
    ensures
        r == (v + 1) % 256,
{
    if v == 255 {
        0
    } else {
        v + 1
    }
}

/// Decrement wrapping to a byte.
pub fn dec8(v: u8) -> (r: u8)
    ensures
        r == (v + 255) % 256,
{
    if v == 0 {
        255
    } else {
        v - 1
    }
}

/// 16-bit wrapping addition, for program-counter and address stepping.
pub fn wrap16_add(a: u16, d: u16) -> (r: u16)
    ensures
        r == (a + d) % 65536,
{
    let t: u32 = a as u32 + d as u32;
    (t % 65536) as u16
}

/// The 256-byte page an address lies on.
pub open spec fn page_of(a: u16) -> int {
    a as int / 256
}

/// Whether two addresses share a 256-byte page.
pub fn same_page(a: u16, b: u16) -> (r: bool)
    ensures
        r == (page_of(a) == page_of(b)),
{
    a / 256 == b / 256
}

/// The signed value of a branch displacement byte.
pub open spec fn signed_of(d: u8) -> int {
    if d < 128 {
        d as int
    } else {
        d - 256
    }
}

/// The address a branch with displacement `d` lands on, starting from
/// the address of the following instruction.
pub fn branch_target(after: u16, d: u16 /* displacement byte, zero-extended */) -> (r: u16)
    requires
        d < 256,
    ensures
        r == (after + signed_of(d as u8) + 65536) % 65536,
{
    let ext: u32 = if d >= 128 { 65536 - 256 } else { 0 };
    let t: u32 = after as u32 + d as u32 + ext;
    (t % 65536) as u16
}

/// The six stored processor flags. The break bit and the always-set
/// bit exist only on the pushed status byte, not as state.
pub struct StatusFlags {
    pub carry: bool,
    pub zero: bool,
    pub irq_disable: bool,
    pub decimal: bool,
    pub overflow: bool,
    pub negative: bool,
}

pub open spec fn bit_val(b: bool, w: int) -> int {
    if b {
        w
    } else {
        0
    }
}

/// The status byte as pushed on the stack: the six flags, the break
/// bit as requested, and the always-set unused bit.
pub open spec fn spec_pack_status(f: StatusFlags, brk: bool) -> int {
    bit_val(f.carry, 1) + bit_val(f.zero, 2) + bit_val(f.irq_disable, 4) + bit_val(f.decimal, 8)
        + bit_val(brk, 16) + 32 + bit_val(f.overflow, 64) + bit_val(f.negative, 128)
}

pub fn pack_status(f: &StatusFlags, brk: bool) -> (r: u8)
    ensures
        r == spec_pack_status(*f, brk),
{
    let mut r: u8 = 32;
    if f.carry {
        r = r + 1;
    }
    if f.zero {
        r = r + 2;
    }
    if f.irq_disable {
        r = r + 4;
    }
    if f.decimal {
        r = r + 8;
    }
    if brk {
        r = r + 16;
    }
    if f.overflow {
        r = r + 64;
    }
    if f.negative {
        r = r + 128;
    }
    r
}

/// The flags recovered from a status byte; the break and unused bits
/// are discarded, as the hardware does on pull.
pub open spec fn spec_unpack_status(b: u8) -> StatusFlags {
    StatusFlags {
        carry: b % 2 == 1,
        zero: b / 2 % 2 == 1,
        irq_disable: b / 4 % 2 == 1,
        decimal: b / 8 % 2 == 1,
        overflow: b / 64 % 2 == 1,
        negative: b / 128 == 1,
    }
}

pub fn unpack_status(b: u8) -> (r: StatusFlags)
    ensures
        r == spec_unpack_status(b),
{
    StatusFlags {
        carry: b % 2 == 1,
        zero: b / 2 % 2 == 1,
        irq_disable: b / 4 % 2 == 1,
        decimal: b / 8 % 2 == 1,
        overflow: b / 64 % 2 == 1,
        negative: b / 128 == 1,
    }
}

/// Packing the flags and unpacking the byte again restores the same
/// six flags, whatever was asked of the break bit.
pub proof fn lemma_status_round_trip(f: StatusFlags, brk: bool)
    ensures
        spec_unpack_status(spec_pack_status(f, brk) as u8) == f,
{
    let b = spec_pack_status(f, brk);
    assert(0 <= b < 256);
    assert(spec_unpack_status(b as u8).carry == f.carry);
    assert(spec_unpack_status(b as u8).zero == f.zero);
    assert(spec_unpack_status(b as u8).irq_disable == f.irq_disable);
    assert(spec_unpack_status(b as u8).decimal == f.decimal);
    assert(spec_unpack_status(b as u8).overflow == f.overflow);
    assert(spec_unpack_status(b as u8).negative == f.negative);
}

} // verus!
