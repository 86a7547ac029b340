//! The cartridge image: raw program and graphics banks plus the
//! decoded header fields the mappers need. Parsing here extracts
//! exactly those fields from the standard container layout; anything
//! malformed or unsupported is a load-time error and the machine is
//! never started.

use vstd::prelude::*;

verus! {

/// Size in bytes of one program bank.
pub const PRG_BANK_SIZE: usize = 16384;

/// Size in bytes of one graphics bank.
pub const CHR_BANK_SIZE: usize = 8192;

/// How the cartridge wires the two physical nametables into the
/// four-slot logical space.
#[derive(Clone, Copy, PartialEq, Eq, Structural, Debug)]
pub enum MirrorMode {
    Horizontal,
    Vertical,
    FourScreen,
}

/// Why a cartridge image was rejected at load time.
#[derive(Clone, Copy, PartialEq, Eq, Structural, Debug)]
pub enum LoadError {
    /// Too short, wrong magic, or a zero program-bank count.
    BadHeader,
    /// The header promises more bank data than the image holds.
    Truncated,
    /// A mapper identifier this core does not implement.
    UnsupportedMapper,
}

/// A loaded cartridge: raw bank bytes and the decoded header fields.
pub struct Cartridge {
    pub prg: Vec<u8>,
    pub chr: Vec<u8>,
    /// True when the cartridge supplies no graphics data and the
    /// graphics region is writable RAM instead.
    pub chr_is_ram: bool,
    pub mirroring: MirrorMode,
    pub mapper_id: u8,
    pub battery: bool,
}

/// Well-formedness every mapper relies on: whole, nonempty banks on
/// both regions.
pub open spec fn cart_wf(c: Cartridge) -> bool {
    &&& c.prg.len() >= PRG_BANK_SIZE
    &&& c.prg.len() % PRG_BANK_SIZE == 0
    &&& c.chr.len() == CHR_BANK_SIZE
        || (c.chr.len() >= CHR_BANK_SIZE && c.chr.len() % CHR_BANK_SIZE == 0)
}

/// The mapper identifiers this core implements.
pub open spec fn spec_mapper_supported(id: u8) -> bool {
    id == 0 || id == 2 || id == 3 || id == 4
}

pub fn mapper_supported(id: u8) -> (r: bool)
    ensures
        r == spec_mapper_supported(id),
{
    id == 0 || id == 2 || id == 3 || id == 4
}

/// The container's fixed four-byte magic.
pub open spec fn spec_magic_ok(b: Seq<u8>) -> bool {
    b.len() >= 16 && b[0] == 0x4Eu8 && b[1] == 0x45u8 && b[2] == 0x53u8 && b[3] == 0x1Au8
}

/// The mapper identifier encoded across the two flag bytes.
pub open spec fn spec_header_mapper(b: Seq<u8>) -> u8
    recommends
        b.len() >= 16,
{
    ((b[7] / 16) * 16 + b[6] / 16) as u8
}

/// Offset of the program banks: the header, plus a 512-byte trainer
/// when the trainer flag is set.
pub open spec fn spec_prg_start(b: Seq<u8>) -> int
    recommends
        b.len() >= 16,
{
    16 + if b[6] / 4 % 2 == 1 {
        512int
    } else {
        0int
    }
}

pub open spec fn spec_prg_len(b: Seq<u8>) -> int
    recommends
        b.len() >= 16,
{
    b[4] * PRG_BANK_SIZE
}

pub open spec fn spec_chr_len(b: Seq<u8>) -> int
    recommends
        b.len() >= 16,
{
    b[5] * CHR_BANK_SIZE
}

/// A header is accepted when the magic and a nonzero program-bank
/// count are present, every promised bank byte is there, and the
/// mapper is one this core implements.
pub open spec fn spec_image_ok(b: Seq<u8>) -> bool {
    &&& spec_magic_ok(b)
    &&& b[4] != 0
    &&& b.len() >= spec_prg_start(b) + spec_prg_len(b) + spec_chr_len(b)
    &&& spec_mapper_supported(spec_header_mapper(b))
}

pub open spec fn spec_header_mirroring(b: Seq<u8>) -> MirrorMode
    recommends
        b.len() >= 16,
{
    if b[6] / 8 % 2 == 1 {
        MirrorMode::FourScreen
    } else if b[6] % 2 == 1 {
        MirrorMode::Vertical
    } else {
        MirrorMode::Horizontal
    }
}

/// Copy `n` bytes of `src` starting at `start` into a fresh vector.
fn copy_range(src: &Vec<u8>, start: usize, n: usize) -> (r: Vec<u8>)
    requires
        start + n <= src.len(),
    ensures
        r@ == src@.subrange(start as int, start + n),
{
    let mut out: Vec<u8> = Vec::new();
    let mut i: usize = 0;
    while i < n
        invariant
            start + n <= src.len(),
            i <= n,
            out@ == src@.subrange(start as int, start + i),
        decreases n - i,
    {
        out.push(src[start + i]);
        assert(out@ =~= src@.subrange(start as int, start + i + 1));
        i = i + 1;
    }
    out
}

/// A vector of `n` zero bytes, for blank memories.
pub fn zero_vec(n: usize) -> (r: Vec<u8>)
    ensures
        r@ == Seq::<u8>::new(n as nat, |i: int| 0u8),
{
    let mut out: Vec<u8> = Vec::new();
    let mut i: usize = 0;
    while i < n
        invariant
            i <= n,
            out@ == Seq::<u8>::new(i as nat, |j: int| 0u8),
        decreases n - i,
    {
        out.push(0);
        assert(out@ =~= Seq::<u8>::new((i + 1) as nat, |j: int| 0u8));
        i = i + 1;
    }
    out
}

/// Decode a cartridge image. Success happens exactly on well-formed
/// images of a supported mapper; the returned cartridge holds the
/// image's bank bytes unchanged and the decoded header fields.
pub fn parse_cartridge(bytes: &Vec<u8>) -> (r: Result<Cartridge, LoadError>)
    ensures
        r is Ok <==> spec_image_ok(bytes@),
        r is Ok ==> {
            let c = r->Ok_0;
            &&& c.prg@ == bytes@.subrange(spec_prg_start(bytes@), spec_prg_start(bytes@)
                + spec_prg_len(bytes@))
            &&& c.chr_is_ram == (bytes@[5] == 0)
            &&& (bytes@[5] != 0 ==> c.chr@ == bytes@.subrange(spec_prg_start(bytes@)
                + spec_prg_len(bytes@), spec_prg_start(bytes@) + spec_prg_len(bytes@)
                + spec_chr_len(bytes@)))
            &&& (bytes@[5] == 0 ==> c.chr@ == Seq::<u8>::new(CHR_BANK_SIZE as nat, |i: int| 0u8))
            &&& c.mirroring == spec_header_mirroring(bytes@)
            &&& c.mapper_id == spec_header_mapper(bytes@)
            &&& c.battery == (bytes@[6] / 2 % 2 == 1)
            &&& cart_wf(c)
        },
        r is Err ==> (r->Err_0 == LoadError::UnsupportedMapper <==> (spec_magic_ok(bytes@)
            && bytes@[4] != 0 && bytes@.len() >= spec_prg_start(bytes@) + spec_prg_len(bytes@)
            + spec_chr_len(bytes@) && !spec_mapper_supported(spec_header_mapper(bytes@)))),
{
    if bytes.len() < 16 {
        return Err(LoadError::BadHeader);
    }
    if !(bytes[0] == 0x4E && bytes[1] == 0x45 && bytes[2] == 0x53 && bytes[3] == 0x1A) {
        return Err(LoadError::BadHeader);
    }
    let prg_banks: usize = bytes[4] as usize;
    let chr_banks: usize = bytes[5] as usize;
    let flags6: u8 = bytes[6];
    let flags7: u8 = bytes[7];
    if prg_banks == 0 {
        return Err(LoadError::BadHeader);
    }
    let mapper_id: u8 = (flags7 / 16) * 16 + flags6 / 16;
    if !mapper_supported(mapper_id) {
        if bytes.len() >= 16 + (if flags6 / 4 % 2 == 1 { 512 } else { 0 }) + prg_banks * PRG_BANK_SIZE
            + chr_banks * CHR_BANK_SIZE {
            return Err(LoadError::UnsupportedMapper);
        }
        return Err(LoadError::Truncated);
    }
    let trainer: usize = if flags6 / 4 % 2 == 1 { 512 } else { 0 };
    let prg_start: usize = 16 + trainer;
    let prg_len: usize = prg_banks * PRG_BANK_SIZE;
    let chr_len: usize = chr_banks * CHR_BANK_SIZE;
    if bytes.len() < prg_start + prg_len + chr_len {
        return Err(LoadError::Truncated);
    }
    let prg = copy_range(bytes, prg_start, prg_len);
    let (chr, chr_is_ram) = if chr_banks == 0 {
        (zero_vec(CHR_BANK_SIZE), true)
    } else {
        (copy_range(bytes, prg_start + prg_len, chr_len), false)
    };
    let mirroring = if flags6 / 8 % 2 == 1 {
        MirrorMode::FourScreen
    } else if flags6 % 2 == 1 {
        MirrorMode::Vertical
    } else {
        MirrorMode::Horizontal
    };
    Ok(Cartridge {
        prg,
        chr,
        chr_is_ram,
        mirroring,
        mapper_id,
        battery: flags6 / 2 % 2 == 1,
    })
}

} // verus!
