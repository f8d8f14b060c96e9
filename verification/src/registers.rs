//! Register addresses, bit fields and the byte layout of bus transactions.
//!
//! A read from the chip always starts at register `STATUSRSSI` and wraps
//! around after register 15 to register 0; a write always starts at register
//! `POWERCFG`. Every register travels as two bytes, high byte first.

use vstd::prelude::*;

verus! {

/// Seven-bit I²C address of the tuner.
pub const DEVICE_ADDRESS: u8 = 0x10;

/// Number of registers of the chip.
pub const REGISTER_COUNT: usize = 16;

pub const DEVICE_ID: usize = 0x00;
pub const CHIP_ID: usize = 0x01;
pub const POWERCFG: usize = 0x02;
pub const CHANNEL: usize = 0x03;
pub const SYSCONFIG1: usize = 0x04;
pub const SYSCONFIG2: usize = 0x05;
pub const SYSCONFIG3: usize = 0x06;
pub const TEST1: usize = 0x07;
pub const STATUSRSSI: usize = 0x0A;
pub const READCHAN: usize = 0x0B;

// POWERCFG
pub const DSMUTE: u16 = 0x8000;
pub const DMUTE: u16 = 0x4000;
pub const MONO: u16 = 0x2000;
pub const DISABLE: u16 = 0x0040;
pub const ENABLE: u16 = 0x0001;

// SYSCONFIG1
pub const STCIEN: u16 = 0x4000;
pub const DE: u16 = 0x0800;
pub const AGCD: u16 = 0x0400;
pub const BLNDADJ: u16 = 0x00C0;
pub const GPIO3: u16 = 0x0030;
pub const GPIO2: u16 = 0x000C;
pub const GPIO1: u16 = 0x0003;

// SYSCONFIG2
pub const BAND: u16 = 0x00C0;
pub const SPACE: u16 = 0x0030;
pub const VOLUME: u16 = 0x000F;

// SYSCONFIG3
pub const SMUTER: u16 = 0xC000;
pub const SMUTEA: u16 = 0x3000;
pub const VOLEXT: u16 = 0x0100;

// TEST1
pub const XOSCEN: u16 = 0x8000;
pub const AHIZEN: u16 = 0x4000;

// STATUSRSSI
pub const ST: u16 = 0x0100;
pub const RSSI: u16 = 0x00FF;

// READCHAN
pub const READCHAN_CHANNEL: u16 = 0x03FF;

// DEVICE_ID
pub const PART_NUMBER: u16 = 0xF000;
pub const MANUFACTURER: u16 = 0x0FFF;

// CHIP_ID
pub const REVISION: u16 = 0xFC00;
pub const DEVICE: u16 = 0x03C0;
pub const FIRMWARE: u16 = 0x003F;

/// The word that two bytes stand for when sent high byte first.
pub open spec fn be_word(hi: u8, lo: u8) -> u16 {
    (hi * 256 + lo) as u16
}

/// The value of the field of `w` under `mask`, whose lowest bit is bit `shift`.
pub open spec fn field(w: u16, mask: u16, shift: u16) -> u16 {
    (w & mask) >> shift
}

/// `new` is `old` with the field under `mask` (lowest bit `shift`) holding
/// `value`, and every bit outside the field as it was.
pub open spec fn with_field(new: u16, old: u16, mask: u16, shift: u16, value: u16) -> bool {
    &&& field(new, mask, shift) == value
    &&& new & !mask == old & !mask
}

/// `new` is `old` with the bits of `flag` set when `on` holds and cleared
/// otherwise, and every other bit as it was.
pub open spec fn with_flag(new: u16, old: u16, flag: u16, on: bool) -> bool {
    &&& new & flag == (if on { flag } else { 0u16 })
    &&& new & !flag == old & !flag
}

/// Position, counted in registers, at which register `r` arrives in a read
/// (a read starts at `STATUSRSSI` and wraps around after register 15).
pub open spec fn read_slot(r: int) -> int {
    (r + 6) % 16
}

/// Register `r` as the bytes `data` of a read carry it.
pub open spec fn read_reg(data: Seq<u8>, r: int) -> u16 {
    be_word(data[2 * read_slot(r)], data[2 * read_slot(r) + 1])
}

/// Register `r` as the bytes `out` of a write carry it (a write starts at
/// `POWERCFG`).
pub open spec fn sent_reg(out: Seq<u8>, r: int) -> u16 {
    be_word(out[2 * (r - 2)], out[2 * (r - 2) + 1])
}

/// `out` writes the registers from `POWERCFG` up to `last`, and each register
/// outside `changed` goes back as the read `data` gave it.
pub open spec fn writes_back(out: Seq<u8>, data: Seq<u8>, last: int, changed: Set<int>) -> bool {
    &&& out.len() == 2 * (last - 1)
    &&& forall|r: int|
        2 <= r <= last && !changed.contains(r) ==> #[trigger] sent_reg(out, r) == read_reg(data, r)
}

/// Assembles a word from its high and its low byte.
pub fn word_from_bytes(hi: u8, lo: u8) -> (w: u16)
    ensures
        w == be_word(hi, lo),
{
    assert(((hi as u16) << 8u16) | (lo as u16) == (hi * 256 + lo) as u16) by (bit_vector);
    ((hi as u16) << 8u16) | (lo as u16)
}

/// Splits a word into its high and its low byte.
pub fn word_to_bytes(w: u16) -> (bytes: (u8, u8))
    ensures
        be_word(bytes.0, bytes.1) == w,
{
    let hi = (w >> 8u16) as u8;
    let lo = (w & 0xFF) as u8;
    assert(((((w >> 8u16) as u8) * 256 + ((w & 0xFF) as u8)) as u16) == w) by (bit_vector);
    (hi, lo)
}

/// Decodes the 32 bytes of a read of all registers into the register file,
/// indexed by register address.
pub fn registers_from_read(data: &[u8; 32]) -> (regs: Vec<u16>)
    ensures
        regs@.len() == REGISTER_COUNT,
        forall|r: int| 0 <= r < 16 ==> #[trigger] regs@[r] == read_reg(data@, r),
{
    let mut regs: Vec<u16> = Vec::new();
    let mut r: usize = 0;
    while r < 16
        invariant
            r <= 16,
            data@.len() == 32,
            regs@.len() == r,
            forall|k: int| 0 <= k < r ==> #[trigger] regs@[k] == read_reg(data@, k),
        decreases 16 - r,
    {
        let slot: usize = (r + 6) % 16;
        let w = word_from_bytes(data[2 * slot], data[2 * slot + 1]);
        regs.push(w);
        r = r + 1;
    }
    regs
}

/// Decodes `POWERCFG` from the 18 bytes of a read that stops after it.
pub fn powercfg_from_read(data: &[u8; 18]) -> (w: u16)
    ensures
        w == read_reg(data@, POWERCFG as int),
{
    word_from_bytes(data[16], data[17])
}

/// Decodes `STATUSRSSI`, the first register of every read.
pub fn status_from_read(data: &[u8]) -> (w: u16)
    requires
        data@.len() >= 2,
    ensures
        w == read_reg(data@, STATUSRSSI as int),
{
    word_from_bytes(data[0], data[1])
}

/// Encodes the write of the registers from `POWERCFG` up to `last`, taking
/// their values from the register file `regs`.
pub fn registers_to_write(regs: &Vec<u16>, last: usize) -> (out: Vec<u8>)
    requires
        POWERCFG <= last < regs@.len(),
    ensures
        out@.len() == 2 * (last - 1),
        forall|r: int| 2 <= r <= last ==> #[trigger] sent_reg(out@, r) == regs@[r],
{
    let n = regs.len();
    let mut out: Vec<u8> = Vec::new();
    let mut r: usize = POWERCFG;
    while r <= last
        invariant
            POWERCFG <= r <= last + 1,
            last < n,
            n == regs@.len(),
            out@.len() == 2 * (r - 2),
            forall|k: int| 2 <= k < r ==> #[trigger] sent_reg(out@, k) == regs@[k],
        decreases last + 1 - r,
    {
        let (hi, lo) = word_to_bytes(regs[r]);
        let ghost before = out@;
        out.push(hi);
        out.push(lo);
        assert forall|k: int| 2 <= k < r + 1 implies #[trigger] sent_reg(out@, k) == regs@[k] by {
            if k < r {
                assert(sent_reg(before, k) == regs@[k]);
            }
        }
        r = r + 1;
    }
    out
}

/// Encodes the write of `POWERCFG` alone.
pub fn powercfg_to_write(w: u16) -> (out: Vec<u8>)
    ensures
        out@.len() == 2,
        sent_reg(out@, POWERCFG as int) == w,
{
    let (hi, lo) = word_to_bytes(w);
    let mut out: Vec<u8> = Vec::new();
    out.push(hi);
    out.push(lo);
    out
}

/// `mask` has no bit below bit `shift`, so a field value fixes the field's
/// bits.
pub open spec fn aligned(mask: u16, shift: u16) -> bool {
    shift < 16 && (mask >> shift) << shift == mask
}

/// A field write has one outcome: two words that both hold `value` in the
/// field and agree with `old` outside it are the same word.
pub proof fn lemma_field_write_unique(n1: u16, n2: u16, old: u16, mask: u16, shift: u16, value: u16)
    requires
        aligned(mask, shift),
        with_field(n1, old, mask, shift, value),
        with_field(n2, old, mask, shift, value),
    ensures
        n1 == n2,
{
    assert(n1 == n2) by (bit_vector)
        requires
            shift < 16,
            (mask >> shift) << shift == mask,
            (n1 & mask) >> shift == value,
            (n2 & mask) >> shift == value,
            n1 & !mask == old & !mask,
            n2 & !mask == old & !mask,
    ;
}

/// Of two writes to the same field, the second one decides: the result is
/// the first word with only the second write made.
pub proof fn lemma_field_last_write_wins(
    old: u16,
    mid: u16,
    new: u16,
    mask: u16,
    shift: u16,
    first: u16,
    second: u16,
)
    requires
        with_field(mid, old, mask, shift, first),
        with_field(new, mid, mask, shift, second),
    ensures
        with_field(new, old, mask, shift, second),
{
}

/// Writing a field with the value that it already holds leaves the word
/// unchanged.
pub proof fn lemma_field_rewrite_is_identity(new: u16, old: u16, mask: u16, shift: u16)
    requires
        aligned(mask, shift),
        with_field(new, old, mask, shift, field(old, mask, shift)),
    ensures
        new == old,
{
    lemma_field_write_unique(new, old, old, mask, shift, field(old, mask, shift));
}

/// Writes to two fields that share no bit can be made in either order with
/// the same outcome.
pub proof fn lemma_disjoint_field_writes_commute(
    old: u16,
    a: u16,
    ab: u16,
    b: u16,
    ba: u16,
    m1: u16,
    s1: u16,
    v1: u16,
    m2: u16,
    s2: u16,
    v2: u16,
)
    requires
        aligned(m1, s1),
        aligned(m2, s2),
        m1 & m2 == 0,
        with_field(a, old, m1, s1, v1),
        with_field(ab, a, m2, s2, v2),
        with_field(b, old, m2, s2, v2),
        with_field(ba, b, m1, s1, v1),
    ensures
        ab == ba,
{
    assert(ab == ba) by (bit_vector)
        requires
            s1 < 16,
            s2 < 16,
            (m1 >> s1) << s1 == m1,
            (m2 >> s2) << s2 == m2,
            m1 & m2 == 0,
            (a & m1) >> s1 == v1,
            a & !m1 == old & !m1,
            (ab & m2) >> s2 == v2,
            ab & !m2 == a & !m2,
            (b & m2) >> s2 == v2,
            b & !m2 == old & !m2,
            (ba & m1) >> s1 == v1,
            ba & !m1 == b & !m1,
    ;
}

/// A flag write has one outcome, the later of two writes to a flag decides,
/// and writes to two flags that share no bit commute.
pub proof fn lemma_flag_writes(
    old: u16,
    mid: u16,
    new: u16,
    other: u16,
    flag: u16,
    first: bool,
    second: bool,
)
    requires
        with_flag(mid, old, flag, first),
        with_flag(new, mid, flag, second),
    ensures
        with_flag(new, old, flag, second),
        with_flag(other, old, flag, second) ==> other == new,
{
    assert(with_flag(other, old, flag, second) ==> other == new) by (bit_vector)
        requires
            new & flag == (if second { flag } else { 0u16 }),
            new & !flag == old & !flag,
    ;
}

/// Every register arrives exactly once in a read of all registers: the read
/// positions of the sixteen registers are sixteen distinct positions.
pub proof fn lemma_read_slots_distinct(r1: int, r2: int)
    requires
        0 <= r1 < 16,
        0 <= r2 < 16,
        read_slot(r1) == read_slot(r2),
    ensures
        r1 == r2,
        0 <= read_slot(r1) < 16,
{
}

/// Each word has one encoding as two bytes, high byte first.
pub proof fn lemma_be_word_injective(h1: u8, l1: u8, h2: u8, l2: u8)
    requires
        be_word(h1, l1) == be_word(h2, l2),
    ensures
        h1 == h2,
        l1 == l2,
{
}

} // verus!
