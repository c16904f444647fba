//! Framing of bus transfers and the bit-field arithmetic of read-modify-write.
use vstd::prelude::*;
use crate::register::Register;

verus! {

/// Bit 7 of the first byte of a transfer: set for a read, clear for a write.
pub const SPI_READ: u8 = 0b1000_0000;

/// Why a register access was refused.
#[derive(Clone, Copy, Debug, PartialEq, Eq, Structural)]
pub enum AccessError {
    /// A bit-field mask with no bit set.
    EmptyMask,
    /// A write to a register the device only reports through.
    ReadOnly,
}

/// The first byte of a read transfer from `addr`.
pub open spec fn read_command(addr: u8) -> u8 {
    addr | SPI_READ
}

/// The first byte of a write transfer to `addr`.
pub open spec fn write_command(addr: u8) -> u8 {
    addr & !SPI_READ
}

/// `s` is the position of the lowest set bit of `mask`.
pub open spec fn is_lowest_set_bit(mask: u8, s: u8) -> bool {
    &&& s < 8
    &&& (mask >> s) & 1 == 1
    &&& ((mask >> s) << s) as u8 == mask
}

/// How far a field's value is shifted to sit under `mask`: the lowest set bit of `mask`.
pub open spec fn field_shift(mask: u8) -> u8 {
    choose|s: u8| is_lowest_set_bit(mask, s)
}

/// `current` with the field under `mask` replaced by `value` shifted into place; bits of the
/// shifted value that fall outside the mask are dropped.
pub open spec fn with_field(current: u8, mask: u8, value: u8) -> u8 {
    (current & !mask) | (((value << field_shift(mask)) as u8) & mask)
}

/// Little-endian two's-complement reading of a low and a high byte.
pub open spec fn le_i16(low: u8, high: u8) -> i16 {
    (high as int * 256 + low as int) as i16
}

/// A mask has one lowest set bit.
pub proof fn lemma_lowest_set_bit_unique(mask: u8, a: u8, b: u8)
    requires
        is_lowest_set_bit(mask, a),
        is_lowest_set_bit(mask, b),
    ensures
        a == b,
{
    assert(is_lowest_set_bit(mask, a) && is_lowest_set_bit(mask, b) ==> a == b) by (bit_vector);
}

proof fn lemma_scan_step(mask: u8, m: u8, s: u8)
    requires
        s < 8,
        m == mask >> s,
        m != 0,
        m & 1 == 0,
        ((mask >> s) << s) as u8 == mask,
    ensures
        s + 1 < 8,
        (m >> 1u8) == mask >> ((s + 1) as u8),
        (m >> 1u8) != 0,
        ((mask >> ((s + 1) as u8)) << ((s + 1) as u8)) as u8 == mask,
{
    assert(s < 8 && m == mask >> s && m != 0 && m & 1 == 0 && ((mask >> s) << s) as u8 == mask ==> {
        &&& s + 1 < 8
        &&& (m >> 1u8) == mask >> ((s + 1) as u8)
        &&& (m >> 1u8) != 0
        &&& ((mask >> ((s + 1) as u8)) << ((s + 1) as u8)) as u8 == mask
    }) by (bit_vector);
}

/// The framing byte of a read from `addr`: the address with bit 7 set.
pub fn read_frame(addr: u8) -> (r: u8)
    ensures
        r == read_command(addr),
{
    addr | SPI_READ
}

/// The framing byte of a write to `addr`: the address with bit 7 clear.
pub fn write_frame(addr: u8) -> (r: u8)
    ensures
        r == write_command(addr),
{
    addr & !SPI_READ
}

/// Position of the lowest set bit of `mask`, found by scanning up from bit 0; an empty mask
/// has none.
pub fn field_shift_of(mask: u8) -> (r: Result<u8, AccessError>)
    ensures
        mask == 0 ==> r == Err::<u8, AccessError>(AccessError::EmptyMask),
        mask != 0 ==> r == Ok::<u8, AccessError>(field_shift(mask)),
        mask != 0 ==> is_lowest_set_bit(mask, field_shift(mask)),
{
    if mask == 0 {
        return Err(AccessError::EmptyMask);
    }
    let mut rest: u8 = mask;
    let mut shift: u8 = 0;
    proof {
        assert(mask >> 0u8 == mask && ((mask >> 0u8) << 0u8) as u8 == mask)
            by (bit_vector);
    }
    while rest & 1 == 0
        invariant
            shift < 8,
            rest == mask >> shift,
            rest != 0,
            ((mask >> shift) << shift) as u8 == mask,
        decreases 8 - shift,
    {
        proof {
            lemma_scan_step(mask, rest, shift);
        }
        rest = rest >> 1;
        shift = shift + 1;
    }
    proof {
        assert(rest == mask >> shift && rest & 1 != 0 ==> (mask >> shift) & 1 == 1)
            by (bit_vector);
        assert(is_lowest_set_bit(mask, shift));
        lemma_lowest_set_bit_unique(mask, shift, field_shift(mask));
    }
    Ok(shift)
}

/// The new value of a register whose current value is `current` after the field under
/// `mask` is set to `value`.
pub fn update_field(current: u8, mask: u8, value: u8) -> (r: Result<u8, AccessError>)
    ensures
        mask == 0 ==> r == Err::<u8, AccessError>(AccessError::EmptyMask),
        mask != 0 ==> r == Ok::<u8, AccessError>(with_field(current, mask, value)),
{
    let shift = field_shift_of(mask)?;
    let placed: u8 = value << shift;
    Ok((current & !mask) | (placed & mask))
}

/// Setting a field leaves every bit outside its mask as it was, and the bits under the mask
/// hold the shifted value, cut to the mask.
pub proof fn lemma_update_keeps_other_bits(current: u8, mask: u8, value: u8)
    requires
        mask != 0,
    ensures
        with_field(current, mask, value) & !mask == current & !mask,
        with_field(current, mask, value) & mask == ((value << field_shift(mask)) as u8) & mask,
{
    let s = field_shift(mask);
    assert(((current & !mask) | (((value << s) as u8) & mask)) & !mask == current & !mask)
        by (bit_vector);
    assert(((current & !mask) | (((value << s) as u8) & mask)) & mask == ((value << s) as u8)
        & mask) by (bit_vector);
}

/// The 12-bit temperature word: the low nibble of `high` above all of `low`.
pub fn temperature_word(high: u8, low: u8) -> (r: u16)
    ensures
        r == (high % 16) as int * 256 + low as int,
{
    let h: u16 = ((high & 0x0F) as u16) << 8;
    let l: u16 = (low as u16) & 0x00FF;
    proof {
        assert((((high & 0x0F) as u16) << 8) | ((low as u16) & 0x00FF) == (high % 16) as int
            * 256 + low as int) by (bit_vector);
    }
    h | l
}

/// A signed 16-bit axis reading from its low and high byte.
pub fn axis_value(low: u8, high: u8) -> (r: i16)
    ensures
        r == le_i16(low, high),
{
    let word: u16 = ((high as u16) << 8) | (low as u16);
    proof {
        assert(((high as u16) << 8) | (low as u16) == high as u16 * 256 + low as u16)
            by (bit_vector);
    }
    word as i16
}

/// The bytes of a burst read of `n` registers from `addr` on: the framing byte, then `n`
/// filler bytes whose places the device fills with register contents.
pub open spec fn read_request(addr: u8, n: nat) -> Seq<u8> {
    seq![read_command(addr)] + Seq::new(n, |i: int| 0u8)
}

/// The bytes of a read of the single register `reg`.
pub fn read_reg(reg: Register) -> (r: Vec<u8>)
    ensures
        r@ =~= read_request(reg.spec_addr(), 1),
{
    vec![read_frame(reg.addr()), 0]
}

/// The bytes of a burst read of `n` consecutive registers from `reg` on; the device moves to
/// the next register by itself after each byte.
pub fn read_consecutive_regs(reg: Register, n: usize) -> (r: Vec<u8>)
    requires
        n < usize::MAX,
    ensures
        r@ =~= read_request(reg.spec_addr(), n as nat),
{
    let mut bytes: Vec<u8> = Vec::new();
    bytes.push(read_frame(reg.addr()));
    let mut i: usize = 0;
    while i < n
        invariant
            i <= n,
            bytes@ =~= read_request(reg.spec_addr(), i as nat),
        decreases n - i,
    {
        bytes.push(0);
        i = i + 1;
        assert(bytes@ =~= read_request(reg.spec_addr(), i as nat));
    }
    bytes
}

/// The bytes of a write of `value` to `reg`; a read-only register is refused.
pub fn write_reg(reg: Register, value: u8) -> (r: Result<Vec<u8>, AccessError>)
    ensures
        reg.is_read_only() ==> r == Err::<Vec<u8>, AccessError>(AccessError::ReadOnly),
        !reg.is_read_only() ==> (r matches Ok(b) && b@ =~= seq![write_command(reg.spec_addr()), value]),
{
    if reg.read_only() {
        return Err(AccessError::ReadOnly);
    }
    Ok(vec![write_frame(reg.addr()), value])
}

} // verus!
