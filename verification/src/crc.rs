//! The CRC-16 checksum (polynomial 0x1021, initial value 0, no reflection,
//! the XMODEM variant) that closes every encoded key, stored little-endian.
use vstd::prelude::*;

verus! {

/// One shift of the checksum register by one bit.
pub open spec fn crc16_shift(crc: u16) -> u16 {
    if crc & 0x8000u16 == 0 {
        crc << 1u16
    } else {
        (crc << 1u16) ^ 0x1021u16
    }
}

/// `n` shifts of the checksum register.
pub open spec fn crc16_shifts(crc: u16, n: nat) -> u16
    decreases n,
{
    if n == 0 {
        crc
    } else {
        crc16_shifts(crc16_shift(crc), (n - 1) as nat)
    }
}

/// The register after one more byte.
pub open spec fn crc16_update(crc: u16, byte: u8) -> u16 {
    crc16_shifts(crc ^ ((byte as u16) << 8u16), 8)
}

/// The checksum of a byte sequence.
pub open spec fn crc16_of(data: Seq<u8>) -> u16
    decreases data.len(),
{
    if data.len() == 0 {
        0
    } else {
        crc16_update(crc16_of(data.drop_last()), data.last())
    }
}

/// The two bytes of a checksum, low byte first.
pub open spec fn crc_bytes(crc: u16) -> Seq<u8> {
    seq![(crc & 0xffu16) as u8, (crc >> 8u16) as u8]
}

/// The checksum read from two bytes, low byte first.
pub open spec fn crc_from_bytes(low: u8, high: u8) -> u16 {
    ((high as u16) << 8u16) | (low as u16)
}

/// A payload followed by its checksum.
pub open spec fn with_checksum(payload: Seq<u8>) -> Seq<u8> {
    payload + crc_bytes(crc16_of(payload))
}

/// The payload of a frame whose last two bytes are the checksum of the rest,
/// or `None` where they are not.
pub open spec fn strip_checksum(frame: Seq<u8>) -> Option<Seq<u8>> {
    if frame.len() < 2 {
        None
    } else {
        let payload = frame.subrange(0, frame.len() - 2);
        if crc16_of(payload) == crc_from_bytes(frame[frame.len() - 2], frame[frame.len() - 1]) {
            Some(payload)
        } else {
            None
        }
    }
}

/// Computes the checksum of `data`.
pub fn crc16(data: &[u8]) -> (crc: u16)
    ensures
        crc == crc16_of(data@),
{
    let mut crc: u16 = 0;
    let mut i: usize = 0;
    while i < data.len()
        invariant
            i <= data.len(),
            crc == crc16_of(data@.take(i as int)),
        decreases data.len() - i,
    {
        let byte = data[i];
        let ghost before = crc;
        let mut reg: u16 = crc ^ ((byte as u16) << 8u16);
        let mut k: usize = 0;
        while k < 8
            invariant
                k <= 8,
                crc16_shifts(reg, (8 - k) as nat) == crc16_update(before, byte),
            decreases 8 - k,
        {
            let next: u16 = if reg & 0x8000u16 == 0 {
                reg << 1u16
            } else {
                (reg << 1u16) ^ 0x1021u16
            };
            assert(next == crc16_shift(reg));
            reg = next;
            k = k + 1;
        }
        crc = reg;
        assert(data@.take(i + 1).drop_last() =~= data@.take(i as int));
        i = i + 1;
    }
    assert(data@.take(data.len() as int) =~= data@);
    crc
}

/// Appends the checksum of `data` to it, low byte first.
pub fn push_crc(data: &mut Vec<u8>)
    ensures
        final(data)@ == with_checksum(old(data)@),
{
    let crc = crc16(data.as_slice());
    data.push((crc & 0xffu16) as u8);
    data.push((crc >> 8u16) as u8);
    assert(final(data)@ =~= with_checksum(old(data)@));
}

/// Removes the last two bytes of `data` and returns them read as a checksum,
/// low byte first.
pub fn extract_crc(data: &mut Vec<u8>) -> (crc: u16)
    requires
        old(data)@.len() >= 2,
    ensures
        final(data)@ == old(data)@.subrange(0, old(data)@.len() - 2),
        crc == crc_from_bytes(old(data)@[old(data)@.len() - 2], old(data)@[old(data)@.len() - 1]),
{
    let high = data.pop().unwrap();
    let low = data.pop().unwrap();
    assert(final(data)@ =~= old(data)@.subrange(0, old(data)@.len() - 2));
    ((high as u16) << 8u16) | (low as u16)
}

/// Whether `expected` is the checksum of `data`.
pub fn valid_checksum(data: &[u8], expected: u16) -> (valid: bool)
    ensures
        valid == (crc16_of(data@) == expected),
{
    crc16(data) == expected
}

/// A checksum written as two bytes reads back as itself.
pub proof fn lemma_crc_bytes_round_trip(crc: u16)
    ensures
        crc_from_bytes(crc_bytes(crc)[0], crc_bytes(crc)[1]) == crc,
{
    assert((((((crc >> 8u16) as u8) as u16) << 8u16) | (((crc & 0xffu16) as u8) as u16)) == crc)
        by (bit_vector);
}

/// Stripping the checksum from a payload followed by its checksum gives back
/// the payload.
pub proof fn lemma_checksum_round_trip(payload: Seq<u8>)
    ensures
        strip_checksum(with_checksum(payload)) == Some(payload),
{
    let frame = with_checksum(payload);
    assert(frame.subrange(0, frame.len() - 2) =~= payload);
    lemma_crc_bytes_round_trip(crc16_of(payload));
}

} // verus!
