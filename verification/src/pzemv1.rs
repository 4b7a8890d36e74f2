//! Codec for the earlier meter revision: fixed 7-byte request and
//! response packets whose last byte is an additive checksum — the
//! wrapping 8-bit sum of the first five bytes. Fields arrive as an
//! integer byte plus a tenths byte (voltage, current) or as two
//! little-endian bytes (power).

use vstd::prelude::*;

verus! {

/// The wrapping 8-bit sum of a byte sequence.
pub open spec fn wrap_sum(s: Seq<u8>) -> u8
    decreases s.len(),
{
    if s.len() == 0 {
        0
    } else {
        ((wrap_sum(s.drop_last()) + s.last()) % 256) as u8
    }
}

/// The wrapping 8-bit sum of `data`.
pub fn wrapping_checksum(data: &[u8]) -> (r: u8)
    ensures
        r == wrap_sum(data@),
{
    let n: usize = data.len();
    let mut acc: u8 = 0;
    let mut i: usize = 0;
    proof {
        assert(data@.take(0) =~= Seq::<u8>::empty());
    }
    while i < n
        invariant
            i <= n,
            n == data@.len(),
            acc == wrap_sum(data@.take(i as int)),
        decreases n - i,
    {
        let next: u16 = (acc as u16) + (data[i] as u16);
        acc = (next % 256) as u8;
        i = i + 1;
        proof {
            assert(data@.take(i as int).drop_last() =~= data@.take(i - 1));
            assert(data@.take(i as int).last() == data@[i - 1]);
        }
    }
    proof {
        assert(data@.take(n as int) =~= data@);
    }
    acc
}

/// Whether the checksum byte of a 7-byte packet matches the wrapping
/// sum of its first five bytes.
pub fn response_checksum_ok(resp: &[u8]) -> (r: bool)
    requires
        resp@.len() == 7,
    ensures
        r == (resp@[6] == wrap_sum(resp@.take(5))),
{
    let sum: u8 = wrapping_checksum(&resp[0..5]);
    proof {
        assert(resp@.subrange(0, 5) =~= resp@.take(5));
    }
    resp[6] == sum
}

/// The request packet that asks for the voltage reading.
pub fn read_voltage_request() -> (r: Vec<u8>)
    ensures
        r@ == seq![0xB0u8, 0xC0u8, 0xA8u8, 0x01u8, 0x01u8, 0x00u8, 0x1Au8],
{
    let mut v: Vec<u8> = Vec::new();
    v.push(0xB0);
    v.push(0xC0);
    v.push(0xA8);
    v.push(0x01);
    v.push(0x01);
    v.push(0x00);
    v.push(0x1A);
    proof {
        assert(v@ =~= seq![0xB0u8, 0xC0u8, 0xA8u8, 0x01u8, 0x01u8, 0x00u8, 0x1Au8]);
    }
    v
}

/// The request packet that asks for the current reading.
pub fn read_current_request() -> (r: Vec<u8>)
    ensures
        r@ == seq![0xB1u8, 0xC0u8, 0xA8u8, 0x01u8, 0x01u8, 0x00u8, 0x1Bu8],
{
    let mut v: Vec<u8> = Vec::new();
    v.push(0xB1);
    v.push(0xC0);
    v.push(0xA8);
    v.push(0x01);
    v.push(0x01);
    v.push(0x00);
    v.push(0x1B);
    proof {
        assert(v@ =~= seq![0xB1u8, 0xC0u8, 0xA8u8, 0x01u8, 0x01u8, 0x00u8, 0x1Bu8]);
    }
    v
}

/// The request packet that asks for the power reading.
pub fn read_power_request() -> (r: Vec<u8>)
    ensures
        r@ == seq![0xB2u8, 0xC0u8, 0xA8u8, 0x01u8, 0x01u8, 0x00u8, 0x1Cu8],
{
    let mut v: Vec<u8> = Vec::new();
    v.push(0xB2);
    v.push(0xC0);
    v.push(0xA8);
    v.push(0x01);
    v.push(0x01);
    v.push(0x00);
    v.push(0x1C);
    proof {
        assert(v@ =~= seq![0xB2u8, 0xC0u8, 0xA8u8, 0x01u8, 0x01u8, 0x00u8, 0x1Cu8]);
    }
    v
}

/// The voltage carried by a response, in tenths of a volt: an integer
/// byte and a tenths byte.
pub fn parse_voltage_response(resp: &[u8]) -> (r: u16)
    requires
        resp@.len() == 7,
    ensures
        r == resp@[2] * 10 + resp@[3],
{
    (resp[2] as u16) * 10 + (resp[3] as u16)
}

/// The current carried by a response, in tenths of an ampere: an
/// integer byte and a tenths byte.
pub fn parse_current_response(resp: &[u8]) -> (r: u16)
    requires
        resp@.len() == 7,
    ensures
        r == resp@[2] * 10 + resp@[3],
{
    (resp[2] as u16) * 10 + (resp[3] as u16)
}

/// The power carried by a response, in watts: two little-endian
/// bytes, low byte third on the wire.
pub fn parse_power_response(resp: &[u8]) -> (r: u32)
    requires
        resp@.len() == 7,
    ensures
        r == resp@[2] + resp@[1] * 256,
{
    (resp[2] as u32) + (resp[1] as u32) * 256
}

} // verus!
