//! Wire codec for the serial power meter.
//!
//! A frame is `[payload bytes..., crc_lo, crc_hi]`: a 16-bit Modbus CRC
//! computed over every byte before the trailing two, appended low byte
//! first. Request frames are built here; response frames are validated
//! and decoded into a [`Data`] reading with fixed decimal scales
//! (voltage in tenths of a volt, current in milliamperes, power in
//! tenths of a watt, energy in watt-hours, frequency in tenths of a
//! hertz, power factor in hundredths).

use vstd::prelude::*;

verus! {

/// Names the 16-bit Modbus CRC of a byte sequence. Its value is fixed
/// by the `crc` crate; nothing else is assumed of it.
pub uninterp spec fn crc16_of(data: Seq<u8>) -> u16;

/// Relies on `crc::Crc::<u16>::checksum` with the `CRC_16_MODBUS`
/// algorithm: the checksum is a function of the input bytes alone.
#[verifier::external_body]
fn crc16_modbus(data: &[u8]) -> (r: u16)
    ensures
        r == crc16_of(data@),
{
    crc::Crc::<u16>::new(&crc::CRC_16_MODBUS).checksum(data)
}

/// Low wire byte of the checksum over `data`.
pub open spec fn crc_lo(data: Seq<u8>) -> u8 {
    (crc16_of(data) % 256) as u8
}

/// High wire byte of the checksum over `data`.
pub open spec fn crc_hi(data: Seq<u8>) -> u8 {
    (crc16_of(data) / 256) as u8
}

/// The frame that carries `payload`: the payload followed by its
/// checksum, low byte first.
pub open spec fn frame_of(payload: Seq<u8>) -> Seq<u8> {
    payload.push(crc_lo(payload)).push(crc_hi(payload))
}

/// Whether the trailing two bytes of `f` hold the checksum of
/// everything before them.
pub open spec fn crc_ok(f: Seq<u8>) -> bool
    recommends
        f.len() >= 4,
{
    &&& f[f.len() - 2] == crc_lo(f.take(f.len() - 2))
    &&& f[f.len() - 1] == crc_hi(f.take(f.len() - 2))
}

/// Overwrites the last two bytes of `buf` with the checksum of the
/// bytes before them, low byte first.
pub fn crc_write(buf: &mut Vec<u8>)
    requires
        old(buf)@.len() >= 4,
    ensures
        final(buf)@ == frame_of(old(buf)@.take(old(buf)@.len() - 2)),
        final(buf)@.len() == old(buf)@.len(),
{
    let n: usize = buf.len();
    let c: u16 = crc16_modbus(&buf.as_slice()[0..n - 2]);
    buf.pop();
    buf.pop();
    buf.push((c % 256) as u8);
    buf.push((c / 256) as u8);
    proof {
        assert(old(buf)@.take(old(buf)@.len() - 2) =~= old(buf)@.subrange(
            0,
            old(buf)@.len() - 2,
        ));
        assert(buf@ =~= frame_of(old(buf)@.take(old(buf)@.len() - 2)));
    }
}

/// Appends the checksum of `buf` to it, low byte first.
pub fn append_crc(buf: &mut Vec<u8>)
    requires
        old(buf)@.len() >= 2,
    ensures
        final(buf)@ == frame_of(old(buf)@),
{
    let n: usize = buf.len();
    let c: u16 = crc16_modbus(&buf.as_slice()[0..n]);
    proof {
        assert(old(buf)@.subrange(0, old(buf)@.len() as int) =~= old(buf)@);
    }
    buf.push((c % 256) as u8);
    buf.push((c / 256) as u8);
}

/// Returns whether the trailing two bytes of `buf` hold the checksum
/// of the bytes before them.
pub fn crc_is_valid(buf: &[u8]) -> (r: bool)
    requires
        buf@.len() >= 4,
    ensures
        r == crc_ok(buf@),
{
    let n: usize = buf.len();
    let c: u16 = crc16_modbus(&buf[0..n - 2]);
    proof {
        assert(buf@.subrange(0, buf@.len() - 2) =~= buf@.take(buf@.len() - 2));
    }
    buf[n - 2] == (c % 256) as u8 && buf[n - 1] == (c / 256) as u8
}

/// Appending a checksum yields a frame that validates and whose
/// payload is recovered by stripping the trailing two bytes.
pub proof fn lemma_crc_round_trip(payload: Seq<u8>)
    requires
        payload.len() >= 2,
    ensures
        crc_ok(frame_of(payload)),
        frame_of(payload).take(frame_of(payload).len() - 2) == payload,
        frame_of(payload).len() == payload.len() + 2,
{
    assert(frame_of(payload).take(frame_of(payload).len() - 2) =~= payload);
}

/// A frame whose checksum bytes are tampered with no longer validates.
pub proof fn lemma_crc_detects_tampered_checksum(f: Seq<u8>, i: int, b: u8)
    requires
        f.len() >= 4,
        crc_ok(f),
        f.len() - 2 <= i < f.len(),
        b != f[i],
    ensures
        !crc_ok(f.update(i, b)),
{
    assert(f.update(i, b).take(f.len() - 2) =~= f.take(f.len() - 2));
}

/// One decoded meter reading, in fixed decimal scales: tenths of a
/// volt, milliamperes, tenths of a watt, watt-hours, tenths of a
/// hertz, hundredths for the power factor.
#[derive(Debug, Clone, Copy, PartialEq, Eq, Structural)]
pub struct Data {
    pub voltage_dv: u16,
    pub current_ma: u32,
    pub power_dw: u32,
    pub energy_wh: u32,
    pub frequency_dhz: u16,
    pub power_factor_c: u16,
    pub alarm: u16,
}

/// Why a response frame was rejected, or why a turn-on attempt failed.
#[derive(Debug, Clone, Copy, PartialEq, Eq, Structural)]
pub enum DeviceError {
    /// A serial read or write failed or timed out.
    TransportIo,
    /// The device answered with its own error code instead of data.
    DeviceCode(u8),
    /// The response announced a payload length other than the one requested.
    WrongByteCount(u8),
    /// The response checksum did not match its bytes.
    Checksum,
    /// The energy counter read back nonzero right after a reset.
    ResetVerification,
}

/// Big-endian 16-bit value of two bytes.
pub open spec fn be16(a: u8, b: u8) -> int {
    a * 256 + b
}

/// Big-endian 32-bit value of four bytes.
pub open spec fn be32(a: u8, b: u8, c: u8, d: u8) -> int {
    a * 16777216 + b * 65536 + c * 256 + d
}

/// The reading held by a 20-byte register block. The 32-bit fields
/// arrive with their high word after their low word: byte pairs
/// (4,5)+(2,3) for current, (8,9)+(6,7) for power, (12,13)+(10,11)
/// for energy.
pub open spec fn reading_of(p: Seq<u8>) -> Data
    recommends
        p.len() == 20,
{
    Data {
        voltage_dv: be16(p[0], p[1]) as u16,
        current_ma: be32(p[4], p[5], p[2], p[3]) as u32,
        power_dw: be32(p[8], p[9], p[6], p[7]) as u32,
        energy_wh: be32(p[12], p[13], p[10], p[11]) as u32,
        frequency_dhz: be16(p[14], p[15]) as u16,
        power_factor_c: be16(p[16], p[17]) as u16,
        alarm: be16(p[18], p[19]) as u16,
    }
}

fn be_u16(a: u8, b: u8) -> (r: u16)
    ensures
        r == be16(a, b),
{
    (a as u16) * 256 + (b as u16)
}

fn be_u32(a: u8, b: u8, c: u8, d: u8) -> (r: u32)
    ensures
        r == be32(a, b, c, d),
{
    (a as u32) * 16777216 + (b as u32) * 65536 + (c as u32) * 256 + (d as u32)
}

/// The read request for registers 0 through 9 of device 1.
pub fn build_read_request() -> (r: Vec<u8>)
    ensures
        r@ == frame_of(seq![0x01u8, 0x04u8, 0x00u8, 0x00u8, 0x00u8, 0x0Au8]),
        r@.len() == 8,
{
    let mut v: Vec<u8> = Vec::new();
    v.push(0x01);
    v.push(0x04);
    v.push(0x00);
    v.push(0x00);
    v.push(0x00);
    v.push(0x0A);
    proof {
        assert(v@ =~= seq![0x01u8, 0x04u8, 0x00u8, 0x00u8, 0x00u8, 0x0Au8]);
    }
    append_crc(&mut v);
    v
}

/// The request that resets the device's energy counter.
pub fn build_reset_energy_request() -> (r: Vec<u8>)
    ensures
        r@ == frame_of(seq![0x01u8, 0x42u8]),
        r@.len() == 4,
{
    let mut v: Vec<u8> = Vec::new();
    v.push(0x01);
    v.push(0x42);
    proof {
        assert(v@ =~= seq![0x01u8, 0x42u8]);
    }
    append_crc(&mut v);
    v
}

/// Checks the 4-byte acknowledgement of a reset request: the function
/// byte must echo the request and the checksum must match.
pub fn decode_reset_ack(resp: &[u8]) -> (r: Result<(), DeviceError>)
    requires
        resp@.len() == 4,
    ensures
        r is Ok <==> (resp@[1] == 0x42 && crc_ok(resp@)),
        resp@[1] != 0x42 ==> r == Result::<(), DeviceError>::Err(DeviceError::DeviceCode(resp@[2])),
        resp@[1] == 0x42 && !crc_ok(resp@) ==> r == Result::<(), DeviceError>::Err(
            DeviceError::Checksum,
        ),
{
    if resp[1] != 0x42 {
        return Err(DeviceError::DeviceCode(resp[2]));
    }
    if !crc_is_valid(resp) {
        return Err(DeviceError::Checksum);
    }
    Ok(())
}

/// Decodes a 25-byte read response: address, echoed function byte,
/// announced payload length of 20, the register block, checksum.
pub fn decode_read_response(resp: &[u8]) -> (r: Result<Data, DeviceError>)
    requires
        resp@.len() == 25,
    ensures
        r is Ok <==> (resp@[1] == 0x04 && resp@[2] == 20 && crc_ok(resp@)),
        r matches Ok(d) ==> d == reading_of(resp@.subrange(3, 23)),
        resp@[1] != 0x04 ==> r == Result::<Data, DeviceError>::Err(
            DeviceError::DeviceCode(resp@[2]),
        ),
        resp@[1] == 0x04 && resp@[2] != 20 ==> r == Result::<Data, DeviceError>::Err(
            DeviceError::WrongByteCount(resp@[2]),
        ),
        resp@[1] == 0x04 && resp@[2] == 20 && !crc_ok(resp@) ==> r == Result::<
            Data,
            DeviceError,
        >::Err(DeviceError::Checksum),
{
    if resp[1] != 0x04 {
        return Err(DeviceError::DeviceCode(resp[2]));
    }
    if resp[2] != 20 {
        return Err(DeviceError::WrongByteCount(resp[2]));
    }
    if !crc_is_valid(resp) {
        return Err(DeviceError::Checksum);
    }
    let p: &[u8] = &resp[3..23];
    let d = Data {
        voltage_dv: be_u16(p[0], p[1]),
        current_ma: be_u32(p[4], p[5], p[2], p[3]),
        power_dw: be_u32(p[8], p[9], p[6], p[7]),
        energy_wh: be_u32(p[12], p[13], p[10], p[11]),
        frequency_dhz: be_u16(p[14], p[15]),
        power_factor_c: be_u16(p[16], p[17]),
        alarm: be_u16(p[18], p[19]),
    };
    Ok(d)
}

/// High byte of a 16-bit value.
pub open spec fn u16_hi(x: u16) -> u8 {
    (x / 256) as u8
}

/// Low byte of a 16-bit value.
pub open spec fn u16_lo(x: u16) -> u8 {
    (x % 256) as u8
}

/// Byte `i` of a 32-bit value, counting from the least significant.
pub open spec fn u32_byte(x: u32, i: int) -> u8
    recommends
        0 <= i < 4,
{
    if i == 0 {
        (x % 256) as u8
    } else if i == 1 {
        ((x / 256) % 256) as u8
    } else if i == 2 {
        ((x / 65536) % 256) as u8
    } else {
        (x / 16777216) as u8
    }
}

/// The 20-byte register block that encodes a reading, with the
/// device's interleave of the 32-bit fields.
pub open spec fn payload_of(d: Data) -> Seq<u8> {
    seq![
        u16_hi(d.voltage_dv),
        u16_lo(d.voltage_dv),
        u32_byte(d.current_ma, 1),
        u32_byte(d.current_ma, 0),
        u32_byte(d.current_ma, 3),
        u32_byte(d.current_ma, 2),
        u32_byte(d.power_dw, 1),
        u32_byte(d.power_dw, 0),
        u32_byte(d.power_dw, 3),
        u32_byte(d.power_dw, 2),
        u32_byte(d.energy_wh, 1),
        u32_byte(d.energy_wh, 0),
        u32_byte(d.energy_wh, 3),
        u32_byte(d.energy_wh, 2),
        u16_hi(d.frequency_dhz),
        u16_lo(d.frequency_dhz),
        u16_hi(d.power_factor_c),
        u16_lo(d.power_factor_c),
        u16_hi(d.alarm),
        u16_lo(d.alarm),
    ]
}

/// Reassembling the two bytes of a 16-bit value gives it back.
proof fn lemma_be16_round_trip(x: u16)
    ensures
        be16(u16_hi(x), u16_lo(x)) == x,
{
}

/// Reassembling the four bytes of a 32-bit value gives it back.
proof fn lemma_be32_round_trip(x: u32)
    ensures
        be32(u32_byte(x, 3), u32_byte(x, 2), u32_byte(x, 1), u32_byte(x, 0)) == x,
{
    assert(x == (x / 16777216) * 16777216 + ((x / 65536) % 256) * 65536 + ((x / 256) % 256) * 256
        + x % 256) by (nonlinear_arith);
}

/// Decoding the register block that encodes a reading recovers every
/// field of it.
pub proof fn lemma_reading_round_trip(d: Data)
    ensures
        reading_of(payload_of(d)) == d,
{
    lemma_be16_round_trip(d.voltage_dv);
    lemma_be32_round_trip(d.current_ma);
    lemma_be32_round_trip(d.power_dw);
    lemma_be32_round_trip(d.energy_wh);
    lemma_be16_round_trip(d.frequency_dhz);
    lemma_be16_round_trip(d.power_factor_c);
    lemma_be16_round_trip(d.alarm);
}

fn u16_bytes(x: u16) -> (r: (u8, u8))
    ensures
        r.0 == u16_hi(x),
        r.1 == u16_lo(x),
{
    ((x / 256) as u8, (x % 256) as u8)
}

fn u32_byte_exec(x: u32, i: u32) -> (r: u8)
    requires
        i < 4,
    ensures
        r == u32_byte(x, i as int),
{
    if i == 0 {
        (x % 256) as u8
    } else if i == 1 {
        ((x / 256) % 256) as u8
    } else if i == 2 {
        ((x / 65536) % 256) as u8
    } else {
        (x / 16777216) as u8
    }
}

/// Builds the full 25-byte response frame a device would send for the
/// reading `d`: header, register block, checksum. Decoding it yields
/// `d` again.
pub fn encode_read_response(d: &Data) -> (r: Vec<u8>)
    ensures
        r@ == frame_of(seq![0x01u8, 0x04u8, 20u8] + payload_of(*d)),
        r@.len() == 25,
        crc_ok(r@),
        r@.subrange(3, 23) == payload_of(*d),
        reading_of(r@.subrange(3, 23)) == *d,
{
    let mut v: Vec<u8> = Vec::new();
    v.push(0x01);
    v.push(0x04);
    v.push(20);
    let (vh, vl) = u16_bytes(d.voltage_dv);
    v.push(vh);
    v.push(vl);
    v.push(u32_byte_exec(d.current_ma, 1));
    v.push(u32_byte_exec(d.current_ma, 0));
    v.push(u32_byte_exec(d.current_ma, 3));
    v.push(u32_byte_exec(d.current_ma, 2));
    v.push(u32_byte_exec(d.power_dw, 1));
    v.push(u32_byte_exec(d.power_dw, 0));
    v.push(u32_byte_exec(d.power_dw, 3));
    v.push(u32_byte_exec(d.power_dw, 2));
    v.push(u32_byte_exec(d.energy_wh, 1));
    v.push(u32_byte_exec(d.energy_wh, 0));
    v.push(u32_byte_exec(d.energy_wh, 3));
    v.push(u32_byte_exec(d.energy_wh, 2));
    let (fh, fl) = u16_bytes(d.frequency_dhz);
    v.push(fh);
    v.push(fl);
    let (ph, pl) = u16_bytes(d.power_factor_c);
    v.push(ph);
    v.push(pl);
    let (ah, al) = u16_bytes(d.alarm);
    v.push(ah);
    v.push(al);
    proof {
        assert(v@ =~= seq![0x01u8, 0x04u8, 20u8] + payload_of(*d));
    }
    append_crc(&mut v);
    proof {
        lemma_crc_round_trip(seq![0x01u8, 0x04u8, 20u8] + payload_of(*d));
        assert(v@.subrange(3, 23) =~= payload_of(*d));
        lemma_reading_round_trip(*d);
    }
    v
}

} // verus!
