//! The earbuds' answer to the battery request: a command code, a count of
//! entries, and one (role, status) byte pair per connected unit.
use vstd::prelude::*;

use crate::device::{classify, DeviceType};

verus! {

/// Command code of the multi-unit battery report ("battery status 2").
pub const BATTERY_STATUS_2: u16 = 16391;

/// Bit of a status byte that is set while the unit charges.
pub const RECHARGING_MASK: u8 = 0x80;

/// Bits of a status byte that hold the battery percentage.
pub const BATTERY_MASK: u8 = 0x7F;

/// Offset of the little-endian command code in a response.
pub const COMMAND_OFFSET: usize = 3;

/// Offset of the entry count in a response.
pub const COUNT_OFFSET: usize = 8;

/// Offset of the first (role, status) pair in a response.
pub const ENTRIES_OFFSET: usize = 9;

/// Battery state of one unit, as the report gives it.
#[derive(Debug, Clone, Copy, PartialEq, Eq, Structural)]
pub struct DeviceInfo {
    pub device_type: DeviceType,
    pub recharging: bool,
    pub battery_level: u8,
}

/// Why a response yields no battery records.
#[derive(Debug, Clone, Copy, PartialEq, Eq, Structural)]
pub enum DecodeError {
    /// The response carries another command code than the battery report.
    UnexpectedResponse,
    /// The response ends before the bytes that its header announces.
    ShortResponse,
}

/// The command code of a response: bytes 3 and 4, little-endian.
pub open spec fn command_code(s: Seq<u8>) -> int
    recommends
        s.len() >= 5,
{
    s[3] as int + 256 * s[4] as int
}

/// Number of bytes a battery report with `count` entries occupies.
pub open spec fn report_len(count: int) -> int {
    9 + 2 * count
}

/// The record of entry `i` of a battery report.
pub open spec fn entry_of(s: Seq<u8>, i: int) -> DeviceInfo {
    DeviceInfo {
        device_type: classify(s[9 + 2 * i]),
        recharging: s[10 + 2 * i] >= 128,
        battery_level: (s[10 + 2 * i] % 128) as u8,
    }
}

/// What a response decodes to: the report's records in the order the
/// response lists them, or the reason there are none.
pub open spec fn decode_spec(s: Seq<u8>) -> Result<Seq<DeviceInfo>, DecodeError> {
    if s.len() < 5 {
        Err(DecodeError::ShortResponse)
    } else if command_code(s) != BATTERY_STATUS_2 as int {
        Err(DecodeError::UnexpectedResponse)
    } else if s.len() < 9 || s.len() < report_len(s[8] as int) {
        Err(DecodeError::ShortResponse)
    } else {
        Ok(Seq::new(s[8] as nat, |i: int| entry_of(s, i)))
    }
}

/// Battery percentage held in a status byte: its low seven bits.
pub fn battery_level(status: u8) -> (r: u8)
    ensures
        r as int == status as int % 128,
{
    let r = status & BATTERY_MASK;
    assert(status & 0x7F == status % 128) by (bit_vector);
    r
}

/// Whether a status byte says the unit charges: its high bit.
pub fn is_recharging(status: u8) -> (r: bool)
    ensures
        r == (status >= 128),
{
    assert((status & 0x80 == 0x80) == (status >= 128)) by (bit_vector);
    status & RECHARGING_MASK == RECHARGING_MASK
}

/// Reads the little-endian command code of a response.
pub fn read_command(buf: &[u8]) -> (r: u16)
    requires
        buf@.len() >= 5,
    ensures
        r as int == command_code(buf@),
{
    let lo = buf[COMMAND_OFFSET] as u16;
    let hi = buf[COMMAND_OFFSET + 1] as u16;
    lo + hi * 256
}

/// Decodes a battery response into one record per listed unit.
pub fn decode(buf: &[u8]) -> (r: Result<Vec<DeviceInfo>, DecodeError>)
    ensures
        r.is_ok() == decode_spec(buf@).is_ok(),
        r matches Ok(v) ==> decode_spec(buf@) == Ok::<Seq<DeviceInfo>, DecodeError>(v@),
        r matches Err(e) ==> decode_spec(buf@) == Err::<Seq<DeviceInfo>, DecodeError>(e),
        buf@.len() >= 5 && command_code(buf@) != BATTERY_STATUS_2 as int ==> r
            == Err::<Vec<DeviceInfo>, DecodeError>(DecodeError::UnexpectedResponse),
        buf@.len() >= 9 && command_code(buf@) == BATTERY_STATUS_2 as int && buf@[8] == 0 ==> (
        r matches Ok(v) && v@.len() == 0),
{
    if buf.len() < 5 {
        return Err(DecodeError::ShortResponse);
    }
    if read_command(buf) != BATTERY_STATUS_2 {
        return Err(DecodeError::UnexpectedResponse);
    }
    if buf.len() < ENTRIES_OFFSET {
        return Err(DecodeError::ShortResponse);
    }
    let count = buf[COUNT_OFFSET] as usize;
    if buf.len() < ENTRIES_OFFSET + 2 * count {
        return Err(DecodeError::ShortResponse);
    }
    let mut devices: Vec<DeviceInfo> = Vec::new();
    let mut i: usize = 0;
    while i < count
        invariant
            i <= count,
            count == buf@[8],
            buf@.len() >= report_len(count as int),
            devices@ =~= Seq::new(i as nat, |j: int| entry_of(buf@, j)),
        decreases count - i,
    {
        let status = buf[ENTRIES_OFFSET + 1 + 2 * i];
        devices.push(
            DeviceInfo {
                device_type: DeviceType::from(buf[ENTRIES_OFFSET + 2 * i]),
                recharging: is_recharging(status),
                battery_level: battery_level(status),
            },
        );
        i = i + 1;
    }
    Ok(devices)
}

/// Decoding depends on the bytes of the response alone: equal responses
/// decode to equal results.
pub proof fn lemma_decode_deterministic(a: Seq<u8>, b: Seq<u8>)
    requires
        a == b,
    ensures
        decode_spec(a) == decode_spec(b),
{
}

/// Whatever follows the header, a response whose command code is not the
/// battery report's decodes to `UnexpectedResponse`.
pub proof fn lemma_unexpected_response(s: Seq<u8>)
    requires
        s.len() >= 5,
        command_code(s) != BATTERY_STATUS_2 as int,
    ensures
        decode_spec(s) == Err::<Seq<DeviceInfo>, DecodeError>(DecodeError::UnexpectedResponse),
{
}

/// A battery report that lists no unit decodes to no records, not to an error.
pub proof fn lemma_empty_report(s: Seq<u8>)
    requires
        s.len() >= 9,
        command_code(s) == BATTERY_STATUS_2 as int,
        s[8] == 0,
    ensures
        decode_spec(s) == Ok::<Seq<DeviceInfo>, DecodeError>(Seq::<DeviceInfo>::empty()),
{
    assert(Seq::new(0nat, |i: int| entry_of(s, i)) =~= Seq::<DeviceInfo>::empty());
}

} // verus!
