//! The Modbus-style framing: the CRC-16 checksum, read commands and the
//! validation of response frames.
use vstd::prelude::*;

verus! {

/// The communication address that the inverter answers on.
pub const DEFAULT_ADDR: u8 = 0xf7;

/// The CRC-16/MODBUS checksum (polynomial 0xA001 reflected, initial value
/// 0xFFFF) of a byte sequence.
pub uninterp spec fn modbus_crc(data: Seq<u8>) -> u16;

/// Relies on `crc16::State::<crc16::MODBUS>::calculate`: the CRC-16/MODBUS value
/// of the bytes, which depends on the bytes alone.
#[verifier::external_body]
fn modbus_crc16(data: &[u8]) -> (r: u16)
    ensures
        r == modbus_crc(data@),
{
    crc16::State::<crc16::MODBUS>::calculate(data)
}

/// The two bytes of a 16-bit value, low byte first.
pub open spec fn le_bytes(v: u16) -> Seq<u8> {
    seq![(v % 256) as u8, (v / 256) as u8]
}

/// The checksum of `data` as it is appended to a frame: low byte first.
pub fn crc(data: &[u8]) -> (r: Vec<u8>)
    ensures
        r@ == le_bytes(modbus_crc(data@)),
{
    let checksum = modbus_crc16(data);
    let mut retval: Vec<u8> = Vec::new();
    retval.push((checksum % 256) as u8);
    retval.push((checksum / 256) as u8);
    retval
}


/// The Modbus function codes that the inverter understands.
#[derive(Clone, Copy, Debug, PartialEq, Eq, Structural)]
pub enum Command {
    ReadMulti,
    WriteSingle,
    WriteMulti,
}

impl Command {
    /// The function code on the wire.
    pub open spec fn spec_code(self) -> u8 {
        match self {
            Command::ReadMulti => 0x03,
            Command::WriteSingle => 0x06,
            Command::WriteMulti => 0x10,
        }
    }

    /// The function code on the wire.
    pub fn code(&self) -> (r: u8)
        ensures
            r == self.spec_code(),
    {
        match self {
            Command::ReadMulti => 0x03,
            Command::WriteSingle => 0x06,
            Command::WriteMulti => 0x10,
        }
    }
}

/// The six bytes of a command before its checksum: address, function code,
/// then register and parameter, each big-endian.
pub open spec fn command_head(code: u8, addr: u8, reg: u16, param: u16) -> Seq<u8> {
    seq![addr, code, (reg / 256) as u8, (reg % 256) as u8, (param / 256) as u8, (param % 256) as u8]
}

/// A complete command: its six head bytes followed by their checksum, low byte
/// first.
pub open spec fn command_frame(code: u8, addr: u8, reg: u16, param: u16) -> Seq<u8> {
    command_head(code, addr, reg, param) + le_bytes(modbus_crc(command_head(code, addr, reg, param)))
}

/// Builds the eight bytes of a command for device `addr`: function `cmd` on
/// register `reg` with parameter `param` (for a read, the number of registers).
pub fn create_command(cmd: Command, addr: u8, reg: u16, param: u16) -> (r: Vec<u8>)
    ensures
        r@ == command_frame(cmd.spec_code(), addr, reg, param),
        r@.len() == 8,
{
    let mut data: Vec<u8> = Vec::new();
    data.push(addr);
    data.push(cmd.code());
    data.push((reg / 256) as u8);
    data.push((reg % 256) as u8);
    data.push((param / 256) as u8);
    data.push((param % 256) as u8);
    assert(data@ == command_head(cmd.spec_code(), addr, reg, param));
    let mut checksum = crc(data.as_slice());
    data.append(&mut checksum);
    data
}

/// Why a response frame was rejected.
#[derive(Clone, Copy, Debug, PartialEq, Eq, Structural)]
pub enum ModbusError {
    InvalidHeader,
    WrongChecksum,
    FailedCommand,
    PayloadLength,
}

impl ModbusError {
    /// A human-readable description of the error.
    pub open spec fn spec_message(self) -> Seq<char> {
        match self {
            ModbusError::InvalidHeader => "Invalid Header"@,
            ModbusError::WrongChecksum => "CRC-16 checksum wrong, data was corrupted"@,
            ModbusError::FailedCommand => "Command failed"@,
            ModbusError::PayloadLength => "Indicated payload length does not match actual length"@,
        }
    }

    /// A human-readable description of the error.
    pub fn message(&self) -> (r: &'static str)
        ensures
            r@ == self.spec_message(),
    {
        match self {
            ModbusError::InvalidHeader => "Invalid Header",
            ModbusError::WrongChecksum => "CRC-16 checksum wrong, data was corrupted",
            ModbusError::FailedCommand => "Command failed",
            ModbusError::PayloadLength => "Indicated payload length does not match actual length",
        }
    }
}

/// The span of a frame that its checksum covers: everything between the two
/// header bytes and the two checksum bytes.
pub open spec fn checked_span(f: Seq<u8>) -> Seq<u8> {
    if f.len() >= 4 {
        f.subrange(2, f.len() - 2)
    } else {
        Seq::empty()
    }
}

/// The frame's last two bytes hold `crc`, low byte first.
pub open spec fn checksum_matches(f: Seq<u8>, crc: u16) -> bool {
    &&& f.len() >= 4
    &&& f.subrange(f.len() - 2, f.len() as int) == le_bytes(crc)
}

/// The frame's checksum verifies: the last two bytes hold the checksum of the
/// checked span (the frame without its two header bytes), low byte first.
pub open spec fn checksum_ok(f: Seq<u8>) -> bool {
    checksum_matches(f, modbus_crc(checked_span(f)))
}

/// The declared payload length matches what follows the length byte, less the
/// two checksum bytes.
pub open spec fn length_ok(f: Seq<u8>) -> bool {
    f.len() >= 5 && f[4] as int == f.len() - 7
}

/// The first check that the frame fails, when `span_crc` is the checksum of
/// its checked span, in the order checksum, header, command flag, length;
/// `None` for a valid frame.
pub open spec fn frame_check(f: Seq<u8>, span_crc: u16) -> Option<ModbusError> {
    if !checksum_matches(f, span_crc) {
        Some(ModbusError::WrongChecksum)
    } else if f[0] != 0xaa || f[1] != 0x55 {
        Some(ModbusError::InvalidHeader)
    } else if f[3] >= 0x80 {
        Some(ModbusError::FailedCommand)
    } else if !length_ok(f) {
        Some(ModbusError::PayloadLength)
    } else {
        None
    }
}

/// The first check that the frame fails; `None` for a valid frame.
pub open spec fn frame_error(f: Seq<u8>) -> Option<ModbusError> {
    frame_check(f, modbus_crc(checked_span(f)))
}

/// The payload of a frame: the bytes between the length byte and the checksum.
pub open spec fn frame_payload(f: Seq<u8>) -> Seq<u8> {
    f.subrange(5, f.len() - 2)
}

/// Validates a response frame whose checked span has the checksum `span_crc`
/// and returns its payload, or the first check that failed.
pub fn check_frame(data: &[u8], span_crc: u16) -> (r: Result<Vec<u8>, ModbusError>)
    ensures
        match r {
            Ok(payload) => frame_check(data@, span_crc) is None && payload@ == frame_payload(data@),
            Err(e) => frame_check(data@, span_crc) == Some(e),
        },
{
    let len = data.len();
    if len < 4 || data[len - 2] as u16 != span_crc % 256 || data[len - 1] as u16 != span_crc / 256 {
        proof {
            if len >= 4 {
                assert(data@.subrange(len - 2, len as int)[0] == data@[len - 2]);
                assert(data@.subrange(len - 2, len as int)[1] == data@[len - 1]);
            }
        }
        return Err(ModbusError::WrongChecksum);
    }
    assert(data@.subrange(len - 2, len as int) =~= le_bytes(span_crc));
    if data[0] != 0xaa || data[1] != 0x55 {
        return Err(ModbusError::InvalidHeader);
    }
    if data[3] >= 0x80 {
        return Err(ModbusError::FailedCommand);
    }
    if len < 5 || data[4] as usize + 7 != len {
        return Err(ModbusError::PayloadLength);
    }
    let mut payload: Vec<u8> = Vec::new();
    let mut j: usize = 5;
    while j < len - 2
        invariant
            5 <= j <= len - 2,
            len == data@.len(),
            payload@ == data@.subrange(5, j as int),
        decreases len - j,
    {
        payload.push(data[j]);
        j = j + 1;
    }
    Ok(payload)
}

/// Validates a response frame `[0xAA][0x55][address][command][length]
/// [payload][crc_lo][crc_hi]` and returns its payload, or the first check that
/// failed.
pub fn get_payload(data: &Vec<u8>) -> (r: Result<Vec<u8>, ModbusError>)
    ensures
        match r {
            Ok(payload) => frame_error(data@) is None && payload@ == frame_payload(data@),
            Err(e) => frame_error(data@) == Some(e),
        },
{
    let len = data.len();
    let mut checked: Vec<u8> = Vec::new();
    if len >= 4 {
        let mut i: usize = 2;
        while i < len - 2
            invariant
                2 <= i <= len - 2,
                len == data@.len(),
                checked@ == data@.subrange(2, i as int),
            decreases len - i,
        {
            checked.push(data[i]);
            i = i + 1;
        }
    }
    assert(checked@ =~= checked_span(data@));
    check_frame(data.as_slice(), modbus_crc16(checked.as_slice()))
}

} // verus!
