//! The one-shot identification query and the decoding of its answer.
use vstd::prelude::*;
use vstd::utf8::{decode_utf8, valid_utf8};

verus! {

/// The identification request: header, source and destination addresses,
/// control code 0x01, function code 0x02, an empty payload and the additive
/// checksum.
pub fn id_query() -> (r: Vec<u8>)
    ensures
        r@ == seq![0xaau8, 0x55, 0xc0, 0x7f, 0x01, 0x02, 0x00, 0x02, 0x41],
{
    vec![0xaa, 0x55, 0xc0, 0x7f, 0x01, 0x02, 0x00, 0x02, 0x41]
}

/// What an inverter tells about itself.
pub struct IdResponse {
    pub serial_number: String,
    pub firmware: String,
}

/// Why an identification query failed.
pub enum RequestError {
    /// The transport failed; the text describes how.
    NetworkError(String),
    NoResponse,
    /// The answer was malformed; the text names the part that was wrong.
    InvalidResponse(String),
}

impl RequestError {
    /// A human-readable description of the error.
    pub open spec fn spec_message(&self) -> Seq<char> {
        match self {
            RequestError::NetworkError(e) => "Network Error: "@ + e@,
            RequestError::NoResponse => "No response received"@,
            RequestError::InvalidResponse(reason) => "Response deemed invalid due to "@ + reason@,
        }
    }

    /// A human-readable description of the error.
    pub fn message(&self) -> (r: String)
        ensures
            r@ == self.spec_message(),
    {
        match self {
            RequestError::NetworkError(e) => {
                let mut text = String::from_str("Network Error: ");
                text.append(e.as_str());
                text
            },
            RequestError::NoResponse => String::from_str("No response received"),
            RequestError::InvalidResponse(reason) => {
                let mut text = String::from_str("Response deemed invalid due to ");
                text.append(reason.as_str());
                text
            },
        }
    }
}

pub fn map_network_error(e: String) -> (r: RequestError)
    ensures
        r == RequestError::NetworkError(e),
{
    RequestError::NetworkError(e)
}

/// The total length of an identification answer: seven header bytes, 76
/// payload bytes and the two checksum bytes.
pub const ID_RESPONSE_LEN: usize = 85;

/// Where the 16 bytes of the serial number start.
pub const SERIAL_START: usize = 38;

/// Where the 10 bytes of the firmware version start.
pub const FIRMWARE_START: usize = 71;

/// The part of the answer that the checks reject first, or `None` when the
/// answer has the expected header, addresses, codes and length.
pub open spec fn id_rejection(d: Seq<u8>) -> Option<Seq<char>> {
    if d.len() < 2 || d[0] != 0xaa || d[1] != 0x55 {
        Some("Header"@)
    } else if d.len() < 3 || d[2] != 0x7f {
        Some("Source Address"@)
    } else if d.len() < 4 || d[3] != 0xc0 {
        Some("Target Address"@)
    } else if d.len() < 5 || d[4] != 0x01 {
        Some("Control Code"@)
    } else if d.len() < 6 || d[5] != 0x82 {
        Some("Function Code"@)
    } else if d.len() < 7 || d[6] != 76 || d.len() != ID_RESPONSE_LEN {
        Some("Length"@)
    } else {
        None
    }
}

/// Relies on `String::from_utf8`: the text that the bytes encode when they
/// are valid UTF-8, and an error otherwise.
#[verifier::external_body]
pub(crate) fn utf8_text(bytes: Vec<u8>) -> (r: Option<String>)
    ensures
        r is Some <==> valid_utf8(bytes@),
        r matches Some(s) ==> s@ == decode_utf8(bytes@),
{
    String::from_utf8(bytes).ok()
}

pub(crate) fn copy_range(data: &[u8], start: usize, end: usize) -> (r: Vec<u8>)
    requires
        start <= end <= data@.len(),
    ensures
        r@ == data@.subrange(start as int, end as int),
{
    let mut out: Vec<u8> = Vec::new();
    let mut i: usize = start;
    while i < end
        invariant
            start <= i <= end,
            end <= data@.len(),
            out@ == data@.subrange(start as int, i as int),
        decreases end - i,
    {
        out.push(data[i]);
        i = i + 1;
    }
    out
}

/// Decodes an identification answer: checks its header, addresses, codes and
/// length, then reads the serial number and the firmware version as UTF-8
/// text.
pub fn decode_response(data: &[u8]) -> (r: Result<IdResponse, RequestError>)
    ensures
        match id_rejection(data@) {
            Some(reason) => r matches Err(RequestError::InvalidResponse(t)) && t@ == reason,
            None => {
                let serial = data@.subrange(SERIAL_START as int, SERIAL_START + 16);
                let firmware = data@.subrange(FIRMWARE_START as int, FIRMWARE_START + 10);
                if !valid_utf8(serial) {
                    r matches Err(RequestError::InvalidResponse(t)) && t@ == "Serial Number"@
                } else if !valid_utf8(firmware) {
                    r matches Err(RequestError::InvalidResponse(t)) && t@ == "Firmware"@
                } else {
                    r matches Ok(id) && id.serial_number@ == decode_utf8(serial) && id.firmware@
                        == decode_utf8(firmware)
                }
            },
        },
{
    let n = data.len();
    if n < 2 || data[0] != 0xaa || data[1] != 0x55 {
        return Err(RequestError::InvalidResponse(String::from_str("Header")));
    }
    if n < 3 || data[2] != 0x7f {
        return Err(RequestError::InvalidResponse(String::from_str("Source Address")));
    }
    if n < 4 || data[3] != 0xc0 {
        return Err(RequestError::InvalidResponse(String::from_str("Target Address")));
    }
    if n < 5 || data[4] != 0x01 {
        return Err(RequestError::InvalidResponse(String::from_str("Control Code")));
    }
    if n < 6 || data[5] != 0x82 {
        return Err(RequestError::InvalidResponse(String::from_str("Function Code")));
    }
    if n < 7 || data[6] != 76 || n != ID_RESPONSE_LEN {
        return Err(RequestError::InvalidResponse(String::from_str("Length")));
    }
    let serial_number = match utf8_text(copy_range(data, SERIAL_START, SERIAL_START + 16)) {
        Some(s) => s,
        None => {
            return Err(RequestError::InvalidResponse(String::from_str("Serial Number")));
        },
    };
    let firmware = match utf8_text(copy_range(data, FIRMWARE_START, FIRMWARE_START + 10)) {
        Some(s) => s,
        None => {
            return Err(RequestError::InvalidResponse(String::from_str("Firmware")));
        },
    };
    Ok(IdResponse { serial_number, firmware })
}

} // verus!
