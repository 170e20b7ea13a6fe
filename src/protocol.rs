//! The AA55 control protocol: request messages, their frames, and the response
//! types that the inverter answers with.
use vstd::prelude::*;

verus! {

/// The requests of the AA55 protocol, grouped by control code.
#[derive(Clone, Copy, Debug, PartialEq, Eq, Structural)]
pub enum RequestMessage {
    OfflineQuery,
    AllocateRegisterAddress,
    RemoveRegister,
    QueryRunningInfo,
    QueryIdInfo,
    QuerySettingInfo,
    StartInverter,
    StopInverter,
    DisconnectGridAndReconnect,
    AdjustRealPower,
}

/// The responses of the AA55 protocol, grouped by control code.
#[derive(Clone, Copy, Debug, PartialEq, Eq, Structural)]
pub enum ResponseMessage {
    RegisterRequest,
    AddressConfirm,
    RemoveConfirm,
    ResponseRunningInfo,
    ResponseIdInfo,
    ResponseSettingInfo,
    StartInverterResponse,
    StopInverterResponse,
    DisconnectGridAndReconnectResponse,
    AdjustRealPowerResponse,
}

impl RequestMessage {
    /// The control code and function code of the request.
    pub open spec fn spec_value(self) -> (u8, u8) {
        match self {
            RequestMessage::OfflineQuery => (0x00, 0x00),
            RequestMessage::AllocateRegisterAddress => (0x00, 0x01),
            RequestMessage::RemoveRegister => (0x00, 0x02),
            RequestMessage::QueryRunningInfo => (0x01, 0x01),
            RequestMessage::QueryIdInfo => (0x01, 0x02),
            RequestMessage::QuerySettingInfo => (0x01, 0x03),
            RequestMessage::StartInverter => (0x03, 0x1b),
            RequestMessage::StopInverter => (0x03, 0x1c),
            RequestMessage::DisconnectGridAndReconnect => (0x03, 0x1d),
            RequestMessage::AdjustRealPower => (0x03, 0x1e),
        }
    }

    /// The control code and function code of the request.
    pub fn value(&self) -> (r: &[u8])
        ensures
            r@ == seq![self.spec_value().0, self.spec_value().1],
    {
        match self {
            RequestMessage::OfflineQuery => &[0x00, 0x00],
            RequestMessage::AllocateRegisterAddress => &[0x00, 0x01],
            RequestMessage::RemoveRegister => &[0x00, 0x02],
            RequestMessage::QueryRunningInfo => &[0x01, 0x01],
            RequestMessage::QueryIdInfo => &[0x01, 0x02],
            RequestMessage::QuerySettingInfo => &[0x01, 0x03],
            RequestMessage::StartInverter => &[0x03, 0x1b],
            RequestMessage::StopInverter => &[0x03, 0x1c],
            RequestMessage::DisconnectGridAndReconnect => &[0x03, 0x1d],
            RequestMessage::AdjustRealPower => &[0x03, 0x1e],
        }
    }
}

/// The response that a control code and function code (high and low byte)
/// stand for, if any.
pub open spec fn response_of(code: u16) -> Option<ResponseMessage> {
    if code == 0x0080 {
        Some(ResponseMessage::RegisterRequest)
    } else if code == 0x0081 {
        Some(ResponseMessage::AddressConfirm)
    } else if code == 0x0082 {
        Some(ResponseMessage::RemoveConfirm)
    } else if code == 0x0181 {
        Some(ResponseMessage::ResponseRunningInfo)
    } else if code == 0x0182 {
        Some(ResponseMessage::ResponseIdInfo)
    } else if code == 0x0183 {
        Some(ResponseMessage::ResponseSettingInfo)
    } else if code == 0x039b {
        Some(ResponseMessage::StartInverterResponse)
    } else if code == 0x039c {
        Some(ResponseMessage::StopInverterResponse)
    } else if code == 0x039d {
        Some(ResponseMessage::DisconnectGridAndReconnectResponse)
    } else if code == 0x039e {
        Some(ResponseMessage::AdjustRealPowerResponse)
    } else {
        None
    }
}

impl ResponseMessage {
    /// The response for a known code.
    pub fn from(response_type: &u16) -> (r: ResponseMessage)
        requires
            response_of(*response_type) is Some,
        ensures
            response_of(*response_type) == Some(r),
    {
        match ResponseMessage::from_code(*response_type) {
            Some(r) => r,
            None => ResponseMessage::RegisterRequest,
        }
    }

    /// The response for a code, or `None` for an unknown one.
    pub fn from_code(response_type: u16) -> (r: Option<ResponseMessage>)
        ensures
            r == response_of(response_type),
    {
        match response_type {
            0x0080 => Some(ResponseMessage::RegisterRequest),
            0x0081 => Some(ResponseMessage::AddressConfirm),
            0x0082 => Some(ResponseMessage::RemoveConfirm),
            0x0181 => Some(ResponseMessage::ResponseRunningInfo),
            0x0182 => Some(ResponseMessage::ResponseIdInfo),
            0x0183 => Some(ResponseMessage::ResponseSettingInfo),
            0x039b => Some(ResponseMessage::StartInverterResponse),
            0x039c => Some(ResponseMessage::StopInverterResponse),
            0x039d => Some(ResponseMessage::DisconnectGridAndReconnectResponse),
            0x039e => Some(ResponseMessage::AdjustRealPowerResponse),
            _ => None,
        }
    }
}

/// The sum of the bytes.
pub open spec fn byte_sum(b: Seq<u8>) -> int
    decreases b.len(),
{
    if b.len() == 0 {
        0
    } else {
        byte_sum(b.drop_last()) + b.last()
    }
}

/// The head of a request frame: header, source and destination addresses,
/// control and function code, and an empty payload's length.
pub open spec fn request_head(msg: RequestMessage) -> Seq<u8> {
    seq![0xaau8, 0x55, 0xc0, 0x7f, msg.spec_value().0, msg.spec_value().1, 0x00]
}

/// A request frame: its head and the sum of the head's bytes, big-endian.
pub open spec fn request_frame(msg: RequestMessage) -> Seq<u8> {
    let sum = byte_sum(request_head(msg));
    request_head(msg) + seq![(sum / 256) as u8, (sum % 256) as u8]
}

/// Builds the frame of a request.
pub fn build_request(msg: RequestMessage) -> (r: Vec<u8>)
    ensures
        r@ == request_frame(msg),
{
    let mut raw_message: Vec<u8> = vec![0xaa, 0x55, 0xc0, 0x7f];
    let code = msg.value();
    raw_message.push(code[0]);
    raw_message.push(code[1]);
    raw_message.push(0x00);
    assert(raw_message@ =~= request_head(msg));
    let mut checksum: u16 = 0;
    let mut i: usize = 0;
    while i < raw_message.len()
        invariant
            i <= raw_message@.len(),
            raw_message@ == request_head(msg),
            checksum as int == byte_sum(raw_message@.take(i as int)),
            checksum <= 255 * i,
        decreases raw_message.len() - i,
    {
        assert(raw_message@.take(i + 1).drop_last() =~= raw_message@.take(i as int));
        checksum = checksum + raw_message[i] as u16;
        i = i + 1;
    }
    assert(raw_message@.take(raw_message@.len() as int) =~= raw_message@);
    raw_message.push((checksum / 256) as u8);
    raw_message.push((checksum % 256) as u8);
    raw_message
}

/// Why a response could not be decoded.
#[derive(Clone, Copy, Debug, PartialEq, Eq, Structural)]
pub enum DecodeError {
    MessageTypeNotImplemented,
    InvalidHeader,
}

/// Decodes a response: it must start with the `0xAA 0x55` header; no message
/// type is decoded beyond that yet.
pub fn decode_response(data: &[u8]) -> (r: Result<ResponseMessage, DecodeError>)
    ensures
        data@.len() < 2 || data@[0] != 0xaa || data@[1] != 0x55 ==> r == Err::<ResponseMessage, DecodeError>(
            DecodeError::InvalidHeader,
        ),
        !(data@.len() < 2 || data@[0] != 0xaa || data@[1] != 0x55) ==> r == Err::<
            ResponseMessage,
            DecodeError,
        >(DecodeError::MessageTypeNotImplemented),
{
    if data.len() < 2 || data[0] != 0xaa || data[1] != 0x55 {
        return Err(DecodeError::InvalidHeader);
    }
    Err(DecodeError::MessageTypeNotImplemented)
}

} // verus!
