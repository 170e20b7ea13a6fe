//! One poll's outcome: validating the response frame and decoding the catalog
//! out of its payload.
use vstd::prelude::*;

use crate::definitions::{MetricReadError, MetricSet};
use crate::modbus::{frame_error, frame_payload, get_payload, ModbusError};

verus! {

/// Why a poll of a catalog failed.
pub enum MetricsError {
    MetricReadError(MetricReadError),
    ModbusError(ModbusError),
    /// The transport failed; the text describes how.
    NetworkError(String),
}

impl MetricsError {
    /// A human-readable description of the error.
    pub open spec fn spec_message(&self) -> Seq<char> {
        match self {
            MetricsError::MetricReadError(e) => "Metric Read Error: "@ + e.spec_message(),
            MetricsError::NetworkError(e) => "Network Error: "@ + e@,
            MetricsError::ModbusError(e) => "Modbus Error: "@ + e.spec_message(),
        }
    }

    /// A human-readable description of the error.
    pub fn message(&self) -> (r: String)
        ensures
            r@ == self.spec_message(),
    {
        match self {
            MetricsError::MetricReadError(e) => {
                let mut text = String::from_str("Metric Read Error: ");
                text.append(e.message());
                text
            },
            MetricsError::NetworkError(e) => {
                let mut text = String::from_str("Network Error: ");
                text.append(e.as_str());
                text
            },
            MetricsError::ModbusError(e) => {
                let mut text = String::from_str("Modbus Error: ");
                text.append(e.message());
                text
            },
        }
    }
}

pub fn map_network_error(e: String) -> (r: MetricsError)
    ensures
        r == MetricsError::NetworkError(e),
{
    MetricsError::NetworkError(e)
}

pub fn map_modbus_error(e: ModbusError) -> (r: MetricsError)
    ensures
        r == MetricsError::ModbusError(e),
{
    MetricsError::ModbusError(e)
}

/// Takes a received response frame for the catalog's read command: validates
/// it and decodes the catalog out of its payload. A rejected frame leaves the
/// catalog as it was.
pub fn apply_response(ms: &mut MetricSet, frame: &Vec<u8>) -> (r: Result<(), MetricsError>)
    ensures
        match frame_error(frame@) {
            Some(e) => r == Err::<(), MetricsError>(MetricsError::ModbusError(e)) && final(ms)@ == old(ms)@,
            None => {
                let payload = frame_payload(frame@);
                &&& final(ms)@ == old(ms)@.decoded(payload)
                &&& r is Ok <==> old(ms)@.fits_through(old(ms)@.metrics.len() - 1, payload.len())
                &&& r is Err ==> r == Err::<(), MetricsError>(
                    MetricsError::MetricReadError(MetricReadError::OutOfBounds),
                )
            },
        },
{
    match get_payload(frame) {
        Ok(data) => match ms.read_data(data.as_slice()) {
            Ok(()) => Ok(()),
            Err(e) => Err(MetricsError::MetricReadError(e)),
        },
        Err(e) => Err(map_modbus_error(e)),
    }
}

} // verus!
