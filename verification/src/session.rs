use vstd::prelude::*;
use vstd::string::StringExecFns;

verus! {

/// The fixed symbol rate of every session.
pub const FIXED_BAUD_RATE: u32 = 115200;

/// The fixed read timeout: short, so that a read is a bounded poll and
/// a silent device never stalls the loop.
pub const READ_TIMEOUT_MILLIS: u64 = 10;

/// The fixed delay between transmit and receive, allowing a slow device
/// time to respond.
pub const RESPONSE_DELAY_MILLIS: u64 = 10;

/// The fixed size of the receive buffer.
pub const RECEIVE_BUFFER_BYTES: usize = 4096;

/// The fixed data-bits framing: eight data bits per symbol.
pub enum DataBitsSetting {
    Eight,
}

/// The fixed stop-bits framing: one stop bit per symbol.
pub enum StopBitsSetting {
    One,
}

/// Everything the session opener applies to the named port. Immutable
/// once constructed; every communication parameter is fixed by policy.
pub struct SessionConfig {
    pub port_name: String,
    pub baud_rate: u32,
    pub data_bits: DataBitsSetting,
    pub stop_bits: StopBitsSetting,
    pub read_timeout_millis: u64,
}

impl SessionConfig {
    /// Configure a session on the named port with the fixed parameters:
    /// 115200 baud, eight data bits, one stop bit, a ten-millisecond
    /// read timeout.
    pub fn new(port_name: String) -> (config: SessionConfig)
        ensures
            config.port_name == port_name,
            config.baud_rate == FIXED_BAUD_RATE,
            config.data_bits is Eight,
            config.stop_bits is One,
            config.read_timeout_millis == READ_TIMEOUT_MILLIS,
    {
        SessionConfig {
            port_name,
            baud_rate: FIXED_BAUD_RATE,
            data_bits: DataBitsSetting::Eight,
            stop_bits: StopBitsSetting::One,
            read_timeout_millis: READ_TIMEOUT_MILLIS,
        }
    }
}

/// A fresh, zeroed receive buffer of the fixed size.
pub fn receive_buffer() -> (buffer: Vec<u8>)
    ensures
        buffer@.len() == RECEIVE_BUFFER_BYTES,
        forall|i: int| 0 <= i < buffer@.len() ==> buffer@[i] == 0u8,
{
    let mut buffer: Vec<u8> = Vec::new();
    let mut i: usize = 0;
    while i < RECEIVE_BUFFER_BYTES
        invariant
            i <= RECEIVE_BUFFER_BYTES,
            buffer@.len() == i,
            forall|k: int| 0 <= k < buffer@.len() ==> buffer@[k] == 0u8,
        decreases RECEIVE_BUFFER_BYTES - i,
    {
        buffer.push(0u8);
        i = i + 1;
    }
    buffer
}

/// What a fatal open failure reports: the failed port's name and the
/// underlying cause, so the operator can diagnose it.
pub open spec fn open_failure_view(port_name: Seq<char>, cause: Seq<char>) -> Seq<char> {
    "Failed to open \""@ + port_name + "\". Error: "@ + cause
}

/// Render the report for a port that could not be opened.
pub fn open_failure_message(port_name: &str, cause: &str) -> (s: String)
    ensures
        s@ == open_failure_view(port_name@, cause@),
{
    String::from_str("Failed to open \"").concat(port_name).concat("\". Error: ").concat(cause)
}

} // verus!
