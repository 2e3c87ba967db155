//! Query encoder, fixed command strings, and response matching.
//!
//! Every query and housekeeping command here is a fixed, CRLF-terminated
//! ASCII string, independent of any parameter state. The `*_bytes` spec
//! functions are the wire contract: the module parses these strings
//! literally.

use vstd::prelude::*;
use crate::config::TransmissionPower;

verus! {

/// The ping / liveness query `AT\r\n`.
pub open spec fn ok_query_bytes() -> Seq<u8> {
    seq![65u8, 84u8, 13u8, 10u8]
}

/// The module's positive acknowledgement `Ok\r\n`.
pub open spec fn ok_response_bytes() -> Seq<u8> {
    seq![79u8, 107u8, 13u8, 10u8]
}

/// The transmission-power query `AT+RP\r\n`.
pub open spec fn power_query_bytes() -> Seq<u8> {
    seq![65u8, 84u8, 43u8, 82u8, 80u8, 13u8, 10u8]
}

/// The firmware-revision query `AT+V\r\n`.
pub open spec fn revision_query_bytes() -> Seq<u8> {
    seq![65u8, 84u8, 43u8, 86u8, 13u8, 10u8]
}

/// The sleep command `AT+SLEEP\r\n`.
pub open spec fn sleep_command_bytes() -> Seq<u8> {
    seq![65u8, 84u8, 43u8, 83u8, 76u8, 69u8, 69u8, 80u8, 13u8, 10u8]
}

/// The factory-reset command `AT+DEFAULT\r\n`.
pub open spec fn reset_settings_command_bytes() -> Seq<u8> {
    seq![65u8, 84u8, 43u8, 68u8, 69u8, 70u8, 65u8, 85u8, 76u8, 84u8, 13u8, 10u8]
}

/// The firmware-update trigger `AT+UPDATE\r\n`.
pub open spec fn update_command_bytes() -> Seq<u8> {
    seq![65u8, 84u8, 43u8, 85u8, 80u8, 68u8, 65u8, 84u8, 69u8, 13u8, 10u8]
}

/// The ping query as a fixed 4-byte buffer.
pub fn ok_query() -> (r: [u8; 4])
    ensures
        r@ == ok_query_bytes(),
{
    let r = [65u8, 84u8, 13u8, 10u8];
    proof {
        assert(r@ =~= ok_query_bytes());
    }
    r
}

/// The expected positive acknowledgement as a fixed 4-byte buffer.
pub fn ok_response() -> (r: [u8; 4])
    ensures
        r@ == ok_response_bytes(),
{
    let r = [79u8, 107u8, 13u8, 10u8];
    proof {
        assert(r@ =~= ok_response_bytes());
    }
    r
}

/// The firmware-revision query as a fixed 6-byte buffer.
pub fn revision_query() -> (r: [u8; 6])
    ensures
        r@ == revision_query_bytes(),
{
    let r = [65u8, 84u8, 43u8, 86u8, 13u8, 10u8];
    proof {
        assert(r@ =~= revision_query_bytes());
    }
    r
}

/// The sleep command as a fixed 10-byte buffer.
pub fn sleep_command() -> (r: [u8; 10])
    ensures
        r@ == sleep_command_bytes(),
{
    let r = [65u8, 84u8, 43u8, 83u8, 76u8, 69u8, 69u8, 80u8, 13u8, 10u8];
    proof {
        assert(r@ =~= sleep_command_bytes());
    }
    r
}

/// The factory-reset command as a fixed 12-byte buffer.
pub fn reset_settings_command() -> (r: [u8; 12])
    ensures
        r@ == reset_settings_command_bytes(),
{
    let r = [65u8, 84u8, 43u8, 68u8, 69u8, 70u8, 65u8, 85u8, 76u8, 84u8, 13u8, 10u8];
    proof {
        assert(r@ =~= reset_settings_command_bytes());
    }
    r
}

/// The firmware-update trigger as a fixed 11-byte buffer.
pub fn update_command() -> (r: [u8; 11])
    ensures
        r@ == update_command_bytes(),
{
    let r = [65u8, 84u8, 43u8, 85u8, 80u8, 68u8, 65u8, 84u8, 69u8, 13u8, 10u8];
    proof {
        assert(r@ =~= update_command_bytes());
    }
    r
}

/// Does a received buffer match the module's `Ok\r\n` acknowledgement
/// exactly, byte for byte?
pub fn is_ok_response(resp: &[u8]) -> (b: bool)
    ensures
        b == (resp@ == ok_response_bytes()),
{
    if resp.len() != 4 {
        return false;
    }
    if resp[0] == 79 && resp[1] == 107 && resp[2] == 13 && resp[3] == 10 {
        proof {
            assert(resp@ =~= ok_response_bytes());
        }
        true
    } else {
        false
    }
}

impl TransmissionPower {
    /// Render the transmission-power query into `buffer`.
    ///
    /// Always writes the fixed 7-byte `AT+RP\r\n`: the query does not
    /// depend on any current parameter value, so it takes none.
    pub fn make_query(buffer: &mut [u8; 7])
        ensures
            final(buffer)@ == power_query_bytes(),
    {
        buffer[0] = 65;
        buffer[1] = 84;
        buffer[2] = 43;
        buffer[3] = 82;
        buffer[4] = 80;
        buffer[5] = 13;
        buffer[6] = 10;
        proof {
            assert(buffer@ =~= power_query_bytes());
        }
    }
}

} // verus!
