//! Set-command encoder.
//!
//! Each parameter kind renders into a byte-exact, CRLF-terminated ASCII
//! command written at offset 0 of a caller-supplied 16-byte buffer; the
//! encoder returns the command length, never writes past it, and never
//! allocates. The `*_command_bytes` spec functions below are the wire
//! contract itself: the module parses these strings literally.

use vstd::prelude::*;
use crate::config::{
    BaudRate, Channel, ChannelError, TransmissionPower, fu2_legal_baud, spec_fu2_set_baud,
    spec_set_channel_code, valid_channel_code,
};
use crate::Error;

verus! {

/// Runtime selector for the four operating modes, used to render the
/// mode set-command.
#[derive(Clone, Copy, Debug, PartialEq, Eq, Structural)]
pub enum Mode {
    /// Operating mode FU1.
    Fu1,
    /// Operating mode FU2.
    Fu2,
    /// Operating mode FU3.
    Fu3,
    /// Operating mode FU4.
    Fu4,
}

/// ASCII code of the decimal digit `d`.
pub open spec fn ascii_digit(d: int) -> u8 {
    (48 + d) as u8
}

/// The baud-rate set-command `AT+B<bps>\r\n`, with `<bps>` the decimal
/// baud value, no leading zeros.
pub open spec fn baud_command_bytes(rate: BaudRate) -> Seq<u8> {
    match rate {
        BaudRate::Bps1200 => seq![65u8, 84u8, 43u8, 66u8, 49u8, 50u8, 48u8, 48u8, 13u8, 10u8],
        BaudRate::Bps2400 => seq![65u8, 84u8, 43u8, 66u8, 50u8, 52u8, 48u8, 48u8, 13u8, 10u8],
        BaudRate::Bps4800 => seq![65u8, 84u8, 43u8, 66u8, 52u8, 56u8, 48u8, 48u8, 13u8, 10u8],
        BaudRate::Bps9600 => seq![65u8, 84u8, 43u8, 66u8, 57u8, 54u8, 48u8, 48u8, 13u8, 10u8],
        BaudRate::Bps19200 => seq![
            65u8, 84u8, 43u8, 66u8, 49u8, 57u8, 50u8, 48u8, 48u8, 13u8, 10u8,
        ],
        BaudRate::Bps38400 => seq![
            65u8, 84u8, 43u8, 66u8, 51u8, 56u8, 52u8, 48u8, 48u8, 13u8, 10u8,
        ],
        BaudRate::Bps57600 => seq![
            65u8, 84u8, 43u8, 66u8, 53u8, 55u8, 54u8, 48u8, 48u8, 13u8, 10u8,
        ],
        BaudRate::Bps115200 => seq![
            65u8, 84u8, 43u8, 66u8, 49u8, 49u8, 53u8, 50u8, 48u8, 48u8, 13u8, 10u8,
        ],
    }
}

/// The channel set-command `AT+C<ddd>\r\n`, with `<ddd>` the channel
/// code zero-padded to exactly three decimal digits.
pub open spec fn channel_command_bytes(code: u8) -> Seq<u8> {
    seq![
        65u8,
        84u8,
        43u8,
        67u8,
        ascii_digit(code as int / 100),
        ascii_digit((code as int / 10) % 10),
        ascii_digit(code as int % 10),
        13u8,
        10u8,
    ]
}

/// The mode set-command `AT+FU<n>\r\n`, with `<n>` the mode numeral.
pub open spec fn mode_command_bytes(mode: Mode) -> Seq<u8> {
    match mode {
        Mode::Fu1 => seq![65u8, 84u8, 43u8, 70u8, 85u8, 49u8, 13u8, 10u8],
        Mode::Fu2 => seq![65u8, 84u8, 43u8, 70u8, 85u8, 50u8, 13u8, 10u8],
        Mode::Fu3 => seq![65u8, 84u8, 43u8, 70u8, 85u8, 51u8, 13u8, 10u8],
        Mode::Fu4 => seq![65u8, 84u8, 43u8, 70u8, 85u8, 52u8, 13u8, 10u8],
    }
}

/// The power set-command `AT+P<n>\r\n`, with `<n>` the raw power code,
/// a single digit, no padding.
pub open spec fn power_command_bytes(code: u8) -> Seq<u8> {
    seq![65u8, 84u8, 43u8, 80u8, ascii_digit(code as int), 13u8, 10u8]
}

/// Every legal channel code is accepted by the setter, and its rendered
/// set-command is `AT+C`, then exactly the three-digit zero-padded
/// decimal of the code, then CRLF: the three digit bytes are ASCII
/// digits and decode back to the code itself.
pub proof fn lemma_channel_set_and_render(ch: u8)
    requires
        valid_channel_code(ch),
    ensures
        spec_set_channel_code(ch, ch).0 == Ok::<(), ChannelError>(()),
        channel_command_bytes(ch).len() == 9,
        channel_command_bytes(ch)[0] == 65u8,
        channel_command_bytes(ch)[1] == 84u8,
        channel_command_bytes(ch)[2] == 43u8,
        channel_command_bytes(ch)[3] == 67u8,
        forall|i: int| 4 <= i < 7 ==> 48 <= #[trigger] channel_command_bytes(ch)[i] <= 57,
        (channel_command_bytes(ch)[4] - 48) * 100 + (channel_command_bytes(ch)[5] - 48) * 10 + (
        channel_command_bytes(ch)[6] - 48) == ch,
        channel_command_bytes(ch)[7] == 13u8,
        channel_command_bytes(ch)[8] == 10u8,
{
    assert((ch as int / 10) / 10 == ch as int / 100) by (nonlinear_arith);
    assert(ch as int == (ch as int / 100) * 100 + ((ch as int / 10) % 10) * 10 + ch as int % 10)
        by (nonlinear_arith);
}

/// Round-trip idempotence for the channel: re-setting a channel to the
/// code it already holds succeeds, stores the same code, and so renders
/// the identical wire command.
pub proof fn lemma_channel_reset_idempotent(cur: u8)
    requires
        valid_channel_code(cur),
    ensures
        spec_set_channel_code(cur, cur) == (Ok::<(), ChannelError>(()), cur),
        channel_command_bytes(spec_set_channel_code(cur, cur).1) == channel_command_bytes(cur),
{
}

/// Round-trip idempotence for the FU2 baud rate: re-setting a rate that
/// FU2 already legally holds succeeds, stores the same rate, and so
/// renders the identical wire command. (In FU1 and FU3 the setter
/// succeeds unconditionally, so the same holds by its contract alone.)
pub proof fn lemma_fu2_reset_baud_idempotent(cur: BaudRate)
    requires
        fu2_legal_baud(cur),
    ensures
        spec_fu2_set_baud(cur, cur) == (Ok::<(), Error>(()), cur),
        baud_command_bytes(spec_fu2_set_baud(cur, cur).1) == baud_command_bytes(cur),
{
}

impl BaudRate {
    /// Render the set-command for this baud rate into `buffer`.
    ///
    /// Writes `AT+B<bps>\r\n` at offset 0, returns its length, and
    /// leaves the bytes past it untouched.
    pub fn make_command(&self, buffer: &mut [u8; 16]) -> (n: usize)
        ensures
            n == baud_command_bytes(*self).len(),
            final(buffer)@.subrange(0, n as int) == baud_command_bytes(*self),
            forall|i: int| n <= i < 16 ==> final(buffer)@[i] == old(buffer)@[i],
    {
        buffer[0] = 65;
        buffer[1] = 84;
        buffer[2] = 43;
        buffer[3] = 66;
        let digits: usize = match self {
            BaudRate::Bps1200 => {
                buffer[4] = 49;
                buffer[5] = 50;
                buffer[6] = 48;
                buffer[7] = 48;
                4
            },
            BaudRate::Bps2400 => {
                buffer[4] = 50;
                buffer[5] = 52;
                buffer[6] = 48;
                buffer[7] = 48;
                4
            },
            BaudRate::Bps4800 => {
                buffer[4] = 52;
                buffer[5] = 56;
                buffer[6] = 48;
                buffer[7] = 48;
                4
            },
            BaudRate::Bps9600 => {
                buffer[4] = 57;
                buffer[5] = 54;
                buffer[6] = 48;
                buffer[7] = 48;
                4
            },
            BaudRate::Bps19200 => {
                buffer[4] = 49;
                buffer[5] = 57;
                buffer[6] = 50;
                buffer[7] = 48;
                buffer[8] = 48;
                5
            },
            BaudRate::Bps38400 => {
                buffer[4] = 51;
                buffer[5] = 56;
                buffer[6] = 52;
                buffer[7] = 48;
                buffer[8] = 48;
                5
            },
            BaudRate::Bps57600 => {
                buffer[4] = 53;
                buffer[5] = 55;
                buffer[6] = 54;
                buffer[7] = 48;
                buffer[8] = 48;
                5
            },
            BaudRate::Bps115200 => {
                buffer[4] = 49;
                buffer[5] = 49;
                buffer[6] = 53;
                buffer[7] = 50;
                buffer[8] = 48;
                buffer[9] = 48;
                6
            },
        };
        buffer[4 + digits] = 13;
        buffer[5 + digits] = 10;
        proof {
            assert(buffer@.subrange(0, 6 + digits as int) =~= baud_command_bytes(*self));
        }
        6 + digits
    }
}

impl Channel {
    /// Render the set-command for this channel into `buffer`.
    ///
    /// Writes `AT+C<ddd>\r\n` (three-digit zero-padded code) at offset
    /// 0, returns its length 9, and leaves the bytes past it untouched.
    pub fn make_command(&self, buffer: &mut [u8; 16]) -> (n: usize)
        ensures
            n == 9,
            final(buffer)@.subrange(0, 9) == channel_command_bytes(self.code()),
            forall|i: int| 9 <= i < 16 ==> final(buffer)@[i] == old(buffer)@[i],
    {
        let code = self.get_code();
        buffer[0] = 65;
        buffer[1] = 84;
        buffer[2] = 43;
        buffer[3] = 67;
        buffer[4] = 48 + code / 100;
        buffer[5] = 48 + (code / 10) % 10;
        buffer[6] = 48 + code % 10;
        buffer[7] = 13;
        buffer[8] = 10;
        proof {
            assert(buffer@.subrange(0, 9) =~= channel_command_bytes(self.code()));
        }
        9
    }
}

impl Mode {
    /// Render the set-command for this operating mode into `buffer`.
    ///
    /// Writes `AT+FU<n>\r\n` at offset 0, returns its length 8, and
    /// leaves the bytes past it untouched.
    pub fn make_command(&self, buffer: &mut [u8; 16]) -> (n: usize)
        ensures
            n == 8,
            final(buffer)@.subrange(0, 8) == mode_command_bytes(*self),
            forall|i: int| 8 <= i < 16 ==> final(buffer)@[i] == old(buffer)@[i],
    {
        buffer[0] = 65;
        buffer[1] = 84;
        buffer[2] = 43;
        buffer[3] = 70;
        buffer[4] = 85;
        buffer[5] = match self {
            Mode::Fu1 => 49,
            Mode::Fu2 => 50,
            Mode::Fu3 => 51,
            Mode::Fu4 => 52,
        };
        buffer[6] = 13;
        buffer[7] = 10;
        proof {
            assert(buffer@.subrange(0, 8) =~= mode_command_bytes(*self));
        }
        8
    }
}

impl TransmissionPower {
    /// Render the set-command for this power setting into `buffer`.
    ///
    /// Writes `AT+P<n>\r\n` (single-digit code, no padding) at offset
    /// 0, returns its length 7, and leaves the bytes past it untouched.
    pub fn make_command(&self, buffer: &mut [u8; 16]) -> (n: usize)
        ensures
            n == 7,
            final(buffer)@.subrange(0, 7) == power_command_bytes(self.code()),
            forall|i: int| 7 <= i < 16 ==> final(buffer)@[i] == old(buffer)@[i],
    {
        let code = self.get_code();
        buffer[0] = 65;
        buffer[1] = 84;
        buffer[2] = 43;
        buffer[3] = 80;
        buffer[4] = 48 + code;
        buffer[5] = 13;
        buffer[6] = 10;
        proof {
            assert(buffer@.subrange(0, 7) =~= power_command_bytes(self.code()));
        }
        7
    }
}

} // verus!

