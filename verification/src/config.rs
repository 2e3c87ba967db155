//! Validated parameter types and the mode-indexed parameter set.

use vstd::prelude::*;
use crate::Error;
use core::marker::PhantomData;

verus! {

/// Is `ch` a legal radio channel code? The module accepts channels
/// `1..=127`; `0` and everything from `128` up are rejected.
pub open spec fn valid_channel_code(ch: u8) -> bool {
    1 <= ch <= 127
}

/// Channel validation failure; carries the rejected code.
#[derive(Clone, Copy, Debug, PartialEq, Eq, Structural)]
pub enum ChannelError {
    /// The code was `0` or `>= 128`.
    InvalidChannel(u8),
}

/// The crate-wide error a channel failure maps to.
pub open spec fn error_of_channel_error(v: ChannelError) -> Error {
    match v {
        ChannelError::InvalidChannel(ch) => Error::InvalidChannel(ch),
    }
}

impl From<ChannelError> for Error {
    fn from(v: ChannelError) -> (r: Self)
        ensures
            r == error_of_channel_error(v),
    {
        match v {
            ChannelError::InvalidChannel(ch) => Error::InvalidChannel(ch),
        }
    }
}

impl vstd::std_specs::convert::FromSpecImpl<ChannelError> for Error {
    open spec fn obeys_from_spec() -> bool {
        true
    }

    open spec fn from_spec(v: ChannelError) -> Error {
        error_of_channel_error(v)
    }
}

/// Outcome of the channel setter on stored code `cur` and requested
/// code `ch`: a legal code replaces the stored one, an illegal code is
/// rejected and the stored one stays.
pub open spec fn spec_set_channel_code(cur: u8, ch: u8) -> (Result<(), ChannelError>, u8) {
    if valid_channel_code(ch) {
        (Ok(()), ch)
    } else {
        (Err(ChannelError::InvalidChannel(ch)), cur)
    }
}

/// A radio channel, always holding a code in `1..=127`.
///
/// Values outside that range are not constructible: the validated
/// constructor and setter are the only gates, and both fail closed.
#[derive(Clone, Copy, Debug)]
pub struct Channel(u8);

impl Channel {
    #[verifier::type_invariant]
    spec fn inv(self) -> bool {
        valid_channel_code(self.0)
    }

    /// The raw channel code carried by this value.
    pub closed spec fn code(self) -> u8 {
        self.0
    }

    /// Read back the raw code. Every constructible channel carries a
    /// code in `1..=127`, and the contract certifies that.
    pub fn get_code(&self) -> (r: u8)
        ensures
            r == self.code(),
            valid_channel_code(self.code()),
    {
        proof {
            use_type_invariant(self);
        }
        self.0
    }

    /// Validated constructor: accepts exactly the codes `1..=127`.
    pub fn new(ch: u8) -> (r: Result<Channel, ChannelError>)
        ensures
            valid_channel_code(ch) ==> (r matches Ok(c) && c.code() == ch),
            !valid_channel_code(ch) ==> r == Err::<Channel, ChannelError>(
                ChannelError::InvalidChannel(ch),
            ),
    {
        if ch != 0 && ch < 128 {
            Ok(Channel(ch))
        } else {
            Err(ChannelError::InvalidChannel(ch))
        }
    }

    /// Validated setter: on a legal code mutates in place, otherwise
    /// rejects with `InvalidChannel` and leaves the old value untouched.
    pub fn set_channel(&mut self, ch: u8) -> (r: Result<(), ChannelError>)
        ensures
            (r, final(self).code()) == spec_set_channel_code(old(self).code(), ch),
            valid_channel_code(ch) ==> r == Ok::<(), ChannelError>(())
                && final(self).code() == ch,
            !valid_channel_code(ch) ==> r == Err::<(), ChannelError>(
                ChannelError::InvalidChannel(ch),
            ) && *final(self) == *old(self),
    {
        if ch != 0 && ch < 128 {
            self.0 = ch;
            Ok(())
        } else {
            Err(ChannelError::InvalidChannel(ch))
        }
    }

    /// Carrier frequency in tenths of a megahertz: the module's band
    /// starts at 433.0 MHz and steps 0.4 MHz per channel.
    pub fn get_freq_tenth_mhz(&self) -> (r: u16)
        ensures
            r == 4330 + 4 * self.code(),
    {
        proof {
            use_type_invariant(self);
        }
        4330 + 4 * (self.0 as u16)
    }
}

impl Default for Channel {
    /// The module powers up on channel 1.
    fn default() -> (r: Self)
        ensures
            r.code() == 1,
    {
        Channel(1)
    }
}

/// The eight UART baud rates the module supports. Which of them a given
/// operating mode accepts is decided by that mode's parameter set.
#[derive(Clone, Copy, Debug, PartialEq, Eq, Structural)]
pub enum BaudRate {
    /// 1200 bps
    Bps1200,
    /// 2400 bps
    Bps2400,
    /// 4800 bps
    Bps4800,
    /// 9600 bps
    Bps9600,
    /// 19200 bps
    Bps19200,
    /// 38400 bps
    Bps38400,
    /// 57600 bps
    Bps57600,
    /// 115200 bps
    Bps115200,
}

impl Default for BaudRate {
    /// The module powers up at 9600 bps.
    fn default() -> (r: Self)
        ensures
            r == BaudRate::Bps9600,
    {
        BaudRate::Bps9600
    }
}

/// The five over-the-air symbol rates. Not user-settable: each one is
/// derived from the pair of operating mode and UART baud rate.
#[derive(Clone, Copy, Debug, PartialEq, Eq, Structural)]
pub enum AirBaudRate {
    /// 5000 bps over the air
    Bps5000,
    /// 15000 bps over the air
    Bps15000,
    /// 58000 bps over the air
    Bps58000,
    /// 236000 bps over the air
    Bps236000,
    /// 250000 bps over the air
    Bps250000,
}

/// Receiver sensitivity in dBm at each air rate, per the module's
/// datasheet table.
///
/// The datasheet gives no figure for `Bps250000`; the `-100` entry is an
/// extrapolation from the neighbouring rates, not an authoritative value.
pub open spec fn spec_wireless_sensitivity_dbm(air_rate: AirBaudRate) -> i32 {
    match air_rate {
        AirBaudRate::Bps5000 => -117i32,
        AirBaudRate::Bps15000 => -117i32,
        AirBaudRate::Bps58000 => -112i32,
        AirBaudRate::Bps236000 => -100i32,
        AirBaudRate::Bps250000 => -100i32,
    }
}

/// Minimum receive signal power, in dBm, at which the module still
/// demodulates reliably at the given air rate.
pub fn get_wireless_sensitivity_dbm(air_rate: AirBaudRate) -> (r: i32)
    ensures
        r == spec_wireless_sensitivity_dbm(air_rate),
{
    match air_rate {
        AirBaudRate::Bps5000 => -117,
        AirBaudRate::Bps15000 => -117,
        AirBaudRate::Bps58000 => -112,
        AirBaudRate::Bps236000 => -100,
        AirBaudRate::Bps250000 => -100,
    }
}

/// Is `code` a legal transmission-power code? The module's power table
/// has exactly the entries `1..=8`.
pub open spec fn valid_power_code(code: u8) -> bool {
    1 <= code <= 8
}

/// Output power in dBm for each power code `1..=8`, per the module's
/// fixed lookup table.
pub open spec fn spec_power_dbm(code: u8) -> i8 {
    if code == 1 {
        -1i8
    } else if code == 2 {
        2
    } else if code == 3 {
        5
    } else if code == 4 {
        8
    } else if code == 5 {
        11
    } else if code == 6 {
        14
    } else if code == 7 {
        17
    } else {
        20
    }
}

/// Output power in hundredths of a milliwatt for each power code
/// `1..=8`: the dBm column of the same table converted to linear power.
pub open spec fn spec_power_milliwatt_hundredths(code: u8) -> u32 {
    if code == 1 {
        79
    } else if code == 2 {
        158
    } else if code == 3 {
        316
    } else if code == 4 {
        631
    } else if code == 5 {
        1259
    } else if code == 6 {
        2512
    } else if code == 7 {
        5012
    } else {
        10000
    }
}

/// A transmission-power setting, always holding a code in `1..=8`.
///
/// The validated constructor is the only gate; a value outside the table
/// is not constructible, so the table lookups are total.
#[derive(Clone, Copy, Debug)]
pub struct TransmissionPower(u8);

impl TransmissionPower {
    #[verifier::type_invariant]
    spec fn inv(self) -> bool {
        valid_power_code(self.0)
    }

    /// The raw power code carried by this value.
    pub closed spec fn code(self) -> u8 {
        self.0
    }

    /// Read back the raw code. Every constructible power setting carries
    /// a code in `1..=8`, and the contract certifies that.
    pub fn get_code(&self) -> (r: u8)
        ensures
            r == self.code(),
            valid_power_code(self.code()),
    {
        proof {
            use_type_invariant(self);
        }
        self.0
    }

    /// Validated constructor: accepts exactly the codes `1..=8`.
    pub fn new(code: u8) -> (r: Option<TransmissionPower>)
        ensures
            valid_power_code(code) ==> (r matches Some(p) && p.code() == code),
            !valid_power_code(code) ==> r is None,
    {
        if 1 <= code && code <= 8 {
            Some(TransmissionPower(code))
        } else {
            None
        }
    }

    /// Output power in dBm: a pure lookup in the module's power table.
    pub fn get_power_dbm(&self) -> (r: i8)
        ensures
            r == spec_power_dbm(self.code()),
    {
        proof {
            use_type_invariant(self);
        }
        match self.0 {
            1 => -1,
            2 => 2,
            3 => 5,
            4 => 8,
            5 => 11,
            6 => 14,
            7 => 17,
            8 => 20,
            _ => unreached(),
        }
    }

    /// Output power in hundredths of a milliwatt: the same table's dBm
    /// column converted to linear power.
    pub fn get_power_milliwatt_hundredths(&self) -> (r: u32)
        ensures
            r == spec_power_milliwatt_hundredths(self.code()),
    {
        proof {
            use_type_invariant(self);
        }
        match self.0 {
            1 => 79,
            2 => 158,
            3 => 316,
            4 => 631,
            5 => 1259,
            6 => 2512,
            7 => 5012,
            8 => 10000,
            _ => unreached(),
        }
    }
}

impl Default for TransmissionPower {
    /// The module powers up at maximum power, code 8 (20 dBm).
    fn default() -> (r: Self)
        ensures
            r.code() == 8,
    {
        TransmissionPower(8)
    }
}

/// Marker type for operating mode FU1 (moderate power saving).
pub struct Fu1;

/// Marker type for operating mode FU2 (power saving).
pub struct Fu2;

/// Marker type for operating mode FU3 (full speed, the power-up default).
pub struct Fu3;

/// Marker type for operating mode FU4 (ultra-long distance).
///
/// The datasheet documents no baud-rate legality or air-rate derivation
/// for FU4, so a parameter set carrying this tag has no baud-rate
/// capability here: nothing is invented.
pub struct Fu4;

/// The UART baud rates mode FU2 accepts: the three lowest only.
pub open spec fn fu2_legal_baud(rate: BaudRate) -> bool {
    rate == BaudRate::Bps1200 || rate == BaudRate::Bps2400 || rate == BaudRate::Bps4800
}

/// Outcome of the FU2 baud-rate setter on stored rate `cur` and
/// requested rate `rate`: a legal rate replaces the stored one, any
/// other is rejected with `InvalidBaudRate` and the stored one stays.
pub open spec fn spec_fu2_set_baud(cur: BaudRate, rate: BaudRate) -> (Result<(), Error>, BaudRate) {
    if fu2_legal_baud(rate) {
        (Ok(()), rate)
    } else {
        (Err(Error::InvalidBaudRate), cur)
    }
}

/// Air rate derived from the UART baud rate in mode FU3: the module
/// groups the eight baud rates into four air-rate tiers.
pub open spec fn fu3_air_rate(rate: BaudRate) -> AirBaudRate {
    match rate {
        BaudRate::Bps1200 => AirBaudRate::Bps5000,
        BaudRate::Bps2400 => AirBaudRate::Bps5000,
        BaudRate::Bps4800 => AirBaudRate::Bps15000,
        BaudRate::Bps9600 => AirBaudRate::Bps15000,
        BaudRate::Bps19200 => AirBaudRate::Bps58000,
        BaudRate::Bps38400 => AirBaudRate::Bps58000,
        BaudRate::Bps57600 => AirBaudRate::Bps236000,
        BaudRate::Bps115200 => AirBaudRate::Bps236000,
    }
}

/// The parameter bundle for one module connection, tagged at the type
/// level with the operating mode `M` that its validation rules follow.
///
/// Switching modes means constructing a new instance: the tag is a
/// compile-time discriminant, not a runtime field.
pub struct Parameters<M> {
    /// Current UART baud rate.
    pub baud_rate: BaudRate,
    /// Current radio channel.
    pub channel: Channel,
    /// Current transmission power.
    pub power: TransmissionPower,
    /// Zero-sized mode tag.
    pub mode: PhantomData<M>,
}

impl Parameters<Fu1> {
    /// In FU1 every supported baud rate is legal; the call always
    /// succeeds and changes nothing but the baud rate.
    pub fn set_baud_rate(&mut self, rate: BaudRate) -> (r: Result<(), Error>)
        ensures
            r == Ok::<(), Error>(()),
            final(self).baud_rate == rate,
            final(self).channel == old(self).channel,
            final(self).power == old(self).power,
    {
        self.baud_rate = rate;
        Ok(())
    }

    /// In FU1 the air rate is pinned at 250000 bps whatever the baud
    /// rate.
    pub fn get_air_baud_rate(&self) -> (r: AirBaudRate)
        ensures
            r == AirBaudRate::Bps250000,
    {
        AirBaudRate::Bps250000
    }
}

impl Parameters<Fu2> {
    /// In FU2 only 1200, 2400 and 4800 bps are legal. A legal rate is
    /// stored; any other is rejected with `InvalidBaudRate` and the
    /// whole bundle is left untouched.
    pub fn set_baud_rate(&mut self, rate: BaudRate) -> (r: Result<(), Error>)
        ensures
            (r, final(self).baud_rate) == spec_fu2_set_baud(old(self).baud_rate, rate),
            fu2_legal_baud(rate) ==> r == Ok::<(), Error>(())
                && final(self).baud_rate == rate
                && final(self).channel == old(self).channel
                && final(self).power == old(self).power,
            !fu2_legal_baud(rate) ==> r == Err::<(), Error>(Error::InvalidBaudRate)
                && *final(self) == *old(self),
    {
        match rate {
            BaudRate::Bps1200 | BaudRate::Bps2400 | BaudRate::Bps4800 => {},
            _ => {
                return Err(Error::InvalidBaudRate);
            },
        }
        self.baud_rate = rate;
        Ok(())
    }

    /// In FU2 the air rate is pinned at 250000 bps whatever the baud
    /// rate.
    pub fn get_air_baud_rate(&self) -> (r: AirBaudRate)
        ensures
            r == AirBaudRate::Bps250000,
    {
        AirBaudRate::Bps250000
    }
}

impl Parameters<Fu3> {
    /// In FU3 every supported baud rate is legal; the call always
    /// succeeds and changes nothing but the baud rate.
    pub fn set_baud_rate(&mut self, rate: BaudRate) -> (r: Result<(), Error>)
        ensures
            r == Ok::<(), Error>(()),
            final(self).baud_rate == rate,
            final(self).channel == old(self).channel,
            final(self).power == old(self).power,
    {
        self.baud_rate = rate;
        Ok(())
    }

    /// In FU3 the air rate follows the current baud rate through the
    /// fixed four-tier mapping.
    pub fn get_air_baud_rate(&self) -> (r: AirBaudRate)
        ensures
            r == fu3_air_rate(self.baud_rate),
    {
        match self.baud_rate {
            BaudRate::Bps1200 => AirBaudRate::Bps5000,
            BaudRate::Bps2400 => AirBaudRate::Bps5000,
            BaudRate::Bps4800 => AirBaudRate::Bps15000,
            BaudRate::Bps9600 => AirBaudRate::Bps15000,
            BaudRate::Bps19200 => AirBaudRate::Bps58000,
            BaudRate::Bps38400 => AirBaudRate::Bps58000,
            BaudRate::Bps57600 => AirBaudRate::Bps236000,
            BaudRate::Bps115200 => AirBaudRate::Bps236000,
        }
    }
}

impl Default for Parameters<Fu3> {
    /// The module's power-up state: 9600 bps, channel 1, full power.
    fn default() -> (r: Self)
        ensures
            r.baud_rate == BaudRate::Bps9600,
            r.channel.code() == 1,
            r.power.code() == 8,
    {
        Parameters {
            baud_rate: BaudRate::default(),
            channel: Channel::default(),
            power: TransmissionPower::default(),
            mode: PhantomData::<Fu3>,
        }
    }
}

} // verus!
