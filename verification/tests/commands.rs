use core::marker::PhantomData;

use hc12_at::command::Mode;
use hc12_at::config::{AirBaudRate, BaudRate, Channel, Fu2, Parameters, TransmissionPower};

#[test]
fn set_baudrate_command() {
    let mut buffer = [0u8; 16];
    let baudrate = BaudRate::Bps115200;
    let n = baudrate.make_command(&mut buffer);
    assert_eq!(b"AT+B115200\r\n", &buffer[0..n])
}

#[test]
fn set_channel_command() {
    let mut buffer = [0u8; 16];
    for i in 1..128 {
        let channel = Channel::new(i).unwrap();
        let n = channel.make_command(&mut buffer);
        assert_eq!(
            format!("AT+C{:0width$}\r\n", i, width = 3).as_bytes(),
            &buffer[0..n]
        );
    }
}

#[test]
fn set_mode_command() {
    let mut buffer = [0u8; 16];
    let mode = Mode::Fu1;
    let n = mode.make_command(&mut buffer);
    assert_eq!(b"AT+FU1\r\n", &buffer[0..n])
}

#[test]
fn set_power_command() {
    let mut buffer = [0u8; 16];
    let power = TransmissionPower::new(8).unwrap();
    let n = power.make_command(&mut buffer);
    assert_eq!(b"AT+P8\r\n", &buffer[0..n])
}

#[test]
fn set_baudrate_command_all_rates() {
    let cases: [(BaudRate, &[u8]); 8] = [
        (BaudRate::Bps1200, b"AT+B1200\r\n"),
        (BaudRate::Bps2400, b"AT+B2400\r\n"),
        (BaudRate::Bps4800, b"AT+B4800\r\n"),
        (BaudRate::Bps9600, b"AT+B9600\r\n"),
        (BaudRate::Bps19200, b"AT+B19200\r\n"),
        (BaudRate::Bps38400, b"AT+B38400\r\n"),
        (BaudRate::Bps57600, b"AT+B57600\r\n"),
        (BaudRate::Bps115200, b"AT+B115200\r\n"),
    ];
    for (rate, expected) in cases {
        let mut buffer = [0u8; 16];
        let n = rate.make_command(&mut buffer);
        assert_eq!(expected, &buffer[0..n]);
    }
}

#[test]
fn set_mode_command_all_modes() {
    let cases: [(Mode, &[u8]); 4] = [
        (Mode::Fu1, b"AT+FU1\r\n"),
        (Mode::Fu2, b"AT+FU2\r\n"),
        (Mode::Fu3, b"AT+FU3\r\n"),
        (Mode::Fu4, b"AT+FU4\r\n"),
    ];
    for (mode, expected) in cases {
        let mut buffer = [0u8; 16];
        let n = mode.make_command(&mut buffer);
        assert_eq!(expected, &buffer[0..n]);
    }
}

#[test]
fn set_power_command_all_codes() {
    for code in 1u8..=8 {
        let power = TransmissionPower::new(code).unwrap();
        let mut buffer = [0u8; 16];
        let n = power.make_command(&mut buffer);
        assert_eq!(
            format!("AT+P{}\r\n", code).as_bytes(),
            &buffer[0..n]
        );
    }
}

#[test]
fn make_command_leaves_tail_untouched() {
    let mut buffer = [0xAAu8; 16];
    let power = TransmissionPower::new(3).unwrap();
    let n = power.make_command(&mut buffer);
    assert_eq!(7, n);
    assert_eq!(b"AT+P3\r\n", &buffer[0..n]);
    for i in n..16 {
        assert_eq!(0xAA, buffer[i]);
    }
}

#[test]
fn reset_channel_renders_identically() {
    let mut chan = Channel::new(42).unwrap();
    let mut first = [0u8; 16];
    let n1 = chan.make_command(&mut first);
    assert!(chan.set_channel(42).is_ok());
    let mut second = [0u8; 16];
    let n2 = chan.make_command(&mut second);
    assert_eq!(n1, n2);
    assert_eq!(&first[0..n1], &second[0..n2]);
}

#[test]
fn reset_fu2_baud_renders_identically() {
    let mut params = Parameters::<Fu2> {
        baud_rate: BaudRate::Bps2400,
        channel: Channel::default(),
        power: TransmissionPower::default(),
        mode: PhantomData,
    };
    let mut first = [0u8; 16];
    let n1 = params.baud_rate.make_command(&mut first);
    assert!(params.set_baud_rate(BaudRate::Bps2400).is_ok());
    assert_eq!(AirBaudRate::Bps250000, params.get_air_baud_rate());
    let mut second = [0u8; 16];
    let n2 = params.baud_rate.make_command(&mut second);
    assert_eq!(n1, n2);
    assert_eq!(&first[0..n1], &second[0..n2]);
}
