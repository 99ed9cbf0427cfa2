//! Tests of the command protocol: UTF-16 name encoding, the CRC-16, the
//! serial-number formatting, and the command dispatch.

use gps_freak::command::{
    CommandAction, CommandError, CommandOutcome, CommandState, MessageBuf, ack_frame,
    command_handler, frame, nak_frame,
};
use gps_freak::cpu::format_serial_number;
use gps_freak::crc::{by_bit, compute, sw_compute};
use gps_freak::numeric::be_nice_to_fft;
use gps_freak::provision::{provision, ProvisionItem};
use gps_freak::strings::{str_to_usb, string_index, NUM_STRINGS};

#[test]
fn test_utf16() {
    for s in ["abcd123456", "12\u{1F534}3\u{1F7E5}4\u{1F6D1}56\u{1F6AB}7\u{1F6A8}8\u{1F637}"] {
        let utf16: Vec<u16> = s.encode_utf16().collect();
        let mut place = Vec::new();
        place.resize(utf16.len() + 1, 0);
        str_to_usb(&mut place, s);
        let p0b = place[0].to_ne_bytes();
        assert_eq!(p0b[0] as usize, utf16.len() * 2 + 2);
        assert_eq!(p0b[1], 3);
        assert_eq!(&place[1..], utf16);
    }
}

#[test]
fn crc_table() {
    let table = gps_freak::crc::crc_table();
    for b in 0..=255u8 {
        let v = by_bit(0, &[b, 0, 0]);
        let t = table[b as usize];
        println!("{b} {v:#06x} {t:#06x}");
        assert_eq!(v, t);
    }
}

#[test]
fn crc_basic() {
    let bytes = b"123456789";
    let v = by_bit(0, bytes);
    println!("{v:#06x}");
    let v = by_bit(v, &[0, 0]);
    println!("{v:#06x}");
    let u = sw_compute(0, bytes);
    println!("{u:#06x}");
    assert_eq!(v, u);
    assert_eq!(v, 0x31c3); // Canned value.
    let mut bb = [0; 11];
    bb[0..9].copy_from_slice(bytes);
    bb[9] = (u >> 8) as u8;
    bb[10] = u as u8;
    assert_eq!(sw_compute(0, &bb), 0);
}

#[test]
fn crc16_basic() {
    let bytes = b"123456789";
    let v = compute(bytes);
    assert_eq!(v, 0x31c3); // Canned value.
    let mut bb = [0; 11];
    bb[0..9].copy_from_slice(bytes);
    bb[9] = (v >> 8) as u8;
    bb[10] = v as u8;
    assert_eq!(compute(&bb), 0);
}

#[test]
fn test_sn() {
    let sn = [0x006b0028, 0x31335105, 0x30393436];
    let mut text = vec![0u8; 18];
    let mut usb = vec![0u8; 38];
    format_serial_number(&sn, &mut text, &mut usb);
    assert_eq!(usb[0] as usize, usb.len());
    assert_eq!(usb[1], 3);
    let mut bytes = [0; 18];
    for (i, &c) in usb[2..].iter().step_by(2).enumerate() {
        bytes[i] = c;
    }
    let str = str::from_utf8(&bytes).unwrap();
    assert_eq!(str, str::from_utf8(&text).unwrap());
    assert_eq!(str, "Q316490-05006b0028");
}

#[test]
fn check_magic() {
    let first = gps_freak::crc32::compute(&[]).to_be_bytes();
    let second = gps_freak::crc32::compute(&first);
    assert_eq!(second, gps_freak::crc32::VERIFY_MAGIC);

    let mut more = [1u8, 2, 3, 4, 5, 6, 7, 8, 9, 10, 0, 0, 0, 0];
    let len = more.len() - 4;
    let crc = gps_freak::crc32::compute(&more[..len]);
    more[len..].copy_from_slice(&crc.to_be_bytes());
    assert_eq!(gps_freak::crc32::compute(&more), gps_freak::crc32::VERIFY_MAGIC);
}

fn test_state() -> CommandState {
    CommandState { name: MessageBuf::start(0x84), usb_name: vec![0x0302; 32] }
}

fn deliver(frame_bytes: &[u8], st: &CommandState, serial: &[u8], baud: u32) -> CommandOutcome {
    let msg = MessageBuf::from_packet(frame_bytes);
    command_handler(&msg, frame_bytes.len(), st, serial, baud)
}

#[test]
fn command_ping_echo() {
    let st = test_state();
    let serial = [0x41u8; 18];
    let request = frame(0x00, b"token");
    match deliver(&request, &st, &serial, 9600) {
        CommandOutcome::Reply(f) => assert_eq!(f, frame(0x80, b"token")),
        _ => panic!("ping must reply"),
    }
}

#[test]
fn command_version() {
    let st = test_state();
    let serial = [0x41u8; 18];
    let request = frame(0x02, b"");
    match deliver(&request, &st, &serial, 9600) {
        CommandOutcome::Reply(f) => assert_eq!(f, frame(0x82, &[1, 0, 0, 0])),
        _ => panic!("version must reply"),
    }
}

#[test]
fn command_serial_number() {
    let st = test_state();
    let serial = *b"Q316490-05006b0028";
    let request = frame(0x03, b"");
    match deliver(&request, &st, &serial, 9600) {
        CommandOutcome::Reply(f) => assert_eq!(f, frame(0x83, &serial)),
        _ => panic!("serial number must reply"),
    }
}

#[test]
fn command_framing_errors() {
    let st = test_state();
    let serial = [0x41u8; 18];
    // A frame whose length byte disagrees with the packet length.
    let mut bad = frame(0x00, b"xy");
    bad[3] = 9;
    match deliver(&bad, &st, &serial, 9600) {
        CommandOutcome::Reply(f) => assert_eq!(f, nak_frame(CommandError::FramingError)),
        _ => panic!("framing error must reply"),
    }
    // A corrupted checksum.
    let mut corrupt = frame(0x00, b"xy");
    let n = corrupt.len();
    corrupt[n - 1] ^= 1;
    match deliver(&corrupt, &st, &serial, 9600) {
        CommandOutcome::Reply(f) => assert_eq!(f, nak_frame(CommandError::FramingError)),
        _ => panic!("bad checksum must reply"),
    }
    // An unknown request code.
    let unknown = frame(0x41, b"");
    match deliver(&unknown, &st, &serial, 9600) {
        CommandOutcome::Reply(f) => assert_eq!(f, nak_frame(CommandError::UnknownMessage)),
        _ => panic!("unknown code must reply"),
    }
    // A device-direction code: no response at all.
    let echo = frame(0x80, b"");
    assert!(matches!(deliver(&echo, &st, &serial, 9600), CommandOutcome::Ignore));
    // A bad parameter: over-long serial sync.
    let sync = frame(0x1e, &2000000u32.to_le_bytes());
    match deliver(&sync, &st, &serial, 9600) {
        CommandOutcome::Reply(f) => assert_eq!(f, nak_frame(CommandError::BadParameter)),
        _ => panic!("bad parameter must reply"),
    }
    // A bad format: wrong payload length for GPS reset.
    let reset = frame(0x11, b"xy");
    match deliver(&reset, &st, &serial, 9600) {
        CommandOutcome::Reply(f) => assert_eq!(f, nak_frame(CommandError::BadFormat)),
        _ => panic!("bad format must reply"),
    }
    // A generic failure is what the performer would report.
    assert_ne!(nak_frame(CommandError::Failed), ack_frame());
}

#[test]
fn command_actions() {
    let st = test_state();
    let serial = [0x41u8; 18];
    let sync = frame(0x1e, &1000u32.to_le_bytes());
    assert!(matches!(
        deliver(&sync, &st, &serial, 9600),
        CommandOutcome::Defer(CommandAction::SerialSync(1000))
    ));
    let reboot = frame(0x10, b"");
    assert!(matches!(
        deliver(&reboot, &st, &serial, 9600),
        CommandOutcome::Defer(CommandAction::Reboot)
    ));
    let baud = frame(0x1f, &115200u32.to_le_bytes());
    assert!(matches!(
        deliver(&baud, &st, &serial, 9600),
        CommandOutcome::Defer(CommandAction::SetBaud(115200))
    ));
    let get_baud = frame(0x1f, b"");
    match deliver(&get_baud, &st, &serial, 9600) {
        CommandOutcome::Reply(f) => assert_eq!(f, frame(0x9f, &9600u32.to_le_bytes())),
        _ => panic!("baud query must reply"),
    }
    let i2c = frame(0x61, &[4, 0x10]);
    match deliver(&i2c, &st, &serial, 9600) {
        CommandOutcome::Defer(CommandAction::I2cRead { device, write_data, read_len, reply_code }) => {
            assert_eq!(device, 0xc9);
            assert_eq!(write_data, vec![0x10]);
            assert_eq!(read_len, 4);
            assert_eq!(reply_code, 0xe1);
        }
        _ => panic!("i2c read must defer"),
    }
}

#[test]
fn command_name_round_trip() {
    let mut st = test_state();
    let serial = [0x41u8; 18];
    st.set_name("clock-7", b"clock-7");
    let query = frame(0x04, b"");
    match deliver(&query, &st, &serial, 9600) {
        CommandOutcome::Reply(f) => assert_eq!(f, frame(0x84, b"clock-7")),
        _ => panic!("name query must reply"),
    }
    let set = frame(0x04, b"bench");
    match deliver(&set, &st, &serial, 9600) {
        CommandOutcome::Defer(CommandAction::SetName { raw }) => assert_eq!(raw, b"bench"),
        _ => panic!("name set must defer"),
    }
    // The descriptor form carries the header unit then the characters.
    assert_eq!(st.usb_name[0], 0x0302 + 2 * 7);
    assert_eq!(st.usb_name[1], 'c' as u16);
}

#[test]
fn provision_walk_parses_packets() {
    let mut stream = Vec::new();
    let cmd = frame(0x02, b"");
    stream.extend_from_slice(&cmd);
    // A receiver packet: sync, class, id, 2-byte length, payload,
    // checksum.
    let ublox = [0xb5u8, 0x62, 0x06, 0x00, 0x01, 0x00, 0x55, 0x5c, 0x5b];
    stream.extend_from_slice(&ublox);
    // A truncated tail is dropped.
    stream.extend_from_slice(&[0xce, 0x93, 0x00]);
    let items = provision(&stream);
    assert_eq!(items.len(), 2);
    match &items[0] {
        ProvisionItem::Command(v) => assert_eq!(v, &cmd),
        _ => panic!("first item is a command"),
    }
    match &items[1] {
        ProvisionItem::Ublox(v) => assert_eq!(&v[..], &ublox[..]),
        _ => panic!("second item is a receiver packet"),
    }
    // Unknown bytes stop the walk outright.
    assert_eq!(provision(&[0x00, 0x11, 0x22]).len(), 0);
}

#[test]
fn string_index_finds_names() {
    assert_eq!(string_index("Ralph"), 1);
    assert_eq!(string_index("GPS Freak"), 2);
    assert_eq!(string_index("DFU"), 7);
    assert_eq!(string_index("nowhere") as usize, NUM_STRINGS);
}

#[test]
fn fft_friendly_sizes() {
    assert_eq!(be_nice_to_fft(1), 1);
    assert_eq!(be_nice_to_fft(5), 4);
    assert_eq!(be_nice_to_fft(6), 6);
    assert_eq!(be_nice_to_fft(100), 96);
    assert_eq!(be_nice_to_fft(1000), 972);
    assert_eq!(be_nice_to_fft(1024), 1024);
}

fn slot(magic: u32, version: u32, generation: u32, corrupt: bool) -> Vec<u8> {
    let mut b = vec![0u8; 2048];
    b[0..4].copy_from_slice(&magic.to_le_bytes());
    b[4..8].copy_from_slice(&version.to_le_bytes());
    b[8..12].copy_from_slice(&generation.to_le_bytes());
    let length: u32 = 64;
    b[12..16].copy_from_slice(&length.to_le_bytes());
    let crc = gps_freak::crc32::compute(&b[..60]);
    b[60..64].copy_from_slice(&crc.to_be_bytes());
    if corrupt {
        b[20] ^= 1;
    }
    b
}

#[test]
fn best_config_picks_highest_generation() {
    let magic = 0x4b72a6ce;
    let mut slots: Vec<Vec<u8>> = (0..16).map(|_| slot(0, 0, 0, false)).collect();
    slots[3] = slot(magic, 1, 5, false);
    slots[9] = slot(magic, 1, 9, false);
    slots[12] = slot(magic, 1, 7, false);
    assert_eq!(gps_freak::provision::best_config(&slots), Some(9));

    // The best-ranked slot fails its checksum: the scan falls back to
    // the next.
    slots[9] = slot(magic, 1, 9, true);
    assert_eq!(gps_freak::provision::best_config(&slots), Some(12));

    // An unsupported revision ranks below every supported one.
    slots[9] = slot(magic, 2, 11, false);
    assert_eq!(gps_freak::provision::best_config(&slots), Some(12));

    // No slot carries the magic at all: nothing to apply.
    let empty: Vec<Vec<u8>> = (0..16).map(|_| slot(0, 0, 0, false)).collect();
    assert_eq!(gps_freak::provision::best_config(&empty), None);
}
