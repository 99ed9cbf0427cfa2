//! Tests of the USB engine against the register-file model: toggle
//! register semantics, enumeration, deferred address assignment,
//! receive backpressure, start-of-frame behaviour and data staging.

use gps_freak::bus::{host_bus_reset, host_collect_in, host_deliver_out, host_deliver_setup,
    host_sof};
use gps_freak::descriptor::{config0_bytes, device_descriptor_bytes};
use gps_freak::engine::USB_State;
use gps_freak::hw::UsbHw;
use gps_freak::regs::{
    ChepReg, ChepWrite, STAT_NAK, STAT_STALL, STAT_VALID, UTYPE_BULK, chep_write_apply,
};
use gps_freak::serial::RxProcessing;

fn device() -> (USB_State, UsbHw) {
    let mut state = USB_State::reset();
    let mut hw = UsbHw::power_on();
    state.usb_initialize(&mut hw);
    (state, hw)
}

const NAME: [u16; 2] = [0x0304, 'x' as u16];

#[test]
fn toggle_register_semantics() {
    let mut r = ChepReg::reset();
    r.stat_rx = STAT_NAK;
    r.vtrx = true;
    // Arming computes the delta against the snapshot; the hardware
    // write lands on the requested value whatever it was.
    let w = ChepWrite::endpoint(1, UTYPE_BULK, false).rx_valid(&r);
    let r2 = chep_write_apply(&r, &w);
    assert_eq!(r2.stat_rx, STAT_VALID);
    assert!(r2.vtrx);
    // Clearing an event flag leaves the rest alone.
    let w2 = ChepWrite::endpoint(1, UTYPE_BULK, false).clear_vtrx();
    let r3 = chep_write_apply(&r2, &w2);
    assert_eq!(r3.stat_rx, STAT_VALID);
    assert!(!r3.vtrx);
    // Two toggle writes compose like their XOR: NAK -> VALID -> NAK.
    let w3 = ChepWrite::endpoint(1, UTYPE_BULK, false).stat_rx(&r3, STAT_NAK);
    let r4 = chep_write_apply(&r3, &w3);
    assert_eq!(r4.stat_rx, STAT_NAK);
}

#[test]
fn initialize_toggles_and_status() {
    let (state, hw) = device();
    // Toggle bits sit at zero on both sides; transmit is idle, not
    // armed, on every endpoint.
    for i in 0..4 {
        assert!(!hw.chep[i].dtog_rx);
        assert!(!hw.chep[i].dtog_tx);
        assert_ne!(hw.chep[i].stat_tx, STAT_VALID);
    }
    assert!(!state.eps.ep1.tx_toggle);
    assert_eq!(hw.chep[1].stat_tx, STAT_NAK);
    assert_eq!(hw.chep[3].stat_tx, STAT_NAK);
    // Receive armed where the engine expects traffic.
    assert_eq!(hw.chep[0].stat_rx, STAT_VALID);
    assert_eq!(hw.chep[1].stat_rx, STAT_VALID);
    assert_eq!(hw.chep[3].stat_rx, STAT_VALID);
}

#[test]
fn get_device_descriptor() {
    let (mut state, mut hw) = device();
    // SETUP: GET_DESCRIPTOR, type DEVICE, length 18.
    host_deliver_setup(&mut hw, &[0x80, 0x06, 0x00, 0x01, 0x00, 0x00, 18, 0]);
    let fx = state.isr(&mut hw, true, &NAME);
    assert!(!fx.enter_dfu);
    assert_eq!(hw.chep[0].stat_tx, STAT_VALID);
    let packet = host_collect_in(&mut hw, 0);
    assert_eq!(packet.len(), 18);
    assert_eq!(packet, device_descriptor_bytes());
    // The host acknowledges with a zero-length OUT; nothing further is
    // armed for transmit.
    state.isr(&mut hw, true, &NAME);
    assert_ne!(hw.chep[0].stat_tx, STAT_VALID);
}

#[test]
fn get_device_descriptor_idempotent() {
    let (mut state, mut hw) = device();
    host_deliver_setup(&mut hw, &[0x80, 0x06, 0x00, 0x01, 0x00, 0x00, 18, 0]);
    state.isr(&mut hw, true, &NAME);
    let before = host_collect_in(&mut hw, 0);
    state.isr(&mut hw, true, &NAME);

    // Assign an address in between and let the status stage complete.
    host_deliver_setup(&mut hw, &[0x00, 0x05, 0x05, 0x00, 0x00, 0x00, 0x00, 0]);
    state.isr(&mut hw, true, &NAME);
    host_collect_in(&mut hw, 0);
    state.isr(&mut hw, true, &NAME);
    assert_eq!(hw.daddr, 5);

    host_deliver_setup(&mut hw, &[0x80, 0x06, 0x00, 0x01, 0x00, 0x00, 18, 0]);
    state.isr(&mut hw, true, &NAME);
    let after = host_collect_in(&mut hw, 0);
    assert_eq!(before, after);
}

#[test]
fn set_address_applies_after_ack() {
    let (mut state, mut hw) = device();
    host_deliver_setup(&mut hw, &[0x00, 0x05, 0x05, 0x00, 0x00, 0x00, 0x00, 0]);
    let fx = state.isr(&mut hw, true, &NAME);
    assert!(!fx.enter_dfu);
    // The zero-length status packet is armed, but the address register
    // must not change before the host collects it.
    assert_eq!(hw.daddr, 0);
    assert_eq!(hw.chep[0].stat_tx, STAT_VALID);
    let ack = host_collect_in(&mut hw, 0);
    assert_eq!(ack.len(), 0);
    assert_eq!(hw.daddr, 0);
    state.isr(&mut hw, true, &NAME);
    assert_eq!(hw.daddr, 5);
}

#[test]
fn get_config_descriptor_chunked() {
    let (mut state, mut hw) = device();
    // Ask for the whole configuration with a large length: the reply
    // comes in 64-byte packets driven by transmit completions.
    host_deliver_setup(&mut hw, &[0x80, 0x06, 0x00, 0x02, 0x00, 0x00, 0xff, 0]);
    state.isr(&mut hw, true, &NAME);
    let mut data = Vec::new();
    let mut packets = 0;
    while hw.chep[0].stat_tx == STAT_VALID {
        let packet = host_collect_in(&mut hw, 0);
        assert!(packet.len() <= 64);
        data.extend_from_slice(&packet);
        packets += 1;
        state.isr(&mut hw, true, &NAME);
    }
    let expect = config0_bytes();
    assert_eq!(packets, (expect.len() + 63) / 64);
    assert_eq!(packets, 2);
    assert_eq!(data, expect);
}

#[test]
fn get_descriptor_truncated_to_request() {
    let (mut state, mut hw) = device();
    // Only the 9-byte head of the configuration: one short packet.
    host_deliver_setup(&mut hw, &[0x80, 0x06, 0x00, 0x02, 0x00, 0x00, 9, 0]);
    state.isr(&mut hw, true, &NAME);
    let packet = host_collect_in(&mut hw, 0);
    assert_eq!(packet.len(), 9);
    assert_eq!(&packet[..], &config0_bytes()[..9]);
    state.isr(&mut hw, true, &NAME);
    assert_ne!(hw.chep[0].stat_tx, STAT_VALID);
}

#[test]
fn unknown_request_stalls() {
    let (mut state, mut hw) = device();
    host_deliver_setup(&mut hw, &[0x80, 0x55, 0x00, 0x00, 0x00, 0x00, 0x00, 0]);
    state.isr(&mut hw, true, &NAME);
    assert_eq!(hw.chep[0].stat_rx, STAT_STALL);
    assert_eq!(hw.chep[0].stat_tx, STAT_STALL);
}

fn configure(state: &mut USB_State, hw: &mut UsbHw) {
    host_deliver_setup(hw, &[0x00, 0x09, 0x01, 0x00, 0x00, 0x00, 0x00, 0]);
    state.isr(hw, true, &NAME);
    host_collect_in(hw, 0);
    state.isr(hw, true, &NAME);
}

#[test]
fn bulk_out_backpressure() {
    let (mut state, mut hw) = device();
    configure(&mut state, &mut hw);
    assert_eq!(hw.chep[1].stat_rx, STAT_VALID);

    // A full packet arrives while the consumer reports busy.
    let data = [0x5au8; 64];
    host_deliver_out(&mut hw, 1, &data, false);
    let fx = state.isr(&mut hw, false, &NAME);
    assert!(fx.serial_out.is_none());
    assert!(matches!(state.eps.ep1.rx_processing, RxProcessing::Blocked));
    // The endpoint is not re-armed: the host sees NAK.
    assert_eq!(hw.chep[1].stat_rx, STAT_NAK);

    // The consumer finishes: the buffer is dispatched and receive
    // re-arms.
    let out = state.eps.ep1.serial_rx_done(&mut hw);
    assert_eq!(out.as_deref(), Some(&data[..]));
    assert!(matches!(state.eps.ep1.rx_processing, RxProcessing::Processing));
    assert_eq!(hw.chep[1].stat_rx, STAT_VALID);
}

#[test]
fn bulk_out_forwarded_when_ready() {
    let (mut state, mut hw) = device();
    configure(&mut state, &mut hw);
    let data = [0x21u8; 10];
    host_deliver_out(&mut hw, 1, &data, false);
    let fx = state.isr(&mut hw, true, &NAME);
    assert_eq!(fx.serial_out.as_deref(), Some(&data[..]));
    assert_eq!(hw.chep[1].stat_rx, STAT_VALID);
}

#[test]
fn sof_without_data_stays_idle() {
    let (mut state, mut hw) = device();
    configure(&mut state, &mut hw);
    assert_eq!(hw.chep[1].stat_tx, STAT_NAK);
    // Two consecutive start-of-frame interrupts with nothing queued:
    // nothing goes into flight.
    host_sof(&mut hw);
    state.isr(&mut hw, true, &NAME);
    assert_eq!(hw.chep[1].stat_tx, STAT_NAK);
    host_sof(&mut hw);
    state.isr(&mut hw, true, &NAME);
    assert_eq!(hw.chep[1].stat_tx, STAT_NAK);
    assert!(!hw.sof);
}

#[test]
fn sof_flushes_partial_data() {
    let (mut state, mut hw) = device();
    configure(&mut state, &mut hw);
    for b in [1u8, 2, 3, 4, 5] {
        state.eps.ep1.serial_tx_byte(&mut hw, b);
    }
    host_sof(&mut hw);
    state.isr(&mut hw, true, &NAME);
    assert_eq!(hw.chep[1].stat_tx, STAT_VALID);
    let packet = host_collect_in(&mut hw, 1);
    assert_eq!(packet, vec![1, 2, 3, 4, 5]);
}

#[test]
fn serial_tx_full_packet_arms_immediately() {
    let (mut state, mut hw) = device();
    configure(&mut state, &mut hw);
    for i in 0..64 {
        state.eps.ep1.serial_tx_byte(&mut hw, i as u8);
    }
    assert_eq!(hw.chep[1].stat_tx, STAT_VALID);
    let packet = host_collect_in(&mut hw, 1);
    let expect: Vec<u8> = (0..64).map(|i| i as u8).collect();
    assert_eq!(packet, expect);
}

#[test]
fn command_channel_backpressure() {
    let (mut state, mut hw) = device();
    configure(&mut state, &mut hw);
    let request = gps_freak::command::frame(0x02, b"");
    host_deliver_out(&mut hw, 3, &request, false);
    let fx = state.isr(&mut hw, true, &NAME);
    // The frame pends the deferred dispatch; receive stays NAKed while
    // the command is in flight.
    assert!(fx.trigger_command);
    assert_eq!(hw.chep[3].stat_rx, STAT_NAK);
    let got = gps_freak::command_ep::main_rx_frame(&hw);
    assert_eq!(got, request);
    // The deferred worker queues the response and the transmit
    // completion re-arms receive.
    gps_freak::command_ep::main_tx_response(&mut hw, &[0x90; 10]);
    assert_eq!(hw.chep[3].stat_tx, STAT_VALID);
    let reply = host_collect_in(&mut hw, 3);
    assert_eq!(reply, vec![0x90; 10]);
    state.isr(&mut hw, true, &NAME);
    assert_eq!(hw.chep[3].stat_rx, STAT_VALID);
}

#[test]
fn bus_reset_reinitializes() {
    let (mut state, mut hw) = device();
    configure(&mut state, &mut hw);
    host_deliver_setup(&mut hw, &[0x00, 0x05, 0x07, 0x00, 0x00, 0x00, 0x00, 0]);
    state.isr(&mut hw, true, &NAME);
    host_collect_in(&mut hw, 0);
    state.isr(&mut hw, true, &NAME);
    assert_eq!(hw.daddr, 7);
    host_bus_reset(&mut hw);
    state.isr(&mut hw, true, &NAME);
    assert_eq!(hw.daddr, 0);
    assert_eq!(hw.chep[0].stat_rx, STAT_VALID);
    assert!(!hw.rst);
}

#[test]
fn line_coding_round_trip() {
    let (mut state, mut hw) = device();
    configure(&mut state, &mut hw);
    // SET_LINE_CODING announces 7 bytes of data.
    host_deliver_setup(&mut hw, &[0x21, 0x20, 0x00, 0x00, 0x00, 0x00, 7, 0]);
    state.isr(&mut hw, true, &NAME);
    assert_eq!(hw.chep[0].stat_rx, STAT_VALID);
    // 115200 baud, one stop bit, no parity, 8 data bits.
    host_deliver_out(&mut hw, 0, &[0x00, 0xc2, 0x01, 0x00, 0x00, 0x00, 0x08], false);
    state.isr(&mut hw, true, &NAME);
    assert_eq!(state.eps.ep1.fake_baud, 115200);
    // The zero-length acknowledge goes out.
    let ack = host_collect_in(&mut hw, 0);
    assert_eq!(ack.len(), 0);
    // GET_LINE_CODING echoes the stored rate.
    host_deliver_setup(&mut hw, &[0xa1, 0x21, 0x00, 0x00, 0x00, 0x00, 7, 0]);
    state.isr(&mut hw, true, &NAME);
    let coding = host_collect_in(&mut hw, 0);
    assert_eq!(coding, vec![0x00, 0xc2, 0x01, 0x00, 0x00, 0x00, 0x08]);
}

#[test]
fn string_descriptors() {
    let (mut state, mut hw) = device();
    // The language list: 4 bytes, type 3, language 0x0409.
    host_deliver_setup(&mut hw, &[0x80, 0x06, 0x00, 0x03, 0x00, 0x00, 0xff, 0]);
    state.isr(&mut hw, true, &NAME);
    let lang = host_collect_in(&mut hw, 0);
    assert_eq!(lang, vec![4, 3, 0x09, 0x04]);
    // The serial-number string comes from the stored device name.
    host_deliver_setup(&mut hw, &[0x80, 0x06, 0x08, 0x03, 0x00, 0x00, 0xff, 0]);
    state.isr(&mut hw, true, &NAME);
    let serial = host_collect_in(&mut hw, 0);
    assert_eq!(serial, vec![0x04, 0x03, 'x' as u8, 0x00]);
}

#[test]
fn exact_multiple_ends_with_zero_length_packet() {
    let (mut state, mut hw) = device();
    // A 64-byte response to a larger request: one full packet, then a
    // terminating zero-length packet.
    let data: Vec<u8> = (0..64).map(|i| i as u8).collect();
    let setup = gps_freak::types::SetupHeader {
        request_type: 0x80,
        request: 0x06,
        value_lo: 0,
        value_hi: 1,
        index: 0,
        length: 256,
    };
    state.ep0.setup_send_data(&mut hw, &setup, &data);
    let mut packets = Vec::new();
    while hw.chep[0].stat_tx == STAT_VALID {
        packets.push(host_collect_in(&mut hw, 0));
        state.ep0.tx_handler(&mut hw);
    }
    assert_eq!(packets.len(), 2);
    assert_eq!(packets[0], data);
    assert_eq!(packets[1].len(), 0);
}

#[test]
fn exact_request_has_no_zero_length_packet() {
    let (mut state, mut hw) = device();
    // A 64-byte response to a 64-byte request: one packet, no
    // terminator.
    let data: Vec<u8> = (0..64).map(|i| i as u8).collect();
    let setup = gps_freak::types::SetupHeader {
        request_type: 0x80,
        request: 0x06,
        value_lo: 0,
        value_hi: 1,
        index: 0,
        length: 64,
    };
    state.ep0.setup_send_data(&mut hw, &setup, &data);
    let mut packets = Vec::new();
    while hw.chep[0].stat_tx == STAT_VALID {
        packets.push(host_collect_in(&mut hw, 0));
        state.ep0.tx_handler(&mut hw);
    }
    assert_eq!(packets.len(), 1);
    assert_eq!(packets[0], data);
}
