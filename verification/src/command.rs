//! The binary command protocol carried over the vendor endpoint.
//!
//! A frame is `magic(2) code(1) len(1) payload(len) checksum(2)`; the
//! magic is the byte sequence CE 93, the checksum the protocol's CRC-16
//! computed over the whole frame with the checksum field zeroed, so a
//! received frame checks by computing to zero over all its bytes.  Codes
//! with the top bit set travel from the device; a request carrying such
//! a code gets no response, which rules out message loops.

use vstd::prelude::*;

use crate::crc::{crc16_cat, crc16_spec, lemma_crc16_self_check};
use crate::strings::{str_to_usb, utf16_fit};

verus! {

/// The frame magic, as a little-endian word: the bytes CE 93.
pub const MAGIC: u16 = 0x93ce;

/// Maximum payload of a frame: frames fit one 64-byte packet.
pub const MAX_PAYLOAD: usize = 58;

/// The protocol version reported to the host.
pub const PROTOCOL_VERSION: u32 = 1;

/// Error codes for negative acknowledgements.
#[derive(Clone, Copy, PartialEq, Eq, Structural)]
pub enum CommandError {
    /// Generic request attempted but failed.
    Failed,
    /// Incorrectly framed message.
    FramingError,
    /// Message has an unknown request code.
    UnknownMessage,
    /// Payload format incorrect.
    BadFormat,
    /// Payload parameter value bogus.
    BadParameter,
}

/// The wire value of an error code.
pub open spec fn error_code_spec(e: CommandError) -> u16 {
    match e {
        CommandError::Failed => 1,
        CommandError::FramingError => 2,
        CommandError::UnknownMessage => 3,
        CommandError::BadFormat => 4,
        CommandError::BadParameter => 5,
    }
}

/// The wire value of an error code.
pub fn error_code(e: CommandError) -> (r: u16)
    ensures
        r == error_code_spec(e),
{
    match e {
        CommandError::Failed => 1,
        CommandError::FramingError => 2,
        CommandError::UnknownMessage => 3,
        CommandError::BadFormat => 4,
        CommandError::BadParameter => 5,
    }
}

/// The wire form of a frame: header, payload, and the big-endian
/// checksum of header and payload.
pub open spec fn frame_spec(code: u8, payload: Seq<u8>) -> Seq<u8> {
    let head = seq![0xceu8, 0x93u8, code, payload.len() as u8] + payload;
    head + seq![(crc16_spec(0, head) >> 8) as u8, crc16_spec(0, head) as u8]
}

/// Build a frame for the wire.  A frame carrying its own checksum
/// computes to zero.
pub fn frame(code: u8, payload: &[u8]) -> (r: Vec<u8>)
    requires
        payload@.len() <= MAX_PAYLOAD,
    ensures
        r@ == frame_spec(code, payload@),
        r@.len() == payload@.len() + 6,
        crc16_cat(0, r@) == 0,
{
    let mut head: Vec<u8> = Vec::new();
    head.push(0xce);
    head.push(0x93);
    head.push(code);
    head.push(payload.len() as u8);
    let mut k: usize = 0;
    while k < payload.len()
        invariant
            k <= payload@.len(),
            head@ == seq![0xceu8, 0x93u8, code, payload@.len() as u8] + payload@.take(k as int),
        decreases payload@.len() - k,
    {
        head.push(payload[k]);
        proof {
            assert(head@ =~= seq![0xceu8, 0x93u8, code, payload@.len() as u8] + payload@.take(
                k + 1,
            ));
        }
        k = k + 1;
    }
    proof {
        assert(payload@.take(payload@.len() as int) =~= payload@);
    }
    let c = crate::crc::compute(head.as_slice());
    let ghost headseq = head@;
    head.push((c >> 8) as u8);
    head.push(c as u8);
    proof {
        assert(head@ =~= headseq.push((crc16_spec(0, headseq) >> 8) as u8).push(
            crc16_spec(0, headseq) as u8,
        ));
        lemma_crc16_self_check(headseq);
        assert(head@ =~= frame_spec(code, payload@));
    }
    head
}

/// A generic positive acknowledgement.
pub fn ack_frame() -> (r: Vec<u8>)
    ensures
        r@ == frame_spec(0x80, Seq::empty()),
        crc16_cat(0, r@) == 0,
{
    let payload: Vec<u8> = Vec::new();
    let r = frame(0x80, payload.as_slice());
    proof {
        assert(payload@ =~= Seq::<u8>::empty());
    }
    r
}

/// A negative acknowledgement carrying the error code.
pub fn nak_frame(e: CommandError) -> (r: Vec<u8>)
    ensures
        r@ == frame_spec(
            0x81,
            seq![(error_code_spec(e) & 0xff) as u8, (error_code_spec(e) >> 8) as u8],
        ),
        crc16_cat(0, r@) == 0,
{
    let c = error_code(e);
    let mut payload: Vec<u8> = Vec::new();
    payload.push((c & 0xff) as u8);
    payload.push((c >> 8) as u8);
    proof {
        assert(payload@ =~= seq![
            (error_code_spec(e) & 0xff) as u8,
            (error_code_spec(e) >> 8) as u8,
        ]);
    }
    frame(0x81, payload.as_slice())
}

/// A received command frame, as the packet buffer holds it: header
/// fields, then a payload area that also covers the checksum.
pub struct MessageBuf {
    /// The magic word, CE 93 on the wire.
    pub magic: u16,
    /// The request or response code.
    pub code: u8,
    /// Payload length in bytes.
    pub len: u8,
    /// Payload area; the two bytes after the payload hold the checksum.
    pub payload: Vec<u8>,
}

impl MessageBuf {
    /// The buffer holds a full payload area and a length within it.
    pub open spec fn wf(self) -> bool {
        &&& self.payload@.len() == MAX_PAYLOAD + 2
        &&& self.len <= MAX_PAYLOAD
    }

    /// The frame's bytes up to and including the checksum.
    pub open spec fn wire_bytes(self) -> Seq<u8> {
        seq![(self.magic & 0xff) as u8, (self.magic >> 8) as u8, self.code, self.len]
            + self.payload@.take(self.len + 2)
    }

    /// An empty message with the given code.
    pub fn start(code: u8) -> (r: MessageBuf)
        ensures
            r.wf(),
            r.magic == MAGIC,
            r.code == code,
            r.len == 0,
            forall|i: int| 0 <= i < MAX_PAYLOAD + 2 ==> r.payload@[i] == 0u8,
    {
        let mut payload: Vec<u8> = Vec::new();
        let mut i: usize = 0;
        while i < MAX_PAYLOAD + 2
            invariant
                i <= MAX_PAYLOAD + 2,
                payload@.len() == i,
                forall|j: int| 0 <= j < i ==> payload@[j] == 0u8,
            decreases MAX_PAYLOAD + 2 - i,
        {
            payload.push(0);
            i = i + 1;
        }
        MessageBuf { magic: MAGIC, code, len: 0, payload }
    }

    /// Parse a received packet into a message buffer.
    pub fn from_packet(packet: &[u8]) -> (r: MessageBuf)
        requires
            packet@.len() >= 4,
            packet@.len() <= 64,
        ensures
            r.payload@.len() == MAX_PAYLOAD + 2,
            r.magic == packet@[0] + packet@[1] * 256,
            r.code == packet@[2],
            r.len == packet@[3],
            forall|i: int|
                0 <= i < MAX_PAYLOAD + 2 ==> r.payload@[i] == (if 4 + i < packet@.len() {
                    packet@[4 + i]
                } else {
                    0u8
                }),
    {
        let mut payload: Vec<u8> = Vec::new();
        let mut i: usize = 0;
        while i < MAX_PAYLOAD + 2
            invariant
                i <= MAX_PAYLOAD + 2,
                packet@.len() >= 4,
                payload@.len() == i,
                forall|j: int|
                    0 <= j < i ==> payload@[j] == (if 4 + j < packet@.len() {
                        packet@[4 + j]
                    } else {
                        0u8
                    }),
            decreases MAX_PAYLOAD + 2 - i,
        {
            let b: u8 = if 4 + i < packet.len() {
                packet[4 + i]
            } else {
                0
            };
            payload.push(b);
            i = i + 1;
        }
        MessageBuf {
            magic: packet[0] as u16 + (packet[1] as u16) * 256,
            code: packet[2],
            len: packet[3],
            payload,
        }
    }

    /// The payload proper, without the checksum.
    pub fn get_payload(&self) -> (r: Vec<u8>)
        requires
            self.wf(),
        ensures
            r@ == self.payload@.take(self.len as int),
    {
        let mut r: Vec<u8> = Vec::new();
        let n = self.len as usize;
        let mut i: usize = 0;
        while i < n
            invariant
                self.wf(),
                n == self.len,
                i <= n,
                r@ == self.payload@.take(i as int),
            decreases n - i,
        {
            r.push(self.payload[i]);
            proof {
                assert(r@ =~= self.payload@.take(i + 1));
            }
            i = i + 1;
        }
        r
    }

    /// Does the payload have exactly the expected length?
    pub fn check_len(&self, len: u8) -> (r: bool)
        ensures
            r == (self.len == len),
    {
        self.len == len
    }

    /// The message as a wire frame with a fresh checksum.
    pub fn send(&self) -> (r: Vec<u8>)
        requires
            self.wf(),
            self.magic == MAGIC,
        ensures
            r@ == frame_spec(self.code, self.payload@.take(self.len as int)),
            crc16_cat(0, r@) == 0,
    {
        let payload = self.get_payload();
        frame(self.code, payload.as_slice())
    }
}

/// A message under construction: a code and its payload.
pub struct Message {
    /// The response code.
    pub code: u8,
    /// The payload bytes.
    pub payload: Vec<u8>,
}

impl Message {
    pub fn new(code: u8, payload: Vec<u8>) -> (r: Message)
        ensures
            r.code == code,
            r.payload == payload,
    {
        Message { code, payload }
    }

    /// The message as a wire frame with its checksum.
    pub fn send(&self) -> (r: Vec<u8>)
        requires
            self.payload@.len() <= MAX_PAYLOAD,
        ensures
            r@ == frame_spec(self.code, self.payload@),
            crc16_cat(0, r@) == 0,
    {
        frame(self.code, self.payload.as_slice())
    }
}

/// Work a command asks the rest of the firmware to perform; the pure
/// dispatch validates the request, the caller carries it out and then
/// acknowledges.
pub enum CommandAction {
    /// Reboot the device; no response is sent.
    Reboot,
    /// Drive the GPS reset line: 0 assert, 1 deassert, more pulse.
    GpsReset(u8),
    /// Drive the clock generator's power-down line: 0 down, 1 up, more
    /// reset and power back up.
    ClockGenPower(u8),
    /// Wait for serial idle, then this many microseconds, then idle
    /// again.
    SerialSync(u32),
    /// Change the GPS baud rate before replying with it.
    SetBaud(u32),
    /// A bus write to this device address.
    I2cWrite { device: u8, data: Vec<u8> },
    /// A bus read, optionally preceded by a write; the reply carries
    /// `read_len` bytes under `reply_code`.
    I2cRead { device: u8, write_data: Vec<u8>, read_len: u8, reply_code: u8 },
    /// Refresh the clock-generator status handling.
    UpdateClockStatus,
    /// Read memory: the reply carries the address and the bytes.
    Peek { address: u32, length: u32 },
    /// Write memory or an aligned flash block.
    Poke { data: Vec<u8> },
    /// Checksum a memory region; the reply carries address, length and
    /// checksum.
    CrcRegion { address: u32, length: u32 },
    /// Erase the flash sector holding this address.
    FlashErase { address: u32 },
    /// Push these bytes out of the GPS serial port.
    GpsWrite { data: Vec<u8> },
    /// Validate this UTF-8 name, store it, and reply with it.
    SetName { raw: Vec<u8> },
}

/// What the dispatch decided.
pub enum CommandOutcome {
    /// Send this frame back.
    Reply(Vec<u8>),
    /// Perform the action, then acknowledge (or reply) as it directs.
    Defer(CommandAction),
    /// A frame from the device's own direction: send nothing.
    Ignore,
}

/// The stored device name, kept both as a reply frame payload and in
/// USB string-descriptor form.
pub struct CommandState {
    /// The name reply message (code `0x84`).
    pub name: MessageBuf,
    /// The name as a string descriptor: header unit then UTF-16 units.
    pub usb_name: Vec<u16>,
}

impl CommandState {
    pub open spec fn wf(self) -> bool {
        &&& self.name.wf()
        &&& self.name.magic == MAGIC
        &&& self.name.code == 0x84
        &&& self.usb_name@.len() == 32
    }

    /// Store a new name: remember its bytes for replies and re-encode
    /// the descriptor form.
    pub fn set_name(&mut self, name: &str, raw: &[u8])
        requires
            old(self).wf(),
            raw@.len() <= MAX_PAYLOAD,
        ensures
            final(self).wf(),
            final(self).name.len == raw@.len(),
            final(self).name.payload@.take(raw@.len() as int) == raw@,
            final(self).usb_name@[0] == (0x302 + 2 * utf16_fit(name@, 31).len()) as u16,
            final(self).usb_name@.subrange(1, 1 + utf16_fit(name@, 31).len() as int)
                == utf16_fit(name@, 31),
    {
        str_to_usb(&mut self.usb_name, name);
        let ghost un = self.usb_name@;
        let mut i: usize = 0;
        while i < raw.len()
            invariant
                i <= raw@.len(),
                raw@.len() <= MAX_PAYLOAD,
                self.name.payload@.len() == MAX_PAYLOAD + 2,
                forall|j: int| 0 <= j < i ==> self.name.payload@[j] == raw@[j],
                self.name.magic == old(self).name.magic,
                self.name.code == old(self).name.code,
                self.name.len == old(self).name.len,
                self.usb_name@ == un,
            decreases raw@.len() - i,
        {
            self.name.payload[i] = raw[i];
            i = i + 1;
        }
        self.name.len = raw.len() as u8;
        proof {
            assert(self.name.payload@.take(raw@.len() as int) =~= raw@);
        }
    }
}

/// The response to a ping: an acknowledge echoing the payload.
pub open spec fn ping_reply_spec(payload: Seq<u8>) -> Seq<u8> {
    frame_spec(0x80, payload)
}

/// The wire form of a negative acknowledgement.
pub open spec fn nak_bytes_spec(e: CommandError) -> Seq<u8> {
    frame_spec(0x81, seq![(error_code_spec(e) & 0xff) as u8, (error_code_spec(e) >> 8) as u8])
}

/// A little-endian word out of a message payload.
pub open spec fn payload_le32_spec(m: MessageBuf, at: int) -> int {
    m.payload@[at] + m.payload@[at + 1] * 0x100 + m.payload@[at + 2] * 0x10000 + m.payload@[at
        + 3] * 0x1000000
}

/// Dispatch one received command frame.  The frame is validated —
/// length against the packet, checksum over the whole frame, direction
/// bit — and either answered outright, handed over as an action for the
/// firmware to perform, or ignored.
pub fn command_handler(
    message: &MessageBuf,
    len: usize,
    st: &CommandState,
    serial_number: &[u8],
    baud: u32,
) -> (r: CommandOutcome)
    requires
        message.wf(),
        st.wf(),
        serial_number@.len() == 18,
    ensures
        message.len + 6 != len ==> (match r {
            CommandOutcome::Reply(f) => f@ == frame_spec(
                0x81,
                seq![
                    (error_code_spec(CommandError::FramingError) & 0xff) as u8,
                    (error_code_spec(CommandError::FramingError) >> 8) as u8,
                ],
            ),
            _ => false,
        }),
        (message.len + 6 == len && message.code & 0x80 != 0) ==> r is Ignore,
        ({
            let ok = message.len + 6 == len && message.code & 0x80 == 0 && crc16_cat(
                0,
                message.wire_bytes(),
            ) == 0;
            &&& (message.len + 6 == len && message.code & 0x80 == 0 && crc16_cat(
                0,
                message.wire_bytes(),
            ) != 0) ==> (match r {
                CommandOutcome::Reply(f) => f@ == frame_spec(
                    0x81,
                    seq![
                        (error_code_spec(CommandError::FramingError) & 0xff) as u8,
                        (error_code_spec(CommandError::FramingError) >> 8) as u8,
                    ],
                ),
                _ => false,
            })
            &&& (ok && message.code == 0x00) ==> (match r {
                CommandOutcome::Reply(f) => f@ == ping_reply_spec(
                    message.payload@.take(message.len as int),
                ),
                _ => false,
            })
            &&& (ok && message.code == 0x02) ==> (match r {
                CommandOutcome::Reply(f) => (message.len == 0 ==> f@ == frame_spec(
                    0x82,
                    seq![1u8, 0u8, 0u8, 0u8],
                )) && (message.len != 0 ==> f@ == frame_spec(
                    0x81,
                    seq![
                        (error_code_spec(CommandError::BadFormat) & 0xff) as u8,
                        (error_code_spec(CommandError::BadFormat) >> 8) as u8,
                    ],
                )),
                _ => false,
            })
            &&& (ok && message.code == 0x03 && message.len == 0) ==> (match r {
                CommandOutcome::Reply(f) => f@ == frame_spec(0x83, serial_number@),
                _ => false,
            })
            &&& (ok && message.code == 0x04 && message.len == 0) ==> (match r {
                CommandOutcome::Reply(f) => f@ == frame_spec(
                    0x84,
                    st.name.payload@.take(st.name.len as int),
                ),
                _ => false,
            })
            &&& (ok && message.code == 0x04 && message.len > 0) ==> (match r {
                CommandOutcome::Defer(a) => a matches CommandAction::SetName { raw }
                    && raw@ == message.payload@.take(message.len as int),
                _ => false,
            })
            &&& (ok && message.code == 0x10) ==> (r matches CommandOutcome::Defer(
                CommandAction::Reboot,
            ))
            &&& (ok && message.code == 0x11) ==> (match r {
                CommandOutcome::Defer(a) => message.len == 1 && (a matches
                    CommandAction::GpsReset(v) && v == message.payload@[0]),
                CommandOutcome::Reply(f) => message.len != 1 && f@ == nak_bytes_spec(
                    CommandError::BadFormat,
                ),
                _ => false,
            })
            &&& (ok && message.code == 0x12) ==> (match r {
                CommandOutcome::Defer(a) => message.len == 1 && (a matches
                    CommandAction::ClockGenPower(v) && v == message.payload@[0]),
                CommandOutcome::Reply(f) => message.len != 1 && f@ == nak_bytes_spec(
                    CommandError::BadFormat,
                ),
                _ => false,
            })
            &&& (ok && message.code == 0x1e) ==> (match r {
                CommandOutcome::Defer(a) => message.len == 4 && (a matches
                    CommandAction::SerialSync(us) && us == payload_le32_spec(*message, 0)
                    && us <= 1000000),
                CommandOutcome::Reply(f) => (message.len != 4 && f@ == nak_bytes_spec(
                    CommandError::BadFormat,
                )) || (message.len == 4 && payload_le32_spec(*message, 0) > 1000000 && f@
                    == nak_bytes_spec(CommandError::BadParameter)),
                _ => false,
            })
            &&& (ok && message.code == 0x1f) ==> (match r {
                CommandOutcome::Reply(f) => (message.len == 0 && f@ == frame_spec(
                    0x9f,
                    seq![
                        (baud & 0xff) as u8,
                        ((baud >> 8) & 0xff) as u8,
                        ((baud >> 16) & 0xff) as u8,
                        ((baud >> 24) & 0xff) as u8,
                    ],
                )) || (message.len != 0 && message.len != 4 && f@ == nak_bytes_spec(
                    CommandError::BadFormat,
                )),
                CommandOutcome::Defer(a) => message.len == 4 && (a matches
                    CommandAction::SetBaud(b) && b == payload_le32_spec(*message, 0)),
                _ => false,
            })
            &&& (ok && (message.code == 0x60 || message.code == 0x62)) ==> (match r {
                CommandOutcome::Defer(a) => a matches CommandAction::I2cWrite {
                    device,
                    data,
                } && device == (if message.code == 0x60 {
                    0xc8u8
                } else {
                    0x92u8
                }) && data@ == message.payload@.take(message.len as int),
                _ => false,
            })
            &&& (ok && (message.code == 0x61 || message.code == 0x63)) ==> ({
                let device = if message.code == 0x61 {
                    0xc9u8
                } else {
                    0x93u8
                };
                match r {
                    CommandOutcome::Reply(f) => (message.len == 0 && f@ == nak_bytes_spec(
                        CommandError::BadFormat,
                    )) || (message.len > 0 && message.payload@[0] > MAX_PAYLOAD && f@
                        == nak_bytes_spec(CommandError::BadParameter)),
                    CommandOutcome::Defer(a) => message.len > 0 && message.payload@[0]
                        <= MAX_PAYLOAD && (a matches CommandAction::I2cRead {
                        device: ad,
                        write_data,
                        read_len,
                        reply_code,
                    } && ad == device && read_len == message.payload@[0] && write_data@
                        == message.payload@.subrange(1, message.len as int) && reply_code == (
                    message.code | 0x80)),
                    _ => false,
                }
            })
            &&& (ok && message.code == 0x68) ==> (match r {
                CommandOutcome::Defer(a) => message.len == 0 && a matches
                    CommandAction::UpdateClockStatus,
                CommandOutcome::Reply(f) => message.len != 0 && f@ == nak_bytes_spec(
                    CommandError::BadFormat,
                ),
                _ => false,
            })
            &&& (ok && message.code == 0x71) ==> (match r {
                CommandOutcome::Defer(a) => message.len == 8 && payload_le32_spec(*message, 4)
                    <= MAX_PAYLOAD - 4 && (a matches CommandAction::Peek { address, length }
                    && address == payload_le32_spec(*message, 0) && length == payload_le32_spec(
                    *message,
                    4,
                )),
                CommandOutcome::Reply(f) => (message.len != 8 && f@ == nak_bytes_spec(
                    CommandError::BadFormat,
                )) || (message.len == 8 && payload_le32_spec(*message, 4) > MAX_PAYLOAD - 4 && f@
                    == nak_bytes_spec(CommandError::BadParameter)),
                _ => false,
            })
            &&& (ok && message.code == 0x72) ==> (match r {
                CommandOutcome::Defer(a) => message.len >= 4 && (a matches CommandAction::Poke {
                    data,
                } && data@ == message.payload@.take(message.len as int)),
                CommandOutcome::Reply(f) => message.len < 4 && f@ == nak_bytes_spec(
                    CommandError::BadParameter,
                ),
                _ => false,
            })
            &&& (ok && message.code == 0x73) ==> (match r {
                CommandOutcome::Defer(a) => message.len == 8 && (a matches
                    CommandAction::CrcRegion { address, length } && address == payload_le32_spec(
                    *message,
                    0,
                ) && length == payload_le32_spec(*message, 4)),
                CommandOutcome::Reply(f) => message.len != 8 && f@ == nak_bytes_spec(
                    CommandError::BadFormat,
                ),
                _ => false,
            })
            &&& (ok && message.code == 0x74) ==> (match r {
                CommandOutcome::Defer(a) => message.len == 4 && (a matches
                    CommandAction::FlashErase { address } && address == payload_le32_spec(
                    *message,
                    0,
                )),
                CommandOutcome::Reply(f) => message.len != 4 && f@ == nak_bytes_spec(
                    CommandError::BadFormat,
                ),
                _ => false,
            })
            &&& (ok && message.code == 0x78) ==> (match r {
                CommandOutcome::Defer(a) => a matches CommandAction::GpsWrite { data } && data@
                    == message.payload@.take(message.len as int),
                _ => false,
            })
            &&& (ok && !(message.code == 0x00 || message.code == 0x02 || message.code == 0x03
                || message.code == 0x04 || message.code == 0x10 || message.code == 0x11
                || message.code == 0x12 || message.code == 0x1e || message.code == 0x1f
                || message.code == 0x60 || message.code == 0x61 || message.code == 0x62
                || message.code == 0x63 || message.code == 0x68 || message.code == 0x71
                || message.code == 0x72 || message.code == 0x73 || message.code == 0x74
                || message.code == 0x78)) ==> (match r {
                CommandOutcome::Reply(f) => f@ == frame_spec(
                    0x81,
                    seq![
                        (error_code_spec(CommandError::UnknownMessage) & 0xff) as u8,
                        (error_code_spec(CommandError::UnknownMessage) >> 8) as u8,
                    ],
                ),
                _ => false,
            })
        }),
{
    if message.len as usize + 6 != len {
        return CommandOutcome::Reply(nak_frame(CommandError::FramingError));
    }
    if message.code & 0x80 != 0 {
        // Wrong message direction: ignore, avoiding message loops.
        return CommandOutcome::Ignore;
    }
    let mut wire: Vec<u8> = Vec::new();
    wire.push((message.magic & 0xff) as u8);
    wire.push((message.magic >> 8) as u8);
    wire.push(message.code);
    wire.push(message.len);
    let n2 = message.len as usize + 2;
    let mut i: usize = 0;
    while i < n2
        invariant
            message.wf(),
            n2 == message.len + 2,
            i <= n2,
            wire@ == seq![
                (message.magic & 0xff) as u8,
                (message.magic >> 8) as u8,
                message.code,
                message.len,
            ] + message.payload@.take(i as int),
        decreases n2 - i,
    {
        wire.push(message.payload[i]);
        proof {
            assert(wire@ =~= seq![
                (message.magic & 0xff) as u8,
                (message.magic >> 8) as u8,
                message.code,
                message.len,
            ] + message.payload@.take(i + 1));
        }
        i = i + 1;
    }
    proof {
        assert(wire@ =~= message.wire_bytes());
    }
    if crate::crc::by_bit(0, wire.as_slice()) != 0 {
        return CommandOutcome::Reply(nak_frame(CommandError::FramingError));
    }
    match message.code {
        0x00 => {
            let payload = message.get_payload();
            CommandOutcome::Reply(frame(0x80, payload.as_slice()))
        },
        0x02 => {
            if message.len != 0 {
                return CommandOutcome::Reply(nak_frame(CommandError::BadFormat));
            }
            let mut v: Vec<u8> = Vec::new();
            v.push(1);
            v.push(0);
            v.push(0);
            v.push(0);
            proof {
                assert(v@ =~= seq![1u8, 0u8, 0u8, 0u8]);
            }
            CommandOutcome::Reply(frame(0x82, v.as_slice()))
        },
        0x03 => {
            if message.len != 0 {
                return CommandOutcome::Reply(nak_frame(CommandError::BadFormat));
            }
            CommandOutcome::Reply(frame(0x83, serial_number))
        },
        0x04 => {
            if message.len == 0 {
                CommandOutcome::Reply(st.name.send())
            } else {
                CommandOutcome::Defer(CommandAction::SetName { raw: message.get_payload() })
            }
        },
        0x10 => CommandOutcome::Defer(CommandAction::Reboot),
        0x11 => {
            if message.len != 1 {
                return CommandOutcome::Reply(nak_frame(CommandError::BadFormat));
            }
            CommandOutcome::Defer(CommandAction::GpsReset(message.payload[0]))
        },
        0x12 => {
            if message.len != 1 {
                return CommandOutcome::Reply(nak_frame(CommandError::BadFormat));
            }
            CommandOutcome::Defer(CommandAction::ClockGenPower(message.payload[0]))
        },
        0x1e => {
            if message.len != 4 {
                return CommandOutcome::Reply(nak_frame(CommandError::BadFormat));
            }
            let us = message.payload[0] as u32 + (message.payload[1] as u32) * 0x100 + (
            message.payload[2] as u32) * 0x10000 + (message.payload[3] as u32) * 0x1000000;
            if us > 1000000 {
                return CommandOutcome::Reply(nak_frame(CommandError::BadParameter));
            }
            CommandOutcome::Defer(CommandAction::SerialSync(us))
        },
        0x1f => {
            if message.len == 0 {
                let mut v: Vec<u8> = Vec::new();
                v.push((baud & 0xff) as u8);
                v.push(((baud >> 8) & 0xff) as u8);
                v.push(((baud >> 16) & 0xff) as u8);
                v.push(((baud >> 24) & 0xff) as u8);
                proof {
                    assert(v@ =~= seq![
                        (baud & 0xff) as u8,
                        ((baud >> 8) & 0xff) as u8,
                        ((baud >> 16) & 0xff) as u8,
                        ((baud >> 24) & 0xff) as u8,
                    ]);
                }
                CommandOutcome::Reply(frame(0x9f, v.as_slice()))
            } else {
                if message.len != 4 {
                    return CommandOutcome::Reply(nak_frame(CommandError::BadFormat));
                }
                let b = message.payload[0] as u32 + (message.payload[1] as u32) * 0x100 + (
                message.payload[2] as u32) * 0x10000 + (message.payload[3] as u32) * 0x1000000;
                CommandOutcome::Defer(CommandAction::SetBaud(b))
            }
        },
        0x60 => CommandOutcome::Defer(
            CommandAction::I2cWrite { device: 0xc8, data: message.get_payload() },
        ),
        0x61 => i2c_read_action(message, 0xc9),
        0x62 => CommandOutcome::Defer(
            CommandAction::I2cWrite { device: 0x92, data: message.get_payload() },
        ),
        0x63 => i2c_read_action(message, 0x93),
        0x68 => {
            if message.len != 0 {
                return CommandOutcome::Reply(nak_frame(CommandError::BadFormat));
            }
            CommandOutcome::Defer(CommandAction::UpdateClockStatus)
        },
        0x71 => {
            if message.len != 8 {
                return CommandOutcome::Reply(nak_frame(CommandError::BadFormat));
            }
            let address = le32(message, 0);
            let length = le32(message, 4);
            if length as usize > MAX_PAYLOAD - 4 {
                return CommandOutcome::Reply(nak_frame(CommandError::BadParameter));
            }
            CommandOutcome::Defer(CommandAction::Peek { address, length })
        },
        0x72 => {
            if message.len < 4 {
                return CommandOutcome::Reply(nak_frame(CommandError::BadParameter));
            }
            CommandOutcome::Defer(CommandAction::Poke { data: message.get_payload() })
        },
        0x73 => {
            if message.len != 8 {
                return CommandOutcome::Reply(nak_frame(CommandError::BadFormat));
            }
            CommandOutcome::Defer(
                CommandAction::CrcRegion { address: le32(message, 0), length: le32(message, 4) },
            )
        },
        0x74 => {
            if message.len != 4 {
                return CommandOutcome::Reply(nak_frame(CommandError::BadFormat));
            }
            CommandOutcome::Defer(CommandAction::FlashErase { address: le32(message, 0) })
        },
        0x78 => CommandOutcome::Defer(CommandAction::GpsWrite { data: message.get_payload() }),
        _ => CommandOutcome::Reply(nak_frame(CommandError::UnknownMessage)),
    }
}

/// A little-endian word out of a message payload.
fn le32(message: &MessageBuf, at: usize) -> (r: u32)
    requires
        message.wf(),
        at + 4 <= message.len,
    ensures
        r == message.payload@[at as int] + message.payload@[at + 1] * 0x100
            + message.payload@[at + 2] * 0x10000 + message.payload@[at + 3] * 0x1000000,
{
    message.payload[at] as u32 + (message.payload[at + 1] as u32) * 0x100 + (
    message.payload[at + 2] as u32) * 0x10000 + (message.payload[at + 3] as u32) * 0x1000000
}

/// Parse an I2C-read request: first payload byte is the read length,
/// the rest a write to send first.
fn i2c_read_action(message: &MessageBuf, device: u8) -> (r: CommandOutcome)
    requires
        message.wf(),
    ensures
        message.len == 0 ==> (match r {
            CommandOutcome::Reply(f) => f@ == frame_spec(
                0x81,
                seq![
                    (error_code_spec(CommandError::BadFormat) & 0xff) as u8,
                    (error_code_spec(CommandError::BadFormat) >> 8) as u8,
                ],
            ),
            _ => false,
        }),
        (message.len > 0 && message.payload@[0] <= MAX_PAYLOAD) ==> (match r {
            CommandOutcome::Defer(a) => a matches CommandAction::I2cRead {
                device: ad,
                write_data,
                read_len,
                reply_code,
            } && ad == device && read_len == message.payload@[0] && write_data@
                == message.payload@.subrange(1, message.len as int) && reply_code == (
            message.code | 0x80),
            _ => false,
        }),
        (message.len > 0 && message.payload@[0] > MAX_PAYLOAD) ==> (match r {
            CommandOutcome::Reply(f) => f@ == frame_spec(
                0x81,
                seq![
                    (error_code_spec(CommandError::BadParameter) & 0xff) as u8,
                    (error_code_spec(CommandError::BadParameter) >> 8) as u8,
                ],
            ),
            _ => false,
        }),
{
    if message.len == 0 {
        return CommandOutcome::Reply(nak_frame(CommandError::BadFormat));
    }
    let rlen = message.payload[0];
    if rlen as usize > MAX_PAYLOAD {
        return CommandOutcome::Reply(nak_frame(CommandError::BadParameter));
    }
    let mut wd: Vec<u8> = Vec::new();
    let n = message.len as usize;
    let mut i: usize = 1;
    while i < n
        invariant
            message.wf(),
            n == message.len,
            1 <= i <= n,
            wd@ == message.payload@.subrange(1, i as int),
        decreases n - i,
    {
        wd.push(message.payload[i]);
        proof {
            assert(wd@ =~= message.payload@.subrange(1, i + 1));
        }
        i = i + 1;
    }
    CommandOutcome::Defer(
        CommandAction::I2cRead {
            device,
            write_data: wd,
            read_len: rlen,
            reply_code: message.code | 0x80,
        },
    )
}

} // verus!
