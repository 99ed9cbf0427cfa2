//! Device provisioning: a stored configuration is a byte stream of
//! command frames and GPS-receiver packets, run in sequence at
//! start-up.  The walk here parses the stream; running the packets —
//! command dispatch, serial output — is the caller's side.
//!
//! Parsing stops at the first stretch that is neither a whole command
//! frame nor a whole receiver packet: a truncated or corrupt tail is
//! dropped rather than guessed at.

use vstd::prelude::*;

verus! {

/// One packet of the provisioning stream.
pub enum ProvisionItem {
    /// A command frame (magic CE 93), to go through the command
    /// dispatch.
    Command(Vec<u8>),
    /// A GPS receiver packet (sync B5 62), to go out of the serial
    /// port.
    Ublox(Vec<u8>),
}

/// One packet of the provisioning stream, at the specification level.
pub enum ProvisionShape {
    Command(Seq<u8>),
    Ublox(Seq<u8>),
}

/// Total length of the command frame at the head of `data`, by its
/// length byte.
pub open spec fn command_packet_len(data: Seq<u8>) -> int {
    data[3] + 6
}

/// Total length of the receiver packet at the head of `data`, by its
/// little-endian length field.
pub open spec fn ublox_packet_len(data: Seq<u8>) -> int {
    data[4] + 256 * data[5] + 8
}

/// The parse of a provisioning stream: each whole packet in order,
/// stopping at anything else.
pub open spec fn provision_walk(data: Seq<u8>) -> Seq<ProvisionShape>
    decreases data.len(),
{
    if data.len() >= 6 && data[0] == 0xce && data[1] == 0x93 {
        let l = command_packet_len(data);
        if data.len() < l {
            Seq::empty()
        } else {
            seq![ProvisionShape::Command(data.take(l))] + provision_walk(data.skip(l))
        }
    } else if data.len() >= 8 && data[0] == 0xb5 && data[1] == 0x62 {
        let l = ublox_packet_len(data);
        if data.len() < l {
            Seq::empty()
        } else {
            seq![ProvisionShape::Ublox(data.take(l))] + provision_walk(data.skip(l))
        }
    } else {
        Seq::empty()
    }
}

/// An item carries the bytes its specification shape names.
pub open spec fn item_matches(item: ProvisionItem, shape: ProvisionShape) -> bool {
    match (item, shape) {
        (ProvisionItem::Command(v), ProvisionShape::Command(s)) => v@ == s,
        (ProvisionItem::Ublox(v), ProvisionShape::Ublox(s)) => v@ == s,
        _ => false,
    }
}

/// Copy `data[at .. at + l]` out.
fn take_packet(data: &[u8], at: usize, l: usize) -> (r: Vec<u8>)
    requires
        at + l <= data@.len(),
    ensures
        r@ == data@.subrange(at as int, at + l),
{
    let mut r: Vec<u8> = Vec::new();
    let n = data.len();
    let mut k: usize = 0;
    while k < l
        invariant
            n == data@.len(),
            at + l <= n,
            k <= l,
            r@ == data@.subrange(at as int, at + k),
        decreases l - k,
    {
        r.push(data[at + k]);
        proof {
            assert(r@ =~= data@.subrange(at as int, at + k + 1));
        }
        k = k + 1;
    }
    r
}

/// Walk a provisioning stream into its packets, in order, stopping at
/// the first thing that is not a whole packet.
pub fn provision(data: &[u8]) -> (items: Vec<ProvisionItem>)
    ensures
        items@.len() == provision_walk(data@).len(),
        forall|i: int|
            0 <= i < items@.len() ==> item_matches(
                #[trigger] items@[i],
                provision_walk(data@)[i],
            ),
{
    let mut items: Vec<ProvisionItem> = Vec::new();
    let mut at: usize = 0;
    let n = data.len();
    proof {
        assert(data@.skip(0) =~= data@);
    }
    loop
        invariant_except_break
            at <= n,
            n == data@.len(),
            provision_walk(data@).len() == items@.len() + provision_walk(
                data@.skip(at as int),
            ).len(),
            forall|i: int|
                0 <= i < items@.len() ==> item_matches(
                    #[trigger] items@[i],
                    provision_walk(data@)[i],
                ),
            forall|i: int|
                0 <= i < provision_walk(data@.skip(at as int)).len() ==> provision_walk(data@)[
                    items@.len() + i
                ] == #[trigger] provision_walk(data@.skip(at as int))[i],
        ensures
            items@.len() == provision_walk(data@).len(),
            forall|i: int|
                0 <= i < items@.len() ==> item_matches(
                    #[trigger] items@[i],
                    provision_walk(data@)[i],
                ),
        decreases n - at,
    {
        let ghost rest = data@.skip(at as int);
        let remaining = n - at;
        if remaining >= 6 && data[at] == 0xce && data[at + 1] == 0x93 {
            let l = data[at + 3] as usize + 6;
            proof {
                assert(rest[0] == data@[at as int] && rest[1] == data@[at + 1] && rest[3]
                    == data@[at + 3]);
            }
            if remaining < l {
                proof {
                    assert(provision_walk(rest) =~= Seq::<ProvisionShape>::empty());
                }
                break ;
            }
            let packet = take_packet(data, at, l);
            proof {
                assert(rest.take(l as int) =~= data@.subrange(at as int, at + l));
                assert(rest.skip(l as int) =~= data@.skip(at + l));
            }
            items.push(ProvisionItem::Command(packet));
            at = at + l;
            proof {
                let l_ = l as int;
                let shape = ProvisionShape::Command(rest.take(l_));
                assert(provision_walk(rest) == seq![shape] + provision_walk(rest.skip(l_)));
                assert(provision_walk(rest).len() == 1 + provision_walk(
                    data@.skip(at as int),
                ).len());
                assert(provision_walk(rest)[0] == shape);
                assert(provision_walk(data@)[items@.len() - 1] == shape);
                assert forall|i: int|
                    0 <= i < provision_walk(data@.skip(at as int)).len() implies provision_walk(
                    data@,
                )[items@.len() + i] == #[trigger] provision_walk(data@.skip(at as int))[i] by {
                    assert(provision_walk(rest)[i + 1] == provision_walk(
                        data@.skip(at as int),
                    )[i]);
                }
            }
        } else if remaining >= 8 && data[at] == 0xb5 && data[at + 1] == 0x62 {
            let l = data[at + 4] as usize + 256 * (data[at + 5] as usize) + 8;
            proof {
                assert(rest[0] == data@[at as int] && rest[1] == data@[at + 1] && rest[4]
                    == data@[at + 4] && rest[5] == data@[at + 5]);
            }
            if remaining < l {
                proof {
                    assert(provision_walk(rest) =~= Seq::<ProvisionShape>::empty());
                }
                break ;
            }
            let packet = take_packet(data, at, l);
            proof {
                assert(rest.take(l as int) =~= data@.subrange(at as int, at + l));
                assert(rest.skip(l as int) =~= data@.skip(at + l));
            }
            items.push(ProvisionItem::Ublox(packet));
            at = at + l;
            proof {
                let l_ = l as int;
                let shape = ProvisionShape::Ublox(rest.take(l_));
                assert(provision_walk(rest) == seq![shape] + provision_walk(rest.skip(l_)));
                assert(provision_walk(rest).len() == 1 + provision_walk(
                    data@.skip(at as int),
                ).len());
                assert(provision_walk(rest)[0] == shape);
                assert(provision_walk(data@)[items@.len() - 1] == shape);
                assert forall|i: int|
                    0 <= i < provision_walk(data@.skip(at as int)).len() implies provision_walk(
                    data@,
                )[items@.len() + i] == #[trigger] provision_walk(data@.skip(at as int))[i] by {
                    assert(provision_walk(rest)[i + 1] == provision_walk(
                        data@.skip(at as int),
                    )[i]);
                }
            }
        } else {
            proof {
                if rest.len() >= 6 && rest[0] == 0xce && rest[1] == 0x93 {
                    assert(false);
                }
                if rest.len() >= 8 && rest[0] == 0xb5 && rest[1] == 0x62 {
                    assert(false);
                }
                assert(provision_walk(rest) =~= Seq::<ProvisionShape>::empty());
            }
            break ;
        }
    }
    items
}

/// Number of configuration slots in flash.
pub const NUM_SLOTS: usize = 16;

/// Byte size of one configuration slot.
pub const SLOT_SIZE: usize = 2048;

/// Magic word opening a configuration block.
pub const CONFIG_MAGIC: u32 = 0x4b72a6ce;

/// Lowest supported configuration format revision.
pub const MIN_SUPPORTED_VERSION: u32 = 1;

/// Highest supported configuration format revision.
pub const MAX_SUPPORTED_VERSION: u32 = 1;

/// A little-endian word out of a slot's bytes.
pub open spec fn slot_word_spec(b: Seq<u8>, at: int) -> int {
    b[at] + b[at + 1] * 0x100 + b[at + 2] * 0x10000 + b[at + 3] * 0x1000000
}

/// Does the slot open with the configuration magic?
pub open spec fn slot_magic_ok_spec(b: Seq<u8>) -> bool {
    slot_word_spec(b, 0) == CONFIG_MAGIC
}

/// Is the slot's format revision one this firmware understands?
pub open spec fn slot_version_ok_spec(b: Seq<u8>) -> bool {
    MIN_SUPPORTED_VERSION <= slot_word_spec(b, 4) <= MAX_SUPPORTED_VERSION
}

/// The slot's configuration generation counter.
pub open spec fn slot_generation_spec(b: Seq<u8>) -> int {
    slot_word_spec(b, 8)
}

/// The slot's total length field, magic and checksum included.
pub open spec fn slot_length_spec(b: Seq<u8>) -> int {
    slot_word_spec(b, 12)
}

/// Is the length field sane?
pub open spec fn slot_length_ok_spec(b: Seq<u8>) -> bool {
    20 <= slot_length_spec(b) < SLOT_SIZE
}

/// Does the slot's content check out: sane length, and the checksum
/// residue over it?
pub open spec fn slot_accepted_spec(b: Seq<u8>) -> bool {
    &&& slot_magic_ok_spec(b)
    &&& slot_length_ok_spec(b)
    &&& crate::crc32::crc32_spec(b.take(slot_length_spec(b))) == crate::crc32::VERIFY_MAGIC
}

/// Slots are ranked by (supported-and-magic-tagged, generation, index),
/// greater keys being better; the index makes the order total.
pub open spec fn slot_key_lt(a: Seq<u8>, ai: int, b: Seq<u8>, bi: int) -> bool {
    let va = slot_magic_ok_spec(a) && slot_version_ok_spec(a);
    let vb = slot_magic_ok_spec(b) && slot_version_ok_spec(b);
    ||| (!va && vb)
    ||| (va == vb && slot_generation_spec(a) < slot_generation_spec(b))
    ||| (va == vb && slot_generation_spec(a) == slot_generation_spec(b) && ai < bi)
}

/// The slot the start-up scan settles on: its own content checks out,
/// and every better-ranked slot carries the magic (so the scan reaches
/// this one) but fails the length or checksum test (so the scan passes
/// it over).
pub open spec fn slot_selected_spec(blocks: Seq<Vec<u8>>, i: int) -> bool {
    &&& slot_accepted_spec(blocks[i]@)
    &&& forall|j: int|
        0 <= j < blocks.len() && j != i && slot_key_lt(blocks[i]@, i, #[trigger] blocks[j]@, j)
            ==> (slot_magic_ok_spec(blocks[j]@) && !(slot_length_ok_spec(blocks[j]@)
            && crate::crc32::crc32_spec(
            blocks[j]@.take(slot_length_spec(blocks[j]@)),
        ) == crate::crc32::VERIFY_MAGIC))
}

/// A little-endian word out of a slot.
fn slot_word(b: &Vec<u8>, at: usize) -> (r: u32)
    requires
        at + 4 <= b@.len(),
    ensures
        r == slot_word_spec(b@, at as int),
{
    let n = b.len();
    b[at] as u32 + (b[at + 1] as u32) * 0x100 + (b[at + 2] as u32) * 0x10000 + (b[at
        + 3] as u32) * 0x1000000
}

/// Does slot `a` rank below slot `b`?
fn slot_key_less(a: &Vec<u8>, ai: usize, b: &Vec<u8>, bi: usize) -> (r: bool)
    requires
        a@.len() >= 16,
        b@.len() >= 16,
    ensures
        r == slot_key_lt(a@, ai as int, b@, bi as int),
{
    let va = slot_word(a, 0) == CONFIG_MAGIC && MIN_SUPPORTED_VERSION <= slot_word(a, 4)
        && slot_word(a, 4) <= MAX_SUPPORTED_VERSION;
    let vb = slot_word(b, 0) == CONFIG_MAGIC && MIN_SUPPORTED_VERSION <= slot_word(b, 4)
        && slot_word(b, 4) <= MAX_SUPPORTED_VERSION;
    if va != vb {
        !va && vb
    } else {
        let ga = slot_word(a, 8);
        let gb = slot_word(b, 8);
        if ga != gb {
            ga < gb
        } else {
            ai < bi
        }
    }
}

/// How many slots the scan has already rejected, among the first `n`.
pub open spec fn count_done(s: Seq<bool>, n: int) -> int
    decreases n,
{
    if n <= 0 {
        0
    } else {
        count_done(s, n - 1) + (if s[n - 1] {
            1int
        } else {
            0int
        })
    }
}

proof fn lemma_count_done_le(s: Seq<bool>, n: int)
    requires
        0 <= n,
    ensures
        count_done(s, n) <= n,
    decreases n,
{
    if n > 0 {
        lemma_count_done_le(s, n - 1);
    }
}

proof fn lemma_count_done_set(s: Seq<bool>, m: int, n: int)
    requires
        0 <= m < n,
        n <= s.len(),
        !s[m],
    ensures
        count_done(s.update(m, true), n) == count_done(s, n) + 1,
    decreases n,
{
    if m == n - 1 {
        lemma_count_done_same(s, s.update(m, true), n - 1);
    } else {
        lemma_count_done_set(s, m, n - 1);
    }
}

proof fn lemma_count_done_same(s: Seq<bool>, t: Seq<bool>, n: int)
    requires
        forall|j: int| 0 <= j < n ==> s[j] == t[j],
    ensures
        count_done(s, n) == count_done(t, n),
    decreases n,
{
    if n > 0 {
        lemma_count_done_same(s, t, n - 1);
    }
}

/// Pick the configuration to apply at start-up: the best-ranked slot
/// whose content checks out.  The scan walks the slots from the best
/// rank down; a slot without the magic ends the scan (the ranking
/// places all magic-tagged slots above it), a slot with a bad length or
/// checksum is passed over.
pub fn best_config(blocks: &Vec<Vec<u8>>) -> (r: Option<usize>)
    requires
        blocks@.len() == NUM_SLOTS,
        forall|i: int| 0 <= i < NUM_SLOTS ==> (#[trigger] blocks@[i])@.len() == SLOT_SIZE,
    ensures
        match r {
            Option::Some(i) => i < NUM_SLOTS && slot_selected_spec(blocks@, i as int),
            Option::None => forall|i: int|
                0 <= i < NUM_SLOTS ==> !slot_selected_spec(blocks@, i),
        },
{
    let mut done: Vec<bool> = Vec::new();
    let mut i: usize = 0;
    while i < NUM_SLOTS
        invariant
            i <= NUM_SLOTS,
            done@.len() == i,
            forall|j: int| 0 <= j < i ==> !done@[j],
        decreases NUM_SLOTS - i,
    {
        done.push(false);
        i = i + 1;
    }
    loop
        invariant
            blocks@.len() == NUM_SLOTS,
            forall|i: int| 0 <= i < NUM_SLOTS ==> (#[trigger] blocks@[i])@.len() == SLOT_SIZE,
            done@.len() == NUM_SLOTS,
            forall|j: int|
                0 <= j < NUM_SLOTS && #[trigger] done@[j] ==> (slot_magic_ok_spec(blocks@[j]@)
                    && !(slot_length_ok_spec(blocks@[j]@) && crate::crc32::crc32_spec(
                    blocks@[j]@.take(slot_length_spec(blocks@[j]@)),
                ) == crate::crc32::VERIFY_MAGIC)),
            forall|j: int, k: int|
                0 <= j < NUM_SLOTS && 0 <= k < NUM_SLOTS && done@[j] && !done@[k]
                    ==> slot_key_lt(#[trigger] blocks@[k]@, k, #[trigger] blocks@[j]@, j),
        decreases NUM_SLOTS - count_done(done@, NUM_SLOTS as int),
    {
        proof {
            lemma_count_done_le(done@, NUM_SLOTS as int);
        }
        // Find the best-ranked slot not yet rejected.
        let mut best_i: usize = NUM_SLOTS;
        let mut j: usize = 0;
        while j < NUM_SLOTS
            invariant
                blocks@.len() == NUM_SLOTS,
                forall|i: int|
                    0 <= i < NUM_SLOTS ==> (#[trigger] blocks@[i])@.len() == SLOT_SIZE,
                done@.len() == NUM_SLOTS,
                j <= NUM_SLOTS,
                best_i == NUM_SLOTS || (best_i < j && !done@[best_i as int]),
                best_i == NUM_SLOTS ==> forall|k: int| 0 <= k < j ==> done@[k],
                best_i < NUM_SLOTS ==> forall|k: int|
                    0 <= k < j && !done@[k] && k != best_i ==> slot_key_lt(
                        #[trigger] blocks@[k]@,
                        k,
                        blocks@[best_i as int]@,
                        best_i as int,
                    ),
            decreases NUM_SLOTS - j,
        {
            if !done[j] {
                if best_i == NUM_SLOTS {
                    best_i = j;
                } else if slot_key_less(&blocks[best_i], best_i, &blocks[j], j) {
                    best_i = j;
                }
            }
            j = j + 1;
        }
        if best_i == NUM_SLOTS {
            // Every slot was examined and rejected.
            return None;
        }
        let m = best_i;
        if slot_word(&blocks[m], 0) != CONFIG_MAGIC {
            // The best remaining slot has no magic: everything below it
            // in rank is not worth reading.
            proof {
                assert forall|i: int|
                    0 <= i < NUM_SLOTS implies !slot_selected_spec(blocks@, i) by {
                    if i == m {
                    } else if done@[i] {
                    } else {
                        assert(slot_key_lt(blocks@[i]@, i, blocks@[m as int]@, m as int));
                    }
                }
            }
            return None;
        }
        let length = slot_word(&blocks[m], 12);
        if length >= 20 && (length as usize) < SLOT_SIZE {
            let mut body: Vec<u8> = Vec::new();
            let mut k: usize = 0;
            while k < length as usize
                invariant
                    blocks@.len() == NUM_SLOTS,
                    m < NUM_SLOTS,
                    (length as usize) < SLOT_SIZE,
                    blocks@[m as int]@.len() == SLOT_SIZE,
                    k <= length,
                    body@ == blocks@[m as int]@.take(k as int),
                decreases length - k,
            {
                body.push(blocks[m][k]);
                proof {
                    assert(body@ =~= blocks@[m as int]@.take(k + 1));
                }
                k = k + 1;
            }
            let crc = crate::crc32::compute(body.as_slice());
            if crc == crate::crc32::VERIFY_MAGIC {
                proof {
                    assert forall|j: int|
                        0 <= j < NUM_SLOTS && j != m && slot_key_lt(
                            blocks@[m as int]@,
                            m as int,
                            #[trigger] blocks@[j]@,
                            j,
                        ) implies (slot_magic_ok_spec(blocks@[j]@) && !(slot_length_ok_spec(
                        blocks@[j]@,
                    ) && crate::crc32::crc32_spec(
                        blocks@[j]@.take(slot_length_spec(blocks@[j]@)),
                    ) == crate::crc32::VERIFY_MAGIC)) by {
                        if !done@[j] {
                            assert(slot_key_lt(blocks@[j]@, j, blocks@[m as int]@, m as int));
                            assert(false);
                        }
                    }
                }
                return Some(m);
            }
        }
        // A bad length or checksum: pass this slot over.
        let ghost pre_done = done@;
        done[m] = true;
        proof {
            lemma_count_done_set(pre_done, m as int, NUM_SLOTS as int);
            lemma_count_done_le(done@, NUM_SLOTS as int);
        }
    }
}

} // verus!
