//! String descriptors: the static string table, UTF-16 encoding, and the
//! serial-number string served from the stored device name.

use vstd::prelude::*;

use crate::types::SetupResult;

verus! {

/// Number of entries in the static string table (index 0 is the language
/// list).
pub const NUM_STRINGS: usize = 8;

/// The UTF-16 encoding of one character: one unit below `0x10000`, a
/// surrogate pair above.
pub open spec fn utf16_char(c: char) -> Seq<u16> {
    if (c as u32) < 0x10000 {
        seq![(c as u32) as u16]
    } else {
        seq![
            ((((((c as u32) - 0x10000) as u32) >> 10) & 0x3ff) + 0xd800) as u16,
            (((c as u32) & 0x3ff) + 0xdc00) as u16,
        ]
    }
}

/// The UTF-16 encoding of a character sequence.
pub open spec fn utf16_seq(s: Seq<char>) -> Seq<u16>
    decreases s.len(),
{
    if s.len() == 0 {
        Seq::empty()
    } else {
        utf16_char(s[0]) + utf16_seq(s.drop_first())
    }
}

/// The longest whole-character prefix of the UTF-16 encoding of `s` that
/// fits in `cap` units; encoding stops at the first character that does
/// not fit.
pub open spec fn utf16_fit(s: Seq<char>, cap: int) -> Seq<u16>
    decreases s.len(),
{
    if s.len() == 0 {
        Seq::empty()
    } else {
        let e = utf16_char(s[0]);
        if e.len() <= cap {
            e + utf16_fit(s.drop_first(), cap - e.len())
        } else {
            Seq::empty()
        }
    }
}

/// When the whole encoding fits, truncation changes nothing.
pub proof fn lemma_utf16_fit_all(s: Seq<char>, cap: int)
    requires
        utf16_seq(s).len() <= cap,
    ensures
        utf16_fit(s, cap) == utf16_seq(s),
    decreases s.len(),
{
    if s.len() > 0 {
        lemma_utf16_fit_all(s.drop_first(), cap - utf16_char(s[0]).len());
    }
}

/// The collected characters of a string slice.
pub fn chars_vec(s: &str) -> (r: Vec<char>)
    ensures
        r@ == s@,
{
    let mut r: Vec<char> = Vec::new();
    for c in it: s.chars()
        invariant
            it.seq() == s@,
            r@ == s@.take(it.index() as int),
    {
        r.push(c);
        proof {
            assert(r@ =~= s@.take(it.index() + 1));
        }
    }
    proof {
        assert(r@ =~= s@);
    }
    r
}

/// Append the UTF-16 encoding of one character.
pub fn utf16_push(out: &mut Vec<u16>, c: char)
    ensures
        final(out)@ == old(out)@ + utf16_char(c),
{
    let code = c as u32;
    if code < 0x10000 {
        out.push(code as u16);
        assert(out@ =~= old(out)@ + utf16_char(c));
    } else {
        let cc = code - 0x10000;
        proof {
            assert((cc >> 10) & 0x3ff <= 0x3ff && code & 0x3ff <= 0x3ff) by (bit_vector);
        }
        out.push((((cc >> 10) & 0x3ff) + 0xd800) as u16);
        out.push(((code & 0x3ff) + 0xdc00) as u16);
        assert(out@ =~= old(out)@ + utf16_char(c));
    }
}

/// The UTF-16 encoding of a whole string.
pub fn utf16_units(s: &str) -> (r: Vec<u16>)
    ensures
        r@ == utf16_seq(s@),
{
    let cs = chars_vec(s);
    let mut r: Vec<u16> = Vec::new();
    let mut i: usize = 0;
    while i < cs.len()
        invariant
            i <= cs@.len(),
            cs@ == s@,
            r@ == utf16_seq(cs@.take(i as int)),
        decreases cs@.len() - i,
    {
        proof {
            lemma_utf16_snoc(cs@.take(i as int), cs@[i as int]);
            assert(cs@.take(i + 1) =~= cs@.take(i as int).push(cs@[i as int]));
        }
        utf16_push(&mut r, cs[i]);
        i = i + 1;
    }
    proof {
        assert(cs@.take(cs@.len() as int) =~= cs@);
    }
    r
}

/// Appending one character appends its encoding.
pub proof fn lemma_utf16_snoc(s: Seq<char>, c: char)
    ensures
        utf16_seq(s.push(c)) == utf16_seq(s) + utf16_char(c),
    decreases s.len(),
{
    reveal_with_fuel(utf16_seq, 3);
    assert(s.push(c)[0] == if s.len() == 0 { c } else { s[0] });
    if s.len() == 0 {
        assert(s.push(c).drop_first() =~= Seq::<char>::empty());
        assert(utf16_seq(s.push(c)) =~= utf16_seq(s) + utf16_char(c));
    } else {
        assert(s.push(c).drop_first() =~= s.drop_first().push(c));
        lemma_utf16_snoc(s.drop_first(), c);
        assert(utf16_seq(s.push(c)) =~= utf16_seq(s) + utf16_char(c));
    }
}

/// Fill `out` with a string descriptor for `s`: a header unit holding
/// the descriptor type and byte length, then the UTF-16 units of `s`,
/// truncated to whole characters where `out` is too short.  Slots past
/// the encoding keep their old value; the header counts only what was
/// written.
pub fn str_to_usb(out: &mut Vec<u16>, s: &str)
    requires
        old(out)@.len() <= 127,
    ensures
        final(out)@.len() == old(out)@.len(),
        old(out)@.len() > 0 ==> {
            let fit = utf16_fit(s@, old(out)@.len() - 1);
            &&& final(out)@[0] == (0x302 + 2 * fit.len()) as u16
            &&& final(out)@.subrange(1, 1 + fit.len() as int) == fit
            &&& forall|k: int|
                1 + fit.len() <= k < old(out)@.len() ==> final(out)@[k] == old(out)@[k]
        },
        old(out)@.len() == 0 ==> final(out)@ == old(out)@,
{
    if out.len() == 0 {
        return ;
    }
    let ghost cap = out@.len() - 1;
    let cs = chars_vec(s);
    let mut w: usize = 1;
    let mut i: usize = 0;
    let ghost orig = out@;
    proof {
        assert(out@.subrange(1, 1) =~= Seq::<u16>::empty());
        assert(cs@.take(0) =~= Seq::<char>::empty());
        assert(cs@.skip(0) =~= cs@);
        assert(utf16_seq(cs@.take(0)) + utf16_fit(cs@, cap) =~= utf16_fit(cs@, cap));
    }
    loop
        invariant_except_break
            cs@ == s@,
            1 <= w <= out@.len(),
            i <= cs@.len(),
            out@.len() == orig.len(),
            orig.len() <= 127,
            cap == orig.len() - 1,
            out@[0] == orig[0],
            out@.subrange(1, w as int) == utf16_seq(cs@.take(i as int)),
            w - 1 == utf16_seq(cs@.take(i as int)).len(),
            forall|k: int| w <= k < orig.len() ==> out@[k] == orig[k],
            utf16_fit(cs@, cap) == utf16_seq(cs@.take(i as int)) + utf16_fit(
                cs@.skip(i as int),
                cap - (w - 1),
            ),
        ensures
            cs@ == s@,
            1 <= w <= out@.len(),
            out@.len() == orig.len(),
            orig.len() <= 127,
            out@[0] == orig[0],
            out@.subrange(1, w as int) == utf16_fit(cs@, cap),
            w - 1 == utf16_fit(cs@, cap).len(),
            forall|k: int| w <= k < orig.len() ==> out@[k] == orig[k],
        decreases cs@.len() - i,
    {
        if i >= cs.len() {
            proof {
                assert(cs@.skip(i as int) =~= Seq::<char>::empty());
                assert(cs@.take(i as int) =~= cs@);
            }
            break ;
        }
        let c = cs[i];
        let code = c as u32;
        proof {
            assert(cs@.skip(i as int)[0] == cs@[i as int]);
            assert(cs@.skip(i + 1) =~= cs@.skip(i as int).drop_first());
            assert(cs@.take(i + 1) =~= cs@.take(i as int).push(cs@[i as int]));
            lemma_utf16_snoc(cs@.take(i as int), cs@[i as int]);
        }
        if code < 0x10000 {
            if w >= out.len() {
                proof {
                    assert(utf16_fit(cs@.skip(i as int), cap - (w - 1)) =~= Seq::<u16>::empty());
                    assert(cs@.take(i as int) =~= cs@.take(i as int));
                }
                break ;
            }
            out[w] = code as u16;
            proof {
                assert(utf16_char(c) =~= seq![code as u16]);
            }
            w = w + 1;
        } else {
            if out.len() - w < 2 {
                proof {
                    assert(utf16_fit(cs@.skip(i as int), cap - (w - 1)) =~= Seq::<u16>::empty());
                }
                break ;
            }
            let cc = code - 0x10000;
            proof {
                assert((cc >> 10) & 0x3ff <= 0x3ff && code & 0x3ff <= 0x3ff) by (bit_vector);
            }
            out[w] = (((cc >> 10) & 0x3ff) + 0xd800) as u16;
            out[w + 1] = ((code & 0x3ff) + 0xdc00) as u16;
            proof {
                assert(utf16_char(c) =~= seq![
                    (((cc >> 10) & 0x3ff) + 0xd800) as u16,
                    ((code & 0x3ff) + 0xdc00) as u16,
                ]);
            }
            w = w + 2;
        }
        i = i + 1;
        proof {
            assert(utf16_seq(cs@.take(i as int)) == utf16_seq(cs@.take(i - 1)) + utf16_char(
                cs@[i - 1],
            ));
            assert(out@.subrange(1, w as int) =~= utf16_seq(cs@.take(i as int)));
        }
    }
    let units = w - 1;
    let head: u16 = 0x302 + 2 * (units as u16);
    out[0] = head;
    proof {
        assert(out@.subrange(1, w as int) =~= utf16_fit(s@, cap));
        assert(out@.subrange(1, 1 + utf16_fit(s@, cap).len() as int) == utf16_fit(s@, cap));
    }
}

/// The string table: language list first, then the names the descriptors
/// point at.
pub fn string_table(i: usize) -> (r: &'static str)
    requires
        i < NUM_STRINGS,
    ensures
        r@ == string_table_spec(i as int),
{
    match i {
        0 => "\u{0409}",
        1 => "Ralph",
        2 => "GPS Freak",
        3 => "Device Configuration",
        4 => "CDC",
        5 => "CDC DATA interface",
        6 => "Device Control",
        _ => "DFU",
    }
}

pub open spec fn string_table_spec(i: int) -> Seq<char> {
    if i == 0 {
        "\u{0409}"@
    } else if i == 1 {
        "Ralph"@
    } else if i == 2 {
        "GPS Freak"@
    } else if i == 3 {
        "Device Configuration"@
    } else if i == 4 {
        "CDC"@
    } else if i == 5 {
        "CDC DATA interface"@
    } else if i == 6 {
        "Device Control"@
    } else {
        "DFU"@
    }
}

/// Compare two string slices character by character.
pub fn str_eq(a: &str, b: &str) -> (r: bool)
    ensures
        r == (a@ == b@),
{
    let va = chars_vec(a);
    let vb = chars_vec(b);
    if va.len() != vb.len() {
        proof {
            assert(a@.len() != b@.len() ==> a@ != b@);
        }
        return false;
    }
    let n = va.len();
    let mut i: usize = 0;
    while i < n
        invariant
            va@ == a@,
            vb@ == b@,
            n == va@.len(),
            n == vb@.len(),
            i <= n,
            forall|j: int| 0 <= j < i ==> va@[j] == vb@[j],
        decreases n - i,
    {
        if va[i] != vb[i] {
            return false;
        }
        i = i + 1;
    }
    proof {
        assert(a@ =~= b@);
    }
    true
}

/// The index a string occupies in the table, or the table size where it
/// does not occur.
pub fn string_index(s: &str) -> (r: u8)
    ensures
        r <= NUM_STRINGS,
        r < NUM_STRINGS ==> s@ == string_table_spec(r as int),
        r == NUM_STRINGS ==> forall|i: int| 0 <= i < NUM_STRINGS ==> s@ != string_table_spec(i),
{
    let mut i: usize = 0;
    while i < NUM_STRINGS
        invariant
            i <= NUM_STRINGS,
            forall|j: int| 0 <= j < i ==> s@ != string_table_spec(j),
        decreases NUM_STRINGS - i,
    {
        if str_eq(string_table(i), s) {
            return i as u8;
        }
        i = i + 1;
    }
    NUM_STRINGS as u8
}

/// A sequence of UTF-16 units as bytes on the wire, little endian.
pub open spec fn units_bytes_spec(u: Seq<u16>) -> Seq<u8>
    decreases u.len(),
{
    if u.len() == 0 {
        Seq::empty()
    } else {
        seq![(u[0] & 0xff) as u8, (u[0] >> 8) as u8] + units_bytes_spec(u.drop_first())
    }
}

/// Appending one unit appends its two bytes.
pub proof fn lemma_units_bytes_snoc(u: Seq<u16>, x: u16)
    ensures
        units_bytes_spec(u.push(x)) == units_bytes_spec(u) + seq![
            (x & 0xff) as u8,
            (x >> 8) as u8,
        ],
    decreases u.len(),
{
    reveal_with_fuel(units_bytes_spec, 3);
    assert(u.push(x)[0] == if u.len() == 0 { x } else { u[0] });
    if u.len() == 0 {
        assert(u.push(x).drop_first() =~= Seq::<u16>::empty());
        assert(units_bytes_spec(u.push(x)) =~= units_bytes_spec(u) + seq![
            (x & 0xff) as u8,
            (x >> 8) as u8,
        ]);
    } else {
        assert(u.push(x).drop_first() =~= u.drop_first().push(x));
        lemma_units_bytes_snoc(u.drop_first(), x);
        assert(units_bytes_spec(u.push(x)) =~= units_bytes_spec(u) + seq![
            (x & 0xff) as u8,
            (x >> 8) as u8,
        ]);
    }
}

/// Serialize UTF-16 units little endian.
pub fn units_to_bytes(u: &[u16]) -> (r: Vec<u8>)
    ensures
        r@ == units_bytes_spec(u@),
        r@.len() == 2 * u@.len(),
{
    let mut r: Vec<u8> = Vec::new();
    let mut i: usize = 0;
    while i < u.len()
        invariant
            i <= u@.len(),
            r@ == units_bytes_spec(u@.take(i as int)),
            r@.len() == 2 * i,
        decreases u@.len() - i,
    {
        proof {
            lemma_units_bytes_snoc(u@.take(i as int), u@[i as int]);
            assert(u@.take(i + 1) =~= u@.take(i as int).push(u@[i as int]));
        }
        let x = u[i];
        r.push((x & 0xff) as u8);
        r.push((x >> 8) as u8);
        proof {
            assert(r@ =~= units_bytes_spec(u@.take(i + 1)));
        }
        i = i + 1;
    }
    proof {
        assert(u@.take(u@.len() as int) =~= u@);
    }
    r
}

/// The wire form of the string descriptor for table entry `i`.
pub open spec fn string_descriptor_spec(i: int) -> Seq<u8> {
    let units = utf16_seq(string_table_spec(i));
    seq![(2 + 2 * units.len()) as u8, crate::types::TYPE_STRING] + units_bytes_spec(units)
}

/// Serve a GET_DESCRIPTOR request for string `idx`.  Indexes below the
/// table size come from the table; the serial-number index serves the
/// stored device name (already a string descriptor, its first unit the
/// header); anything else is rejected.
pub fn get_descriptor(idx: u8, name: &[u16]) -> (r: SetupResult)
    requires
        name@.len() > 0,
    ensures
        (idx as usize) < NUM_STRINGS ==> (match r {
            SetupResult::SendData(d) => d@ == string_descriptor_spec(idx as int),
            _ => false,
        }),
        (idx as usize) == NUM_STRINGS ==> (match r {
            SetupResult::SendData(d) => {
                let bl = (name@[0] & 0xff) as int;
                let all = units_bytes_spec(name@);
                d@ == all.take(if bl <= all.len() { bl } else { all.len() as int })
            },
            _ => false,
        }),
        (idx as usize) > NUM_STRINGS ==> (r is Error),
{
    if (idx as usize) < NUM_STRINGS {
        let s = string_table(idx as usize);
        let units = utf16_units(s);
        let mut d: Vec<u8> = Vec::new();
        let n: usize = units.len();
        proof {
            lemma_string_table_short(idx as int);
        }
        d.push(2 + 2 * (n as u8));
        d.push(crate::types::TYPE_STRING);
        let mut bytes = units_to_bytes(units.as_slice());
        d.append(&mut bytes);
        proof {
            assert(d@ =~= string_descriptor_spec(idx as int));
        }
        SetupResult::SendData(d)
    } else if (idx as usize) == NUM_STRINGS {
        let byte_len: usize = (name[0] & 0xff) as usize;
        let all = units_to_bytes(name);
        let take: usize = if byte_len <= all.len() {
            byte_len
        } else {
            all.len()
        };
        let mut d: Vec<u8> = Vec::new();
        let mut k: usize = 0;
        while k < take
            invariant
                k <= take,
                take <= all@.len(),
                d@ == all@.take(k as int),
            decreases take - k,
        {
            d.push(all[k]);
            proof {
                assert(d@ =~= all@.take(k + 1));
            }
            k = k + 1;
        }
        SetupResult::SendData(d)
    } else {
        SetupResult::Error
    }
}

/// Every table entry encodes to at most 126 UTF-16 units.
proof fn lemma_string_table_short(i: int)
    requires
        0 <= i < NUM_STRINGS,
    ensures
        utf16_seq(string_table_spec(i)).len() <= 126,
{
    reveal_strlit("\u{0409}");
    reveal_strlit("Ralph");
    reveal_strlit("GPS Freak");
    reveal_strlit("Device Configuration");
    reveal_strlit("CDC");
    reveal_strlit("CDC DATA interface");
    reveal_strlit("Device Control");
    reveal_strlit("DFU");
    lemma_utf16_len(string_table_spec(i));
}

/// The encoding is at most twice as long as the text.
pub proof fn lemma_utf16_len(s: Seq<char>)
    ensures
        utf16_seq(s).len() <= 2 * s.len(),
    decreases s.len(),
{
    if s.len() > 0 {
        lemma_utf16_len(s.drop_first());
    }
}

} // verus!
