//! UTF-16 text as Windows takes it: NUL-terminated wide strings, and
//! `REG_SZ` registry values stored as little-endian UTF-16 bytes.
use crate::text::{chars_of, push_char};
use vstd::prelude::*;

verus! {

/// `v` is a Unicode scalar value (what a `char` can hold).
pub open spec fn is_scalar(v: u32) -> bool {
    v <= 0x10FFFF && !(0xD800 <= v && v <= 0xDFFF)
}

/// `char::from_u32`: the character with code point `v`, when `v` is a
/// Unicode scalar value, and `None` otherwise, as its documentation states.
#[verifier::external_body]
pub(crate) fn char_from_u32(v: u32) -> (r: Option<char>)
    ensures
        is_scalar(v) ==> r == Some(v as char),
        !is_scalar(v) ==> r is None,
{
    char::from_u32(v)
}

/// The UTF-16 code units of one character.
pub open spec fn utf16_units(c: char) -> Seq<u16> {
    let v = c as u32;
    if v < 0x10000 {
        seq![v as u16]
    } else {
        let w = (v - 0x10000) as u32;
        seq![(0xD800 + w / 0x400) as u16, (0xDC00 + w % 0x400) as u16]
    }
}

/// The UTF-16 encoding of `s` (`str::encode_utf16`).
pub open spec fn utf16_encode(s: Seq<char>) -> Seq<u16>
    decreases s.len(),
{
    if s.len() == 0 {
        Seq::empty()
    } else {
        utf16_units(s[0]) + utf16_encode(s.skip(1))
    }
}

pub open spec fn is_high_surrogate(u: u16) -> bool {
    0xD800 <= u && u <= 0xDBFF
}

pub open spec fn is_low_surrogate(u: u16) -> bool {
    0xDC00 <= u && u <= 0xDFFF
}

/// The code point of a surrogate pair.
pub open spec fn pair_value(hi: u16, lo: u16) -> u32 {
    (0x10000 + (hi - 0xD800) * 0x400 + (lo - 0xDC00)) as u32
}

/// Lossy UTF-16 decoding (`String::from_utf16_lossy`): a surrogate pair
/// gives its character, an unpaired surrogate gives U+FFFD, and every other
/// unit is the character with that code point.
pub open spec fn utf16_decode(u: Seq<u16>) -> Seq<char>
    decreases u.len(),
{
    if u.len() == 0 {
        Seq::empty()
    } else if u.len() >= 2 && is_high_surrogate(u[0]) && is_low_surrogate(u[1]) {
        seq![pair_value(u[0], u[1]) as char] + utf16_decode(u.skip(2))
    } else if 0xD800 <= u[0] && u[0] <= 0xDFFF {
        seq!['\u{FFFD}'] + utf16_decode(u.skip(1))
    } else {
        seq![(u[0] as u32) as char] + utf16_decode(u.skip(1))
    }
}

pub proof fn lemma_char_range(c: char)
    ensures
        (c as u32) <= 0x10FFFF,
        !(0xD800 <= (c as u32) && (c as u32) <= 0xDFFF),
        ((c as u32) as char) == c,
{
}

proof fn lemma_encode_single(c: char)
    ensures
        utf16_encode(seq![c]) == utf16_units(c),
{
    assert(seq![c].skip(1) =~= Seq::<char>::empty());
    assert(utf16_encode(Seq::<char>::empty()) == Seq::<u16>::empty());
    assert(utf16_encode(seq![c]) =~= utf16_units(c));
}

proof fn lemma_encode_append(a: Seq<char>, b: Seq<char>)
    ensures
        utf16_encode(a + b) == utf16_encode(a) + utf16_encode(b),
    decreases a.len(),
{
    if a.len() == 0 {
        assert(a + b =~= b);
    } else {
        assert((a + b).skip(1) =~= a.skip(1) + b);
        lemma_encode_append(a.skip(1), b);
        assert(utf16_encode(a + b) =~= utf16_encode(a) + utf16_encode(b));
    }
}

/// The UTF-16 code units of `c`, appended to `out`.
fn push_utf16(out: &mut Vec<u16>, c: char)
    ensures
        final(out)@ == old(out)@ + utf16_units(c),
{
    let v = c as u32;
    if v < 0x10000 {
        out.push(v as u16);
        assert(final(out)@ =~= old(out)@ + utf16_units(c));
    } else {
        let w: u32 = v - 0x10000;
        assert(w / 0x400 < 0x400) by (nonlinear_arith)
            requires
                w <= 0x10FFFF - 0x10000,
        ;
        out.push((0xD800 + w / 0x400) as u16);
        out.push((0xDC00 + w % 0x400) as u16);
        assert(final(out)@ =~= old(out)@ + utf16_units(c));
    }
}

/// `s` as a NUL-terminated UTF-16 string for the Windows API.
pub fn to_wide(s: &str) -> (w: Vec<u16>)
    ensures
        w@ == utf16_encode(s@).push(0),
{
    let cs = chars_of(s);
    let mut w: Vec<u16> = Vec::new();
    let mut i: usize = 0;
    assert(cs@.take(0) =~= Seq::<char>::empty());
    while i < cs.len()
        invariant
            cs@ == s@,
            i <= cs@.len(),
            w@ == utf16_encode(cs@.take(i as int)),
        decreases cs@.len() - i,
    {
        proof {
            let c = cs@[i as int];
            lemma_encode_append(cs@.take(i as int), seq![c]);
            assert(cs@.take(i as int) + seq![c] =~= cs@.take(i + 1));
            lemma_encode_single(c);
        }
        push_utf16(&mut w, cs[i]);
        i = i + 1;
    }
    assert(cs@.take(cs@.len() as int) =~= cs@);
    w.push(0);
    w
}

/// The little-endian bytes of UTF-16 code units.
pub open spec fn le_bytes(u: Seq<u16>) -> Seq<u8>
    decreases u.len(),
{
    if u.len() == 0 {
        Seq::empty()
    } else {
        seq![(u[0] % 256) as u8, (u[0] / 256) as u8] + le_bytes(u.skip(1))
    }
}

/// The code units read back from little-endian bytes, two bytes each; a
/// last odd byte is the low half of a unit whose high half is zero.
pub open spec fn le_words(b: Seq<u8>) -> Seq<u16>
    decreases b.len(),
{
    if b.len() == 0 {
        Seq::empty()
    } else if b.len() == 1 {
        seq![b[0] as u16]
    } else {
        seq![(b[0] + 256 * b[1]) as u16] + le_words(b.skip(2))
    }
}

/// The registry data of a `REG_SZ` value holding `s`: its UTF-16 units with
/// a terminating NUL, as little-endian bytes.
pub open spec fn reg_sz_bytes(s: Seq<char>) -> Seq<u8> {
    le_bytes(utf16_encode(s).push(0))
}

/// `s` without its trailing NUL characters (`trim_end_matches('\0')`).
pub open spec fn trim_trailing_nuls(s: Seq<char>) -> Seq<char>
    decreases s.len(),
{
    if s.len() > 0 && s.last() == '\0' {
        trim_trailing_nuls(s.drop_last())
    } else {
        s
    }
}

/// The text of a `REG_SZ` value read back from its registry data.
pub open spec fn reg_sz_text(b: Seq<u8>) -> Seq<char> {
    trim_trailing_nuls(utf16_decode(le_words(b)))
}

proof fn lemma_le_bytes_single(u: u16)
    ensures
        le_bytes(seq![u]) == seq![(u % 256) as u8, (u / 256) as u8],
{
    assert(seq![u].skip(1) =~= Seq::<u16>::empty());
    assert(le_bytes(Seq::<u16>::empty()) == Seq::<u8>::empty());
    assert(le_bytes(seq![u]) =~= seq![(u % 256) as u8, (u / 256) as u8]);
}

proof fn lemma_le_bytes_append(a: Seq<u16>, b: Seq<u16>)
    ensures
        le_bytes(a + b) == le_bytes(a) + le_bytes(b),
    decreases a.len(),
{
    if a.len() == 0 {
        assert(a + b =~= b);
    } else {
        assert((a + b).skip(1) =~= a.skip(1) + b);
        lemma_le_bytes_append(a.skip(1), b);
        assert(le_bytes(a + b) =~= le_bytes(a) + le_bytes(b));
    }
}

/// The registry data of a `REG_SZ` value holding `s`.
pub fn reg_sz_data(s: &str) -> (b: Vec<u8>)
    ensures
        b@ == reg_sz_bytes(s@),
{
    let w = to_wide(s);
    let mut b: Vec<u8> = Vec::new();
    let mut i: usize = 0;
    assert(w@.take(0) =~= Seq::<u16>::empty());
    while i < w.len()
        invariant
            w@ == utf16_encode(s@).push(0),
            i <= w@.len(),
            b@ == le_bytes(w@.take(i as int)),
        decreases w@.len() - i,
    {
        let u = w[i];
        proof {
            lemma_le_bytes_append(w@.take(i as int), seq![u]);
            assert(w@.take(i as int) + seq![u] =~= w@.take(i + 1));
            lemma_le_bytes_single(u);
        }
        b.push((u % 256) as u8);
        b.push((u / 256) as u8);
        assert(b@ =~= le_bytes(w@.take(i + 1)));
        i = i + 1;
    }
    assert(w@.take(w@.len() as int) =~= w@);
    b
}

/// The code units held in little-endian bytes.
fn words_of(b: &[u8]) -> (u: Vec<u16>)
    ensures
        u@ == le_words(b@),
{
    let mut u: Vec<u16> = Vec::new();
    let mut i: usize = 0;
    assert(b@.skip(0) =~= b@);
    assert(u@ + le_words(b@) =~= le_words(b@));
    while i < b.len()
        invariant
            i <= b@.len(),
            u@ + le_words(b@.skip(i as int)) == le_words(b@),
        decreases b@.len() - i,
    {
        if i + 1 < b.len() {
            let lo = b[i] as u16;
            let hi = b[i + 1] as u16;
            let word: u16 = lo + 256 * hi;
            proof {
                let r = b@.skip(i as int);
                assert(r.skip(2) =~= b@.skip(i + 2));
                assert(le_words(r) =~= seq![word] + le_words(r.skip(2)));
            }
            u.push(word);
            assert(u@ + le_words(b@.skip(i + 2)) =~= le_words(b@));
            i = i + 2;
        } else {
            proof {
                let r = b@.skip(i as int);
                assert(b@.skip(i + 1).len() == 0);
                assert(le_words(r) =~= seq![b@[i as int] as u16]);
            }
            u.push(b[i] as u16);
            assert(b@.skip(i + 1) =~= Seq::<u8>::empty());
            assert(u@ + le_words(b@.skip(i + 1)) =~= le_words(b@));
            i = i + 1;
        }
    }
    assert(b@.skip(i as int) =~= Seq::<u8>::empty());
    assert(u@ =~= u@ + le_words(b@.skip(i as int)));
    u
}

/// Lossy UTF-16 decoding of `u`.
fn decode_utf16_lossy(u: &Vec<u16>) -> (s: String)
    ensures
        s@ == utf16_decode(u@),
{
    let mut s = String::new();
    let mut i: usize = 0;
    assert(u@.skip(0) =~= u@);
    assert(s@ + utf16_decode(u@) =~= utf16_decode(u@));
    while i < u.len()
        invariant
            i <= u@.len(),
            s@ + utf16_decode(u@.skip(i as int)) == utf16_decode(u@),
        decreases u@.len() - i,
    {
        let a = u[i];
        let r = Ghost(u@.skip(i as int));
        if i + 1 < u.len() && 0xD800 <= a && a <= 0xDBFF && 0xDC00 <= u[i + 1] && u[i + 1] <= 0xDFFF {
            let bb = u[i + 1];
            let v: u32 = 0x10000 + ((a - 0xD800) as u32) * 0x400 + ((bb - 0xDC00) as u32);
            assert(is_scalar(v));
            let c = char_from_u32(v).unwrap();
            proof {
                assert(r@.skip(2) =~= u@.skip(i + 2));
                assert(v == pair_value(r@[0], r@[1]));
            }
            push_char(&mut s, c);
            assert(s@ + utf16_decode(u@.skip(i + 2)) =~= utf16_decode(u@));
            i = i + 2;
        } else {
            let c = if 0xD800 <= a && a <= 0xDFFF {
                '\u{FFFD}'
            } else {
                assert(is_scalar(a as u32));
                char_from_u32(a as u32).unwrap()
            };
            proof {
                assert(r@.skip(1) =~= u@.skip(i + 1));
            }
            push_char(&mut s, c);
            assert(s@ + utf16_decode(u@.skip(i + 1)) =~= utf16_decode(u@));
            i = i + 1;
        }
    }
    assert(u@.skip(i as int) =~= Seq::<u16>::empty());
    assert(s@ =~= s@ + utf16_decode(u@.skip(i as int)));
    s
}

/// `s` without its trailing NUL characters.
fn trim_nuls(s: &str) -> (r: String)
    ensures
        r@ == trim_trailing_nuls(s@),
{
    let cs = chars_of(s);
    let mut e: usize = cs.len();
    assert(cs@.take(cs@.len() as int) =~= s@);
    while e > 0 && cs[e - 1] == '\0'
        invariant
            cs@ == s@,
            e <= cs@.len(),
            trim_trailing_nuls(cs@.take(e as int)) == trim_trailing_nuls(s@),
        decreases e,
    {
        assert(cs@.take(e as int).drop_last() =~= cs@.take(e - 1));
        e = e - 1;
    }
    let mut r = String::new();
    let mut k: usize = 0;
    while k < e
        invariant
            e <= cs@.len(),
            k <= e,
            r@ == cs@.take(k as int),
        decreases e - k,
    {
        push_char(&mut r, cs[k]);
        assert(r@ =~= cs@.take(k + 1));
        k = k + 1;
    }
    assert(cs@.take(e as int) == trim_trailing_nuls(cs@.take(e as int)));
    r
}

/// The text of a `REG_SZ` value from the bytes the registry returned.
pub fn reg_sz_from_data(b: &[u8]) -> (s: String)
    ensures
        s@ == reg_sz_text(b@),
{
    let u = words_of(b);
    let d = decode_utf16_lossy(&u);
    trim_nuls(d.as_str())
}

proof fn lemma_words_of_bytes(u: Seq<u16>)
    ensures
        le_words(le_bytes(u)) == u,
    decreases u.len(),
{
    if u.len() > 0 {
        let b = le_bytes(u);
        lemma_words_of_bytes(u.skip(1));
        assert(b.skip(2) =~= le_bytes(u.skip(1)));
        assert((b[0] + 256 * b[1]) as u16 == u[0]);
        assert(le_words(b) =~= u);
    } else {
        assert(le_bytes(u) =~= Seq::<u8>::empty());
    }
}

proof fn lemma_decode_encode(s: Seq<char>, rest: Seq<u16>)
    requires
        rest.len() == 0 || !(0xDC00 <= rest[0] && rest[0] <= 0xDFFF),
    ensures
        utf16_decode(utf16_encode(s) + rest) == s + utf16_decode(rest),
    decreases s.len(),
{
    if s.len() == 0 {
        assert(utf16_encode(s) + rest =~= rest);
        assert(s + utf16_decode(rest) =~= utf16_decode(rest));
    } else {
        let c = s[0];
        let v = c as u32;
        lemma_char_range(c);
        let tail = utf16_encode(s.skip(1)) + rest;
        lemma_decode_encode(s.skip(1), rest);
        assert(tail.len() == 0 || !(0xDC00 <= tail[0] && tail[0] <= 0xDFFF)) by {
            if s.skip(1).len() > 0 {
                lemma_char_range(s.skip(1)[0]);
                assert(utf16_encode(s.skip(1))[0] == utf16_units(s.skip(1)[0])[0]);
            } else {
                assert(utf16_encode(s.skip(1)) =~= Seq::<u16>::empty());
                assert(tail =~= rest);
            }
        }
        let all = utf16_encode(s) + rest;
        assert(all =~= utf16_units(c) + tail);
        if v < 0x10000 {
            assert(all.skip(1) =~= tail);
            assert(!(0xD800 <= v && v <= 0xDFFF));
            assert(((v as u16) as u32) as char == c);
        } else {
            let w = (v - 0x10000) as u32;
            let hi = (0xD800 + w / 0x400) as u16;
            let lo = (0xDC00 + w % 0x400) as u16;
            assert(w / 0x400 < 0x400) by (nonlinear_arith)
                requires
                    w <= 0x10FFFF - 0x10000,
            ;
            assert(w == (w / 0x400) * 0x400 + w % 0x400) by (nonlinear_arith);
            assert(all[0] == hi && all[1] == lo);
            assert(all.skip(2) =~= tail);
            assert(pair_value(hi, lo) == v);
        }
        assert(s =~= seq![c] + s.skip(1));
        assert(utf16_decode(all) =~= s + utf16_decode(rest));
    }
}

proof fn lemma_trim_nuls(s: Seq<char>)
    requires
        s.len() == 0 || s.last() != '\0',
    ensures
        trim_trailing_nuls(s.push('\0')) == s,
{
    assert(s.push('\0').drop_last() =~= s);
    assert(trim_trailing_nuls(s) == s);
}

/// What a `REG_SZ` value reads back is what was written, for every text that
/// does not end in a NUL character.
pub proof fn lemma_reg_sz_round_trip(s: Seq<char>)
    requires
        s.len() == 0 || s.last() != '\0',
    ensures
        reg_sz_text(reg_sz_bytes(s)) == s,
{
    let u = utf16_encode(s).push(0);
    lemma_words_of_bytes(u);
    assert(u =~= utf16_encode(s) + seq![0u16]);
    lemma_decode_encode(s, seq![0u16]);
    assert(seq![0u16].skip(1) =~= Seq::<u16>::empty());
    assert(utf16_decode(Seq::<u16>::empty()) == Seq::<char>::empty());
    assert(utf16_decode(seq![0u16]) =~= seq![(0u32) as char]);
    assert((0u32) as char == '\0');
    assert(s + seq!['\0'] =~= s.push('\0'));
    lemma_trim_nuls(s);
}

} // verus!
