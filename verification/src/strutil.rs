//! Small verified string builders used by the command builder and the
//! decoders: decimal rendering of numbers, lowercase hex for
//! fingerprints, and descriptor checksum stripping.

use vstd::prelude::*;

verus! {

/// The decimal digit character for a value below ten.
pub open spec fn spec_dec_digit(d: nat) -> char {
    ((48 + d) as u8) as char
}

/// The lowercase hex digit character for a value below sixteen.
pub open spec fn spec_hex_digit(d: u8) -> char {
    if d < 10 {
        ((48 + d) as u8) as char
    } else {
        ((87 + d) as u8) as char
    }
}

/// Emits one lowercase hex digit.
pub(crate) fn hex_digit(d: u8) -> (c: char)
    requires
        d < 16,
    ensures
        c == spec_hex_digit(d),
{
    if d < 10 {
        (48 + d) as char
    } else {
        (87 + d) as char
    }
}

/// The character sequences of a token vector.
pub open spec fn spec_views(v: Seq<String>) -> Seq<Seq<char>> {
    v.map_values(|s: String| s@)
}

pub proof fn lemma_views_push(v: Seq<String>, x: String)
    ensures
        spec_views(v.push(x)) =~= spec_views(v).push(x@),
{
}

/// Relies on String::push: appends exactly the given character.
#[verifier::external_body]
pub fn push_char(s: &mut String, c: char)
    ensures
        final(s)@ == old(s)@.push(c),
{
    s.push(c);
}

/// Relies on str's PartialEq: two slices are equal exactly when their
/// character sequences are.
#[verifier::external_body]
pub fn str_eq(a: &str, b: &str) -> (r: bool)
    ensures
        r == (a@ == b@),
{
    a == b
}

/// The usual decimal rendering of a number, without sign or padding.
pub open spec fn spec_dec(n: nat) -> Seq<char>
    decreases n,
{
    if n < 10 {
        seq![spec_dec_digit(n)]
    } else {
        spec_dec(n / 10).push(spec_dec_digit(n % 10))
    }
}

fn push_dec_digits(s: &mut String, n: u64)
    ensures
        final(s)@ == old(s)@ + spec_dec(n as nat),
    decreases n,
{
    if n >= 10 {
        push_dec_digits(s, n / 10);
        push_char(s, (48 + (n % 10) as u8) as char);
        assert(final(s)@ =~= old(s)@ + spec_dec(n as nat));
    } else {
        push_char(s, (48 + (n % 10) as u8) as char);
        assert(n % 10 == n as nat);
        assert(final(s)@ =~= old(s)@ + spec_dec(n as nat));
    }
}

/// Renders a number in decimal, as the external tool expects counts
/// and account numbers on the command line.
pub fn u32_to_dec(n: u32) -> (r: String)
    ensures
        r@ == spec_dec(n as nat),
{
    u64_to_dec(n as u64)
}

/// Renders a wider number in decimal, for diagnostics that show a
/// JSON integer.
pub fn u64_to_dec(n: u64) -> (r: String)
    ensures
        r@ == spec_dec(n as nat),
{
    let mut s = String::new();
    push_dec_digits(&mut s, n);
    proof {
        assert(s@ =~= spec_dec(n as nat));
    }
    s
}

/// Lowercase hex rendering of a byte sequence, two digits per byte.
pub open spec fn spec_hex(bytes: Seq<u8>) -> Seq<char>
    decreases bytes.len(),
{
    if bytes.len() == 0 {
        Seq::<char>::empty()
    } else {
        seq![
            spec_hex_digit(bytes.first() / 16),
            spec_hex_digit(bytes.first() % 16),
        ] + spec_hex(bytes.drop_first())
    }
}

/// Renders bytes as lowercase hex, two digits per byte.
pub fn bytes_to_hex(bytes: &[u8]) -> (r: String)
    ensures
        r@ == spec_hex(bytes@),
{
    let mut s = String::new();
    let mut i: usize = 0;
    proof {
        assert(bytes@.skip(0) =~= bytes@);
        assert(s@ + spec_hex(bytes@) =~= spec_hex(bytes@));
    }
    while i < bytes.len()
        invariant
            i <= bytes@.len(),
            spec_hex(bytes@) =~= s@ + spec_hex(bytes@.skip(i as int)),
        decreases bytes@.len() - i,
    {
        let b = bytes[i];
        push_char(&mut s, hex_digit(b / 16));
        push_char(&mut s, hex_digit(b % 16));
        proof {
            assert(bytes@.skip(i as int).drop_first() =~= bytes@.skip(i + 1));
            assert(bytes@.skip(i as int).first() == bytes@[i as int]);
        }
        i = i + 1;
    }
    proof {
        assert(bytes@.skip(i as int) =~= Seq::<u8>::empty());
        assert(s@ =~= spec_hex(bytes@));
    }
    s
}

/// The numeric value of a hex digit character, lower or upper case.
pub open spec fn spec_hex_val(c: char) -> Option<u8> {
    let u = c as u32;
    if 48 <= u <= 57 {
        Some((u - 48) as u8)
    } else if 97 <= u <= 102 {
        Some((u - 87) as u8)
    } else if 65 <= u <= 70 {
        Some((u - 55) as u8)
    } else {
        None
    }
}

/// Reads one hex digit, accepting both cases.
pub fn hex_val(c: char) -> (r: Option<u8>)
    ensures
        r == spec_hex_val(c),
{
    let u = c as u32;
    if 48 <= u && u <= 57 {
        Some((u - 48) as u8)
    } else if 97 <= u && u <= 102 {
        Some((u - 87) as u8)
    } else if 65 <= u && u <= 70 {
        Some((u - 55) as u8)
    } else {
        None
    }
}

/// The position of the first `#` in a sequence, or its length when
/// none occurs.
pub open spec fn spec_first_hash(s: Seq<char>) -> int
    decreases s.len(),
{
    if s.len() == 0 {
        0
    } else if s.first() == '#' {
        0
    } else {
        1 + spec_first_hash(s.drop_first())
    }
}

pub proof fn lemma_first_hash(s: Seq<char>)
    ensures
        0 <= spec_first_hash(s) <= s.len(),
        forall|j: int| 0 <= j < spec_first_hash(s) ==> s[j] != '#',
        spec_first_hash(s) < s.len() ==> s[spec_first_hash(s)] == '#',
    decreases s.len(),
{
    if s.len() == 0 {
    } else if s.first() == '#' {
    } else {
        lemma_first_hash(s.drop_first());
        assert forall|j: int| 0 <= j < spec_first_hash(s) implies s[j] != '#' by {
            if j > 0 {
                assert(s.drop_first()[j - 1] == s[j]);
            }
        }
        if spec_first_hash(s) < s.len() {
            assert(s.drop_first()[spec_first_hash(s) - 1] == s[spec_first_hash(s)]);
        }
    }
}

/// Drops a trailing `#checksum` suffix from a descriptor: the external
/// tool never emits checksums usable as-is, so every descriptor handed
/// back into a command argument is cut at the first `#`.
pub fn strip_checksum(s: &str) -> (r: String)
    ensures
        r@ == s@.subrange(0, spec_first_hash(s@)),
{
    proof {
        lemma_first_hash(s@);
    }
    let len = s.unicode_len();
    let mut i: usize = 0;
    while i < len
        invariant
            len == s@.len(),
            i <= len,
            forall|j: int| 0 <= j < i ==> s@[j] != '#',
        decreases len - i,
    {
        if s.get_char(i) == '#' {
            proof {
                lemma_first_hash(s@);
                assert(spec_first_hash(s@) == i) by {
                    if spec_first_hash(s@) < i {
                        assert(s@[spec_first_hash(s@)] != '#');
                    }
                }
            }
            let cut = s.substring_char(0, i);
            return cut.to_owned();
        }
        i = i + 1;
    }
    proof {
        lemma_first_hash(s@);
        assert(spec_first_hash(s@) == len) by {
            if spec_first_hash(s@) < len {
                assert(s@[spec_first_hash(s@)] != '#');
            }
        }
        assert(s@.subrange(0, spec_first_hash(s@)) =~= s@);
    }
    s.to_owned()
}

} // verus!
