//! Verified base64 (standard alphabet, `=`-padded, canonical trailing
//! bits), used for the wire form of signatures: they arrive as base64
//! text and are decoded to raw bytes at deserialization time.

use vstd::prelude::*;

use crate::strutil::push_char;

verus! {

/// The base64 alphabet character for a sextet.
pub open spec fn spec_b64_char(v: u8) -> char {
    if v < 26 {
        ((65 + v) as u8) as char
    } else if v < 52 {
        ((71 + v) as u8) as char
    } else if v < 62 {
        ((v - 4) as u8) as char
    } else if v == 62 {
        '+'
    } else {
        '/'
    }
}

/// Emits the alphabet character for a sextet.
fn b64_char(v: u8) -> (c: char)
    requires
        v < 64,
    ensures
        c == spec_b64_char(v),
{
    if v < 26 {
        (65 + v) as char
    } else if v < 52 {
        (71 + v) as char
    } else if v < 62 {
        (v - 4) as char
    } else if v == 62 {
        '+'
    } else {
        '/'
    }
}

/// The sextet a base64 character denotes, if it denotes one (`=` does
/// not).
pub open spec fn spec_b64_val(c: char) -> Option<u8> {
    let u = c as u32;
    if 65 <= u <= 90 {
        Some((u - 65) as u8)
    } else if 97 <= u <= 122 {
        Some((u - 71) as u8)
    } else if 48 <= u <= 57 {
        Some((u + 4) as u8)
    } else if u == 43 {
        Some(62)
    } else if u == 47 {
        Some(63)
    } else {
        None
    }
}

/// Reading back an alphabet character gives the sextet: the alphabet
/// and the value function are inverse on `0..64`.
pub proof fn lemma_b64_char_val()
    ensures
        forall|v: u8| v < 64 ==> spec_b64_val(#[trigger] spec_b64_char(v)) == Some(v),
{
    assert forall|v: u8| v < 64 implies spec_b64_val(#[trigger] spec_b64_char(v)) == Some(v) by {
        if v < 26 {
            assert(spec_b64_char(v) as u32 == 65 + v);
        } else if v < 52 {
            assert(spec_b64_char(v) as u32 == 71 + v);
        } else if v < 62 {
            assert(spec_b64_char(v) as u32 == v - 4);
        }
    }
}

/// Standard base64 encoding of a byte sequence, with padding.
pub open spec fn spec_b64_encode(b: Seq<u8>) -> Seq<char>
    decreases b.len(),
{
    if b.len() == 0 {
        Seq::<char>::empty()
    } else if b.len() == 1 {
        seq![
            spec_b64_char(b[0] >> 2),
            spec_b64_char((b[0] & 3) << 4),
            '=',
            '=',
        ]
    } else if b.len() == 2 {
        seq![
            spec_b64_char(b[0] >> 2),
            spec_b64_char(((b[0] & 3) << 4) | (b[1] >> 4)),
            spec_b64_char((b[1] & 15) << 2),
            '=',
        ]
    } else {
        seq![
            spec_b64_char(b[0] >> 2),
            spec_b64_char(((b[0] & 3) << 4) | (b[1] >> 4)),
            spec_b64_char(((b[1] & 15) << 2) | (b[2] >> 6)),
            spec_b64_char(b[2] & 63),
        ] + spec_b64_encode(b.skip(3))
    }
}

/// Decodes one final four-character group, honouring padding and
/// rejecting non-zero trailing bits.
pub open spec fn spec_b64_last_group(c0: char, c1: char, c2: char, c3: char) -> Option<Seq<u8>> {
    match (spec_b64_val(c0), spec_b64_val(c1)) {
        (Some(v0), Some(v1)) => {
            if c2 == '=' && c3 == '=' {
                if v1 & 15 == 0 {
                    Some(seq![(v0 << 2) | (v1 >> 4)])
                } else {
                    None
                }
            } else if c3 == '=' {
                match spec_b64_val(c2) {
                    Some(v2) => {
                        if v2 & 3 == 0 {
                            Some(seq![(v0 << 2) | (v1 >> 4), (v1 << 4) | (v2 >> 2)])
                        } else {
                            None
                        }
                    },
                    None => None,
                }
            } else {
                match (spec_b64_val(c2), spec_b64_val(c3)) {
                    (Some(v2), Some(v3)) => Some(
                        seq![(v0 << 2) | (v1 >> 4), (v1 << 4) | (v2 >> 2), (v2 << 6) | v3],
                    ),
                    _ => None,
                }
            }
        },
        _ => None,
    }
}

/// Standard base64 decoding: groups of four characters, padding only
/// in the final group, canonical trailing bits required.
pub open spec fn spec_b64_decode(s: Seq<char>) -> Option<Seq<u8>>
    decreases s.len(),
{
    if s.len() == 0 {
        Some(Seq::<u8>::empty())
    } else if s.len() < 4 {
        None
    } else if s.len() == 4 {
        spec_b64_last_group(s[0], s[1], s[2], s[3])
    } else {
        match (spec_b64_val(s[0]), spec_b64_val(s[1]), spec_b64_val(s[2]), spec_b64_val(s[3])) {
            (Some(v0), Some(v1), Some(v2), Some(v3)) => match spec_b64_decode(s.skip(4)) {
                Some(rest) => Some(
                    seq![(v0 << 2) | (v1 >> 4), (v1 << 4) | (v2 >> 2), (v2 << 6) | v3] + rest,
                ),
                None => None,
            },
            _ => None,
        }
    }
}

/// Encodes bytes as base64 text.
pub fn b64_encode(bytes: &[u8]) -> (r: String)
    ensures
        r@ == spec_b64_encode(bytes@),
{
    let mut s = String::new();
    let mut i: usize = 0;
    proof {
        assert(bytes@.skip(0) =~= bytes@);
        assert(s@ + spec_b64_encode(bytes@) =~= spec_b64_encode(bytes@));
    }
    while bytes.len() - i >= 3
        invariant
            i <= bytes@.len(),
            spec_b64_encode(bytes@) =~= s@ + spec_b64_encode(bytes@.skip(i as int)),
        decreases bytes@.len() - i,
    {
        let b0 = bytes[i];
        let b1 = bytes[i + 1];
        let b2 = bytes[i + 2];
        proof {
            assert((b0 >> 2) < 64 && (((b0 & 3) << 4) | (b1 >> 4)) < 64 && (((b1 & 15) << 2) | (
            b2 >> 6)) < 64 && (b2 & 63) < 64) by (bit_vector);
            assert(bytes@.skip(i as int).len() >= 3);
            assert(bytes@.skip(i as int)[0] == b0);
            assert(bytes@.skip(i as int)[1] == b1);
            assert(bytes@.skip(i as int)[2] == b2);
        }
        push_char(&mut s, b64_char(b0 >> 2));
        push_char(&mut s, b64_char(((b0 & 3) << 4) | (b1 >> 4)));
        push_char(&mut s, b64_char(((b1 & 15) << 2) | (b2 >> 6)));
        push_char(&mut s, b64_char(b2 & 63));
        proof {
            assert(bytes@.skip(i as int).skip(3) =~= bytes@.skip(i + 3));
        }
        i = i + 3;
    }
    if bytes.len() - i == 1 {
        let b0 = bytes[i];
        proof {
            assert((b0 >> 2) < 64 && ((b0 & 3) << 4) < 64) by (bit_vector);
            assert(bytes@.skip(i as int).len() == 1);
            assert(bytes@.skip(i as int)[0] == b0);
        }
        push_char(&mut s, b64_char(b0 >> 2));
        push_char(&mut s, b64_char((b0 & 3) << 4));
        push_char(&mut s, '=');
        push_char(&mut s, '=');
        proof {
            assert(s@ =~= spec_b64_encode(bytes@));
        }
    } else if bytes.len() - i == 2 {
        let b0 = bytes[i];
        let b1 = bytes[i + 1];
        proof {
            assert((b0 >> 2) < 64 && (((b0 & 3) << 4) | (b1 >> 4)) < 64 && ((b1 & 15) << 2)
                < 64) by (bit_vector);
            assert(bytes@.skip(i as int).len() == 2);
            assert(bytes@.skip(i as int)[0] == b0);
            assert(bytes@.skip(i as int)[1] == b1);
        }
        push_char(&mut s, b64_char(b0 >> 2));
        push_char(&mut s, b64_char(((b0 & 3) << 4) | (b1 >> 4)));
        push_char(&mut s, b64_char((b1 & 15) << 2));
        push_char(&mut s, '=');
        proof {
            assert(s@ =~= spec_b64_encode(bytes@));
        }
    } else {
        proof {
            assert(bytes@.skip(i as int).len() == 0);
            assert(s@ =~= spec_b64_encode(bytes@));
        }
    }
    s
}

/// Reads one base64 character's sextet.
fn b64_val(c: char) -> (r: Option<u8>)
    ensures
        r == spec_b64_val(c),
{
    let u = c as u32;
    if 65 <= u && u <= 90 {
        Some((u - 65) as u8)
    } else if 97 <= u && u <= 122 {
        Some((u - 71) as u8)
    } else if 48 <= u && u <= 57 {
        Some((u + 4) as u8)
    } else if u == 43 {
        Some(62)
    } else if u == 47 {
        Some(63)
    } else {
        None
    }
}

/// Decodes base64 text to bytes; `None` exactly on text that is not a
/// canonical base64 encoding.
pub fn b64_decode(s: &str) -> (r: Option<Vec<u8>>)
    ensures
        match r {
            Some(v) => spec_b64_decode(s@) == Some(v@),
            None => spec_b64_decode(s@) is None,
        },
{
    let len = s.unicode_len();
    if len % 4 != 0 {
        proof {
            lemma_b64_decode_len(s@);
        }
        return None;
    }
    let mut out: Vec<u8> = Vec::new();
    let mut i: usize = 0;
    proof {
        assert(s@.skip(0) =~= s@);
    }
    while len - i > 4
        invariant
            len == s@.len(),
            len % 4 == 0,
            i % 4 == 0,
            i + 4 <= len || i == len,
            i == len ==> len == 0,
            match spec_b64_decode(s@) {
                Some(whole) => spec_b64_decode(s@.skip(i as int)) matches Some(rest) && whole
                    =~= out@ + rest,
                None => spec_b64_decode(s@.skip(i as int)) is None,
            },
        decreases len - i,
    {
        let c0 = s.get_char(i);
        let c1 = s.get_char(i + 1);
        let c2 = s.get_char(i + 2);
        let c3 = s.get_char(i + 3);
        let v0 = b64_val(c0);
        let v1 = b64_val(c1);
        let v2 = b64_val(c2);
        let v3 = b64_val(c3);
        proof {
            assert(s@.skip(i as int).len() > 4);
            assert(s@.skip(i as int)[0] == s@[i as int]);
            assert(s@.skip(i as int)[1] == s@[i as int + 1]);
            assert(s@.skip(i as int)[2] == s@[i as int + 2]);
            assert(s@.skip(i as int)[3] == s@[i as int + 3]);
        }
        match (v0, v1, v2, v3) {
            (Some(v0), Some(v1), Some(v2), Some(v3)) => {
                out.push((v0 << 2) | (v1 >> 4));
                out.push((v1 << 4) | (v2 >> 2));
                out.push((v2 << 6) | v3);
                proof {
                    assert(s@.skip(i as int).skip(4) =~= s@.skip(i as int + 4));
                }
                i = i + 4;
            },
            _ => {
                return None;
            },
        }
    }
    if i == len {
        proof {
            assert(spec_b64_decode(s@.skip(i as int)) == Some(Seq::<u8>::empty()));
            if spec_b64_decode(s@) is Some {
                assert(spec_b64_decode(s@).unwrap() =~= out@);
            }
        }
        return Some(out);
    }
    let c0 = s.get_char(i);
    let c1 = s.get_char(i + 1);
    let c2 = s.get_char(i + 2);
    let c3 = s.get_char(i + 3);
    proof {
        assert(s@.skip(i as int).len() == 4);
        assert(s@.skip(i as int)[0] == s@[i as int]);
        assert(s@.skip(i as int)[1] == s@[i as int + 1]);
        assert(s@.skip(i as int)[2] == s@[i as int + 2]);
        assert(s@.skip(i as int)[3] == s@[i as int + 3]);
    }
    let v0 = b64_val(c0);
    let v1 = b64_val(c1);
    match (v0, v1) {
        (Some(v0), Some(v1)) => {
            if c2 == '=' && c3 == '=' {
                if v1 & 15 == 0 {
                    out.push((v0 << 2) | (v1 >> 4));
                    proof {
                        if spec_b64_decode(s@) is Some {
                            assert(spec_b64_decode(s@).unwrap() =~= out@);
                        }
                    }
                    Some(out)
                } else {
                    None
                }
            } else if c3 == '=' {
                match b64_val(c2) {
                    Some(v2) => {
                        if v2 & 3 == 0 {
                            out.push((v0 << 2) | (v1 >> 4));
                            out.push((v1 << 4) | (v2 >> 2));
                            proof {
                                if spec_b64_decode(s@) is Some {
                                    assert(spec_b64_decode(s@).unwrap() =~= out@);
                                }
                            }
                            Some(out)
                        } else {
                            None
                        }
                    },
                    None => None,
                }
            } else {
                match (b64_val(c2), b64_val(c3)) {
                    (Some(v2), Some(v3)) => {
                        out.push((v0 << 2) | (v1 >> 4));
                        out.push((v1 << 4) | (v2 >> 2));
                        out.push((v2 << 6) | v3);
                        proof {
                            if spec_b64_decode(s@) is Some {
                                assert(spec_b64_decode(s@).unwrap() =~= out@);
                            }
                        }
                        Some(out)
                    },
                    _ => None,
                }
            }
        },
        _ => None,
    }
}

/// Decodable text has length a multiple of four.
pub proof fn lemma_b64_decode_len(s: Seq<char>)
    ensures
        spec_b64_decode(s) is Some ==> s.len() % 4 == 0,
    decreases s.len(),
{
    if s.len() > 4 {
        lemma_b64_decode_len(s.skip(4));
    }
}

/// Decoding inverts encoding: every byte sequence comes back from its
/// own base64 text.
pub proof fn lemma_b64_round_trip(b: Seq<u8>)
    ensures
        spec_b64_decode(spec_b64_encode(b)) == Some(b),
    decreases b.len(),
{
    lemma_b64_char_val();
    if b.len() == 0 {
        assert(spec_b64_decode(spec_b64_encode(b)) == Some(b));
    } else if b.len() == 1 {
        let b0 = b[0];
        let e = spec_b64_encode(b);
        assert((b0 >> 2) < 64 && ((b0 & 3) << 4) < 64) by (bit_vector);
        let v0 = (b0 >> 2) as u8;
        let v1 = ((b0 & 3) << 4) as u8;
        assert(v1 & 15 == 0 && ((v0 << 2) | (v1 >> 4)) == b0) by (bit_vector)
            requires
                v0 == b0 >> 2,
                v1 == (b0 & 3) << 4,
        ;
        assert(spec_b64_decode(e).unwrap() =~= b);
    } else if b.len() == 2 {
        let b0 = b[0];
        let b1 = b[1];
        let e = spec_b64_encode(b);
        assert((b0 >> 2) < 64 && (((b0 & 3) << 4) | (b1 >> 4)) < 64 && ((b1 & 15) << 2)
            < 64) by (bit_vector);
        let v0 = (b0 >> 2) as u8;
        let v1 = (((b0 & 3) << 4) | (b1 >> 4)) as u8;
        let v2 = ((b1 & 15) << 2) as u8;
        assert(v2 & 3 == 0 && ((v0 << 2) | (v1 >> 4)) == b0 && ((v1 << 4) | (v2 >> 2))
            == b1) by (bit_vector)
            requires
                v0 == b0 >> 2,
                v1 == ((b0 & 3) << 4) | (b1 >> 4),
                v2 == (b1 & 15) << 2,
        ;
        assert(spec_b64_decode(e).unwrap() =~= b);
    } else {
        lemma_b64_round_trip(b.skip(3));
        let b0 = b[0];
        let b1 = b[1];
        let b2 = b[2];
        let e = spec_b64_encode(b);
        assert((b0 >> 2) < 64 && (((b0 & 3) << 4) | (b1 >> 4)) < 64 && (((b1 & 15) << 2) | (b2
            >> 6)) < 64 && (b2 & 63) < 64) by (bit_vector);
        let v0 = (b0 >> 2) as u8;
        let v1 = (((b0 & 3) << 4) | (b1 >> 4)) as u8;
        let v2 = (((b1 & 15) << 2) | (b2 >> 6)) as u8;
        let v3 = (b2 & 63) as u8;
        assert(((v0 << 2) | (v1 >> 4)) == b0 && ((v1 << 4) | (v2 >> 2)) == b1 && ((v2 << 6) | v3)
            == b2) by (bit_vector)
            requires
                v0 == b0 >> 2,
                v1 == ((b0 & 3) << 4) | (b1 >> 4),
                v2 == ((b1 & 15) << 2) | (b2 >> 6),
                v3 == b2 & 63,
        ;
        let rest = spec_b64_encode(b.skip(3));
        if b.len() == 3 {
            assert(rest =~= Seq::<char>::empty());
            assert(e.len() == 4);
            assert(spec_b64_decode(e) == spec_b64_last_group(e[0], e[1], e[2], e[3]));
            assert(e[3] != '=') by {
                assert(spec_b64_val(e[3]) is Some);
                assert(spec_b64_val('=') is None);
            }
            assert(e[2] != '=' || e[3] != '=') by {
                assert(spec_b64_val(e[2]) is Some);
                assert(spec_b64_val('=') is None);
            }
            assert(spec_b64_decode(e).unwrap() =~= b);
        } else {
            assert(rest.len() >= 4);
            assert(e.len() > 4);
            assert(e[0] == spec_b64_char(v0) && e[1] == spec_b64_char(v1) && e[2]
                == spec_b64_char(v2) && e[3] == spec_b64_char(v3));
            assert(e.skip(4) =~= rest);
            assert(spec_b64_decode(e).unwrap() =~= b) by {
                assert(seq![b0, b1, b2] + b.skip(3) =~= b);
            }
        }
    }
}

} // verus!
