//! URL-safe base64 without padding, as compact token segments use it.

use vstd::prelude::*;

verus! {

/// The URL-safe base64 alphabet character for a 6-bit value.
pub open spec fn b64_char(d: u8) -> char {
    if d < 26 {
        (d + 65) as char
    } else if d < 52 {
        (d + 71) as char
    } else if d < 62 {
        (d - 4) as char
    } else if d == 62 {
        '-'
    } else {
        '_'
    }
}

/// The URL-safe base64 encoding of a byte sequence, unpadded.
pub open spec fn b64url(s: Seq<u8>) -> Seq<char>
    decreases s.len(),
{
    if s.len() == 0 {
        Seq::empty()
    } else if s.len() == 1 {
        seq![b64_char(s[0] >> 2), b64_char((s[0] & 3) << 4)]
    } else if s.len() == 2 {
        seq![
            b64_char(s[0] >> 2),
            b64_char(((s[0] & 3) << 4) | (s[1] >> 4)),
            b64_char((s[1] & 15) << 2),
        ]
    } else {
        seq![
            b64_char(s[0] >> 2),
            b64_char(((s[0] & 3) << 4) | (s[1] >> 4)),
            b64_char(((s[1] & 15) << 2) | (s[2] >> 6)),
            b64_char(s[2] & 63),
        ] + b64url(s.skip(3))
    }
}

/// The alphabet character for a 6-bit value.
fn b64_alpha(d: u8) -> (c: char)
    requires
        d < 64,
    ensures
        c == b64_char(d),
{
    if d < 26 {
        (d + 65) as char
    } else if d < 52 {
        (d + 71) as char
    } else if d < 62 {
        (d - 4) as char
    } else if d == 62 {
        '-'
    } else {
        '_'
    }
}

/// Encode a byte vector as unpadded URL-safe base64.
pub fn b64url_encode(v: &Vec<u8>) -> (r: String)
    ensures
        r@ == b64url(v@),
{
    let mut out = String::new();
    let len = v.len();
    let mut i: usize = 0;
    proof {
        assert(v@.skip(0) =~= v@);
        assert(out@ + b64url(v@.skip(0)) =~= b64url(v@));
    }
    while len - i >= 3
        invariant
            0 <= i <= len,
            len == v@.len(),
            out@ + b64url(v@.skip(i as int)) == b64url(v@),
        decreases len - i,
    {
        let b0 = v[i];
        let b1 = v[i + 1];
        let b2 = v[i + 2];
        proof {
            assert(b0 >> 2 < 64 && ((b0 & 3) << 4) | (b1 >> 4) < 64 && ((b1 & 15) << 2) | (b2
                >> 6) < 64 && b2 & 63 < 64) by (bit_vector);
        }
        crate::text::push_char(&mut out, b64_alpha(b0 >> 2));
        crate::text::push_char(&mut out, b64_alpha(((b0 & 3) << 4) | (b1 >> 4)));
        crate::text::push_char(&mut out, b64_alpha(((b1 & 15) << 2) | (b2 >> 6)));
        crate::text::push_char(&mut out, b64_alpha(b2 & 63));
        proof {
            let rest = v@.skip(i as int);
            assert(rest[0] == b0 && rest[1] == b1 && rest[2] == b2);
            assert(rest.skip(3) =~= v@.skip(i + 3));
            assert(b64url(rest) == seq![
                b64_char(b0 >> 2),
                b64_char(((b0 & 3) << 4) | (b1 >> 4)),
                b64_char(((b1 & 15) << 2) | (b2 >> 6)),
                b64_char(b2 & 63),
            ] + b64url(v@.skip(i + 3)));
            assert(out@ + b64url(v@.skip(i + 3)) =~= b64url(v@));
        }
        i += 3;
    }
    if len - i == 2 {
        let b0 = v[i];
        let b1 = v[i + 1];
        proof {
            assert(b0 >> 2 < 64 && ((b0 & 3) << 4) | (b1 >> 4) < 64 && (b1 & 15) << 2 < 64)
                by (bit_vector);
        }
        crate::text::push_char(&mut out, b64_alpha(b0 >> 2));
        crate::text::push_char(&mut out, b64_alpha(((b0 & 3) << 4) | (b1 >> 4)));
        crate::text::push_char(&mut out, b64_alpha((b1 & 15) << 2));
        proof {
            let rest = v@.skip(i as int);
            assert(rest[0] == b0 && rest[1] == b1 && rest.len() == 2);
            assert(out@ =~= b64url(v@));
        }
    } else if len - i == 1 {
        let b0 = v[i];
        proof {
            assert(b0 >> 2 < 64 && (b0 & 3) << 4 < 64) by (bit_vector);
        }
        crate::text::push_char(&mut out, b64_alpha(b0 >> 2));
        crate::text::push_char(&mut out, b64_alpha((b0 & 3) << 4));
        proof {
            let rest = v@.skip(i as int);
            assert(rest[0] == b0 && rest.len() == 1);
            assert(out@ =~= b64url(v@));
        }
    } else {
        proof {
            assert(v@.skip(i as int) =~= Seq::<u8>::empty());
            assert(out@ =~= b64url(v@));
        }
    }
    out
}

} // verus!
