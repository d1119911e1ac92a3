//! Expansion of C-style backslash escapes in `.ascii` string data.
//!
//! The input is the raw byte text between the quotes; the output is the data
//! blob to emit. A backslash consumes the following byte and replaces the
//! pair with the substitution table's byte; an unknown escape code passes the
//! following byte through unchanged; a lone trailing backslash emits nothing.

use vstd::prelude::*;

verus! {

/// Substitution table for the byte following a backslash.
pub open spec fn spec_unescape(ch: u8) -> u8 {
    if ch == 0x61 {
        0x07u8  // \a alert
    } else if ch == 0x62 {
        0x08u8  // \b backspace
    } else if ch == 0x65 {
        0x1bu8  // \e escape
    } else if ch == 0x66 {
        0x0cu8  // \f formfeed
    } else if ch == 0x6e {
        0x0au8  // \n newline
    } else if ch == 0x72 {
        0x0du8  // \r carriage return
    } else if ch == 0x74 {
        0x09u8  // \t horizontal tab
    } else if ch == 0x76 {
        0x0bu8  // \v vertical tab
    } else if ch == 0x5c {
        0x5cu8  // \\ backslash
    } else if ch == 0x27 {
        0x27u8  // \' apostrophe
    } else if ch == 0x22 {
        0x22u8  // \" double quotation mark
    } else if ch == 0x3f {
        0x3fu8  // \? question mark
    } else {
        ch
    }
}

/// The data blob that a quoted text expands to.
pub open spec fn spec_ascii_bytes(s: Seq<u8>) -> Seq<u8>
    decreases s.len(),
{
    if s.len() == 0 {
        Seq::empty()
    } else if s[0] == 0x5c {
        if s.len() == 1 {
            Seq::empty()
        } else {
            seq![spec_unescape(s[1])] + spec_ascii_bytes(s.skip(2))
        }
    } else {
        seq![s[0]] + spec_ascii_bytes(s.skip(1))
    }
}

/// Resolves one escaped byte against the substitution table.
pub fn unescape(ch: u8) -> (r: u8)
    ensures
        r == spec_unescape(ch),
{
    if ch == 0x61 {
        0x07  // \a alert
    } else if ch == 0x62 {
        0x08  // \b backspace
    } else if ch == 0x65 {
        0x1b  // \e escape
    } else if ch == 0x66 {
        0x0c  // \f formfeed
    } else if ch == 0x6e {
        0x0a  // \n newline
    } else if ch == 0x72 {
        0x0d  // \r carriage return
    } else if ch == 0x74 {
        0x09  // \t horizontal tab
    } else if ch == 0x76 {
        0x0b  // \v vertical tab
    } else if ch == 0x5c {
        0x5c  // \\ backslash
    } else if ch == 0x27 {
        0x27  // \' apostrophe
    } else if ch == 0x22 {
        0x22  // \" double quotation mark
    } else if ch == 0x3f {
        0x3f  // \? question mark
    } else {
        ch
    }
}

/// Expands every escape in the quoted text, returning the data blob and its
/// length reduced to the 16-bit location-counter space.
pub fn ascii_to_bytes(ascii: &[u8]) -> (r: (Vec<u8>, u16))
    ensures
        r.0@ == spec_ascii_bytes(ascii@),
        r.1 == r.0@.len() % 0x10000,
{
    let n = ascii.len();
    let mut data: Vec<u8> = Vec::new();
    let mut size: u16 = 0;
    let mut i: usize = 0;
    proof {
        assert(ascii@.skip(0) =~= ascii@);
        assert(data@ + spec_ascii_bytes(ascii@) =~= spec_ascii_bytes(ascii@));
    }
    while i < n
        invariant
            n == ascii@.len(),
            0 <= i <= n,
            spec_ascii_bytes(ascii@) == data@ + spec_ascii_bytes(ascii@.skip(i as int)),
            size == data@.len() % 0x10000,
        decreases n - i,
    {
        let ghost rest = ascii@.skip(i as int);
        if ascii[i] == 0x5c {
            if i + 1 < n {
                proof {
                    assert(rest.skip(2) =~= ascii@.skip(i + 2));
                    assert(data@ + (seq![spec_unescape(rest[1])] + spec_ascii_bytes(rest.skip(2)))
                        =~= (data@ + seq![spec_unescape(rest[1])]) + spec_ascii_bytes(
                        rest.skip(2),
                    ));
                }
                data.push(unescape(ascii[i + 1]));
                size = size.wrapping_add(1);
                i += 2;
            } else {
                proof {
                    assert(rest.len() == 1);
                }
                i += 1;
            }
        } else {
            proof {
                assert(rest.skip(1) =~= ascii@.skip(i + 1));
                assert(data@ + (seq![rest[0]] + spec_ascii_bytes(rest.skip(1))) =~= (data@
                    + seq![rest[0]]) + spec_ascii_bytes(rest.skip(1)));
            }
            data.push(ascii[i]);
            size = size.wrapping_add(1);
            i += 1;
        }
    }
    proof {
        assert(ascii@.skip(n as int) =~= Seq::<u8>::empty());
        assert(data@ + Seq::<u8>::empty() =~= data@);
    }
    (data, size)
}

} // verus!
