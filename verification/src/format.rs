//! The column-aware key formatter.
//!
//! Renders a raw key, given its owning column, into a human-readable string:
//! hash-keyed columns get a strict typed decode whose success renders the
//! hash in hexadecimal and whose failure renders a fixed decode-error
//! string; every other column falls back to a decimal byte-list rendering.
//! The formatter is total: malformed input is representable, not
//! exceptional.

use vstd::prelude::*;
use vstd::string::StringExecFns;
use crate::store::DBCol;
use crate::wire::valid_hash_key;

verus! {

/// The character for one digit value below sixteen.
pub open spec fn digit_char(n: int) -> char {
    if n == 0 { '0' }
    else if n == 1 { '1' }
    else if n == 2 { '2' }
    else if n == 3 { '3' }
    else if n == 4 { '4' }
    else if n == 5 { '5' }
    else if n == 6 { '6' }
    else if n == 7 { '7' }
    else if n == 8 { '8' }
    else if n == 9 { '9' }
    else if n == 10 { 'a' }
    else if n == 11 { 'b' }
    else if n == 12 { 'c' }
    else if n == 13 { 'd' }
    else if n == 14 { 'e' }
    else { 'f' }
}

/// The two hexadecimal digits of one byte.
pub open spec fn spec_hex_byte(b: u8) -> Seq<char> {
    seq![digit_char(b as int / 16), digit_char(b as int % 16)]
}

/// The hexadecimal rendering of a byte sequence, two digits per byte.
pub open spec fn spec_hex(s: Seq<u8>) -> Seq<char>
    decreases s.len(),
{
    if s.len() == 0 {
        Seq::empty()
    } else {
        spec_hex(s.drop_last()) + spec_hex_byte(s.last())
    }
}

/// The decimal rendering of one byte, without leading zeros.
pub open spec fn spec_dec_byte(b: u8) -> Seq<char> {
    let n = b as int;
    if n < 10 {
        seq![digit_char(n)]
    } else if n < 100 {
        seq![digit_char(n / 10), digit_char(n % 10)]
    } else {
        seq![digit_char(n / 100), digit_char((n / 10) % 10), digit_char(n % 10)]
    }
}

/// The comma-separated decimal rendering of a byte sequence.
pub open spec fn spec_byte_list(s: Seq<u8>) -> Seq<char>
    decreases s.len(),
{
    if s.len() == 0 {
        Seq::empty()
    } else if s.len() == 1 {
        spec_dec_byte(s[0])
    } else {
        spec_byte_list(s.drop_last()) + ", "@ + spec_dec_byte(s.last())
    }
}

/// What the formatter returns for each column and key.
pub open spec fn spec_format_key(col: DBCol, k: Seq<u8>) -> Seq<char> {
    match col {
        DBCol::ColBlockHeader | DBCol::ColBlock => if valid_hash_key(k) {
            "hash:"@ + spec_hex(k)
        } else {
            "invalid hash key"@
        },
        DBCol::ColChunks => if valid_hash_key(k) {
            "chunk:"@ + spec_hex(k)
        } else {
            "invalid chunk hash key"@
        },
        DBCol::ColBlockMisc => "["@ + spec_byte_list(k) + "]"@,
    }
}

/// The one-character string for a digit value below sixteen.
fn digit_str(n: u8) -> (r: &'static str)
    requires
        n < 16,
    ensures
        r@ == seq![digit_char(n as int)],
{
    proof {
        reveal_strlit("0");
        reveal_strlit("1");
        reveal_strlit("2");
        reveal_strlit("3");
        reveal_strlit("4");
        reveal_strlit("5");
        reveal_strlit("6");
        reveal_strlit("7");
        reveal_strlit("8");
        reveal_strlit("9");
        reveal_strlit("a");
        reveal_strlit("b");
        reveal_strlit("c");
        reveal_strlit("d");
        reveal_strlit("e");
        reveal_strlit("f");
    }
    let r = if n == 0 { "0" }
    else if n == 1 { "1" }
    else if n == 2 { "2" }
    else if n == 3 { "3" }
    else if n == 4 { "4" }
    else if n == 5 { "5" }
    else if n == 6 { "6" }
    else if n == 7 { "7" }
    else if n == 8 { "8" }
    else if n == 9 { "9" }
    else if n == 10 { "a" }
    else if n == 11 { "b" }
    else if n == 12 { "c" }
    else if n == 13 { "d" }
    else if n == 14 { "e" }
    else { "f" };
    proof {
        assert(r@ =~= seq![digit_char(n as int)]);
    }
    r
}

/// Renders a byte sequence in hexadecimal.
pub fn hex_string(bytes: &[u8]) -> (r: String)
    ensures
        r@ == spec_hex(bytes@),
{
    let mut s = String::new();
    let mut i: usize = 0;
    while i < bytes.len()
        invariant
            i <= bytes@.len(),
            s@ == spec_hex(bytes@.take(i as int)),
        decreases bytes@.len() - i,
    {
        let b = bytes[i];
        s.append(digit_str(b / 16));
        s.append(digit_str(b % 16));
        proof {
            let t = bytes@.take(i as int + 1);
            assert(t.drop_last() =~= bytes@.take(i as int));
            assert(t.last() == bytes@[i as int]);
            assert(s@ =~= spec_hex(t));
        }
        i += 1;
    }
    proof {
        assert(bytes@.take(bytes@.len() as int) =~= bytes@);
    }
    s
}

/// Appends the decimal rendering of one byte.
fn append_dec_byte(s: &mut String, b: u8)
    ensures
        final(s)@ == old(s)@ + spec_dec_byte(b),
{
    if b < 10 {
        s.append(digit_str(b));
        proof {
            assert(s@ =~= old(s)@ + spec_dec_byte(b));
        }
    } else if b < 100 {
        s.append(digit_str(b / 10));
        s.append(digit_str(b % 10));
        proof {
            assert(s@ =~= old(s)@ + spec_dec_byte(b));
        }
    } else {
        s.append(digit_str(b / 100));
        s.append(digit_str((b / 10) % 10));
        s.append(digit_str(b % 10));
        proof {
            assert(s@ =~= old(s)@ + spec_dec_byte(b));
        }
    }
}

/// Renders a byte sequence as a comma-separated decimal list.
pub fn byte_list_string(bytes: &[u8]) -> (r: String)
    ensures
        r@ == spec_byte_list(bytes@),
{
    let mut s = String::new();
    let mut i: usize = 0;
    while i < bytes.len()
        invariant
            i <= bytes@.len(),
            s@ == spec_byte_list(bytes@.take(i as int)),
        decreases bytes@.len() - i,
    {
        if i > 0 {
            s.append(", ");
        }
        append_dec_byte(&mut s, bytes[i]);
        proof {
            let t = bytes@.take(i as int + 1);
            assert(t.drop_last() =~= bytes@.take(i as int));
            assert(t.last() == bytes@[i as int]);
            if i == 0 {
                assert(bytes@.take(0int) =~= Seq::<u8>::empty());
                assert(t =~= seq![bytes@[0int]]);
                assert(s@ =~= spec_byte_list(t));
            } else {
                assert(s@ =~= spec_byte_list(t));
            }
        }
        i += 1;
    }
    proof {
        assert(bytes@.take(bytes@.len() as int) =~= bytes@);
    }
    s
}

/// Renders a raw key for its owning column; total over all byte inputs.
pub fn format_key(col: DBCol, k: &[u8]) -> (r: String)
    ensures
        r@ == spec_format_key(col, k@),
{
    match col {
        DBCol::ColBlockHeader | DBCol::ColBlock => {
            if k.len() == 32 {
                String::from_str("hash:").concat(hex_string(k).as_str())
            } else {
                String::from_str("invalid hash key")
            }
        },
        DBCol::ColChunks => {
            if k.len() == 32 {
                String::from_str("chunk:").concat(hex_string(k).as_str())
            } else {
                String::from_str("invalid chunk hash key")
            }
        },
        DBCol::ColBlockMisc => {
            String::from_str("[").concat(byte_list_string(k).as_str()).concat("]")
        },
    }
}

} // verus!
