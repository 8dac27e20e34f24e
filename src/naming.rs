//! Output and temporary file names, and how they are placed in a directory.
use vstd::prelude::*;

verus! {

/// MD5 digest of the UTF-8 encoding of a string, as the `md5` crate computes it.
pub uninterp spec fn md5_of(s: Seq<char>) -> Seq<u8>;

/// Relies on `md5::compute`: the digest of the string's bytes, 16 bytes long.
#[verifier::external_body]
fn md5_digest(s: &str) -> (r: Vec<u8>)
    ensures
        r@ == md5_of(s@),
        r@.len() == 16,
{
    md5::compute(s.as_bytes()).0.to_vec()
}

/// Lowercase hexadecimal digit of a value below 16.
pub open spec fn hex_digit(v: u8) -> char {
    "0123456789abcdef"@[v as int]
}

/// Two lowercase hex digits per byte, high nibble first.
pub open spec fn hex_lower(b: Seq<u8>) -> Seq<char>
    decreases b.len(),
{
    if b.len() == 0 {
        Seq::empty()
    } else {
        hex_lower(b.drop_last()) + seq![hex_digit(b.last() / 16), hex_digit(b.last() % 16)]
    }
}

/// Temporary file name used while `target_name` is being produced.
pub open spec fn temp_name_of(target_name: Seq<char>) -> Seq<char> {
    hex_lower(md5_of(target_name))
}

/// Lowercase hexadecimal text of a byte string.
pub fn hex_string(b: &Vec<u8>) -> (r: String)
    ensures
        r@ == hex_lower(b@),
{
    let digits: &str = "0123456789abcdef";
    proof {
        reveal_strlit("0123456789abcdef");
    }
    let mut out = String::new();
    let mut i: usize = 0;
    while i < b.len()
        invariant
            0 <= i <= b@.len(),
            digits@ == "0123456789abcdef"@,
            digits@.len() == 16,
            out@ == hex_lower(b@.subrange(0, i as int)),
        decreases b@.len() - i,
    {
        let v = b[i];
        let hi = (v / 16) as usize;
        let lo = (v % 16) as usize;
        out = out.concat(digits.substring_char(hi, hi + 1)).concat(digits.substring_char(lo, lo + 1));
        proof {
            let p = b@.subrange(0, i + 1);
            assert(p.drop_last() == b@.subrange(0, i as int));
            assert(p.last() == v);
            assert(digits@.subrange(hi as int, hi + 1) == seq![hex_digit(v / 16)]);
            assert(digits@.subrange(lo as int, lo + 1) == seq![hex_digit(v % 16)]);
        }
        i = i + 1;
    }
    assert(b@.subrange(0, b@.len() as int) == b@);
    out
}

/// The temporary name for a target file name: the lowercase hex MD5 digest
/// of the name itself (not of any file's contents).
pub fn temp_name(target_name: &str) -> (r: String)
    ensures
        r@ == temp_name_of(target_name@),
        r@.len() == 32,
{
    let d = md5_digest(target_name);
    let r = hex_string(&d);
    proof {
        lemma_hex_len(d@);
    }
    r
}

proof fn lemma_hex_len(b: Seq<u8>)
    ensures
        hex_lower(b).len() == 2 * b.len(),
    decreases b.len(),
{
    if b.len() > 0 {
        lemma_hex_len(b.drop_last());
    }
}

} // verus!
