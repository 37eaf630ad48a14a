use vstd::prelude::*;

use vstd::string::StringSliceAdditionalSpecFns;

use crate::error::Error;

verus! {

/// The number of random bytes behind a native class name.
pub const CLASS_NAME_RANDOM_BYTES: usize = 16;

/// The ASCII lowercase hex digit of `d`.
pub open spec fn hex_digit(d: u8) -> u8 {
    if d < 10 {
        (48 + d) as u8
    } else {
        (87 + d) as u8
    }
}

/// A byte in lowercase hex without leading zeros (`5`, `1f`, `ff`).
pub open spec fn hex_of_byte(b: u8) -> Seq<u8> {
    if b < 16 {
        seq![hex_digit(b)]
    } else {
        seq![hex_digit(b / 16), hex_digit(b % 16)]
    }
}

/// Every byte of `s` in turn, each as `hex_of_byte` writes it.
pub open spec fn hex_concat(s: Seq<u8>) -> Seq<u8>
    decreases s.len(),
{
    if s.len() == 0 {
        Seq::empty()
    } else {
        hex_concat(s.drop_last()) + hex_of_byte(s.last())
    }
}

/// The name a native class gets: the prefix, then the random bytes in hex.
pub open spec fn class_name_spec(prefix: Seq<u8>, random: Seq<u8>) -> Seq<u8> {
    prefix + hex_concat(random)
}

fn push_hex_digit(name: &mut Vec<u8>, d: u8)
    requires
        d < 16,
    ensures
        final(name)@ == old(name)@.push(hex_digit(d)),
{
    if d < 10 {
        name.push(48 + d);
    } else {
        name.push(87 + d);
    }
}

/// Builds the ASCII name of a native class from a prefix and random bytes,
/// each byte in lowercase hex without leading zeros.
pub fn class_name_from_bytes(prefix: &str, random: &Vec<u8>) -> (r: Vec<u8>)
    ensures
        r@ == class_name_spec(prefix.spec_bytes(), random@),
{
    let p = prefix.as_bytes();
    let mut name: Vec<u8> = Vec::new();
    let mut i: usize = 0;
    while i < p.len()
        invariant
            i <= p@.len(),
            p@ == prefix.spec_bytes(),
            name@ == p@.subrange(0, i as int),
        decreases p@.len() - i,
    {
        name.push(p[i]);
        assert(p@.subrange(0, i + 1) == p@.subrange(0, i as int).push(p@[i as int]));
        i = i + 1;
    }
    assert(p@.subrange(0, p@.len() as int) == p@);
    let mut j: usize = 0;
    while j < random.len()
        invariant
            j <= random@.len(),
            p@ == prefix.spec_bytes(),
            name@ == p@ + hex_concat(random@.subrange(0, j as int)),
        decreases random@.len() - j,
    {
        let b = random[j];
        let ghost before = name@;
        if b < 16 {
            push_hex_digit(&mut name, b);
        } else {
            push_hex_digit(&mut name, b / 16);
            push_hex_digit(&mut name, b % 16);
        }
        proof {
            let s = random@.subrange(0, j + 1);
            assert(s.drop_last() == random@.subrange(0, j as int));
            assert(s.last() == b);
            assert(name@ == before + hex_of_byte(b));
            assert(p@ + hex_concat(s) == (p@ + hex_concat(s.drop_last())) + hex_of_byte(b));
        }
        j = j + 1;
    }
    assert(random@.subrange(0, random@.len() as int) == random@);
    name
}

/// Relies on `getrandom::getrandom`: fills the buffer from the system's
/// random source, or fails with the crate's nonzero error code; the length
/// never changes.
#[verifier::external_body]
fn fill_random(buf: &mut Vec<u8>) -> (r: Result<(), u32>)
    ensures
        final(buf)@.len() == old(buf)@.len(),
        r matches Err(code) ==> code != 0,
{
    match getrandom::getrandom(buf.as_mut_slice()) {
        Ok(()) => Ok(()),
        Err(e) => Err(e.code().get()),
    }
}

/// A fresh name for a native window or message class: the prefix followed
/// by sixteen random bytes in hex, so that two loops in one process never
/// register the same class.
pub fn class_name(prefix: &str) -> (r: Result<Vec<u8>, Error>)
    ensures
        r matches Ok(name) ==> exists|random: Seq<u8>|
            random.len() == CLASS_NAME_RANDOM_BYTES && name@ == class_name_spec(
                prefix.spec_bytes(),
                random,
            ),
        r matches Err(e) ==> e matches Error::Platform(code) && code > 0,
{
    let mut random: Vec<u8> = Vec::new();
    let mut i: usize = 0;
    while i < CLASS_NAME_RANDOM_BYTES
        invariant
            i <= CLASS_NAME_RANDOM_BYTES,
            random@.len() == i,
        decreases CLASS_NAME_RANDOM_BYTES - i,
    {
        random.push(0);
        i = i + 1;
    }
    match fill_random(&mut random) {
        Ok(()) => Ok(class_name_from_bytes(prefix, &random)),
        Err(code) => Err(Error::Platform(code as i64)),
    }
}

} // verus!
