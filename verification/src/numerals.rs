//! Textual renderings of numbers: decimal numerals, lowercase hexadecimal,
//! and the big-endian byte view of a 64-bit value.

use vstd::prelude::*;

verus! {

/// The decimal digit character for a value below ten.
pub open spec fn spec_dec_digit(d: nat) -> char
    recommends
        d < 10,
{
    seq!['0', '1', '2', '3', '4', '5', '6', '7', '8', '9'][d as int]
}

/// The decimal numeral of `n`, most significant digit first, without
/// leading zeros (the numeral of zero is a single `'0'`).
pub open spec fn spec_dec(n: nat) -> Seq<char>
    decreases n,
{
    if n < 10 {
        seq![spec_dec_digit(n)]
    } else {
        spec_dec(n / 10).push(spec_dec_digit(n % 10))
    }
}

/// A numeral never gets shorter as the number grows.
pub proof fn lemma_dec_len_monotone(a: nat, b: nat)
    requires
        a <= b,
    ensures
        spec_dec(a).len() <= spec_dec(b).len(),
    decreases b,
{
    if b >= 10 {
        assert(b / 10 < b) by (nonlinear_arith)
            requires
                b >= 10,
        ;
        if a >= 10 {
            assert(a / 10 <= b / 10) by (nonlinear_arith)
                requires
                    a <= b,
            ;
            lemma_dec_len_monotone(a / 10, b / 10);
        } else {
            lemma_dec_len_monotone(0, b / 10);
        }
    }
}

/// The lowercase hexadecimal digit character for a value below sixteen.
pub open spec fn spec_hex_digit(d: nat) -> char
    recommends
        d < 16,
{
    seq!['0', '1', '2', '3', '4', '5', '6', '7', '8', '9', 'a', 'b', 'c', 'd', 'e', 'f'][d as int]
}

/// Lowercase hexadecimal rendering of a byte sequence: two digits per byte,
/// most significant nibble first.
pub open spec fn spec_hex(bytes: Seq<u8>) -> Seq<char> {
    Seq::new(
        bytes.len() * 2,
        |i: int|
            if i % 2 == 0 {
                spec_hex_digit((bytes[i / 2] >> 4) as nat)
            } else {
                spec_hex_digit((bytes[i / 2] & 0x0f) as nat)
            },
    )
}

/// The bytes of `x` from most significant to least significant.
pub open spec fn spec_u64_be_bytes(x: u64) -> Seq<u8> {
    seq![
        (x >> 56) as u8,
        (x >> 48) as u8,
        (x >> 40) as u8,
        (x >> 32) as u8,
        (x >> 24) as u8,
        (x >> 16) as u8,
        (x >> 8) as u8,
        x as u8,
    ]
}

/// The bytes of `x` from least significant to most significant.
pub open spec fn spec_u32_le_bytes(x: u32) -> Seq<u8> {
    seq![x as u8, (x >> 8) as u8, (x >> 16) as u8, (x >> 24) as u8]
}

/// The 32-bit value read from four little-endian bytes.
pub open spec fn spec_u32_from_le_bytes(bytes: Seq<u8>) -> u32
    recommends
        bytes.len() == 4,
{
    (bytes[0] as u32) | ((bytes[1] as u32) << 8) | ((bytes[2] as u32) << 16) | ((bytes[3] as u32)
        << 24)
}

/// Writing a 32-bit value as little-endian bytes and reading the bytes
/// back yields the value again.
pub proof fn lemma_u32_le_bytes_round_trip(x: u32)
    ensures
        spec_u32_le_bytes(x).len() == 4,
        spec_u32_from_le_bytes(spec_u32_le_bytes(x)) == x,
{
    let b0 = x as u8;
    let b1 = (x >> 8) as u8;
    let b2 = (x >> 16) as u8;
    let b3 = (x >> 24) as u8;
    assert((b0 as u32) | ((b1 as u32) << 8) | ((b2 as u32) << 16) | ((b3 as u32) << 24) == x)
        by (bit_vector)
        requires
            b0 == x as u8,
            b1 == (x >> 8) as u8,
            b2 == (x >> 16) as u8,
            b3 == (x >> 24) as u8,
    ;
}

/// Four zero bytes read back as the value zero.
pub proof fn lemma_u32_from_le_bytes_zero(bytes: Seq<u8>)
    requires
        bytes.len() == 4,
        forall|i: int| 0 <= i < 4 ==> bytes[i] == 0,
    ensures
        spec_u32_from_le_bytes(bytes) == 0,
{
    assert((0u8 as u32) | ((0u8 as u32) << 8) | ((0u8 as u32) << 16) | ((0u8 as u32) << 24) == 0)
        by (bit_vector);
}

/// The bytes of `x` from least significant to most significant.
pub fn u32_le_bytes(x: u32) -> (r: Vec<u8>)
    ensures
        r@ == spec_u32_le_bytes(x),
{
    let r: Vec<u8> = vec![
        #[verifier::truncate] (x as u8),
        #[verifier::truncate] ((x >> 8) as u8),
        #[verifier::truncate] ((x >> 16) as u8),
        #[verifier::truncate] ((x >> 24) as u8),
    ];
    proof {
        assert(r@ =~= spec_u32_le_bytes(x));
    }
    r
}

/// The 32-bit value read from four little-endian bytes.
pub fn u32_from_le_bytes(bytes: &[u8]) -> (x: u32)
    requires
        bytes@.len() == 4,
    ensures
        x == spec_u32_from_le_bytes(bytes@),
{
    (bytes[0] as u32) | ((bytes[1] as u32) << 8) | ((bytes[2] as u32) << 16) | ((bytes[3] as u32)
        << 24)
}

fn dec_digit_str(d: u8) -> (r: &'static str)
    requires
        d < 10,
    ensures
        r@ == seq![spec_dec_digit(d as nat)],
{
    let r: &'static str = match d {
        0 => "0",
        1 => "1",
        2 => "2",
        3 => "3",
        4 => "4",
        5 => "5",
        6 => "6",
        7 => "7",
        8 => "8",
        _ => "9",
    };
    proof {
        reveal_strlit("0");
        reveal_strlit("1");
        reveal_strlit("2");
        reveal_strlit("3");
        reveal_strlit("4");
        reveal_strlit("5");
        reveal_strlit("6");
        reveal_strlit("7");
        reveal_strlit("8");
        reveal_strlit("9");
        assert(r@ =~= seq![spec_dec_digit(d as nat)]);
    }
    r
}

/// Appends the decimal numeral of `n` to `out`.
pub fn push_dec(out: &mut String, n: u64)
    ensures
        final(out)@ == old(out)@ + spec_dec(n as nat),
    decreases n,
{
    if n < 10 {
        out.append(dec_digit_str(n as u8));
        proof {
            assert(out@ =~= old(out)@ + spec_dec(n as nat));
        }
    } else {
        proof {
            assert(n / 10 < n) by (nonlinear_arith)
                requires
                    n >= 10,
            ;
        }
        push_dec(out, n / 10);
        out.append(dec_digit_str((n % 10) as u8));
        proof {
            assert(out@ =~= old(out)@ + spec_dec(n as nat));
        }
    }
}

/// The bytes of `x` from most significant to least significant.
pub fn u64_be_bytes(x: u64) -> (r: Vec<u8>)
    ensures
        r@ == spec_u64_be_bytes(x),
{
    let r: Vec<u8> = vec![
        #[verifier::truncate] ((x >> 56) as u8),
        #[verifier::truncate] ((x >> 48) as u8),
        #[verifier::truncate] ((x >> 40) as u8),
        #[verifier::truncate] ((x >> 32) as u8),
        #[verifier::truncate] ((x >> 24) as u8),
        #[verifier::truncate] ((x >> 16) as u8),
        #[verifier::truncate] ((x >> 8) as u8),
        #[verifier::truncate] (x as u8),
    ];
    proof {
        assert(r@ =~= spec_u64_be_bytes(x));
    }
    r
}

/// Relies on `hex::encode`: it renders each input byte as two lowercase
/// hexadecimal digits, most significant nibble first.
#[verifier::external_body]
pub(crate) fn hex_encode(bytes: &[u8]) -> (r: String)
    ensures
        r@ == spec_hex(bytes@),
{
    hex::encode(bytes)
}

} // verus!
