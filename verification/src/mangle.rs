//! Deterministic symbol mangling.
//!
//! A `(module name, function name)` pair is turned into an Itanium-style
//! linker symbol: length-prefixed name segments followed by a fixed
//! `17h<hash>E` suffix, where the hash is a 64-bit content hash of
//! `"{module}::{function}"` rendered as 16 lowercase hexadecimal digits.
//! A companion scheme inserts a `8METADATA` segment to name the metadata
//! record that belongs to a function.

use vstd::prelude::*;
use vstd::string::*;
use vstd::utf8::{encode_utf8, is_ascii_chars, is_ascii_chars_encode_utf8};
use vstd::std_specs::hash::DefaultHasherAdditionalSpecFns;
use std::collections::hash_map::DefaultHasher;
use core::hash::Hasher;
use crate::numerals::{
    spec_dec, spec_hex, spec_u64_be_bytes, lemma_dec_len_monotone, push_dec, u64_be_bytes,
    hex_encode,
};

verus! {

/// A name the mangler accepts: non-empty and entirely ASCII, so that its
/// character count and its byte count agree and the length-prefixed
/// segments are unambiguous for the usual identifier alphabet.
pub open spec fn valid_identifier(s: Seq<char>) -> bool {
    s.len() > 0 && is_ascii_chars(s)
}

/// The qualified name that is hashed for a function symbol.
pub open spec fn spec_qualified(module_name: Seq<char>, function_name: Seq<char>) -> Seq<char> {
    module_name + "::"@ + function_name
}

/// The 64-bit content hash of a string: the value `DefaultHasher` yields
/// for the byte stream that `str`'s `Hash` implementation feeds it, namely
/// the UTF-8 bytes of the string followed by a single `0xff` marker byte.
pub open spec fn spec_hash64(s: Seq<char>) -> u64 {
    DefaultHasher::spec_finish(seq![encode_utf8(s), seq![0xffu8]])
}

/// The hash suffix of a mangled symbol: the content hash of `s`, written
/// big-endian as 16 lowercase hexadecimal digits.
pub open spec fn spec_hash_hex(s: Seq<char>) -> Seq<char> {
    spec_hex(spec_u64_be_bytes(spec_hash64(s)))
}

/// The mangled symbol of a function: `_ZN<len><module><len><name>17h<hash>E`.
pub open spec fn spec_mangle(module_name: Seq<char>, function_name: Seq<char>) -> Seq<char> {
    "_ZN"@ + spec_dec(module_name.len()) + module_name + spec_dec(function_name.len())
        + function_name + "17h"@ + spec_hash_hex(spec_qualified(module_name, function_name)) + "E"@
}

/// The mangled symbol of a function's metadata record:
/// `_ZN<len><module><len><name>8METADATA17h<hash>E`, where the hash is the
/// content hash of the literal tag `METADATA`.
pub open spec fn spec_mangle_metadata(module_name: Seq<char>, function_name: Seq<char>) -> Seq<
    char,
> {
    "_ZN"@ + spec_dec(module_name.len()) + module_name + spec_dec(function_name.len())
        + function_name + "8METADATA"@ + "17h"@ + spec_hash_hex("METADATA"@) + "E"@
}

/// The symbol of the read-only blob that backs a function's name bytes:
/// `alloc_<hash>`, keyed by the content hash of the function name.
pub open spec fn spec_alloc_symbol(function_name: Seq<char>) -> Seq<char> {
    "alloc_"@ + spec_hash_hex(function_name)
}

/// The section that holds a name blob: `.rodata..L<blob symbol>`.
pub open spec fn spec_alloc_section(function_name: Seq<char>) -> Seq<char> {
    ".rodata..L"@ + spec_alloc_symbol(function_name)
}

/// The 64-bit content hash of a string, as `spec_hash64` describes it.
/// `str`'s `Hash` implementation feeds the hasher the UTF-8 bytes followed
/// by a `0xff` marker byte; the same stream is written here.
pub fn hash_str(s: &str) -> (h: u64)
    ensures
        h == spec_hash64(s@),
{
    let mut hasher = DefaultHasher::new();
    hasher.write(s.as_bytes());
    let marker: Vec<u8> = vec![0xffu8];
    hasher.write(marker.as_slice());
    proof {
        assert(hasher@ =~~= seq![encode_utf8(s@), seq![0xffu8]]);
    }
    hasher.finish()
}

/// Appends `<len(module)><module><len(name)><name>` to `out`.
fn push_name_segments(out: &mut String, module_name: &str, function_name: &str)
    requires
        valid_identifier(module_name@),
        valid_identifier(function_name@),
    ensures
        final(out)@ == old(out)@ + spec_dec(module_name@.len()) + module_name@ + spec_dec(
            function_name@.len(),
        ) + function_name@,
{
    let m_bytes = module_name.as_bytes();
    let f_bytes = function_name.as_bytes();
    proof {
        is_ascii_chars_encode_utf8(module_name@);
        is_ascii_chars_encode_utf8(function_name@);
        assert(m_bytes@.len() == module_name@.len());
        assert(f_bytes@.len() == function_name@.len());
    }
    push_dec(out, m_bytes.len() as u64);
    out.append(module_name);
    push_dec(out, f_bytes.len() as u64);
    out.append(function_name);
    proof {
        assert(out@ =~= old(out)@ + spec_dec(module_name@.len()) + module_name@ + spec_dec(
            function_name@.len(),
        ) + function_name@);
    }
}

/// Renders the content hash of `s` as 16 lowercase hexadecimal digits.
fn hash_hex(s: &str) -> (r: String)
    ensures
        r@ == spec_hash_hex(s@),
{
    let h = hash_str(s);
    let bytes = u64_be_bytes(h);
    hex_encode(bytes.as_slice())
}

/// Mangles a function name: `_ZN<len><module><len><name>17h<hash>E`.
pub fn mangle(module_name: &str, function_name: &str) -> (r: String)
    requires
        valid_identifier(module_name@),
        valid_identifier(function_name@),
    ensures
        r@ == spec_mangle(module_name@, function_name@),
{
    let mut qualified = String::from_str(module_name);
    qualified.append("::");
    qualified.append(function_name);
    let digits = hash_hex(qualified.as_str());
    let mut r = String::from_str("_ZN");
    push_name_segments(&mut r, module_name, function_name);
    r.append("17h");
    r.append(digits.as_str());
    r.append("E");
    proof {
        assert(r@ =~= spec_mangle(module_name@, function_name@));
    }
    r
}

/// Mangles the metadata symbol that belongs to a function:
/// `_ZN<len><module><len><name>8METADATA17h<hash>E`.
pub fn mangle_metadata(module_name: &str, function_name: &str) -> (r: String)
    requires
        valid_identifier(module_name@),
        valid_identifier(function_name@),
    ensures
        r@ == spec_mangle_metadata(module_name@, function_name@),
{
    let digits = hash_hex("METADATA");
    let mut r = String::from_str("_ZN");
    push_name_segments(&mut r, module_name, function_name);
    r.append("8METADATA");
    r.append("17h");
    r.append(digits.as_str());
    r.append("E");
    proof {
        assert(r@ =~= spec_mangle_metadata(module_name@, function_name@));
    }
    r
}

/// The symbol of the blob that backs a function's name bytes.
pub fn alloc_symbol(function_name: &str) -> (r: String)
    ensures
        r@ == spec_alloc_symbol(function_name@),
{
    let digits = hash_hex(function_name);
    let mut r = String::from_str("alloc_");
    r.append(digits.as_str());
    proof {
        assert(r@ =~= spec_alloc_symbol(function_name@));
    }
    r
}

/// The section that holds a function's name blob.
pub fn alloc_section(function_name: &str) -> (r: String)
    ensures
        r@ == spec_alloc_section(function_name@),
{
    let symbol = alloc_symbol(function_name);
    let mut r = String::from_str(".rodata..L");
    r.append(symbol.as_str());
    proof {
        assert(r@ =~= spec_alloc_section(function_name@));
    }
    r
}

/// Mangling is deterministic: the mangled symbol is a function of the
/// module and function names alone, so identical inputs always yield
/// identical symbols.
pub proof fn lemma_mangle_deterministic(
    module_name: Seq<char>,
    function_name: Seq<char>,
    r1: Seq<char>,
    r2: Seq<char>,
)
    requires
        r1 == spec_mangle(module_name, function_name),
        r2 == spec_mangle(module_name, function_name),
    ensures
        r1 == r2,
{
}

/// The length of a mangled symbol, piece by piece: the three marker
/// characters `_ZN`, the two length-prefixed name segments, the three
/// characters `17h`, the 16 hash digits, and the final `E`.
pub proof fn lemma_mangle_len(m: Seq<char>, f: Seq<char>)
    ensures
        spec_mangle(m, f).len() == 7 + spec_dec(m.len()).len() + m.len() + spec_dec(f.len()).len()
            + f.len() + 16,
{
    reveal_strlit("_ZN");
    reveal_strlit("17h");
    reveal_strlit("E");
}

/// Mangling keeps distinct name pairs apart whenever the segment lengths
/// agree: two pairs with equally long module names and equally long
/// function names, differing in at least one name, mangle to different
/// symbols, whatever the hash suffixes are. (Distinctness of pairs that
/// differ in the lengths of both segments additionally rests on the hash
/// suffix, which keeps collisions improbable rather than impossible; see
/// `lemma_mangle_distinct_shared_segment` for pairs that share a whole
/// segment.)
pub proof fn lemma_mangle_distinct(m1: Seq<char>, f1: Seq<char>, m2: Seq<char>, f2: Seq<char>)
    requires
        m1.len() == m2.len(),
        f1.len() == f2.len(),
        m1 != m2 || f1 != f2,
    ensures
        spec_mangle(m1, f1) != spec_mangle(m2, f2),
{
    reveal_strlit("_ZN");
    let a1 = spec_mangle(m1, f1);
    let a2 = spec_mangle(m2, f2);
    let dm = spec_dec(m1.len()).len() as int;
    let df = spec_dec(f1.len()).len() as int;
    assert(spec_dec(m2.len()) == spec_dec(m1.len()));
    assert(spec_dec(f2.len()) == spec_dec(f1.len()));
    if m1 != m2 {
        assert(exists|i: int| 0 <= i < m1.len() && m1[i] != m2[i]) by {
            if forall|i: int| 0 <= i < m1.len() ==> m1[i] == m2[i] {
                assert(m1 =~= m2);
            }
        }
        let i = choose|i: int| 0 <= i < m1.len() && m1[i] != m2[i];
        let k = 3 + dm + i;
        assert(a1[k] == m1[i]);
        assert(a2[k] == m2[i]);
        assert(a1 != a2);
    } else {
        assert(exists|i: int| 0 <= i < f1.len() && f1[i] != f2[i]) by {
            if forall|i: int| 0 <= i < f1.len() ==> f1[i] == f2[i] {
                assert(f1 =~= f2);
            }
        }
        let i = choose|i: int| 0 <= i < f1.len() && f1[i] != f2[i];
        let k = 3 + dm + m1.len() + df + i;
        assert(a1[k] == f1[i]);
        assert(a2[k] == f2[i]);
        assert(a1 != a2);
    }
}

/// Mangling keeps apart any two pairs that share one whole segment:
/// within one module, distinct function names mangle to distinct symbols,
/// and one function name mangles differently in distinct modules — in
/// both cases whatever the hash suffixes are.
pub proof fn lemma_mangle_distinct_shared_segment(
    m1: Seq<char>,
    f1: Seq<char>,
    m2: Seq<char>,
    f2: Seq<char>,
)
    requires
        (m1 == m2 && f1 != f2) || (f1 == f2 && m1 != m2),
    ensures
        spec_mangle(m1, f1) != spec_mangle(m2, f2),
{
    if m1.len() == m2.len() && f1.len() == f2.len() {
        lemma_mangle_distinct(m1, f1, m2, f2);
    } else {
        // The segment lengths differ, so the symbols already differ in
        // length: a longer name never yields a shorter numeral.
        lemma_mangle_len(m1, f1);
        lemma_mangle_len(m2, f2);
        if f1.len() < f2.len() {
            lemma_dec_len_monotone(f1.len(), f2.len());
        } else {
            lemma_dec_len_monotone(f2.len(), f1.len());
        }
        if m1.len() < m2.len() {
            lemma_dec_len_monotone(m1.len(), m2.len());
        } else {
            lemma_dec_len_monotone(m2.len(), m1.len());
        }
        assert(spec_mangle(m1, f1).len() != spec_mangle(m2, f2).len());
    }
}

} // verus!
