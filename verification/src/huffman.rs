//! Decoding of Huffman-coded string literals: the protocol's canonical
//! prefix-code table, a bit reader, and the decoder that walks the table
//! until the input bits are exhausted.
//!
//! Decoding tries code lengths from shortest to longest at each position;
//! because the table is prefix-free, this finds exactly the code present.
//! Trailing bits that form no complete code (the end-of-string padding) are
//! dropped, and an end-of-string code stops decoding.

use vstd::prelude::*;

use crate::varint::lemma_p2_le;
use crate::varint::lemma_p2_seven_values;
use crate::varint::p2;

verus! {

/// Bit `i` of the byte sequence, most significant bit of each byte first.
pub open spec fn spec_bit(s: Seq<u8>, i: int) -> u8 {
    (s[i / 8] >> ((7 - (i % 8)) as u8)) & 1
}

/// The big-endian value of `len` bits starting at bit `pos`.
pub open spec fn spec_bits(s: Seq<u8>, pos: int, len: int) -> int
    decreases len,
{
    if len <= 0 {
        0
    } else {
        2 * spec_bits(s, pos, len - 1) + spec_bit(s, pos + len - 1)
    }
}

pub proof fn lemma_spec_bits_bound(s: Seq<u8>, pos: int, len: int)
    requires
        len >= 0,
    ensures
        0 <= spec_bits(s, pos, len) < p2(len),
    decreases len,
{
    if len > 0 {
        lemma_spec_bits_bound(s, pos, len - 1);
        let j = pos + len - 1;
        let b = s[j / 8];
        let sh = (7 - (j % 8)) as u8;
        assert(((b >> sh) & 1) <= 1) by (bit_vector);
    }
}

/// The 5-bit codes of the canonical table.
#[verifier::opaque]
pub open spec fn spec_huff_len5(c: int) -> Option<u8> {
    if c == 0x0 {
        Some(48u8)
    } else if c == 0x1 {
        Some(49u8)
    } else if c == 0x2 {
        Some(50u8)
    } else if c == 0x3 {
        Some(97u8)
    } else if c == 0x4 {
        Some(99u8)
    } else if c == 0x5 {
        Some(101u8)
    } else if c == 0x6 {
        Some(105u8)
    } else if c == 0x7 {
        Some(111u8)
    } else if c == 0x8 {
        Some(115u8)
    } else if c == 0x9 {
        Some(116u8)
    } else {
        None
    }
}

fn huff_len5(c: u32) -> (r: Option<u8>)
    ensures
        r == spec_huff_len5(c as int),
{
    proof {
        reveal(spec_huff_len5);
    }
    if c == 0x0 {
        Some(48u8)
    } else if c == 0x1 {
        Some(49u8)
    } else if c == 0x2 {
        Some(50u8)
    } else if c == 0x3 {
        Some(97u8)
    } else if c == 0x4 {
        Some(99u8)
    } else if c == 0x5 {
        Some(101u8)
    } else if c == 0x6 {
        Some(105u8)
    } else if c == 0x7 {
        Some(111u8)
    } else if c == 0x8 {
        Some(115u8)
    } else if c == 0x9 {
        Some(116u8)
    } else {
        None
    }
}

/// The 6-bit codes of the canonical table.
#[verifier::opaque]
pub open spec fn spec_huff_len6(c: int) -> Option<u8> {
    if c == 0x14 {
        Some(32u8)
    } else if c == 0x15 {
        Some(37u8)
    } else if c == 0x16 {
        Some(45u8)
    } else if c == 0x17 {
        Some(46u8)
    } else if c == 0x18 {
        Some(47u8)
    } else if c == 0x19 {
        Some(51u8)
    } else if c == 0x1a {
        Some(52u8)
    } else if c == 0x1b {
        Some(53u8)
    } else if c == 0x1c {
        Some(54u8)
    } else if c == 0x1d {
        Some(55u8)
    } else if c == 0x1e {
        Some(56u8)
    } else if c == 0x1f {
        Some(57u8)
    } else if c == 0x20 {
        Some(61u8)
    } else if c == 0x21 {
        Some(65u8)
    } else if c == 0x22 {
        Some(95u8)
    } else if c == 0x23 {
        Some(98u8)
    } else if c == 0x24 {
        Some(100u8)
    } else if c == 0x25 {
        Some(102u8)
    } else if c == 0x26 {
        Some(103u8)
    } else if c == 0x27 {
        Some(104u8)
    } else if c == 0x28 {
        Some(108u8)
    } else if c == 0x29 {
        Some(109u8)
    } else if c == 0x2a {
        Some(110u8)
    } else if c == 0x2b {
        Some(112u8)
    } else if c == 0x2c {
        Some(114u8)
    } else if c == 0x2d {
        Some(117u8)
    } else {
        None
    }
}

fn huff_len6(c: u32) -> (r: Option<u8>)
    ensures
        r == spec_huff_len6(c as int),
{
    proof {
        reveal(spec_huff_len6);
    }
    if c == 0x14 {
        Some(32u8)
    } else if c == 0x15 {
        Some(37u8)
    } else if c == 0x16 {
        Some(45u8)
    } else if c == 0x17 {
        Some(46u8)
    } else if c == 0x18 {
        Some(47u8)
    } else if c == 0x19 {
        Some(51u8)
    } else if c == 0x1a {
        Some(52u8)
    } else if c == 0x1b {
        Some(53u8)
    } else if c == 0x1c {
        Some(54u8)
    } else if c == 0x1d {
        Some(55u8)
    } else if c == 0x1e {
        Some(56u8)
    } else if c == 0x1f {
        Some(57u8)
    } else if c == 0x20 {
        Some(61u8)
    } else if c == 0x21 {
        Some(65u8)
    } else if c == 0x22 {
        Some(95u8)
    } else if c == 0x23 {
        Some(98u8)
    } else if c == 0x24 {
        Some(100u8)
    } else if c == 0x25 {
        Some(102u8)
    } else if c == 0x26 {
        Some(103u8)
    } else if c == 0x27 {
        Some(104u8)
    } else if c == 0x28 {
        Some(108u8)
    } else if c == 0x29 {
        Some(109u8)
    } else if c == 0x2a {
        Some(110u8)
    } else if c == 0x2b {
        Some(112u8)
    } else if c == 0x2c {
        Some(114u8)
    } else if c == 0x2d {
        Some(117u8)
    } else {
        None
    }
}

/// The 7-bit codes of the canonical table.
#[verifier::opaque]
pub open spec fn spec_huff_len7(c: int) -> Option<u8> {
    if c == 0x5c {
        Some(58u8)
    } else if c == 0x5d {
        Some(66u8)
    } else if c == 0x5e {
        Some(67u8)
    } else if c == 0x5f {
        Some(68u8)
    } else if c == 0x60 {
        Some(69u8)
    } else if c == 0x61 {
        Some(70u8)
    } else if c == 0x62 {
        Some(71u8)
    } else if c == 0x63 {
        Some(72u8)
    } else if c == 0x64 {
        Some(73u8)
    } else if c == 0x65 {
        Some(74u8)
    } else if c == 0x66 {
        Some(75u8)
    } else if c == 0x67 {
        Some(76u8)
    } else if c == 0x68 {
        Some(77u8)
    } else if c == 0x69 {
        Some(78u8)
    } else if c == 0x6a {
        Some(79u8)
    } else if c == 0x6b {
        Some(80u8)
    } else if c == 0x6c {
        Some(81u8)
    } else if c == 0x6d {
        Some(82u8)
    } else if c == 0x6e {
        Some(83u8)
    } else if c == 0x6f {
        Some(84u8)
    } else if c == 0x70 {
        Some(85u8)
    } else if c == 0x71 {
        Some(86u8)
    } else if c == 0x72 {
        Some(87u8)
    } else if c == 0x73 {
        Some(89u8)
    } else if c == 0x74 {
        Some(106u8)
    } else if c == 0x75 {
        Some(107u8)
    } else if c == 0x76 {
        Some(113u8)
    } else if c == 0x77 {
        Some(118u8)
    } else if c == 0x78 {
        Some(119u8)
    } else if c == 0x79 {
        Some(120u8)
    } else if c == 0x7a {
        Some(121u8)
    } else if c == 0x7b {
        Some(122u8)
    } else {
        None
    }
}

fn huff_len7(c: u32) -> (r: Option<u8>)
    ensures
        r == spec_huff_len7(c as int),
{
    proof {
        reveal(spec_huff_len7);
    }
    if c == 0x5c {
        Some(58u8)
    } else if c == 0x5d {
        Some(66u8)
    } else if c == 0x5e {
        Some(67u8)
    } else if c == 0x5f {
        Some(68u8)
    } else if c == 0x60 {
        Some(69u8)
    } else if c == 0x61 {
        Some(70u8)
    } else if c == 0x62 {
        Some(71u8)
    } else if c == 0x63 {
        Some(72u8)
    } else if c == 0x64 {
        Some(73u8)
    } else if c == 0x65 {
        Some(74u8)
    } else if c == 0x66 {
        Some(75u8)
    } else if c == 0x67 {
        Some(76u8)
    } else if c == 0x68 {
        Some(77u8)
    } else if c == 0x69 {
        Some(78u8)
    } else if c == 0x6a {
        Some(79u8)
    } else if c == 0x6b {
        Some(80u8)
    } else if c == 0x6c {
        Some(81u8)
    } else if c == 0x6d {
        Some(82u8)
    } else if c == 0x6e {
        Some(83u8)
    } else if c == 0x6f {
        Some(84u8)
    } else if c == 0x70 {
        Some(85u8)
    } else if c == 0x71 {
        Some(86u8)
    } else if c == 0x72 {
        Some(87u8)
    } else if c == 0x73 {
        Some(89u8)
    } else if c == 0x74 {
        Some(106u8)
    } else if c == 0x75 {
        Some(107u8)
    } else if c == 0x76 {
        Some(113u8)
    } else if c == 0x77 {
        Some(118u8)
    } else if c == 0x78 {
        Some(119u8)
    } else if c == 0x79 {
        Some(120u8)
    } else if c == 0x7a {
        Some(121u8)
    } else if c == 0x7b {
        Some(122u8)
    } else {
        None
    }
}

/// The 8-bit codes of the canonical table.
#[verifier::opaque]
pub open spec fn spec_huff_len8(c: int) -> Option<u8> {
    if c == 0xf8 {
        Some(38u8)
    } else if c == 0xf9 {
        Some(42u8)
    } else if c == 0xfa {
        Some(44u8)
    } else if c == 0xfb {
        Some(59u8)
    } else if c == 0xfc {
        Some(88u8)
    } else if c == 0xfd {
        Some(90u8)
    } else {
        None
    }
}

fn huff_len8(c: u32) -> (r: Option<u8>)
    ensures
        r == spec_huff_len8(c as int),
{
    proof {
        reveal(spec_huff_len8);
    }
    if c == 0xf8 {
        Some(38u8)
    } else if c == 0xf9 {
        Some(42u8)
    } else if c == 0xfa {
        Some(44u8)
    } else if c == 0xfb {
        Some(59u8)
    } else if c == 0xfc {
        Some(88u8)
    } else if c == 0xfd {
        Some(90u8)
    } else {
        None
    }
}

/// The 10-bit codes of the canonical table.
#[verifier::opaque]
pub open spec fn spec_huff_len10(c: int) -> Option<u8> {
    if c == 0x3f8 {
        Some(33u8)
    } else if c == 0x3f9 {
        Some(34u8)
    } else if c == 0x3fa {
        Some(40u8)
    } else if c == 0x3fb {
        Some(41u8)
    } else if c == 0x3fc {
        Some(63u8)
    } else {
        None
    }
}

fn huff_len10(c: u32) -> (r: Option<u8>)
    ensures
        r == spec_huff_len10(c as int),
{
    proof {
        reveal(spec_huff_len10);
    }
    if c == 0x3f8 {
        Some(33u8)
    } else if c == 0x3f9 {
        Some(34u8)
    } else if c == 0x3fa {
        Some(40u8)
    } else if c == 0x3fb {
        Some(41u8)
    } else if c == 0x3fc {
        Some(63u8)
    } else {
        None
    }
}

/// The 11-bit codes of the canonical table.
#[verifier::opaque]
pub open spec fn spec_huff_len11(c: int) -> Option<u8> {
    if c == 0x7fa {
        Some(39u8)
    } else if c == 0x7fb {
        Some(43u8)
    } else if c == 0x7fc {
        Some(124u8)
    } else {
        None
    }
}

fn huff_len11(c: u32) -> (r: Option<u8>)
    ensures
        r == spec_huff_len11(c as int),
{
    proof {
        reveal(spec_huff_len11);
    }
    if c == 0x7fa {
        Some(39u8)
    } else if c == 0x7fb {
        Some(43u8)
    } else if c == 0x7fc {
        Some(124u8)
    } else {
        None
    }
}

/// The 12-bit codes of the canonical table.
#[verifier::opaque]
pub open spec fn spec_huff_len12(c: int) -> Option<u8> {
    if c == 0xffa {
        Some(35u8)
    } else if c == 0xffb {
        Some(62u8)
    } else {
        None
    }
}

fn huff_len12(c: u32) -> (r: Option<u8>)
    ensures
        r == spec_huff_len12(c as int),
{
    proof {
        reveal(spec_huff_len12);
    }
    if c == 0xffa {
        Some(35u8)
    } else if c == 0xffb {
        Some(62u8)
    } else {
        None
    }
}

/// The 13-bit codes of the canonical table.
#[verifier::opaque]
pub open spec fn spec_huff_len13(c: int) -> Option<u8> {
    if c == 0x1ff8 {
        Some(0u8)
    } else if c == 0x1ff9 {
        Some(36u8)
    } else if c == 0x1ffa {
        Some(64u8)
    } else if c == 0x1ffb {
        Some(91u8)
    } else if c == 0x1ffc {
        Some(93u8)
    } else if c == 0x1ffd {
        Some(126u8)
    } else {
        None
    }
}

fn huff_len13(c: u32) -> (r: Option<u8>)
    ensures
        r == spec_huff_len13(c as int),
{
    proof {
        reveal(spec_huff_len13);
    }
    if c == 0x1ff8 {
        Some(0u8)
    } else if c == 0x1ff9 {
        Some(36u8)
    } else if c == 0x1ffa {
        Some(64u8)
    } else if c == 0x1ffb {
        Some(91u8)
    } else if c == 0x1ffc {
        Some(93u8)
    } else if c == 0x1ffd {
        Some(126u8)
    } else {
        None
    }
}

/// The 14-bit codes of the canonical table.
#[verifier::opaque]
pub open spec fn spec_huff_len14(c: int) -> Option<u8> {
    if c == 0x3ffc {
        Some(94u8)
    } else if c == 0x3ffd {
        Some(125u8)
    } else {
        None
    }
}

fn huff_len14(c: u32) -> (r: Option<u8>)
    ensures
        r == spec_huff_len14(c as int),
{
    proof {
        reveal(spec_huff_len14);
    }
    if c == 0x3ffc {
        Some(94u8)
    } else if c == 0x3ffd {
        Some(125u8)
    } else {
        None
    }
}

/// The 15-bit codes of the canonical table.
#[verifier::opaque]
pub open spec fn spec_huff_len15(c: int) -> Option<u8> {
    if c == 0x7ffc {
        Some(60u8)
    } else if c == 0x7ffd {
        Some(96u8)
    } else if c == 0x7ffe {
        Some(123u8)
    } else {
        None
    }
}

fn huff_len15(c: u32) -> (r: Option<u8>)
    ensures
        r == spec_huff_len15(c as int),
{
    proof {
        reveal(spec_huff_len15);
    }
    if c == 0x7ffc {
        Some(60u8)
    } else if c == 0x7ffd {
        Some(96u8)
    } else if c == 0x7ffe {
        Some(123u8)
    } else {
        None
    }
}

/// The 19-bit codes of the canonical table.
#[verifier::opaque]
pub open spec fn spec_huff_len19(c: int) -> Option<u8> {
    if c == 0x7fff0 {
        Some(92u8)
    } else if c == 0x7fff1 {
        Some(195u8)
    } else if c == 0x7fff2 {
        Some(208u8)
    } else {
        None
    }
}

fn huff_len19(c: u32) -> (r: Option<u8>)
    ensures
        r == spec_huff_len19(c as int),
{
    proof {
        reveal(spec_huff_len19);
    }
    if c == 0x7fff0 {
        Some(92u8)
    } else if c == 0x7fff1 {
        Some(195u8)
    } else if c == 0x7fff2 {
        Some(208u8)
    } else {
        None
    }
}

/// The 20-bit codes of the canonical table.
#[verifier::opaque]
pub open spec fn spec_huff_len20(c: int) -> Option<u8> {
    if c == 0xfffe6 {
        Some(128u8)
    } else if c == 0xfffe7 {
        Some(130u8)
    } else if c == 0xfffe8 {
        Some(131u8)
    } else if c == 0xfffe9 {
        Some(162u8)
    } else if c == 0xfffea {
        Some(184u8)
    } else if c == 0xfffeb {
        Some(194u8)
    } else if c == 0xfffec {
        Some(224u8)
    } else if c == 0xfffed {
        Some(226u8)
    } else {
        None
    }
}

fn huff_len20(c: u32) -> (r: Option<u8>)
    ensures
        r == spec_huff_len20(c as int),
{
    proof {
        reveal(spec_huff_len20);
    }
    if c == 0xfffe6 {
        Some(128u8)
    } else if c == 0xfffe7 {
        Some(130u8)
    } else if c == 0xfffe8 {
        Some(131u8)
    } else if c == 0xfffe9 {
        Some(162u8)
    } else if c == 0xfffea {
        Some(184u8)
    } else if c == 0xfffeb {
        Some(194u8)
    } else if c == 0xfffec {
        Some(224u8)
    } else if c == 0xfffed {
        Some(226u8)
    } else {
        None
    }
}

/// The 21-bit codes of the canonical table.
#[verifier::opaque]
pub open spec fn spec_huff_len21(c: int) -> Option<u8> {
    if c == 0x1fffdc {
        Some(153u8)
    } else if c == 0x1fffdd {
        Some(161u8)
    } else if c == 0x1fffde {
        Some(167u8)
    } else if c == 0x1fffdf {
        Some(172u8)
    } else if c == 0x1fffe0 {
        Some(176u8)
    } else if c == 0x1fffe1 {
        Some(177u8)
    } else if c == 0x1fffe2 {
        Some(179u8)
    } else if c == 0x1fffe3 {
        Some(209u8)
    } else if c == 0x1fffe4 {
        Some(216u8)
    } else if c == 0x1fffe5 {
        Some(217u8)
    } else if c == 0x1fffe6 {
        Some(227u8)
    } else if c == 0x1fffe7 {
        Some(229u8)
    } else if c == 0x1fffe8 {
        Some(230u8)
    } else {
        None
    }
}

fn huff_len21(c: u32) -> (r: Option<u8>)
    ensures
        r == spec_huff_len21(c as int),
{
    proof {
        reveal(spec_huff_len21);
    }
    if c == 0x1fffdc {
        Some(153u8)
    } else if c == 0x1fffdd {
        Some(161u8)
    } else if c == 0x1fffde {
        Some(167u8)
    } else if c == 0x1fffdf {
        Some(172u8)
    } else if c == 0x1fffe0 {
        Some(176u8)
    } else if c == 0x1fffe1 {
        Some(177u8)
    } else if c == 0x1fffe2 {
        Some(179u8)
    } else if c == 0x1fffe3 {
        Some(209u8)
    } else if c == 0x1fffe4 {
        Some(216u8)
    } else if c == 0x1fffe5 {
        Some(217u8)
    } else if c == 0x1fffe6 {
        Some(227u8)
    } else if c == 0x1fffe7 {
        Some(229u8)
    } else if c == 0x1fffe8 {
        Some(230u8)
    } else {
        None
    }
}

/// The 22-bit codes of the canonical table.
#[verifier::opaque]
pub open spec fn spec_huff_len22(c: int) -> Option<u8> {
    if c == 0x3fffd2 {
        Some(129u8)
    } else if c == 0x3fffd3 {
        Some(132u8)
    } else if c == 0x3fffd4 {
        Some(133u8)
    } else if c == 0x3fffd5 {
        Some(134u8)
    } else if c == 0x3fffd6 {
        Some(136u8)
    } else if c == 0x3fffd7 {
        Some(146u8)
    } else if c == 0x3fffd8 {
        Some(154u8)
    } else if c == 0x3fffd9 {
        Some(156u8)
    } else if c == 0x3fffda {
        Some(160u8)
    } else if c == 0x3fffdb {
        Some(163u8)
    } else if c == 0x3fffdc {
        Some(164u8)
    } else if c == 0x3fffdd {
        Some(169u8)
    } else if c == 0x3fffde {
        Some(170u8)
    } else if c == 0x3fffdf {
        Some(173u8)
    } else if c == 0x3fffe0 {
        Some(178u8)
    } else if c == 0x3fffe1 {
        Some(181u8)
    } else if c == 0x3fffe2 {
        Some(185u8)
    } else if c == 0x3fffe3 {
        Some(186u8)
    } else if c == 0x3fffe4 {
        Some(187u8)
    } else if c == 0x3fffe5 {
        Some(189u8)
    } else if c == 0x3fffe6 {
        Some(190u8)
    } else if c == 0x3fffe7 {
        Some(196u8)
    } else if c == 0x3fffe8 {
        Some(198u8)
    } else if c == 0x3fffe9 {
        Some(228u8)
    } else if c == 0x3fffea {
        Some(232u8)
    } else if c == 0x3fffeb {
        Some(233u8)
    } else {
        None
    }
}

fn huff_len22(c: u32) -> (r: Option<u8>)
    ensures
        r == spec_huff_len22(c as int),
{
    proof {
        reveal(spec_huff_len22);
    }
    if c == 0x3fffd2 {
        Some(129u8)
    } else if c == 0x3fffd3 {
        Some(132u8)
    } else if c == 0x3fffd4 {
        Some(133u8)
    } else if c == 0x3fffd5 {
        Some(134u8)
    } else if c == 0x3fffd6 {
        Some(136u8)
    } else if c == 0x3fffd7 {
        Some(146u8)
    } else if c == 0x3fffd8 {
        Some(154u8)
    } else if c == 0x3fffd9 {
        Some(156u8)
    } else if c == 0x3fffda {
        Some(160u8)
    } else if c == 0x3fffdb {
        Some(163u8)
    } else if c == 0x3fffdc {
        Some(164u8)
    } else if c == 0x3fffdd {
        Some(169u8)
    } else if c == 0x3fffde {
        Some(170u8)
    } else if c == 0x3fffdf {
        Some(173u8)
    } else if c == 0x3fffe0 {
        Some(178u8)
    } else if c == 0x3fffe1 {
        Some(181u8)
    } else if c == 0x3fffe2 {
        Some(185u8)
    } else if c == 0x3fffe3 {
        Some(186u8)
    } else if c == 0x3fffe4 {
        Some(187u8)
    } else if c == 0x3fffe5 {
        Some(189u8)
    } else if c == 0x3fffe6 {
        Some(190u8)
    } else if c == 0x3fffe7 {
        Some(196u8)
    } else if c == 0x3fffe8 {
        Some(198u8)
    } else if c == 0x3fffe9 {
        Some(228u8)
    } else if c == 0x3fffea {
        Some(232u8)
    } else if c == 0x3fffeb {
        Some(233u8)
    } else {
        None
    }
}

/// The 23-bit codes of the canonical table.
#[verifier::opaque]
pub open spec fn spec_huff_len23(c: int) -> Option<u8> {
    if c == 0x7fffd8 {
        Some(1u8)
    } else if c == 0x7fffd9 {
        Some(135u8)
    } else if c == 0x7fffda {
        Some(137u8)
    } else if c == 0x7fffdb {
        Some(138u8)
    } else if c == 0x7fffdc {
        Some(139u8)
    } else if c == 0x7fffdd {
        Some(140u8)
    } else if c == 0x7fffde {
        Some(141u8)
    } else if c == 0x7fffdf {
        Some(143u8)
    } else if c == 0x7fffe0 {
        Some(147u8)
    } else if c == 0x7fffe1 {
        Some(149u8)
    } else if c == 0x7fffe2 {
        Some(150u8)
    } else if c == 0x7fffe3 {
        Some(151u8)
    } else if c == 0x7fffe4 {
        Some(152u8)
    } else if c == 0x7fffe5 {
        Some(155u8)
    } else if c == 0x7fffe6 {
        Some(157u8)
    } else if c == 0x7fffe7 {
        Some(158u8)
    } else if c == 0x7fffe8 {
        Some(165u8)
    } else if c == 0x7fffe9 {
        Some(166u8)
    } else if c == 0x7fffea {
        Some(168u8)
    } else if c == 0x7fffeb {
        Some(174u8)
    } else if c == 0x7fffec {
        Some(175u8)
    } else if c == 0x7fffed {
        Some(180u8)
    } else if c == 0x7fffee {
        Some(182u8)
    } else if c == 0x7fffef {
        Some(183u8)
    } else if c == 0x7ffff0 {
        Some(188u8)
    } else if c == 0x7ffff1 {
        Some(191u8)
    } else if c == 0x7ffff2 {
        Some(197u8)
    } else if c == 0x7ffff3 {
        Some(231u8)
    } else if c == 0x7ffff4 {
        Some(239u8)
    } else {
        None
    }
}

fn huff_len23(c: u32) -> (r: Option<u8>)
    ensures
        r == spec_huff_len23(c as int),
{
    proof {
        reveal(spec_huff_len23);
    }
    if c == 0x7fffd8 {
        Some(1u8)
    } else if c == 0x7fffd9 {
        Some(135u8)
    } else if c == 0x7fffda {
        Some(137u8)
    } else if c == 0x7fffdb {
        Some(138u8)
    } else if c == 0x7fffdc {
        Some(139u8)
    } else if c == 0x7fffdd {
        Some(140u8)
    } else if c == 0x7fffde {
        Some(141u8)
    } else if c == 0x7fffdf {
        Some(143u8)
    } else if c == 0x7fffe0 {
        Some(147u8)
    } else if c == 0x7fffe1 {
        Some(149u8)
    } else if c == 0x7fffe2 {
        Some(150u8)
    } else if c == 0x7fffe3 {
        Some(151u8)
    } else if c == 0x7fffe4 {
        Some(152u8)
    } else if c == 0x7fffe5 {
        Some(155u8)
    } else if c == 0x7fffe6 {
        Some(157u8)
    } else if c == 0x7fffe7 {
        Some(158u8)
    } else if c == 0x7fffe8 {
        Some(165u8)
    } else if c == 0x7fffe9 {
        Some(166u8)
    } else if c == 0x7fffea {
        Some(168u8)
    } else if c == 0x7fffeb {
        Some(174u8)
    } else if c == 0x7fffec {
        Some(175u8)
    } else if c == 0x7fffed {
        Some(180u8)
    } else if c == 0x7fffee {
        Some(182u8)
    } else if c == 0x7fffef {
        Some(183u8)
    } else if c == 0x7ffff0 {
        Some(188u8)
    } else if c == 0x7ffff1 {
        Some(191u8)
    } else if c == 0x7ffff2 {
        Some(197u8)
    } else if c == 0x7ffff3 {
        Some(231u8)
    } else if c == 0x7ffff4 {
        Some(239u8)
    } else {
        None
    }
}

/// The 24-bit codes of the canonical table.
#[verifier::opaque]
pub open spec fn spec_huff_len24(c: int) -> Option<u8> {
    if c == 0xffffea {
        Some(9u8)
    } else if c == 0xffffeb {
        Some(142u8)
    } else if c == 0xffffec {
        Some(144u8)
    } else if c == 0xffffed {
        Some(145u8)
    } else if c == 0xffffee {
        Some(148u8)
    } else if c == 0xffffef {
        Some(159u8)
    } else if c == 0xfffff0 {
        Some(171u8)
    } else if c == 0xfffff1 {
        Some(206u8)
    } else if c == 0xfffff2 {
        Some(215u8)
    } else if c == 0xfffff3 {
        Some(225u8)
    } else if c == 0xfffff4 {
        Some(236u8)
    } else if c == 0xfffff5 {
        Some(237u8)
    } else {
        None
    }
}

fn huff_len24(c: u32) -> (r: Option<u8>)
    ensures
        r == spec_huff_len24(c as int),
{
    proof {
        reveal(spec_huff_len24);
    }
    if c == 0xffffea {
        Some(9u8)
    } else if c == 0xffffeb {
        Some(142u8)
    } else if c == 0xffffec {
        Some(144u8)
    } else if c == 0xffffed {
        Some(145u8)
    } else if c == 0xffffee {
        Some(148u8)
    } else if c == 0xffffef {
        Some(159u8)
    } else if c == 0xfffff0 {
        Some(171u8)
    } else if c == 0xfffff1 {
        Some(206u8)
    } else if c == 0xfffff2 {
        Some(215u8)
    } else if c == 0xfffff3 {
        Some(225u8)
    } else if c == 0xfffff4 {
        Some(236u8)
    } else if c == 0xfffff5 {
        Some(237u8)
    } else {
        None
    }
}

/// The 25-bit codes of the canonical table.
#[verifier::opaque]
pub open spec fn spec_huff_len25(c: int) -> Option<u8> {
    if c == 0x1ffffec {
        Some(199u8)
    } else if c == 0x1ffffed {
        Some(207u8)
    } else if c == 0x1ffffee {
        Some(234u8)
    } else if c == 0x1ffffef {
        Some(235u8)
    } else {
        None
    }
}

fn huff_len25(c: u32) -> (r: Option<u8>)
    ensures
        r == spec_huff_len25(c as int),
{
    proof {
        reveal(spec_huff_len25);
    }
    if c == 0x1ffffec {
        Some(199u8)
    } else if c == 0x1ffffed {
        Some(207u8)
    } else if c == 0x1ffffee {
        Some(234u8)
    } else if c == 0x1ffffef {
        Some(235u8)
    } else {
        None
    }
}

/// The 26-bit codes of the canonical table.
#[verifier::opaque]
pub open spec fn spec_huff_len26(c: int) -> Option<u8> {
    if c == 0x3ffffe0 {
        Some(192u8)
    } else if c == 0x3ffffe1 {
        Some(193u8)
    } else if c == 0x3ffffe2 {
        Some(200u8)
    } else if c == 0x3ffffe3 {
        Some(201u8)
    } else if c == 0x3ffffe4 {
        Some(202u8)
    } else if c == 0x3ffffe5 {
        Some(205u8)
    } else if c == 0x3ffffe6 {
        Some(210u8)
    } else if c == 0x3ffffe7 {
        Some(213u8)
    } else if c == 0x3ffffe8 {
        Some(218u8)
    } else if c == 0x3ffffe9 {
        Some(219u8)
    } else if c == 0x3ffffea {
        Some(238u8)
    } else if c == 0x3ffffeb {
        Some(240u8)
    } else if c == 0x3ffffec {
        Some(242u8)
    } else if c == 0x3ffffed {
        Some(243u8)
    } else if c == 0x3ffffee {
        Some(255u8)
    } else {
        None
    }
}

fn huff_len26(c: u32) -> (r: Option<u8>)
    ensures
        r == spec_huff_len26(c as int),
{
    proof {
        reveal(spec_huff_len26);
    }
    if c == 0x3ffffe0 {
        Some(192u8)
    } else if c == 0x3ffffe1 {
        Some(193u8)
    } else if c == 0x3ffffe2 {
        Some(200u8)
    } else if c == 0x3ffffe3 {
        Some(201u8)
    } else if c == 0x3ffffe4 {
        Some(202u8)
    } else if c == 0x3ffffe5 {
        Some(205u8)
    } else if c == 0x3ffffe6 {
        Some(210u8)
    } else if c == 0x3ffffe7 {
        Some(213u8)
    } else if c == 0x3ffffe8 {
        Some(218u8)
    } else if c == 0x3ffffe9 {
        Some(219u8)
    } else if c == 0x3ffffea {
        Some(238u8)
    } else if c == 0x3ffffeb {
        Some(240u8)
    } else if c == 0x3ffffec {
        Some(242u8)
    } else if c == 0x3ffffed {
        Some(243u8)
    } else if c == 0x3ffffee {
        Some(255u8)
    } else {
        None
    }
}

/// The 27-bit codes of the canonical table.
#[verifier::opaque]
pub open spec fn spec_huff_len27(c: int) -> Option<u8> {
    if c == 0x7ffffde {
        Some(203u8)
    } else if c == 0x7ffffdf {
        Some(204u8)
    } else if c == 0x7ffffe0 {
        Some(211u8)
    } else if c == 0x7ffffe1 {
        Some(212u8)
    } else if c == 0x7ffffe2 {
        Some(214u8)
    } else if c == 0x7ffffe3 {
        Some(221u8)
    } else if c == 0x7ffffe4 {
        Some(222u8)
    } else if c == 0x7ffffe5 {
        Some(223u8)
    } else if c == 0x7ffffe6 {
        Some(241u8)
    } else if c == 0x7ffffe7 {
        Some(244u8)
    } else if c == 0x7ffffe8 {
        Some(245u8)
    } else if c == 0x7ffffe9 {
        Some(246u8)
    } else if c == 0x7ffffea {
        Some(247u8)
    } else if c == 0x7ffffeb {
        Some(248u8)
    } else if c == 0x7ffffec {
        Some(250u8)
    } else if c == 0x7ffffed {
        Some(251u8)
    } else if c == 0x7ffffee {
        Some(252u8)
    } else if c == 0x7ffffef {
        Some(253u8)
    } else if c == 0x7fffff0 {
        Some(254u8)
    } else {
        None
    }
}

fn huff_len27(c: u32) -> (r: Option<u8>)
    ensures
        r == spec_huff_len27(c as int),
{
    proof {
        reveal(spec_huff_len27);
    }
    if c == 0x7ffffde {
        Some(203u8)
    } else if c == 0x7ffffdf {
        Some(204u8)
    } else if c == 0x7ffffe0 {
        Some(211u8)
    } else if c == 0x7ffffe1 {
        Some(212u8)
    } else if c == 0x7ffffe2 {
        Some(214u8)
    } else if c == 0x7ffffe3 {
        Some(221u8)
    } else if c == 0x7ffffe4 {
        Some(222u8)
    } else if c == 0x7ffffe5 {
        Some(223u8)
    } else if c == 0x7ffffe6 {
        Some(241u8)
    } else if c == 0x7ffffe7 {
        Some(244u8)
    } else if c == 0x7ffffe8 {
        Some(245u8)
    } else if c == 0x7ffffe9 {
        Some(246u8)
    } else if c == 0x7ffffea {
        Some(247u8)
    } else if c == 0x7ffffeb {
        Some(248u8)
    } else if c == 0x7ffffec {
        Some(250u8)
    } else if c == 0x7ffffed {
        Some(251u8)
    } else if c == 0x7ffffee {
        Some(252u8)
    } else if c == 0x7ffffef {
        Some(253u8)
    } else if c == 0x7fffff0 {
        Some(254u8)
    } else {
        None
    }
}

/// The 28-bit codes of the canonical table.
#[verifier::opaque]
pub open spec fn spec_huff_len28(c: int) -> Option<u8> {
    if c == 0xfffffe2 {
        Some(2u8)
    } else if c == 0xfffffe3 {
        Some(3u8)
    } else if c == 0xfffffe4 {
        Some(4u8)
    } else if c == 0xfffffe5 {
        Some(5u8)
    } else if c == 0xfffffe6 {
        Some(6u8)
    } else if c == 0xfffffe7 {
        Some(7u8)
    } else if c == 0xfffffe8 {
        Some(8u8)
    } else if c == 0xfffffe9 {
        Some(11u8)
    } else if c == 0xfffffea {
        Some(12u8)
    } else if c == 0xfffffeb {
        Some(14u8)
    } else if c == 0xfffffec {
        Some(15u8)
    } else if c == 0xfffffed {
        Some(16u8)
    } else if c == 0xfffffee {
        Some(17u8)
    } else if c == 0xfffffef {
        Some(18u8)
    } else if c == 0xffffff0 {
        Some(19u8)
    } else if c == 0xffffff1 {
        Some(20u8)
    } else if c == 0xffffff2 {
        Some(21u8)
    } else if c == 0xffffff3 {
        Some(23u8)
    } else if c == 0xffffff4 {
        Some(24u8)
    } else if c == 0xffffff5 {
        Some(25u8)
    } else if c == 0xffffff6 {
        Some(26u8)
    } else if c == 0xffffff7 {
        Some(27u8)
    } else if c == 0xffffff8 {
        Some(28u8)
    } else if c == 0xffffff9 {
        Some(29u8)
    } else if c == 0xffffffa {
        Some(30u8)
    } else if c == 0xffffffb {
        Some(31u8)
    } else if c == 0xffffffc {
        Some(127u8)
    } else if c == 0xffffffd {
        Some(220u8)
    } else if c == 0xffffffe {
        Some(249u8)
    } else {
        None
    }
}

fn huff_len28(c: u32) -> (r: Option<u8>)
    ensures
        r == spec_huff_len28(c as int),
{
    proof {
        reveal(spec_huff_len28);
    }
    if c == 0xfffffe2 {
        Some(2u8)
    } else if c == 0xfffffe3 {
        Some(3u8)
    } else if c == 0xfffffe4 {
        Some(4u8)
    } else if c == 0xfffffe5 {
        Some(5u8)
    } else if c == 0xfffffe6 {
        Some(6u8)
    } else if c == 0xfffffe7 {
        Some(7u8)
    } else if c == 0xfffffe8 {
        Some(8u8)
    } else if c == 0xfffffe9 {
        Some(11u8)
    } else if c == 0xfffffea {
        Some(12u8)
    } else if c == 0xfffffeb {
        Some(14u8)
    } else if c == 0xfffffec {
        Some(15u8)
    } else if c == 0xfffffed {
        Some(16u8)
    } else if c == 0xfffffee {
        Some(17u8)
    } else if c == 0xfffffef {
        Some(18u8)
    } else if c == 0xffffff0 {
        Some(19u8)
    } else if c == 0xffffff1 {
        Some(20u8)
    } else if c == 0xffffff2 {
        Some(21u8)
    } else if c == 0xffffff3 {
        Some(23u8)
    } else if c == 0xffffff4 {
        Some(24u8)
    } else if c == 0xffffff5 {
        Some(25u8)
    } else if c == 0xffffff6 {
        Some(26u8)
    } else if c == 0xffffff7 {
        Some(27u8)
    } else if c == 0xffffff8 {
        Some(28u8)
    } else if c == 0xffffff9 {
        Some(29u8)
    } else if c == 0xffffffa {
        Some(30u8)
    } else if c == 0xffffffb {
        Some(31u8)
    } else if c == 0xffffffc {
        Some(127u8)
    } else if c == 0xffffffd {
        Some(220u8)
    } else if c == 0xffffffe {
        Some(249u8)
    } else {
        None
    }
}

/// The 30-bit codes of the canonical table.
#[verifier::opaque]
pub open spec fn spec_huff_len30(c: int) -> Option<u8> {
    if c == 0x3ffffffc {
        Some(10u8)
    } else if c == 0x3ffffffd {
        Some(13u8)
    } else if c == 0x3ffffffe {
        Some(22u8)
    } else {
        None
    }
}

fn huff_len30(c: u32) -> (r: Option<u8>)
    ensures
        r == spec_huff_len30(c as int),
{
    proof {
        reveal(spec_huff_len30);
    }
    if c == 0x3ffffffc {
        Some(10u8)
    } else if c == 0x3ffffffd {
        Some(13u8)
    } else if c == 0x3ffffffe {
        Some(22u8)
    } else {
        None
    }
}

/// One decoding step at bit position `pos`: the shortest code length whose
/// bits form a table entry, with the symbol and the position after it; or
/// nothing, when the remaining bits form no complete code.
pub open spec fn spec_huff_step(s: Seq<u8>, pos: int) -> Option<(u8, int)> {
    if pos + 5 <= 8 * s.len() && spec_huff_len5(spec_bits(s, pos, 5)) is Some {
        Some((spec_huff_len5(spec_bits(s, pos, 5)).unwrap(), pos + 5))
    } else if pos + 6 <= 8 * s.len() && spec_huff_len6(spec_bits(s, pos, 6)) is Some {
        Some((spec_huff_len6(spec_bits(s, pos, 6)).unwrap(), pos + 6))
    } else if pos + 7 <= 8 * s.len() && spec_huff_len7(spec_bits(s, pos, 7)) is Some {
        Some((spec_huff_len7(spec_bits(s, pos, 7)).unwrap(), pos + 7))
    } else if pos + 8 <= 8 * s.len() && spec_huff_len8(spec_bits(s, pos, 8)) is Some {
        Some((spec_huff_len8(spec_bits(s, pos, 8)).unwrap(), pos + 8))
    } else if pos + 10 <= 8 * s.len() && spec_huff_len10(spec_bits(s, pos, 10)) is Some {
        Some((spec_huff_len10(spec_bits(s, pos, 10)).unwrap(), pos + 10))
    } else if pos + 11 <= 8 * s.len() && spec_huff_len11(spec_bits(s, pos, 11)) is Some {
        Some((spec_huff_len11(spec_bits(s, pos, 11)).unwrap(), pos + 11))
    } else if pos + 12 <= 8 * s.len() && spec_huff_len12(spec_bits(s, pos, 12)) is Some {
        Some((spec_huff_len12(spec_bits(s, pos, 12)).unwrap(), pos + 12))
    } else if pos + 13 <= 8 * s.len() && spec_huff_len13(spec_bits(s, pos, 13)) is Some {
        Some((spec_huff_len13(spec_bits(s, pos, 13)).unwrap(), pos + 13))
    } else if pos + 14 <= 8 * s.len() && spec_huff_len14(spec_bits(s, pos, 14)) is Some {
        Some((spec_huff_len14(spec_bits(s, pos, 14)).unwrap(), pos + 14))
    } else if pos + 15 <= 8 * s.len() && spec_huff_len15(spec_bits(s, pos, 15)) is Some {
        Some((spec_huff_len15(spec_bits(s, pos, 15)).unwrap(), pos + 15))
    } else if pos + 19 <= 8 * s.len() && spec_huff_len19(spec_bits(s, pos, 19)) is Some {
        Some((spec_huff_len19(spec_bits(s, pos, 19)).unwrap(), pos + 19))
    } else if pos + 20 <= 8 * s.len() && spec_huff_len20(spec_bits(s, pos, 20)) is Some {
        Some((spec_huff_len20(spec_bits(s, pos, 20)).unwrap(), pos + 20))
    } else if pos + 21 <= 8 * s.len() && spec_huff_len21(spec_bits(s, pos, 21)) is Some {
        Some((spec_huff_len21(spec_bits(s, pos, 21)).unwrap(), pos + 21))
    } else if pos + 22 <= 8 * s.len() && spec_huff_len22(spec_bits(s, pos, 22)) is Some {
        Some((spec_huff_len22(spec_bits(s, pos, 22)).unwrap(), pos + 22))
    } else if pos + 23 <= 8 * s.len() && spec_huff_len23(spec_bits(s, pos, 23)) is Some {
        Some((spec_huff_len23(spec_bits(s, pos, 23)).unwrap(), pos + 23))
    } else if pos + 24 <= 8 * s.len() && spec_huff_len24(spec_bits(s, pos, 24)) is Some {
        Some((spec_huff_len24(spec_bits(s, pos, 24)).unwrap(), pos + 24))
    } else if pos + 25 <= 8 * s.len() && spec_huff_len25(spec_bits(s, pos, 25)) is Some {
        Some((spec_huff_len25(spec_bits(s, pos, 25)).unwrap(), pos + 25))
    } else if pos + 26 <= 8 * s.len() && spec_huff_len26(spec_bits(s, pos, 26)) is Some {
        Some((spec_huff_len26(spec_bits(s, pos, 26)).unwrap(), pos + 26))
    } else if pos + 27 <= 8 * s.len() && spec_huff_len27(spec_bits(s, pos, 27)) is Some {
        Some((spec_huff_len27(spec_bits(s, pos, 27)).unwrap(), pos + 27))
    } else if pos + 28 <= 8 * s.len() && spec_huff_len28(spec_bits(s, pos, 28)) is Some {
        Some((spec_huff_len28(spec_bits(s, pos, 28)).unwrap(), pos + 28))
    } else if pos + 30 <= 8 * s.len() && spec_huff_len30(spec_bits(s, pos, 30)) is Some {
        Some((spec_huff_len30(spec_bits(s, pos, 30)).unwrap(), pos + 30))
    } else {
        None
    }
}

/// The byte sequence that the Huffman-coded bits of `s` decode to,
/// starting at bit position `pos`.
pub open spec fn spec_huff_decode(s: Seq<u8>, pos: int) -> Seq<u8>
    decreases 8 * s.len() - pos,
{
    if pos < 0 {
        Seq::empty()
    } else {
        match spec_huff_step(s, pos) {
            Some((sym, next)) => seq![sym] + spec_huff_decode(s, next),
            None => Seq::empty(),
        }
    }
}

/// Reads the `len` bits at bit position `pos` as a big-endian value.
fn read_bits(input: &[u8], pos: u128, len: u8) -> (r: u32)
    requires
        pos + len <= 8 * input@.len(),
        len <= 30,
    ensures
        r == spec_bits(input@, pos as int, len as int),
{
    let ghost s = input@;
    let n = input.len();
    proof {
        lemma_p2_seven_values();
        assert(p2(29) == 2 * p2(28));
        assert(p2(30) == 2 * p2(29));
        assert(n == input@.len());
    }
    let mut acc: u32 = 0;
    let mut i: u8 = 0;
    while i < len
        invariant
            0 <= i <= len,
            len <= 30,
            s.len() <= usize::MAX,
            pos + len <= 8 * s.len(),
            s == input@,
            acc == spec_bits(s, pos as int, i as int),
            p2(28) == 0x10000000,
            p2(30) == 0x40000000,
        decreases len - i,
    {
        proof {
            lemma_spec_bits_bound(s, pos as int, i as int);
            lemma_p2_le(i as int, 29);
            assert(p2(29) == 0x20000000);
        }
        let j: u128 = pos + (i as u128);
        let bidx: usize = (j / 8) as usize;
        let sh: u8 = (7 - (j % 8)) as u8;
        proof {
            assert(j < 8 * s.len());
            assert(j / 8 < s.len());
        }
        let b: u8 = input[bidx];
        let bit: u8 = (b >> sh) & 1;
        proof {
            assert(bidx as int == (j as int) / 8);
            assert(sh == (7 - ((j as int) % 8)) as u8);
            assert(bit == spec_bit(s, j as int));
            assert(((b >> sh) & 1) <= 1) by (bit_vector);
        }
        acc = acc * 2 + (bit as u32);
        i = i + 1;
    }
    acc
}

/// One exec decoding step: the symbol at bit position `pos` and the length
/// of its code, mirroring [`spec_huff_step`].
fn huff_step(input: &[u8], pos: u128) -> (r: Option<(u8, u8)>)
    requires
        pos <= 8 * input@.len(),
    ensures
        match r {
            Some((sym, l)) => {
                &&& spec_huff_step(input@, pos as int) == Some((sym, pos + l))
                &&& 5 <= l <= 30
                &&& pos + l <= 8 * input@.len()
            },
            None => spec_huff_step(input@, pos as int) is None,
        },
{
    let nbits: u128 = (input.len() as u128) * 8;
    if pos + 5 <= nbits {
        let c = read_bits(input, pos, 5);
        let r = huff_len5(c);
        if r.is_some() {
            return Some((r.unwrap(), 5));
        }
    }
    if pos + 6 <= nbits {
        let c = read_bits(input, pos, 6);
        let r = huff_len6(c);
        if r.is_some() {
            return Some((r.unwrap(), 6));
        }
    }
    if pos + 7 <= nbits {
        let c = read_bits(input, pos, 7);
        let r = huff_len7(c);
        if r.is_some() {
            return Some((r.unwrap(), 7));
        }
    }
    if pos + 8 <= nbits {
        let c = read_bits(input, pos, 8);
        let r = huff_len8(c);
        if r.is_some() {
            return Some((r.unwrap(), 8));
        }
    }
    if pos + 10 <= nbits {
        let c = read_bits(input, pos, 10);
        let r = huff_len10(c);
        if r.is_some() {
            return Some((r.unwrap(), 10));
        }
    }
    if pos + 11 <= nbits {
        let c = read_bits(input, pos, 11);
        let r = huff_len11(c);
        if r.is_some() {
            return Some((r.unwrap(), 11));
        }
    }
    if pos + 12 <= nbits {
        let c = read_bits(input, pos, 12);
        let r = huff_len12(c);
        if r.is_some() {
            return Some((r.unwrap(), 12));
        }
    }
    if pos + 13 <= nbits {
        let c = read_bits(input, pos, 13);
        let r = huff_len13(c);
        if r.is_some() {
            return Some((r.unwrap(), 13));
        }
    }
    if pos + 14 <= nbits {
        let c = read_bits(input, pos, 14);
        let r = huff_len14(c);
        if r.is_some() {
            return Some((r.unwrap(), 14));
        }
    }
    if pos + 15 <= nbits {
        let c = read_bits(input, pos, 15);
        let r = huff_len15(c);
        if r.is_some() {
            return Some((r.unwrap(), 15));
        }
    }
    if pos + 19 <= nbits {
        let c = read_bits(input, pos, 19);
        let r = huff_len19(c);
        if r.is_some() {
            return Some((r.unwrap(), 19));
        }
    }
    if pos + 20 <= nbits {
        let c = read_bits(input, pos, 20);
        let r = huff_len20(c);
        if r.is_some() {
            return Some((r.unwrap(), 20));
        }
    }
    if pos + 21 <= nbits {
        let c = read_bits(input, pos, 21);
        let r = huff_len21(c);
        if r.is_some() {
            return Some((r.unwrap(), 21));
        }
    }
    if pos + 22 <= nbits {
        let c = read_bits(input, pos, 22);
        let r = huff_len22(c);
        if r.is_some() {
            return Some((r.unwrap(), 22));
        }
    }
    if pos + 23 <= nbits {
        let c = read_bits(input, pos, 23);
        let r = huff_len23(c);
        if r.is_some() {
            return Some((r.unwrap(), 23));
        }
    }
    if pos + 24 <= nbits {
        let c = read_bits(input, pos, 24);
        let r = huff_len24(c);
        if r.is_some() {
            return Some((r.unwrap(), 24));
        }
    }
    if pos + 25 <= nbits {
        let c = read_bits(input, pos, 25);
        let r = huff_len25(c);
        if r.is_some() {
            return Some((r.unwrap(), 25));
        }
    }
    if pos + 26 <= nbits {
        let c = read_bits(input, pos, 26);
        let r = huff_len26(c);
        if r.is_some() {
            return Some((r.unwrap(), 26));
        }
    }
    if pos + 27 <= nbits {
        let c = read_bits(input, pos, 27);
        let r = huff_len27(c);
        if r.is_some() {
            return Some((r.unwrap(), 27));
        }
    }
    if pos + 28 <= nbits {
        let c = read_bits(input, pos, 28);
        let r = huff_len28(c);
        if r.is_some() {
            return Some((r.unwrap(), 28));
        }
    }
    if pos + 30 <= nbits {
        let c = read_bits(input, pos, 30);
        let r = huff_len30(c);
        if r.is_some() {
            return Some((r.unwrap(), 30));
        }
    }
    None
}

/// Decodes a whole Huffman-coded byte string, walking the canonical table
/// from bit position 0 until the remaining bits form no complete code.
pub fn http2_decode_huffman(input: &[u8]) -> (r: Vec<u8>)
    ensures
        r@ == spec_huff_decode(input@, 0),
{
    let ghost s = input@;
    let nbits: u128 = (input.len() as u128) * 8;
    let mut out: Vec<u8> = Vec::new();
    let mut pos: u128 = 0;
    let mut done = false;
    proof {
        assert(out@ + spec_huff_decode(s, 0) =~= spec_huff_decode(s, 0));
    }
    while !done
        invariant
            s == input@,
            nbits == 8 * s.len(),
            0 <= pos <= nbits,
            spec_huff_decode(s, 0) == out@ + spec_huff_decode(s, pos as int),
            done ==> spec_huff_decode(s, pos as int) =~= Seq::<u8>::empty(),
        decreases nbits - pos + (if done { 0int } else { 1int }),
    {
        match huff_step(input, pos) {
            Some((sym, l)) => {
                proof {
                    let rest = spec_huff_decode(s, pos + l);
                    assert(spec_huff_decode(s, pos as int) == seq![sym] + rest);
                    assert(out@ + (seq![sym] + rest) =~= out@.push(sym) + rest);
                }
                out.push(sym);
                pos = pos + (l as u128);
            },
            None => {
                done = true;
            },
        }
    }
    proof {
        assert(out@ + Seq::<u8>::empty() =~= out@);
    }
    out
}

} // verus!
