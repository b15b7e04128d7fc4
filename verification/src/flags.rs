//! Page table entry attributes and the letter notation they are written in.
//!
//! Each attribute has a letter, upper or lower case: `V`alid, `R`ead, `W`rite, e`X`ecute,
//! `U`ser, `G`lobal, `A`ccessed and `D`irty, from the lowest bit of an entry upwards. Every
//! other character of a text is filler, so `"U_WRV"` reads as user + write + read + valid.

use vstd::prelude::*;
use vstd::string::StringSliceAdditionalSpecFns;

verus! {

/// The entry is valid.
pub const VALID: usize = 1;

/// The page may be read.
pub const READ: usize = 2;

/// The page may be written.
pub const WRITE: usize = 4;

/// The page may be executed.
pub const EXECUTE: usize = 8;

/// The page is open to user mode.
pub const USER: usize = 16;

/// The page is mapped in every address space.
pub const GLOBAL: usize = 32;

/// The page has been accessed.
pub const ACCESSED: usize = 64;

/// The page has been written.
pub const DIRTY: usize = 128;

/// Software bit: the page was handed out by the kernel's own allocator.
pub const OWNED: usize = 256;

/// The letter `V`.
pub const LETTER_V: u8 = 0x56;

/// The letter `R`.
pub const LETTER_R: u8 = 0x52;

/// The letter `W`.
pub const LETTER_W: u8 = 0x57;

/// The letter `X`.
pub const LETTER_X: u8 = 0x58;

/// The letter `U`.
pub const LETTER_U: u8 = 0x55;

/// The letter `G`.
pub const LETTER_G: u8 = 0x47;

/// The letter `A`.
pub const LETTER_A: u8 = 0x41;

/// The letter `D`.
pub const LETTER_D: u8 = 0x44;

/// The distance from an upper case letter to its lower case form.
pub const CASE_GAP: u8 = 0x20;

/// The attributes of a page table entry.
#[derive(Clone, Copy, PartialEq, Eq, Structural, Debug)]
pub struct VmFlags {
    /// The attribute bits, at their place in a page table entry.
    pub bits: usize,
}

/// Whether `text` holds an upper case letter or its lower case form.
pub open spec fn mentions(text: Seq<u8>, letter: u8) -> bool {
    exists|i: int| 0 <= i < text.len() && (#[trigger] text[i] == letter || text[i] == letter + CASE_GAP)
}

/// `weight` where `present`, else nothing.
pub open spec fn contribution(present: bool, weight: usize) -> int {
    if present {
        weight as int
    } else {
        0
    }
}

/// The attribute bits that `text` denotes.
pub open spec fn flag_bits(text: Seq<u8>) -> int {
    contribution(mentions(text, LETTER_V), VALID)
        + contribution(mentions(text, LETTER_R), READ)
        + contribution(mentions(text, LETTER_W), WRITE)
        + contribution(mentions(text, LETTER_X), EXECUTE)
        + contribution(mentions(text, LETTER_U), USER)
        + contribution(mentions(text, LETTER_G), GLOBAL)
        + contribution(mentions(text, LETTER_A), ACCESSED)
        + contribution(mentions(text, LETTER_D), DIRTY)
}

/// Whether the bit of value `weight` is set in `bits`.
pub open spec fn has_flag(bits: int, weight: int) -> bool {
    (bits / weight) % 2 == 1
}

/// Whether every attribute of `need` is among those of `have`.
pub open spec fn covers(have: int, need: int) -> bool {
    &&& has_flag(need, VALID as int) ==> has_flag(have, VALID as int)
    &&& has_flag(need, READ as int) ==> has_flag(have, READ as int)
    &&& has_flag(need, WRITE as int) ==> has_flag(have, WRITE as int)
    &&& has_flag(need, EXECUTE as int) ==> has_flag(have, EXECUTE as int)
    &&& has_flag(need, USER as int) ==> has_flag(have, USER as int)
    &&& has_flag(need, GLOBAL as int) ==> has_flag(have, GLOBAL as int)
    &&& has_flag(need, ACCESSED as int) ==> has_flag(have, ACCESSED as int)
    &&& has_flag(need, DIRTY as int) ==> has_flag(have, DIRTY as int)
    &&& has_flag(need, OWNED as int) ==> has_flag(have, OWNED as int)
}

/// Whether `text` holds an upper case letter or its lower case form.
fn mentions_letter(text: &[u8], letter: u8) -> (found: bool)
    requires
        letter <= 0x5a,
    ensures
        found == mentions(text@, letter),
{
    let mut i: usize = 0;
    while i < text.len()
        invariant
            i <= text.len(),
            letter <= 0x5a,
            forall|j: int| 0 <= j < i ==> #[trigger] text@[j] != letter && text@[j] != letter + CASE_GAP,
        decreases text.len() - i,
    {
        if text[i] == letter || text[i] == letter + CASE_GAP {
            assert(text@[i as int] == letter || text@[i as int] == letter + CASE_GAP);
            return true;
        }
        i += 1;
    }
    false
}

/// The attributes that a text of letters denotes.
pub fn flags_from_bytes(text: &[u8]) -> (flags: VmFlags)
    ensures
        flags.bits == flag_bits(text@),
{
    let mut bits: usize = 0;
    if mentions_letter(text, LETTER_V) {
        bits += VALID;
    }
    if mentions_letter(text, LETTER_R) {
        bits += READ;
    }
    if mentions_letter(text, LETTER_W) {
        bits += WRITE;
    }
    if mentions_letter(text, LETTER_X) {
        bits += EXECUTE;
    }
    if mentions_letter(text, LETTER_U) {
        bits += USER;
    }
    if mentions_letter(text, LETTER_G) {
        bits += GLOBAL;
    }
    if mentions_letter(text, LETTER_A) {
        bits += ACCESSED;
    }
    if mentions_letter(text, LETTER_D) {
        bits += DIRTY;
    }
    VmFlags { bits }
}

/// The attributes that a text denotes, for texts that are fixed in the kernel.
pub fn build_flags(s: &str) -> (flags: VmFlags)
    ensures
        flags.bits == flag_bits(s.spec_bytes()),
{
    flags_from_bytes(s.as_bytes())
}

/// The attributes that a text denotes, for texts that are composed at run time.
///
/// Every text denotes some attributes, so there is no failure.
pub fn parse_flags(s: &str) -> (result: Result<VmFlags, ()>)
    ensures
        result is Ok,
        result->Ok_0.bits == flag_bits(s.spec_bytes()),
{
    Ok(flags_from_bytes(s.as_bytes()))
}

/// A text put together from two mentions what either of them mentions.
proof fn lemma_mentions_joined(a: Seq<u8>, b: Seq<u8>, letter: u8)
    ensures
        mentions(a + b, letter) == (mentions(a, letter) || mentions(b, letter)),
{
    let text = a + b;
    if mentions(a, letter) {
        let i = choose|i: int|
            0 <= i < a.len() && (#[trigger] a[i] == letter || a[i] == letter + CASE_GAP);
        assert(text[i] == a[i]);
    }
    if mentions(b, letter) {
        let i = choose|i: int|
            0 <= i < b.len() && (#[trigger] b[i] == letter || b[i] == letter + CASE_GAP);
        assert(text[a.len() + i] == b[i]);
    }
    if mentions(text, letter) {
        let i = choose|i: int|
            0 <= i < text.len() && (#[trigger] text[i] == letter || text[i] == letter + CASE_GAP);
        if i < a.len() {
            assert(text[i] == a[i]);
        } else {
            assert(text[i] == b[i - a.len()]);
        }
    }
}

/// The binary digit of value `weight`, between the lower and the higher ones.
proof fn lemma_digit(low: int, digit: int, high: int, weight: int)
    requires
        0 <= low < weight,
        0 <= digit <= 1,
    ensures
        has_flag(low + weight * digit + weight * (2 * high), weight) == (digit == 1),
{
    let number = low + weight * digit + weight * (2 * high);
    assert(number == (digit + 2 * high) * weight + low) by (nonlinear_arith)
        requires
            number == low + weight * digit + weight * (2 * high),
    ;
    vstd::arithmetic::div_mod::lemma_fundamental_div_mod_converse(
        number,
        weight,
        digit + 2 * high,
        low,
    );
}

/// Each attribute of a text is there exactly where its letter is.
pub proof fn law_letters_denote_attributes(text: Seq<u8>)
    ensures
        has_flag(flag_bits(text), VALID as int) == mentions(text, LETTER_V),
        has_flag(flag_bits(text), READ as int) == mentions(text, LETTER_R),
        has_flag(flag_bits(text), WRITE as int) == mentions(text, LETTER_W),
        has_flag(flag_bits(text), EXECUTE as int) == mentions(text, LETTER_X),
        has_flag(flag_bits(text), USER as int) == mentions(text, LETTER_U),
        has_flag(flag_bits(text), GLOBAL as int) == mentions(text, LETTER_G),
        has_flag(flag_bits(text), ACCESSED as int) == mentions(text, LETTER_A),
        has_flag(flag_bits(text), DIRTY as int) == mentions(text, LETTER_D),
{
    let v: int = if mentions(text, LETTER_V) { 1 } else { 0 };
    let r: int = if mentions(text, LETTER_R) { 1 } else { 0 };
    let w: int = if mentions(text, LETTER_W) { 1 } else { 0 };
    let x: int = if mentions(text, LETTER_X) { 1 } else { 0 };
    let u: int = if mentions(text, LETTER_U) { 1 } else { 0 };
    let g: int = if mentions(text, LETTER_G) { 1 } else { 0 };
    let a: int = if mentions(text, LETTER_A) { 1 } else { 0 };
    let d: int = if mentions(text, LETTER_D) { 1 } else { 0 };
    let after_a = d;
    let after_g = a + 2 * after_a;
    let after_u = g + 2 * after_g;
    let after_x = u + 2 * after_u;
    let after_w = x + 2 * after_x;
    let after_r = w + 2 * after_w;
    let after_v = r + 2 * after_r;
    assert(flag_bits(text) == v + 2 * after_v);
    lemma_digit(0, v, after_v, 1);
    lemma_digit(v, r, after_r, 2);
    lemma_digit(v + 2 * r, w, after_w, 4);
    lemma_digit(v + 2 * r + 4 * w, x, after_x, 8);
    lemma_digit(v + 2 * r + 4 * w + 8 * x, u, after_u, 16);
    lemma_digit(v + 2 * r + 4 * w + 8 * x + 16 * u, g, after_g, 32);
    lemma_digit(v + 2 * r + 4 * w + 8 * x + 16 * u + 32 * g, a, after_a, 64);
    lemma_digit(v + 2 * r + 4 * w + 8 * x + 16 * u + 32 * g + 64 * a, d, 0, 128);
}

/// The letters of a text put together from two are those of either; so neither their order nor
/// their repetition matters.
pub proof fn law_texts_join(a: Seq<u8>, b: Seq<u8>, letter: u8)
    ensures
        mentions(a + b, letter) == (mentions(a, letter) || mentions(b, letter)),
        flag_bits(a + b) == flag_bits(b + a),
        flag_bits(a + a) == flag_bits(a),
{
    lemma_mentions_joined(a, b, letter);
    assert forall|l: u8| #[trigger] mentions(a + b, l) == mentions(b + a, l) by {
        lemma_mentions_joined(a, b, l);
        lemma_mentions_joined(b, a, l);
    }
    assert forall|l: u8| #[trigger] mentions(a + a, l) == mentions(a, l) by {
        lemma_mentions_joined(a, a, l);
    }
}

/// An attribute is there exactly where the text has its letter, upper or lower case, somewhere; all
/// three ways to read a text agree, and no other bit is ever set.
pub proof fn law_an_attribute_is_set_by_its_letter(
    s: &str,
    text: &[u8],
    read: VmFlags,
    built: VmFlags,
    parsed: Result<VmFlags, ()>,
    letter: u8,
    weight: usize,
)
    requires
        text@ == s.spec_bytes(),
        call_ensures(flags_from_bytes, (text,), read),
        call_ensures(build_flags, (s,), built),
        call_ensures(parse_flags, (s,), parsed),
        (letter, weight) == (0x56u8, 1usize) || (letter, weight) == (0x52u8, 2usize) || (
            letter,
            weight,
        ) == (0x57u8, 4usize) || (letter, weight) == (0x58u8, 8usize) || (letter, weight) == (
            0x55u8,
            16usize,
        ) || (letter, weight) == (0x47u8, 32usize) || (letter, weight) == (0x41u8, 64usize) || (
            letter,
            weight,
        ) == (0x44u8, 128usize),
    ensures
        (read.bits / weight) % 2 == 1 <==> exists|i: int|
            0 <= i < text@.len() && (#[trigger] text@[i] == letter || text@[i] == letter + 0x20),
        read.bits < 256,
        built == read,
        parsed == Ok::<VmFlags, ()>(read),
{
    law_letters_denote_attributes(text@);
    if weight == 1 {
        assert(has_flag(flag_bits(text@), 1) == mentions(text@, letter));
    } else if weight == 2 {
        assert(has_flag(flag_bits(text@), 2) == mentions(text@, letter));
    } else if weight == 4 {
        assert(has_flag(flag_bits(text@), 4) == mentions(text@, letter));
    } else if weight == 8 {
        assert(has_flag(flag_bits(text@), 8) == mentions(text@, letter));
    } else if weight == 16 {
        assert(has_flag(flag_bits(text@), 16) == mentions(text@, letter));
    } else if weight == 32 {
        assert(has_flag(flag_bits(text@), 32) == mentions(text@, letter));
    } else if weight == 64 {
        assert(has_flag(flag_bits(text@), 64) == mentions(text@, letter));
    } else {
        assert(has_flag(flag_bits(text@), 128) == mentions(text@, letter));
    }
}

/// Attributes cover those that are needed exactly where no needed bit is missing.
pub proof fn law_attributes_cover_bit_by_bit(have: u16, need: u16)
    requires
        have < 512,
        need < 512,
    ensures
        covers(have as int, need as int) == (have & need == need),
{
    assert((have & need == need) == {
        &&& (need / 1) % 2 == 1 ==> (have / 1) % 2 == 1
        &&& (need / 2) % 2 == 1 ==> (have / 2) % 2 == 1
        &&& (need / 4) % 2 == 1 ==> (have / 4) % 2 == 1
        &&& (need / 8) % 2 == 1 ==> (have / 8) % 2 == 1
        &&& (need / 16) % 2 == 1 ==> (have / 16) % 2 == 1
        &&& (need / 32) % 2 == 1 ==> (have / 32) % 2 == 1
        &&& (need / 64) % 2 == 1 ==> (have / 64) % 2 == 1
        &&& (need / 128) % 2 == 1 ==> (have / 128) % 2 == 1
        &&& (need / 256) % 2 == 1 ==> (have / 256) % 2 == 1
    }) by (bit_vector)
        requires
            have < 512,
            need < 512,
    ;
}

} // verus!
