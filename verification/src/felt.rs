//! Field elements of the STARK curve's base field, held as 256-bit words.

use vstd::prelude::*;

verus! {

/// High half of the field's prime, `2^251 + 17 * 2^192 + 1`.
pub const FIELD_PRIME_HIGH: u128 = 0x0800_0000_0000_0011_0000_0000_0000_0000;

/// Low half of the field's prime.
pub const FIELD_PRIME_LOW: u128 = 1;

/// The prime of the field, `2^251 + 17 * 2^192 + 1`.
pub open spec fn field_prime() -> nat {
    0x0800_0000_0000_0011_0000_0000_0000_0000_0000_0000_0000_0000_0000_0000_0000_0001nat
}

/// Two to the power 128: the weight of a word's high half.
pub open spec fn half_weight() -> nat {
    0x1_0000_0000_0000_0000_0000_0000_0000_0000nat
}

/// A 256-bit word in two big-endian halves.
///
/// The wire carries any such word; the runtime accepts only those below the
/// field's prime, the canonical ones.
#[derive(Clone, Copy, Debug, PartialEq, Eq, Structural, Hash)]
pub struct Felt {
    /// Bits 255 down to 128.
    pub hi: u128,
    /// Bits 127 down to 0.
    pub lo: u128,
}

impl Felt {
    /// The integer that the word stands for.
    pub open spec fn value(self) -> nat {
        self.hi as nat * half_weight() + self.lo as nat
    }

    /// Whether the word is an element of the field.
    pub open spec fn is_canonical(self) -> bool {
        self.value() < field_prime()
    }

    /// The word that stands for `value`.
    pub fn from_u128(value: u128) -> (felt: Felt)
        ensures
            felt == (Felt { hi: 0, lo: value }),
            felt.value() == value,
            felt.is_canonical(),
    {
        Felt { hi: 0, lo: value }
    }

    /// The word zero.
    pub fn zero() -> (felt: Felt)
        ensures
            felt == (Felt { hi: 0, lo: 0 }),
            felt.value() == 0,
            felt.is_canonical(),
    {
        Felt { hi: 0, lo: 0 }
    }

    /// Tells whether the word is an element of the field.
    pub fn in_field(&self) -> (canonical: bool)
        ensures
            canonical == self.is_canonical(),
    {
        self.hi < FIELD_PRIME_HIGH || (self.hi == FIELD_PRIME_HIGH && self.lo < FIELD_PRIME_LOW)
    }

    /// The word as a 128-bit integer, where it is small enough to be one.
    pub fn to_u128(&self) -> (small: Option<u128>)
        ensures
            small == (if self.value() < half_weight() {
                Some(self.lo)
            } else {
                None
            }),
            small matches Some(v) ==> v == self.value(),
    {
        if self.hi == 0 {
            Some(self.lo)
        } else {
            None
        }
    }
}

/// Whether every word of `words` is an element of the field.
pub open spec fn all_canonical(words: Seq<Felt>) -> bool {
    forall|i: int| 0 <= i < words.len() ==> (#[trigger] words[i]).is_canonical()
}

/// Tells whether every word of `words` is an element of the field.
pub fn all_in_field(words: &Vec<Felt>) -> (canonical: bool)
    ensures
        canonical == all_canonical(words@),
{
    let mut i: usize = 0;
    while i < words.len()
        invariant
            i <= words.len(),
            all_canonical(words@.subrange(0, i as int)),
        decreases words.len() - i,
    {
        let word: Felt = words[i];
        if !word.in_field() {
            return false;
        }
        i = i + 1;
    }
    assert(words@.subrange(0, i as int) == words@);
    true
}

/// Appends the words of `tail` to `head`.
pub fn joined(head: Vec<Felt>, tail: &Vec<Felt>) -> (whole: Vec<Felt>)
    ensures
        whole@ == head@ + tail@,
{
    let ghost front = head@;
    let mut whole = head;
    let mut i: usize = 0;
    while i < tail.len()
        invariant
            i <= tail.len(),
            whole@ == front + tail@.subrange(0, i as int),
        decreases tail.len() - i,
    {
        let word: Felt = tail[i];
        whole.push(word);
        i = i + 1;
    }
    whole
}

/// Copies `words` if every one of them is an element of the field.
pub fn canonical_copy(words: &Vec<Felt>) -> (copy: Option<Vec<Felt>>)
    ensures
        copy is Some <==> all_canonical(words@),
        copy matches Some(v) ==> v@ == words@,
{
    let mut out: Vec<Felt> = Vec::new();
    let mut i: usize = 0;
    while i < words.len()
        invariant
            i <= words.len(),
            out@ == words@.subrange(0, i as int),
            all_canonical(out@),
        decreases words.len() - i,
    {
        let word: Felt = words[i];
        if !word.in_field() {
            return None;
        }
        out.push(word);
        i = i + 1;
    }
    assert(out@ == words@);
    Some(out)
}

} // verus!
