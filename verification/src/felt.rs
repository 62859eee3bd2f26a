//! Field elements as the ledger hands them over: 32 bytes, most significant
//! byte first.

use starknet_core::utils::{cairo_short_string_to_felt, CairoShortStringToFeltError};
use vstd::arithmetic::div_mod::{lemma_div_denominator, lemma_fundamental_div_mod};
use vstd::prelude::*;
use vstd::string::{is_ascii, StringSliceAdditionalSpecFns};

verus! {

/// The number that a byte string stands for, most significant byte first.
pub open spec fn be_value(bytes: Seq<u8>) -> nat
    decreases bytes.len(),
{
    if bytes.len() == 0 {
        0
    } else {
        be_value(bytes.drop_last()) * 256 + bytes.last() as nat
    }
}

/// `256^n`.
pub open spec fn pow256(n: nat) -> nat
    decreases n,
{
    if n == 0 {
        1
    } else {
        256 * pow256((n - 1) as nat)
    }
}

/// `256^16` is `2^128`, one more than the largest `u128`.
pub proof fn lemma_pow256_16()
    ensures
        pow256(16) == 0x1_0000_0000_0000_0000_0000_0000_0000_0000,
        pow256(15) == 0x100_0000_0000_0000_0000_0000_0000_0000,
{
    reveal_with_fuel(pow256, 17);
}

/// `256^n` grows with `n`.
pub proof fn lemma_pow256_monotonic(a: nat, b: nat)
    requires
        a <= b,
    ensures
        0 < pow256(a) <= pow256(b),
    decreases b,
{
    if b == 0 {
    } else if a == b {
        lemma_pow256_monotonic((a - 1) as nat, (b - 1) as nat);
    } else {
        lemma_pow256_monotonic(a, (b - 1) as nat);
    }
}

/// Appending one byte shifts the number by one byte and adds the new one.
pub proof fn lemma_be_value_push(bytes: Seq<u8>, last: u8)
    ensures
        be_value(bytes.push(last)) == be_value(bytes) * 256 + last as nat,
{
    assert(bytes.push(last).drop_last() =~= bytes);
}

/// A byte string of all zeros stands for zero, and only such a string does.
pub proof fn lemma_be_value_zero(bytes: Seq<u8>)
    ensures
        be_value(bytes) == 0 <==> (forall|i: int| 0 <= i < bytes.len() ==> bytes[i] == 0),
    decreases bytes.len(),
{
    if bytes.len() > 0 {
        let front = bytes.drop_last();
        lemma_be_value_zero(front);
        if be_value(bytes) == 0 {
            assert(be_value(front) == 0 && bytes.last() == 0) by (nonlinear_arith)
                requires
                    be_value(front) * 256 + bytes.last() as nat == 0,
            ;
            assert forall|i: int| 0 <= i < bytes.len() implies bytes[i] == 0 by {
                if i < front.len() {
                    assert(front[i] == bytes[i]);
                }
            }
        }
        if forall|i: int| 0 <= i < bytes.len() ==> bytes[i] == 0 {
            assert forall|i: int| 0 <= i < front.len() implies front[i] == 0 by {
                assert(front[i] == bytes[i]);
            }
            assert(bytes.last() == bytes[bytes.len() - 1]);
        }
    }
}

/// A string of `n` bytes stands for a number below `256^n`.
pub proof fn lemma_be_value_bound(bytes: Seq<u8>)
    ensures
        be_value(bytes) < pow256(bytes.len()),
    decreases bytes.len(),
{
    if bytes.len() > 0 {
        let front = bytes.drop_last();
        lemma_be_value_bound(front);
        assert(be_value(front) * 256 + (bytes.last() as nat) < 256 * pow256(front.len()))
            by (nonlinear_arith)
            requires
                be_value(front) < pow256(front.len()),
                bytes.last() < 256,
        ;
    }
}

/// Splitting a byte string at `at`: the front part counts `256^(len - at)`
/// times, the back part once.
pub proof fn lemma_be_value_split(bytes: Seq<u8>, at: int)
    requires
        0 <= at <= bytes.len(),
    ensures
        be_value(bytes) == be_value(bytes.subrange(0, at)) * pow256((bytes.len() - at) as nat)
            + be_value(bytes.subrange(at, bytes.len() as int)),
    decreases bytes.len() - at,
{
    let len = bytes.len() as int;
    if at == len {
        assert(bytes.subrange(0, at) =~= bytes);
        assert(bytes.subrange(at, len).len() == 0);
        assert(be_value(bytes.subrange(at, len)) == 0);
        assert(pow256(0) == 1);
        assert(be_value(bytes) * 1 == be_value(bytes));
    } else {
        let front = bytes.drop_last();
        lemma_be_value_split(front, at);
        assert(front.subrange(0, at) =~= bytes.subrange(0, at));
        assert(front.subrange(at, len - 1) =~= bytes.subrange(at, len).drop_last());
        let tail = bytes.subrange(at, len);
        let head = be_value(bytes.subrange(0, at));
        let p = pow256((len - 1 - at) as nat);
        assert(pow256((len - at) as nat) == 256 * p);
        let tail_front = be_value(front.subrange(at, len - 1));
        assert(be_value(front) == head * p + tail_front);
        assert(be_value(tail) == be_value(tail.drop_last()) * 256 + tail.last() as nat);
        assert(be_value(tail) == tail_front * 256 + bytes.last() as nat);
        assert((head * p + tail_front) * 256 == head * (256 * p) + tail_front * 256)
            by (nonlinear_arith);
        assert(be_value(bytes) == be_value(front) * 256 + bytes.last() as nat);
    }
}

/// Why a text cannot be packed into a field element as a short string.
#[derive(Clone, Copy, Debug, PartialEq, Eq, Structural)]
pub enum ShortStringError {
    /// The text holds a character outside ASCII.
    NonAsciiCharacter,
    /// The text has more than 31 bytes.
    StringTooLong,
}

/// The longest text that fits a field element as a short string, in bytes.
pub const SHORT_STRING_MAX: usize = 31;

/// `text` at the end of 32 bytes, with zeros in front of it.
pub open spec fn left_padded(text: Seq<u8>) -> Seq<u8>
    recommends
        text.len() <= 32,
{
    Seq::new((32 - text.len()) as nat, |i: int| 0u8) + text
}

/// What packing `name` as a short string gives: the bytes of the element,
/// or the reason why there is none. A character outside ASCII is reported
/// before the length.
pub open spec fn spec_short_string(name: &str) -> Result<Seq<u8>, ShortStringError> {
    if !is_ascii(name) {
        Err(ShortStringError::NonAsciiCharacter)
    } else if name.spec_bytes().len() > SHORT_STRING_MAX {
        Err(ShortStringError::StringTooLong)
    } else {
        Ok(left_padded(name.spec_bytes()))
    }
}

/// Zeros in front of a text do not change the number it stands for.
pub proof fn lemma_left_padded_value(text: Seq<u8>)
    requires
        text.len() <= 32,
    ensures
        left_padded(text).len() == 32,
        be_value(left_padded(text)) == be_value(text),
{
    let padded = left_padded(text);
    let at = 32 - text.len();
    lemma_be_value_split(padded, at);
    assert(padded.subrange(at, 32) =~= text);
    let front = padded.subrange(0, at);
    assert forall|i: int| 0 <= i < front.len() implies front[i] == 0 by {
        assert(front[i] == padded[i]);
    }
    lemma_be_value_zero(front);
    assert(be_value(front) * pow256(text.len()) == 0) by (nonlinear_arith)
        requires
            be_value(front) == 0,
    ;
}

/// Two byte strings of one length that stand for the same number are the
/// same string.
pub proof fn lemma_be_value_injective(a: Seq<u8>, b: Seq<u8>)
    requires
        a.len() == b.len(),
        be_value(a) == be_value(b),
    ensures
        a == b,
    decreases a.len(),
{
    if a.len() > 0 {
        let (fa, fb) = (a.drop_last(), b.drop_last());
        assert(be_value(fa) == be_value(fb) && a.last() == b.last()) by (nonlinear_arith)
            requires
                be_value(fa) * 256 + a.last() as nat == be_value(fb) * 256 + b.last() as nat,
                a.last() < 256,
                b.last() < 256,
        ;
        lemma_be_value_injective(fa, fb);
        assert(a =~= fa.push(a.last()));
        assert(b =~= fb.push(b.last()));
    } else {
        assert(a =~= b);
    }
}

/// A ledger field element, kept as its 32 big-endian bytes.
#[derive(Clone, Copy, Debug, PartialEq, Eq)]
pub struct Felt {
    bytes: [u8; 32],
}

impl View for Felt {
    type V = Seq<u8>;

    closed spec fn view(&self) -> Seq<u8> {
        self.bytes@
    }
}

impl Felt {
    /// The number that this element stands for.
    pub open spec fn value(self) -> nat {
        be_value(self@)
    }

    /// The element that stands for `number`. There is one for every number
    /// below `256^32`, and by [`Felt::lemma_of_value`] only one.
    pub open spec fn of(number: nat) -> Felt {
        choose|felt: Felt| felt.value() == number
    }

    /// An element is the one that stands for its number.
    pub proof fn lemma_of_value(self)
        ensures
            Felt::of(self.value()) == self,
    {
        let other = Felt::of(self.value());
        assert(other.value() == self.value());
        lemma_be_value_injective(other@, self@);
        other.lemma_same_bytes(self);
    }

    /// Two elements with the same bytes are the same element.
    pub proof fn lemma_same_bytes(self, other: Felt)
        requires
            self@ == other@,
        ensures
            self == other,
    {
        assert(self.bytes@ =~= other.bytes@);
        assert(self.bytes == other.bytes);
    }

    /// Wraps 32 big-endian bytes.
    pub fn from_bytes_be(bytes: [u8; 32]) -> (felt: Felt)
        ensures
            felt@ == bytes@,
    {
        Felt { bytes }
    }

    /// The 32 big-endian bytes of this element.
    pub fn to_bytes_be(&self) -> (bytes: [u8; 32])
        ensures
            bytes@ == self@,
    {
        self.bytes
    }

    /// The element that stands for zero.
    pub fn zero() -> (felt: Felt)
        ensures
            felt == Felt::of(0),
            felt.value() == 0,
            forall|i: int| 0 <= i < 32 ==> felt@[i] == 0,
    {
        let felt = Felt { bytes: [0u8; 32] };
        proof {
            lemma_be_value_zero(felt@);
            felt.lemma_of_value();
        }
        felt
    }

    /// The element that stands for `v`.
    pub fn from_u128(v: u128) -> (felt: Felt)
        ensures
            felt == Felt::of(v as nat),
            felt.value() == v,
    {
        let mut bytes = [0u8; 32];
        let mut div: u128 = 0x100_0000_0000_0000_0000_0000_0000_0000;
        let mut i: usize = 0;
        proof {
            lemma_pow256_16();
            let front = bytes@.subrange(0, 16);
            assert forall|k: int| 0 <= k < front.len() implies front[k] == 0 by {
                assert(front[k] == bytes@[k]);
            }
            lemma_be_value_zero(front);
            assert(v as nat / pow256(16) == 0);
        }
        while i < 16
            invariant
                0 <= i <= 16,
                bytes@.len() == 32,
                i < 16 ==> div == pow256((15 - i) as nat),
                be_value(bytes@.subrange(0, 16 + i)) == v as nat / pow256((16 - i) as nat),
            decreases 16 - i,
        {
            proof {
                lemma_pow256_monotonic(0, (15 - i) as nat);
            }
            let digit: u8 = ((v / div) % 256) as u8;
            proof {
                let below = pow256((15 - i) as nat);
                let quotient = v as nat / below;
                assert(pow256((16 - i) as nat) == 256 * below);
                lemma_div_denominator(v as int, below as int, 256);
                assert(v as nat / (below * 256) == quotient / 256);
                lemma_fundamental_div_mod(quotient as int, 256);
                let front = bytes@.subrange(0, 16 + i);
                lemma_be_value_push(front, digit);
                assert(bytes@.update(16 + i, digit).subrange(0, 16 + i + 1) =~= front.push(digit));
                if i < 15 {
                    assert(below == 256 * pow256((14 - i) as nat));
                    assert(below / 256 == pow256((14 - i) as nat));
                }
            }
            bytes[16 + i] = digit;
            div = div / 256;
            i += 1;
        }
        proof {
            assert(bytes@.subrange(0, 16 + i) =~= bytes@);
            assert(i == 16);
            assert(pow256(0) == 1);
            assert(be_value(bytes@.subrange(0, 32)) == v as nat / pow256(0));
            assert(v as nat / 1 == v as nat);
        }
        let felt = Felt { bytes };
        proof {
            felt.lemma_of_value();
        }
        felt
    }

    /// The element that stands for `v`.
    pub fn from_u64(v: u64) -> (felt: Felt)
        ensures
            felt == Felt::of(v as nat),
            felt.value() == v,
    {
        Felt::from_u128(v as u128)
    }

    /// The number as a `u128`, where it fits in one.
    pub fn as_u128(&self) -> (out: Option<u128>)
        ensures
            out is Some <==> self.value() < pow256(16),
            out matches Some(number) ==> number == self.value(),
    {
        let ghost head = self.bytes@.subrange(0, 16);
        let ghost tail = self.bytes@.subrange(16, 32);
        proof {
            assert(self.bytes@.len() == 32);
            lemma_pow256_16();
            lemma_be_value_split(self.bytes@, 16);
            lemma_be_value_zero(head);
            lemma_be_value_bound(tail);
            assert(self.value() == be_value(head) * pow256(16) + be_value(tail));
        }
        let mut i: usize = 0;
        while i < 16
            invariant
                0 <= i <= 16,
                self.bytes@.len() == 32,
                head == self.bytes@.subrange(0, 16),
                be_value(head) == 0 <==> (forall|k: int| 0 <= k < head.len() ==> head[k] == 0),
                self.value() == be_value(head) * pow256(16) + be_value(tail),
                forall|k: int| 0 <= k < i ==> self.bytes@[k] == 0,
            decreases 16 - i,
        {
            if self.bytes[i] != 0 {
                proof {
                    assert(head[i as int] == self.bytes@[i as int]);
                    assert(be_value(head) >= 1);
                    assert(be_value(head) * pow256(16) >= pow256(16)) by (nonlinear_arith)
                        requires
                            be_value(head) >= 1,
                    ;
                }
                return None;
            }
            i += 1;
        }
        proof {
            assert forall|k: int| 0 <= k < head.len() implies head[k] == 0 by {
                assert(head[k] == self.bytes@[k]);
            }
            assert(be_value(head) == 0);
            assert(self.value() == be_value(tail));
        }
        let mut acc: u128 = 0;
        let mut j: usize = 0;
        while j < 16
            invariant
                0 <= j <= 16,
                self.bytes@.len() == 32,
                tail == self.bytes@.subrange(16, 32),
                acc == be_value(tail.subrange(0, j as int)),
                pow256(16) == 0x1_0000_0000_0000_0000_0000_0000_0000_0000,
            decreases 16 - j,
        {
            let digit: u8 = self.bytes[16 + j];
            proof {
                let front = tail.subrange(0, j as int);
                lemma_be_value_push(front, digit);
                assert(tail.subrange(0, j + 1) =~= front.push(digit));
                lemma_be_value_bound(tail.subrange(0, j + 1));
                lemma_pow256_monotonic((j + 1) as nat, 16);
            }
            acc = acc * 256 + digit as u128;
            j += 1;
        }
        proof {
            assert(tail.subrange(0, 16) =~= tail);
        }
        Some(acc)
    }

    /// Packs `name` as a short string: its ASCII bytes at the low end of the
    /// element. Fails on a character outside ASCII, then on more than 31
    /// bytes.
    pub fn from_short_string(name: &str) -> (out: Result<Felt, ShortStringError>)
        ensures
            match out {
                Ok(felt) => spec_short_string(name) == Ok::<Seq<u8>, ShortStringError>(felt@)
                    && felt.value() == be_value(name.spec_bytes()),
                Err(e) => spec_short_string(name) == Err::<Seq<u8>, ShortStringError>(e),
            },
    {
        let out = encode_short_string(name);
        proof {
            if out is Ok {
                lemma_left_padded_value(name.spec_bytes());
            }
        }
        out
    }

    /// Whether two elements are the same.
    pub fn same(&self, other: &Felt) -> (equal: bool)
        ensures
            equal == (*self == *other),
            equal == (self@ == other@),
    {
        let mut i: usize = 0;
        while i < 32
            invariant
                0 <= i <= 32,
                forall|k: int| 0 <= k < i ==> self.bytes@[k] == other.bytes@[k],
            decreases 32 - i,
        {
            if self.bytes[i] != other.bytes[i] {
                return false;
            }
            i += 1;
        }
        proof {
            assert(self.bytes@ =~= other.bytes@);
            self.lemma_same_bytes(*other);
        }
        true
    }
}

/// Calls `starknet_core::utils::cairo_short_string_to_felt` and takes the
/// bytes of what it gives with `FieldElement::to_bytes_be`. Claimed of them:
/// a text that is not ASCII is refused; an ASCII text of more than 31 bytes
/// is refused as too long; otherwise the element holds the text's bytes at
/// its low end and zeros above them.
#[verifier::external_body]
fn encode_short_string(name: &str) -> (out: Result<Felt, ShortStringError>)
    ensures
        match out {
            Ok(felt) => spec_short_string(name) == Ok::<Seq<u8>, ShortStringError>(felt@),
            Err(e) => spec_short_string(name) == Err::<Seq<u8>, ShortStringError>(e),
        },
{
    match cairo_short_string_to_felt(name) {
        Ok(element) => Ok(Felt { bytes: element.to_bytes_be() }),
        Err(CairoShortStringToFeltError::NonAsciiCharacter) => Err(
            ShortStringError::NonAsciiCharacter,
        ),
        Err(CairoShortStringToFeltError::StringTooLong) => Err(ShortStringError::StringTooLong),
    }
}

} // verus!
