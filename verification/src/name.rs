//! The names under which a shared-memory object is created before it is
//! unlinked again.
//!
//! A candidate name is `/shm_open_anonymous-`, four suffix bytes and a
//! terminating NUL. The first name tried has the suffix `XXXX`; every later
//! one has four decimal digits taken from a clock reading.
//!
//! The digits are the low end of a nanosecond count and nothing stronger:
//! they make it unlikely that two callers keep drawing the same name, and
//! are no secret. The exclusive creation of the name is what keeps callers
//! apart.

use vstd::prelude::*;

verus! {

/// Length of a candidate name in bytes, the terminating NUL included.
pub const NAME_LEN: usize = 25;

/// Index of the first suffix byte within a candidate name.
pub const SUFFIX_OFFSET: usize = 20;

/// Number of suffix bytes.
pub const SUFFIX_LEN: usize = 4;

/// The bytes of `/shm_open_anonymous-`, with which every candidate name begins.
pub open spec fn prefix() -> Seq<u8> {
    seq![
        '/' as u8, 's' as u8, 'h' as u8, 'm' as u8, '_' as u8, 'o' as u8, 'p' as u8, 'e' as u8,
        'n' as u8, '_' as u8, 'a' as u8, 'n' as u8, 'o' as u8, 'n' as u8, 'y' as u8, 'm' as u8,
        'o' as u8, 'u' as u8, 's' as u8, '-' as u8,
    ]
}

/// The suffix `XXXX` of the first name that is tried.
pub open spec fn placeholder_suffix() -> Seq<u8> {
    seq!['X' as u8, 'X' as u8, 'X' as u8, 'X' as u8]
}

/// Whether `byte` is an ASCII decimal digit.
pub open spec fn is_digit(byte: u8) -> bool {
    '0' as u8 <= byte <= '9' as u8
}

/// The ASCII digit for `d`, which is meant to lie in `0..=9`.
pub open spec fn digit(d: int) -> u8 {
    ('0' as u8 + d) as u8
}

/// The four decimal digits of `value`, most significant first and padded
/// with zeros on the left. Meant for `0 <= value < 10000`.
pub open spec fn decimal4(value: int) -> Seq<u8> {
    seq![
        digit(value / 1000 % 10),
        digit(value / 100 % 10),
        digit(value / 10 % 10),
        digit(value % 10),
    ]
}

/// The number that four ASCII digits denote.
pub open spec fn decimal_value(digits: Seq<u8>) -> int {
    (digits[0] - '0' as u8) * 1000 + (digits[1] - '0' as u8) * 100 + (digits[2] - '0' as u8) * 10
        + (digits[3] - '0' as u8)
}

/// Whether `suffix` may stand in a candidate name: the placeholder, or four
/// decimal digits.
pub open spec fn is_suffix(suffix: Seq<u8>) -> bool {
    ||| suffix == placeholder_suffix()
    ||| suffix.len() == SUFFIX_LEN && forall|i: int|
        0 <= i < SUFFIX_LEN ==> is_digit(#[trigger] suffix[i])
}

/// The candidate name with the given suffix: prefix, suffix, NUL.
pub open spec fn candidate(suffix: Seq<u8>) -> Seq<u8> {
    prefix() + suffix + seq![0u8]
}

/// Whether `bytes` has the fixed shape of a candidate name.
pub open spec fn is_candidate(bytes: Seq<u8>) -> bool {
    &&& bytes.len() == NAME_LEN
    &&& bytes.subrange(0, SUFFIX_OFFSET as int) == prefix()
    &&& is_suffix(bytes.subrange(SUFFIX_OFFSET as int, SUFFIX_OFFSET + SUFFIX_LEN))
    &&& bytes[NAME_LEN - 1] == 0
}

/// Four-digit rendering is exact: for a number below 10000 it yields four
/// ASCII digits, zero-padded on the left, that denote the number again.
pub proof fn lemma_decimal4_exact(value: int)
    requires
        0 <= value < 10000,
    ensures
        decimal4(value).len() == SUFFIX_LEN,
        forall|i: int| 0 <= i < SUFFIX_LEN ==> is_digit(#[trigger] decimal4(value)[i]),
        decimal_value(decimal4(value)) == value,
        is_suffix(decimal4(value)),
        decimal4(value) != placeholder_suffix(),
{
    let d = decimal4(value);
    assert(is_digit(d[0]) && is_digit(d[1]) && is_digit(d[2]) && is_digit(d[3]));
    assert(d[0] != 'X' as u8);
}

/// Distinct numbers below 10000 have distinct renderings.
pub proof fn lemma_decimal4_injective(a: int, b: int)
    requires
        0 <= a < 10000,
        0 <= b < 10000,
        decimal4(a) == decimal4(b),
    ensures
        a == b,
{
    lemma_decimal4_exact(a);
    lemma_decimal4_exact(b);
}

/// A candidate is well formed exactly when its suffix is admissible, and two
/// candidates agree only if their suffixes do.
pub proof fn lemma_candidate_shape(suffix: Seq<u8>)
    requires
        suffix.len() == SUFFIX_LEN,
    ensures
        candidate(suffix).len() == NAME_LEN,
        candidate(suffix).subrange(0, SUFFIX_OFFSET as int) == prefix(),
        candidate(suffix).subrange(SUFFIX_OFFSET as int, SUFFIX_OFFSET + SUFFIX_LEN) == suffix,
        candidate(suffix)[NAME_LEN - 1] == 0,
        is_candidate(candidate(suffix)) <==> is_suffix(suffix),
{
    let c = candidate(suffix);
    assert(c.subrange(SUFFIX_OFFSET as int, SUFFIX_OFFSET + SUFFIX_LEN) =~= suffix);
}

/// Reduces `value` modulo 10000 to the number of a suffix.
pub fn suffix_number(value: i64) -> (number: u16)
    ensures
        number == value as int % 10000,
{
    let r: i64 = value % 10000;
    if r < 0 {
        (r + 10000) as u16
    } else {
        r as u16
    }
}

/// Renders `value`, reduced modulo 10000, as exactly four zero-padded
/// decimal digits.
pub fn suffix_digits(value: i64) -> (digits: [u8; SUFFIX_LEN])
    ensures
        digits@ == decimal4(value as int % 10000),
{
    let v: u16 = suffix_number(value);
    let d0: u8 = (v / 1000 % 10) as u8;
    let d1: u8 = (v / 100 % 10) as u8;
    let d2: u8 = (v / 10 % 10) as u8;
    let d3: u8 = (v % 10) as u8;
    let digits: [u8; SUFFIX_LEN] = [
        ('0' as u8) + d0,
        ('0' as u8) + d1,
        ('0' as u8) + d2,
        ('0' as u8) + d3,
    ];
    digits
}

/// A name for one creation attempt. It always has the fixed shape that
/// [`is_candidate`] describes, so its bytes can be handed to the C library
/// as a NUL-terminated string.
#[derive(Clone, Copy, Debug, PartialEq, Eq)]
pub struct CandidateName {
    bytes: [u8; NAME_LEN],
}

impl View for CandidateName {
    type V = Seq<u8>;

    closed spec fn view(&self) -> Seq<u8> {
        self.bytes@
    }
}

impl CandidateName {
    #[verifier::type_invariant]
    closed spec fn well_formed(self) -> bool {
        is_candidate(self.bytes@)
    }

    /// The name that every invocation tries first, with the suffix `XXXX`.
    pub fn placeholder() -> (name: CandidateName)
        ensures
            name@ == candidate(placeholder_suffix()),
    {
        let bytes: [u8; NAME_LEN] = [
            '/' as u8, 's' as u8, 'h' as u8, 'm' as u8, '_' as u8, 'o' as u8, 'p' as u8,
            'e' as u8, 'n' as u8, '_' as u8, 'a' as u8, 'n' as u8, 'o' as u8, 'n' as u8,
            'y' as u8, 'm' as u8, 'o' as u8, 'u' as u8, 's' as u8, '-' as u8, 'X' as u8,
            'X' as u8, 'X' as u8, 'X' as u8, 0,
        ];
        proof {
            lemma_candidate_shape(placeholder_suffix());
            assert(bytes@ =~= candidate(placeholder_suffix()));
        }
        CandidateName { bytes }
    }

    /// The name whose suffix is `value`, reduced modulo 10000, in four
    /// zero-padded decimal digits.
    pub fn numbered(value: i64) -> (name: CandidateName)
        ensures
            name@ == candidate(decimal4(value as int % 10000)),
    {
        let digits = suffix_digits(value);
        let bytes: [u8; NAME_LEN] = [
            '/' as u8, 's' as u8, 'h' as u8, 'm' as u8, '_' as u8, 'o' as u8, 'p' as u8,
            'e' as u8, 'n' as u8, '_' as u8, 'a' as u8, 'n' as u8, 'o' as u8, 'n' as u8,
            'y' as u8, 'm' as u8, 'o' as u8, 'u' as u8, 's' as u8, '-' as u8, digits[0],
            digits[1], digits[2], digits[3], 0,
        ];
        proof {
            let suffix = decimal4(value as int % 10000);
            lemma_decimal4_exact(value as int % 10000);
            lemma_candidate_shape(suffix);
            assert(bytes@ =~= candidate(suffix));
        }
        CandidateName { bytes }
    }

    /// The name's bytes, the terminating NUL included.
    pub fn as_bytes(&self) -> (bytes: &[u8; NAME_LEN])
        ensures
            bytes@ == self@,
            is_candidate(self@),
    {
        proof {
            use_type_invariant(self);
        }
        &self.bytes
    }

    /// The four suffix bytes.
    pub fn suffix(&self) -> (suffix: [u8; SUFFIX_LEN])
        ensures
            suffix@ == self@.subrange(SUFFIX_OFFSET as int, SUFFIX_OFFSET + SUFFIX_LEN),
            is_suffix(suffix@),
    {
        proof {
            use_type_invariant(self);
        }
        let suffix: [u8; SUFFIX_LEN] = [
            self.bytes[SUFFIX_OFFSET],
            self.bytes[SUFFIX_OFFSET + 1],
            self.bytes[SUFFIX_OFFSET + 2],
            self.bytes[SUFFIX_OFFSET + 3],
        ];
        suffix
    }
}

} // verus!
