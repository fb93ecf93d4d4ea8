//! Per-request correlation identifiers.
//!
//! A [`RequestId`] is an opaque 128-bit value minted once per logical request
//! and carried across process boundaries in a canonical text form: 32
//! lowercase hexadecimal digits in five hyphen-separated groups of 8, 4, 4, 4
//! and 12 digits. [`RequestId::to_canonical`] renders that form and
//! [`RequestId::parse_canonical`] accepts exactly the strings the renderer
//! produces, so an identifier survives a round trip through call metadata
//! unchanged.

use vstd::prelude::*;
use vstd::string::*;

verus! {

/// The lowercase hexadecimal digit character for a value in `0..16`.
pub open spec fn hex_char(d: int) -> char {
    if d == 0 {
        '0'
    } else if d == 1 {
        '1'
    } else if d == 2 {
        '2'
    } else if d == 3 {
        '3'
    } else if d == 4 {
        '4'
    } else if d == 5 {
        '5'
    } else if d == 6 {
        '6'
    } else if d == 7 {
        '7'
    } else if d == 8 {
        '8'
    } else if d == 9 {
        '9'
    } else if d == 10 {
        'a'
    } else if d == 11 {
        'b'
    } else if d == 12 {
        'c'
    } else if d == 13 {
        'd'
    } else if d == 14 {
        'e'
    } else {
        'f'
    }
}

/// The value of a lowercase hexadecimal digit character; 16 marks any other
/// character.
pub open spec fn hex_val(c: char) -> int {
    if c == '0' {
        0
    } else if c == '1' {
        1
    } else if c == '2' {
        2
    } else if c == '3' {
        3
    } else if c == '4' {
        4
    } else if c == '5' {
        5
    } else if c == '6' {
        6
    } else if c == '7' {
        7
    } else if c == '8' {
        8
    } else if c == '9' {
        9
    } else if c == 'a' {
        10
    } else if c == 'b' {
        11
    } else if c == 'c' {
        12
    } else if c == 'd' {
        13
    } else if c == 'e' {
        14
    } else if c == 'f' {
        15
    } else {
        16
    }
}

pub open spec fn is_hex_char(c: char) -> bool {
    hex_val(c) < 16
}

/// The `j`-th hexadecimal digit of `v`, counting from the most significant.
pub open spec fn nibble(v: u128, j: int) -> int {
    ((v >> (((31 - j) * 4) as u128)) & 0xf) as int
}

/// All 32 hexadecimal digits of `v`, most significant first.
pub open spec fn nibbles(v: u128) -> Seq<int> {
    Seq::new(32, |j: int| nibble(v, j))
}

/// The character position of the `j`-th digit in the canonical form, which
/// groups the 32 digits as 8-4-4-4-12 with a hyphen between groups.
pub open spec fn digit_index(j: int) -> int {
    if j < 8 {
        j
    } else if j < 12 {
        j + 1
    } else if j < 16 {
        j + 2
    } else if j < 20 {
        j + 3
    } else {
        j + 4
    }
}

/// Whether `s` is a canonical identifier rendering: 36 characters, hyphens at
/// the four group boundaries, lowercase hexadecimal digits everywhere else.
pub open spec fn is_canonical(s: Seq<char>) -> bool {
    &&& s.len() == 36
    &&& s[8] == '-'
    &&& s[13] == '-'
    &&& s[18] == '-'
    &&& s[23] == '-'
    &&& forall|j: int| 0 <= j < 32 ==> is_hex_char(#[trigger] s[digit_index(j)])
}

/// The digit values of a canonical rendering, most significant first.
pub open spec fn canonical_digits(s: Seq<char>) -> Seq<int> {
    Seq::new(32, |j: int| hex_val(s[digit_index(j)]))
}

/// The number denoted by a big-endian sequence of base-16 digits.
pub open spec fn assemble(ds: Seq<int>) -> int
    decreases ds.len(),
{
    if ds.len() == 0 {
        0
    } else {
        assemble(ds.drop_last()) * 16 + ds.last()
    }
}

/// The identifier value denoted by a canonical rendering.
pub open spec fn canonical_value(s: Seq<char>) -> int {
    assemble(canonical_digits(s))
}

pub open spec fn pow16(n: nat) -> int
    decreases n,
{
    if n == 0 {
        1
    } else {
        16 * pow16((n - 1) as nat)
    }
}

pub(crate) proof fn lemma_nibble_in_range(v: u128, s: u128)
    by (bit_vector)
    requires
        s <= 124,
    ensures
        (v >> s) & 0xf < 16,
{
}

proof fn lemma_top_nibble(v: u128)
    by (bit_vector)
    ensures
        v >> 124 == (v >> 124) & 0xf,
        v >> 0 == v,
{
}

proof fn lemma_nibble_split(v: u128, s: u128, t: u128)
    by (bit_vector)
    requires
        s <= 120,
        t == s + 4,
    ensures
        (v >> s) as int == (v >> t) * 16 + ((v >> s) & 0xf),
{
}

/// Reading the digits of `v` most significant first and reassembling the
/// first `k` of them yields the top `4 * k` bits of `v`.
proof fn lemma_nibbles_assemble_prefix(v: u128, k: int)
    requires
        0 <= k <= 32,
    ensures
        assemble(nibbles(v).take(k)) == if k == 0 {
            0int
        } else {
            (v >> (((32 - k) * 4) as u128)) as int
        },
    decreases k,
{
    if k == 0 {
        assert(nibbles(v).take(0) =~= Seq::<int>::empty());
    } else {
        lemma_nibbles_assemble_prefix(v, k - 1);
        assert(nibbles(v).take(k).drop_last() =~= nibbles(v).take(k - 1));
        if k == 1 {
            lemma_top_nibble(v);
        } else {
            let s = ((32 - k) * 4) as u128;
            lemma_nibble_split(v, s, (s + 4) as u128);
        }
    }
}

/// Assembling all 32 digits of `v` gives back `v`.
proof fn lemma_nibbles_assemble(v: u128)
    ensures
        assemble(nibbles(v)) == v,
{
    lemma_nibbles_assemble_prefix(v, 32);
    assert(nibbles(v).take(32) =~= nibbles(v));
    lemma_top_nibble(v);
}

proof fn lemma_hex_char_val(d: int)
    requires
        0 <= d < 16,
    ensures
        hex_val(hex_char(d)) == d,
{
}

proof fn lemma_pow16_positive(n: nat)
    ensures
        pow16(n) >= 1,
    decreases n,
{
    if n > 0 {
        lemma_pow16_positive((n - 1) as nat);
    }
}

proof fn lemma_pow16_increases(a: nat, b: nat)
    requires
        a <= b,
    ensures
        pow16(a) <= pow16(b),
    decreases b,
{
    if a < b {
        lemma_pow16_increases(a, (b - 1) as nat);
        lemma_pow16_positive((b - 1) as nat);
    }
}

proof fn lemma_pow16_32()
    ensures
        pow16(32) == 0x1_0000_0000_0000_0000_0000_0000_0000_0000,
{
    reveal_with_fuel(pow16, 33);
}

proof fn lemma_assemble_nonneg(ds: Seq<int>)
    requires
        forall|i: int| 0 <= i < ds.len() ==> 0 <= #[trigger] ds[i],
    ensures
        assemble(ds) >= 0,
    decreases ds.len(),
{
    if ds.len() > 0 {
        assert(forall|i: int|
            0 <= i < ds.drop_last().len() ==> 0 <= #[trigger] ds.drop_last()[i]);
        lemma_assemble_nonneg(ds.drop_last());
    }
}

/// Base-16 digit strings of equal length denote distinct numbers unless they
/// are equal digit for digit.
proof fn lemma_assemble_injective(d1: Seq<int>, d2: Seq<int>)
    requires
        d1.len() == d2.len(),
        forall|i: int| 0 <= i < d1.len() ==> 0 <= #[trigger] d1[i] < 16,
        forall|i: int| 0 <= i < d2.len() ==> 0 <= #[trigger] d2[i] < 16,
        assemble(d1) == assemble(d2),
    ensures
        d1 =~= d2,
    decreases d1.len(),
{
    if d1.len() > 0 {
        let a1 = d1.drop_last();
        let a2 = d2.drop_last();
        assert(forall|i: int| 0 <= i < a1.len() ==> 0 <= #[trigger] a1[i] < 16);
        assert(forall|i: int| 0 <= i < a2.len() ==> 0 <= #[trigger] a2[i] < 16);
        lemma_assemble_nonneg(a1);
        lemma_assemble_nonneg(a2);
        assert(assemble(a1) * 16 + d1.last() == assemble(a2) * 16 + d2.last());
        assert(d1.last() == d2.last() && assemble(a1) == assemble(a2)) by {
            let q = assemble(a1) - assemble(a2);
            assert(q * 16 == d2.last() - d1.last());
            assert(-16 < d2.last() - d1.last() < 16);
        }
        lemma_assemble_injective(a1, a2);
        assert forall|i: int| 0 <= i < d1.len() implies d1[i] == d2[i] by {
            if i < d1.len() - 1 {
                assert(a1[i] == a2[i]);
            }
        }
    }
}

/// The digit slot that fills the canonical character position `p`; inverse to
/// [`digit_index`] away from the hyphens.
spec fn digit_of_index(p: int) -> int {
    if p < 8 {
        p
    } else if p < 13 {
        p - 1
    } else if p < 18 {
        p - 2
    } else if p < 23 {
        p - 3
    } else {
        p - 4
    }
}

/// Law: the canonical rendering is unique. Two canonical strings denoting the
/// same identifier value are the same string, so the identifier pins its wire
/// form exactly.
pub proof fn lemma_canonical_unique(s1: Seq<char>, s2: Seq<char>)
    requires
        is_canonical(s1),
        is_canonical(s2),
        canonical_value(s1) == canonical_value(s2),
    ensures
        s1 =~= s2,
{
    lemma_assemble_injective(canonical_digits(s1), canonical_digits(s2));
    assert forall|p: int| 0 <= p < 36 implies s1[p] == s2[p] by {
        if p == 8 || p == 13 || p == 18 || p == 23 {
        } else {
            let j = digit_of_index(p);
            assert(digit_index(j) == p);
            assert(canonical_digits(s1)[j] == canonical_digits(s2)[j]);
            assert(hex_val(s1[p]) == hex_val(s2[p]));
            assert(is_hex_char(s1[digit_index(j)]));
            assert(is_hex_char(s2[digit_index(j)]));
        }
    }
}

/// Relies on `String::push`: appends exactly the given character.
#[verifier::external_body]
pub(crate) fn string_push(s: &mut String, c: char)
    ensures
        final(s)@ == old(s)@.push(c),
{
    s.push(c);
}

/// Relies on `uuid::Uuid::new_v4`: a freshly generated random 128-bit
/// identifier. Nothing can be promised of a random value.
#[verifier::external_body]
fn mint_random_value() -> u128 {
    uuid::Uuid::new_v4().as_u128()
}

pub(crate) fn hex_char_of(d: u8) -> (c: char)
    requires
        d < 16,
    ensures
        c == hex_char(d as int),
{
    match d {
        0 => '0',
        1 => '1',
        2 => '2',
        3 => '3',
        4 => '4',
        5 => '5',
        6 => '6',
        7 => '7',
        8 => '8',
        9 => '9',
        10 => 'a',
        11 => 'b',
        12 => 'c',
        13 => 'd',
        14 => 'e',
        _ => 'f',
    }
}

fn hex_val_of(c: char) -> (d: u8)
    ensures
        d as int == hex_val(c),
{
    match c {
        '0' => 0,
        '1' => 1,
        '2' => 2,
        '3' => 3,
        '4' => 4,
        '5' => 5,
        '6' => 6,
        '7' => 7,
        '8' => 8,
        '9' => 9,
        'a' => 10,
        'b' => 11,
        'c' => 12,
        'd' => 13,
        'e' => 14,
        'f' => 15,
        _ => 16,
    }
}

/// A process-wide-unique value minted once per logical request, immutable
/// once minted and copied freely while the request is handled.
#[derive(Clone, Copy, PartialEq, Eq, Structural, Debug)]
pub struct RequestId {
    value: u128,
}

impl View for RequestId {
    type V = u128;

    closed spec fn view(&self) -> u128 {
        self.value
    }
}

impl RequestId {
    /// Mint a fresh identifier. Distinctness of repeated mints holds with
    /// overwhelming probability but is not a logical guarantee.
    pub fn generate() -> Self {
        RequestId { value: mint_random_value() }
    }

    /// The identifier with exactly the given value.
    pub fn from_value(v: u128) -> (r: Self)
        ensures
            r@ == v,
    {
        RequestId { value: v }
    }

    /// The 128-bit value of this identifier.
    pub fn value(&self) -> (r: u128)
        ensures
            r == self@,
    {
        self.value
    }

    /// Render the canonical hyphenated lowercase-hexadecimal form.
    pub fn to_canonical(&self) -> (r: String)
        ensures
            is_canonical(r@),
            canonical_value(r@) == self@ as int,
            forall|j: int|
                0 <= j < 32 ==> r@[digit_index(j)] == hex_char(nibble(self@, j)),
    {
        let v = self.value;
        let mut r = String::new();
        let mut j: usize = 0;
        while j < 32
            invariant
                j <= 32,
                r@.len() == j + (if j > 8 { 1int } else { 0int }) + (if j > 12 { 1int } else { 0int })
                    + (if j > 16 { 1int } else { 0int }) + (if j > 20 { 1int } else { 0int }),
                forall|t: int| 0 <= t < j ==> r@[digit_index(t)] == hex_char(nibble(v, t)),
                j > 8 ==> r@[8] == '-',
                j > 12 ==> r@[13] == '-',
                j > 16 ==> r@[18] == '-',
                j > 20 ==> r@[23] == '-',
            decreases 32 - j,
        {
            if j == 8 || j == 12 || j == 16 || j == 20 {
                string_push(&mut r, '-');
            }
            let sh: u128 = ((31 - j) as u128) * 4;
            let d: u128 = (v >> sh) & 0xf;
            proof {
                lemma_nibble_in_range(v, sh);
            }
            string_push(&mut r, hex_char_of(d as u8));
            j = j + 1;
        }
        proof {
            assert(canonical_digits(r@) =~= nibbles(v)) by {
                assert forall|t: int| 0 <= t < 32 implies canonical_digits(r@)[t] == nibbles(v)[t] by {
                    lemma_nibble_in_range(v, (((31 - t) * 4)) as u128);
                    lemma_hex_char_val(nibble(v, t));
                }
            }
            lemma_nibbles_assemble(v);
            assert forall|t: int| 0 <= t < 32 implies is_hex_char(r@[digit_index(t)]) by {
                lemma_nibble_in_range(v, (((31 - t) * 4)) as u128);
                lemma_hex_char_val(nibble(v, t));
            }
        }
        r
    }
    /// Parse the canonical hyphenated lowercase-hexadecimal form; any other
    /// string is rejected.
    pub fn parse_canonical(s: &str) -> (r: Option<RequestId>)
        ensures
            r is Some <==> is_canonical(s@),
            r is Some ==> (r->Some_0)@ as int == canonical_value(s@),
    {
        let n: usize = s.unicode_len();
        if n != 36 {
            return None;
        }
        if s.get_char(8) != '-' || s.get_char(13) != '-' || s.get_char(18) != '-' || s.get_char(23)
            != '-' {
            return None;
        }
        let mut acc: u128 = 0;
        let mut j: usize = 0;
        while j < 32
            invariant
                j <= 32,
                s@.len() == 36,
                acc as int == assemble(canonical_digits(s@).take(j as int)),
                acc < pow16(j as nat),
                forall|t: int| 0 <= t < j ==> is_hex_char(#[trigger] s@[digit_index(t)]),
            decreases 32 - j,
        {
            let p: usize = if j < 8 {
                j
            } else if j < 12 {
                j + 1
            } else if j < 16 {
                j + 2
            } else if j < 20 {
                j + 3
            } else {
                j + 4
            };
            let c: char = s.get_char(p);
            let d: u8 = hex_val_of(c);
            if d >= 16 {
                proof {
                    assert(p as int == digit_index(j as int));
                    assert(!is_hex_char(s@[digit_index(j as int)]));
                }
                return None;
            }
            proof {
                lemma_pow16_increases((j + 1) as nat, 32);
                lemma_pow16_32();
                assert(canonical_digits(s@).take(j + 1).drop_last() =~= canonical_digits(s@).take(
                    j as int,
                ));
            }
            acc = acc * 16 + (d as u128);
            j = j + 1;
        }
        proof {
            assert(canonical_digits(s@).take(32) =~= canonical_digits(s@));
        }
        Some(RequestId { value: acc })
    }
}

/// Mint a fresh [`RequestId`].
pub fn generate_request_id() -> RequestId {
    RequestId::generate()
}

} // verus!
