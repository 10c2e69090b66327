//! The 128-bit user identifier and its canonical 36-character hyphenated
//! hexadecimal text form.
use crate::hexdigit::hex_char_val;
use crate::hexdigit::hex_char_value;
use crate::hexdigit::hex_digit_str;
use crate::hexdigit::hex_lower_char;
use crate::hexdigit::is_hex_digit;
use crate::hexdigit::is_lower_hex_digit;
use crate::hexdigit::lemma_hex_digit_of_nibble;
use crate::hexdigit::lemma_nibble_of_hex_digit;
use vstd::prelude::*;

verus! {

/// The positions of the four hyphens in the canonical form.
pub open spec fn is_hyphen_pos(i: int) -> bool {
    i == 8 || i == 13 || i == 18 || i == 23
}

/// A 36-character hyphenated hexadecimal identifier: hyphens at the four
/// fixed positions, hexadecimal digits (either case) everywhere else.
pub open spec fn is_canonical_uuid(s: Seq<char>) -> bool {
    &&& s.len() == 36
    &&& forall|i: int|
        0 <= i < 36 ==> (if is_hyphen_pos(i) {
            #[trigger] s[i] == '-'
        } else {
            is_hex_digit(s[i])
        })
}

/// A canonical identifier whose digits are all lower case: the form the
/// library itself renders.
pub open spec fn is_lower_canonical_uuid(s: Seq<char>) -> bool {
    &&& is_canonical_uuid(s)
    &&& forall|i: int| 0 <= i < 36 && !is_hyphen_pos(i) ==> is_lower_hex_digit(#[trigger] s[i])
}

/// The character position of the `k`-th hexadecimal digit (`0 <= k < 32`)
/// within the canonical form, skipping the hyphens.
pub open spec fn digit_pos(k: int) -> int {
    if k < 8 {
        k
    } else if k < 12 {
        k + 1
    } else if k < 16 {
        k + 2
    } else if k < 20 {
        k + 3
    } else {
        k + 4
    }
}

/// How many hyphens stand before character position `i` of the canonical
/// form.
pub open spec fn hyphens_before(i: int) -> int {
    if i <= 8 {
        0
    } else if i <= 13 {
        1
    } else if i <= 18 {
        2
    } else {
        if i <= 23 {
            3
        } else {
            4
        }
    }
}

/// The sixteen bytes a canonical identifier string denotes.
pub open spec fn uuid_bytes_of(s: Seq<char>) -> Seq<u8> {
    Seq::new(16, |j: int| (hex_char_val(s[digit_pos(2 * j)]) * 16 + hex_char_val(
        s[digit_pos(2 * j + 1)],
    )) as u8)
}

/// The `k`-th nibble of a byte string, high nibble first.
pub open spec fn nibble_of(b: Seq<u8>, k: int) -> int {
    if k % 2 == 0 {
        b[k / 2] as int / 16
    } else {
        b[k / 2] as int % 16
    }
}

/// The canonical lower-case text form of sixteen bytes.
pub open spec fn canonical_of(b: Seq<u8>) -> Seq<char> {
    Seq::new(36, |i: int| if is_hyphen_pos(i) {
        '-'
    } else {
        hex_lower_char(nibble_of(b, i - hyphens_before(i)))
    })
}

/// The reserved all-zero identifier, which never denotes a user.
pub open spec fn nil_bytes() -> Seq<u8> {
    Seq::new(16, |j: int| 0u8)
}

pub proof fn lemma_digit_pos(k: int)
    requires
        0 <= k < 32,
    ensures
        0 <= digit_pos(k) < 36,
        !is_hyphen_pos(digit_pos(k)),
        digit_pos(k) - hyphens_before(digit_pos(k)) == k,
{
}

pub proof fn lemma_digit_pos_inverse(i: int)
    requires
        0 <= i < 36,
        !is_hyphen_pos(i),
    ensures
        0 <= i - hyphens_before(i) < 32,
        digit_pos(i - hyphens_before(i)) == i,
{
}

/// Reading the canonical text of sixteen bytes gives those bytes back, and
/// that text is itself canonical with lower-case digits.
pub proof fn lemma_bytes_round_trip(b: Seq<u8>)
    requires
        b.len() == 16,
    ensures
        is_lower_canonical_uuid(canonical_of(b)),
        uuid_bytes_of(canonical_of(b)) == b,
{
    let s = canonical_of(b);
    assert forall|i: int| 0 <= i < 36 && !is_hyphen_pos(i) implies is_lower_hex_digit(
        #[trigger] s[i],
    ) by {
        lemma_digit_pos_inverse(i);
        let k = i - hyphens_before(i);
        assert(0 <= nibble_of(b, k) < 16);
        lemma_hex_digit_of_nibble(nibble_of(b, k));
    }
    assert(is_lower_canonical_uuid(s));
    assert forall|j: int| 0 <= j < 16 implies uuid_bytes_of(s)[j] == b[j] by {
        lemma_digit_pos(2 * j);
        lemma_digit_pos(2 * j + 1);
        assert(s[digit_pos(2 * j)] == hex_lower_char(nibble_of(b, 2 * j)));
        assert(s[digit_pos(2 * j + 1)] == hex_lower_char(nibble_of(b, 2 * j + 1)));
        let v = b[j] as int;
        assert(0 <= v / 16 < 16);
        assert(0 <= v % 16 < 16);
        lemma_hex_digit_of_nibble(v / 16);
        lemma_hex_digit_of_nibble(v % 16);
        assert(uuid_bytes_of(s)[j] == ((v / 16) * 16 + v % 16) as u8);
        assert(v / 16 * 16 + v % 16 == v) by {
            assert(v / 16 * 16 + v % 16 == v) by (nonlinear_arith);
        }
    }
    assert(uuid_bytes_of(s) =~= b);
}

/// Rendering the bytes a lower-case canonical identifier string denotes
/// gives that string back.
pub proof fn lemma_string_round_trip(s: Seq<char>)
    requires
        is_lower_canonical_uuid(s),
    ensures
        uuid_bytes_of(s).len() == 16,
        canonical_of(uuid_bytes_of(s)) == s,
{
    let b = uuid_bytes_of(s);
    assert forall|i: int| 0 <= i < 36 implies canonical_of(b)[i] == s[i] by {
        if is_hyphen_pos(i) {
            assert(s[i] == '-');
        } else {
            lemma_digit_pos_inverse(i);
            let k = i - hyphens_before(i);
            let j = k / 2;
            let lo = hex_char_val(s[digit_pos(2 * j + 1)]);
            let hi = hex_char_val(s[digit_pos(2 * j)]);
            lemma_digit_pos(2 * j);
            lemma_digit_pos(2 * j + 1);
            lemma_nibble_of_hex_digit(s[digit_pos(2 * j)]);
            lemma_nibble_of_hex_digit(s[digit_pos(2 * j + 1)]);
            assert(b[j] == (hi * 16 + lo) as u8);
            assert(hi * 16 + lo < 256);
            assert(b[j] as int / 16 == hi && b[j] as int % 16 == lo) by {
                assert((hi * 16 + lo) / 16 == hi && (hi * 16 + lo) % 16 == lo) by (nonlinear_arith)
                    requires
                        0 <= hi < 16,
                        0 <= lo < 16,
                ;
            }
            if k % 2 == 0 {
                assert(k == 2 * j);
                assert(nibble_of(b, k) == hi);
            } else {
                assert(k == 2 * j + 1);
                assert(nibble_of(b, k) == lo);
            }
            assert(canonical_of(b)[i] == hex_lower_char(hex_char_val(s[i])));
            lemma_nibble_of_hex_digit(s[i]);
        }
    }
    assert(canonical_of(b) =~= s);
}

/// Distinct sixteen-byte identifiers have distinct canonical texts.
pub proof fn lemma_canonical_injective(a: Seq<u8>, b: Seq<u8>)
    requires
        a.len() == 16,
        b.len() == 16,
        a != b,
    ensures
        canonical_of(a) != canonical_of(b),
{
    if canonical_of(a) == canonical_of(b) {
        lemma_bytes_round_trip(a);
        lemma_bytes_round_trip(b);
        assert(a == b);
    }
}

/// A 128-bit user identifier, held as sixteen bytes, high byte first.
pub struct UserId {
    bytes: Vec<u8>,
}

impl View for UserId {
    type V = Seq<u8>;

    closed spec fn view(&self) -> Seq<u8> {
        self.bytes@
    }
}

impl UserId {
    #[verifier::type_invariant]
    closed spec fn inv(self) -> bool {
        self.bytes@.len() == 16
    }

    /// The reserved all-zero identifier.
    pub fn nil() -> (r: UserId)
        ensures
            r@ == nil_bytes(),
    {
        let mut bytes: Vec<u8> = Vec::new();
        let mut j: usize = 0;
        while j < 16
            invariant
                j <= 16,
                bytes@.len() == j,
                forall|t: int| 0 <= t < j ==> bytes@[t] == 0u8,
            decreases 16 - j,
        {
            bytes.push(0);
            j += 1;
        }
        let r = UserId { bytes };
        proof {
            assert(r@ =~= nil_bytes());
        }
        r
    }

    /// Whether this is the reserved all-zero identifier.
    pub fn is_nil(&self) -> (r: bool)
        ensures
            r == (self@ == nil_bytes()),
    {
        proof {
            use_type_invariant(self);
        }
        let mut j: usize = 0;
        while j < 16
            invariant
                j <= 16,
                self.bytes@.len() == 16,
                self@ == self.bytes@,
                forall|t: int| 0 <= t < j ==> self.bytes@[t] == 0u8,
            decreases 16 - j,
        {
            if self.bytes[j] != 0 {
                proof {
                    assert(self@[j as int] != nil_bytes()[j as int]);
                }
                return false;
            }
            j += 1;
        }
        proof {
            assert(self@ =~= nil_bytes());
        }
        true
    }

    /// The canonical lower-case hyphenated text of this identifier.
    pub fn to_canonical(&self) -> (r: String)
        ensures
            r@ == canonical_of(self@),
    {
        proof {
            use_type_invariant(self);
        }
        let mut out = String::new();
        let mut i: usize = 0;
        while i < 36
            invariant
                i <= 36,
                self.bytes@.len() == 16,
                self@ == self.bytes@,
                out@ == canonical_of(self@).subrange(0, i as int),
            decreases 36 - i,
        {
            if i == 8 || i == 13 || i == 18 || i == 23 {
                out.append("-");
                proof {
                    reveal_strlit("-");
                    assert(("-")@ =~= seq!['-']);
                }
            } else {
                proof {
                    lemma_digit_pos_inverse(i as int);
                }
                let k: usize = if i <= 8 {
                    i
                } else if i <= 13 {
                    i - 1
                } else if i <= 18 {
                    i - 2
                } else if i <= 23 {
                    i - 3
                } else {
                    i - 4
                };
                assert(k == i - hyphens_before(i as int));
                let byte = self.bytes[k / 2];
                let n: u8 = if k % 2 == 0 {
                    byte / 16
                } else {
                    byte % 16
                };
                assert(n as int == nibble_of(self@, k as int));
                out.append(hex_digit_str(n));
            }
            proof {
                let c = canonical_of(self@);
                assert(c.subrange(0, i + 1 as int).drop_last() =~= c.subrange(0, i as int));
                assert(out@ =~= c.subrange(0, i + 1 as int));
            }
            i += 1;
        }
        proof {
            assert(canonical_of(self@).subrange(0, 36) =~= canonical_of(self@));
        }
        out
    }
}

/// Reads an identifier from its canonical hyphenated text; any other text
/// is rejected.
pub fn parse_user_id(s: &str) -> (r: Option<UserId>)
    ensures
        r is Some <==> is_canonical_uuid(s@),
        r is Some ==> r->0@ == uuid_bytes_of(s@),
{
    let n: usize = s.unicode_len();
    if n != 36 {
        return None;
    }
    let mut i: usize = 0;
    while i < 36
        invariant
            i <= 36,
            s@.len() == 36,
            forall|t: int|
                0 <= t < i ==> (if is_hyphen_pos(t) {
                    #[trigger] s@[t] == '-'
                } else {
                    is_hex_digit(s@[t])
                }),
        decreases 36 - i,
    {
        let c = s.get_char(i);
        if i == 8 || i == 13 || i == 18 || i == 23 {
            if c != '-' {
                return None;
            }
        } else {
            if hex_char_value(c).is_none() {
                return None;
            }
        }
        i += 1;
    }
    assert(is_canonical_uuid(s@));
    let mut bytes: Vec<u8> = Vec::new();
    let mut j: usize = 0;
    while j < 16
        invariant
            j <= 16,
            s@.len() == 36,
            is_canonical_uuid(s@),
            bytes@.len() == j,
            forall|t: int| 0 <= t < j ==> bytes@[t] == uuid_bytes_of(s@)[t],
        decreases 16 - j,
    {
        proof {
            lemma_digit_pos(2 * j as int);
            lemma_digit_pos(2 * j + 1 as int);
        }
        let p_hi: usize = digit_pos_exec(2 * j);
        let p_lo: usize = digit_pos_exec(2 * j + 1);
        let c_hi = s.get_char(p_hi);
        let c_lo = s.get_char(p_lo);
        let v_hi = match hex_char_value(c_hi) {
            Some(v) => v,
            None => vstd::pervasive::unreached(),
        };
        let v_lo = match hex_char_value(c_lo) {
            Some(v) => v,
            None => vstd::pervasive::unreached(),
        };
        bytes.push(v_hi * 16 + v_lo);
        j += 1;
    }
    let r = UserId { bytes };
    proof {
        assert(r@ =~= uuid_bytes_of(s@));
    }
    Some(r)
}

/// The character position of the `k`-th hexadecimal digit of the canonical
/// form.
fn digit_pos_exec(k: usize) -> (r: usize)
    requires
        k < 32,
    ensures
        r as int == digit_pos(k as int),
{
    if k < 8 {
        k
    } else if k < 12 {
        k + 1
    } else if k < 16 {
        k + 2
    } else if k < 20 {
        k + 3
    } else {
        k + 4
    }
}

} // verus!
