use vstd::prelude::*;

verus! {

broadcast use vstd::string::group_string_axioms;

/// A 128-bit blob identifier, assigned by the store at creation time.
///
/// Its canonical string form is 32 lowercase hexadecimal digits, most
/// significant first, with a hyphen after the 8th, 12th, 16th and 20th
/// digit (36 characters in all); that string names the blob in request
/// paths and in the store's directory.
#[derive(Clone, Copy, Debug, PartialEq, Eq, Structural)]
pub struct FileId(pub u128);

impl View for FileId {
    type V = u128;

    open spec fn view(&self) -> u128 {
        self.0
    }
}

/// The positions of the canonical form that hold a hyphen.
pub open spec fn is_hyphen_position(i: int) -> bool {
    i == 8 || i == 13 || i == 18 || i == 23
}

/// The lowercase hexadecimal digit for a value below 16.
pub open spec fn hex_char_of(d: u128) -> char {
    if d == 0 {
        '0'
    } else if d == 1 {
        '1'
    } else if d == 2 {
        '2'
    } else if d == 3 {
        '3'
    } else if d == 4 {
        '4'
    } else if d == 5 {
        '5'
    } else if d == 6 {
        '6'
    } else if d == 7 {
        '7'
    } else if d == 8 {
        '8'
    } else if d == 9 {
        '9'
    } else if d == 10 {
        'a'
    } else if d == 11 {
        'b'
    } else if d == 12 {
        'c'
    } else if d == 13 {
        'd'
    } else if d == 14 {
        'e'
    } else {
        'f'
    }
}

/// Whether a character is a hexadecimal digit, in either case.
pub open spec fn is_hex_digit(c: char) -> bool {
    match c {
        '0' | '1' | '2' | '3' | '4' | '5' | '6' | '7' | '8' | '9' => true,
        'a' | 'b' | 'c' | 'd' | 'e' | 'f' => true,
        'A' | 'B' | 'C' | 'D' | 'E' | 'F' => true,
        _ => false,
    }
}

/// The value of a hexadecimal digit, in either case (16 for any other
/// character, which `is_hex_digit` rules out wherever this is used).
pub open spec fn hex_value_of(c: char) -> u128 {
    match c {
        '0' => 0,
        '1' => 1,
        '2' => 2,
        '3' => 3,
        '4' => 4,
        '5' => 5,
        '6' => 6,
        '7' => 7,
        '8' => 8,
        '9' => 9,
        'a' | 'A' => 10,
        'b' | 'B' => 11,
        'c' | 'C' => 12,
        'd' | 'D' => 13,
        'e' | 'E' => 14,
        'f' | 'F' => 15,
        _ => 16,
    }
}

/// The `k`-th hexadecimal digit of `n`, most significant first
/// (`k` ranges over 0..32).
pub open spec fn nibble_of(n: u128, k: int) -> u128 {
    (n >> (((31 - k) * 4) as u128)) & 0xf
}

/// For a non-hyphen position `i` of the canonical form, the index of
/// the hexadecimal digit that stands there.
pub open spec fn digit_index_of(i: int) -> int {
    if i < 8 {
        i
    } else if i < 13 {
        i - 1
    } else if i < 18 {
        i - 2
    } else if i < 23 {
        i - 3
    } else {
        i - 4
    }
}

/// The position of the `k`-th hexadecimal digit in the canonical form
/// (`k` ranges over 0..32).
pub open spec fn digit_position_of(k: int) -> int {
    if k < 8 {
        k
    } else if k < 12 {
        k + 1
    } else if k < 16 {
        k + 2
    } else if k < 20 {
        k + 3
    } else {
        k + 4
    }
}

/// How many non-hyphen positions of the canonical form lie before
/// position `i` (`i` ranges over 0..=36).
pub open spec fn digits_before(i: int) -> int {
    if i <= 8 {
        i
    } else if i <= 13 {
        i - 1
    } else if i <= 18 {
        i - 2
    } else if i <= 23 {
        i - 3
    } else {
        i - 4
    }
}

/// The character at position `i` of the canonical form of `n`.
pub open spec fn canonical_char(n: u128, i: int) -> char {
    if is_hyphen_position(i) {
        '-'
    } else {
        hex_char_of(nibble_of(n, digit_index_of(i)))
    }
}

/// The canonical string form of the 128-bit value `n`.
pub open spec fn canonical_form(n: u128) -> Seq<char> {
    Seq::new(36, |i: int| canonical_char(n, i))
}

/// Whether position `i` of `s` is acceptable for an identifier string:
/// a hyphen at the hyphen positions, a hexadecimal digit (either case)
/// elsewhere.
pub open spec fn position_ok(s: Seq<char>, i: int) -> bool {
    if is_hyphen_position(i) {
        s[i] == '-'
    } else {
        is_hex_digit(s[i])
    }
}

/// Whether `s` is a well-formed identifier string: 36 characters,
/// hyphens exactly at the hyphen positions, hexadecimal digits (either
/// case) elsewhere.
pub open spec fn is_canonical_id(s: Seq<char>) -> bool {
    s.len() == 36 && forall|i: int| 0 <= i < 36 ==> #[trigger] position_ok(s, i)
}

/// The value of the first `k` hexadecimal digits of identifier string
/// `s`, most significant first.
pub open spec fn value_prefix(s: Seq<char>, k: int) -> u128
    decreases k,
{
    if k <= 0 {
        0
    } else {
        (value_prefix(s, k - 1) << 4) | hex_value_of(s[digit_position_of(k - 1)])
    }
}

/// The 128-bit value that identifier string `s` denotes.
pub open spec fn id_value_of(s: Seq<char>) -> u128 {
    value_prefix(s, 32)
}

/// Every hexadecimal digit of a value is below 16.
pub proof fn lemma_nibble_bound(n: u128, k: int)
    requires
        0 <= k < 32,
    ensures
        nibble_of(n, k) < 16,
{
    let sh: u128 = ((31 - k) * 4) as u128;
    assert((n >> sh) & 0xf < 16) by (bit_vector);
}

/// Formatting a digit value below 16 and reading it back is the
/// identity, and the formatted character is a hexadecimal digit.
pub proof fn lemma_hex_char_value(d: u128)
    requires
        d < 16,
    ensures
        hex_value_of(hex_char_of(d)) == d,
        is_hex_digit(hex_char_of(d)),
{
}

/// The canonical form of any 128-bit value is a well-formed identifier
/// string.
pub proof fn lemma_canonical_form_wf(n: u128)
    ensures
        is_canonical_id(canonical_form(n)),
{
    let s = canonical_form(n);
    assert forall|i: int| 0 <= i < 36 implies #[trigger] position_ok(s, i) by {
        if !is_hyphen_position(i) {
            lemma_nibble_bound(n, digit_index_of(i));
            lemma_hex_char_value(nibble_of(n, digit_index_of(i)));
        }
    }
}

/// No character of a canonical identifier string is a path separator or
/// a dot, so the string is always a safe single path segment.
pub proof fn lemma_canonical_id_path_safe(s: Seq<char>)
    requires
        is_canonical_id(s),
    ensures
        forall|i: int| 0 <= i < s.len() ==> s[i] != '/' && s[i] != '\\' && s[i] != '.',
{
    assert forall|i: int| 0 <= i < s.len() implies s[i] != '/' && s[i] != '\\' && s[i]
        != '.' by {
        assert(position_ok(s, i));
    }
}

proof fn lemma_value_prefix_of_canonical(n: u128, k: int)
    requires
        1 <= k <= 32,
    ensures
        value_prefix(canonical_form(n), k) == n >> (((32 - k) * 4) as u128),
    decreases k,
{
    let s = canonical_form(n);
    let p = digit_position_of(k - 1);
    assert(0 <= p < 36 && !is_hyphen_position(p) && digit_index_of(p) == k - 1);
    assert(s[p] == canonical_char(n, p));
    lemma_nibble_bound(n, k - 1);
    lemma_hex_char_value(nibble_of(n, k - 1));
    let b: u128 = ((32 - k) * 4) as u128;
    assert(nibble_of(n, k - 1) == (n >> b) & 0xf);
    if k == 1 {
        assert(value_prefix(s, 0) == 0);
        assert(value_prefix(s, 1) == (0u128 << 4) | ((n >> b) & 0xf));
        assert((0u128 << 4) | ((n >> b) & 0xf) == n >> b) by (bit_vector)
            requires
                b == 124,
        ;
    } else {
        lemma_value_prefix_of_canonical(n, k - 1);
        let a: u128 = ((33 - k) * 4) as u128;
        assert(value_prefix(s, k) == ((n >> a) << 4) | ((n >> b) & 0xf));
        assert(((n >> a) << 4) | ((n >> b) & 0xf) == n >> b) by (bit_vector)
            requires
                a == b + 4,
                b <= 120,
        ;
    }
}

/// Round trip: the canonical form of any 128-bit value is well formed
/// and denotes that value again.
pub proof fn lemma_canonical_round_trip(n: u128)
    ensures
        is_canonical_id(canonical_form(n)),
        id_value_of(canonical_form(n)) == n,
{
    lemma_canonical_form_wf(n);
    lemma_value_prefix_of_canonical(n, 32);
    assert(n >> 0u128 == n) by (bit_vector);
}

/// The lowercase hexadecimal digit for a value below 16, as a string of
/// one character.
fn hex_str(d: u8) -> (r: &'static str)
    requires
        d < 16,
    ensures
        r@.len() == 1,
        r@[0] == hex_char_of(d as u128),
{
    proof {
        reveal_strlit("0");
        reveal_strlit("1");
        reveal_strlit("2");
        reveal_strlit("3");
        reveal_strlit("4");
        reveal_strlit("5");
        reveal_strlit("6");
        reveal_strlit("7");
        reveal_strlit("8");
        reveal_strlit("9");
        reveal_strlit("a");
        reveal_strlit("b");
        reveal_strlit("c");
        reveal_strlit("d");
        reveal_strlit("e");
        reveal_strlit("f");
    }
    if d == 0 {
        "0"
    } else if d == 1 {
        "1"
    } else if d == 2 {
        "2"
    } else if d == 3 {
        "3"
    } else if d == 4 {
        "4"
    } else if d == 5 {
        "5"
    } else if d == 6 {
        "6"
    } else if d == 7 {
        "7"
    } else if d == 8 {
        "8"
    } else if d == 9 {
        "9"
    } else if d == 10 {
        "a"
    } else if d == 11 {
        "b"
    } else if d == 12 {
        "c"
    } else if d == 13 {
        "d"
    } else if d == 14 {
        "e"
    } else {
        "f"
    }
}

impl FileId {
    /// The canonical string form of this identifier.
    pub fn to_canonical_string(&self) -> (r: String)
        ensures
            r@ == canonical_form(self@),
            is_canonical_id(r@),
    {
        let n: u128 = self.0;
        let mut r = String::new();
        let mut i: usize = 0;
        while i < 36
            invariant
                i <= 36,
                n == self.0,
                r@ == canonical_form(n).subrange(0, i as int),
            decreases 36 - i,
        {
            if i == 8 || i == 13 || i == 18 || i == 23 {
                r.append("-");
                proof {
                    reveal_strlit("-");
                    assert(canonical_form(n)[i as int] == '-');
                    assert(r@ =~= canonical_form(n).subrange(0, i as int + 1));
                }
            } else {
                let k: usize = if i < 8 {
                    i
                } else if i < 13 {
                    i - 1
                } else if i < 18 {
                    i - 2
                } else if i < 23 {
                    i - 3
                } else {
                    i - 4
                };
                let sh: u128 = ((31 - k) * 4) as u128;
                let d: u8 = ((n >> sh) & 0xf) as u8;
                proof {
                    assert((n >> sh) & 0xf < 16) by (bit_vector);
                    assert(d as u128 == nibble_of(n, k as int));
                    assert(canonical_form(n)[i as int] == hex_char_of(d as u128));
                }
                r.append(hex_str(d));
                proof {
                    assert(r@ =~= canonical_form(n).subrange(0, i as int + 1));
                }
            }
            i += 1;
        }
        proof {
            assert(canonical_form(n).subrange(0, 36) =~= canonical_form(n));
        }
        r
    }
}

/// Parses the canonical string form of an identifier, accepting the
/// hexadecimal digits in either case; any other string is rejected.
pub fn parse_canonical(s: &str) -> (r: Option<FileId>)
    ensures
        r is Some <==> is_canonical_id(s@),
        r matches Some(id) ==> id@ == id_value_of(s@),
{
    let len: usize = s.unicode_len();
    if len != 36 {
        return None;
    }
    let mut value: u128 = 0;
    let mut i: usize = 0;
    while i < 36
        invariant
            i <= 36,
            s@.len() == 36,
            forall|j: int| 0 <= j < i ==> #[trigger] position_ok(s@, j),
            value == value_prefix(s@, digits_before(i as int)),
        decreases 36 - i,
    {
        let c = s.get_char(i);
        if i == 8 || i == 13 || i == 18 || i == 23 {
            if c != '-' {
                proof {
                    assert(!position_ok(s@, i as int));
                }
                return None;
            }
        } else {
            let d: u8 = match c {
                '0' => 0,
                '1' => 1,
                '2' => 2,
                '3' => 3,
                '4' => 4,
                '5' => 5,
                '6' => 6,
                '7' => 7,
                '8' => 8,
                '9' => 9,
                'a' | 'A' => 10,
                'b' | 'B' => 11,
                'c' | 'C' => 12,
                'd' | 'D' => 13,
                'e' | 'E' => 14,
                'f' | 'F' => 15,
                _ => {
                    proof {
                        assert(!is_hex_digit(s@[i as int]));
                        assert(!position_ok(s@, i as int));
                    }
                    return None;
                },
            };
            proof {
                assert(is_hex_digit(s@[i as int]));
                assert(d as u128 == hex_value_of(s@[i as int]));
                assert(digit_position_of(digits_before(i as int)) == i as int);
            }
            value = (value << 4) | (d as u128);
            proof {
                assert(value == value_prefix(s@, digits_before(i as int) + 1));
            }
        }
        proof {
            assert(digits_before(i as int + 1) == if is_hyphen_position(i as int) {
                digits_before(i as int)
            } else {
                digits_before(i as int) + 1
            });
        }
        i += 1;
    }
    proof {
        assert(is_canonical_id(s@));
        assert(value == id_value_of(s@));
    }
    Some(FileId(value))
}

/// Relies on `uuid::Uuid::new_v4` for a freshly generated random
/// version-4 identifier, and on `Uuid::as_u128` for its 128 bits in
/// big-endian digit order. The value is random, so nothing is promised
/// of its spread; only the version and variant bits are fixed by the
/// generator.
#[verifier::external_body]
pub(crate) fn fresh_file_id() -> (r: FileId)
    ensures
        nibble_of(r@, 12) == 4,
        (r@ >> 62) & 3 == 2,
{
    FileId(uuid::Uuid::new_v4().as_u128())
}

} // verus!
