use vstd::prelude::*;
use crate::error::IdentifierError;

verus! {

/// `c` is a hexadecimal digit, in upper or in lower case.
pub open spec fn is_hex_digit(c: char) -> bool {
    ('0' <= c && c <= '9') || ('a' <= c && c <= 'f') || ('A' <= c && c <= 'F')
}

/// The number a hexadecimal digit stands for; upper and lower case count alike.
pub open spec fn hex_value(c: char) -> nat {
    if '0' <= c && c <= '9' {
        (c as nat - '0' as nat) as nat
    } else if 'a' <= c && c <= 'f' {
        (c as nat - 'a' as nat + 10) as nat
    } else {
        (c as nat - 'A' as nat + 10) as nat
    }
}

/// The number that a run of hexadecimal digits spells, most significant digit first.
pub open spec fn hex_number(digits: Seq<char>) -> nat
    decreases digits.len(),
{
    if digits.len() == 0 {
        0
    } else {
        16 * hex_number(digits.drop_last()) + hex_value(digits.last())
    }
}

/// The `n` low bytes of `v`, least significant byte first.
pub open spec fn le_bytes(v: nat, n: nat) -> Seq<u8>
    decreases n,
{
    if n == 0 {
        Seq::empty()
    } else {
        seq![(v % 256) as u8] + le_bytes(v / 256, (n - 1) as nat)
    }
}

/// The `n` low bytes of `v`, most significant byte first.
pub open spec fn be_bytes(v: nat, n: nat) -> Seq<u8>
    decreases n,
{
    if n == 0 {
        Seq::empty()
    } else {
        be_bytes(v / 256, (n - 1) as nat).push((v % 256) as u8)
    }
}

/// Where the four hyphens of the canonical form stand.
pub open spec fn is_hyphen_position(k: int) -> bool {
    k == 8 || k == 13 || k == 18 || k == 23
}

/// The canonical form: groups of 8, 4, 4, 4 and 12 hexadecimal digits with a
/// hyphen between neighbours, and nothing else.
pub open spec fn is_guid_text(w: Seq<char>) -> bool {
    &&& w.len() == 36
    &&& forall|k: int|
        0 <= k < 36 ==> if is_hyphen_position(k) {
            #[trigger] w[k] == '-'
        } else {
            is_hex_digit(w[k])
        }
}

/// The binary layout of an identifier in canonical form: the first three groups
/// as little-endian integers of 4, 2 and 2 bytes, then the fourth and the fifth
/// group as big-endian integers of 2 and 6 bytes.
pub open spec fn guid_bytes(w: Seq<char>) -> Seq<u8> {
    le_bytes(hex_number(w.subrange(0, 8)), 4) + le_bytes(hex_number(w.subrange(9, 13)), 2)
        + le_bytes(hex_number(w.subrange(14, 18)), 2) + be_bytes(
        hex_number(w.subrange(19, 23)),
        2,
    ) + be_bytes(hex_number(w.subrange(24, 36)), 6)
}

/// What a text is read as: the layout of the identifier if the whole text
/// is an identifier in canonical form, and nothing for any other text.
pub open spec fn parsed_guid(text: Seq<char>) -> Option<Seq<u8>> {
    if is_guid_text(text) {
        Some(guid_bytes(text))
    } else {
        None
    }
}

/// The byte that the two hexadecimal digits at `k` and `k + 1` spell.
pub open spec fn octet(w: Seq<char>, k: int) -> u8 {
    (16 * hex_value(w[k]) + hex_value(w[k + 1])) as u8
}

/// Where in the canonical form the two digits of byte `i` of the layout begin.
pub open spec fn digits_of_byte(i: int) -> int {
    if i < 4 {
        6 - 2 * i
    } else if i < 6 {
        19 - 2 * i
    } else if i < 8 {
        28 - 2 * i
    } else if i < 10 {
        3 + 2 * i
    } else {
        4 + 2 * i
    }
}

proof fn lemma_hex_value_bound(c: char)
    requires
        is_hex_digit(c),
    ensures
        hex_value(c) < 16,
{
}

proof fn lemma_hex_number_last_two(s: Seq<char>)
    requires
        s.len() >= 2,
    ensures
        hex_number(s) == 256 * hex_number(s.take(s.len() - 2)) + 16 * hex_value(s[s.len() - 2])
            + hex_value(s[s.len() - 1]),
{
    let t = s.drop_last();
    assert(t.drop_last() =~= s.take(s.len() - 2));
    assert(hex_number(s) == 16 * hex_number(t) + hex_value(s.last()));
    assert(hex_number(t) == 16 * hex_number(t.drop_last()) + hex_value(t.last()));
}

proof fn lemma_be_bytes_of_digits(s: Seq<char>, n: nat)
    requires
        s.len() == 2 * n,
        forall|k: int| 0 <= k < s.len() ==> is_hex_digit(#[trigger] s[k]),
    ensures
        be_bytes(hex_number(s), n).len() == n,
        forall|j: int| 0 <= j < n ==> #[trigger] be_bytes(hex_number(s), n)[j] == octet(s, 2 * j),
    decreases n,
{
    if n > 0 {
        let t = s.take(s.len() - 2);
        let m = (n - 1) as nat;
        lemma_hex_number_last_two(s);
        lemma_be_bytes_of_digits(t, m);
        lemma_hex_value_bound(s[s.len() - 2]);
        lemma_hex_value_bound(s[s.len() - 1]);
        let low = 16 * hex_value(s[s.len() - 2]) + hex_value(s[s.len() - 1]);
        let v = hex_number(s);
        assert(v == 256 * hex_number(t) + low);
        assert(v / 256 == hex_number(t) && v % 256 == low);
        assert forall|j: int| 0 <= j < n implies #[trigger] be_bytes(v, n)[j] == octet(
            s,
            2 * j,
        ) by {
            if j < m {
                assert(be_bytes(v, n)[j] == be_bytes(hex_number(t), m)[j]);
                assert(t[2 * j] == s[2 * j] && t[2 * j + 1] == s[2 * j + 1]);
            }
        }
    }
}

proof fn lemma_le_bytes_of_digits(s: Seq<char>, n: nat)
    requires
        s.len() == 2 * n,
        forall|k: int| 0 <= k < s.len() ==> is_hex_digit(#[trigger] s[k]),
    ensures
        le_bytes(hex_number(s), n).len() == n,
        forall|j: int|
            0 <= j < n ==> #[trigger] le_bytes(hex_number(s), n)[j] == octet(s, 2 * (n - 1 - j)),
    decreases n,
{
    if n > 0 {
        let t = s.take(s.len() - 2);
        let m = (n - 1) as nat;
        lemma_hex_number_last_two(s);
        lemma_le_bytes_of_digits(t, m);
        lemma_hex_value_bound(s[s.len() - 2]);
        lemma_hex_value_bound(s[s.len() - 1]);
        let low = 16 * hex_value(s[s.len() - 2]) + hex_value(s[s.len() - 1]);
        let v = hex_number(s);
        assert(v == 256 * hex_number(t) + low);
        assert(v / 256 == hex_number(t) && v % 256 == low);
        assert forall|j: int| 0 <= j < n implies #[trigger] le_bytes(v, n)[j] == octet(
            s,
            2 * (n - 1 - j),
        ) by {
            if j > 0 {
                assert(le_bytes(v, n)[j] == le_bytes(hex_number(t), m)[j - 1]);
                let p = 2 * (m - 1 - (j - 1));
                assert(t[p] == s[p] && t[p + 1] == s[p + 1]);
            }
        }
    }
}

/// A stretch of the canonical form that holds no hyphen holds hexadecimal
/// digits only.
proof fn lemma_group_digits(w: Seq<char>, from: int, to: int)
    requires
        is_guid_text(w),
        0 <= from <= to <= 36,
        forall|k: int| from <= k < to ==> !is_hyphen_position(k),
    ensures
        forall|k: int| 0 <= k < to - from ==> is_hex_digit(#[trigger] w.subrange(from, to)[k]),
{
    assert forall|k: int| 0 <= k < to - from implies is_hex_digit(
        #[trigger] w.subrange(from, to)[k],
    ) by {
        assert(w.subrange(from, to)[k] == w[from + k]);
    }
}

/// Byte `i` of the layout is spelled by the two digits that begin at
/// `digits_of_byte(i)`: the first three groups are read from their last pair
/// of digits to their first, the last two groups from first to last.
pub proof fn lemma_guid_bytes_by_digits(w: Seq<char>)
    requires
        is_guid_text(w),
    ensures
        guid_bytes(w).len() == 16,
        forall|i: int| 0 <= i < 16 ==> #[trigger] guid_bytes(w)[i] == octet(w, digits_of_byte(i)),
{
    let g1 = w.subrange(0, 8);
    let g2 = w.subrange(9, 13);
    let g3 = w.subrange(14, 18);
    let g4 = w.subrange(19, 23);
    let g5 = w.subrange(24, 36);
    lemma_group_digits(w, 0, 8);
    lemma_group_digits(w, 9, 13);
    lemma_group_digits(w, 14, 18);
    lemma_group_digits(w, 19, 23);
    lemma_group_digits(w, 24, 36);
    lemma_le_bytes_of_digits(g1, 4);
    lemma_le_bytes_of_digits(g2, 2);
    lemma_le_bytes_of_digits(g3, 2);
    lemma_be_bytes_of_digits(g4, 2);
    lemma_be_bytes_of_digits(g5, 6);
    let b1 = le_bytes(hex_number(g1), 4);
    let b2 = le_bytes(hex_number(g2), 2);
    let b3 = le_bytes(hex_number(g3), 2);
    let b4 = be_bytes(hex_number(g4), 2);
    let b5 = be_bytes(hex_number(g5), 6);
    assert(guid_bytes(w) == b1 + b2 + b3 + b4 + b5);
    assert forall|i: int| 0 <= i < 16 implies #[trigger] guid_bytes(w)[i] == octet(
        w,
        digits_of_byte(i),
    ) by {
        let p = digits_of_byte(i);
        if i < 4 {
            assert(guid_bytes(w)[i] == b1[i]);
            assert(g1[p] == w[p] && g1[p + 1] == w[p + 1]);
        } else if i < 6 {
            assert(guid_bytes(w)[i] == b2[i - 4]);
            assert(g2[p - 9] == w[p] && g2[p - 8] == w[p + 1]);
        } else if i < 8 {
            assert(guid_bytes(w)[i] == b3[i - 6]);
            assert(g3[p - 14] == w[p] && g3[p - 13] == w[p + 1]);
        } else if i < 10 {
            assert(guid_bytes(w)[i] == b4[i - 8]);
            assert(g4[p - 19] == w[p] && g4[p - 18] == w[p + 1]);
        } else {
            assert(guid_bytes(w)[i] == b5[i - 10]);
            assert(g5[p - 24] == w[p] && g5[p - 23] == w[p + 1]);
        }
    }
}

/// The layout of an identifier in canonical form is `expected` if each of
/// the 16 bytes of `expected` is spelled by its two digits.
pub proof fn lemma_guid_bytes_are(w: Seq<char>, expected: Seq<u8>)
    requires
        is_guid_text(w),
        expected.len() == 16,
        forall|i: int| 0 <= i < 16 ==> #[trigger] expected[i] == octet(w, digits_of_byte(i)),
    ensures
        guid_bytes(w) == expected,
{
    lemma_guid_bytes_by_digits(w);
    assert(guid_bytes(w) =~= expected);
}

fn chars_of(text: &str) -> (chars: Vec<char>)
    ensures
        chars@ == text@,
{
    let mut chars: Vec<char> = Vec::new();
    for c in it: text.chars()
        invariant
            it.seq() == text@,
            chars@ == it.seq().take(it.index() as int),
    {
        chars.push(c);
        assert(chars@ == it.seq().take(it.index() + 1));
    }
    assert(chars@ == text@);
    chars
}

fn hex_digit(c: char) -> (v: Option<u8>)
    ensures
        v is Some <==> is_hex_digit(c),
        v matches Some(d) ==> d == hex_value(c),
{
    if '0' <= c && c <= '9' {
        Some((c as u32 - '0' as u32) as u8)
    } else if 'a' <= c && c <= 'f' {
        Some((c as u32 - 'a' as u32 + 10) as u8)
    } else if 'A' <= c && c <= 'F' {
        Some((c as u32 - 'A' as u32 + 10) as u8)
    } else {
        None
    }
}

fn is_hyphen_index(k: usize) -> (b: bool)
    ensures
        b == is_hyphen_position(k as int),
{
    k == 8 || k == 13 || k == 18 || k == 23
}

fn is_canonical(chars: &Vec<char>) -> (canonical: bool)
    ensures
        canonical == is_guid_text(chars@),
{
    if chars.len() != 36 {
        return false;
    }
    let mut k: usize = 0;
    while k < 36
        invariant
            k <= 36,
            chars.len() == 36,
            forall|j: int|
                0 <= j < k ==> if is_hyphen_position(j) {
                    #[trigger] chars@[j] == '-'
                } else {
                    is_hex_digit(chars@[j])
                },
        decreases 36 - k,
    {
        let c = chars[k];
        let fits = if is_hyphen_index(k) {
            c == '-'
        } else {
            hex_digit(c).is_some()
        };
        if !fits {
            return false;
        }
        k += 1;
    }
    true
}

fn octet_at(chars: &Vec<char>, k: usize) -> (b: u8)
    requires
        k + 1 < chars.len(),
        is_hex_digit(chars[k as int]),
        is_hex_digit(chars[k + 1]),
    ensures
        b == octet(chars@, k as int),
{
    let high = hex_digit(chars[k]).unwrap();
    let low = hex_digit(chars[k + 1]).unwrap();
    16 * high + low
}

fn digits_index(i: usize) -> (p: usize)
    requires
        i < 16,
    ensures
        p == digits_of_byte(i as int),
        p + 1 < 36,
        !is_hyphen_position(p as int),
        !is_hyphen_position(p + 1),
{
    if i < 4 {
        6 - 2 * i
    } else if i < 6 {
        19 - 2 * i
    } else if i < 8 {
        28 - 2 * i
    } else if i < 10 {
        3 + 2 * i
    } else {
        4 + 2 * i
    }
}

fn decode(chars: &Vec<char>) -> (data: [u8; 16])
    requires
        is_guid_text(chars@),
    ensures
        data@ == guid_bytes(chars@),
{
    let mut data = [0u8;16];
    let mut i: usize = 0;
    while i < 16
        invariant
            i <= 16,
            is_guid_text(chars@),
            forall|j: int| 0 <= j < i ==> #[trigger] data[j] == octet(chars@, digits_of_byte(j)),
        decreases 16 - i,
    {
        let p = digits_index(i);
        data[i] = octet_at(chars, p);
        i += 1;
    }
    proof {
        lemma_guid_bytes_are(chars@, data@);
    }
    data
}

/// Reads an identifier from its canonical form and gives its binary layout.
/// The whole text has to be the identifier: a text with anything before or
/// behind it, or with a group that is too long or too short, is malformed.
pub fn parse_guid_parts(text: &str) -> (parsed: Result<[u8; 16], IdentifierError>)
    ensures
        match parsed {
            Ok(data) => is_guid_text(text@) && data@ == guid_bytes(text@),
            Err(reason) => !is_guid_text(text@) && reason == IdentifierError::MalformedIdentifier,
        },
{
    let chars = chars_of(text);
    if is_canonical(&chars) {
        Ok(decode(&chars))
    } else {
        Err(IdentifierError::MalformedIdentifier)
    }
}

/// The lower-case hexadecimal digit for a number below 16.
pub open spec fn hex_char(n: nat) -> char {
    if n < 10 {
        ('0' as nat + n) as char
    } else {
        ('a' as nat + n - 10) as char
    }
}

/// The two digits that spell one byte, high half first.
pub open spec fn hex_pair(byte: u8) -> Seq<char> {
    seq![hex_char((byte / 16) as nat), hex_char((byte % 16) as nat)]
}

/// The digits that spell a run of bytes, two for each byte, in the order of the bytes.
pub open spec fn hex_text(bytes: Seq<u8>) -> Seq<char>
    decreases bytes.len(),
{
    if bytes.len() == 0 {
        Seq::empty()
    } else {
        hex_text(bytes.drop_last()) + hex_pair(bytes.last())
    }
}

/// The canonical form of a layout of 16 bytes, in lower case: the inverse of
/// `guid_bytes`. The bytes of the first three groups are written last byte
/// first, those of the other two in their order.
pub open spec fn guid_text(b: Seq<u8>) -> Seq<char> {
    hex_text(b.subrange(0, 4).reverse()) + seq!['-'] + hex_text(b.subrange(4, 6).reverse())
        + seq!['-'] + hex_text(b.subrange(6, 8).reverse()) + seq!['-'] + hex_text(
        b.subrange(8, 10),
    ) + seq!['-'] + hex_text(b.subrange(10, 16))
}

proof fn lemma_hex_char_is_digit(n: nat)
    requires
        n < 16,
    ensures
        is_hex_digit(hex_char(n)),
        hex_value(hex_char(n)) == n,
{
}

proof fn lemma_hex_text_digits(bytes: Seq<u8>)
    ensures
        hex_text(bytes).len() == 2 * bytes.len(),
        forall|j: int|
            0 <= j < bytes.len() ==> {
                &&& #[trigger] hex_text(bytes)[2 * j] == hex_char((bytes[j] / 16) as nat)
                &&& hex_text(bytes)[2 * j + 1] == hex_char((bytes[j] % 16) as nat)
            },
    decreases bytes.len(),
{
    if bytes.len() > 0 {
        lemma_hex_text_digits(bytes.drop_last());
        assert forall|j: int| 0 <= j < bytes.len() implies {
            &&& #[trigger] hex_text(bytes)[2 * j] == hex_char((bytes[j] / 16) as nat)
            &&& hex_text(bytes)[2 * j + 1] == hex_char((bytes[j] % 16) as nat)
        } by {
            if j < bytes.len() - 1 {
                assert(bytes.drop_last()[j] == bytes[j]);
                assert(hex_text(bytes)[2 * j] == hex_text(bytes.drop_last())[2 * j]);
            }
        }
    }
}

/// What stands at each place of the canonical form of `b`: hyphens where they
/// belong, and at `digits_of_byte(i)` the two digits of byte `i`.
pub proof fn lemma_guid_text_by_bytes(b: Seq<u8>)
    requires
        b.len() == 16,
    ensures
        guid_text(b).len() == 36,
        forall|k: int| 0 <= k < 36 && is_hyphen_position(k) ==> #[trigger] guid_text(b)[k] == '-',
        forall|i: int|
            0 <= i < 16 ==> {
                &&& #[trigger] guid_text(b)[digits_of_byte(i)] == hex_char((b[i] / 16) as nat)
                &&& guid_text(b)[digits_of_byte(i) + 1] == hex_char((b[i] % 16) as nat)
            },
{
    let r1 = b.subrange(0, 4).reverse();
    let r2 = b.subrange(4, 6).reverse();
    let r3 = b.subrange(6, 8).reverse();
    let r4 = b.subrange(8, 10);
    let r5 = b.subrange(10, 16);
    lemma_hex_text_digits(r1);
    lemma_hex_text_digits(r2);
    lemma_hex_text_digits(r3);
    lemma_hex_text_digits(r4);
    lemma_hex_text_digits(r5);
    let t = guid_text(b);
    assert(t.len() == 36);
    assert forall|i: int| 0 <= i < 16 implies {
        &&& #[trigger] t[digits_of_byte(i)] == hex_char((b[i] / 16) as nat)
        &&& t[digits_of_byte(i) + 1] == hex_char((b[i] % 16) as nat)
    } by {
        let p = digits_of_byte(i);
        if i < 4 {
            let j = 3 - i;
            assert(r1[j] == b[i]);
            assert(t[p] == hex_text(r1)[2 * j] && t[p + 1] == hex_text(r1)[2 * j + 1]);
        } else if i < 6 {
            let j = 5 - i;
            assert(r2[j] == b[i]);
            assert(t[p] == hex_text(r2)[2 * j] && t[p + 1] == hex_text(r2)[2 * j + 1]);
        } else if i < 8 {
            let j = 7 - i;
            assert(r3[j] == b[i]);
            assert(t[p] == hex_text(r3)[2 * j] && t[p + 1] == hex_text(r3)[2 * j + 1]);
        } else if i < 10 {
            let j = i - 8;
            assert(r4[j] == b[i]);
            assert(t[p] == hex_text(r4)[2 * j] && t[p + 1] == hex_text(r4)[2 * j + 1]);
        } else {
            let j = i - 10;
            assert(r5[j] == b[i]);
            assert(t[p] == hex_text(r5)[2 * j] && t[p + 1] == hex_text(r5)[2 * j + 1]);
        }
    }
}

/// The byte whose two digits hold place `k` of the canonical form.
spec fn byte_of_digit(k: int) -> int {
    if k < 8 {
        3 - k / 2
    } else if k < 13 {
        5 - (k - 9) / 2
    } else if k < 18 {
        7 - (k - 14) / 2
    } else if k < 23 {
        8 + (k - 19) / 2
    } else {
        10 + (k - 24) / 2
    }
}

/// The canonical form of any 16 bytes is well formed, and its layout is
/// those 16 bytes again.
pub proof fn lemma_guid_text_is_canonical(b: Seq<u8>)
    requires
        b.len() == 16,
    ensures
        is_guid_text(guid_text(b)),
        guid_bytes(guid_text(b)) == b,
{
    let t = guid_text(b);
    lemma_guid_text_by_bytes(b);
    assert forall|k: int| 0 <= k < 36 implies if is_hyphen_position(k) {
        #[trigger] t[k] == '-'
    } else {
        is_hex_digit(t[k])
    } by {
        if !is_hyphen_position(k) {
            let i = byte_of_digit(k);
            assert(0 <= i < 16);
            assert(k == digits_of_byte(i) || k == digits_of_byte(i) + 1);
            assert(t[digits_of_byte(i)] == hex_char((b[i] / 16) as nat));
            lemma_hex_char_is_digit((b[i] / 16) as nat);
            lemma_hex_char_is_digit((b[i] % 16) as nat);
        }
    }
    lemma_guid_bytes_by_digits(t);
    assert forall|i: int| 0 <= i < 16 implies guid_bytes(t)[i] == b[i] by {
        assert(t[digits_of_byte(i)] == hex_char((b[i] / 16) as nat));
        lemma_hex_char_is_digit((b[i] / 16) as nat);
        lemma_hex_char_is_digit((b[i] % 16) as nat);
        assert(guid_bytes(t)[i] == octet(t, digits_of_byte(i)));
    }
    assert(guid_bytes(t) =~= b);
}

/// Reading the canonical form of 16 bytes gives those 16 bytes.
pub proof fn lemma_parse_of_format(b: Seq<u8>)
    requires
        b.len() == 16,
    ensures
        parsed_guid(guid_text(b)) == Some(b),
{
    lemma_guid_text_is_canonical(b);
}

/// Round trip: whatever a text was read as, writing that in canonical form
/// and reading it again gives the same.
pub proof fn lemma_parse_format_parse(text: Seq<char>)
    requires
        parsed_guid(text) is Some,
    ensures
        parsed_guid(guid_text(parsed_guid(text)->0)) == parsed_guid(text),
{
    lemma_guid_bytes_by_digits(text);
    lemma_parse_of_format(parsed_guid(text)->0);
}

fn hex_digit_str(n: u8) -> (digit: &'static str)
    requires
        n < 16,
    ensures
        digit@ == seq![hex_char(n as nat)],
{
    proof {
        reveal_strlit("0");
        reveal_strlit("1");
        reveal_strlit("2");
        reveal_strlit("3");
        reveal_strlit("4");
        reveal_strlit("5");
        reveal_strlit("6");
        reveal_strlit("7");
        reveal_strlit("8");
        reveal_strlit("9");
        reveal_strlit("a");
        reveal_strlit("b");
        reveal_strlit("c");
        reveal_strlit("d");
        reveal_strlit("e");
        reveal_strlit("f");
    }
    let digit = match n {
        0 => "0",
        1 => "1",
        2 => "2",
        3 => "3",
        4 => "4",
        5 => "5",
        6 => "6",
        7 => "7",
        8 => "8",
        9 => "9",
        10 => "a",
        11 => "b",
        12 => "c",
        13 => "d",
        14 => "e",
        _ => "f",
    };
    assert(digit@ =~= seq![hex_char(n as nat)]);
    digit
}

fn append_hex_run(out: &mut String, data: &[u8; 16], first: usize, count: usize, backwards: bool)
    requires
        first + count <= 16,
    ensures
        final(out)@ == old(out)@ + hex_text(
            if backwards {
                data@.subrange(first as int, first + count).reverse()
            } else {
                data@.subrange(first as int, first + count)
            },
        ),
{
    let ghost run = if backwards {
        data@.subrange(first as int, first + count).reverse()
    } else {
        data@.subrange(first as int, first + count)
    };
    let mut j: usize = 0;
    assert(run.take(0) =~= Seq::<u8>::empty());
    while j < count
        invariant
            j <= count,
            first + count <= 16,
            run.len() == count,
            run == if backwards {
                data@.subrange(first as int, first + count).reverse()
            } else {
                data@.subrange(first as int, first + count)
            },
            out@ == old(out)@ + hex_text(run.take(j as int)),
        decreases count - j,
    {
        let byte = if backwards {
            data[first + count - 1 - j]
        } else {
            data[first + j]
        };
        assert(byte == run[j as int]);
        out.append(hex_digit_str(byte / 16));
        out.append(hex_digit_str(byte % 16));
        proof {
            let before = run.take(j as int);
            let after = run.take(j + 1);
            assert(after.drop_last() =~= before);
            assert(after.last() == byte);
            assert(hex_text(after) == hex_text(before) + hex_pair(byte));
            assert(out@ =~= old(out)@ + hex_text(after));
        }
        j += 1;
    }
    assert(run.take(count as int) =~= run);
}

/// Writes a layout of 16 bytes in canonical form, in lower case.
pub fn format_guid_parts(data: &[u8; 16]) -> (text: String)
    ensures
        text@ == guid_text(data@),
{
    let mut text = String::new();
    append_hex_run(&mut text, data, 0, 4, true);
    text.append("-");
    append_hex_run(&mut text, data, 4, 2, true);
    text.append("-");
    append_hex_run(&mut text, data, 6, 2, true);
    text.append("-");
    append_hex_run(&mut text, data, 8, 2, false);
    text.append("-");
    append_hex_run(&mut text, data, 10, 6, false);
    proof {
        reveal_strlit("-");
        assert("-"@ =~= seq!['-']);
        assert(text@ =~= guid_text(data@));
    }
    text
}

} // verus!
