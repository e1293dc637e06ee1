//! Byte-level lexing of request fields: hexadecimal strings and
//! space-separated lists.

use vstd::prelude::*;

verus! {

/// The byte that separates the entries of a list.
pub const SPACE: u8 = 0x20;

/// `b` is an ASCII hexadecimal digit, in either case.
pub open spec fn is_hex_digit(b: u8) -> bool {
    (0x30 <= b && b <= 0x39) || (0x41 <= b && b <= 0x46) || (0x61 <= b && b <= 0x66)
}

/// `b` is a visible ASCII character (no space, no control character).
pub open spec fn is_visible(b: u8) -> bool {
    0x21 <= b && b <= 0x7e
}

/// Every byte of `s` is a hexadecimal digit.
pub open spec fn is_hex(s: Seq<u8>) -> bool {
    forall|i: int| 0 <= i < s.len() ==> is_hex_digit(#[trigger] s[i])
}

/// `s` is the hexadecimal encoding of exactly `n` bytes.
pub open spec fn is_hex_of_len(s: Seq<u8>, n: int) -> bool {
    s.len() == 2 * n && is_hex(s)
}

/// `s` is the hexadecimal text of a compressed point: 33 bytes, the first
/// of them 02 or 03.
pub open spec fn is_compressed_point(s: Seq<u8>) -> bool {
    is_hex_of_len(s, 33) && s[0] == 0x30 && (s[1] == 0x32 || s[1] == 0x33)
}

/// Every byte of `s` is a separator or a hexadecimal digit.
pub open spec fn is_hex_list(s: Seq<u8>) -> bool {
    forall|i: int| 0 <= i < s.len() ==> (#[trigger] s[i]) == SPACE || is_hex_digit(s[i])
}

/// Every byte of `s` is a separator or a visible ASCII character.
pub open spec fn is_visible_list(s: Seq<u8>) -> bool {
    forall|i: int| 0 <= i < s.len() ==> (#[trigger] s[i]) == SPACE || is_visible(s[i])
}

/// An entry of the list `s` begins at position `i`.
pub open spec fn is_field_start(s: Seq<u8>, i: int) -> bool {
    0 <= i < s.len() && s[i] != SPACE && (i == 0 || s[i - 1] == SPACE)
}

/// The number of entries of `s` that begin before position `upto`.
pub open spec fn fields_before(s: Seq<u8>, upto: int) -> nat
    decreases upto,
{
    if upto <= 0 {
        0
    } else {
        fields_before(s, upto - 1) + if is_field_start(s, upto - 1) { 1nat } else { 0nat }
    }
}

/// The number of entries of the list `s`: its maximal runs of bytes other
/// than the separator.
pub open spec fn field_count(s: Seq<u8>) -> nat {
    fields_before(s, s.len() as int)
}

/// The entry that begins at `i` is exactly `w` bytes long.
pub open spec fn field_spans(s: Seq<u8>, i: int, w: int) -> bool {
    &&& i + w <= s.len()
    &&& forall|j: int| i <= j < i + w ==> (#[trigger] s[j]) != SPACE
    &&& (i + w == s.len() || s[i + w] == SPACE)
}

/// Every entry of the list `s` is exactly `w` bytes long.
pub open spec fn fields_have_width(s: Seq<u8>, w: int) -> bool {
    forall|i: int| #[trigger] is_field_start(s, i) ==> field_spans(s, i, w)
}

/// `b` is an ASCII decimal digit.
pub open spec fn is_digit(b: u8) -> bool {
    0x30 <= b && b <= 0x39
}

/// Among the `w` bytes from position `i` on, as far as `s` reaches, there is
/// a decimal digit.
pub open spec fn field_has_digit(s: Seq<u8>, i: int, w: int) -> bool {
    exists|j: int| i <= j < i + w && j < s.len() && is_digit(#[trigger] s[j])
}

/// Every entry of the list `s` holds a decimal digit among its first `w`
/// bytes.
pub open spec fn fields_have_digit(s: Seq<u8>, w: int) -> bool {
    forall|i: int| #[trigger] is_field_start(s, i) ==> field_has_digit(s, i, w)
}

/// Every byte of `s` is ASCII.
pub open spec fn is_ascii_bytes(s: Seq<u8>) -> bool {
    forall|i: int| 0 <= i < s.len() ==> (#[trigger] s[i]) < 0x80
}

/// The lower-case hexadecimal digit of a value below 16.
pub open spec fn hex_char(n: int) -> u8 {
    if n < 10 {
        (0x30 + n) as u8
    } else {
        (0x57 + n) as u8
    }
}

/// The lower-case hexadecimal encoding of `b`: two digits per byte, the
/// high half first.
pub open spec fn hex_text(b: Seq<u8>) -> Seq<u8> {
    Seq::new(
        2 * b.len(),
        |i: int|
            if i % 2 == 0 {
                hex_char(b[i / 2] as int / 16)
            } else {
                hex_char(b[i / 2] as int % 16)
            },
    )
}

/// `b` is a character of the base58 alphabet.
pub open spec fn is_base58(b: u8) -> bool {
    (0x31 <= b && b <= 0x39) || (0x41 <= b && b <= 0x48) || (0x4a <= b && b <= 0x4e) || (0x50
        <= b && b <= 0x5a) || (0x61 <= b && b <= 0x6b) || (0x6d <= b && b <= 0x7a)
}

/// `s` is a serialized extended public key: 111 characters of base58, of
/// which the first four read `tpub` on a test network and `xpub` on the
/// main network.
pub open spec fn is_xpub_text(s: Seq<u8>, test: bool) -> bool {
    &&& s.len() == 111
    &&& forall|i: int| 0 <= i < s.len() ==> is_base58(#[trigger] s[i])
    &&& s[0] == if test { 0x74u8 } else { 0x78u8 }
    &&& s[1] == 0x70
    &&& s[2] == 0x75
    &&& s[3] == 0x62
}

/// The value of a hexadecimal digit.
pub open spec fn hex_value(c: u8) -> int {
    if 0x30 <= c && c <= 0x39 {
        c - 0x30
    } else if 0x41 <= c && c <= 0x46 {
        c - 0x37
    } else {
        c - 0x57
    }
}

/// The bytes that the hexadecimal text `s` encodes.
pub open spec fn unhex(s: Seq<u8>) -> Seq<u8> {
    Seq::new(
        (s.len() / 2) as nat,
        |i: int| (16 * hex_value(s[2 * i]) + hex_value(s[2 * i + 1])) as u8,
    )
}

/// From position `from` on, `a` read as a big-endian number is not above
/// `b`, both of one length.
pub open spec fn not_above(a: Seq<u8>, b: Seq<u8>, from: int) -> bool
    decreases a.len() - from,
{
    if from < 0 || from >= a.len() || from >= b.len() {
        true
    } else if a[from] < b[from] {
        true
    } else if a[from] > b[from] {
        false
    } else {
        not_above(a, b, from + 1)
    }
}

/// Half the order of the secp256k1 group, rounded down, big-endian.
pub open spec fn half_order() -> Seq<u8> {
    seq![
        0x7fu8, 0xff, 0xff, 0xff, 0xff, 0xff, 0xff, 0xff, 0xff, 0xff, 0xff, 0xff, 0xff, 0xff, 0xff,
        0xff, 0x5d, 0x57, 0x6e, 0x73, 0x57, 0xa4, 0x50, 0x1d, 0xdf, 0xe9, 0x2f, 0x46, 0x68, 0x1b,
        0x20, 0xa0,
    ]
}

/// `b` is an ECDSA signature in DER followed by the sighash byte for all
/// inputs and outputs: a sequence of two integers `r` and `s` with
/// consistent lengths, of which `s` is at most half the group order.
pub open spec fn is_der_signature(b: Seq<u8>) -> bool {
    let lr = b[3] as int;
    let ls = b[5 + lr] as int;
    &&& 9 <= b.len() <= 73
    &&& b[0] == 0x30
    &&& b[1] as int == b.len() - 3
    &&& b[2] == 0x02
    &&& 1 <= lr
    &&& 5 + lr < b.len()
    &&& b[4 + lr] == 0x02
    &&& 1 <= ls
    &&& 7 + lr + ls == b.len()
    &&& b[b.len() - 1] == 0x01
    &&& ls <= 32
    &&& (ls < 32 || not_above(b.subrange(6 + lr, 6 + lr + ls), half_order(), 0))
}

/// `s` is the hexadecimal text of such a signature.
pub open spec fn is_der_signature_text(s: Seq<u8>) -> bool {
    is_hex(s) && s.len() % 2 == 0 && is_der_signature(unhex(s))
}

/// `p` is a prefix of `s`.
pub open spec fn has_prefix(s: Seq<u8>, p: Seq<u8>) -> bool {
    p.len() <= s.len() && s.subrange(0, p.len() as int) == p
}

pub fn hex_digit(b: u8) -> (r: bool)
    ensures
        r == is_hex_digit(b),
{
    (0x30 <= b && b <= 0x39) || (0x41 <= b && b <= 0x46) || (0x61 <= b && b <= 0x66)
}

/// Tells whether `s` holds hexadecimal digits only.
pub fn all_hex(s: &[u8]) -> (r: bool)
    ensures
        r == is_hex(s@),
{
    let mut i: usize = 0;
    while i < s.len()
        invariant
            i <= s.len(),
            forall|k: int| 0 <= k < i ==> is_hex_digit(#[trigger] s@[k]),
        decreases s.len() - i,
    {
        if !hex_digit(s[i]) {
            return false;
        }
        i += 1;
    }
    true
}

/// Tells whether `s` is the hexadecimal encoding of exactly `n` bytes.
pub fn hex_of_len(s: &[u8], n: usize) -> (r: bool)
    ensures
        r == is_hex_of_len(s@, n as int),
{
    s.len() % 2 == 0 && s.len() / 2 == n && all_hex(s)
}

/// Tells whether `s` is the hexadecimal text of a compressed point.
pub fn compressed_point(s: &[u8]) -> (r: bool)
    ensures
        r == is_compressed_point(s@),
{
    hex_of_len(s, 33) && s[0] == 0x30 && (s[1] == 0x32 || s[1] == 0x33)
}

/// Tells whether `s` holds separators and hexadecimal digits only.
pub fn hex_list(s: &[u8]) -> (r: bool)
    ensures
        r == is_hex_list(s@),
{
    let mut i: usize = 0;
    while i < s.len()
        invariant
            i <= s.len(),
            forall|k: int| 0 <= k < i ==> (#[trigger] s@[k]) == SPACE || is_hex_digit(s@[k]),
        decreases s.len() - i,
    {
        if s[i] != SPACE && !hex_digit(s[i]) {
            return false;
        }
        i += 1;
    }
    true
}

/// Tells whether `s` holds separators and visible ASCII characters only.
pub fn visible_list(s: &[u8]) -> (r: bool)
    ensures
        r == is_visible_list(s@),
{
    let mut i: usize = 0;
    while i < s.len()
        invariant
            i <= s.len(),
            forall|k: int| 0 <= k < i ==> (#[trigger] s@[k]) == SPACE || is_visible(s@[k]),
        decreases s.len() - i,
    {
        let b: u8 = s[i];
        if b != SPACE && !(0x21 <= b && b <= 0x7e) {
            return false;
        }
        i += 1;
    }
    true
}

/// Counts the entries of the list `s`.
pub fn count_fields(s: &[u8]) -> (n: usize)
    ensures
        n == field_count(s@),
{
    let mut n: usize = 0;
    let mut i: usize = 0;
    while i < s.len()
        invariant
            i <= s.len(),
            n <= i,
            n == fields_before(s@, i as int),
        decreases s.len() - i,
    {
        if s[i] != SPACE && (i == 0 || s[i - 1] == SPACE) {
            n += 1;
        }
        i += 1;
    }
    n
}

/// Tells whether the entry that begins at `i` is exactly `w` bytes long.
fn spans(s: &[u8], i: usize, w: usize) -> (r: bool)
    requires
        i < s.len(),
    ensures
        r == field_spans(s@, i as int, w as int),
{
    if w > s.len() - i {
        return false;
    }
    let end: usize = i + w;
    let mut j: usize = i;
    while j < end
        invariant
            i <= j <= end,
            end == i + w,
            end <= s.len(),
            forall|k: int| i <= k < j ==> (#[trigger] s@[k]) != SPACE,
        decreases end - j,
    {
        if s[j] == SPACE {
            return false;
        }
        j += 1;
    }
    end == s.len() || s[end] == SPACE
}

/// Tells whether every entry of the list `s` is exactly `w` bytes long.
pub fn check_width(s: &[u8], w: usize) -> (r: bool)
    ensures
        r == fields_have_width(s@, w as int),
{
    let mut i: usize = 0;
    while i < s.len()
        invariant
            i <= s.len(),
            forall|k: int| 0 <= k < i && #[trigger] is_field_start(s@, k) ==> field_spans(s@, k, w as int),
        decreases s.len() - i,
    {
        if s[i] != SPACE && (i == 0 || s[i - 1] == SPACE) {
            if !spans(s, i, w) {
                assert(is_field_start(s@, i as int));
                return false;
            }
        }
        i += 1;
    }
    true
}

/// Tells whether every entry of the list `s` holds a decimal digit among
/// its first `w` bytes.
pub fn check_digits(s: &[u8], w: usize) -> (r: bool)
    ensures
        r == fields_have_digit(s@, w as int),
{
    let mut i: usize = 0;
    while i < s.len()
        invariant
            i <= s.len(),
            forall|k: int|
                0 <= k < i && #[trigger] is_field_start(s@, k) ==> field_has_digit(
                    s@,
                    k,
                    w as int,
                ),
        decreases s.len() - i,
    {
        if s[i] != SPACE && (i == 0 || s[i - 1] == SPACE) {
            assert(is_field_start(s@, i as int));
            let end: usize = if w > s.len() - i {
                s.len()
            } else {
                i + w
            };
            let mut j: usize = i;
            let mut found: bool = false;
            while j < end
                invariant
                    i <= j <= end,
                    end <= s.len(),
                    end <= i + w,
                    end == s.len() || end == i + w,
                    found == exists|m: int| i <= m < j && is_digit(#[trigger] s@[m]),
                decreases end - j,
            {
                let b: u8 = s[j];
                if 0x30 <= b && b <= 0x39 {
                    found = true;
                }
                j += 1;
            }
            if !found {
                return false;
            }
        }
        i += 1;
    }
    true
}

fn nibble(n: u8) -> (c: u8)
    requires
        n < 16,
    ensures
        c == hex_char(n as int),
        is_hex_digit(c),
{
    if n < 10 {
        0x30 + n
    } else {
        0x57 + n
    }
}

/// Encodes `b` in lower-case hexadecimal digits.
pub fn to_hex(b: &[u8]) -> (r: Vec<u8>)
    ensures
        r@ == hex_text(b@),
        is_hex(r@),
        is_ascii_bytes(r@),
        r@.len() == 2 * b@.len(),
{
    let mut out: Vec<u8> = Vec::new();
    let mut i: usize = 0;
    while i < b.len()
        invariant
            i <= b.len(),
            out@.len() == 2 * i,
            forall|k: int| 0 <= k < out@.len() ==> (#[trigger] out@[k]) == hex_text(b@)[k],
            forall|k: int| 0 <= k < out@.len() ==> is_hex_digit(#[trigger] out@[k]),
        decreases b.len() - i,
    {
        let hi: u8 = nibble(b[i] / 16);
        let lo: u8 = nibble(b[i] % 16);
        out.push(hi);
        out.push(lo);
        i += 1;
    }
    assert(out@ =~= hex_text(b@));
    out
}

/// Tells whether `s` is a serialized extended public key of the network.
pub fn xpub_text(s: &[u8], test: bool) -> (r: bool)
    ensures
        r == is_xpub_text(s@, test),
{
    if s.len() != 111 {
        return false;
    }
    let first: u8 = if test { 0x74 } else { 0x78 };
    if s[0] != first || s[1] != 0x70 || s[2] != 0x75 || s[3] != 0x62 {
        return false;
    }
    let mut i: usize = 0;
    while i < s.len()
        invariant
            i <= s.len(),
            forall|k: int| 0 <= k < i ==> is_base58(#[trigger] s@[k]),
        decreases s.len() - i,
    {
        let b: u8 = s[i];
        if !((0x31 <= b && b <= 0x39) || (0x41 <= b && b <= 0x48) || (0x4a <= b && b <= 0x4e)
            || (0x50 <= b && b <= 0x5a) || (0x61 <= b && b <= 0x6b) || (0x6d <= b && b <= 0x7a)) {
            return false;
        }
        i += 1;
    }
    true
}

fn digit_value(c: u8) -> (v: u8)
    requires
        is_hex_digit(c),
    ensures
        v == hex_value(c),
        v < 16,
{
    if 0x30 <= c && c <= 0x39 {
        c - 0x30
    } else if 0x41 <= c && c <= 0x46 {
        c - 0x37
    } else {
        c - 0x57
    }
}

/// Decodes hexadecimal text of whole bytes; `None` for any other text.
pub fn from_hex(s: &[u8]) -> (r: Option<Vec<u8>>)
    ensures
        match r {
            Some(b) => is_hex(s@) && s@.len() % 2 == 0 && b@ == unhex(s@),
            None => !(is_hex(s@) && s@.len() % 2 == 0),
        },
{
    if s.len() % 2 != 0 || !all_hex(s) {
        return None;
    }
    let n: usize = s.len() / 2;
    let mut out: Vec<u8> = Vec::new();
    let mut i: usize = 0;
    while i < n
        invariant
            i <= n,
            n == s.len() / 2,
            s.len() % 2 == 0,
            is_hex(s@),
            out@.len() == i,
            forall|k: int| 0 <= k < i ==> (#[trigger] out@[k]) == unhex(s@)[k],
        decreases n - i,
    {
        let hi: u8 = digit_value(s[2 * i]);
        let lo: u8 = digit_value(s[2 * i + 1]);
        out.push(16 * hi + lo);
        i += 1;
    }
    assert(out@ =~= unhex(s@));
    Some(out)
}

/// Tells whether the bytes of `b` from `at` on, as many as `bound` has, are
/// not above `bound` as a big-endian number.
fn within(b: &[u8], at: usize, bound: &[u8]) -> (r: bool)
    requires
        at + bound.len() <= b.len(),
    ensures
        r == not_above(b@.subrange(at as int, at + bound@.len()), bound@, 0),
{
    let ghost part = b@.subrange(at as int, at + bound@.len());
    let mut i: usize = 0;
    while i < bound.len()
        invariant
            i <= bound.len(),
            at + bound.len() <= b.len(),
            part == b@.subrange(at as int, at + bound@.len()),
            not_above(part, bound@, 0) == not_above(part, bound@, i as int),
        decreases bound.len() - i,
    {
        assert(part[i as int] == b@[at + i]);
        if b[at + i] < bound[i] {
            return true;
        }
        if b[at + i] > bound[i] {
            return false;
        }
        i += 1;
    }
    true
}

/// Tells whether `b` is a DER signature with its sighash byte and a low `s`.
pub fn der_signature(b: &[u8]) -> (r: bool)
    ensures
        r == is_der_signature(b@),
{
    let n: usize = b.len();
    if n < 9 || n > 73 {
        return false;
    }
    if b[0] != 0x30 || b[1] as usize != n - 3 || b[2] != 0x02 {
        return false;
    }
    let lr: usize = b[3] as usize;
    if lr < 1 || 5 + lr >= n {
        return false;
    }
    if b[4 + lr] != 0x02 {
        return false;
    }
    let ls: usize = b[5 + lr] as usize;
    if ls < 1 || 7 + lr + ls != n || b[n - 1] != 0x01 || ls > 32 {
        return false;
    }
    if ls < 32 {
        return true;
    }
    let half: Vec<u8> = vec![
        0x7fu8, 0xff, 0xff, 0xff, 0xff, 0xff, 0xff, 0xff, 0xff, 0xff, 0xff, 0xff, 0xff, 0xff, 0xff,
        0xff, 0x5d, 0x57, 0x6e, 0x73, 0x57, 0xa4, 0x50, 0x1d, 0xdf, 0xe9, 0x2f, 0x46, 0x68, 0x1b,
        0x20, 0xa0,
    ];
    assert(half@ =~= half_order());
    within(b, 6 + lr, half.as_slice())
}

/// Tells whether `s` is the hexadecimal text of such a signature.
pub fn der_signature_text(s: &[u8]) -> (r: bool)
    ensures
        r == is_der_signature_text(s@),
{
    match from_hex(s) {
        Some(b) => der_signature(b.as_slice()),
        None => false,
    }
}

/// Tells whether `s` begins with `p`.
pub fn starts_with(s: &[u8], p: &[u8]) -> (r: bool)
    ensures
        r == has_prefix(s@, p@),
{
    if p.len() > s.len() {
        return false;
    }
    let mut i: usize = 0;
    while i < p.len()
        invariant
            i <= p.len(),
            p.len() <= s.len(),
            forall|k: int| 0 <= k < i ==> s@[k] == p@[k],
        decreases p.len() - i,
    {
        if s[i] != p[i] {
            assert(s@.subrange(0, p@.len() as int)[i as int] == s@[i as int]);
            return false;
        }
        i += 1;
    }
    assert(s@.subrange(0, p@.len() as int) =~= p@);
    true
}

/// Tells whether `a` and `b` hold the same bytes.
pub fn same_bytes(a: &[u8], b: &[u8]) -> (r: bool)
    ensures
        r == (a@ == b@),
{
    if a.len() != b.len() {
        return false;
    }
    let r = starts_with(a, b);
    assert(a@.subrange(0, a@.len() as int) =~= a@);
    r
}

} // verus!
