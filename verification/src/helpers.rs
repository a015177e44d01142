//! Fixed-width text fields of the TLB container: stripping of padding bytes
//! and the decoding of space-padded decimal numbers.

use vstd::prelude::*;
use vstd::slice::{slice_subrange, slice_to_vec};
use vstd::utf8::{decode_utf8, encode_utf8_decode_utf8, valid_utf8};
use vstd::string::StringSliceAdditionalSpecFns;
use chrono::{Datelike, Timelike};

verus! {

/// Number of leading bytes of `s` that belong to `set`.
pub open spec fn leading_count(s: Seq<u8>, set: Seq<u8>) -> nat
    decreases s.len(),
{
    if s.len() > 0 && set.contains(s[0]) {
        1 + leading_count(s.drop_first(), set)
    } else {
        0
    }
}

/// `s` without its leading bytes that belong to `set`.
pub open spec fn strip_leading(s: Seq<u8>, set: Seq<u8>) -> Seq<u8> {
    s.skip(leading_count(s, set) as int)
}

pub proof fn lemma_leading_count_bound(s: Seq<u8>, set: Seq<u8>)
    ensures
        leading_count(s, set) <= s.len(),
        forall|i: int| 0 <= i < leading_count(s, set) ==> set.contains(#[trigger] s[i]),
        leading_count(s, set) < s.len() ==> !set.contains(s[leading_count(s, set) as int]),
    decreases s.len(),
{
    if s.len() > 0 && set.contains(s[0]) {
        lemma_leading_count_bound(s.drop_first(), set);
        assert forall|i: int| 0 <= i < leading_count(s, set) implies set.contains(#[trigger] s[i]) by {
            if i > 0 {
                assert(s[i] == s.drop_first()[i - 1]);
            }
        }
    }
}

/// Trimming leaves the bytes after the leading run of pad bytes: the input
/// is the stripped bytes, all from the set, followed by the result, and the
/// result does not start with a byte of the set.
pub proof fn law_trim_leaves_unpadded_suffix(s: Seq<u8>, set: Seq<u8>)
    ensures
        s == s.take(leading_count(s, set) as int) + strip_leading(s, set),
        forall|i: int| 0 <= i < leading_count(s, set) ==> set.contains(#[trigger] s[i]),
        strip_leading(s, set).len() > 0 ==> !set.contains(strip_leading(s, set)[0]),
{
    lemma_leading_count_bound(s, set);
    assert(s =~= s.take(leading_count(s, set) as int) + strip_leading(s, set));
}

proof fn lemma_leading_count_zero(s: Seq<u8>, set: Seq<u8>)
    requires
        s.len() > 0 ==> !set.contains(s[0]),
    ensures
        leading_count(s, set) == 0,
{
}

/// Trimming twice trims no more than trimming once.
pub proof fn law_trim_idempotent(s: Seq<u8>, set: Seq<u8>)
    ensures
        strip_leading(strip_leading(s, set), set) == strip_leading(s, set),
{
    law_trim_leaves_unpadded_suffix(s, set);
    let t = strip_leading(s, set);
    lemma_leading_count_zero(t, set);
    assert(t.skip(0) =~= t);
}

/// Whether `set` holds the byte `b`.
pub fn byte_in(set: &[u8], b: u8) -> (found: bool)
    ensures
        found == set@.contains(b),
{
    let mut i: usize = 0;
    while i < set.len()
        invariant
            i <= set.len(),
            forall|j: int| 0 <= j < i ==> set@[j] != b,
        decreases set.len() - i,
    {
        if set[i] == b {
            return true;
        }
        i += 1;
    }
    false
}

/// The bytes of `bytes` after its leading run of bytes from `trim`.
pub fn trim_bytes<'a>(bytes: &'a [u8], trim: &[u8]) -> (trimmed: &'a [u8])
    ensures
        trimmed@ == strip_leading(bytes@, trim@),
{
    let mut offset: usize = 0;
    assert(bytes@.skip(0) =~= bytes@);
    while offset < bytes.len() && byte_in(trim, bytes[offset])
        invariant
            offset <= bytes.len(),
            leading_count(bytes@, trim@) == offset + leading_count(bytes@.skip(offset as int), trim@),
        decreases bytes.len() - offset,
    {
        assert(bytes@.skip(offset as int).drop_first() =~= bytes@.skip(offset + 1));
        offset += 1;
    }
    proof {
        if offset < bytes.len() {
            assert(bytes@.skip(offset as int)[0] == bytes@[offset as int]);
        }
    }
    slice_subrange(bytes, offset, bytes.len())
}

// ---------------------------------------------------------------------------
// Decimal numbers padded with white space.
//
// A numeric field is read as text (UTF-8, with invalid bytes replaced), cut of
// its leading and trailing white space, and read as a decimal `usize`, an
// optional `+` sign in front.  Every character that counts as white space is
// one of the byte sequences below, so the whole reading can be stated on bytes.
// ---------------------------------------------------------------------------

/// The one-byte white space characters: TAB, LF, VT, FF, CR and SPACE.
pub open spec fn is_ws1(a: u8) -> bool {
    a == 0x20 || (0x09 <= a && a <= 0x0d)
}

/// The two-byte white space characters: NEL (U+0085) and NO-BREAK SPACE (U+00A0).
pub open spec fn is_ws2(a: u8, b: u8) -> bool {
    a == 0xc2 && (b == 0x85 || b == 0xa0)
}

/// The three-byte white space characters: U+1680, U+2000..=U+200A, U+2028,
/// U+2029, U+202F, U+205F and U+3000.
pub open spec fn is_ws3(a: u8, b: u8, c: u8) -> bool {
    ||| (a == 0xe1 && b == 0x9a && c == 0x80)
    ||| (a == 0xe2 && b == 0x80 && ((0x80 <= c && c <= 0x8a) || c == 0xa8 || c == 0xa9 || c == 0xaf))
    ||| (a == 0xe2 && b == 0x81 && c == 0x9f)
    ||| (a == 0xe3 && b == 0x80 && c == 0x80)
}

/// Length of the white space character that `s` starts with (0 if none).
pub open spec fn ws_lead_len(s: Seq<u8>) -> nat {
    if s.len() >= 1 && is_ws1(s[0]) {
        1
    } else if s.len() >= 2 && is_ws2(s[0], s[1]) {
        2
    } else if s.len() >= 3 && is_ws3(s[0], s[1], s[2]) {
        3
    } else {
        0
    }
}

/// Length of the white space character that `s` ends with (0 if none).
pub open spec fn ws_trail_len(s: Seq<u8>) -> nat {
    let n = s.len() as int;
    if n >= 1 && is_ws1(s[n - 1]) {
        1
    } else if n >= 2 && is_ws2(s[n - 2], s[n - 1]) {
        2
    } else if n >= 3 && is_ws3(s[n - 3], s[n - 2], s[n - 1]) {
        3
    } else {
        0
    }
}

/// `s` without its leading white space.
pub open spec fn strip_ws_front(s: Seq<u8>) -> Seq<u8>
    decreases s.len(),
{
    if ws_lead_len(s) > 0 {
        strip_ws_front(s.skip(ws_lead_len(s) as int))
    } else {
        s
    }
}

/// `s` without its trailing white space.
pub open spec fn strip_ws_back(s: Seq<u8>) -> Seq<u8>
    decreases s.len(),
{
    if ws_trail_len(s) > 0 {
        strip_ws_back(s.take(s.len() - ws_trail_len(s)))
    } else {
        s
    }
}

/// `s` without leading and trailing white space.
pub open spec fn trim_ws(s: Seq<u8>) -> Seq<u8> {
    strip_ws_back(strip_ws_front(s))
}

pub open spec fn is_digit(b: u8) -> bool {
    0x30 <= b && b <= 0x39
}

pub open spec fn all_digits(s: Seq<u8>) -> bool {
    forall|i: int| 0 <= i < s.len() ==> #[trigger] is_digit(s[i])
}

/// The value of a string of decimal digits.
pub open spec fn digits_value(s: Seq<u8>) -> nat
    decreases s.len(),
{
    if s.len() == 0 {
        0
    } else {
        digits_value(s.drop_last()) * 10 + (s.last() - 0x30) as nat
    }
}

/// The unsigned decimal number that `s` spells: one or more digits, with an
/// optional `+` in front.
pub open spec fn decimal_value(s: Seq<u8>) -> Option<nat> {
    let digits = if s.len() > 0 && s[0] == 0x2b {
        s.drop_first()
    } else {
        s
    };
    if digits.len() > 0 && all_digits(digits) {
        Some(digits_value(digits))
    } else {
        None
    }
}

/// The `usize` that the numeric field `raw` holds, if any.
pub open spec fn padded_number(raw: Seq<u8>) -> Option<usize> {
    match decimal_value(trim_ws(raw)) {
        Some(v) => if v <= usize::MAX {
            Some(v as usize)
        } else {
            None
        },
        None => None,
    }
}

pub proof fn lemma_digits_value_prefix(s: Seq<u8>, k: int)
    requires
        0 <= k <= s.len(),
    ensures
        digits_value(s.take(k)) <= digits_value(s),
    decreases s.len() - k,
{
    if k < s.len() {
        lemma_digits_value_prefix(s, k + 1);
        assert(s.take(k + 1).drop_last() =~= s.take(k));
    } else {
        assert(s.take(k) =~= s);
    }
}

/// The `width` decimal digits of `n`, with leading zeros: the way numeric
/// fields are written.
pub open spec fn zero_padded(n: nat, width: nat) -> Seq<u8>
    decreases width,
{
    if width == 0 {
        Seq::empty()
    } else {
        zero_padded(n / 10, (width - 1) as nat).push((0x30 + n % 10) as u8)
    }
}

proof fn lemma_zero_padded_digits(n: nat, width: nat)
    requires
        n < vstd::arithmetic::power::pow(10, width),
    ensures
        zero_padded(n, width).len() == width,
        all_digits(zero_padded(n, width)),
        digits_value(zero_padded(n, width)) == n,
    decreases width,
{
    if width == 0 {
        vstd::arithmetic::power::lemma_pow0(10);
    } else {
        let p = vstd::arithmetic::power::pow(10, (width - 1) as nat);
        vstd::arithmetic::power::lemma_pow_adds(10, 1, (width - 1) as nat);
        vstd::arithmetic::power::lemma_pow1(10);
        assert(n / 10 < p) by (nonlinear_arith)
            requires
                n < 10 * p,
        ;
        lemma_zero_padded_digits(n / 10, (width - 1) as nat);
        let z = zero_padded(n, width);
        let prefix = zero_padded(n / 10, (width - 1) as nat);
        assert(z.drop_last() =~= prefix);
        assert(forall|i: int| 0 <= i < prefix.len() ==> z[i] == prefix[i]);
        assert(n == (n / 10) * 10 + n % 10) by (nonlinear_arith);
    }
}

/// A number written in a field of `width` digits, with leading zeros, reads
/// back as that number.
pub proof fn law_zero_padded_number_reads_back(n: nat, width: nat)
    requires
        1 <= width,
        n < vstd::arithmetic::power::pow(10, width),
        n <= usize::MAX,
    ensures
        padded_number(zero_padded(n, width)) == Some(n as usize),
{
    lemma_zero_padded_digits(n, width);
    let z = zero_padded(n, width);
    assert(is_digit(z[0]));
    assert(is_digit(z[z.len() - 1]));
    assert(ws_lead_len(z) == 0);
    assert(strip_ws_front(z) == z);
    assert(ws_trail_len(z) == 0);
    assert(trim_ws(z) == z);
}

/// Length of the white space character at `raw[lo..hi]`'s start.
fn ws_lead_len_at(raw: &[u8], lo: usize, hi: usize) -> (n: usize)
    requires
        lo <= hi <= raw@.len(),
    ensures
        n == ws_lead_len(raw@.subrange(lo as int, hi as int)),
{
    let len = hi - lo;
    if len >= 1 && (raw[lo] == 0x20 || (0x09 <= raw[lo] && raw[lo] <= 0x0d)) {
        1
    } else if len >= 2 && raw[lo] == 0xc2 && (raw[lo + 1] == 0x85 || raw[lo + 1] == 0xa0) {
        2
    } else if len >= 3 && is_ws3_exec(raw[lo], raw[lo + 1], raw[lo + 2]) {
        3
    } else {
        0
    }
}

/// Length of the white space character at `raw[lo..hi]`'s end.
fn ws_trail_len_at(raw: &[u8], lo: usize, hi: usize) -> (n: usize)
    requires
        lo <= hi <= raw@.len(),
    ensures
        n == ws_trail_len(raw@.subrange(lo as int, hi as int)),
{
    let len = hi - lo;
    if len >= 1 && (raw[hi - 1] == 0x20 || (0x09 <= raw[hi - 1] && raw[hi - 1] <= 0x0d)) {
        1
    } else if len >= 2 && raw[hi - 2] == 0xc2 && (raw[hi - 1] == 0x85 || raw[hi - 1] == 0xa0) {
        2
    } else if len >= 3 && is_ws3_exec(raw[hi - 3], raw[hi - 2], raw[hi - 1]) {
        3
    } else {
        0
    }
}

fn is_ws3_exec(a: u8, b: u8, c: u8) -> (r: bool)
    ensures
        r == is_ws3(a, b, c),
{
    (a == 0xe1 && b == 0x9a && c == 0x80) || (a == 0xe2 && b == 0x80 && ((0x80 <= c && c <= 0x8a)
        || c == 0xa8 || c == 0xa9 || c == 0xaf)) || (a == 0xe2 && b == 0x81 && c == 0x9f) || (a
        == 0xe3 && b == 0x80 && c == 0x80)
}

/// Reads the numeric field `raw` as `padded_number` describes.
pub fn parse_padded_number(raw: &[u8]) -> (value: Option<usize>)
    ensures
        value == padded_number(raw@),
{
    let mut lo: usize = 0;
    let hi0 = raw.len();
    assert(raw@.subrange(0, hi0 as int) =~= raw@);
    loop
        invariant
            lo <= hi0 == raw@.len(),
            strip_ws_front(raw@) == strip_ws_front(raw@.subrange(lo as int, hi0 as int)),
        ensures
            lo <= hi0,
            ws_lead_len(raw@.subrange(lo as int, hi0 as int)) == 0,
        decreases hi0 - lo,
    {
        let k = ws_lead_len_at(raw, lo, hi0);
        if k == 0 {
            break;
        }
        assert(raw@.subrange(lo as int, hi0 as int).skip(k as int) =~= raw@.subrange(
            lo + k,
            hi0 as int,
        ));
        lo = lo + k;
    }
    let ghost front = raw@.subrange(lo as int, hi0 as int);
    assert(strip_ws_front(raw@) == front);
    let mut hi: usize = hi0;
    loop
        invariant
            lo <= hi <= hi0 == raw@.len(),
            trim_ws(raw@) == strip_ws_back(raw@.subrange(lo as int, hi as int)),
        ensures
            lo <= hi <= hi0,
            ws_trail_len(raw@.subrange(lo as int, hi as int)) == 0,
        decreases hi - lo,
    {
        let k = ws_trail_len_at(raw, lo, hi);
        if k == 0 {
            break;
        }
        assert(raw@.subrange(lo as int, hi as int).take(hi - lo - k) =~= raw@.subrange(
            lo as int,
            hi - k,
        ));
        hi = hi - k;
    }
    let ghost t = raw@.subrange(lo as int, hi as int);
    assert(trim_ws(raw@) == t);
    let mut start = lo;
    if lo < hi && raw[lo] == 0x2b {
        start = lo + 1;
    }
    let ghost digits = raw@.subrange(start as int, hi as int);
    assert(digits =~= (if t.len() > 0 && t[0] == 0x2b {
        t.drop_first()
    } else {
        t
    }));
    if start >= hi {
        return None;
    }
    let mut acc: usize = 0;
    let mut i: usize = start;
    assert(digits.take(0) =~= Seq::<u8>::empty());
    assert(decimal_value(trim_ws(raw@)) == (if all_digits(digits) {
        Some(digits_value(digits))
    } else {
        None::<nat>
    }));
    while i < hi
        invariant
            start <= i <= hi <= raw@.len(),
            decimal_value(trim_ws(raw@)) == (if all_digits(digits) {
                Some(digits_value(digits))
            } else {
                None::<nat>
            }),
            digits == raw@.subrange(start as int, hi as int),
            acc == digits_value(digits.take(i - start)),
            forall|j: int| 0 <= j < i - start ==> #[trigger] is_digit(digits[j]),
        decreases hi - i,
    {
        let b = raw[i];
        assert(digits.take(i - start + 1).drop_last() =~= digits.take(i - start));
        assert(digits[i - start] == b);
        if !(0x30 <= b && b <= 0x39) {
            assert(!all_digits(digits)) by {
                assert(!is_digit(digits[i - start]));
            }
            return None;
        }
        match acc.checked_mul(10) {
            Some(m) => match m.checked_add((b - 0x30) as usize) {
                Some(n) => {
                    acc = n;
                },
                None => {
                    proof {
                        lemma_digits_value_prefix(digits, i - start + 1);
                    }
                    return None;
                },
            },
            None => {
                proof {
                    lemma_digits_value_prefix(digits, i - start + 1);
                }
                return None;
            },
        }
        i += 1;
    }
    assert(digits.take(i - start) =~= digits);
    Some(acc)
}

// ---------------------------------------------------------------------------
// Text of byte strings.
// ---------------------------------------------------------------------------

/// The text that `String::from_utf8_lossy` makes of `bytes`: each maximal
/// invalid UTF-8 sequence replaced by U+FFFD.
pub uninterp spec fn utf8_lossy(bytes: Seq<u8>) -> Seq<char>;

/// The text of a byte string: its UTF-8 decoding where it is valid UTF-8,
/// else the text with each invalid sequence replaced by U+FFFD.
pub open spec fn text_of(bytes: Seq<u8>) -> Seq<char> {
    if valid_utf8(bytes) {
        decode_utf8(bytes)
    } else {
        utf8_lossy(bytes)
    }
}

/// Calls `String::from_utf8_lossy`.  Trusted: the text is named `utf8_lossy`
/// of the bytes and, as std documents, is the decoding of the bytes where
/// they are valid UTF-8.
#[verifier::external_body]
pub(crate) fn lossy_text(bytes: &[u8]) -> (text: String)
    ensures
        text@ == utf8_lossy(bytes@),
        valid_utf8(bytes@) ==> text@ == decode_utf8(bytes@),
{
    String::from_utf8_lossy(bytes).into_owned()
}

/// Whether two byte strings are equal.
pub fn bytes_eq(a: &[u8], b: &[u8]) -> (same: bool)
    ensures
        same == (a@ == b@),
{
    if a.len() != b.len() {
        return false;
    }
    let mut i: usize = 0;
    while i < a.len()
        invariant
            i <= a.len() == b.len(),
            forall|j: int| 0 <= j < i ==> a@[j] == b@[j],
        decreases a.len() - i,
    {
        if a[i] != b[i] {
            return false;
        }
        i += 1;
    }
    assert(a@ =~= b@);
    true
}

/// The `n` bytes of `data` at `pos`, if they are all there.
pub open spec fn field_at(data: Seq<u8>, pos: int, n: int) -> Option<Seq<u8>> {
    if 0 <= pos && 0 <= n && pos + n <= data.len() {
        Some(data.subrange(pos, pos + n))
    } else {
        None
    }
}

/// The bytes a text field of width `n` at `pos` holds, its leading bytes from
/// `pad` stripped.
pub open spec fn text_field(data: Seq<u8>, pos: int, n: int, pad: Seq<u8>) -> Option<Seq<u8>> {
    match field_at(data, pos, n) {
        Some(raw) => Some(strip_leading(raw, pad)),
        None => None,
    }
}

/// The number a numeric field of width `n` at `pos` holds.
pub open spec fn number_field(data: Seq<u8>, pos: int, n: int) -> Option<usize> {
    match field_at(data, pos, n) {
        Some(raw) => padded_number(raw),
        None => None,
    }
}

/// The padding stripped from space-padded fields.
pub open spec fn space_pad() -> Seq<u8> {
    seq![0x20u8]
}

/// The padding stripped from space- and zero-padded fields.
pub open spec fn space_zero_pad() -> Seq<u8> {
    seq![0x20u8, 0x30u8]
}

fn read_raw(data: &[u8], pos: usize, n: usize) -> (raw: Option<Vec<u8>>)
    ensures
        match raw {
            Some(v) => field_at(data@, pos as int, n as int) == Some(v@),
            None => field_at(data@, pos as int, n as int) is None,
        },
        raw is Some ==> pos + n <= data@.len() <= usize::MAX,
{
    if pos <= data.len() && n <= data.len() - pos {
        Some(slice_to_vec(slice_subrange(data, pos, pos + n)))
    } else {
        None
    }
}

fn read_stripped(data: &[u8], pos: usize, n: usize, pad: &[u8]) -> (field: Option<Vec<u8>>)
    ensures
        match field {
            Some(v) => text_field(data@, pos as int, n as int, pad@) == Some(v@),
            None => text_field(data@, pos as int, n as int, pad@) is None,
        },
        field is Some ==> pos + n <= data@.len() <= usize::MAX,
{
    if pos <= data.len() && n <= data.len() - pos {
        Some(slice_to_vec(trim_bytes(slice_subrange(data, pos, pos + n), pad)))
    } else {
        None
    }
}

/// A text field of `N` bytes, kept as it stands.
#[derive(Clone)]
pub struct FixedLengthString<const N: usize>(Vec<u8>);

/// A text field of `N` bytes without its leading spaces.
#[derive(Clone)]
pub struct FixedLengthStringStripSpace<const N: usize>(Vec<u8>);

/// A text field of `N` bytes without its leading spaces and zeros.
#[derive(Clone)]
pub struct FixedLengthStringStripSpaceZero<const N: usize>(Vec<u8>);

impl<const N: usize> View for FixedLengthString<N> {
    type V = Seq<u8>;

    closed spec fn view(&self) -> Seq<u8> {
        self.0@
    }
}

impl<const N: usize> View for FixedLengthStringStripSpace<N> {
    type V = Seq<u8>;

    closed spec fn view(&self) -> Seq<u8> {
        self.0@
    }
}

impl<const N: usize> View for FixedLengthStringStripSpaceZero<N> {
    type V = Seq<u8>;

    closed spec fn view(&self) -> Seq<u8> {
        self.0@
    }
}

impl<const N: usize> FixedLengthString<N> {
    /// Reads the field at `pos`; gives it and the position after it.
    pub fn read(data: &[u8], pos: usize) -> (res: Option<(Self, usize)>)
        ensures
            match res {
                Some((f, next)) => field_at(data@, pos as int, N as int) == Some(f@) && next
                    == pos + N,
                None => field_at(data@, pos as int, N as int) is None,
            },
    {
        match read_raw(data, pos, N) {
            Some(v) => Some((FixedLengthString(v), pos + N)),
            None => None,
        }
    }

    pub fn as_bytes(&self) -> (bytes: &[u8])
        ensures
            bytes@ == self@,
    {
        self.0.as_slice()
    }

    /// Whether the field holds the UTF-8 encoding of `other`.
    pub fn eq_str(&self, other: &str) -> (same: bool)
        ensures
            same == (self@ == other.spec_bytes()),
    {
        bytes_eq(self.0.as_slice(), other.as_bytes())
    }

    /// The field as text.
    pub fn to_text(&self) -> (text: String)
        ensures
            text@ == text_of(self@),
    {
        lossy_text(self.0.as_slice())
    }
}

impl<const N: usize> FixedLengthStringStripSpace<N> {
    /// Reads the field at `pos`; gives it and the position after it.
    pub fn read(data: &[u8], pos: usize) -> (res: Option<(Self, usize)>)
        ensures
            match res {
                Some((f, next)) => text_field(data@, pos as int, N as int, space_pad()) == Some(
                    f@,
                ) && next == pos + N,
                None => text_field(data@, pos as int, N as int, space_pad()) is None,
            },
    {
        let pad: [u8; 1] = [0x20u8];
        assert(pad@ =~= space_pad());
        match read_stripped(data, pos, N, pad.as_slice()) {
            Some(v) => Some((FixedLengthStringStripSpace(v), pos + N)),
            None => None,
        }
    }

    pub fn as_bytes(&self) -> (bytes: &[u8])
        ensures
            bytes@ == self@,
    {
        self.0.as_slice()
    }

    /// Whether the field holds the UTF-8 encoding of `other`.
    pub fn eq_str(&self, other: &str) -> (same: bool)
        ensures
            same == (self@ == other.spec_bytes()),
    {
        bytes_eq(self.0.as_slice(), other.as_bytes())
    }

    /// The field as text.
    pub fn to_text(&self) -> (text: String)
        ensures
            text@ == text_of(self@),
    {
        lossy_text(self.0.as_slice())
    }
}

impl<const N: usize> FixedLengthStringStripSpaceZero<N> {
    /// Reads the field at `pos`; gives it and the position after it.
    pub fn read(data: &[u8], pos: usize) -> (res: Option<(Self, usize)>)
        ensures
            match res {
                Some((f, next)) => text_field(data@, pos as int, N as int, space_zero_pad())
                    == Some(f@) && next == pos + N,
                None => text_field(data@, pos as int, N as int, space_zero_pad()) is None,
            },
    {
        let pad: [u8; 2] = [0x20u8, 0x30u8];
        assert(pad@ =~= space_zero_pad());
        match read_stripped(data, pos, N, pad.as_slice()) {
            Some(v) => Some((FixedLengthStringStripSpaceZero(v), pos + N)),
            None => None,
        }
    }

    pub fn as_bytes(&self) -> (bytes: &[u8])
        ensures
            bytes@ == self@,
    {
        self.0.as_slice()
    }

    /// Whether the field holds the UTF-8 encoding of `other`.
    pub fn eq_str(&self, other: &str) -> (same: bool)
        ensures
            same == (self@ == other.spec_bytes()),
    {
        bytes_eq(self.0.as_slice(), other.as_bytes())
    }

    /// The field as text.
    pub fn to_text(&self) -> (text: String)
        ensures
            text@ == text_of(self@),
    {
        lossy_text(self.0.as_slice())
    }
}

/// A decimal number written in a text field of `N` bytes.
#[derive(Clone, Copy, PartialEq, Eq)]
pub struct FixedLengthStringNumber<const N: usize>(pub usize);

impl<const N: usize> FixedLengthStringNumber<N> {
    /// Reads the field at `pos`; gives its number and the position after it.
    pub fn read(data: &[u8], pos: usize) -> (res: Option<(Self, usize)>)
        ensures
            match res {
                Some((f, next)) => number_field(data@, pos as int, N as int) == Some(f.0) && next
                    == pos + N,
                None => number_field(data@, pos as int, N as int) is None,
            },
    {
        match read_raw(data, pos, N) {
            Some(v) => match parse_padded_number(v.as_slice()) {
                Some(n) => Some((FixedLengthStringNumber(n), pos + N)),
                None => None,
            },
            None => None,
        }
    }

    pub fn value(&self) -> (v: usize)
        ensures
            v == self.0,
    {
        self.0
    }
}

/// The date and time, `(year, month, day, hour, minute)`, that chrono's
/// `NaiveDateTime::parse_from_str` reads, with the format `%d%m%Y%H%M`, from
/// the text of the bytes `raw`; `None` where it refuses them.
pub uninterp spec fn edition_time_of(raw: Seq<u8>) -> Option<(i32, u32, u32, u32, u32)>;

/// The value of the two decimal digits at `i` and `i + 1`.
pub open spec fn two_digits(s: Seq<u8>, i: int) -> int {
    10 * (s[i] - 0x30) + (s[i + 1] - 0x30)
}

/// The number of days of month `month` (1 to 12) of `year`.
pub open spec fn days_in_month(year: int, month: int) -> int {
    if month == 2 {
        if crate::dosipas::is_leap_year(year) {
            29
        } else {
            28
        }
    } else if month == 4 || month == 6 || month == 9 || month == 11 {
        30
    } else {
        31
    }
}

/// The date and time that twelve decimal digits `DDMMYYYYhhmm` write, if
/// they write one: a month from 1 to 12, a day of that month, an hour below
/// 24 and a minute below 60.
pub open spec fn edition_time_from_digits(raw: Seq<u8>) -> Option<(i32, u32, u32, u32, u32)> {
    let day = two_digits(raw, 0);
    let month = two_digits(raw, 2);
    let year = 100 * two_digits(raw, 4) + two_digits(raw, 6);
    let hour = two_digits(raw, 8);
    let minute = two_digits(raw, 10);
    if 1 <= month <= 12 && 1 <= day <= days_in_month(year, month) && hour <= 23 && minute <= 59 {
        Some((year as i32, month as u32, day as u32, hour as u32, minute as u32))
    } else {
        None
    }
}

/// Calls chrono's `NaiveDateTime::parse_from_str` with the format
/// `%d%m%Y%H%M` on the text of `raw`.  Trusted: the result is named
/// `edition_time_of` of the bytes and, where the bytes are twelve decimal
/// digits (each field then takes exactly its two or four digits, and chrono
/// checks the ranges of month, day of the month, hour and minute), it is the
/// date and time they write.
#[verifier::external_body]
fn parse_edition_time(raw: &[u8]) -> (parsed: Option<(i32, u32, u32, u32, u32)>)
    ensures
        parsed == edition_time_of(raw@),
        raw@.len() == 12 && all_digits(raw@) ==> parsed == edition_time_from_digits(raw@),
{
    match chrono::NaiveDateTime::parse_from_str(&String::from_utf8_lossy(raw), "%d%m%Y%H%M") {
        Ok(t) => Some((t.year(), t.month(), t.day(), t.hour(), t.minute())),
        Err(_) => None,
    }
}

proof fn lemma_digit_pairs(n: nat, width: nat)
    requires
        width == 2 || width == 4,
        n < vstd::arithmetic::power::pow(10, width),
    ensures
        zero_padded(n, width).len() == width,
        width == 2 ==> two_digits(zero_padded(n, width), 0) == n,
        width == 4 ==> 100 * two_digits(zero_padded(n, width), 0) + two_digits(
            zero_padded(n, width),
            2,
        ) == n,
{
    lemma_zero_padded_digits(n, width);
    let z = zero_padded(n, width);
    assert(is_digit(z[0]) && is_digit(z[1]));
    if width == 2 {
        assert(z.drop_last().drop_last() =~= Seq::<u8>::empty());
        assert(digits_value(z.drop_last().drop_last()) == 0);
        assert(z.drop_last().last() == z[0]);
        assert(digits_value(z) == digits_value(z.drop_last()) * 10 + (z[1] - 0x30) as nat);
        assert(digits_value(z.drop_last()) == (z[0] - 0x30) as nat);
    } else {
        assert(is_digit(z[2]) && is_digit(z[3]));
        let z3 = z.drop_last();
        let z2 = z3.drop_last();
        let z1 = z2.drop_last();
        assert(z1.drop_last() =~= Seq::<u8>::empty());
        assert(digits_value(z1.drop_last()) == 0);
        assert(z1.last() == z[0] && z2.last() == z[1] && z3.last() == z[2]);
        assert(digits_value(z1) == (z[0] - 0x30) as nat);
        assert(digits_value(z2) == digits_value(z1) * 10 + (z[1] - 0x30) as nat);
        assert(digits_value(z3) == digits_value(z2) * 10 + (z[2] - 0x30) as nat);
        assert(digits_value(z) == digits_value(z3) * 10 + (z[3] - 0x30) as nat);
    }
}

/// Twelve digits `DDMMYYYYhhmm` that write a date of the years 0 to 9999
/// and a time of that day, each number with leading zeros, read back as
/// that day, month, year, hour and minute.
pub proof fn law_edition_time_reads_back(day: nat, month: nat, year: nat, hour: nat, minute: nat)
    requires
        1 <= month <= 12,
        1 <= day <= days_in_month(year as int, month as int),
        year <= 9999,
        hour <= 23,
        minute <= 59,
    ensures
        edition_time_from_digits(
            zero_padded(day, 2) + zero_padded(month, 2) + zero_padded(year, 4) + zero_padded(
                hour,
                2,
            ) + zero_padded(minute, 2),
        ) == Some((year as i32, month as u32, day as u32, hour as u32, minute as u32)),
{
    reveal_with_fuel(vstd::arithmetic::power::pow, 5);
    lemma_digit_pairs(day, 2);
    lemma_digit_pairs(month, 2);
    lemma_digit_pairs(year, 4);
    lemma_digit_pairs(hour, 2);
    lemma_digit_pairs(minute, 2);
    let d = zero_padded(day, 2);
    let m = zero_padded(month, 2);
    let y = zero_padded(year, 4);
    let h = zero_padded(hour, 2);
    let mi = zero_padded(minute, 2);
    let raw = d + m + y + h + mi;
    assert(raw[0] == d[0] && raw[1] == d[1]);
    assert(raw[2] == m[0] && raw[3] == m[1]);
    assert(raw[4] == y[0] && raw[5] == y[1] && raw[6] == y[2] && raw[7] == y[3]);
    assert(raw[8] == h[0] && raw[9] == h[1]);
    assert(raw[10] == mi[0] && raw[11] == mi[1]);
    assert(two_digits(raw, 0) == day);
    assert(two_digits(raw, 2) == month);
    assert(two_digits(raw, 4) == two_digits(y, 0));
    assert(two_digits(raw, 6) == two_digits(y, 2));
    assert(two_digits(raw, 8) == hour);
    assert(two_digits(raw, 10) == minute);
}

/// A date and time to the minute, as the ticket header writes it
/// (`DDMMYYYYhhmm`).
#[derive(Clone, Copy, PartialEq, Eq, Debug)]
pub struct EditionTime {
    pub year: i32,
    pub month: u32,
    pub day: u32,
    pub hour: u32,
    pub minute: u32,
}

/// The edition time held by the 12 bytes at `pos`.
pub open spec fn edition_time_field(data: Seq<u8>, pos: int) -> Option<EditionTime> {
    match field_at(data, pos, 12) {
        Some(raw) => match edition_time_of(raw) {
            Some((year, month, day, hour, minute)) => Some(
                EditionTime { year, month, day, hour, minute },
            ),
            None => None,
        },
        None => None,
    }
}

impl EditionTime {
    /// Reads the 12-byte field at `pos`; gives its time and the position
    /// after it.
    pub fn read(data: &[u8], pos: usize) -> (res: Option<(Self, usize)>)
        ensures
            match res {
                Some((t, next)) => edition_time_field(data@, pos as int) == Some(t) && next == pos
                    + 12,
                None => edition_time_field(data@, pos as int) is None,
            },
            pos + 12 <= data@.len() && all_digits(data@.subrange(pos as int, pos + 12)) ==> match res {
                Some((t, _)) => edition_time_from_digits(data@.subrange(pos as int, pos + 12))
                    == Some((t.year, t.month, t.day, t.hour, t.minute)),
                None => edition_time_from_digits(data@.subrange(pos as int, pos + 12)) is None,
            },
    {
        match read_raw(data, pos, 12) {
            Some(raw) => match parse_edition_time(raw.as_slice()) {
                Some((year, month, day, hour, minute)) => Some(
                    (EditionTime { year, month, day, hour, minute }, pos + 12),
                ),
                None => None,
            },
            None => None,
        }
    }
}

/// A text of which a 4-digit field before it gives the length in bytes.
#[derive(Clone)]
pub struct LengthPrefixedString(String);

impl View for LengthPrefixedString {
    type V = Seq<char>;

    closed spec fn view(&self) -> Seq<char> {
        self.0@
    }
}

/// The text, and the position after it, of the length-prefixed string at
/// `pos`.
pub open spec fn length_prefixed_field(data: Seq<u8>, pos: int) -> Option<(Seq<char>, int)> {
    match number_field(data, pos, 4) {
        Some(n) => match field_at(data, pos + 4, n as int) {
            Some(raw) => Some((text_of(raw), pos + 4 + n)),
            None => None,
        },
        None => None,
    }
}

impl LengthPrefixedString {
    /// Reads the string at `pos`; gives it and the position after it.
    pub fn read(data: &[u8], pos: usize) -> (res: Option<(Self, usize)>)
        ensures
            match res {
                Some((s, next)) => length_prefixed_field(data@, pos as int) == Some(
                    (s@, next as int),
                ),
                None => length_prefixed_field(data@, pos as int) is None,
            },
    {
        match FixedLengthStringNumber::<4>::read(data, pos) {
            Some((n, after)) => match read_raw(data, after, n.0) {
                Some(raw) => Some(
                    (LengthPrefixedString(lossy_text(raw.as_slice())), after + n.0),
                ),
                None => None,
            },
            None => None,
        }
    }

    pub fn as_str(&self) -> (s: &str)
        ensures
            s@ == self@,
    {
        self.0.as_str()
    }
}

/// Whether two strings are equal.
pub fn str_eq(a: &str, b: &str) -> (same: bool)
    ensures
        same == (a@ == b@),
{
    let same = bytes_eq(a.as_bytes(), b.as_bytes());
    proof {
        encode_utf8_decode_utf8(a@);
        encode_utf8_decode_utf8(b@);
    }
    same
}

/// The decimal digit character for `d < 10`.
pub open spec fn digit_char(d: nat) -> char {
    ((0x30 + d) as u32) as char
}

/// The decimal notation of `n`, without leading zeros.
pub open spec fn decimal_text(n: nat) -> Seq<char>
    decreases n,
{
    if n < 10 {
        seq![digit_char(n)]
    } else {
        decimal_text(n / 10).push(digit_char(n % 10))
    }
}

/// The one-character text of the decimal digit `d`.
fn digit_text(d: u32) -> (text: &'static str)
    requires
        d < 10,
    ensures
        text@ == seq![digit_char(d as nat)],
{
    if d == 0 {
        proof { reveal_strlit("0"); }
        "0"
    } else if d == 1 {
        proof { reveal_strlit("1"); }
        "1"
    } else if d == 2 {
        proof { reveal_strlit("2"); }
        "2"
    } else if d == 3 {
        proof { reveal_strlit("3"); }
        "3"
    } else if d == 4 {
        proof { reveal_strlit("4"); }
        "4"
    } else if d == 5 {
        proof { reveal_strlit("5"); }
        "5"
    } else if d == 6 {
        proof { reveal_strlit("6"); }
        "6"
    } else if d == 7 {
        proof { reveal_strlit("7"); }
        "7"
    } else if d == 8 {
        proof { reveal_strlit("8"); }
        "8"
    } else {
        proof { reveal_strlit("9"); }
        "9"
    }
}

/// Appends the decimal notation of `n` to `text`.
fn append_decimal(text: &mut String, n: u32)
    ensures
        final(text)@ == old(text)@ + decimal_text(n as nat),
    decreases n,
{
    if n >= 10 {
        append_decimal(text, n / 10);
    }
    text.append(digit_text(n % 10));
    assert(text@ =~= old(text)@ + decimal_text(n as nat));
}

/// The decimal notation of `n`, as `to_string` writes it.
pub fn u32_text(n: u32) -> (text: String)
    ensures
        text@ == decimal_text(n as nat),
{
    let mut text = String::new();
    append_decimal(&mut text, n);
    assert(text@ =~= decimal_text(n as nat));
    text
}

/// The decimal notation of `n`, as `to_string` writes it.
pub fn u16_text(n: u16) -> (text: String)
    ensures
        text@ == decimal_text(n as nat),
{
    u32_text(n as u32)
}

/// The dotted notation of an object identifier's arcs (`1.2.840.10045.2.1`).
pub open spec fn dotted_text(arcs: Seq<u32>) -> Seq<char>
    decreases arcs.len(),
{
    if arcs.len() == 0 {
        Seq::empty()
    } else if arcs.len() == 1 {
        decimal_text(arcs[0] as nat)
    } else {
        dotted_text(arcs.drop_last()) + seq!['.'] + decimal_text(arcs.last() as nat)
    }
}

/// The dotted notation of an object identifier's arcs.
pub fn dotted(arcs: &[u32]) -> (text: String)
    ensures
        text@ == dotted_text(arcs@),
{
    let mut text = String::new();
    let mut i: usize = 0;
    assert(arcs@.take(0) =~= Seq::<u32>::empty());
    while i < arcs.len()
        invariant
            i <= arcs.len(),
            text@ == dotted_text(arcs@.take(i as int)),
        decreases arcs.len() - i,
    {
        let part = u32_text(arcs[i]);
        assert(arcs@.take(i + 1).drop_last() =~= arcs@.take(i as int));
        if i > 0 {
            let dot = ".";
            proof {
                reveal_strlit(".");
            }
            text.append(dot);
        }
        text.append(part.as_str());
        i += 1;
    }
    assert(arcs@.take(arcs.len() as int) =~= arcs@);
    text
}

} // verus!
