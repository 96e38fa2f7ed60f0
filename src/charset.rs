//! Charset resolution: turning a response body and its declared
//! `Content-Type` into text.
use vstd::prelude::*;
use vstd::utf8::{decode_utf8, decode_utf8_encode_utf8, encode_utf8, valid_utf8};

verus! {

/// The text encodings that a response body may be decoded with.
#[derive(Clone, Copy, Debug, PartialEq, Eq, Structural)]
pub enum EncodingChoice {
    Utf8,
    Utf16Le,
    ShiftJis,
    EucJp,
    Iso2022Jp,
    Windows1252,
}

/// How many leading bytes the double-byte heuristics look at.
pub const SAMPLE_LEN: usize = 1000;

/// A first byte and a second byte that look like a Shift_JIS double-byte character.
pub open spec fn sjis_pair(first: u8, second: u8) -> bool {
    ((0x81 <= first <= 0x9F) || (0xE0 <= first <= 0xFC))
        && ((0x40 <= second <= 0x7E) || (0x80 <= second <= 0xFC))
}

/// A first byte and a second byte that look like an EUC-JP double-byte character.
pub open spec fn euc_pair(first: u8, second: u8) -> bool {
    (0xA1 <= first <= 0xFE) && (0xA1 <= second <= 0xFE)
}

/// The part of the body that the double-byte heuristics inspect.
pub open spec fn sample(b: Seq<u8>) -> Seq<u8> {
    if b.len() > SAMPLE_LEN {
        b.take(SAMPLE_LEN as int)
    } else {
        b
    }
}

/// Some adjacent pair of bytes in `s` looks like Shift_JIS.
pub open spec fn has_sjis_pair(s: Seq<u8>) -> bool {
    exists|i: int| 0 <= i && i + 1 < s.len() && #[trigger] sjis_pair(s[i], s[i + 1])
}

/// Some adjacent pair of bytes in `s` looks like EUC-JP.
pub open spec fn has_euc_pair(s: Seq<u8>) -> bool {
    exists|i: int| 0 <= i && i + 1 < s.len() && #[trigger] euc_pair(s[i], s[i + 1])
}

pub open spec fn has_utf8_bom(b: Seq<u8>) -> bool {
    b.len() >= 3 && b[0] == 0xEF && b[1] == 0xBB && b[2] == 0xBF
}

/// `FF FE` or `FE FF`; both orders are taken as UTF-16LE.
pub open spec fn has_utf16_bom(b: Seq<u8>) -> bool {
    b.len() >= 2 && ((b[0] == 0xFF && b[1] == 0xFE) || (b[0] == 0xFE && b[1] == 0xFF))
}

/// The encoding that the byte-level heuristics pick, if any: a byte-order
/// mark first, then the Shift_JIS pattern, then the EUC-JP pattern.
pub open spec fn detected(b: Seq<u8>) -> Option<EncodingChoice> {
    if has_utf8_bom(b) {
        Some(EncodingChoice::Utf8)
    } else if has_utf16_bom(b) {
        Some(EncodingChoice::Utf16Le)
    } else if has_sjis_pair(sample(b)) {
        Some(EncodingChoice::ShiftJis)
    } else if has_euc_pair(sample(b)) {
        Some(EncodingChoice::EucJp)
    } else {
        None
    }
}

/// Guesses the encoding of `bytes` from a byte-order mark or from the
/// double-byte patterns of Shift_JIS and EUC-JP in its first bytes.
pub fn detect_encoding(bytes: &[u8]) -> (r: Option<EncodingChoice>)
    ensures
        r == detected(bytes@),
{
    let n = bytes.len();
    if n >= 3 && bytes[0] == 0xEF && bytes[1] == 0xBB && bytes[2] == 0xBF {
        return Some(EncodingChoice::Utf8);
    }
    if n >= 2 && ((bytes[0] == 0xFF && bytes[1] == 0xFE) || (bytes[0] == 0xFE && bytes[1] == 0xFF)) {
        return Some(EncodingChoice::Utf16Le);
    }
    let m: usize = if n > SAMPLE_LEN { SAMPLE_LEN } else { n };
    let ghost s = sample(bytes@);
    assert(!has_utf8_bom(bytes@) && !has_utf16_bom(bytes@));
    assert(s.len() == m);
    assert(forall|k: int| 0 <= k < m ==> s[k] == bytes@[k]);
    let mut i: usize = 0;
    while i + 1 < m
        invariant
            m <= n == bytes@.len(),
            m <= SAMPLE_LEN,
            i <= m,
            s == sample(bytes@),
            !has_utf8_bom(bytes@),
            !has_utf16_bom(bytes@),
            s.len() == m,
            forall|k: int| 0 <= k < m ==> s[k] == bytes@[k],
            forall|j: int| 0 <= j < i && j + 1 < m ==> !#[trigger] sjis_pair(s[j], s[j + 1]),
        decreases m - i,
    {
        if sjis_byte_pair(bytes[i], bytes[i + 1]) {
            assert(sjis_pair(s[i as int], s[i + 1]));
            return Some(EncodingChoice::ShiftJis);
        }
        i = i + 1;
    }
    let mut i: usize = 0;
    while i + 1 < m
        invariant
            m <= n == bytes@.len(),
            m <= SAMPLE_LEN,
            i <= m,
            s == sample(bytes@),
            !has_utf8_bom(bytes@),
            !has_utf16_bom(bytes@),
            s.len() == m,
            forall|k: int| 0 <= k < m ==> s[k] == bytes@[k],
            !has_sjis_pair(s),
            forall|j: int| 0 <= j < i && j + 1 < m ==> !#[trigger] euc_pair(s[j], s[j + 1]),
        decreases m - i,
    {
        if euc_byte_pair(bytes[i], bytes[i + 1]) {
            assert(euc_pair(s[i as int], s[i + 1]));
            return Some(EncodingChoice::EucJp);
        }
        i = i + 1;
    }
    None
}

fn sjis_byte_pair(first: u8, second: u8) -> (r: bool)
    ensures
        r == sjis_pair(first, second),
{
    ((0x81 <= first && first <= 0x9F) || (0xE0 <= first && first <= 0xFC))
        && ((0x40 <= second && second <= 0x7E) || (0x80 <= second && second <= 0xFC))
}

fn euc_byte_pair(first: u8, second: u8) -> (r: bool)
    ensures
        r == euc_pair(first, second),
{
    (0xA1 <= first && first <= 0xFE) && (0xA1 <= second && second <= 0xFE)
}


/// ASCII lower case of one byte; other bytes are kept.
pub open spec fn ascii_lower(c: u8) -> u8 {
    if 0x41 <= c <= 0x5A {
        (c + 0x20) as u8
    } else {
        c
    }
}

pub open spec fn lowered(s: Seq<u8>) -> Seq<u8> {
    s.map_values(|c: u8| ascii_lower(c))
}

/// The whitespace trimmed off a charset token: space, tab, CR, LF and form feed.
pub open spec fn is_space(c: u8) -> bool {
    c == 0x20 || c == 0x09 || c == 0x0A || c == 0x0D || c == 0x0C
}

pub open spec fn trim_start(s: Seq<u8>) -> Seq<u8>
    decreases s.len(),
{
    if s.len() > 0 && is_space(s[0]) {
        trim_start(s.drop_first())
    } else {
        s
    }
}

pub open spec fn trim_end(s: Seq<u8>) -> Seq<u8>
    decreases s.len(),
{
    if s.len() > 0 && is_space(s.last()) {
        trim_end(s.drop_last())
    } else {
        s
    }
}

pub open spec fn trimmed(s: Seq<u8>) -> Seq<u8> {
    trim_end(trim_start(s))
}

/// The parameter name, matched without regard to ASCII case.
pub open spec fn charset_key() -> Seq<u8> {
    encode_utf8("charset="@)
}

pub open spec fn key_at(s: Seq<u8>, j: int) -> bool {
    0 <= j && j + charset_key().len() <= s.len() && lowered(
        s.subrange(j, j + charset_key().len()),
    ) == charset_key()
}

/// The first position at or after `i` where the parameter name starts.
pub open spec fn key_pos(s: Seq<u8>, i: int) -> Option<int>
    decreases s.len() - i,
{
    if i < 0 || i >= s.len() || i + charset_key().len() > s.len() {
        None
    } else if key_at(s, i) {
        Some(i)
    } else {
        key_pos(s, i + 1)
    }
}

/// The first `;` at or after `i`, or the end of `s`.
pub open spec fn value_end(s: Seq<u8>, i: int) -> int
    decreases s.len() - i,
{
    if i < 0 || i >= s.len() {
        s.len() as int
    } else if s[i] == 0x3B {
        i
    } else {
        value_end(s, i + 1)
    }
}

/// The raw value of the `charset=` parameter of a content type: what follows
/// the first occurrence of the name, up to `;` or the end.
pub open spec fn charset_value(ct: Seq<u8>) -> Option<Seq<u8>> {
    match key_pos(ct, 0) {
        Some(j) => {
            let a = j + charset_key().len();
            Some(ct.subrange(a, value_end(ct, a)))
        },
        None => None,
    }
}

/// The alias table from a trimmed charset token to an encoding.
pub open spec fn alias(token: Seq<u8>) -> Option<EncodingChoice> {
    let t = lowered(token);
    if t == encode_utf8("utf-8"@) || t == encode_utf8("utf8"@) {
        Some(EncodingChoice::Utf8)
    } else if t == encode_utf8("shift_jis"@) || t == encode_utf8("shift-jis"@) || t
        == encode_utf8("sjis"@) {
        Some(EncodingChoice::ShiftJis)
    } else if t == encode_utf8("euc-jp"@) || t == encode_utf8("eucjp"@) {
        Some(EncodingChoice::EucJp)
    } else if t == encode_utf8("iso-2022-jp"@) {
        Some(EncodingChoice::Iso2022Jp)
    } else if t == encode_utf8("windows-1252"@) || t == encode_utf8("cp1252"@) || t
        == encode_utf8("iso-8859-1"@) || t == encode_utf8("latin1"@) {
        Some(EncodingChoice::Windows1252)
    } else {
        None
    }
}

/// The encoding that a content type declares, if its charset is a known one.
pub open spec fn declared(ct: Seq<u8>) -> Option<EncodingChoice> {
    match charset_value(ct) {
        Some(v) => alias(trimmed(v)),
        None => None,
    }
}

/// `s[start..end]`, lower-cased, equals `lit`.
fn lower_eq(s: &[u8], start: usize, end: usize, lit: &[u8]) -> (r: bool)
    requires
        start <= end <= s@.len(),
    ensures
        r == (lowered(s@.subrange(start as int, end as int)) == lit@),
{
    let ghost sub = s@.subrange(start as int, end as int);
    if end - start != lit.len() {
        assert(lowered(sub).len() != lit@.len());
        return false;
    }
    let mut k: usize = 0;
    while k < lit.len()
        invariant
            start <= end <= s@.len(),
            end - start == lit@.len(),
            sub == s@.subrange(start as int, end as int),
            k <= lit@.len(),
            forall|q: int| 0 <= q < k ==> #[trigger] lowered(sub)[q] == lit@[q],
        decreases lit@.len() - k,
    {
        let c = s[start + k];
        let lc: u8 = if 0x41 <= c && c <= 0x5A { c + 0x20 } else { c };
        assert(lowered(sub)[k as int] == lc);
        if lc != lit[k] {
            return false;
        }
        k = k + 1;
    }
    assert(lowered(sub) =~= lit@);
    true
}

/// Maps a charset token `s[start..end]` through the alias table.
fn alias_of(s: &[u8], start: usize, end: usize) -> (r: Option<EncodingChoice>)
    requires
        start <= end <= s@.len(),
    ensures
        r == alias(s@.subrange(start as int, end as int)),
{
    if lower_eq(s, start, end, "utf-8".as_bytes()) || lower_eq(s, start, end, "utf8".as_bytes()) {
        Some(EncodingChoice::Utf8)
    } else if lower_eq(s, start, end, "shift_jis".as_bytes()) || lower_eq(
        s,
        start,
        end,
        "shift-jis".as_bytes(),
    ) || lower_eq(s, start, end, "sjis".as_bytes()) {
        Some(EncodingChoice::ShiftJis)
    } else if lower_eq(s, start, end, "euc-jp".as_bytes()) || lower_eq(
        s,
        start,
        end,
        "eucjp".as_bytes(),
    ) {
        Some(EncodingChoice::EucJp)
    } else if lower_eq(s, start, end, "iso-2022-jp".as_bytes()) {
        Some(EncodingChoice::Iso2022Jp)
    } else if lower_eq(s, start, end, "windows-1252".as_bytes()) || lower_eq(
        s,
        start,
        end,
        "cp1252".as_bytes(),
    ) || lower_eq(s, start, end, "iso-8859-1".as_bytes()) || lower_eq(
        s,
        start,
        end,
        "latin1".as_bytes(),
    ) {
        Some(EncodingChoice::Windows1252)
    } else {
        None
    }
}

/// The encoding named by the `charset=` parameter of `content_type`, when
/// the parameter is present and its value is a known alias. The name is
/// matched without regard to ASCII case; the value ends at `;` or at the end,
/// and is trimmed of whitespace and lower-cased before the lookup.
pub fn declared_charset(content_type: &str) -> (r: Option<EncodingChoice>)
    ensures
        r == declared(encode_utf8(content_type@)),
{
    let s = content_type.as_bytes();
    let key = "charset=".as_bytes();
    let n = s.len();
    let kl = key.len();
    let ghost ss = s@;
    assert(ss == encode_utf8(content_type@));
    assert(key@ == charset_key());
    let j = match find_key(s, key) {
        Some(j) => j,
        None => {
            return None;
        },
    };
    // the value runs to the next ';'
    let a = j + kl;
    let mut e: usize = a;
    while e < n && s[e] != 0x3B
        invariant
            ss == s@,
            n == ss.len(),
            a <= e <= n,
            value_end(ss, a as int) == value_end(ss, e as int),
        decreases n - e,
    {
        e = e + 1;
    }
    let ghost v = ss.subrange(a as int, e as int);
    assert(value_end(ss, e as int) == e);
    assert(key_pos(ss, 0) == Some(j as int));
    assert(charset_value(ss) == Some(v));
    // trim it
    let mut lo: usize = a;
    while lo < e && is_space_byte(s[lo])
        invariant
            ss == s@,
            n == ss.len(),
            a <= lo <= e <= n,
            v == ss.subrange(a as int, e as int),
            trim_start(v) == trim_start(ss.subrange(lo as int, e as int)),
        decreases e - lo,
    {
        assert(ss.subrange(lo as int, e as int).drop_first() =~= ss.subrange(lo + 1, e as int));
        lo = lo + 1;
    }
    assert(trim_start(v) == ss.subrange(lo as int, e as int));
    let mut hi: usize = e;
    while lo < hi && is_space_byte(s[hi - 1])
        invariant
            ss == s@,
            n == ss.len(),
            a <= lo <= hi <= e <= n,
            trimmed(v) == trim_end(ss.subrange(lo as int, hi as int)),
        decreases hi - lo,
    {
        assert(ss.subrange(lo as int, hi as int).drop_last() =~= ss.subrange(lo as int, hi - 1));
        hi = hi - 1;
    }
    assert(trimmed(v) == ss.subrange(lo as int, hi as int));
    alias_of(s, lo, hi)
}

/// The first position where `key` starts in `s`, lower-cased.
fn find_key(s: &[u8], key: &[u8]) -> (r: Option<usize>)
    requires
        key@ == charset_key(),
    ensures
        r matches Some(j) ==> key_pos(s@, 0) == Some(j as int) && j + key@.len() <= s@.len(),
        r is None ==> key_pos(s@, 0) is None,
{
    let n = s.len();
    let kl = key.len();
    if kl > n || n == 0 {
        return None;
    }
    let mut j: usize = 0;
    while j <= n - kl && j < n
        invariant
            n == s@.len(),
            kl == key@.len() <= n,
            key@ == charset_key(),
            j <= n,
            key_pos(s@, 0) == key_pos(s@, j as int),
        decreases n - j,
    {
        if lower_eq(s, j, j + kl, key) {
            return Some(j);
        }
        j = j + 1;
    }
    None
}

fn is_space_byte(c: u8) -> (r: bool)
    ensures
        r == is_space(c),
{
    c == 0x20 || c == 0x09 || c == 0x0A || c == 0x0D || c == 0x0C
}


/// The encoding applied to a body that is not valid UTF-8: the declared
/// charset when it is a known one, else the heuristics, else UTF-8.
pub open spec fn chosen(ct: Seq<u8>, b: Seq<u8>) -> EncodingChoice {
    match declared(ct) {
        Some(e) => e,
        None => match detected(b) {
            Some(e) => e,
            None => EncodingChoice::Utf8,
        },
    }
}

/// The text that encoding_rs makes of `b` with encoding `e`, malformed
/// sequences replaced by U+FFFD.
pub uninterp spec fn decoded_text(e: EncodingChoice, b: Seq<u8>) -> Seq<char>;

/// The text of a response body: the body itself when it is valid UTF-8,
/// else the body decoded with the chosen encoding.
pub open spec fn resolved_text(b: Seq<u8>, ct: Seq<u8>) -> Seq<char> {
    if valid_utf8(b) {
        decode_utf8(b)
    } else {
        decoded_text(chosen(ct, b), b)
    }
}

/// Relies on std::str::from_utf8: it succeeds exactly on valid UTF-8, and
/// then the text is what the bytes encode.
#[verifier::external_body]
fn utf8_text(b: &[u8]) -> (r: Option<&str>)
    ensures
        r is Some <==> valid_utf8(b@),
        r matches Some(s) ==> s@ == decode_utf8(b@),
{
    std::str::from_utf8(b).ok()
}

/// Relies on encoding_rs::Encoding::decode: the whole input is decoded, with
/// malformed sequences replaced rather than reported; what comes out depends
/// on the encoding and the bytes alone. Its buffer size computation cannot
/// overflow below the length bound.
#[verifier::external_body]
fn decode_lossy(e: EncodingChoice, b: &[u8]) -> (r: String)
    requires
        b@.len() <= usize::MAX / 4,
    ensures
        r@ == decoded_text(e, b@),
{
    let enc = match e {
        EncodingChoice::Utf8 => encoding_rs::UTF_8,
        EncodingChoice::Utf16Le => encoding_rs::UTF_16LE,
        EncodingChoice::ShiftJis => encoding_rs::SHIFT_JIS,
        EncodingChoice::EucJp => encoding_rs::EUC_JP,
        EncodingChoice::Iso2022Jp => encoding_rs::ISO_2022_JP,
        EncodingChoice::Windows1252 => encoding_rs::WINDOWS_1252,
    };
    enc.decode(b).0.into_owned()
}

/// The encoding to decode `bytes` with when they are not valid UTF-8.
pub fn choose_encoding(bytes: &[u8], content_type: &str) -> (r: EncodingChoice)
    ensures
        r == chosen(encode_utf8(content_type@), bytes@),
{
    match declared_charset(content_type) {
        Some(e) => e,
        None => match detect_encoding(bytes) {
            Some(e) => e,
            None => EncodingChoice::Utf8,
        },
    }
}

/// Turns a response body into text. Valid UTF-8 is taken as it is, whatever
/// the content type says; anything else is decoded, lossily, with the
/// encoding that `choose_encoding` picks. Never fails.
pub fn resolve_and_decode(bytes: &[u8], content_type: &str) -> (r: String)
    requires
        bytes@.len() <= usize::MAX / 4,
    ensures
        r@ == resolved_text(bytes@, encode_utf8(content_type@)),
{
    match utf8_text(bytes) {
        Some(s) => s.to_owned(),
        None => {
            let e = choose_encoding(bytes, content_type);
            decode_lossy(e, bytes)
        },
    }
}

/// A body that is valid UTF-8 comes back unchanged: its text encodes to
/// exactly the body's bytes, whatever the content type.
pub proof fn lemma_utf8_body_unchanged(b: Seq<u8>, ct: Seq<u8>)
    requires
        valid_utf8(b),
    ensures
        resolved_text(b, ct) == decode_utf8(b),
        encode_utf8(resolved_text(b, ct)) == b,
{
    decode_utf8_encode_utf8(b);
}

/// A body that is not valid UTF-8, has no byte-order mark, and shows the
/// Shift_JIS pair pattern in its first bytes is decoded as Shift_JIS when
/// the content type declares no known charset, neither as EUC-JP nor as
/// UTF-8.
pub proof fn lemma_sjis_pattern_selects_sjis(b: Seq<u8>, ct: Seq<u8>)
    requires
        !valid_utf8(b),
        declared(ct) is None,
        !has_utf8_bom(b),
        !has_utf16_bom(b),
        has_sjis_pair(sample(b)),
    ensures
        chosen(ct, b) == EncodingChoice::ShiftJis,
        resolved_text(b, ct) == decoded_text(EncodingChoice::ShiftJis, b),
{
}

} // verus!
