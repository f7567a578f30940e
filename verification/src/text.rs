//! Character-level helpers: building strings, UTF-8 decoding of names,
//! lexicographic ordering and percent-encoding of raw name bytes.

use vstd::prelude::*;
use vstd::string::*;
use vstd::utf8::*;

verus! {

/// Appends a character (std `String::push`).
#[verifier::external_body]
pub fn push_char(s: &mut String, c: char)
    ensures
        final(s)@ == old(s)@.push(c),
{
    s.push(c);
}

#[verifier::external_type_specification]
#[verifier::external_body]
pub struct ExUtf8Error(std::str::Utf8Error);

/// Decodes bytes as UTF-8 (std `str::from_utf8`): succeeds exactly on valid
/// UTF-8, and then yields the decoded characters.
#[verifier::external_body]
pub fn str_from_utf8(bytes: &[u8]) -> (r: Result<&str, std::str::Utf8Error>)
    ensures
        r is Ok <==> valid_utf8(bytes@),
        r matches Ok(s) ==> s@ == decode_utf8(bytes@),
{
    std::str::from_utf8(bytes)
}

/// What `String::from_utf8_lossy` makes of `bytes`.
pub uninterp spec fn utf8_lossy(bytes: Seq<u8>) -> Seq<char>;

/// Decodes bytes as UTF-8, each invalid sequence replaced by U+FFFD (std
/// `String::from_utf8_lossy`); valid UTF-8 decodes as it is.
#[verifier::external_body]
pub fn from_utf8_lossy(bytes: &[u8]) -> (s: String)
    ensures
        s@ == utf8_lossy(bytes@),
        valid_utf8(bytes@) ==> s@ == decode_utf8(bytes@),
{
    String::from_utf8_lossy(bytes).into_owned()
}

/// Whether two strings hold the same characters.
pub fn str_eq(a: &str, b: &str) -> (r: bool)
    ensures
        r == (a@ == b@),
{
    let n = a.unicode_len();
    if n != b.unicode_len() {
        return false;
    }
    let mut i: usize = 0;
    while i < n
        invariant
            i <= n,
            n == a@.len(),
            n == b@.len(),
            forall|j: int| 0 <= j < i ==> a@[j] == b@[j],
        decreases n - i,
    {
        if a.get_char(i) != b.get_char(i) {
            return false;
        }
        i = i + 1;
    }
    assert(a@ =~= b@);
    true
}

/// Whether `c` has the Unicode `White_Space` property: tab, line feed,
/// vertical tab, form feed, carriage return, space, next line, no-break
/// space, ogham space mark, the spaces from en quad to hair space, line and
/// paragraph separator, narrow no-break space, medium mathematical space and
/// ideographic space.
pub open spec fn unicode_whitespace(c: char) -> bool {
    let n = c as u32;
    ||| 0x09 <= n <= 0x0D
    ||| n == 0x20
    ||| n == 0x85
    ||| n == 0xA0
    ||| n == 0x1680
    ||| 0x2000 <= n <= 0x200A
    ||| n == 0x2028
    ||| n == 0x2029
    ||| n == 0x202F
    ||| n == 0x205F
    ||| n == 0x3000
}

/// Whether `c` is whitespace (as std `char::is_whitespace`: the Unicode
/// `White_Space` property).
pub fn is_whitespace(c: char) -> (r: bool)
    ensures
        r == unicode_whitespace(c),
        c == ' ' || c == '\t' || c == '\n' || c == '\u{0B}' || c == '\u{0C}' || c == '\r' ==> r,
        ('a' <= c <= 'z') || ('A' <= c <= 'Z') || ('0' <= c <= '9') ==> !r,
{
    let n = c as u32;
    (0x09 <= n && n <= 0x0D) || n == 0x20 || n == 0x85 || n == 0xA0 || n == 0x1680 || (0x2000 <= n && n <= 0x200A)
        || n == 0x2028 || n == 0x2029 || n == 0x202F || n == 0x205F || n == 0x3000
}

/// Every character of `s` is whitespace: `s` trims to nothing.
pub open spec fn is_blank(s: Seq<char>) -> bool {
    forall|i: int| 0 <= i < s.len() ==> unicode_whitespace(#[trigger] s[i])
}

/// Whether `s` is empty once leading and trailing whitespace is trimmed.
pub fn is_blank_str(s: &str) -> (r: bool)
    ensures
        r == is_blank(s@),
{
    let n = s.unicode_len();
    let mut i: usize = 0;
    while i < n
        invariant
            i <= n,
            n == s@.len(),
            forall|j: int| 0 <= j < i ==> unicode_whitespace(#[trigger] s@[j]),
        decreases n - i,
    {
        if !is_whitespace(s.get_char(i)) {
            return false;
        }
        i = i + 1;
    }
    true
}

/// `s` without its leading whitespace.
pub open spec fn trim_start(s: Seq<char>) -> Seq<char>
    decreases s.len(),
{
    if s.len() > 0 && unicode_whitespace(s[0]) {
        trim_start(s.drop_first())
    } else {
        s
    }
}

/// `s` without its trailing whitespace.
pub open spec fn trim_end(s: Seq<char>) -> Seq<char>
    decreases s.len(),
{
    if s.len() > 0 && unicode_whitespace(s.last()) {
        trim_end(s.drop_last())
    } else {
        s
    }
}

/// `s` without leading and trailing whitespace (std `str::trim`).
pub open spec fn trimmed(s: Seq<char>) -> Seq<char> {
    trim_end(trim_start(s))
}

/// `s` without leading and trailing whitespace.
pub fn trim(s: &str) -> (r: String)
    ensures
        r@ == trimmed(s@),
{
    let cs = chars_of(s);
    let n = cs.len();
    let mut i: usize = 0;
    assert(cs@.subrange(0, n as int) =~= s@);
    while i < n && is_whitespace(cs[i])
        invariant
            i <= n,
            n == cs@.len(),
            cs@ == s@,
            trim_start(cs@.subrange(i as int, n as int)) == trim_start(s@),
        decreases n - i,
    {
        assert(cs@.subrange(i as int, n as int).drop_first() =~= cs@.subrange(i + 1, n as int));
        i = i + 1;
    }
    assert(trim_start(cs@.subrange(i as int, n as int)) == cs@.subrange(i as int, n as int));
    let mut j: usize = n;
    while j > i && is_whitespace(cs[j - 1])
        invariant
            i <= j <= n,
            n == cs@.len(),
            trim_end(cs@.subrange(i as int, j as int)) == trim_end(cs@.subrange(i as int, n as int)),
        decreases j,
    {
        assert(cs@.subrange(i as int, j as int).drop_last() =~= cs@.subrange(i as int, j - 1));
        j = j - 1;
    }
    assert(trim_end(cs@.subrange(i as int, j as int)) == cs@.subrange(i as int, j as int));
    string_from_chars(&cs, i, j)
}

/// The decimal digit character for `d` (0 to 9).
pub open spec fn digit_char(d: nat) -> char {
    if d == 0 { '0' } else if d == 1 { '1' } else if d == 2 { '2' } else if d == 3 { '3' } else if d == 4 {
        '4'
    } else if d == 5 { '5' } else if d == 6 { '6' } else if d == 7 { '7' } else if d == 8 { '8' } else { '9' }
}

/// The decimal representation of `n`, without leading zeros.
pub open spec fn decimal(n: nat) -> Seq<char>
    decreases n,
{
    if n < 10 {
        seq![digit_char(n)]
    } else {
        decimal(n / 10).push(digit_char(n % 10))
    }
}

pub(crate) fn digit(d: u64) -> (c: char)
    requires
        d < 10,
    ensures
        c == digit_char(d as nat),
{
    match d {
        0 => '0',
        1 => '1',
        2 => '2',
        3 => '3',
        4 => '4',
        5 => '5',
        6 => '6',
        7 => '7',
        8 => '8',
        _ => '9',
    }
}

/// `n` in decimal.
pub fn decimal_string(n: u64) -> (s: String)
    ensures
        s@ == decimal(n as nat),
    decreases n,
{
    if n < 10 {
        let mut s = String::new();
        push_char(&mut s, digit(n));
        assert(s@ =~= seq![digit_char(n as nat)]);
        s
    } else {
        let mut s = decimal_string(n / 10);
        push_char(&mut s, digit(n % 10));
        s
    }
}

/// The decimal representation of `n`, with a leading `-` when negative.
pub open spec fn signed_decimal(n: int) -> Seq<char> {
    if n < 0 {
        seq!['-'] + decimal((-n) as nat)
    } else {
        decimal(n as nat)
    }
}

/// `n` in decimal, with a leading `-` when negative.
pub fn signed_decimal_string(n: i64) -> (s: String)
    ensures
        s@ == signed_decimal(n as int),
{
    if n < 0 {
        let magnitude: u64 = if n == i64::MIN {
            9223372036854775808u64
        } else {
            (-n) as u64
        };
        let mut s = String::new();
        push_char(&mut s, '-');
        let digits = decimal_string(magnitude);
        s.append(digits.as_str());
        s
    } else {
        decimal_string(n as u64)
    }
}

/// Whether `s` starts with `p`.
pub fn str_starts_with(s: &str, p: &str) -> (r: bool)
    ensures
        r == p@.is_prefix_of(s@),
{
    let n = p.unicode_len();
    if n > s.unicode_len() {
        return false;
    }
    let mut i: usize = 0;
    while i < n
        invariant
            i <= n <= s@.len(),
            n == p@.len(),
            p@.subrange(0, i as int) =~= s@.subrange(0, i as int),
        decreases n - i,
    {
        if p.get_char(i) != s.get_char(i) {
            assert(p@[i as int] != s@.subrange(0, n as int)[i as int]);
            return false;
        }
        assert(p@.subrange(0, i + 1) =~= s@.subrange(0, i + 1));
        i = i + 1;
    }
    assert(p@ =~= p@.subrange(0, n as int));
    true
}

/// The pieces of `p` between occurrences of `sep` (always at least one,
/// possibly empty).
pub open spec fn split_on(p: Seq<char>, sep: char) -> Seq<Seq<char>>
    decreases p.len(),
{
    if p.len() == 0 {
        seq![Seq::<char>::empty()]
    } else {
        let r = split_on(p.drop_last(), sep);
        if p.last() == sep {
            r.push(Seq::<char>::empty())
        } else {
            r.update(r.len() - 1, r.last().push(p.last()))
        }
    }
}

pub proof fn lemma_split_on_nonempty(p: Seq<char>, sep: char)
    ensures
        split_on(p, sep).len() >= 1,
    decreases p.len(),
{
    if p.len() > 0 {
        lemma_split_on_nonempty(p.drop_last(), sep);
    }
}

/// Appending text without separators extends the last piece.
pub proof fn lemma_split_on_extend(x: Seq<char>, y: Seq<char>, sep: char)
    requires
        !y.contains(sep),
    ensures
        split_on(x + y, sep) == split_on(x, sep).update(
            split_on(x, sep).len() - 1,
            split_on(x, sep).last() + y,
        ),
    decreases y.len(),
{
    lemma_split_on_nonempty(x, sep);
    if y.len() == 0 {
        assert(x + y =~= x);
        assert(split_on(x, sep).last() + y =~= split_on(x, sep).last());
        assert(split_on(x, sep).update(split_on(x, sep).len() - 1, split_on(x, sep).last()) =~= split_on(x, sep));
    } else {
        let y0 = y.drop_last();
        let c = y.last();
        assert(!y0.contains(sep)) by {
            if y0.contains(sep) {
                let k = choose|k: int| 0 <= k < y0.len() && y0[k] == sep;
                assert(y[k] == sep);
            }
        }
        assert(c != sep) by {
            assert(y[y.len() - 1] == c);
        }
        lemma_split_on_extend(x, y0, sep);
        assert((x + y).drop_last() =~= x + y0);
        assert((x + y).last() == c);
        assert(split_on(x, sep).last() + y =~= (split_on(x, sep).last() + y0).push(c));
        assert(split_on(x + y, sep) =~= split_on(x, sep).update(
            split_on(x, sep).len() - 1,
            split_on(x, sep).last() + y,
        ));
    }
}

/// Appending a separator starts a new, empty piece.
pub proof fn lemma_split_on_sep(x: Seq<char>, sep: char)
    ensures
        split_on(x.push(sep), sep) == split_on(x, sep).push(Seq::<char>::empty()),
{
    assert(x.push(sep).drop_last() =~= x);
}

/// The texts of `v`.
pub open spec fn strings(v: Seq<String>) -> Seq<Seq<char>> {
    v.map_values(|x: String| x@)
}

/// The pieces of `s` between occurrences of `sep` (std `str::split`).
pub fn split_fields(s: &str, sep: char) -> (r: Vec<String>)
    ensures
        strings(r@) == split_on(s@, sep),
{
    let cs = chars_of(s);
    let n = cs.len();
    let mut out: Vec<String> = Vec::new();
    let mut start: usize = 0;
    let mut i: usize = 0;
    assert(cs@.subrange(0, 0) =~= Seq::<char>::empty());
    while i < n
        invariant
            start <= i <= n,
            n == cs@.len(),
            cs@ == s@,
            split_on(cs@.subrange(0, i as int), sep).len() >= 1,
            split_on(cs@.subrange(0, i as int), sep).last() == cs@.subrange(start as int, i as int),
            strings(out@) == split_on(cs@.subrange(0, i as int), sep).drop_last(),
        decreases n - i,
    {
        let ghost pre = cs@.subrange(0, i as int);
        let ghost post = cs@.subrange(0, i + 1);
        proof {
            assert(post.drop_last() =~= pre);
            lemma_split_on_nonempty(pre, sep);
            lemma_split_on_nonempty(post, sep);
        }
        if cs[i] == sep {
            let piece = string_from_chars(&cs, start, i);
            let ghost before = out@;
            out.push(piece);
            assert(strings(out@) =~= strings(before).push(piece@));
            assert(split_on(post, sep) == split_on(pre, sep).push(Seq::<char>::empty()));
            assert(split_on(post, sep).drop_last() =~= split_on(pre, sep));
            assert(split_on(pre, sep) =~= split_on(pre, sep).drop_last().push(split_on(pre, sep).last()));
            start = i + 1;
            assert(cs@.subrange(start as int, i + 1) =~= Seq::<char>::empty());
        } else {
            assert(split_on(post, sep).drop_last() =~= split_on(pre, sep).drop_last());
            assert(cs@.subrange(start as int, i + 1) =~= cs@.subrange(start as int, i as int).push(cs@[i as int]));
        }
        i = i + 1;
    }
    let ghost full = cs@.subrange(0, n as int);
    assert(full =~= s@);
    proof {
        lemma_split_on_nonempty(full, sep);
    }
    let piece = string_from_chars(&cs, start, n);
    let ghost before = out@;
    out.push(piece);
    assert(strings(out@) =~= strings(before).push(piece@));
    assert(split_on(full, sep) =~= split_on(full, sep).drop_last().push(split_on(full, sep).last()));
    out
}

/// The lowercase hexadecimal digit character for `d` (0 to 15).
pub open spec fn lower_hex_char(d: nat) -> char {
    if d < 10 {
        digit_char(d)
    } else if d == 10 {
        'a'
    } else if d == 11 {
        'b'
    } else if d == 12 {
        'c'
    } else if d == 13 {
        'd'
    } else if d == 14 {
        'e'
    } else {
        'f'
    }
}

/// The lowercase hexadecimal representation of `n`, without leading zeros.
pub open spec fn lower_hex(n: nat) -> Seq<char>
    decreases n,
{
    if n < 16 {
        seq![lower_hex_char(n)]
    } else {
        lower_hex(n / 16).push(lower_hex_char(n % 16))
    }
}

fn lower_hex_digit(d: u64) -> (c: char)
    requires
        d < 16,
    ensures
        c == lower_hex_char(d as nat),
{
    if d < 10 {
        digit(d)
    } else if d == 10 {
        'a'
    } else if d == 11 {
        'b'
    } else if d == 12 {
        'c'
    } else if d == 13 {
        'd'
    } else if d == 14 {
        'e'
    } else {
        'f'
    }
}

/// `n` in lowercase hexadecimal.
pub fn lower_hex_string(n: u64) -> (s: String)
    ensures
        s@ == lower_hex(n as nat),
    decreases n,
{
    if n < 16 {
        let mut s = String::new();
        push_char(&mut s, lower_hex_digit(n));
        assert(s@ =~= seq![lower_hex_char(n as nat)]);
        s
    } else {
        let mut s = lower_hex_string(n / 16);
        push_char(&mut s, lower_hex_digit(n % 16));
        s
    }
}

/// `s` from character `from` on.
pub fn suffix_from(s: &str, from: usize) -> (r: String)
    requires
        from <= s@.len(),
    ensures
        r@ == s@.skip(from as int),
{
    let cs = chars_of(s);
    let r = string_from_chars(&cs, from, cs.len());
    assert(cs@.subrange(from as int, cs@.len() as int) =~= s@.skip(from as int));
    r
}

/// The characters of `s`.
pub fn chars_of(s: &str) -> (r: Vec<char>)
    ensures
        r@ == s@,
{
    let n = s.unicode_len();
    let mut v: Vec<char> = Vec::new();
    let mut i: usize = 0;
    while i < n
        invariant
            i <= n,
            n == s@.len(),
            v@ == s@.subrange(0, i as int),
        decreases n - i,
    {
        let c = s.get_char(i);
        v.push(c);
        i = i + 1;
    }
    assert(v@ =~= s@);
    v
}

/// A string holding `cs[from..to]`.
pub fn string_from_chars(cs: &Vec<char>, from: usize, to: usize) -> (r: String)
    requires
        from <= to <= cs@.len(),
    ensures
        r@ == cs@.subrange(from as int, to as int),
{
    let mut s = String::new();
    let mut i = from;
    while i < to
        invariant
            from <= i <= to,
            to <= cs@.len(),
            s@ == cs@.subrange(from as int, i as int),
        decreases to - i,
    {
        push_char(&mut s, cs[i]);
        assert(s@ =~= cs@.subrange(from as int, i + 1));
        i = i + 1;
    }
    s
}

/// Owned copy of a string slice.
pub fn owned(s: &str) -> (r: String)
    ensures
        r@ == s@,
{
    String::from_str(s)
}

/// Lexicographic order on character sequences by code point (the order of
/// their UTF-8 encodings), `a` before or equal to `b`.
pub open spec fn chars_le(a: Seq<char>, b: Seq<char>) -> bool
    decreases a.len(),
{
    if a.len() == 0 {
        true
    } else if b.len() == 0 {
        false
    } else if (a[0] as u32) < (b[0] as u32) {
        true
    } else if a[0] == b[0] {
        chars_le(a.drop_first(), b.drop_first())
    } else {
        false
    }
}

pub proof fn lemma_chars_le_total(a: Seq<char>, b: Seq<char>)
    ensures
        chars_le(a, b) || chars_le(b, a),
    decreases a.len(),
{
    if a.len() > 0 && b.len() > 0 && a[0] == b[0] {
        lemma_chars_le_total(a.drop_first(), b.drop_first());
    } else if a.len() > 0 && b.len() > 0 {
        assert((a[0] as u32) != (b[0] as u32)) by {
            if (a[0] as u32) == (b[0] as u32) {
                vstd::utf8::char_u32_cast(a[0], a[0] as u32);
                vstd::utf8::char_u32_cast(b[0], b[0] as u32);
            }
        }
    }
}

pub proof fn lemma_chars_le_trans(a: Seq<char>, b: Seq<char>, c: Seq<char>)
    requires
        chars_le(a, b),
        chars_le(b, c),
    ensures
        chars_le(a, c),
    decreases a.len(),
{
    if a.len() > 0 && b.len() > 0 && c.len() > 0 && a[0] == b[0] && b[0] == c[0] {
        lemma_chars_le_trans(a.drop_first(), b.drop_first(), c.drop_first());
    }
}

/// Whether `a` orders before or equal to `b`.
pub fn chars_le_exec(a: &Vec<char>, b: &Vec<char>) -> (r: bool)
    ensures
        r == chars_le(a@, b@),
{
    let mut i: usize = 0;
    assert(a@.skip(0) =~= a@);
    assert(b@.skip(0) =~= b@);
    while i < a.len() && i < b.len()
        invariant
            i <= a@.len(),
            i <= b@.len(),
            chars_le(a@, b@) == chars_le(a@.skip(i as int), b@.skip(i as int)),
        decreases a@.len() - i,
    {
        let x = a[i];
        let y = b[i];
        if (x as u32) < (y as u32) {
            return true;
        }
        if x != y {
            return false;
        }
        assert(a@.skip(i as int).drop_first() =~= a@.skip(i + 1));
        assert(b@.skip(i as int).drop_first() =~= b@.skip(i + 1));
        i = i + 1;
    }
    i == a.len()
}

/// Whether byte `b` is kept as is by percent-encoding.
pub open spec fn is_safe_byte(b: u8) -> bool {
    (65 <= b <= 90) || (97 <= b <= 122) || (48 <= b <= 57) || b == 45 || b == 95 || b == 46
}

/// Uppercase hexadecimal digit of a value below 16.
pub open spec fn hex_digit(v: u8) -> char {
    if v < 10 {
        ((48 + v) as u8) as char
    } else {
        ((55 + v) as u8) as char
    }
}

/// Characters one byte is encoded to.
pub open spec fn encode_byte(b: u8) -> Seq<char> {
    if is_safe_byte(b) {
        seq![b as char]
    } else {
        seq!['%', hex_digit(b / 16), hex_digit(b % 16)]
    }
}

/// Percent-encoding of raw bytes: safe bytes kept, others as `%XX`.
pub open spec fn percent_encoded(bytes: Seq<u8>) -> Seq<char>
    decreases bytes.len(),
{
    if bytes.len() == 0 {
        Seq::empty()
    } else {
        percent_encoded(bytes.drop_last()) + encode_byte(bytes.last())
    }
}

fn hex_digit_exec(v: u8) -> (c: char)
    requires
        v < 16,
    ensures
        c == hex_digit(v),
{
    if v < 10 {
        ((48 + v) as u8) as char
    } else {
        ((55 + v) as u8) as char
    }
}

/// Percent-encodes arbitrary bytes into a name.
pub fn percent_encode_name(bytes: &[u8]) -> (s: String)
    ensures
        s@ == percent_encoded(bytes@),
{
    let mut s = String::new();
    let mut i: usize = 0;
    while i < bytes.len()
        invariant
            i <= bytes@.len(),
            s@ == percent_encoded(bytes@.subrange(0, i as int)),
        decreases bytes@.len() - i,
    {
        let b = bytes[i];
        let safe = (65 <= b && b <= 90) || (97 <= b && b <= 122) || (48 <= b && b <= 57) || b == 45
            || b == 95 || b == 46;
        if safe {
            push_char(&mut s, b as char);
        } else {
            push_char(&mut s, '%');
            push_char(&mut s, hex_digit_exec(b / 16));
            push_char(&mut s, hex_digit_exec(b % 16));
        }
        assert(bytes@.subrange(0, i + 1).drop_last() =~= bytes@.subrange(0, i as int));
        assert(s@ =~= percent_encoded(bytes@.subrange(0, i + 1)));
        i = i + 1;
    }
    assert(bytes@.subrange(0, bytes@.len() as int) =~= bytes@);
    s
}

/// Name under which raw bytes are stored: the decoded text when the bytes are
/// valid UTF-8, their percent-encoding otherwise.
pub open spec fn internal_name(bytes: Seq<u8>) -> Seq<char> {
    if valid_utf8(bytes) {
        decode_utf8(bytes)
    } else {
        percent_encoded(bytes)
    }
}

/// Computes [`internal_name`].
pub fn internal_name_of(bytes: &[u8]) -> (s: String)
    ensures
        s@ == internal_name(bytes@),
{
    match str_from_utf8(bytes) {
        Ok(t) => owned(t),
        Err(_) => percent_encode_name(bytes),
    }
}

} // verus!
