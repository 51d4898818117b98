//! Text building and text parsing with exact contracts.
//!
//! Paths, command lines, labels and identifiers are all plain text here, and a
//! contract speaks of a text by its sequence of characters.

use vstd::prelude::*;

verus! {

/// `String::push` of the standard library: appends one character.
pub assume_specification[ String::push ](s: &mut String, c: char)
    ensures
        final(s)@ == old(s)@.push(c),
;

/// The decimal digit `d`, for `d` below ten.
pub open spec fn digit_char(d: nat) -> char {
    (48 + d) as char
}

/// The decimal numeral of `n`, without leading zeros.
pub open spec fn decimal(n: nat) -> Seq<char>
    decreases n,
{
    if n < 10 {
        seq![digit_char(n)]
    } else {
        decimal(n / 10).push(digit_char(n % 10))
    }
}

/// The decimal numeral of a signed number.
pub open spec fn signed_decimal(n: int) -> Seq<char> {
    if n < 0 {
        seq!['-'] + decimal((-n) as nat)
    } else {
        decimal(n as nat)
    }
}

/// `n` zero characters.
pub open spec fn zeros(n: nat) -> Seq<char> {
    Seq::new(n, |i: int| '0')
}

/// The decimal numeral of `n`, filled up with leading zeros to `width` characters.
pub open spec fn decimal_padded(n: nat, width: nat) -> Seq<char> {
    if decimal(n).len() >= width {
        decimal(n)
    } else {
        zeros((width - decimal(n).len()) as nat) + decimal(n)
    }
}

/// The lower-case hexadecimal digit `d`, for `d` below sixteen.
pub open spec fn hex_char(d: nat) -> char {
    if d < 10 {
        (48 + d) as char
    } else {
        (87 + d) as char
    }
}

/// A byte as two lower-case hexadecimal digits.
pub open spec fn hex_byte(b: u8) -> Seq<char> {
    seq![hex_char((b / 16) as nat), hex_char((b % 16) as nat)]
}

/// Joining a name to a directory: an absolute name replaces the directory, and
/// otherwise exactly one separator stands between the two.
pub open spec fn joined(base: Seq<char>, name: Seq<char>) -> Seq<char> {
    if name.len() > 0 && name[0] == '/' {
        name
    } else if base.len() == 0 || base.last() == '/' {
        base + name
    } else {
        base.push('/') + name
    }
}

/// The texts that a vector of strings holds.
pub open spec fn texts(v: Seq<String>) -> Seq<Seq<char>> {
    v.map_values(|s: String| s@)
}

/// `s` begins with `prefix`.
pub open spec fn has_prefix<T>(s: Seq<T>, prefix: Seq<T>) -> bool {
    prefix.len() <= s.len() && s.take(prefix.len() as int) == prefix
}

/// `s` without its first `prefix.len()` items.
pub open spec fn without_prefix<T>(s: Seq<T>, prefix: Seq<T>) -> Seq<T> {
    s.skip(prefix.len() as int)
}

/// Appending to a vector of strings appends to its texts.
pub broadcast proof fn lemma_texts_push(v: Seq<String>, s: String)
    ensures
        #[trigger] texts(v.push(s)) == texts(v).push(s@),
{
    assert(texts(v.push(s)) =~= texts(v).push(s@));
}

/// Concatenation may be regrouped.
pub proof fn lemma_regroup<T>(a: Seq<T>, b: Seq<T>, c: Seq<T>)
    ensures
        a + b + c == a + (b + c),
{
    assert(a + b + c =~= a + (b + c));
}

/// Different numbers have different numerals.
pub proof fn lemma_decimal_is_injective(a: nat, b: nat)
    ensures
        decimal(a) == decimal(b) <==> a == b,
    decreases a,
{
    if decimal(a) == decimal(b) {
        lemma_decimal_is_nonempty(a / 10);
        lemma_decimal_is_nonempty(b / 10);
        assert(decimal(a).last() == digit_char(a % 10));
        assert(decimal(b).last() == digit_char(b % 10));
        assert(a % 10 == b % 10);
        if a >= 10 {
            assert(decimal(a).drop_last() =~= decimal(a / 10));
            assert(decimal(b).drop_last() =~= decimal(b / 10));
            lemma_decimal_is_injective(a / 10, b / 10);
        }
    }
}

/// A numeral has at least one digit.
pub proof fn lemma_decimal_is_nonempty(n: nat)
    ensures
        decimal(n).len() > 0,
{
}

/// Equal encodings come from equal texts.
pub proof fn lemma_encoding_is_injective(a: Seq<char>, b: Seq<char>)
    ensures
        vstd::utf8::encode_utf8(a) == vstd::utf8::encode_utf8(b) <==> a == b,
{
    broadcast use vstd::utf8::encode_utf8_decode_utf8;

    assert(vstd::utf8::decode_utf8(vstd::utf8::encode_utf8(a)) == a);
    assert(vstd::utf8::decode_utf8(vstd::utf8::encode_utf8(b)) == b);
}

/// Whether two byte strings are equal.
pub fn bytes_eq(a: &[u8], b: &[u8]) -> (r: bool)
    ensures
        r == (a@ == b@),
{
    if a.len() != b.len() {
        return false;
    }
    let mut i: usize = 0;
    while i < a.len()
        invariant
            a@.len() == b@.len(),
            0 <= i <= a@.len(),
            forall|j: int| 0 <= j < i ==> a@[j] == b@[j],
        decreases a@.len() - i,
    {
        if a[i] != b[i] {
            return false;
        }
        i = i + 1;
    }
    assert(a@ =~= b@);
    true
}

/// Whether two texts are equal.
pub fn str_eq(a: &str, b: &str) -> (r: bool)
    ensures
        r == (a@ == b@),
{
    proof {
        lemma_encoding_is_injective(a@, b@);
    }
    bytes_eq(a.as_bytes(), b.as_bytes())
}

/// Whether `s` begins with `prefix`.
pub fn starts_with(s: &str, prefix: &str) -> (r: bool)
    ensures
        r == has_prefix(s@, prefix@),
{
    let n: usize = prefix.unicode_len();
    if s.unicode_len() < n {
        return false;
    }
    str_eq(s.substring_char(0, n), prefix)
}

/// What follows `prefix` in `s`, where `s` begins with it.
pub fn strip_prefix<'a>(s: &'a str, prefix: &str) -> (r: Option<&'a str>)
    ensures
        r is Some <==> has_prefix(s@, prefix@),
        r matches Some(rest) ==> rest@ == without_prefix(s@, prefix@),
{
    if starts_with(s, prefix) {
        let n: usize = prefix.unicode_len();
        let len: usize = s.unicode_len();
        Some(s.substring_char(n, len))
    } else {
        None
    }
}

/// Appends the decimal numeral of `n`.
pub fn push_decimal(s: &mut String, n: u128)
    ensures
        final(s)@ == old(s)@ + decimal(n as nat),
    decreases n,
{
    if n >= 10 {
        push_decimal(s, n / 10);
    }
    let d: u8 = (n % 10) as u8;
    s.push((48 + d) as char);
}

/// The decimal numeral of `n`.
pub fn decimal_text(n: u128) -> (r: String)
    ensures
        r@ == decimal(n as nat),
{
    let mut s = String::new();
    push_decimal(&mut s, n);
    s
}

/// The decimal numeral of a signed number.
pub fn signed_decimal_text(n: i32) -> (r: String)
    ensures
        r@ == signed_decimal(n as int),
{
    let mut s = String::new();
    if n < 0 {
        s.push('-');
        let m: i64 = -(n as i64);
        push_decimal(&mut s, m as u128);
    } else {
        push_decimal(&mut s, n as u128);
    }
    s
}

/// The decimal numeral of `n`, filled up with leading zeros to `width` characters.
pub fn decimal_padded_text(n: u128, width: usize) -> (r: String)
    ensures
        r@ == decimal_padded(n as nat, width as nat),
{
    let digits = decimal_text(n);
    let len: usize = digits.as_str().unicode_len();
    let mut s = String::new();
    if len < width {
        let mut i: usize = 0;
        while i < width - len
            invariant
                0 <= i <= width - len,
                s@ == zeros(i as nat),
            decreases width - len - i,
        {
            s.push('0');
            i = i + 1;
            assert(s@ =~= zeros(i as nat));
        }
    }
    s.append(digits.as_str());
    assert(s@ =~= decimal_padded(n as nat, width as nat));
    s
}

/// Appends a byte as two lower-case hexadecimal digits.
pub fn push_hex_byte(s: &mut String, b: u8)
    ensures
        final(s)@ == old(s)@ + hex_byte(b),
{
    let hi: u8 = b / 16;
    let lo: u8 = b % 16;
    s.push(if hi < 10 { (48 + hi) as char } else { (87 + hi) as char });
    s.push(if lo < 10 { (48 + lo) as char } else { (87 + lo) as char });
    assert(s@ =~= old(s)@ + hex_byte(b));
}

/// Two texts, one after the other.
pub fn cat2(a: &str, b: &str) -> (r: String)
    ensures
        r@ == a@ + b@,
{
    let mut s = a.to_owned();
    s.append(b);
    s
}

/// Three texts, one after the other.
pub fn cat3(a: &str, b: &str, c: &str) -> (r: String)
    ensures
        r@ == a@ + b@ + c@,
{
    let mut s = cat2(a, b);
    s.append(c);
    s
}

/// Joins a name to a directory.
pub fn join_path(base: &str, name: &str) -> (r: String)
    ensures
        r@ == joined(base@, name@),
{
    let name_len: usize = name.unicode_len();
    if name_len > 0 && name.get_char(0) == '/' {
        return name.to_owned();
    }
    let base_len: usize = base.unicode_len();
    if base_len == 0 || base.get_char(base_len - 1) == '/' {
        cat2(base, name)
    } else {
        let mut s = base.to_owned();
        s.push('/');
        s.append(name);
        s
    }
}

/// Appends one text to a list of texts.
pub fn push_text(args: &mut Vec<String>, s: &str)
    ensures
        texts(final(args)@) == texts(old(args)@).push(s@),
{
    broadcast use lemma_texts_push;

    args.push(s.to_owned());
}

/// Appends two texts to a list of texts.
pub fn push_pair(args: &mut Vec<String>, first: &str, second: &str)
    ensures
        texts(final(args)@) == texts(old(args)@).push(first@).push(second@),
{
    push_text(args, first);
    push_text(args, second);
}

/// The text that an optional text holds.
pub open spec fn maybe(t: Option<String>) -> Option<Seq<char>> {
    match t {
        Some(s) => Some(s@),
        None => None,
    }
}

/// White space, as Unicode defines it.
pub open spec fn is_space(c: char) -> bool {
    let n = c as u32;
    ||| 0x9 <= n <= 0xd
    ||| n == 0x20
    ||| n == 0x85
    ||| n == 0xa0
    ||| n == 0x1680
    ||| 0x2000 <= n <= 0x200a
    ||| n == 0x2028
    ||| n == 0x2029
    ||| n == 0x202f
    ||| n == 0x205f
    ||| n == 0x3000
}

/// Whether `c` is white space.
pub fn is_whitespace(c: char) -> (r: bool)
    ensures
        r == is_space(c),
{
    let n: u32 = c as u32;
    (0x9 <= n && n <= 0xd) || n == 0x20 || n == 0x85 || n == 0xa0 || n == 0x1680 || (0x2000 <= n
        && n <= 0x200a) || n == 0x2028 || n == 0x2029 || n == 0x202f || n == 0x205f || n == 0x3000
}

/// Whether a text is empty or white space only.
pub open spec fn is_blank_text(s: Seq<char>) -> bool {
    forall|i: int| 0 <= i < s.len() ==> is_space(#[trigger] s[i])
}

/// Whether a text is empty or white space only.
pub fn is_blank(s: &str) -> (r: bool)
    ensures
        r == is_blank_text(s@),
{
    let chars = char_vec(s);
    let len: usize = chars.len();
    let mut i: usize = 0;
    while i < len
        invariant
            i <= len == chars@.len(),
            chars@ == s@,
            forall|j: int| 0 <= j < i ==> is_space(#[trigger] s@[j]),
        decreases len - i,
    {
        if !is_whitespace(chars[i]) {
            assert(!is_space(s@[i as int]));
            return false;
        }
        i += 1;
    }
    true
}

/// How many items at the front of `s` satisfy `p`.
pub open spec fn run_length(s: Seq<char>, p: spec_fn(char) -> bool) -> nat
    decreases s.len(),
{
    if s.len() == 0 || !p(s[0]) {
        0
    } else {
        1 + run_length(s.skip(1), p)
    }
}

/// The longest run at the front is as long as the items before the first one
/// that does not satisfy `p`.
pub proof fn lemma_run_length(s: Seq<char>, p: spec_fn(char) -> bool, n: int)
    requires
        0 <= n <= s.len(),
        forall|i: int| 0 <= i < n ==> p(#[trigger] s[i]),
        n < s.len() ==> !p(s[n]),
    ensures
        run_length(s, p) == n,
    decreases n,
{
    if n > 0 {
        let rest = s.skip(1);
        assert(forall|i: int| 0 <= i < n - 1 ==> #[trigger] rest[i] == s[i + 1]);
        if n < s.len() {
            assert(rest[n - 1] == s[n]);
        }
        lemma_run_length(rest, p, n - 1);
    }
}

/// A run is no longer than the text it stands in.
pub proof fn lemma_run_length_bound(s: Seq<char>, p: spec_fn(char) -> bool)
    ensures
        run_length(s, p) <= s.len(),
    decreases s.len(),
{
    if s.len() > 0 && p(s[0]) {
        lemma_run_length_bound(s.skip(1), p);
    }
}

/// The length of the white space at the front of a text.
pub open spec fn space_length(s: Seq<char>) -> nat {
    run_length(s, |c: char| is_space(c))
}

/// The length of the word at the front of a text.
pub open spec fn word_length(s: Seq<char>) -> nat {
    run_length(s, |c: char| !is_space(c))
}

/// The length of the line at the front of a text, without its line feed.
pub open spec fn line_length(s: Seq<char>) -> nat {
    run_length(s, |c: char| c != '\n')
}

/// The words of a text: its longest stretches without white space.
pub open spec fn words(s: Seq<char>) -> Seq<Seq<char>>
    decreases s.len(),
{
    let t = s.skip(space_length(s) as int);
    let n = word_length(t);
    proof {
        lemma_run_length_bound(s, |c: char| is_space(c));
        lemma_run_length_bound(t, |c: char| !is_space(c));
    }
    if n == 0 {
        Seq::empty()
    } else {
        seq![t.take(n as int)] + words(t.skip(n as int))
    }
}

/// The characters of a text.
pub fn char_vec(s: &str) -> (r: Vec<char>)
    ensures
        r@ == s@,
{
    let mut out: Vec<char> = Vec::new();
    for c in it: s.chars()
        invariant
            it.seq() == s@,
            out@ == it.seq().take(it.index() as int),
    {
        out.push(c);
        assert(out@ =~= it.seq().take(it.index() as int + 1));
    }
    assert(out@ =~= s@);
    out
}

/// The characters from `from` up to `to` as a text.
pub fn text_of(chars: &[char], from: usize, to: usize) -> (r: String)
    requires
        from <= to <= chars@.len(),
    ensures
        r@ == chars@.subrange(from as int, to as int),
{
    let mut s = String::new();
    let mut i: usize = from;
    while i < to
        invariant
            from <= i <= to <= chars@.len(),
            s@ == chars@.subrange(from as int, i as int),
        decreases to - i,
    {
        s.push(chars[i]);
        i = i + 1;
        assert(s@ =~= chars@.subrange(from as int, i as int));
    }
    s
}

/// Where the white space that begins at `from` ends.
pub fn skip_space(chars: &[char], from: usize, end: usize) -> (r: usize)
    requires
        from <= end <= chars@.len(),
    ensures
        from <= r <= end,
        r - from == space_length(chars@.subrange(from as int, end as int)),
{
    let mut i: usize = from;
    while i < end && is_whitespace(chars[i])
        invariant
            from <= i <= end <= chars@.len(),
            forall|j: int| from <= j < i ==> is_space(#[trigger] chars@[j]),
        decreases end - i,
    {
        i = i + 1;
    }
    proof {
        lemma_run_length(
            chars@.subrange(from as int, end as int),
            |c: char| is_space(c),
            i - from,
        );
    }
    i
}

/// Where the word that begins at `from` ends.
pub fn skip_word(chars: &[char], from: usize, end: usize) -> (r: usize)
    requires
        from <= end <= chars@.len(),
    ensures
        from <= r <= end,
        r - from == word_length(chars@.subrange(from as int, end as int)),
{
    let mut i: usize = from;
    while i < end && !is_whitespace(chars[i])
        invariant
            from <= i <= end <= chars@.len(),
            forall|j: int| from <= j < i ==> !is_space(#[trigger] chars@[j]),
        decreases end - i,
    {
        i = i + 1;
    }
    proof {
        lemma_run_length(
            chars@.subrange(from as int, end as int),
            |c: char| !is_space(c),
            i - from,
        );
    }
    i
}

/// Where the line that begins at `from` ends.
pub fn skip_line(chars: &[char], from: usize) -> (r: usize)
    requires
        from <= chars@.len(),
    ensures
        from <= r <= chars@.len(),
        r - from == line_length(chars@.skip(from as int)),
        r < chars@.len() ==> chars@[r as int] == '\n',
{
    let mut i: usize = from;
    while i < chars.len() && chars[i] != '\n'
        invariant
            from <= i <= chars@.len(),
            forall|j: int| from <= j < i ==> #[trigger] chars@[j] != '\n',
        decreases chars@.len() - i,
    {
        i = i + 1;
    }
    proof {
        lemma_run_length(chars@.skip(from as int), |c: char| c != '\n', i - from);
    }
    i
}

/// The second word of the characters from `from` up to `end`.
pub fn second_word(chars: &[char], from: usize, end: usize) -> (r: Option<String>)
    requires
        from <= end <= chars@.len(),
    ensures
        r is Some <==> words(chars@.subrange(from as int, end as int)).len() >= 2,
        r matches Some(w) ==> w@ == words(chars@.subrange(from as int, end as int))[1],
{
    let ghost s = chars@.subrange(from as int, end as int);
    let a: usize = skip_space(chars, from, end);
    let b: usize = skip_word(chars, a, end);
    let c: usize = skip_space(chars, b, end);
    let d: usize = skip_word(chars, c, end);
    proof {
        reveal_with_fuel(words, 3);
        let t = chars@.subrange(a as int, end as int);
        let u = chars@.subrange(b as int, end as int);
        let v = chars@.subrange(c as int, end as int);
        assert(s.skip(a - from) =~= t);
        assert(t.skip(b - a) =~= u);
        assert(u.skip(c - b) =~= v);
        assert(v.take(d - c) =~= chars@.subrange(c as int, d as int));
        assert(words(v.skip(d - c)).len() >= 0);
    }
    if a < b && c < d {
        Some(text_of(chars, c, d))
    } else {
        None
    }
}

/// A decimal digit.
pub open spec fn is_digit(c: char) -> bool {
    '0' <= c <= '9'
}

/// The number that a row of decimal digits stands for.
pub open spec fn digits_value(s: Seq<char>) -> nat
    decreases s.len(),
{
    if s.len() == 0 {
        0
    } else {
        digits_value(s.drop_last()) * 10 + (s.last() as nat - '0' as nat) as nat
    }
}

/// A row of at least one decimal digit, and of nothing else.
pub open spec fn is_digits(s: Seq<char>) -> bool {
    s.len() > 0 && forall|i: int| 0 <= i < s.len() ==> is_digit(#[trigger] s[i])
}

/// The number that `s` writes in decimal, if it is at most `max`.
pub open spec fn digits_up_to(s: Seq<char>, max: nat) -> Option<nat> {
    if is_digits(s) && digits_value(s) <= max {
        Some(digits_value(s))
    } else {
        None
    }
}

/// `s` as an unsigned number of at most `max`, with an optional plus sign.
pub open spec fn parsed_unsigned(s: Seq<char>, max: nat) -> Option<nat> {
    if s.len() > 0 && s[0] == '+' {
        digits_up_to(s.skip(1), max)
    } else {
        digits_up_to(s, max)
    }
}

/// `s` as a signed number from `-max - 1` to `max`, with an optional sign.
pub open spec fn parsed_signed(s: Seq<char>, max: nat) -> Option<int> {
    if s.len() > 0 && s[0] == '-' {
        match digits_up_to(s.skip(1), max + 1) {
            Some(n) => Some(-(n as int)),
            None => None,
        }
    } else {
        match parsed_unsigned(s, max) {
            Some(n) => Some(n as int),
            None => None,
        }
    }
}

/// Reads the digits from `from` on.
fn parse_digits(chars: &[char], from: usize, max: u64) -> (r: Option<u64>)
    requires
        from <= chars@.len(),
        max <= u32::MAX,
    ensures
        r is Some <==> digits_up_to(chars@.skip(from as int), max as nat) is Some,
        r matches Some(n) ==> digits_up_to(chars@.skip(from as int), max as nat) == Some(n as nat),
{
    let ghost s = chars@.skip(from as int);
    if from == chars.len() {
        return None;
    }
    let mut value: u64 = 0;
    let mut i: usize = from;
    assert(s.take(0).len() == 0);
    while i < chars.len()
        invariant
            from <= i <= chars@.len(),
            s == chars@.skip(from as int),
            max <= u32::MAX,
            value <= max + 1,
            value == digits_value(s.take(i - from)) || (value == max + 1 && digits_value(
                s.take(i - from),
            ) > max),
            forall|j: int| 0 <= j < i - from ==> is_digit(#[trigger] s[j]),
        decreases chars@.len() - i,
    {
        let c = chars[i];
        assert(s[i - from] == c);
        if !('0' <= c && c <= '9') {
            return None;
        }
        let d: u64 = (c as u32 - 48) as u64;
        let next: u64 = value * 10 + d;
        proof {
            let t = s.take(i + 1 - from);
            assert(t.drop_last() =~= s.take(i - from));
            assert(t.last() == c);
        }
        value = if next > max {
            max + 1
        } else {
            next
        };
        i = i + 1;
    }
    assert(s.take(s.len() as int) =~= s);
    if value > max {
        None
    } else {
        Some(value)
    }
}

/// Reads an unsigned 32-bit number.
pub fn parse_u32(s: &str) -> (r: Option<u32>)
    ensures
        r is Some <==> parsed_unsigned(s@, u32::MAX as nat) is Some,
        r matches Some(n) ==> parsed_unsigned(s@, u32::MAX as nat) == Some(n as nat),
{
    let chars = char_vec(s);
    let from: usize = if chars.len() > 0 && chars[0] == '+' {
        1
    } else {
        0
    };
    assert(chars@.skip(0) =~= chars@);
    match parse_digits(chars.as_slice(), from, u32::MAX as u64) {
        Some(n) => Some(n as u32),
        None => None,
    }
}

/// Reads a signed 32-bit number.
pub fn parse_i32(s: &str) -> (r: Option<i32>)
    ensures
        r is Some <==> parsed_signed(s@, i32::MAX as nat) is Some,
        r matches Some(n) ==> parsed_signed(s@, i32::MAX as nat) == Some(n as int),
{
    let chars = char_vec(s);
    assert(chars@.skip(0) =~= chars@);
    if chars.len() > 0 && chars[0] == '-' {
        match parse_digits(chars.as_slice(), 1, i32::MAX as u64 + 1) {
            Some(n) => Some((-(n as i64)) as i32),
            None => None,
        }
    } else {
        let from: usize = if chars.len() > 0 && chars[0] == '+' {
            1
        } else {
            0
        };
        match parse_digits(chars.as_slice(), from, i32::MAX as u64) {
            Some(n) => Some(n as i32),
            None => None,
        }
    }
}

/// A decimal numeral is a row of digits, and reads back as its number.
pub proof fn lemma_decimal_reads_back(n: nat)
    ensures
        is_digits(decimal(n)),
        digits_value(decimal(n)) == n,
    decreases n,
{
    if n < 10 {
        assert(decimal(n).drop_last() =~= Seq::<char>::empty());
        assert(digits_value(Seq::<char>::empty()) == 0);
        assert(decimal(n).last() == digit_char(n));
    } else {
        lemma_decimal_reads_back(n / 10);
        assert(decimal(n).drop_last() =~= decimal(n / 10));
        assert(decimal(n).last() == digit_char(n % 10));
        assert forall|i: int| 0 <= i < decimal(n).len() implies is_digit(
            #[trigger] decimal(n)[i],
        ) by {
            if i < decimal(n).len() - 1 {
                assert(decimal(n)[i] == decimal(n / 10)[i]);
            }
        }
    }
}

/// A numeral reads back as the number it was written for.
pub proof fn decimal_round_trip(n: nat, max: nat)
    requires
        n <= max,
    ensures
        parsed_unsigned(decimal(n), max) == Some(n),
        parsed_signed(decimal(n), max) == Some(n as int),
{
    lemma_decimal_reads_back(n);
    assert(is_digit(decimal(n)[0]));
}

/// `String::from_utf8` of the standard library: the text that the bytes encode
/// in UTF-8, if they encode one.
#[verifier::external_body]
pub(crate) fn utf8_text(bytes: Vec<u8>) -> (r: Option<String>)
    ensures
        r is Some <==> vstd::utf8::valid_utf8(bytes@),
        r matches Some(s) ==> s@ == vstd::utf8::decode_utf8(bytes@),
{
    String::from_utf8(bytes).ok()
}

/// Bytes as lower-case hexadecimal digits.
pub open spec fn hex_encoded(bytes: Seq<u8>) -> Seq<char> {
    Seq::new(
        2 * bytes.len(),
        |i: int| hex_byte(bytes[i / 2])[i % 2],
    )
}

/// The value of a hexadecimal digit of either case.
pub open spec fn hex_digit_value(b: u8) -> Option<u8> {
    if 48 <= b <= 57 {
        Some((b - 48) as u8)
    } else if 97 <= b <= 102 {
        Some((b - 87) as u8)
    } else if 65 <= b <= 70 {
        Some((b - 55) as u8)
    } else {
        None
    }
}

/// The bytes that pairs of hexadecimal digits stand for.
pub open spec fn hex_decoded(digits: Seq<u8>) -> Option<Seq<u8>> {
    if digits.len() % 2 == 0 && forall|i: int|
        0 <= i < digits.len() ==> hex_digit_value(#[trigger] digits[i]) is Some {
        Some(
            Seq::new(
                digits.len() / 2,
                |i: int|
                    (hex_digit_value(digits[2 * i])->0 * 16 + hex_digit_value(
                        digits[2 * i + 1],
                    )->0) as u8,
            ),
        )
    } else {
        None
    }
}

/// Reads a hexadecimal digit of either case.
pub fn hex_digit(b: u8) -> (r: Option<u8>)
    ensures
        r == hex_digit_value(b),
        r matches Some(d) ==> d < 16,
{
    if 48 <= b && b <= 57 {
        Some(b - 48)
    } else if 97 <= b && b <= 102 {
        Some(b - 87)
    } else if 65 <= b && b <= 70 {
        Some(b - 55)
    } else {
        None
    }
}

/// Hexadecimal digits read back as the bytes they were written for.
pub proof fn hex_round_trip(bytes: Seq<u8>)
    ensures
        hex_decoded(vstd::utf8::encode_utf8(hex_encoded(bytes))) == Some(bytes),
{
    let digits = hex_encoded(bytes);
    assert forall|i: int| 0 <= i < digits.len() implies '\0' <= #[trigger] digits[i]
        <= '\u{7f}' by {
        assert(digits[i] == hex_byte(bytes[i / 2])[i % 2]);
    }
    assert(vstd::utf8::is_ascii_chars(digits));
    vstd::utf8::is_ascii_chars_encode_utf8(digits);
    let encoded = vstd::utf8::encode_utf8(digits);
    assert forall|i: int| 0 <= i < encoded.len() implies #[trigger] hex_digit_value(encoded[i])
        == Some(
        if i % 2 == 0 {
            (bytes[i / 2] / 16) as u8
        } else {
            (bytes[i / 2] % 16) as u8
        },
    ) by {
        assert(digits[i] as u8 == encoded[i]);
        assert(digits[i] == hex_byte(bytes[i / 2])[i % 2]);
    }
    assert forall|i: int| 0 <= i < bytes.len() implies #[trigger] (hex_decoded(encoded)->0)[i]
        == bytes[i] by {
        assert(hex_digit_value(encoded[2 * i]) is Some);
        assert(hex_digit_value(encoded[2 * i + 1]) is Some);
        assert((2 * i) / 2 == i && (2 * i) % 2 == 0);
        assert((2 * i + 1) / 2 == i && (2 * i + 1) % 2 == 1);
    }
    assert(hex_decoded(encoded)->0 =~= bytes);
}

/// Writes bytes as hexadecimal digits.
pub fn encode_hex(bytes: &[u8]) -> (r: String)
    ensures
        r@ == hex_encoded(bytes@),
{
    let mut out = String::new();
    let mut i: usize = 0;
    while i < bytes.len()
        invariant
            0 <= i <= bytes@.len(),
            out@ == hex_encoded(bytes@.take(i as int)),
        decreases bytes@.len() - i,
    {
        push_hex_byte(&mut out, bytes[i]);
        i = i + 1;
        assert(out@ =~= hex_encoded(bytes@.take(i as int)));
    }
    assert(bytes@.take(bytes@.len() as int) =~= bytes@);
    out
}

/// Reads pairs of hexadecimal digits.
pub fn decode_hex(digits: &[u8]) -> (r: Option<Vec<u8>>)
    ensures
        r is Some <==> hex_decoded(digits@) is Some,
        r matches Some(bytes) ==> hex_decoded(digits@) == Some(bytes@),
{
    if digits.len() % 2 != 0 {
        return None;
    }
    let mut out: Vec<u8> = Vec::new();
    let mut i: usize = 0;
    while i < digits.len()
        invariant
            digits@.len() % 2 == 0,
            i % 2 == 0,
            0 <= i <= digits@.len(),
            out@.len() == i / 2,
            forall|j: int| 0 <= j < i ==> hex_digit_value(#[trigger] digits@[j]) is Some,
            forall|j: int|
                0 <= j < out@.len() ==> #[trigger] out@[j] == (hex_digit_value(digits@[2 * j])->0
                    * 16 + hex_digit_value(digits@[2 * j + 1])->0) as u8,
        decreases digits@.len() - i,
    {
        let hi = hex_digit(digits[i]);
        let lo = hex_digit(digits[i + 1]);
        match (hi, lo) {
            (Some(h), Some(l)) => {
                out.push(h * 16 + l);
                assert(2 * (out@.len() - 1) == i);
            },
            _ => {
                assert(hex_digit_value(digits@[i as int]) is None || hex_digit_value(
                    digits@[i + 1],
                ) is None);
                return None;
            },
        }
        i = i + 2;
    }
    assert(out@ =~= hex_decoded(digits@)->0);
    Some(out)
}

/// `s` without the slashes at its end.
pub open spec fn without_end_slashes(s: Seq<char>) -> Seq<char>
    decreases s.len(),
{
    if s.len() > 0 && s.last() == '/' {
        without_end_slashes(s.drop_last())
    } else {
        s
    }
}

/// A file directly below a directory that may be written with slashes at its end.
pub open spec fn file_below(dir: Seq<char>, name: Seq<char>) -> Seq<char> {
    without_end_slashes(dir) + "/"@ + name
}

/// A file directly below a directory that may be written with slashes at its end.
pub fn path_below(dir: &str, name: &str) -> (r: String)
    ensures
        r@ == file_below(dir@, name@),
{
    let mut end: usize = dir.unicode_len();
    assert(dir@.take(dir@.len() as int) =~= dir@);
    while end > 0 && dir.get_char(end - 1) == '/'
        invariant
            end <= dir@.len(),
            without_end_slashes(dir@.take(end as int)) == without_end_slashes(dir@),
        decreases end,
    {
        assert(dir@.take(end as int).drop_last() =~= dir@.take(end - 1));
        end = end - 1;
    }
    assert(dir@.subrange(0, end as int) =~= dir@.take(end as int));
    cat3(dir.substring_char(0, end), "/", name)
}

/// Whether `part` stands somewhere in `s`.
pub open spec fn holds_text(s: Seq<char>, part: Seq<char>) -> bool {
    exists|i: int| 0 <= i <= s.len() - part.len() && #[trigger] stands_at(s, part, i)
}

/// Whether `part` stands in `s` at `i`.
pub open spec fn stands_at(s: Seq<char>, part: Seq<char>, i: int) -> bool {
    s.subrange(i, i + part.len()) == part
}

/// Whether `part` stands somewhere in `s`.
pub fn contains_text(s: &str, part: &str) -> (r: bool)
    ensures
        r == holds_text(s@, part@),
{
    let chars = char_vec(s);
    let wanted = char_vec(part);
    let len: usize = chars.len();
    let n: usize = wanted.len();
    if n > len {
        return false;
    }
    let last: usize = len - n;
    let mut i: usize = 0;
    loop
        invariant
            i <= last,
            last == len - n,
            len == chars@.len(),
            n == wanted@.len(),
            chars@ == s@,
            wanted@ == part@,
            forall|j: int| 0 <= j < i ==> !#[trigger] stands_at(s@, part@, j),
        decreases last - i,
    {
        let mut k: usize = 0;
        while k < n && chars[i + k] == wanted[k]
            invariant
                i + n <= len,
                k <= n,
                len == chars@.len(),
                n == wanted@.len(),
                forall|j: int| 0 <= j < k ==> chars@[i + j] == #[trigger] wanted@[j],
            decreases n - k,
        {
            k += 1;
        }
        if k == n {
            assert(s@.subrange(i as int, i + n) =~= part@);
            assert(stands_at(s@, part@, i as int));
            return true;
        }
        assert(!stands_at(s@, part@, i as int)) by {
            assert(s@.subrange(i as int, i + n)[k as int] == s@[i + k]);
        }
        if i == last {
            return false;
        }
        i += 1;
    }
}

/// A text without the white space at its end.
pub open spec fn without_end_space(s: Seq<char>) -> Seq<char>
    decreases s.len(),
{
    if s.len() > 0 && is_space(s.last()) {
        without_end_space(s.drop_last())
    } else {
        s
    }
}

/// A text without the white space around it.
pub open spec fn trimmed(s: Seq<char>) -> Seq<char> {
    without_end_space(s.skip(space_length(s) as int))
}

/// A text without the white space around it.
pub fn trim(s: &str) -> (r: String)
    ensures
        r@ == trimmed(s@),
{
    let chars = char_vec(s);
    let start: usize = skip_space(chars.as_slice(), 0, chars.len());
    let mut end: usize = chars.len();
    let ghost rest = s@.skip(start as int);
    assert(chars@.subrange(0, chars@.len() as int) =~= s@);
    assert(chars@.subrange(start as int, end as int) =~= rest);
    while end > start && is_whitespace(chars[end - 1])
        invariant
            start <= end <= chars@.len(),
            without_end_space(chars@.subrange(start as int, end as int)) == without_end_space(rest),
        decreases end,
    {
        assert(chars@.subrange(start as int, end as int).drop_last() =~= chars@.subrange(
            start as int,
            end - 1,
        ));
        end = end - 1;
    }
    text_of(chars.as_slice(), start, end)
}

/// The first word of a text.
pub fn first_word(s: &str) -> (r: Option<String>)
    ensures
        r is Some <==> words(s@).len() >= 1,
        r matches Some(w) ==> w@ == words(s@)[0],
{
    let chars = char_vec(s);
    let end: usize = chars.len();
    let a: usize = skip_space(chars.as_slice(), 0, end);
    let b: usize = skip_word(chars.as_slice(), a, end);
    proof {
        assert(chars@.subrange(0, end as int) =~= s@);
        let t = chars@.subrange(a as int, end as int);
        assert(s@.skip(a as int) =~= t);
        assert(t.take(b - a) =~= chars@.subrange(a as int, b as int));
    }
    if a < b {
        Some(text_of(chars.as_slice(), a, b))
    } else {
        None
    }
}

/// An exit code as it is shown to the operator.
pub open spec fn shown_code(code: Option<i32>) -> Seq<char> {
    match code {
        Some(n) => "Some("@ + signed_decimal(n as int) + ")"@,
        None => "None"@,
    }
}

/// An exit code as it is shown to the operator.
pub fn code_text(code: Option<i32>) -> (r: String)
    ensures
        r@ == shown_code(code),
{
    match code {
        Some(n) => cat3("Some(", signed_decimal_text(n).as_str(), ")"),
        None => "None".to_owned(),
    }
}

/// A text as std's `Debug` renders it.
pub uninterp spec fn debug_rendered(s: Seq<char>) -> Seq<char>;

/// std's `Debug` for a text: between quotation marks, with escapes; a function of the text.
#[verifier::external_body]
pub(crate) fn debug_text(s: &str) -> (r: String)
    ensures
        r@ == debug_rendered(s@),
{
    format!("{s:?}")
}

/// Names below one directory that differ in their number are different paths.
pub proof fn lemma_numbered_names_differ(
    dir: Seq<char>,
    front: Seq<char>,
    a: nat,
    b: nat,
    back: Seq<char>,
)
    requires
        a != b,
        front.len() > 0,
        front[0] != '/',
    ensures
        joined(dir, front + decimal(a) + back) != joined(
            dir,
            front + decimal(b) + back,
        ),
{
    let x = front + decimal(a) + back;
    let y = front + decimal(b) + back;
    assert(x[0] == front[0] && y[0] == front[0]);
    if joined(dir, x) == joined(dir, y) {
        lemma_joined_is_injective(dir, x, y);
        assert(decimal(a) =~= x.subrange(front.len() as int, x.len() - back.len()));
        assert(decimal(b) =~= y.subrange(front.len() as int, y.len() - back.len()));
        lemma_decimal_is_injective(a, b);
    }
}

/// Two names below one directory that make the same path are the same name.
pub proof fn lemma_joined_is_injective(dir: Seq<char>, x: Seq<char>, y: Seq<char>)
    requires
        x.len() > 0 ==> x[0] != '/',
        y.len() > 0 ==> y[0] != '/',
        joined(dir, x) == joined(dir, y),
    ensures
        x == y,
{
    let k = joined(dir, x).len() - x.len();
    assert(joined(dir, x).skip(k) =~= x);
    assert(joined(dir, y).skip(k) =~= y);
}

/// A word ends at white space, and what follows is split by itself; white space in front is
/// no part of a word.
pub proof fn words_are_split_at_white_space(word: Seq<char>, gap: char, rest: Seq<char>)
    requires
        word.len() > 0,
        forall|i: int| 0 <= i < word.len() ==> !is_space(#[trigger] word[i]),
        is_space(gap),
    ensures
        words(Seq::empty()) == Seq::<Seq<char>>::empty(),
        words(word) == seq![word],
        words(seq![gap] + rest) == words(rest),
        words(word + seq![gap] + rest) == seq![word] + words(rest),
{
    let space = |c: char| is_space(c);
    let other = |c: char| !is_space(c);
    assert(words(Seq::<char>::empty()) =~= Seq::<Seq<char>>::empty());
    // The white space in front.
    let led = seq![gap] + rest;
    let n = run_length(rest, space) as int;
    lemma_run_length_bound(rest, space);
    assert(led.skip(1) =~= rest);
    assert(space(led[0]));
    assert(space_length(led) == n + 1);
    assert(led.skip(n + 1) =~= rest.skip(n));
    // The word in front.
    let all = word + seq![gap] + rest;
    lemma_run_length(all, space, 0);
    lemma_run_length(all, other, word.len() as int);
    assert(all.skip(0) =~= all);
    assert(all.take(word.len() as int) =~= word);
    assert(all.skip(word.len() as int) =~= led);
    // The word alone.
    lemma_run_length(word, space, 0);
    lemma_run_length(word, other, word.len() as int);
    assert(word.skip(0) =~= word);
    assert(word.take(word.len() as int) =~= word);
    assert(word.skip(word.len() as int) =~= Seq::<char>::empty());
    assert(words(word) =~= seq![word]);
}

/// Among the ASCII characters, white space is the blank and the five from the tab to the
/// carriage return.
pub proof fn plain_white_space(c: char)
    requires
        (c as u32) < 128,
    ensures
        is_space(c) <==> c == ' ' || '\t' <= c <= '\r',
{
}

/// A name that is joined to a directory stands behind it and one slash; a directory that ends
/// with a slash, or is empty, gets none. An absolute name stands for itself.
pub proof fn names_are_joined_with_one_slash(dir: Seq<char>, name: Seq<char>)
    ensures
        name.len() > 0 && name[0] == '/' ==> joined(dir, name) == name,
        (name.len() == 0 || name[0] != '/') && dir.len() > 0 && dir.last() != '/' ==> joined(
            dir,
            name,
        ) == dir + seq!['/'] + name,
        (name.len() == 0 || name[0] != '/') && dir.len() > 0 && dir.last() == '/' ==> joined(
            dir,
            name,
        ) == dir + name,
        (name.len() == 0 || name[0] != '/') ==> joined(Seq::empty(), name) == name,
{
    assert(dir.push('/') =~= dir + seq!['/']);
    assert(Seq::<char>::empty() + name =~= name);
}

/// However many slashes a directory is written with at its end, the file is below it.
pub proof fn end_slashes_do_not_count(dir: Seq<char>, name: Seq<char>)
    ensures
        file_below(dir.push('/'), name) == file_below(dir, name),
        dir.len() == 0 || dir.last() != '/' ==> file_below(dir, name) == dir + "/"@ + name,
{
    assert(dir.push('/').drop_last() =~= dir);
}

/// Trimming takes away the white space around a text, and nothing else.
pub proof fn trimming_takes_away_white_space(s: Seq<char>, gap: char)
    ensures
        is_space(gap) ==> trimmed(seq![gap] + s) == trimmed(s),
        s.len() > 0 && !is_space(s[0]) && !is_space(s.last()) ==> trimmed(s) == s,
        s.len() > 0 && !is_space(s[0]) && is_space(gap) ==> trimmed(s.push(gap)) == trimmed(s),
{
    let space = |c: char| is_space(c);
    if is_space(gap) {
        let led = seq![gap] + s;
        let n = run_length(s, space) as int;
        lemma_run_length_bound(s, space);
        assert(led.skip(1) =~= s);
        assert(space(led[0]));
        assert(led.skip(n + 1) =~= s.skip(n));
    }
    if s.len() > 0 && !is_space(s[0]) {
        lemma_run_length(s, space, 0);
        assert(s.skip(0) =~= s);
        let more = s.push(gap);
        lemma_run_length(more, space, 0);
        assert(more.skip(0) =~= more);
        assert(more.drop_last() =~= s);
    }
}

/// A numeral that is filled up has the asked width, or its own where that is greater; zeros
/// stand in front, and the number is the same.
pub proof fn filled_numerals_have_their_width(n: nat, width: nat)
    ensures
        decimal_padded(n, width).len() == (if decimal(n).len() >= width {
            decimal(n).len()
        } else {
            width
        }),
        decimal_padded(n, width).skip(decimal_padded(n, width).len() - decimal(n).len())
            == decimal(n),
        forall|i: int|
            0 <= i < decimal_padded(n, width).len() - decimal(n).len() ==> (
            #[trigger] decimal_padded(n, width)[i]) == '0',
{
    let all = decimal_padded(n, width);
    assert(all.skip(all.len() - decimal(n).len()) =~= decimal(n));
}

/// A number is read from digits alone, after one sign at the most, and only where it fits: the
/// numeral of a negative number may be one greater than that of a positive one.
pub proof fn signed_numerals_are_read_back(n: int, max: nat)
    requires
        -max - 1 <= n <= max,
    ensures
        parsed_signed(signed_decimal(n), max) == Some(n),
        n >= 0 ==> parsed_unsigned(seq!['+'] + decimal(n as nat), max) == Some(n as nat),
        parsed_unsigned(Seq::empty(), max) is None,
        parsed_unsigned(decimal(max + 1), max) is None,
        parsed_signed(seq!['-'] + decimal(max + 2), max) is None,
{
    let m: nat = if n < 0 {
        (-n) as nat
    } else {
        n as nat
    };
    lemma_decimal_reads_back(m);
    lemma_decimal_reads_back(max + 1);
    lemma_decimal_reads_back(max + 2);
    assert((seq!['-'] + decimal(m)).skip(1) =~= decimal(m));
    assert((seq!['+'] + decimal(m)).skip(1) =~= decimal(m));
    assert((seq!['-'] + decimal(max + 2)).skip(1) =~= decimal(max + 2));
    assert(is_digit(decimal(m)[0]));
    assert(is_digit(decimal(max + 1)[0]));
}

/// A text is found in every text that was put together around it, and only there.
pub proof fn texts_are_found_where_they_stand(
    a: Seq<char>,
    part: Seq<char>,
    b: Seq<char>,
    s: Seq<char>,
)
    ensures
        holds_text(a + part + b, part),
        holds_text(s, part) ==> exists|i: int|
            0 <= i && i + part.len() <= s.len() && s == s.take(i) + part + #[trigger] s.skip(
                i + part.len(),
            ),
{
    let all = a + part + b;
    assert(all.subrange(a.len() as int, (a.len() + part.len()) as int) =~= part);
    assert(stands_at(all, part, a.len() as int));
    if holds_text(s, part) {
        let i = choose|i: int| 0 <= i <= s.len() - part.len() && #[trigger] stands_at(s, part, i);
        assert(s =~= s.take(i) + s.subrange(i, i + part.len()) + s.skip(i + part.len()));
    }
}

/// Hexadecimal digits of either case are read alike, and each digit by itself; anything else
/// is no digit.
pub proof fn digits_of_either_case_are_read(b: u8)
    ensures
        hex_digit_value(b) matches Some(d) ==> d < 16 && (b as char == hex_char(d as nat) || (b
            + 32) as char == hex_char(d as nat) && 65 <= b <= 70),
        65 <= b <= 70 ==> hex_digit_value(b) == hex_digit_value((b + 32) as u8),
        hex_digit_value(b) is None <==> !(48 <= b <= 57) && !(65 <= b <= 70) && !(97 <= b <= 102),
{
}

} // verus!
