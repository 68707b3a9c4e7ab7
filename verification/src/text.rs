//! Character-level helpers shared by the renderers and the parsers: runs of a
//! character class, trimming, lines, whitespace-separated fields and decimal
//! numbers.

use vstd::prelude::*;
use vstd::slice::slice_subrange;

verus! {

/// `String::push` of the standard library: the string grows by exactly the
/// given character at its end.
pub assume_specification[ String::push ](s: &mut String, c: char)
    ensures
        final(s)@ == old(s)@.push(c),
;

/// The characters of `s`, in order.
pub fn chars_of(s: &str) -> (v: Vec<char>)
    ensures
        v@ == s@,
{
    let mut v: Vec<char> = Vec::new();
    for c in it: s.chars()
        invariant
            v@ == it.seq().take(it.index() as int),
            it.seq() == s@,
    {
        v.push(c);
    }
    v
}

/// The string made of the characters of `s`, in order.
pub fn string_of(s: &[char]) -> (out: String)
    ensures
        out@ == s@,
{
    let mut out = String::new();
    let mut i: usize = 0;
    while i < s.len()
        invariant
            i <= s.len(),
            out@ == s@.take(i as int),
        decreases s.len() - i,
    {
        out.push(s[i]);
        assert(s@.take(i as int).push(s@[i as int]) =~= s@.take(i + 1));
        i = i + 1;
    }
    assert(s@.take(s.len() as int) =~= s@);
    out
}

/// The characters of an optional string.
pub open spec fn text_of(s: Option<String>) -> Option<Seq<char>> {
    match s {
        Some(text) => Some(text@),
        None => None,
    }
}

/// The characters of an optional string slice.
pub open spec fn slice_text_of(s: Option<&str>) -> Option<Seq<char>> {
    match s {
        Some(text) => Some(text@),
        None => None,
    }
}

/// Whether `c` has the Unicode property White_Space.
pub open spec fn is_space(c: char) -> bool {
    let u = c as u32;
    ||| 0x09 <= u <= 0x0D
    ||| u == 0x20
    ||| u == 0x85
    ||| u == 0xA0
    ||| u == 0x1680
    ||| 0x2000 <= u <= 0x200A
    ||| u == 0x2028
    ||| u == 0x2029
    ||| u == 0x202F
    ||| u == 0x205F
    ||| u == 0x3000
}

/// The classes of characters that the parsers scan for.
#[derive(Clone, Copy, Debug)]
pub enum CharClass {
    /// Unicode white space.
    Space,
    /// Anything but white space.
    Word,
    /// Anything but a line feed.
    LineBody,
    /// The double quote.
    Quote,
    /// The ASCII digits `0` to `9`.
    Digit,
}

impl CharClass {
    /// Whether `c` belongs to the class.
    pub open spec fn has(self, c: char) -> bool {
        match self {
            CharClass::Space => is_space(c),
            CharClass::Word => !is_space(c),
            CharClass::LineBody => c != '\n',
            CharClass::Quote => c == '"',
            CharClass::Digit => '0' <= c <= '9',
        }
    }

    /// Decides membership of `c` in the class.
    pub fn contains(self, c: char) -> (b: bool)
        ensures
            b == self.has(c),
    {
        match self {
            CharClass::Space => is_whitespace(c),
            CharClass::Word => !is_whitespace(c),
            CharClass::LineBody => c != '\n',
            CharClass::Quote => c == '"',
            CharClass::Digit => '0' <= c && c <= '9',
        }
    }
}

/// Decides whether `c` is Unicode white space.
pub fn is_whitespace(c: char) -> (b: bool)
    ensures
        b == is_space(c),
{
    let u: u32 = c as u32;
    (0x09 <= u && u <= 0x0D) || u == 0x20 || u == 0x85 || u == 0xA0 || u == 0x1680 || (0x2000 <= u
        && u <= 0x200A) || u == 0x2028 || u == 0x2029 || u == 0x202F || u == 0x205F || u == 0x3000
}

/// Length of the longest prefix of `s` whose characters all belong to `class`.
pub open spec fn run_len(s: Seq<char>, class: CharClass) -> nat
    decreases s.len(),
{
    if s.len() > 0 && class.has(s[0]) {
        1 + run_len(s.drop_first(), class)
    } else {
        0
    }
}

/// Length of the longest suffix of `s` whose characters all belong to `class`.
pub open spec fn back_run_len(s: Seq<char>, class: CharClass) -> nat
    decreases s.len(),
{
    if s.len() > 0 && class.has(s.last()) {
        1 + back_run_len(s.drop_last(), class)
    } else {
        0
    }
}

/// A prefix of `n` characters of the class that cannot be extended is the
/// longest one.
pub proof fn lemma_run_len(s: Seq<char>, class: CharClass, n: nat)
    requires
        n <= s.len(),
        forall|i: int| 0 <= i < n ==> class.has(#[trigger] s[i]),
        n == s.len() || !class.has(s[n as int]),
    ensures
        run_len(s, class) == n,
    decreases n,
{
    if n > 0 {
        let rest = s.drop_first();
        assert forall|i: int| 0 <= i < n - 1 implies class.has(#[trigger] rest[i]) by {
            assert(rest[i] == s[i + 1]);
        }
        if n < s.len() {
            assert(rest[n - 1] == s[n as int]);
        }
        lemma_run_len(rest, class, (n - 1) as nat);
    }
}

/// A suffix of `n` characters of the class that cannot be extended is the
/// longest one.
pub proof fn lemma_back_run_len(s: Seq<char>, class: CharClass, n: nat)
    requires
        n <= s.len(),
        forall|i: int| s.len() - n <= i < s.len() ==> class.has(#[trigger] s[i]),
        n == s.len() || !class.has(s[s.len() - n - 1]),
    ensures
        back_run_len(s, class) == n,
    decreases n,
{
    if n > 0 {
        let rest = s.drop_last();
        assert forall|i: int| rest.len() - (n - 1) <= i < rest.len() implies class.has(
            #[trigger] rest[i],
        ) by {
            assert(rest[i] == s[i]);
        }
        if n < s.len() {
            assert(rest[rest.len() - (n - 1) - 1] == s[s.len() - n - 1]);
        }
        lemma_back_run_len(rest, class, (n - 1) as nat);
    }
}

/// The run never exceeds the sequence, every character in it belongs to the
/// class, and the character after it, if any, does not.
pub proof fn lemma_run_len_facts(s: Seq<char>, class: CharClass)
    ensures
        run_len(s, class) <= s.len(),
        forall|i: int| 0 <= i < run_len(s, class) ==> class.has(#[trigger] s[i]),
        run_len(s, class) < s.len() ==> !class.has(s[run_len(s, class) as int]),
    decreases s.len(),
{
    if s.len() > 0 && class.has(s[0]) {
        let rest = s.drop_first();
        lemma_run_len_facts(rest, class);
        assert forall|i: int| 0 <= i < run_len(s, class) implies class.has(#[trigger] s[i]) by {
            if i > 0 {
                assert(s[i] == rest[i - 1]);
            }
        }
        if run_len(s, class) < s.len() {
            assert(s[run_len(s, class) as int] == rest[run_len(rest, class) as int]);
        }
    }
}

/// Counts the characters of the class at the start of `s`.
pub fn scan(s: &[char], class: CharClass) -> (n: usize)
    ensures
        n == run_len(s@, class),
        n <= s.len(),
{
    let mut i: usize = 0;
    while i < s.len() && class.contains(s[i])
        invariant
            i <= s.len(),
            forall|k: int| 0 <= k < i ==> class.has(#[trigger] s@[k]),
        decreases s.len() - i,
    {
        i = i + 1;
    }
    proof {
        lemma_run_len(s@, class, i as nat);
    }
    i
}

/// Counts the characters of the class at the end of `s`.
pub fn scan_back(s: &[char], class: CharClass) -> (n: usize)
    ensures
        n == back_run_len(s@, class),
        n <= s.len(),
{
    let mut i: usize = 0;
    while i < s.len() && class.contains(s[s.len() - i - 1])
        invariant
            i <= s.len(),
            forall|k: int| s.len() - i <= k < s.len() ==> class.has(#[trigger] s@[k]),
        decreases s.len() - i,
    {
        i = i + 1;
    }
    proof {
        lemma_back_run_len(s@, class, i as nat);
    }
    i
}

/// `s` without the characters of `class` at its start and, of what is left,
/// at its end.
pub open spec fn stripped(s: Seq<char>, class: CharClass) -> Seq<char> {
    let rest = s.skip(run_len(s, class) as int);
    rest.take(rest.len() - back_run_len(rest, class))
}

/// `s` without the white space around it.
pub open spec fn trimmed(s: Seq<char>) -> Seq<char> {
    stripped(s, CharClass::Space)
}

/// Removes the characters of `class` from both ends of `s`.
pub fn strip(s: &[char], class: CharClass) -> (r: &[char])
    ensures
        r@ == stripped(s@, class),
{
    let a = scan(s, class);
    let rest = slice_subrange(s, a, s.len());
    assert(rest@ =~= s@.skip(a as int));
    let b = scan_back(rest, class);
    let r = slice_subrange(rest, 0, rest.len() - b);
    assert(r@ =~= rest@.take(rest.len() - b));
    r
}

/// The character that stands for the digit `d`, for `d` below ten.
pub open spec fn digit(d: nat) -> char {
    ('0' as nat + d) as char
}

/// The decimal notation of `n`, without leading zeros.
pub open spec fn decimal(n: nat) -> Seq<char>
    decreases n,
{
    if n < 10 {
        seq![digit(n)]
    } else {
        decimal(n / 10).push(digit(n % 10))
    }
}

/// The character of one decimal digit.
pub fn digit_char(d: u8) -> (c: char)
    requires
        d < 10,
    ensures
        c == digit(d as nat),
{
    (48u8 + d) as char
}

/// Appends the decimal notation of `n` to `out`.
pub fn push_decimal(out: &mut String, n: u64)
    ensures
        final(out)@ == old(out)@ + decimal(n as nat),
    decreases n,
{
    if n >= 10 {
        push_decimal(out, n / 10);
    }
    out.push(digit_char((n % 10) as u8));
    assert(old(out)@ + decimal(n as nat / 10).push(digit(n as nat % 10)) =~= (old(out)@ + decimal(
        n as nat / 10,
    )).push(digit(n as nat % 10)));
    assert(old(out)@ + seq![digit(n as nat)] =~= old(out)@.push(digit(n as nat)));
}

/// The number that the digits of `s` denote in base ten.
pub open spec fn digits_value(s: Seq<char>) -> nat
    decreases s.len(),
{
    if s.len() == 0 {
        0
    } else {
        digits_value(s.drop_last()) * 10 + (s.last() as nat - '0' as nat) as nat
    }
}

/// Whether `s` is one or more ASCII digits and nothing else.
pub open spec fn is_number(s: Seq<char>) -> bool {
    s.len() > 0 && forall|i: int| 0 <= i < s.len() ==> CharClass::Digit.has(#[trigger] s[i])
}

/// What an unsigned decimal number reads as: an optional `+`, then digits,
/// with a value that fits in 64 bits.
pub open spec fn parsed_u64(s: Seq<char>) -> Option<u64> {
    let d = if s.len() > 0 && s[0] == '+' {
        s.drop_first()
    } else {
        s
    };
    if is_number(d) && digits_value(d) <= u64::MAX {
        Some(digits_value(d) as u64)
    } else {
        None
    }
}

/// More digits never denote a smaller number.
pub proof fn lemma_digits_value_grows(s: Seq<char>, k: int)
    requires
        0 <= k <= s.len(),
    ensures
        digits_value(s.take(k)) <= digits_value(s),
    decreases s.len() - k,
{
    if k < s.len() {
        lemma_digits_value_grows(s, k + 1);
        assert(s.take(k + 1).drop_last() =~= s.take(k));
    } else {
        assert(s.take(k) =~= s);
    }
}

/// Reads `s` as digits only: the number they denote, if `s` is a number and
/// the value fits in 64 bits.
pub fn parse_digits(s: &[char]) -> (r: Option<u64>)
    ensures
        r == (if is_number(s@) && digits_value(s@) <= u64::MAX {
            Some(digits_value(s@) as u64)
        } else {
            None::<u64>
        }),
{
    if s.len() == 0 {
        return None;
    }
    let mut acc: u64 = 0;
    let mut i: usize = 0;
    while i < s.len()
        invariant
            i <= s.len(),
            forall|k: int| 0 <= k < i ==> CharClass::Digit.has(#[trigger] s@[k]),
            acc == digits_value(s@.take(i as int)),
        decreases s.len() - i,
    {
        let c = s[i];
        if !CharClass::Digit.contains(c) {
            return None;
        }
        let d: u64 = (c as u32 - '0' as u32) as u64;
        proof {
            assert(s@.take(i + 1).drop_last() =~= s@.take(i as int));
            assert(digits_value(s@.take(i + 1)) == acc * 10 + d);
            lemma_digits_value_grows(s@, i + 1);
        }
        if acc > (u64::MAX - d) / 10 {
            return None;
        }
        acc = acc * 10 + d;
        i = i + 1;
    }
    assert(s@.take(s.len() as int) =~= s@);
    Some(acc)
}

/// Reads `s` as an unsigned decimal number.
pub fn parse_u64(s: &[char]) -> (r: Option<u64>)
    ensures
        r == parsed_u64(s@),
{
    if s.len() > 0 && s[0] == '+' {
        let d = slice_subrange(s, 1, s.len());
        assert(d@ =~= s@.drop_first());
        parse_digits(d)
    } else {
        parse_digits(s)
    }
}

/// Whether `s` begins with `prefix`.
pub open spec fn starts_with(s: Seq<char>, prefix: Seq<char>) -> bool {
    prefix.len() <= s.len() && s.take(prefix.len() as int) == prefix
}

/// Decides whether `s` begins with `prefix`.
pub fn has_prefix(s: &[char], prefix: &[char]) -> (b: bool)
    ensures
        b == starts_with(s@, prefix@),
{
    if prefix.len() > s.len() {
        return false;
    }
    let mut i: usize = 0;
    while i < prefix.len()
        invariant
            i <= prefix.len() <= s.len(),
            s@.take(i as int) == prefix@.take(i as int),
        decreases prefix.len() - i,
    {
        if s[i] != prefix[i] {
            assert(s@.take(prefix.len() as int)[i as int] != prefix@[i as int]);
            return false;
        }
        assert(s@.take(i + 1) =~= s@.take(i as int).push(s@[i as int]));
        assert(prefix@.take(i + 1) =~= prefix@.take(i as int).push(prefix@[i as int]));
        i = i + 1;
    }
    assert(prefix@.take(prefix.len() as int) =~= prefix@);
    true
}

/// `s` without `prefix` at its start, as often as it stands there.
pub open spec fn without_leading(s: Seq<char>, prefix: Seq<char>) -> Seq<char>
    decreases s.len(),
{
    if prefix.len() > 0 && starts_with(s, prefix) {
        without_leading(s.skip(prefix.len() as int), prefix)
    } else {
        s
    }
}

/// Removes `prefix` from the start of `s`, as often as it stands there.
pub fn strip_leading<'a>(s: &'a [char], prefix: &[char]) -> (r: &'a [char])
    ensures
        r@ == without_leading(s@, prefix@),
{
    let mut cur = s;
    if prefix.len() == 0 {
        return cur;
    }
    while has_prefix(cur, prefix)
        invariant
            prefix.len() > 0,
            without_leading(cur@, prefix@) == without_leading(s@, prefix@),
        decreases cur.len(),
    {
        let next = slice_subrange(cur, prefix.len(), cur.len());
        assert(next@ =~= cur@.skip(prefix.len() as int));
        cur = next;
    }
    cur
}

/// The line that `s` starts with, without its terminator. A line ends at the
/// first line feed; a carriage return just before that line feed belongs to
/// the terminator. Without a line feed the line is all of `s`.
pub open spec fn first_line(s: Seq<char>) -> Seq<char> {
    let k = run_len(s, CharClass::LineBody) as int;
    if 0 < k < s.len() && s[k - 1] == '\r' {
        s.take(k - 1)
    } else {
        s.take(k)
    }
}

/// What follows the first line of `s` and its terminator.
pub open spec fn after_first_line(s: Seq<char>) -> Seq<char> {
    let k = run_len(s, CharClass::LineBody) as int;
    if k < s.len() {
        s.skip(k + 1)
    } else {
        Seq::empty()
    }
}

/// Splits `s` into its first line and what follows it.
pub fn split_line(s: &[char]) -> (r: (&[char], &[char]))
    ensures
        r.0@ == first_line(s@),
        r.1@ == after_first_line(s@),
        s.len() > 0 ==> r.1@.len() < s.len(),
{
    let k = scan(s, CharClass::LineBody);
    if k < s.len() {
        let rest = slice_subrange(s, k + 1, s.len());
        assert(rest@ =~= s@.skip(k + 1));
        let line = if k > 0 && s[k - 1] == '\r' {
            slice_subrange(s, 0, k - 1)
        } else {
            slice_subrange(s, 0, k)
        };
        assert(line@ =~= first_line(s@));
        (line, rest)
    } else {
        let rest = slice_subrange(s, k, k);
        assert(rest@ =~= Seq::<char>::empty());
        assert(s@.take(k as int) =~= s@);
        (s, rest)
    }
}

/// The line of `s` with the number `n`, counted from zero. A text that ends
/// with a line terminator has no further, empty line after it.
pub open spec fn nth_line(s: Seq<char>, n: nat) -> Option<Seq<char>>
    decreases n,
{
    if s.len() == 0 {
        None
    } else if n == 0 {
        Some(first_line(s))
    } else {
        nth_line(after_first_line(s), (n - 1) as nat)
    }
}

/// Finds the line of `s` with the number `n`.
pub fn line_at(s: &[char], n: usize) -> (r: Option<&[char]>)
    ensures
        match r {
            Some(line) => nth_line(s@, n as nat) == Some(line@),
            None => nth_line(s@, n as nat) is None,
        },
{
    let mut cur = s;
    let mut left: usize = n;
    while left > 0 && cur.len() > 0
        invariant
            nth_line(cur@, left as nat) == nth_line(s@, n as nat),
        decreases left,
    {
        let (_, rest) = split_line(cur);
        cur = rest;
        left = left - 1;
    }
    if cur.len() == 0 {
        None
    } else {
        let (line, _) = split_line(cur);
        Some(line)
    }
}

/// The first line of `s` that begins with `prefix`.
pub open spec fn first_line_starting(s: Seq<char>, prefix: Seq<char>) -> Option<Seq<char>>
    decreases s.len(),
{
    if s.len() == 0 {
        None
    } else if starts_with(first_line(s), prefix) {
        Some(first_line(s))
    } else {
        proof {
            lemma_run_len_facts(s, CharClass::LineBody);
        }
        first_line_starting(after_first_line(s), prefix)
    }
}

/// Finds the first line of `s` that begins with `prefix`.
pub fn find_line<'a>(s: &'a [char], prefix: &[char]) -> (r: Option<&'a [char]>)
    ensures
        match r {
            Some(line) => first_line_starting(s@, prefix@) == Some(line@),
            None => first_line_starting(s@, prefix@) is None,
        },
{
    let mut cur = s;
    while cur.len() > 0
        invariant
            first_line_starting(cur@, prefix@) == first_line_starting(s@, prefix@),
        decreases cur.len(),
    {
        let (line, rest) = split_line(cur);
        if has_prefix(line, prefix) {
            return Some(line);
        }
        cur = rest;
    }
    None
}

/// The field of `s` with the number `n`, counted from zero, where fields are
/// the longest runs of characters other than white space.
pub open spec fn nth_field(s: Seq<char>, n: nat) -> Option<Seq<char>>
    decreases n,
{
    let rest = s.skip(run_len(s, CharClass::Space) as int);
    let w = run_len(rest, CharClass::Word) as int;
    if w == 0 {
        None
    } else if n == 0 {
        Some(rest.take(w))
    } else {
        nth_field(rest.skip(w), (n - 1) as nat)
    }
}

/// Finds the field of `s` with the number `n`.
pub fn field_at(s: &[char], n: usize) -> (r: Option<&[char]>)
    ensures
        match r {
            Some(field) => nth_field(s@, n as nat) == Some(field@),
            None => nth_field(s@, n as nat) is None,
        },
{
    let mut cur = s;
    let mut left: usize = n;
    loop
        invariant
            nth_field(cur@, left as nat) == nth_field(s@, n as nat),
        decreases left,
    {
        let a = scan(cur, CharClass::Space);
        let rest = slice_subrange(cur, a, cur.len());
        assert(rest@ =~= cur@.skip(a as int));
        let w = scan(rest, CharClass::Word);
        if w == 0 {
            return None;
        }
        if left == 0 {
            let field = slice_subrange(rest, 0, w);
            assert(field@ =~= rest@.take(w as int));
            return Some(field);
        }
        let next = slice_subrange(rest, w, rest.len());
        assert(next@ =~= rest@.skip(w as int));
        cur = next;
        left = left - 1;
    }
}

} // verus!
