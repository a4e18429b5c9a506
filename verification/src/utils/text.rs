//! Character-level helpers on strings, each with its mathematical statement.
use vstd::prelude::*;

verus! {

broadcast use vstd::string::group_string_axioms;

/// Whether `c` has the Unicode `White_Space` property, as `char::is_whitespace` decides.
pub open spec fn is_whitespace(c: char) -> bool {
    ('\u{9}' <= c <= '\u{d}') || c == ' ' || c == '\u{85}' || c == '\u{a0}' || c == '\u{1680}'
        || ('\u{2000}' <= c <= '\u{200a}') || c == '\u{2028}' || c == '\u{2029}' || c
        == '\u{202f}' || c == '\u{205f}' || c == '\u{3000}'
}

/// `s` without its leading whitespace, as `str::trim_start` returns it.
pub open spec fn trim_start_spec(s: Seq<char>) -> Seq<char>
    decreases s.len(),
{
    if s.len() > 0 && is_whitespace(s[0]) {
        trim_start_spec(s.drop_first())
    } else {
        s
    }
}

/// `s` without its trailing whitespace, as `str::trim_end` returns it.
pub open spec fn trim_end_spec(s: Seq<char>) -> Seq<char>
    decreases s.len(),
{
    if s.len() > 0 && is_whitespace(s.last()) {
        trim_end_spec(s.drop_last())
    } else {
        s
    }
}

/// `s` without leading and trailing whitespace, as `str::trim` returns it.
pub open spec fn trim_spec(s: Seq<char>) -> Seq<char> {
    trim_end_spec(trim_start_spec(s))
}

/// The words of `s` after the partial word `cur`: maximal runs of
/// non-whitespace characters.
pub open spec fn words_from(s: Seq<char>, cur: Seq<char>) -> Seq<Seq<char>>
    decreases s.len(),
{
    if s.len() == 0 {
        if cur.len() > 0 {
            seq![cur]
        } else {
            seq![]
        }
    } else if is_whitespace(s[0]) {
        (if cur.len() > 0 {
            seq![cur]
        } else {
            seq![]
        }) + words_from(s.drop_first(), seq![])
    } else {
        words_from(s.drop_first(), cur.push(s[0]))
    }
}

/// The whitespace-separated words of `s`, as `str::split_whitespace` yields them.
pub open spec fn words_spec(s: Seq<char>) -> Seq<Seq<char>> {
    words_from(s, seq![])
}

/// A line without the `\r` of a `\r\n` terminator.
pub open spec fn strip_cr(line: Seq<char>) -> Seq<char> {
    if line.len() > 0 && line.last() == '\r' {
        line.drop_last()
    } else {
        line
    }
}

/// The lines of `s` after the partial line `cur`: split at each `\n` (a
/// `\r` before it dropped), the last line only when not empty.
pub open spec fn lines_from(s: Seq<char>, cur: Seq<char>) -> Seq<Seq<char>>
    decreases s.len(),
{
    if s.len() == 0 {
        if cur.len() > 0 {
            seq![cur]
        } else {
            seq![]
        }
    } else if s[0] == '\n' {
        seq![strip_cr(cur)] + lines_from(s.drop_first(), seq![])
    } else {
        lines_from(s.drop_first(), cur.push(s[0]))
    }
}

/// The lines of `s`, as `str::lines` yields them: line terminators are `\n`
/// and `\r\n`, and the final one is optional.
pub open spec fn lines_spec(s: Seq<char>) -> Seq<Seq<char>> {
    lines_from(s, seq![])
}

/// The decimal digit character for `d` (`d < 10`).
pub open spec fn digit_char(d: nat) -> char {
    ((d + 48) as u8) as char
}

/// Decimal rendering of a natural number, without sign or leading zeros
/// (zero renders as `"0"`), as `to_string` and `format!("{}")` render unsigned integers.
pub open spec fn dec(n: nat) -> Seq<char>
    decreases n,
{
    if n < 10 {
        seq![digit_char(n)]
    } else {
        dec(n / 10).push(digit_char(n % 10))
    }
}

/// `count` copies of the character `c`.
pub open spec fn repeat_char(c: char, count: nat) -> Seq<char> {
    Seq::new(count, |i: int| c)
}

/// `dec(n)` left-padded with `'0'` to at least `width` characters, as
/// `format!("{:0width$}")` renders an unsigned integer.
pub open spec fn dec_padded(n: nat, width: nat) -> Seq<char> {
    let d = dec(n);
    if d.len() >= width {
        d
    } else {
        repeat_char('0', (width - d.len()) as nat) + d
    }
}

/// Whether `c` is an ASCII decimal digit.
pub open spec fn is_digit(c: char) -> bool {
    '0' <= c <= '9'
}

/// The value of a string of decimal digits (most significant first).
pub open spec fn digits_value(s: Seq<char>) -> nat
    decreases s.len(),
{
    if s.len() == 0 {
        0
    } else {
        digits_value(s.drop_last()) * 10 + ((s.last() as int - 48) as nat)
    }
}

/// Whether every character of `d` is an ASCII decimal digit.
pub open spec fn all_digits(d: Seq<char>) -> bool {
    forall|i: int| 0 <= i < d.len() ==> is_digit(#[trigger] d[i])
}

/// `s` without one leading `+` sign, if it has one.
pub open spec fn without_plus(s: Seq<char>) -> Seq<char> {
    if s.len() > 0 && s[0] == '+' {
        s.drop_first()
    } else {
        s
    }
}

/// Why a text does not read as an unsigned integer, as `ParseIntError`
/// reports it.
#[derive(Debug, Clone, Copy, PartialEq, Eq, Structural)]
pub enum ParseIntFailure {
    /// The text is empty.
    Empty,
    /// A character is not a decimal digit (a lone sign counts as one).
    InvalidDigit,
    /// The value does not fit the integer type.
    TooLarge,
}

/// The first failure met reading the digits `d` from position `i` on into a
/// `u32`: a non-digit, or a prefix whose value does not fit.
pub open spec fn first_failure(d: Seq<char>, i: int) -> Option<ParseIntFailure>
    decreases d.len() - i,
{
    if i < 0 || i >= d.len() {
        None
    } else if !is_digit(d[i]) {
        Some(ParseIntFailure::InvalidDigit)
    } else if digits_value(d.take(i + 1)) > u32::MAX {
        Some(ParseIntFailure::TooLarge)
    } else {
        first_failure(d, i + 1)
    }
}

/// What `str::parse::<u32>` gives: an optional `+` followed by one or more
/// ASCII digits whose value fits, else the first failure met from the left.
pub open spec fn parse_u32_spec(s: Seq<char>) -> Result<u32, ParseIntFailure> {
    let d = without_plus(s);
    if s.len() == 0 {
        Err(ParseIntFailure::Empty)
    } else if d.len() == 0 {
        Err(ParseIntFailure::InvalidDigit)
    } else {
        match first_failure(d, 0) {
            Some(f) => Err(f),
            None => Ok(digits_value(d) as u32),
        }
    }
}

/// The message of a failure, as `ParseIntError` displays it.
pub open spec fn failure_message(f: ParseIntFailure) -> Seq<char> {
    match f {
        ParseIntFailure::Empty => "cannot parse integer from empty string"@,
        ParseIntFailure::InvalidDigit => "invalid digit found in string"@,
        ParseIntFailure::TooLarge => "number too large to fit in target type"@,
    }
}

impl ParseIntFailure {
    /// The message of the failure.
    pub fn message(&self) -> (r: &'static str)
        ensures
            r@ == failure_message(*self),
    {
        match self {
            ParseIntFailure::Empty => "cannot parse integer from empty string",
            ParseIntFailure::InvalidDigit => "invalid digit found in string",
            ParseIntFailure::TooLarge => "number too large to fit in target type",
        }
    }
}

/// The index of the first occurrence of `x` in `s` at or after `from`.
pub open spec fn find_from<A>(s: Seq<A>, x: A, from: int) -> Option<int>
    decreases s.len() - from,
{
    if from < 0 || from >= s.len() {
        None
    } else if s[from] == x {
        Some(from)
    } else {
        find_from(s, x, from + 1)
    }
}

/// The index of the first occurrence of `x` in `s`.
pub open spec fn find_first<A>(s: Seq<A>, x: A) -> Option<int> {
    find_from(s, x, 0)
}

/// The index of the first occurrence of `c` in `s`.
pub open spec fn find_char(s: Seq<char>, c: char) -> Option<int> {
    find_first(s, c)
}

/// `str::split_once` with a character pattern: the parts before and after
/// the first occurrence of `c`.
pub open spec fn split_once_spec(s: Seq<char>, c: char) -> Option<(Seq<char>, Seq<char>)> {
    match find_char(s, c) {
        Some(k) => Some((s.take(k), s.skip(k + 1))),
        None => None,
    }
}

/// `str::split` with a character pattern: the pieces between the
/// occurrences of `c` (there is always at least one piece).
pub open spec fn split_spec(s: Seq<char>, c: char) -> Seq<Seq<char>>
    decreases s.len(),
{
    match find_char(s, c) {
        Some(k) => {
            if 0 <= k < s.len() {
                seq![s.take(k)] + split_spec(s.skip(k + 1), c)
            } else {
                seq![s]
            }
        },
        None => seq![s],
    }
}

/// `str::trim_end_matches` with a character pattern: `s` without its
/// trailing run of `c`.
pub open spec fn trim_end_char_spec(s: Seq<char>, c: char) -> Seq<char>
    decreases s.len(),
{
    if s.len() > 0 && s.last() == c {
        trim_end_char_spec(s.drop_last(), c)
    } else {
        s
    }
}

/// `str::replace` with a character pattern: every `c` in `s` becomes `r`.
pub open spec fn replace_char_spec(s: Seq<char>, c: char, r: Seq<char>) -> Seq<char>
    decreases s.len(),
{
    if s.len() == 0 {
        seq![]
    } else {
        replace_char_spec(s.drop_last(), c, r) + (if s.last() == c {
            r
        } else {
            seq![s.last()]
        })
    }
}

/// The pieces of `parts` with `sep` between each two neighbours, as
/// `[String]::join` produces.
pub open spec fn join_spec(parts: Seq<Seq<char>>, sep: Seq<char>) -> Seq<char>
    decreases parts.len(),
{
    if parts.len() == 0 {
        seq![]
    } else if parts.len() == 1 {
        parts[0]
    } else {
        join_spec(parts.drop_last(), sep) + sep + parts.last()
    }
}

proof fn lemma_find_from<A>(s: Seq<A>, x: A, from: int)
    requires
        0 <= from <= s.len(),
    ensures
        match find_from(s, x, from) {
            Some(k) => from <= k < s.len() && s[k] == x && forall|j: int|
                from <= j < k ==> s[j] != x,
            None => forall|j: int| from <= j < s.len() ==> s[j] != x,
        },
    decreases s.len() - from,
{
    if from < s.len() && s[from] != x {
        lemma_find_from(s, x, from + 1);
    }
}

/// The first occurrence of `x` in `s`, characterized.
pub proof fn lemma_find_first<A>(s: Seq<A>, x: A)
    ensures
        match find_first(s, x) {
            Some(k) => 0 <= k < s.len() && s[k] == x && forall|j: int| 0 <= j < k ==> s[j] != x,
            None => forall|j: int| 0 <= j < s.len() ==> s[j] != x,
        },
{
    lemma_find_from(s, x, 0);
}

/// The first occurrence of `c` in `s`, characterized.
pub proof fn lemma_find_char(s: Seq<char>, c: char)
    ensures
        match find_char(s, c) {
            Some(k) => 0 <= k < s.len() && s[k] == c && forall|j: int| 0 <= j < k ==> s[j] != c,
            None => forall|j: int| 0 <= j < s.len() ==> s[j] != c,
        },
{
    lemma_find_first(s, c);
}

fn digit_str(d: u64) -> (s: &'static str)
    requires
        d < 10,
    ensures
        s@ == seq![digit_char(d as nat)],
{
    let digits = "0123456789";
    proof {
        reveal_strlit("0123456789");
    }
    digits.substring_char(d as usize, (d + 1) as usize)
}

/// Renders `n` in decimal.
pub fn u64_to_dec(n: u64) -> (s: String)
    ensures
        s@ == dec(n as nat),
    decreases n,
{
    if n < 10 {
        String::from_str(digit_str(n))
    } else {
        let mut s = u64_to_dec(n / 10);
        s.append(digit_str(n % 10));
        s
    }
}

/// Renders `n` in decimal, left-padded with zeros to `width` characters.
pub fn u64_to_dec_padded(n: u64, width: usize) -> (s: String)
    ensures
        s@ == dec_padded(n as nat, width as nat),
{
    let d = u64_to_dec(n);
    let len = d.as_str().unicode_len();
    if len >= width {
        d
    } else {
        let mut s = String::new();
        let mut i: usize = 0;
        while i < width - len
            invariant
                i <= width - len,
                len < width,
                s@ == repeat_char('0', i as nat),
            decreases width - len - i,
        {
            s.append("0");
            proof {
                reveal_strlit("0");
            }
            assert(s@ =~= repeat_char('0', (i + 1) as nat));
            i = i + 1;
        }
        s.append(d.as_str());
        s
    }
}

/// Appends a copy of `s` to `v`.
pub fn push_str(v: &mut Vec<String>, s: &str)
    ensures
        final(v).deep_view() == old(v).deep_view().push(s@),
{
    v.push(s.to_string());
    assert(v.deep_view() =~= old(v).deep_view().push(s@));
}

/// Whether `c` is whitespace.
pub fn is_whitespace_exec(c: char) -> (r: bool)
    ensures
        r == is_whitespace(c),
{
    ('\u{9}' <= c && c <= '\u{d}') || c == ' ' || c == '\u{85}' || c == '\u{a0}' || c
        == '\u{1680}' || ('\u{2000}' <= c && c <= '\u{200a}') || c == '\u{2028}' || c
        == '\u{2029}' || c == '\u{202f}' || c == '\u{205f}' || c == '\u{3000}'
}

/// `s.trim()`.
pub fn trim(s: &str) -> (r: String)
    ensures
        r@ == trim_spec(s@),
{
    let n = s.unicode_len();
    let mut start: usize = 0;
    assert(s@.skip(0) =~= s@);
    while start < n && is_whitespace_exec(s.get_char(start))
        invariant
            n == s@.len(),
            start <= n,
            trim_start_spec(s@) == trim_start_spec(s@.skip(start as int)),
        decreases n - start,
    {
        assert(s@.skip(start as int).drop_first() =~= s@.skip(start + 1));
        start = start + 1;
    }
    let ghost t = s@.skip(start as int);
    assert(trim_start_spec(t) == t);
    let mut end: usize = n;
    assert(t.take((end - start) as int) =~= t);
    while end > start && is_whitespace_exec(s.get_char(end - 1))
        invariant
            n == s@.len(),
            start <= end <= n,
            t == s@.skip(start as int),
            trim_end_spec(t) == trim_end_spec(t.take((end - start) as int)),
        decreases end,
    {
        assert(t.take((end - start) as int).drop_last() =~= t.take(end - 1 - start));
        end = end - 1;
    }
    let r = s.substring_char(start, end).to_string();
    assert(r@ =~= t.take((end - start) as int));
    r
}

/// `s.split_whitespace()`, collected.
pub fn words(s: &str) -> (r: Vec<String>)
    ensures
        r.deep_view() == words_spec(s@),
{
    let n = s.unicode_len();
    let mut out: Vec<String> = Vec::new();
    let mut cur_start: usize = 0;
    let mut i: usize = 0;
    assert(s@.skip(0) =~= s@);
    assert(s@.subrange(0, 0) =~= Seq::<char>::empty());
    while i < n
        invariant
            n == s@.len(),
            cur_start <= i <= n,
            words_spec(s@) == out.deep_view() + words_from(
                s@.skip(i as int),
                s@.subrange(cur_start as int, i as int),
            ),
        decreases n - i,
    {
        let ghost rest = s@.skip(i as int);
        let ghost cur = s@.subrange(cur_start as int, i as int);
        assert(rest.drop_first() =~= s@.skip(i + 1));
        assert(rest[0] == s@[i as int]);
        let c = s.get_char(i);
        if is_whitespace_exec(c) {
            if cur_start < i {
                let ghost before = out.deep_view();
                let w = s.substring_char(cur_start, i).to_string();
                out.push(w);
                assert(out.deep_view() =~= before + seq![cur]);
            } else {
                assert(cur.len() == 0);
            }
            assert(s@.subrange(i + 1, i + 1) =~= Seq::<char>::empty());
            i = i + 1;
            cur_start = i;
        } else {
            assert(s@.subrange(cur_start as int, i + 1) =~= cur.push(c));
            i = i + 1;
        }
    }
    let ghost cur = s@.subrange(cur_start as int, n as int);
    if cur_start < n {
        let ghost before = out.deep_view();
        let w = s.substring_char(cur_start, n).to_string();
        out.push(w);
        assert(out.deep_view() =~= before + seq![cur]);
    }
    assert(words_from(s@.skip(n as int), cur) =~= (if cur.len() > 0 {
        seq![cur]
    } else {
        seq![]
    }));
    out
}

/// `s.lines()`, collected.
pub fn lines(s: &str) -> (r: Vec<String>)
    ensures
        r.deep_view() == lines_spec(s@),
{
    let n = s.unicode_len();
    let mut out: Vec<String> = Vec::new();
    let mut cur_start: usize = 0;
    let mut i: usize = 0;
    assert(s@.skip(0) =~= s@);
    assert(s@.subrange(0, 0) =~= Seq::<char>::empty());
    while i < n
        invariant
            n == s@.len(),
            cur_start <= i <= n,
            lines_spec(s@) == out.deep_view() + lines_from(
                s@.skip(i as int),
                s@.subrange(cur_start as int, i as int),
            ),
        decreases n - i,
    {
        let ghost rest = s@.skip(i as int);
        let ghost cur = s@.subrange(cur_start as int, i as int);
        assert(rest.drop_first() =~= s@.skip(i + 1));
        assert(rest[0] == s@[i as int]);
        let c = s.get_char(i);
        if c == '\n' {
            let ghost before = out.deep_view();
            let end = if cur_start < i && s.get_char(i - 1) == '\r' {
                i - 1
            } else {
                i
            };
            let line = s.substring_char(cur_start, end).to_string();
            assert(line@ =~= strip_cr(cur));
            out.push(line);
            assert(out.deep_view() =~= before + seq![strip_cr(cur)]);
            assert(s@.subrange(i + 1, i + 1) =~= Seq::<char>::empty());
            i = i + 1;
            cur_start = i;
        } else {
            assert(s@.subrange(cur_start as int, i + 1) =~= cur.push(c));
            i = i + 1;
        }
    }
    let ghost cur = s@.subrange(cur_start as int, n as int);
    if cur_start < n {
        let ghost before = out.deep_view();
        let line = s.substring_char(cur_start, n).to_string();
        out.push(line);
        assert(out.deep_view() =~= before + seq![cur]);
    }
    assert(lines_from(s@.skip(n as int), cur) =~= (if cur.len() > 0 {
        seq![cur]
    } else {
        seq![]
    }));
    out
}

/// Equality of two string slices, character by character.
pub fn str_eq(a: &str, b: &str) -> (r: bool)
    ensures
        r == (a@ == b@),
{
    let x = a.to_string();
    let y = b.to_string();
    x == y
}

/// The concatenation of two string slices.
pub fn concat(a: &str, b: &str) -> (r: String)
    ensures
        r@ == a@ + b@,
{
    let mut r = a.to_string();
    r.append(b);
    r
}

/// Whether `c` occurs in `s`.
pub fn contains_char(s: &str, c: char) -> (r: bool)
    ensures
        r == s@.contains(c),
{
    let n = s.unicode_len();
    let mut i: usize = 0;
    while i < n
        invariant
            n == s@.len(),
            i <= n,
            forall|j: int| 0 <= j < i ==> s@[j] != c,
        decreases n - i,
    {
        if s.get_char(i) == c {
            return true;
        }
        i = i + 1;
    }
    false
}

/// The index of the first occurrence of `c` in `s`.
pub fn find_char_exec(s: &str, c: char) -> (r: Option<usize>)
    ensures
        r matches Some(k) ==> find_char(s@, c) == Some(k as int),
        r is None ==> find_char(s@, c) is None,
{
    proof {
        lemma_find_char(s@, c);
    }
    let n = s.unicode_len();
    let mut i: usize = 0;
    while i < n
        invariant
            n == s@.len(),
            i <= n,
            forall|j: int| 0 <= j < i ==> s@[j] != c,
            match find_char(s@, c) {
                Some(k) => 0 <= k < s@.len() && s@[k] == c && forall|j: int|
                    0 <= j < k ==> s@[j] != c,
                None => forall|j: int| 0 <= j < s@.len() ==> s@[j] != c,
            },
        decreases n - i,
    {
        if s.get_char(i) == c {
            return Some(i);
        }
        i = i + 1;
    }
    None
}

/// `s.split_once(c)`.
pub fn split_once_char(s: &str, c: char) -> (r: Option<(String, String)>)
    ensures
        match r {
            Some((a, b)) => split_once_spec(s@, c) == Some((a@, b@)),
            None => split_once_spec(s@, c) is None,
        },
{
    proof {
        lemma_find_char(s@, c);
    }
    match find_char_exec(s, c) {
        Some(k) => {
            let n = s.unicode_len();
            let a = s.substring_char(0, k).to_string();
            let b = s.substring_char(k + 1, n).to_string();
            assert(a@ =~= s@.take(k as int));
            assert(b@ =~= s@.skip(k + 1));
            Some((a, b))
        },
        None => None,
    }
}

/// `s.split(c)`, collected.
pub fn split_char(s: &str, c: char) -> (r: Vec<String>)
    ensures
        r.deep_view() == split_spec(s@, c),
    decreases s@.len(),
{
    proof {
        lemma_find_char(s@, c);
    }
    match find_char_exec(s, c) {
        Some(k) => {
            let n = s.unicode_len();
            let head = s.substring_char(0, k).to_string();
            let rest = s.substring_char(k + 1, n);
            assert(rest@ =~= s@.skip(k + 1));
            let mut tail = split_char(rest, c);
            let ghost tail_view = tail.deep_view();
            let mut r: Vec<String> = Vec::new();
            r.push(head);
            r.append(&mut tail);
            assert(r.deep_view() =~= seq![s@.take(k as int)] + tail_view);
            r
        },
        None => {
            let mut r: Vec<String> = Vec::new();
            r.push(s.to_string());
            assert(r.deep_view() =~= seq![s@]);
            r
        },
    }
}

/// `s.trim_end_matches(c)`.
pub fn trim_end_char(s: &str, c: char) -> (r: String)
    ensures
        r@ == trim_end_char_spec(s@, c),
{
    let n = s.unicode_len();
    let mut end: usize = n;
    assert(s@.take(n as int) =~= s@);
    while end > 0 && s.get_char(end - 1) == c
        invariant
            n == s@.len(),
            end <= n,
            s@.take(n as int) =~= s@,
            trim_end_char_spec(s@.take(end as int), c) == trim_end_char_spec(s@, c),
        decreases end,
    {
        assert(s@.take(end as int).drop_last() =~= s@.take(end - 1));
        end = end - 1;
    }
    assert(s@.take(n as int) =~= s@);
    let r = s.substring_char(0, end).to_string();
    assert(r@ =~= s@.take(end as int));
    r
}

/// `s.replace(c, r)`.
pub fn replace_char(s: &str, c: char, r: &str) -> (out: String)
    ensures
        out@ == replace_char_spec(s@, c, r@),
{
    let n = s.unicode_len();
    let mut out = String::new();
    let mut i: usize = 0;
    while i < n
        invariant
            n == s@.len(),
            i <= n,
            out@ == replace_char_spec(s@.take(i as int), c, r@),
        decreases n - i,
    {
        assert(s@.take(i + 1).drop_last() =~= s@.take(i as int));
        if s.get_char(i) == c {
            out.append(r);
        } else {
            out.append(s.substring_char(i, i + 1));
        }
        assert(out@ =~= replace_char_spec(s@.take(i + 1), c, r@));
        i = i + 1;
    }
    assert(s@.take(n as int) =~= s@);
    out
}

/// The strings of `parts`, joined with `sep`.
pub fn join(parts: &[String], sep: &str) -> (r: String)
    ensures
        r@ == join_spec(parts@.map_values(|p: String| p@), sep@),
{
    let ghost views = parts@.map_values(|p: String| p@);
    let mut r = String::new();
    let mut i: usize = 0;
    while i < parts.len()
        invariant
            i <= parts.len(),
            views == parts@.map_values(|p: String| p@),
            r@ == join_spec(views.take(i as int), sep@),
        decreases parts.len() - i,
    {
        assert(views.take(i + 1).drop_last() =~= views.take(i as int));
        if i > 0 {
            r.append(sep);
        }
        r.append(parts[i].as_str());
        assert(views.take(i + 1).last() == parts@[i as int]@);
        assert(r@ =~= join_spec(views.take(i + 1), sep@));
        i = i + 1;
    }
    assert(views.take(parts.len() as int) =~= views);
    r
}

proof fn lemma_digits_value_prefix(d: Seq<char>, i: int)
    requires
        0 <= i < d.len(),
    ensures
        digits_value(d.take(i + 1)) == digits_value(d.take(i)) * 10 + ((d[i] as int - 48) as nat),
{
    assert(d.take(i + 1).drop_last() =~= d.take(i));
}

proof fn lemma_digits_value_monotone(d: Seq<char>, i: int, j: int)
    requires
        0 <= i <= j <= d.len(),
        forall|k: int| 0 <= k < d.len() ==> is_digit(#[trigger] d[k]),
    ensures
        digits_value(d.take(i)) <= digits_value(d.take(j)),
    decreases j - i,
{
    if i < j {
        lemma_digits_value_monotone(d, i, j - 1);
        lemma_digits_value_prefix(d, j - 1);
    }
}

proof fn lemma_no_failure(d: Seq<char>, i: int)
    requires
        0 <= i <= d.len(),
        all_digits(d),
        digits_value(d) <= u32::MAX,
    ensures
        first_failure(d, i) is None,
    decreases d.len() - i,
{
    if i < d.len() {
        lemma_digits_value_monotone(d, i + 1, d.len() as int);
        assert(d.take(d.len() as int) =~= d);
        lemma_no_failure(d, i + 1);
    }
}

/// `s.parse::<u32>()`, with the kind of failure.
pub fn parse_u32(s: &str) -> (r: Result<u32, ParseIntFailure>)
    ensures
        r == parse_u32_spec(s@),
{
    let n = s.unicode_len();
    if n == 0 {
        return Err(ParseIntFailure::Empty);
    }
    let start: usize = if s.get_char(0) == '+' {
        1
    } else {
        0
    };
    let ghost d = without_plus(s@);
    assert(d =~= s@.skip(start as int));
    if start >= n {
        return Err(ParseIntFailure::InvalidDigit);
    }
    let mut acc: u64 = 0;
    let mut i: usize = start;
    while i < n
        invariant
            n == s@.len(),
            start <= i <= n,
            start < n,
            d == without_plus(s@),
            d =~= s@.skip(start as int),
            forall|k: int| 0 <= k < i - start ==> is_digit(#[trigger] d[k]),
            acc == digits_value(d.take(i - start)),
            acc <= u32::MAX,
            first_failure(d, 0) == first_failure(d, i - start),
        decreases n - i,
    {
        let ch = s.get_char(i);
        if !('0' <= ch && ch <= '9') {
            assert(!is_digit(d[i - start]));
            return Err(ParseIntFailure::InvalidDigit);
        }
        proof {
            lemma_digits_value_prefix(d, i - start);
        }
        let v = ch as u64 - 48;
        acc = acc * 10 + v;
        if acc > 0xffff_ffff {
            return Err(ParseIntFailure::TooLarge);
        }
        i = i + 1;
    }
    assert(d.take(n - start) =~= d);
    Ok(acc as u32)
}

} // verus!

verus! {

/// The digit character of `d` is a digit worth `d`.
pub proof fn lemma_digit_char(d: nat)
    requires
        d < 10,
    ensures
        is_digit(digit_char(d)),
        digit_char(d) as int - 48 == d,
        digit_char(d) != 'k',
        digit_char(d) != '+',
{
    assert(((d + 48) as u8) as char as int == d + 48);
}

/// The decimal rendering of `n` is a non-empty string of digits worth `n`.
pub proof fn lemma_dec(n: nat)
    ensures
        dec(n).len() > 0,
        all_digits(dec(n)),
        digits_value(dec(n)) == n,
        dec(n)[0] != '+',
        dec(n).last() != 'k',
        n <= u32::MAX ==> parse_u32_spec(dec(n)) == Ok::<u32, ParseIntFailure>(n as u32),
    decreases n,
{
    if n < 10 {
        lemma_digit_char(n);
        assert(dec(n).drop_last() =~= Seq::<char>::empty());
        assert(digits_value(Seq::<char>::empty()) == 0);
        assert(dec(n).last() == digit_char(n));
        assert(((digit_char(n) as int - 48) as nat) == n);
        assert(digits_value(dec(n)) == digits_value(dec(n).drop_last()) * 10 + ((dec(n).last() as int - 48) as nat));
    } else {
        lemma_dec(n / 10);
        lemma_digit_char(n % 10);
        let s = dec(n / 10);
        assert(dec(n).drop_last() =~= s);
        assert(dec(n).last() == digit_char(n % 10));
        assert(digits_value(dec(n)) == digits_value(s) * 10 + ((digit_char(n % 10) as int - 48) as nat));
        assert(((digit_char(n % 10) as int - 48) as nat) == n % 10);
        assert(digits_value(s) == n / 10);
        assert((n / 10) * 10 + n % 10 == n);
    }
    if n <= u32::MAX {
        assert(without_plus(dec(n)) == dec(n));
        lemma_no_failure(dec(n), 0);
    }
}

} // verus!
