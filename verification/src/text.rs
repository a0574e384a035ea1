//! Character-level string handling: splitting, trimming, decimal parsing and
//! formatting, hexadecimal encoding.

use vstd::prelude::*;
use vstd::std_specs::iter::IteratorSpec;

verus! {

broadcast use vstd::string::group_string_axioms;

// ---------------------------------------------------------------------------
// Building strings
// ---------------------------------------------------------------------------

/// Appends one character to a string (`String::push`).
#[verifier::external_body]
pub(crate) fn push_char(s: &mut String, c: char)
    ensures
        final(s)@ == old(s)@.push(c),
{
    s.push(c);
}

/// The characters of `s`, in order.
pub fn chars_of(s: &str) -> (r: Vec<char>)
    ensures
        r@ == s@,
{
    let mut v: Vec<char> = Vec::new();
    for c in it: s.chars()
        invariant
            v@ == it.seq().take(it.index() as int),
    {
        v.push(c);
    }
    v
}

/// The string made of `chars[from..to]`.
pub fn string_from_range(chars: &Vec<char>, from: usize, to: usize) -> (r: String)
    requires
        from <= to <= chars.len(),
    ensures
        r@ == chars@.subrange(from as int, to as int),
{
    let mut r = String::new();
    let mut i = from;
    while i < to
        invariant
            from <= i <= to <= chars.len(),
            r@ == chars@.subrange(from as int, i as int),
        decreases to - i,
    {
        push_char(&mut r, chars[i]);
        assert(chars@.subrange(from as int, i + 1) =~= chars@.subrange(from as int, i as int).push(
            chars@[i as int],
        ));
        i += 1;
    }
    r
}

/// The string holding exactly the characters `chars`.
pub fn string_from_chars(chars: &Vec<char>) -> (r: String)
    ensures
        r@ == chars@,
{
    let r = string_from_range(chars, 0, chars.len());
    assert(chars@.subrange(0, chars@.len() as int) =~= chars@);
    r
}

/// `a` followed by `b`.
pub fn concat2(a: &str, b: &str) -> (r: String)
    ensures
        r@ == a@ + b@,
{
    let mut r = String::from_str(a);
    r.append(b);
    r
}

/// `a`, `b` and `c` one after the other.
pub fn concat3(a: &str, b: &str, c: &str) -> (r: String)
    ensures
        r@ == a@ + b@ + c@,
{
    let mut r = String::from_str(a);
    r.append(b);
    r.append(c);
    r
}

/// Whether two strings hold the same characters.
pub fn str_equal(a: &str, b: &str) -> (r: bool)
    ensures
        r == (a@ == b@),
{
    let x = String::from_str(a);
    let y = String::from_str(b);
    x == y
}

// ---------------------------------------------------------------------------
// Splitting at a separator character
// ---------------------------------------------------------------------------

/// The pieces of `s` between occurrences of `sep`, as `str::split` with a
/// `char` pattern gives them: one more piece than there are separators, empty
/// pieces included.
pub open spec fn split_spec(s: Seq<char>, sep: char) -> Seq<Seq<char>>
    decreases s.len(),
{
    if s.len() == 0 {
        seq![Seq::<char>::empty()]
    } else {
        let init = split_spec(s.drop_last(), sep);
        if s.last() == sep {
            init.push(Seq::<char>::empty())
        } else {
            init.update(init.len() - 1, init.last().push(s.last()))
        }
    }
}

/// The pieces `parts` glued back together with `sep` between neighbours.
pub open spec fn join_spec(parts: Seq<Seq<char>>, sep: char) -> Seq<char>
    decreases parts.len(),
{
    if parts.len() == 0 {
        Seq::<char>::empty()
    } else if parts.len() == 1 {
        parts[0]
    } else {
        join_spec(parts.drop_last(), sep).push(sep) + parts.last()
    }
}

/// Number of occurrences of `c` in `s`.
pub open spec fn count_char(s: Seq<char>, c: char) -> nat
    decreases s.len(),
{
    if s.len() == 0 {
        0
    } else {
        count_char(s.drop_last(), c) + if s.last() == c {
            1nat
        } else {
            0nat
        }
    }
}

/// Counting a character in a concatenation adds the counts of the parts.
pub proof fn lemma_count_concat(a: Seq<char>, b: Seq<char>, c: char)
    ensures
        count_char(a + b, c) == count_char(a, c) + count_char(b, c),
    decreases b.len(),
{
    if b.len() == 0 {
        assert(a + b =~= a);
    } else {
        lemma_count_concat(a, b.drop_last(), c);
        assert((a + b).drop_last() =~= a + b.drop_last());
    }
}

/// Splitting gives one piece more than there are separators, and no piece
/// holds the separator.
pub proof fn lemma_split_shape(s: Seq<char>, sep: char)
    ensures
        split_spec(s, sep).len() == count_char(s, sep) + 1,
        forall|i: int, j: int|
            0 <= i < split_spec(s, sep).len() && 0 <= j < split_spec(s, sep)[i].len()
                ==> split_spec(s, sep)[i][j] != sep,
    decreases s.len(),
{
    if s.len() > 0 {
        lemma_split_shape(s.drop_last(), sep);
    }
}

/// Gluing the pieces of `s` back together with the separator gives `s`.
pub proof fn lemma_join_split(s: Seq<char>, sep: char)
    ensures
        join_spec(split_spec(s, sep), sep) == s,
    decreases s.len(),
{
    if s.len() > 0 {
        let init = split_spec(s.drop_last(), sep);
        lemma_join_split(s.drop_last(), sep);
        lemma_split_shape(s.drop_last(), sep);
        if s.last() == sep {
            assert(init.push(Seq::<char>::empty()).drop_last() =~= init);
            assert(s =~= s.drop_last().push(sep) + Seq::<char>::empty());
        } else {
            let upd = init.update(init.len() - 1, init.last().push(s.last()));
            if init.len() == 1 {
                assert(s =~= init[0].push(s.last()));
            } else {
                assert(upd.drop_last() =~= init.drop_last());
                assert(join_spec(init, sep) == join_spec(init.drop_last(), sep).push(sep)
                    + init.last());
                assert(s =~= join_spec(init, sep).push(s.last()));
                assert(s =~= join_spec(init.drop_last(), sep).push(sep) + init.last().push(
                    s.last(),
                ));
            }
        }
    }
}

/// Splitting a string glued from separator-free pieces gives those pieces
/// back.
pub proof fn lemma_split_join(parts: Seq<Seq<char>>, sep: char)
    requires
        parts.len() >= 1,
        forall|i: int, j: int| 0 <= i < parts.len() && 0 <= j < parts[i].len() ==> parts[i][j] != sep,
    ensures
        split_spec(join_spec(parts, sep), sep) == parts,
    decreases parts.len(),
{
    if parts.len() == 1 {
        lemma_split_free(Seq::<char>::empty(), parts[0], sep);
        assert(Seq::<char>::empty() + parts[0] =~= parts[0]);
        assert(seq![Seq::<char>::empty()].update(0, Seq::<char>::empty() + parts[0]) =~= parts);
    } else {
        let init = parts.drop_last();
        lemma_split_join(init, sep);
        let prefix = join_spec(init, sep).push(sep);
        lemma_split_shape(join_spec(init, sep), sep);
        assert(prefix.drop_last() =~= join_spec(init, sep));
        assert(split_spec(prefix, sep) == init.push(Seq::<char>::empty()));
        lemma_split_free(prefix, parts.last(), sep);
        assert(Seq::<char>::empty() + parts.last() =~= parts.last());
        assert(init.push(Seq::<char>::empty()).update(init.len() as int, parts.last()) =~= parts);
    }
}

/// Appending separator-free characters only extends the last piece.
proof fn lemma_split_free(a: Seq<char>, b: Seq<char>, sep: char)
    requires
        forall|j: int| 0 <= j < b.len() ==> b[j] != sep,
    ensures
        split_spec(a + b, sep) == split_spec(a, sep).update(
            split_spec(a, sep).len() - 1,
            split_spec(a, sep).last() + b,
        ),
    decreases b.len(),
{
    lemma_split_shape(a, sep);
    if b.len() == 0 {
        assert(a + b =~= a);
        assert(split_spec(a, sep).last() + b =~= split_spec(a, sep).last());
        assert(split_spec(a, sep).update(split_spec(a, sep).len() - 1, split_spec(a, sep).last())
            =~= split_spec(a, sep));
    } else {
        lemma_split_free(a, b.drop_last(), sep);
        assert((a + b).drop_last() =~= a + b.drop_last());
        assert((split_spec(a, sep).last() + b.drop_last()).push(b.last()) =~= split_spec(a, sep).last()
            + b);
        let sa = split_spec(a, sep);
        let mid = sa.update(sa.len() - 1, sa.last() + b.drop_last());
        assert(mid.update(mid.len() - 1, mid.last().push(b.last())) =~= sa.update(
            sa.len() - 1,
            sa.last() + b,
        ));
    }
}

/// The pieces of `s` between occurrences of `sep` (`str::split` with a
/// `char` pattern).
pub fn split_char(s: &str, sep: char) -> (r: Vec<String>)
    ensures
        r.deep_view() == split_spec(s@, sep),
{
    let chars = chars_of(s);
    let mut parts: Vec<String> = Vec::new();
    let mut cur = String::new();
    let mut i: usize = 0;
    while i < chars.len()
        invariant
            i <= chars.len(),
            chars@ == s@,
            parts.deep_view().push(cur@) == split_spec(chars@.take(i as int), sep),
        decreases chars.len() - i,
    {
        let c = chars[i];
        proof {
            lemma_split_shape(chars@.take(i as int), sep);
            assert(chars@.take(i + 1).drop_last() =~= chars@.take(i as int));
        }
        if c == sep {
            let ghost before = parts.deep_view();
            parts.push(cur);
            assert(parts.deep_view() =~= before.push(cur@));
            cur = String::new();
            assert(parts.deep_view().push(cur@) =~= split_spec(chars@.take(i + 1), sep));
        } else {
            let ghost before = parts.deep_view();
            push_char(&mut cur, c);
            assert(parts.deep_view().push(cur@) =~= split_spec(chars@.take(i + 1), sep));
        }
        i += 1;
    }
    let ghost before = parts.deep_view();
    parts.push(cur);
    assert(parts.deep_view() =~= before.push(cur@));
    assert(chars@.take(chars.len() as int) =~= s@);
    parts
}

// ---------------------------------------------------------------------------
// Trimming
// ---------------------------------------------------------------------------

/// Unicode `White_Space`, the property that `char::is_whitespace` tests.
pub open spec fn is_whitespace_spec(c: char) -> bool {
    let n = c as u32;
    ||| 0x09 <= n <= 0x0d
    ||| n == 0x20
    ||| n == 0x85
    ||| n == 0xa0
    ||| n == 0x1680
    ||| 0x2000 <= n <= 0x200a
    ||| n == 0x2028
    ||| n == 0x2029
    ||| n == 0x202f
    ||| n == 0x205f
    ||| n == 0x3000
}

/// Whether `c` is Unicode white space (`char::is_whitespace`).
pub fn is_whitespace(c: char) -> (r: bool)
    ensures
        r == is_whitespace_spec(c),
{
    let n = c as u32;
    (0x09 <= n && n <= 0x0d) || n == 0x20 || n == 0x85 || n == 0xa0 || n == 0x1680 || (0x2000 <= n
        && n <= 0x200a) || n == 0x2028 || n == 0x2029 || n == 0x202f || n == 0x205f || n == 0x3000
}

/// What a trim removes: white space, or one given character.
pub enum TrimSet {
    Whitespace,
    Char(char),
}

/// Whether `c` is removed by a trim of `set`.
pub open spec fn trimmed_by(set: TrimSet, c: char) -> bool {
    match set {
        TrimSet::Whitespace => is_whitespace_spec(c),
        TrimSet::Char(x) => c == x,
    }
}

/// `s` without its leading characters of `set`.
pub open spec fn trim_start_spec(s: Seq<char>, set: TrimSet) -> Seq<char>
    decreases s.len(),
{
    if s.len() > 0 && trimmed_by(set, s[0]) {
        trim_start_spec(s.drop_first(), set)
    } else {
        s
    }
}

/// `s` without its trailing characters of `set`.
pub open spec fn trim_end_spec(s: Seq<char>, set: TrimSet) -> Seq<char>
    decreases s.len(),
{
    if s.len() > 0 && trimmed_by(set, s.last()) {
        trim_end_spec(s.drop_last(), set)
    } else {
        s
    }
}

/// `s` without the characters of `set` at either end (`str::trim`,
/// `str::trim_matches`).
pub open spec fn trim_spec(s: Seq<char>, set: TrimSet) -> Seq<char> {
    trim_end_spec(trim_start_spec(s, set), set)
}

fn in_trim_set(set: &TrimSet, c: char) -> (r: bool)
    ensures
        r == trimmed_by(*set, c),
{
    match set {
        TrimSet::Whitespace => is_whitespace(c),
        TrimSet::Char(x) => c == *x,
    }
}

/// `s` without the characters of `set` at either end.
pub fn trim_by(s: &str, set: TrimSet) -> (r: String)
    ensures
        r@ == trim_spec(s@, set),
{
    let chars = chars_of(s);
    let n = chars.len();
    let mut i: usize = 0;
    assert(chars@.skip(0) =~= chars@);
    while i < n && in_trim_set(&set, chars[i])
        invariant
            i <= n == chars@.len(),
            trim_start_spec(chars@, set) == trim_start_spec(chars@.skip(i as int), set),
        decreases n - i,
    {
        assert(chars@.skip(i as int).drop_first() =~= chars@.skip(i + 1));
        i += 1;
    }
    assert(trim_start_spec(chars@, set) == chars@.skip(i as int));
    let mut j: usize = n;
    while j > i && in_trim_set(&set, chars[j - 1])
        invariant
            i <= j <= n == chars@.len(),
            trim_end_spec(chars@.skip(i as int), set) == trim_end_spec(
                chars@.subrange(i as int, j as int),
                set,
            ),
        decreases j,
    {
        assert(chars@.subrange(i as int, j as int).drop_last() =~= chars@.subrange(
            i as int,
            j - 1,
        ));
        j -= 1;
    }
    assert(chars@.skip(i as int) =~= chars@.subrange(i as int, n as int));
    string_from_range(&chars, i, j)
}

/// `s` without white space at either end (`str::trim`).
pub fn trim(s: &str) -> (r: String)
    ensures
        r@ == trim_spec(s@, TrimSet::Whitespace),
{
    trim_by(s, TrimSet::Whitespace)
}

/// `s` without the character `c` at either end (`str::trim_matches`).
pub fn trim_matches(s: &str, c: char) -> (r: String)
    ensures
        r@ == trim_spec(s@, TrimSet::Char(c)),
{
    trim_by(s, TrimSet::Char(c))
}


// ---------------------------------------------------------------------------
// Decimal numbers
// ---------------------------------------------------------------------------

/// Whether `c` is one of the ASCII digits `0`..`9`.
pub open spec fn is_digit_spec(c: char) -> bool {
    48 <= c as u32 <= 57
}

/// The value of the ASCII digit `c`.
pub open spec fn digit_value(c: char) -> nat {
    (c as u32 - 48) as nat
}

/// The value of the decimal digit string `d`, most significant digit first.
pub open spec fn digits_value(d: Seq<char>) -> nat
    decreases d.len(),
{
    if d.len() == 0 {
        0
    } else {
        digits_value(d.drop_last()) * 10 + digit_value(d.last())
    }
}

/// Whether `d` is a non-empty run of ASCII digits.
pub open spec fn is_digit_run(d: Seq<char>) -> bool {
    d.len() > 0 && forall|i: int| 0 <= i < d.len() ==> is_digit_spec(#[trigger] d[i])
}

/// What `str::parse` gives for an unsigned integer type whose largest value
/// is `max`: an optional `+`, then one or more ASCII digits whose value does
/// not exceed `max`; anything else is an error.
pub open spec fn parse_unsigned_spec(s: Seq<char>, max: nat) -> Option<nat> {
    let d = if s.len() > 0 && s[0] == '+' {
        s.drop_first()
    } else {
        s
    };
    if is_digit_run(d) && digits_value(d) <= max {
        Some(digits_value(d))
    } else {
        None
    }
}

/// What `str::parse::<i32>` gives: an optional `+` or `-`, then one or more
/// ASCII digits, the signed value within `i32`'s range.
pub open spec fn parse_i32_spec(s: Seq<char>) -> Option<int> {
    if s.len() > 0 && s[0] == '-' {
        let d = s.drop_first();
        if is_digit_run(d) && digits_value(d) <= 0x8000_0000 {
            Some(-(digits_value(d) as int))
        } else {
            None
        }
    } else {
        match parse_unsigned_spec(s, 0x7fff_ffff) {
            Some(v) => Some(v as int),
            None => None,
        }
    }
}

proof fn lemma_digits_value_grows(d: Seq<char>, k: int)
    requires
        0 <= k <= d.len(),
    ensures
        digits_value(d.take(k)) <= digits_value(d),
    decreases d.len() - k,
{
    if k < d.len() {
        lemma_digits_value_grows(d, k + 1);
        assert(d.take(k + 1).drop_last() =~= d.take(k));
    } else {
        assert(d.take(k) =~= d);
    }
}

/// Why a text is no integer of the type asked for, as `str::parse` reports
/// it (the kinds of `std::num::IntErrorKind` that a plain integer type can
/// give).
#[derive(Clone, Copy, Debug, PartialEq, Eq, Structural)]
pub enum IntErrorKind {
    /// The text is empty.
    Empty,
    /// A character is no digit where one is expected (a lone sign counts).
    InvalidDigit,
    /// The value is above the type's range.
    PosOverflow,
    /// The value is below the type's range.
    NegOverflow,
}

/// The text `ParseIntError` displays for an error of kind `k`.
pub open spec fn int_error_text(k: IntErrorKind) -> Seq<char> {
    match k {
        IntErrorKind::Empty => "cannot parse integer from empty string"@,
        IntErrorKind::InvalidDigit => "invalid digit found in string"@,
        IntErrorKind::PosOverflow => "number too large to fit in target type"@,
        IntErrorKind::NegOverflow => "number too small to fit in target type"@,
    }
}

impl IntErrorKind {
    /// The text `ParseIntError` displays for this kind.
    pub fn message(&self) -> (r: String)
        ensures
            r@ == int_error_text(*self),
    {
        match self {
            IntErrorKind::Empty => String::from_str("cannot parse integer from empty string"),
            IntErrorKind::InvalidDigit => String::from_str("invalid digit found in string"),
            IntErrorKind::PosOverflow => String::from_str("number too large to fit in target type"),
            IntErrorKind::NegOverflow => String::from_str("number too small to fit in target type"),
        }
    }
}

/// The number of ASCII digits that `d` starts with.
pub open spec fn leading_digits(d: Seq<char>) -> nat
    decreases d.len(),
{
    if d.len() > 0 && is_digit_spec(d[0]) {
        1 + leading_digits(d.drop_first())
    } else {
        0
    }
}

/// The first error met reading the digits `d` from the left: `over` once the
/// digits read so far exceed `max` (the digits read grow in value, so this is
/// whether all leading digits together do), else an invalid digit at the
/// first character that is no digit.
pub open spec fn digits_failure(d: Seq<char>, max: nat, over: IntErrorKind) -> IntErrorKind {
    if digits_value(d.take(leading_digits(d) as int)) > max {
        over
    } else {
        IntErrorKind::InvalidDigit
    }
}

/// The error `str::parse` gives for `s` and an unsigned type whose largest
/// value is `max`, where `parse_unsigned_spec` has no value.
pub open spec fn unsigned_failure(s: Seq<char>, max: nat) -> IntErrorKind {
    if s.len() == 0 {
        IntErrorKind::Empty
    } else if s.len() == 1 && (s[0] == '+' || s[0] == '-') {
        IntErrorKind::InvalidDigit
    } else if s[0] == '+' {
        digits_failure(s.drop_first(), max, IntErrorKind::PosOverflow)
    } else {
        digits_failure(s, max, IntErrorKind::PosOverflow)
    }
}

/// The error `str::parse::<i32>` gives for `s` where `parse_i32_spec` has no
/// value.
pub open spec fn i32_failure(s: Seq<char>) -> IntErrorKind {
    if s.len() > 1 && s[0] == '-' {
        digits_failure(s.drop_first(), 0x8000_0000, IntErrorKind::NegOverflow)
    } else {
        unsigned_failure(s, 0x7fff_ffff)
    }
}

proof fn lemma_leading_digits(d: Seq<char>, k: int)
    requires
        0 <= k <= d.len(),
        forall|i: int| 0 <= i < k ==> is_digit_spec(#[trigger] d[i]),
        k == d.len() || !is_digit_spec(d[k]),
    ensures
        leading_digits(d) == k,
    decreases k,
{
    if k > 0 {
        let t = d.drop_first();
        assert forall|i: int| 0 <= i < k - 1 implies is_digit_spec(#[trigger] t[i]) by {
            assert(t[i] == d[i + 1]);
        }
        if k < d.len() {
            assert(t[k - 1] == d[k]);
        }
        lemma_leading_digits(t, k - 1);
    }
}

proof fn lemma_leading_at_least(d: Seq<char>, k: int)
    requires
        0 <= k <= d.len(),
        forall|i: int| 0 <= i < k ==> is_digit_spec(#[trigger] d[i]),
    ensures
        k <= leading_digits(d) <= d.len(),
    decreases d.len(),
{
    if d.len() > 0 {
        let t = d.drop_first();
        if k > 0 {
            assert(is_digit_spec(d[0]));
            assert forall|i: int| 0 <= i < k - 1 implies is_digit_spec(#[trigger] t[i]) by {
                assert(t[i] == d[i + 1]);
            }
            lemma_leading_at_least(t, k - 1);
        } else {
            lemma_leading_at_least(t, 0);
        }
    }
}

/// The value of the digits `chars[start..]` when they form a non-empty digit
/// run whose value is at most `limit`; otherwise the first error met reading
/// them from the left, `over` for a value above `limit`.
fn parse_digits(chars: &Vec<char>, start: usize, limit: u64, over: IntErrorKind) -> (r: Result<
    u64,
    IntErrorKind,
>)
    requires
        start < chars.len(),
    ensures
        r == (if is_digit_run(chars@.skip(start as int)) && digits_value(chars@.skip(start as int))
            <= limit {
            Ok::<u64, IntErrorKind>(digits_value(chars@.skip(start as int)) as u64)
        } else {
            Err::<u64, IntErrorKind>(digits_failure(chars@.skip(start as int), limit as nat, over))
        }),
{
    let ghost d = chars@.skip(start as int);
    let mut acc: u64 = 0;
    let mut i = start;
    while i < chars.len()
        invariant
            start <= i <= chars.len(),
            d == chars@.skip(start as int),
            acc == digits_value(d.take(i - start)),
            acc <= limit,
            forall|k: int| 0 <= k < i - start ==> is_digit_spec(#[trigger] d[k]),
        decreases chars.len() - i,
    {
        let c = chars[i];
        let n = c as u32;
        assert(d[i - start] == c);
        if n < 48 || n > 57 {
            proof {
                lemma_leading_digits(d, i - start);
            }
            return Err(IntErrorKind::InvalidDigit);
        }
        let dv = (n - 48) as u64;
        assert(d.take(i - start + 1).drop_last() =~= d.take(i - start));
        if dv > limit || acc > (limit - dv) / 10 {
            proof {
                assert(digits_value(d.take(i - start + 1)) == acc * 10 + dv);
                lemma_digits_value_grows(d, i - start + 1);
                lemma_leading_at_least(d, i - start + 1);
                let n = leading_digits(d) as int;
                lemma_digits_value_grows(d.take(n), i - start + 1);
                assert(d.take(n).take(i - start + 1) =~= d.take(i - start + 1));
            }
            return Err(over);
        }
        acc = acc * 10 + dv;
        i += 1;
    }
    assert(d.take(i - start) =~= d);
    Ok(acc)
}

/// `str::parse::<u64>`, with the kind of its error.
pub fn parse_u64(s: &str) -> (r: Result<u64, IntErrorKind>)
    ensures
        r == (match parse_unsigned_spec(s@, u64::MAX as nat) {
            Some(v) => Ok::<u64, IntErrorKind>(v as u64),
            None => Err(unsigned_failure(s@, u64::MAX as nat)),
        }),
{
    let chars = chars_of(s);
    parse_unsigned(&chars, u64::MAX)
}

fn parse_unsigned(chars: &Vec<char>, limit: u64) -> (r: Result<u64, IntErrorKind>)
    ensures
        r == (match parse_unsigned_spec(chars@, limit as nat) {
            Some(v) => Ok::<u64, IntErrorKind>(v as u64),
            None => Err(unsigned_failure(chars@, limit as nat)),
        }),
{
    if chars.len() == 0 {
        return Err(IntErrorKind::Empty);
    }
    if chars.len() == 1 && (chars[0] == '+' || chars[0] == '-') {
        return Err(IntErrorKind::InvalidDigit);
    }
    let start: usize = if chars[0] == '+' {
        1
    } else {
        0
    };
    assert(chars@.skip(1) =~= chars@.drop_first());
    assert(chars@.skip(0) =~= chars@);
    parse_digits(chars, start, limit, IntErrorKind::PosOverflow)
}

/// `str::parse::<u32>`, with the kind of its error.
pub fn parse_u32(s: &str) -> (r: Result<u32, IntErrorKind>)
    ensures
        r == (match parse_unsigned_spec(s@, u32::MAX as nat) {
            Some(v) => Ok::<u32, IntErrorKind>(v as u32),
            None => Err(unsigned_failure(s@, u32::MAX as nat)),
        }),
{
    let chars = chars_of(s);
    match parse_unsigned(&chars, u32::MAX as u64) {
        Ok(v) => Ok(v as u32),
        Err(k) => Err(k),
    }
}

/// `str::parse::<i32>`, with the kind of its error.
pub fn parse_i32(s: &str) -> (r: Result<i32, IntErrorKind>)
    ensures
        r == (match parse_i32_spec(s@) {
            Some(v) => Ok::<i32, IntErrorKind>(v as i32),
            None => Err(i32_failure(s@)),
        }),
{
    let chars = chars_of(s);
    assert(chars@.skip(1) =~= chars@.drop_first());
    if chars.len() > 1 && chars[0] == '-' {
        match parse_digits(&chars, 1, 0x8000_0000, IntErrorKind::NegOverflow) {
            Ok(v) => {
                if v == 0x8000_0000 {
                    Ok(i32::MIN)
                } else {
                    Ok(-(v as i32))
                }
            },
            Err(k) => Err(k),
        }
    } else {
        match parse_unsigned(&chars, 0x7fff_ffff) {
            Ok(v) => Ok(v as i32),
            Err(k) => Err(k),
        }
    }
}

/// The ASCII digit for `d < 10`.
pub open spec fn digit_char(d: nat) -> char {
    (48 + d) as char
}

/// The decimal representation of `n`, without leading zeros (`"{}"`).
pub open spec fn decimal_spec(n: nat) -> Seq<char>
    decreases n,
{
    if n < 10 {
        seq![digit_char(n)]
    } else {
        decimal_spec(n / 10).push(digit_char(n % 10))
    }
}

/// The decimal representation of a signed number (`"{}"` on a signed integer).
pub open spec fn signed_decimal_spec(n: int) -> Seq<char> {
    if n < 0 {
        seq!['-'] + decimal_spec((-n) as nat)
    } else {
        decimal_spec(n as nat)
    }
}

/// `n` padded with a leading zero to two digits (`"{:02}"`).
pub open spec fn pad2_spec(n: nat) -> Seq<char> {
    if n < 10 {
        seq!['0'] + decimal_spec(n)
    } else {
        decimal_spec(n)
    }
}

fn digit_to_char(d: u8) -> (c: char)
    requires
        d < 10,
    ensures
        c == digit_char(d as nat),
{
    let b: u8 = 48 + d;
    let c = b as char;
    assert(c == digit_char(d as nat)) by {
        assert(b as char == (48 + d as nat) as char);
    }
    c
}

fn push_decimal(s: &mut String, n: u128)
    ensures
        final(s)@ == old(s)@ + decimal_spec(n as nat),
    decreases n,
{
    if n < 10 {
        push_char(s, digit_to_char(n as u8));
        assert(old(s)@ + decimal_spec(n as nat) =~= old(s)@.push(digit_char(n as nat)));
    } else {
        push_decimal(s, n / 10);
        let ghost mid = s@;
        push_char(s, digit_to_char((n % 10) as u8));
        assert(old(s)@ + decimal_spec(n as nat) =~= mid.push(digit_char((n % 10) as nat)));
    }
}

/// `n` in decimal (`format!("{}", n)`).
pub fn decimal_u128(n: u128) -> (r: String)
    ensures
        r@ == decimal_spec(n as nat),
{
    let mut s = String::new();
    push_decimal(&mut s, n);
    assert(Seq::<char>::empty() + decimal_spec(n as nat) =~= decimal_spec(n as nat));
    s
}

/// `n` in decimal (`format!("{}", n)`).
pub fn decimal_i64(n: i64) -> (r: String)
    ensures
        r@ == signed_decimal_spec(n as int),
{
    let mut s = String::new();
    if n < 0 {
        push_char(&mut s, '-');
        let m: u128 = if n == i64::MIN {
            0x8000_0000_0000_0000u128
        } else {
            (-n) as u128
        };
        push_decimal(&mut s, m);
    } else {
        push_decimal(&mut s, n as u128);
        assert(Seq::<char>::empty() + decimal_spec(n as nat) =~= decimal_spec(n as nat));
    }
    s
}

/// `n` padded with a leading zero to at least two digits
/// (`format!("{:02}", n)`).
pub fn pad2(n: u32) -> (r: String)
    ensures
        r@ == pad2_spec(n as nat),
{
    let mut s = String::new();
    if n < 10 {
        push_char(&mut s, '0');
    }
    push_decimal(&mut s, n as u128);
    assert(Seq::<char>::empty() + decimal_spec(n as nat) =~= decimal_spec(n as nat));
    s
}

/// The decimal representation of a number is all digits, starts with a
/// non-`+` character, and reads back as the number.
pub proof fn lemma_decimal_digits(n: nat)
    ensures
        is_digit_run(decimal_spec(n)),
        digits_value(decimal_spec(n)) == n,
    decreases n,
{
    if n < 10 {
        let d = decimal_spec(n);
        assert(d.drop_last() =~= Seq::<char>::empty());
        assert(digit_value(digit_char(n)) == n);
        assert(digits_value(d) == digits_value(d.drop_last()) * 10 + digit_value(d.last()));
        assert(digits_value(Seq::<char>::empty()) == 0);
    } else {
        lemma_decimal_digits(n / 10);
        let d = decimal_spec(n);
        assert(d.drop_last() =~= decimal_spec(n / 10));
        assert(d.last() == digit_char(n % 10));
        assert(digit_value(digit_char(n % 10)) == n % 10);
        assert(digits_value(d) == digits_value(decimal_spec(n / 10)) * 10 + n % 10);
        assert(n == (n / 10) * 10 + n % 10);
        assert forall|i: int| 0 <= i < d.len() implies is_digit_spec(#[trigger] d[i]) by {
            if i < d.len() - 1 {
                assert(d[i] == decimal_spec(n / 10)[i]);
            }
        }
    }
}

/// Parsing the decimal representation of a number gives the number back.
pub proof fn lemma_parse_decimal(n: nat, max: nat)
    requires
        n <= max,
    ensures
        parse_unsigned_spec(decimal_spec(n), max) == Some(n),
{
    lemma_decimal_digits(n);
}

// ---------------------------------------------------------------------------
// Hexadecimal
// ---------------------------------------------------------------------------

/// The lower-case hexadecimal digit for `d < 16`.
pub open spec fn hex_digit_lower(d: nat) -> char {
    if d < 10 {
        (48 + d) as char
    } else {
        (87 + d) as char
    }
}

/// The upper-case hexadecimal digit for `d < 16`.
pub open spec fn hex_digit_upper(d: nat) -> char {
    if d < 10 {
        (48 + d) as char
    } else {
        (55 + d) as char
    }
}

/// Two lower-case hexadecimal digits per byte (`"{:02x}"` on each byte).
pub open spec fn hex_lower_spec(b: Seq<u8>) -> Seq<char>
    decreases b.len(),
{
    if b.len() == 0 {
        Seq::<char>::empty()
    } else {
        hex_lower_spec(b.drop_last()).push(hex_digit_lower(b.last() as nat / 16)).push(
            hex_digit_lower(b.last() as nat % 16),
        )
    }
}

/// The hexadecimal digit for `d < 16`, lower or upper case.
pub fn hex_digit(d: u8, upper: bool) -> (c: char)
    requires
        d < 16,
    ensures
        c == if upper {
            hex_digit_upper(d as nat)
        } else {
            hex_digit_lower(d as nat)
        },
{
    let b: u8 = if d < 10 {
        48 + d
    } else if upper {
        55 + d
    } else {
        87 + d
    };
    b as char
}

proof fn lemma_trim_start_shape(s: Seq<char>, set: TrimSet)
    ensures
        trim_start_spec(s, set).len() <= s.len(),
        trim_start_spec(s, set) == s.skip(s.len() - trim_start_spec(s, set).len()),
        trim_start_spec(s, set).len() == 0 || !trimmed_by(set, trim_start_spec(s, set)[0]),
    decreases s.len(),
{
    if s.len() > 0 && trimmed_by(set, s[0]) {
        lemma_trim_start_shape(s.drop_first(), set);
        let r = trim_start_spec(s, set);
        assert(s.drop_first().skip(s.drop_first().len() - r.len()) =~= s.skip(s.len() - r.len()));
    } else {
        assert(s.skip(0) =~= s);
    }
}

proof fn lemma_trim_end_shape(s: Seq<char>, set: TrimSet)
    ensures
        trim_end_spec(s, set).len() <= s.len(),
        trim_end_spec(s, set) == s.take(trim_end_spec(s, set).len() as int),
        trim_end_spec(s, set).len() == 0 || !trimmed_by(set, trim_end_spec(s, set).last()),
    decreases s.len(),
{
    if s.len() > 0 && trimmed_by(set, s.last()) {
        lemma_trim_end_shape(s.drop_last(), set);
        let r = trim_end_spec(s, set);
        assert(s.drop_last().take(r.len() as int) =~= s.take(r.len() as int));
    } else {
        assert(s.take(s.len() as int) =~= s);
    }
}

/// A trimmed text neither starts nor ends with a character of the trimmed
/// set, and trimming it again changes nothing.
pub proof fn lemma_trim_idempotent(s: Seq<char>, set: TrimSet)
    ensures
        trim_spec(s, set).len() == 0 || (!trimmed_by(set, trim_spec(s, set)[0]) && !trimmed_by(
            set,
            trim_spec(s, set).last(),
        )),
        trim_spec(trim_spec(s, set), set) == trim_spec(s, set),
{
    let ts = trim_start_spec(s, set);
    let r = trim_spec(s, set);
    lemma_trim_start_shape(s, set);
    lemma_trim_end_shape(ts, set);
    if r.len() > 0 {
        assert(r[0] == ts[0]);
    }
    assert(trim_start_spec(r, set) == r);
    lemma_trim_end_shape(r, set);
    assert(trim_end_spec(r, set) == r);
}

/// Two hexadecimal digits per byte, each a lower-case hexadecimal digit.
pub proof fn lemma_hex_lower_shape(b: Seq<u8>)
    ensures
        hex_lower_spec(b).len() == 2 * b.len(),
        forall|i: int|
            0 <= i < hex_lower_spec(b).len() ==> exists|d: nat|
                d < 16 && #[trigger] hex_lower_spec(b)[i] == hex_digit_lower(d),
    decreases b.len(),
{
    if b.len() > 0 {
        lemma_hex_lower_shape(b.drop_last());
        let h = hex_lower_spec(b);
        let p = hex_lower_spec(b.drop_last());
        assert forall|i: int| 0 <= i < h.len() implies exists|d: nat|
            d < 16 && #[trigger] h[i] == hex_digit_lower(d) by {
            if i < p.len() {
                assert(h[i] == p[i]);
            } else if i == p.len() {
                assert(h[i] == hex_digit_lower(b.last() as nat / 16));
            } else {
                assert(h[i] == hex_digit_lower(b.last() as nat % 16));
            }
        }
    }
}

/// Two lower-case hexadecimal digits per byte.
pub fn hex_lower(b: &[u8]) -> (r: String)
    ensures
        r@ == hex_lower_spec(b@),
{
    let mut s = String::new();
    let mut i: usize = 0;
    while i < b.len()
        invariant
            i <= b.len(),
            s@ == hex_lower_spec(b@.take(i as int)),
        decreases b.len() - i,
    {
        let x = b[i];
        push_char(&mut s, hex_digit(x / 16, false));
        push_char(&mut s, hex_digit(x % 16, false));
        assert(b@.take(i + 1).drop_last() =~= b@.take(i as int));
        i += 1;
    }
    assert(b@.take(b.len() as int) =~= b@);
    s
}

} // verus!
