//! Text primitives over `char` sequences: trimming, ASCII case folding,
//! searching, splitting and decimal numbers.

use vstd::prelude::*;
use vstd::string::*;

verus! {

/// The code points with the Unicode `White_Space` property.
pub open spec fn is_white_space(c: char) -> bool {
    ||| '\u{9}' <= c && c <= '\u{d}'
    ||| c == '\u{20}'
    ||| c == '\u{85}'
    ||| c == '\u{a0}'
    ||| c == '\u{1680}'
    ||| '\u{2000}' <= c && c <= '\u{200a}'
    ||| c == '\u{2028}'
    ||| c == '\u{2029}'
    ||| c == '\u{202f}'
    ||| c == '\u{205f}'
    ||| c == '\u{3000}'
}

/// `s` without its leading white space.
pub open spec fn trim_start(s: Seq<char>) -> Seq<char>
    decreases s.len(),
{
    if s.len() > 0 && is_white_space(s[0]) {
        trim_start(s.drop_first())
    } else {
        s
    }
}

/// `s` without its trailing white space.
pub open spec fn trim_end(s: Seq<char>) -> Seq<char>
    decreases s.len(),
{
    if s.len() > 0 && is_white_space(s.last()) {
        trim_end(s.drop_last())
    } else {
        s
    }
}

/// `s` without leading and trailing white space.
pub open spec fn trimmed(s: Seq<char>) -> Seq<char> {
    trim_end(trim_start(s))
}

/// A text that neither begins nor ends with white space.
pub open spec fn is_trimmed(s: Seq<char>) -> bool {
    s.len() > 0 ==> !is_white_space(s[0]) && !is_white_space(s.last())
}

proof fn lemma_trim_end(s: Seq<char>)
    ensures
        trim_end(s).len() > 0 ==> !is_white_space(trim_end(s).last()) && trim_end(s)[0] == s[0],
    decreases s.len(),
{
    if s.len() > 0 && is_white_space(s.last()) {
        lemma_trim_end(s.drop_last());
    }
}

proof fn lemma_trim_start(s: Seq<char>)
    ensures
        trim_start(s).len() > 0 ==> !is_white_space(trim_start(s)[0]),
    decreases s.len(),
{
    if s.len() > 0 && is_white_space(s[0]) {
        lemma_trim_start(s.drop_first());
    }
}

/// Trimming leaves no white space at either end, and changes nothing where
/// there is none.
pub proof fn law_trimmed(s: Seq<char>)
    ensures
        is_trimmed(trimmed(s)),
        is_trimmed(s) ==> trimmed(s) == s,
{
    lemma_trim_start(s);
    lemma_trim_end(trim_start(s));
}

/// `str::trim` removes leading and trailing characters that have the Unicode
/// `White_Space` property, and nothing else.
pub assume_specification[ str::trim ](s: &str) -> (r: &str)
    ensures
        r@ == trimmed(s@),
;

/// The ASCII letters `A` to `Z` mapped to `a` to `z`; every other character
/// unchanged.
pub open spec fn ascii_lower_char(c: char) -> char {
    if 'A' <= c && c <= 'Z' {
        ((c as u32 + 32) as u32) as char
    } else {
        c
    }
}

pub open spec fn ascii_lower(s: Seq<char>) -> Seq<char> {
    s.map_values(|c: char| ascii_lower_char(c))
}

/// Lower-casing a second time changes nothing, and white space stays white
/// space.
pub proof fn law_ascii_lower(s: Seq<char>)
    ensures
        ascii_lower(s).len() == s.len(),
        ascii_lower(ascii_lower(s)) == ascii_lower(s),
        is_trimmed(s) ==> is_trimmed(ascii_lower(s)),
{
    assert forall|i: int| 0 <= i < s.len() implies ascii_lower_char(
        ascii_lower_char(#[trigger] s[i]),
    ) == ascii_lower_char(s[i]) && is_white_space(ascii_lower_char(s[i])) == is_white_space(
        s[i],
    ) by {}
    assert(ascii_lower(ascii_lower(s)) =~= ascii_lower(s));
}

/// `str::to_ascii_lowercase` maps `A` to `Z` onto `a` to `z` and keeps every
/// other character.
pub assume_specification[ str::to_ascii_lowercase ](s: &str) -> (r: String)
    ensures
        r@ == ascii_lower(s@),
;

/// `String::push` appends one character.
pub assume_specification[ String::push ](s: &mut String, c: char)
    ensures
        final(s)@ == old(s)@.push(c),
;

/// `str` equality compares the character sequences.
pub assume_specification[ <str as PartialEq>::eq ](a: &str, b: &str) -> (r: bool)
    ensures
        r == (a@ == b@),
;

/// The characters of `s`, in order.
pub fn chars_of(s: &str) -> (r: Vec<char>)
    ensures
        r@ == s@,
{
    let mut v: Vec<char> = Vec::new();
    for c in it: s.chars()
        invariant
            v@ == s@.take(it.index() as int),
            it.seq() == s@,
    {
        v.push(c);
    }
    v
}

/// The text made of `chars[from..to]`.
pub fn text_of(chars: &Vec<char>, from: usize, to: usize) -> (r: String)
    requires
        from <= to <= chars@.len(),
    ensures
        r@ == chars@.subrange(from as int, to as int),
{
    let mut out: String = String::new();
    let mut i: usize = from;
    while i < to
        invariant
            from <= i <= to <= chars@.len(),
            out@ == chars@.subrange(from as int, i as int),
        decreases to - i,
    {
        out.push(chars[i]);
        proof {
            assert(chars@.subrange(from as int, i as int).push(chars@[i as int])
                =~= chars@.subrange(from as int, i + 1));
        }
        i = i + 1;
    }
    out
}

/// `a` followed by `b`.
pub fn joined(a: &str, b: &str) -> (r: String)
    ensures
        r@ == a@ + b@,
{
    a.to_string().concat(b)
}

/// `s` ends in `p`.
pub open spec fn ends_in(s: Seq<char>, p: Seq<char>) -> bool {
    s.len() >= p.len() && s.skip(s.len() - p.len()) == p
}

pub proof fn lemma_ends_in(stem: Seq<char>, p: Seq<char>)
    ensures
        ends_in(stem + p, p),
{
    assert((stem + p).skip((stem + p).len() - p.len()) =~= p);
}

/// `p` occurs in `s` at position `i`.
pub open spec fn occurs_at(s: Seq<char>, p: Seq<char>, i: int) -> bool {
    0 <= i && i + p.len() <= s.len() && s.subrange(i, i + p.len()) == p
}

/// `p` occurs somewhere in `s`.
pub open spec fn contains_text(s: Seq<char>, p: Seq<char>) -> bool {
    exists|i: int| occurs_at(s, p, i)
}

fn occurs_here(s: &Vec<char>, p: &Vec<char>, i: usize) -> (r: bool)
    requires
        i + p@.len() <= s@.len(),
    ensures
        r == occurs_at(s@, p@, i as int),
{
    let mut k: usize = 0;
    let n: usize = s.len();
    while k < p.len()
        invariant
            n == s@.len(),
            i + p@.len() <= n,
            k <= p@.len(),
            forall|j: int| 0 <= j < k ==> s@[i + j] == p@[j],
        decreases p@.len() - k,
    {
        if s[i + k] != p[k] {
            proof {
                assert(s@.subrange(i as int, i + p@.len())[k as int] != p@[k as int]);
            }
            return false;
        }
        k = k + 1;
    }
    proof {
        assert(s@.subrange(i as int, i + p@.len()) =~= p@);
    }
    true
}

/// Whether `p` occurs in `s`.
pub fn contains(s: &str, p: &str) -> (r: bool)
    ensures
        r == contains_text(s@, p@),
{
    let sv = chars_of(s);
    let pv = chars_of(p);
    if pv.len() > sv.len() {
        return false;
    }
    let last: usize = sv.len() - pv.len();
    let mut i: usize = 0;
    while i <= last
        invariant
            last == sv@.len() - pv@.len(),
            i <= last + 1,
            sv@ == s@,
            pv@ == p@,
            forall|j: int| 0 <= j < i ==> !occurs_at(s@, p@, j),
        decreases last + 1 - i,
    {
        if occurs_here(&sv, &pv, i) {
            return true;
        }
        if i == last {
            proof {
                assert forall|j: int| !occurs_at(s@, p@, j) by {}
            }
            return false;
        }
        i = i + 1;
    }
    false
}

/// `s` begins with `p`.
pub open spec fn starts_with_text(s: Seq<char>, p: Seq<char>) -> bool {
    occurs_at(s, p, 0)
}

pub fn starts_with(s: &str, p: &str) -> (r: bool)
    ensures
        r == starts_with_text(s@, p@),
{
    let sv = chars_of(s);
    let pv = chars_of(p);
    pv.len() <= sv.len() && occurs_here(&sv, &pv, 0)
}

/// `s` without the suffix `p`, when it ends in `p`.
pub open spec fn suffix_stripped(s: Seq<char>, p: Seq<char>) -> Option<Seq<char>> {
    if p.len() <= s.len() && occurs_at(s, p, s.len() - p.len()) {
        Some(s.take(s.len() - p.len()))
    } else {
        None
    }
}

/// The view of an optional text.
pub open spec fn opt_text(o: Option<String>) -> Option<Seq<char>> {
    match o {
        Some(t) => Some(t@),
        None => None,
    }
}

/// The view of an optional borrowed text.
pub open spec fn opt_str(o: Option<&str>) -> Option<Seq<char>> {
    match o {
        Some(t) => Some(t@),
        None => None,
    }
}

pub fn strip_suffix(s: &str, p: &str) -> (r: Option<String>)
    ensures
        opt_text(r) == suffix_stripped(s@, p@),
{
    let sv = chars_of(s);
    let pv = chars_of(p);
    if pv.len() <= sv.len() && occurs_here(&sv, &pv, sv.len() - pv.len()) {
        Some(text_of(&sv, 0, sv.len() - pv.len()))
    } else {
        None
    }
}

/// The position of the first `sep` in `s`, or `s.len()`.
pub open spec fn find_char(s: Seq<char>, sep: char) -> int
    decreases s.len(),
{
    if s.len() == 0 || s[0] == sep {
        0
    } else {
        1 + find_char(s.drop_first(), sep)
    }
}

proof fn lemma_find_char(s: Seq<char>, sep: char, i: int)
    requires
        0 <= i <= s.len(),
        forall|j: int| 0 <= j < i ==> s[j] != sep,
        i < s.len() ==> s[i] == sep,
    ensures
        find_char(s, sep) == i,
    decreases s.len(),
{
    if i > 0 {
        lemma_find_char(s.drop_first(), sep, i - 1);
    }
}

/// What follows the first `n` separators of `s`.
pub open spec fn after_separators(s: Seq<char>, sep: char, n: nat) -> Option<Seq<char>>
    decreases n,
{
    if n == 0 {
        Some(s)
    } else {
        let i = find_char(s, sep);
        if i < s.len() {
            after_separators(s.skip(i + 1), sep, (n - 1) as nat)
        } else {
            None
        }
    }
}

/// The field of `s` between its `n`-th and the next separator, counting from
/// zero.
pub open spec fn nth_field(s: Seq<char>, sep: char, n: nat) -> Option<Seq<char>> {
    match after_separators(s, sep, n) {
        Some(rest) => Some(rest.take(find_char(rest, sep))),
        None => None,
    }
}

proof fn lemma_find_char_bounds(s: Seq<char>, sep: char)
    ensures
        0 <= find_char(s, sep) <= s.len(),
    decreases s.len(),
{
    if s.len() > 0 && s[0] != sep {
        lemma_find_char_bounds(s.drop_first(), sep);
    }
}

fn next_separator(v: &Vec<char>, from: usize, sep: char) -> (r: usize)
    requires
        from <= v@.len(),
    ensures
        r == from + find_char(v@.skip(from as int), sep),
        from <= r <= v@.len(),
{
    let mut i: usize = from;
    while i < v.len() && v[i] != sep
        invariant
            from <= i <= v@.len(),
            forall|j: int| from <= j < i ==> v@[j] != sep,
        decreases v@.len() - i,
    {
        i = i + 1;
    }
    proof {
        lemma_find_char(v@.skip(from as int), sep, i - from);
    }
    i
}

/// What follows the first `n` separators of `s`.
pub fn rest_after(s: &str, sep: char, n: usize) -> (r: Option<String>)
    ensures
        opt_text(r) == after_separators(s@, sep, n as nat),
{
    let v = chars_of(s);
    let mut from: usize = 0;
    let mut k: usize = n;
    proof {
        assert(s@.skip(0) =~= s@);
    }
    while k > 0
        invariant
            v@ == s@,
            from <= v@.len(),
            after_separators(s@.skip(from as int), sep, k as nat)
                == after_separators(s@, sep, n as nat),
        decreases k,
    {
        let at = next_separator(&v, from, sep);
        if at >= v.len() {
            return None;
        }
        proof {
            assert(s@.skip(from as int).skip(at - from + 1) =~= s@.skip(at + 1));
        }
        from = at + 1;
        k = k - 1;
    }
    proof {
        assert(s@.skip(from as int) =~= v@.subrange(from as int, v@.len() as int));
    }
    Some(text_of(&v, from, v.len()))
}

/// The `n`-th field of `s`, counting from zero.
pub fn field(s: &str, sep: char, n: usize) -> (r: Option<String>)
    ensures
        opt_text(r) == nth_field(s@, sep, n as nat),
{
    match rest_after(s, sep, n) {
        Some(rest) => {
            let v = chars_of(rest.as_str());
            let end = next_separator(&v, 0, sep);
            proof {
                assert(rest@.skip(0) =~= rest@);
                assert(v@.subrange(0, end as int) =~= rest@.take(end as int));
            }
            Some(text_of(&v, 0, end))
        },
        None => None,
    }
}

/// The decimal digit `d`.
pub open spec fn digit_char(d: int) -> char {
    (48 + d) as char
}

/// `n` in decimal notation, without leading zeros.
pub open spec fn decimal(n: nat) -> Seq<char>
    decreases n,
{
    if n < 10 {
        seq![digit_char(n as int)]
    } else {
        decimal(n / 10).push(digit_char((n % 10) as int))
    }
}

/// `n` in decimal notation, with a leading `-` when it is negative.
pub open spec fn signed_decimal(n: int) -> Seq<char> {
    if n < 0 {
        seq!['-'] + decimal((-n) as nat)
    } else {
        decimal(n as nat)
    }
}

fn digit(d: u64) -> (c: char)
    requires
        d < 10,
    ensures
        c == digit_char(d as int),
{
    if d == 0 {
        '0'
    } else if d == 1 {
        '1'
    } else if d == 2 {
        '2'
    } else if d == 3 {
        '3'
    } else if d == 4 {
        '4'
    } else if d == 5 {
        '5'
    } else if d == 6 {
        '6'
    } else if d == 7 {
        '7'
    } else if d == 8 {
        '8'
    } else {
        '9'
    }
}

/// Appends `n` in decimal notation.
pub fn push_decimal(out: &mut String, n: u64)
    ensures
        final(out)@ == old(out)@ + decimal(n as nat),
    decreases n,
{
    if n >= 10 {
        push_decimal(out, n / 10);
    }
    let ghost before = out@;
    out.push(digit(n % 10));
    proof {
        assert(before.push(digit_char((n % 10) as int)) =~= old(out)@ + decimal(n as nat));
    }
}

/// `n` in decimal notation.
pub fn decimal_u64(n: u64) -> (r: String)
    ensures
        r@ == decimal(n as nat),
{
    let mut out: String = String::new();
    push_decimal(&mut out, n);
    proof {
        assert(Seq::<char>::empty() + decimal(n as nat) =~= decimal(n as nat));
    }
    out
}

/// `n` in decimal notation.
pub fn decimal_i64(n: i64) -> (r: String)
    ensures
        r@ == signed_decimal(n as int),
{
    if n < 0 {
        let magnitude: u64 = (-(n + 1)) as u64 + 1;
        let mut out: String = String::new();
        out.push('-');
        push_decimal(&mut out, magnitude);
        proof {
            assert(Seq::<char>::empty().push('-') + decimal(magnitude as nat) =~= seq!['-']
                + decimal(magnitude as nat));
        }
        out
    } else {
        decimal_u64(n as u64)
    }
}

proof fn lemma_digit_char_value(d: int)
    requires
        0 <= d < 10,
    ensures
        digit_char(d) as int == 48 + d,
{
}

/// Decimal notation never begins with a minus sign.
pub proof fn lemma_decimal_shape(n: nat)
    ensures
        decimal(n).len() > 0,
        forall|i: int| 0 <= i < decimal(n).len() ==> '0' <= #[trigger] decimal(n)[i] <= '9',
        n > 0 ==> decimal(n)[0] != '0',
    decreases n,
{
    if n >= 10 {
        lemma_decimal_shape(n / 10);
    }
}

/// Two numbers with the same decimal notation are equal.
pub proof fn lemma_decimal_injective(a: nat, b: nat)
    requires
        decimal(a) == decimal(b),
    ensures
        a == b,
    decreases a,
{
    lemma_decimal_shape(a / 10);
    lemma_decimal_shape(b / 10);
    let x = decimal(a);
    let y = decimal(b);
    if a < 10 && b < 10 {
        assert(x == seq![digit_char(a as int)]);
        assert(y == seq![digit_char(b as int)]);
        let c = x[0];
        let d = y[0];
        assert(c as int == d as int);
        lemma_digit_char_value(a as int);
        lemma_digit_char_value(b as int);
    } else if a >= 10 && b >= 10 {
        assert(x == decimal(a / 10).push(digit_char((a % 10) as int)));
        assert(y == decimal(b / 10).push(digit_char((b % 10) as int)));
        assert(x.drop_last() =~= decimal(a / 10));
        assert(y.drop_last() =~= decimal(b / 10));
        let c = digit_char((a % 10) as int);
        let d = digit_char((b % 10) as int);
        assert(x.last() == c && y.last() == d);
        assert(c as int == d as int);
        lemma_digit_char_value((a % 10) as int);
        lemma_digit_char_value((b % 10) as int);
        lemma_decimal_injective(a / 10, b / 10);
    } else if a < 10 {
        assert(x.len() == 1);
        assert(y.len() == decimal(b / 10).len() + 1);
    } else {
        assert(y.len() == 1);
        assert(x.len() == decimal(a / 10).len() + 1);
    }
}

/// Two integers with the same signed decimal notation are equal.
pub proof fn lemma_signed_decimal_injective(a: int, b: int)
    requires
        signed_decimal(a) == signed_decimal(b),
    ensures
        a == b,
{
    if a < 0 && b < 0 {
        let x = signed_decimal(a);
        let y = signed_decimal(b);
        assert(x.skip(1) =~= decimal((-a) as nat));
        assert(y.skip(1) =~= decimal((-b) as nat));
        lemma_decimal_injective((-a) as nat, (-b) as nat);
    } else if a >= 0 && b >= 0 {
        lemma_decimal_injective(a as nat, b as nat);
    } else if a < 0 {
        lemma_decimal_shape(b as nat);
        assert(signed_decimal(a)[0] == '-');
    } else {
        lemma_decimal_shape(a as nat);
        assert(signed_decimal(b)[0] == '-');
    }
}

pub open spec fn is_digit(c: char) -> bool {
    '0' <= c <= '9'
}

pub open spec fn all_digits(s: Seq<char>) -> bool {
    forall|i: int| 0 <= i < s.len() ==> is_digit(#[trigger] s[i])
}

/// The number that a sequence of decimal digits denotes.
pub open spec fn digits_value(s: Seq<char>) -> nat
    decreases s.len(),
{
    if s.len() == 0 {
        0
    } else {
        (digits_value(s.drop_last()) * 10 + (s.last() as u32 - 48)) as nat
    }
}

/// The digits of a number written with an optional leading `+`.
pub open spec fn unsigned_digits(s: Seq<char>) -> Seq<char> {
    if s.len() > 0 && s[0] == '+' {
        s.skip(1)
    } else {
        s
    }
}

/// The `u32` that `s` denotes: an optional `+`, then at least one decimal
/// digit, with a value that fits.
pub open spec fn parsed_u32(s: Seq<char>) -> Option<u32> {
    let d = unsigned_digits(s);
    if d.len() > 0 && all_digits(d) && digits_value(d) <= u32::MAX {
        Some(digits_value(d) as u32)
    } else {
        None
    }
}

proof fn lemma_digits_value_monotone(s: Seq<char>, i: int)
    requires
        0 <= i <= s.len(),
        all_digits(s),
    ensures
        digits_value(s.take(i)) <= digits_value(s),
    decreases s.len(),
{
    if i < s.len() {
        assert(s.drop_last().take(i) =~= s.take(i));
        lemma_digits_value_monotone(s.drop_last(), i);
    } else {
        assert(s.take(i) =~= s);
    }
}

/// The `u32` that `s` denotes.
pub fn parse_u32(s: &str) -> (r: Option<u32>)
    ensures
        r == parsed_u32(s@),
{
    let v = chars_of(s);
    let from: usize = if v.len() > 0 && v[0] == '+' {
        1
    } else {
        0
    };
    let ghost d = unsigned_digits(s@);
    proof {
        assert(d =~= v@.skip(from as int));
    }
    if from >= v.len() {
        return None;
    }
    let mut i: usize = from;
    let mut value: u64 = 0;
    let mut fits = true;
    while i < v.len()
        invariant
            from <= i <= v@.len(),
            from <= 1,
            d == unsigned_digits(s@),
            d == v@.skip(from as int),
            all_digits(d.take(i - from)),
            fits ==> value == digits_value(d.take(i - from)) && value <= u32::MAX,
            !fits ==> digits_value(d.take(i - from)) > u32::MAX,
        decreases v@.len() - i,
    {
        let c = v[i];
        if c < '0' || c > '9' {
            proof {
                assert(!is_digit(d[i - from]));
            }
            return None;
        }
        proof {
            assert(d.take(i - from + 1).drop_last() =~= d.take(i - from));
            assert(d.take(i - from + 1).last() == c);
            assert(all_digits(d.take(i - from + 1)));
        }
        if fits {
            value = value * 10 + (c as u32 - 48) as u64;
            if value > u32::MAX as u64 {
                fits = false;
            }
        }
        i = i + 1;
    }
    proof {
        assert(d.take(v@.len() - from) =~= d);
    }
    if fits {
        Some(value as u32)
    } else {
        None
    }
}

/// Whether two optional texts are equal.
pub fn opt_eq(a: &Option<String>, b: &Option<String>) -> (r: bool)
    ensures
        r == (opt_text(*a) == opt_text(*b)),
{
    match (a, b) {
        (Some(x), Some(y)) => *x == *y,
        (None, None) => true,
        _ => false,
    }
}

/// `s` without its trailing occurrences of `c`.
pub open spec fn without_trailing(s: Seq<char>, c: char) -> Seq<char>
    decreases s.len(),
{
    if s.len() > 0 && s.last() == c {
        without_trailing(s.drop_last(), c)
    } else {
        s
    }
}

/// `s` without its trailing occurrences of `c`.
pub fn trim_end_char(s: &str, c: char) -> (r: String)
    ensures
        r@ == without_trailing(s@, c),
{
    let v = chars_of(s);
    let mut end: usize = v.len();
    proof {
        assert(s@.take(end as int) =~= s@);
    }
    while end > 0 && v[end - 1] == c
        invariant
            v@ == s@,
            end <= v@.len(),
            without_trailing(s@.take(end as int), c) == without_trailing(s@, c),
        decreases end,
    {
        proof {
            assert(s@.take(end as int).drop_last() =~= s@.take(end - 1));
        }
        end = end - 1;
    }
    proof {
        assert(s@.take(end as int) =~= v@.subrange(0, end as int));
    }
    text_of(&v, 0, end)
}

proof fn lemma_digits_of_decimal(n: nat)
    ensures
        digits_value(decimal(n)) == n,
    decreases n,
{
    if n >= 10 {
        lemma_digits_of_decimal(n / 10);
        lemma_digit_char_value((n % 10) as int);
        assert(decimal(n).drop_last() =~= decimal(n / 10));
        assert(decimal(n).last() as u32 == 48 + n % 10);
    } else {
        lemma_digit_char_value(n as int);
        assert(decimal(n).drop_last() =~= Seq::<char>::empty());
        assert(digits_value(Seq::<char>::empty()) == 0);
        assert(decimal(n).last() as u32 == 48 + n);
    }
}

/// A number is read back from its decimal notation.
pub proof fn law_decimal_is_read_back(n: u32)
    ensures
        parsed_u32(decimal(n as nat)) == Some(n),
        parsed_u32(seq!['+'] + decimal(n as nat)) == Some(n),
{
    lemma_decimal_shape(n as nat);
    lemma_digits_of_decimal(n as nat);
    assert((seq!['+'] + decimal(n as nat)).skip(1) =~= decimal(n as nat));
}

/// A text that is joined of a first field without separators and a rest has
/// that field first and the fields of the rest after it.
pub proof fn law_fields_of_joined_text(first: Seq<char>, rest: Seq<char>, sep: char, n: nat)
    requires
        !first.contains(sep),
    ensures
        nth_field(first, sep, 0) == Some(first),
        nth_field(first, sep, n + 1) is None,
        nth_field(first + seq![sep] + rest, sep, 0) == Some(first),
        nth_field(first + seq![sep] + rest, sep, n + 1) == nth_field(rest, sep, n),
        after_separators(first + seq![sep] + rest, sep, n + 1) == after_separators(rest, sep, n),
{
    let whole = first + seq![sep] + rest;
    let k = first.len() as int;
    assert forall|j: int| 0 <= j < k implies whole[j] != sep && first[j] != sep by {
        assert(first.contains(first[j]));
    }
    lemma_find_char(whole, sep, k);
    lemma_find_char(first, sep, k);
    assert(whole.skip(k + 1) =~= rest);
    assert(whole.take(k) =~= first);
    assert(first.take(k) =~= first);
}

/// White space around a text does not matter once it is trimmed.
pub proof fn law_trimming_drops_surroundings(before: Seq<char>, s: Seq<char>, after: Seq<char>)
    requires
        forall|i: int| 0 <= i < before.len() ==> is_white_space(#[trigger] before[i]),
        forall|i: int| 0 <= i < after.len() ==> is_white_space(#[trigger] after[i]),
        s.len() > 0,
        is_trimmed(s),
    ensures
        trimmed(before + s + after) == s,
    decreases before.len() + after.len(),
{
    let whole = before + s + after;
    if before.len() > 0 {
        assert(whole[0] == before[0]);
        assert(whole.drop_first() =~= before.drop_first() + s + after);
        assert forall|i: int| 0 <= i < before.drop_first().len() implies is_white_space(
            #[trigger] before.drop_first()[i],
        ) by {
            assert(before.drop_first()[i] == before[i + 1]);
        }
        law_trimming_drops_surroundings(before.drop_first(), s, after);
    } else if after.len() > 0 {
        assert(whole[0] == s[0]);
        assert(whole.last() == after.last());
        assert(whole.drop_last() =~= before + s + after.drop_last());
        assert(whole.drop_last()[0] == s[0]);
        law_trimming_drops_surroundings(before, s, after.drop_last());
    } else {
        assert(whole =~= s);
    }
}

} // verus!
