//! Strings as sequences of characters.

use vstd::prelude::*;

verus! {

/// The characters with the Unicode `White_Space` property.
pub open spec fn is_white(c: char) -> bool {
    let n = c as int;
    ||| 0x09 <= n <= 0x0d
    ||| n == 0x20
    ||| n == 0x85
    ||| n == 0xa0
    ||| n == 0x1680
    ||| 0x2000 <= n <= 0x200a
    ||| n == 0x2028
    ||| n == 0x2029
    ||| n == 0x202f
    ||| n == 0x205f
    ||| n == 0x3000
}

/// `s` without the white space at its start.
pub open spec fn trim_front(s: Seq<char>) -> Seq<char>
    decreases s.len(),
{
    if s.len() > 0 && is_white(s[0]) {
        trim_front(s.subrange(1, s.len() as int))
    } else {
        s
    }
}

/// `s` without the white space at its end.
pub open spec fn trim_back(s: Seq<char>) -> Seq<char>
    decreases s.len(),
{
    if s.len() > 0 && is_white(s.last()) {
        trim_back(s.drop_last())
    } else {
        s
    }
}

/// `s` without the white space at either end.
pub open spec fn trimmed(s: Seq<char>) -> Seq<char> {
    trim_back(trim_front(s))
}

/// Whether `s` starts with `head`.
pub open spec fn starts(s: Seq<char>, head: Seq<char>) -> bool {
    head.len() <= s.len() && s.subrange(0, head.len() as int) == head
}

/// Whether `s` ends with `tail`.
pub open spec fn ends(s: Seq<char>, tail: Seq<char>) -> bool {
    tail.len() <= s.len() && s.subrange(s.len() - tail.len(), s.len() as int) == tail
}

/// Whether `c` stands twice in a row somewhere in `s`.
pub open spec fn has_pair(s: Seq<char>, c: char) -> bool {
    exists|i: int| 0 <= i < s.len() - 1 && #[trigger] s[i] == c && s[i + 1] == c
}

/// Whether `a` comes before `b` in the order of a dictionary of code points.
pub open spec fn before(a: Seq<char>, b: Seq<char>) -> bool
    decreases b.len(),
{
    if b.len() == 0 {
        false
    } else if a.len() == 0 {
        true
    } else if a[0] != b[0] {
        (a[0] as int) < (b[0] as int)
    } else {
        before(a.subrange(1, a.len() as int), b.subrange(1, b.len() as int))
    }
}

/// The order of strings is total: of two that differ exactly one comes before the
/// other, and nothing comes before itself.
pub proof fn lemma_before_total(a: Seq<char>, b: Seq<char>)
    ensures
        !before(a, a),
        before(a, b) ==> !before(b, a),
        a != b ==> before(a, b) || before(b, a),
    decreases a.len(),
{
    if a.len() > 0 {
        let ta = a.subrange(1, a.len() as int);
        lemma_before_total(ta, ta);
        if b.len() > 0 && a[0] == b[0] {
            let tb = b.subrange(1, b.len() as int);
            lemma_before_total(ta, tb);
            if ta == tb {
                assert(a =~= seq![a[0]] + ta);
                assert(b =~= seq![b[0]] + tb);
            }
        }
    } else if b.len() == 0 {
        assert(a =~= b);
    }
}

/// The order of strings is transitive.
pub proof fn lemma_before_transitive(a: Seq<char>, b: Seq<char>, c: Seq<char>)
    requires
        before(a, b),
        before(b, c),
    ensures
        before(a, c),
    decreases a.len(),
{
    if a.len() > 0 && b.len() > 0 && c.len() > 0 && a[0] == b[0] && b[0] == c[0] {
        lemma_before_transitive(
            a.subrange(1, a.len() as int),
            b.subrange(1, b.len() as int),
            c.subrange(1, c.len() as int),
        );
    }
}

/// Whether a character is white space.
pub fn white(c: char) -> (r: bool)
    ensures
        r == is_white(c),
{
    let n: u32 = c as u32;
    (0x09 <= n && n <= 0x0d) || n == 0x20 || n == 0x85 || n == 0xa0 || n == 0x1680 || (0x2000
        <= n && n <= 0x200a) || n == 0x2028 || n == 0x2029 || n == 0x202f || n == 0x205f || n
        == 0x3000
}

/// The code point of a character.
pub fn code(c: char) -> (r: u32)
    ensures
        r == c as int,
{
    c as u32
}

/// The characters of a string.
pub fn chars_of(s: &str) -> (r: Vec<char>)
    ensures
        r@ == s@,
{
    let n: usize = s.unicode_len();
    let mut out: Vec<char> = Vec::new();
    let mut i: usize = 0;
    while i < n
        invariant
            n == s@.len(),
            i <= n,
            out@ == s@.subrange(0, i as int),
        decreases n - i,
    {
        out.push(s.get_char(i));
        i = i + 1;
        assert(out@ =~= s@.subrange(0, i as int));
    }
    assert(s@.subrange(0, n as int) =~= s@);
    out
}

/// Whether two character sequences agree from `at` on, over the length of `part`.
fn matches_at(whole: &Vec<char>, part: &Vec<char>, at: usize) -> (r: bool)
    requires
        at + part@.len() <= whole@.len(),
    ensures
        r == (whole@.subrange(at as int, at + part@.len()) == part@),
{
    let total: usize = whole.len();
    let mut i: usize = 0;
    while i < part.len()
        invariant
            i <= part@.len(),
            at + part@.len() <= whole@.len(),
            total == whole@.len(),
            forall|k: int| 0 <= k < i ==> whole@[at + k] == part@[k],
        decreases part@.len() - i,
    {
        if whole[at + i] != part[i] {
            assert(whole@.subrange(at as int, at + part@.len())[i as int] != part@[i as int]);
            return false;
        }
        i = i + 1;
    }
    assert(whole@.subrange(at as int, at + part@.len()) =~= part@);
    true
}

/// Whether two strings hold the same characters.
pub fn equal(a: &str, b: &str) -> (r: bool)
    ensures
        r == (a@ == b@),
{
    let x: Vec<char> = chars_of(a);
    let y: Vec<char> = chars_of(b);
    if x.len() != y.len() {
        return false;
    }
    let r: bool = matches_at(&x, &y, 0);
    assert(x@.subrange(0, y@.len() as int) =~= x@);
    r
}

/// Whether `a` comes before `b` in the order of a dictionary of code points.
pub fn comes_before(a: &str, b: &str) -> (r: bool)
    ensures
        r == before(a@, b@),
{
    let x: Vec<char> = chars_of(a);
    let y: Vec<char> = chars_of(b);
    let mut i: usize = 0;
    assert(a@.subrange(0, a@.len() as int) =~= a@);
    assert(b@.subrange(0, b@.len() as int) =~= b@);
    while i < x.len() && i < y.len() && x[i] == y[i]
        invariant
            x@ == a@,
            y@ == b@,
            i <= x@.len(),
            i <= y@.len(),
            before(a@, b@) == before(
                a@.subrange(i as int, a@.len() as int),
                b@.subrange(i as int, b@.len() as int),
            ),
        decreases x@.len() - i,
    {
        let ghost ta = a@.subrange(i as int, a@.len() as int);
        let ghost tb = b@.subrange(i as int, b@.len() as int);
        assert(ta.subrange(1, ta.len() as int) =~= a@.subrange(i + 1, a@.len() as int));
        assert(tb.subrange(1, tb.len() as int) =~= b@.subrange(i + 1, b@.len() as int));
        i = i + 1;
    }
    if i >= y.len() {
        false
    } else if i >= x.len() {
        true
    } else {
        code(x[i]) < code(y[i])
    }
}

/// Whether `s` starts with `head`.
pub fn starts_with(s: &str, head: &str) -> (r: bool)
    ensures
        r == starts(s@, head@),
{
    let x: Vec<char> = chars_of(s);
    let y: Vec<char> = chars_of(head);
    x.len() >= y.len() && matches_at(&x, &y, 0)
}

/// Whether `s` ends with `tail`.
pub fn ends_with(s: &str, tail: &str) -> (r: bool)
    ensures
        r == ends(s@, tail@),
{
    let x: Vec<char> = chars_of(s);
    let y: Vec<char> = chars_of(tail);
    x.len() >= y.len() && matches_at(&x, &y, x.len() - y.len())
}

/// Whether `c` occurs in `s`.
pub fn has_char(s: &str, c: char) -> (r: bool)
    ensures
        r == s@.contains(c),
{
    let x: Vec<char> = chars_of(s);
    let mut i: usize = 0;
    while i < x.len()
        invariant
            i <= x@.len(),
            x@ == s@,
            forall|k: int| 0 <= k < i ==> x@[k] != c,
        decreases x@.len() - i,
    {
        if x[i] == c {
            assert(s@[i as int] == c);
            return true;
        }
        i = i + 1;
    }
    false
}

/// Whether `c` stands twice in a row somewhere in `s`.
pub fn has_double(s: &str, c: char) -> (r: bool)
    ensures
        r == has_pair(s@, c),
{
    let x: Vec<char> = chars_of(s);
    if x.len() == 0 {
        return false;
    }
    let mut i: usize = 0;
    while i < x.len() - 1
        invariant
            1 <= x@.len(),
            i <= x@.len() - 1,
            x@ == s@,
            forall|k: int| 0 <= k < i ==> !(#[trigger] x@[k] == c && x@[k + 1] == c),
        decreases x@.len() - i,
    {
        if x[i] == c && x[i + 1] == c {
            assert(s@[i as int] == c && s@[i + 1] == c);
            return true;
        }
        i = i + 1;
    }
    false
}

/// The part of `s` between two character positions.
pub fn slice(s: &str, from: usize, to: usize) -> (r: String)
    requires
        from <= to <= s@.len(),
    ensures
        r@ == s@.subrange(from as int, to as int),
{
    s.substring_char(from, to).to_owned()
}

/// `a` followed by `b`.
pub fn joined(a: &str, b: &str) -> (r: String)
    ensures
        r@ == a@ + b@,
{
    let mut out: String = a.to_owned();
    out.append(b);
    out
}

/// The character of a decimal digit.
pub open spec fn digit(d: int) -> char {
    ('0' as int + d) as char
}

/// A natural number in decimal digits.
pub open spec fn decimal(n: nat) -> Seq<char>
    decreases n,
{
    if n < 10 {
        seq![digit(n as int)]
    } else {
        decimal(n / 10).push(digit(n as int % 10))
    }
}

/// An integer in decimal digits, with a minus sign where it is negative.
pub open spec fn integer(n: int) -> Seq<char> {
    if n < 0 {
        seq!['-'] + decimal((-n) as nat)
    } else {
        decimal(n as nat)
    }
}

/// A number below one hundred in two decimal digits; a larger one in as many as it
/// takes.
pub open spec fn two_digits(n: nat) -> Seq<char> {
    if n < 10 {
        seq!['0', digit(n as int)]
    } else {
        decimal(n)
    }
}

fn digit_text(d: u64) -> (r: &'static str)
    requires
        d < 10,
    ensures
        r@ == seq![digit(d as int)],
{
    proof {
        reveal_strlit("0");
        reveal_strlit("1");
        reveal_strlit("2");
        reveal_strlit("3");
        reveal_strlit("4");
        reveal_strlit("5");
        reveal_strlit("6");
        reveal_strlit("7");
        reveal_strlit("8");
        reveal_strlit("9");
    }
    let r: &'static str = if d == 0 {
        "0"
    } else if d == 1 {
        "1"
    } else if d == 2 {
        "2"
    } else if d == 3 {
        "3"
    } else if d == 4 {
        "4"
    } else if d == 5 {
        "5"
    } else if d == 6 {
        "6"
    } else if d == 7 {
        "7"
    } else if d == 8 {
        "8"
    } else {
        "9"
    };
    assert(r@ =~= seq![digit(d as int)]);
    r
}

/// A natural number in decimal digits.
pub fn decimal_text(n: u64) -> (r: String)
    ensures
        r@ == decimal(n as nat),
    decreases n,
{
    if n < 10 {
        return digit_text(n).to_owned();
    }
    let mut out: String = decimal_text(n / 10);
    out.append(digit_text(n % 10));
    assert(out@ =~= decimal(n as nat));
    out
}

/// An integer in decimal digits, with a minus sign where it is negative.
pub fn integer_text(n: i64) -> (r: String)
    ensures
        r@ == integer(n as int),
{
    if n >= 0 {
        return decimal_text(n as u64);
    }
    let size: u64 = (-(n + 1)) as u64 + 1;
    proof {
        reveal_strlit("-");
        assert("-"@ =~= seq!['-']);
    }
    joined("-", decimal_text(size).as_str())
}

/// A number below one hundred in two decimal digits.
pub fn two_digit_text(n: u64) -> (r: String)
    ensures
        r@ == two_digits(n as nat),
{
    let tail: String = decimal_text(n);
    if n < 10 {
        proof {
            reveal_strlit("0");
            assert("0"@ + decimal(n as nat) =~= two_digits(n as nat));
        }
        joined("0", tail.as_str())
    } else {
        tail
    }
}

/// Different numbers have different digits.
pub proof fn lemma_decimal_differs(a: nat, b: nat)
    ensures
        decimal(a).len() > 0,
        decimal(a) == decimal(b) ==> a == b,
    decreases a,
{
    if a >= 10 {
        lemma_decimal_differs(a / 10, b / 10);
    }
    lemma_decimal_nonempty(b);
    lemma_decimal_nonempty(b / 10);
    if decimal(a) == decimal(b) {
        let (x, y) = (decimal(a), decimal(b));
        assert(x.last() == digit(a as int % 10));
        assert(y.last() == digit(b as int % 10));
        assert(a as int % 10 == b as int % 10);
        if a >= 10 && b >= 10 {
            assert(x.drop_last() =~= decimal(a / 10));
            assert(y.drop_last() =~= decimal(b / 10));
        } else if a >= 10 {
            assert(x.len() == decimal(a / 10).len() + 1);
        } else if b >= 10 {
            assert(y.len() == decimal(b / 10).len() + 1);
        }
    }
}

proof fn lemma_decimal_nonempty(n: nat)
    ensures
        decimal(n).len() > 0,
{
}

proof fn lemma_trim_front(s: Seq<char>, from: int)
    requires
        0 <= from <= s.len(),
        forall|k: int| 0 <= k < from ==> is_white(#[trigger] s[k]),
        from < s.len() ==> !is_white(s[from]),
    ensures
        trim_front(s) == s.subrange(from, s.len() as int),
    decreases s.len(),
{
    if from == 0 {
        assert(s.subrange(0, s.len() as int) =~= s);
    } else {
        assert(is_white(s[0]));
        let rest = s.subrange(1, s.len() as int);
        assert forall|k: int| 0 <= k < from - 1 implies is_white(#[trigger] rest[k]) by {
            assert(rest[k] == s[k + 1]);
        }
        lemma_trim_front(rest, from - 1);
        assert(rest.subrange(from - 1, rest.len() as int) =~= s.subrange(from, s.len() as int));
    }
}

proof fn lemma_trim_back(s: Seq<char>, to: int)
    requires
        0 <= to <= s.len(),
        forall|k: int| to <= k < s.len() ==> is_white(#[trigger] s[k]),
        to > 0 ==> !is_white(s[to - 1]),
    ensures
        trim_back(s) == s.subrange(0, to),
    decreases s.len(),
{
    if to == s.len() {
        assert(s.subrange(0, to) =~= s);
    } else {
        assert(is_white(s[s.len() - 1]));
        lemma_trim_back(s.drop_last(), to);
        assert(s.drop_last().subrange(0, to) =~= s.subrange(0, to));
    }
}

/// `s` without the white space at either end.
pub fn trim(s: &str) -> (r: String)
    ensures
        r@ == trimmed(s@),
{
    let x: Vec<char> = chars_of(s);
    let mut from: usize = 0;
    while from < x.len() && white(x[from])
        invariant
            from <= x@.len(),
            forall|k: int| 0 <= k < from ==> is_white(#[trigger] x@[k]),
        decreases x@.len() - from,
    {
        from = from + 1;
    }
    let mut to: usize = x.len();
    while from < to && white(x[to - 1])
        invariant
            from <= to <= x@.len(),
            forall|k: int| to <= k < x@.len() ==> is_white(#[trigger] x@[k]),
        decreases to,
    {
        to = to - 1;
    }
    proof {
        lemma_trim_front(s@, from as int);
        let mid = s@.subrange(from as int, s@.len() as int);
        assert forall|k: int| to - from <= k < mid.len() implies is_white(#[trigger] mid[k]) by {
            assert(mid[k] == x@[k + from]);
        }
        lemma_trim_back(mid, to - from);
        assert(mid.subrange(0, to - from) =~= s@.subrange(from as int, to as int));
    }
    slice(s, from, to)
}

/// Trimming a trimmed string changes nothing.
pub proof fn lemma_trimmed_once(s: Seq<char>)
    ensures
        trimmed(trimmed(s)) == trimmed(s),
{
    let front = trim_front(s);
    lemma_front_clean(s);
    lemma_back_clean(front);
    let t = trim_back(front);
    if t.len() > 0 {
        assert(t[0] == front[0]);
    }
    assert(trim_front(t) == t);
    assert(trim_back(t) == t);
}

proof fn lemma_front_clean(s: Seq<char>)
    ensures
        trim_front(s).len() > 0 ==> !is_white(trim_front(s)[0]),
    decreases s.len(),
{
    if s.len() > 0 && is_white(s[0]) {
        lemma_front_clean(s.subrange(1, s.len() as int));
    }
}

proof fn lemma_back_clean(s: Seq<char>)
    ensures
        trim_back(s).len() <= s.len(),
        trim_back(s).len() > 0 ==> !is_white(trim_back(s).last()),
        forall|k: int| 0 <= k < trim_back(s).len() ==> trim_back(s)[k] == s[k],
    decreases s.len(),
{
    if s.len() > 0 && is_white(s.last()) {
        let t = s.drop_last();
        lemma_back_clean(t);
        assert forall|k: int| 0 <= k < trim_back(s).len() implies trim_back(s)[k] == s[k] by {
            assert(trim_back(t)[k] == t[k]);
        }
    }
}

/// What is trimmed away is white space, and what is left neither begins nor ends with any: a
/// string is white space, its trimmed part, and white space again.
pub proof fn lemma_trimmed_is_the_middle(s: Seq<char>) -> (at: int)
    ensures
        0 <= at,
        at + trimmed(s).len() <= s.len(),
        trimmed(s) == s.subrange(at, at + trimmed(s).len()),
        forall|k: int|
            (0 <= k < at || at + trimmed(s).len() <= k < s.len()) ==> is_white(#[trigger] s[k]),
        trimmed(s).len() > 0 ==> !is_white(trimmed(s)[0]) && !is_white(trimmed(s).last()),
{
    let at = lemma_front_is_white(s);
    let front = trim_front(s);
    lemma_front_clean(s);
    lemma_back_clean(front);
    lemma_back_is_white(front);
    let t = trim_back(front);
    assert(t =~= s.subrange(at, at + t.len()));
    assert forall|k: int| (0 <= k < at || at + t.len() <= k < s.len()) implies is_white(
        #[trigger] s[k],
    ) by {
        if k >= at {
            assert(front[k - at] == s[k]);
        }
    }
    if t.len() > 0 {
        assert(t[0] == front[0]);
    }
    at
}

proof fn lemma_front_is_white(s: Seq<char>) -> (at: int)
    ensures
        0 <= at <= s.len(),
        trim_front(s) == s.subrange(at, s.len() as int),
        forall|k: int| 0 <= k < at ==> is_white(#[trigger] s[k]),
    decreases s.len(),
{
    if s.len() > 0 && is_white(s[0]) {
        let rest = s.subrange(1, s.len() as int);
        let at = lemma_front_is_white(rest);
        assert(rest.subrange(at, rest.len() as int) =~= s.subrange(at + 1, s.len() as int));
        assert forall|k: int| 0 <= k < at + 1 implies is_white(#[trigger] s[k]) by {
            if k > 0 {
                assert(rest[k - 1] == s[k]);
            }
        }
        at + 1
    } else {
        assert(s.subrange(0, s.len() as int) =~= s);
        0
    }
}

proof fn lemma_back_is_white(s: Seq<char>)
    ensures
        forall|k: int| trim_back(s).len() <= k < s.len() ==> is_white(#[trigger] s[k]),
    decreases s.len(),
{
    if s.len() > 0 && is_white(s.last()) {
        let head = s.drop_last();
        lemma_back_is_white(head);
        assert forall|k: int| trim_back(s).len() <= k < s.len() implies is_white(
            #[trigger] s[k],
        ) by {
            if k < head.len() {
                assert(head[k] == s[k]);
            }
        }
    }
}

/// Blanks, tabs and line ends are white space; no other character below 0x80 is, but the
/// vertical tab and the form feed. Of Chinese typography the wide blank is.
pub proof fn lemma_white_space(c: char)
    ensures
        is_white(' ') && is_white('\t') && is_white('\n') && is_white('\r'),
        (c as int) < 0x80 ==> (is_white(c) <==> c == ' ' || 0x09 <= c as int <= 0x0d),
        0x4e00 <= c as int <= 0x9fff ==> !is_white(c),
        is_white('\u{3000}'),
{
}

/// A string starts with each of its first parts and ends with each of its last parts, and with
/// nothing else.
pub proof fn lemma_starts_and_ends(s: Seq<char>, part: Seq<char>, rest: Seq<char>)
    ensures
        s == part + rest ==> starts(s, part) && ends(s, rest),
        starts(s, part) ==> exists|r: Seq<char>| s == #[trigger] (part + r),
        ends(s, part) ==> exists|r: Seq<char>| s == #[trigger] (r + part),
{
    if s == part + rest {
        assert(s.subrange(0, part.len() as int) =~= part);
        assert(s.subrange(s.len() - rest.len(), s.len() as int) =~= rest);
    }
    if starts(s, part) {
        assert(s =~= part + s.subrange(part.len() as int, s.len() as int));
    }
    if ends(s, part) {
        assert(s =~= s.subrange(0, s.len() - part.len()) + part);
    }
}

/// The first difference decides: a string comes before every longer one that it begins, and of
/// two that differ the one with the smaller code point at the first difference comes first.
pub proof fn lemma_first_difference_decides(
    common: Seq<char>,
    c: char,
    d: char,
    x: Seq<char>,
    y: Seq<char>,
)
    ensures
        before(common, common + seq![c] + x),
        (c as int) < (d as int) ==> before(common + seq![c] + x, common + seq![d] + y),
    decreases common.len(),
{
    let (a, b) = (common + seq![c] + x, common + seq![d] + y);
    if common.len() > 0 {
        let rest = common.subrange(1, common.len() as int);
        lemma_first_difference_decides(rest, c, d, x, y);
        assert(a.subrange(1, a.len() as int) =~= rest + seq![c] + x);
        assert(b.subrange(1, b.len() as int) =~= rest + seq![d] + y);
        assert(a[0] == common[0] && b[0] == common[0]);
    } else {
        assert(a[0] == c && b[0] == d);
    }
}

/// The number that decimal digits stand for.
pub open spec fn number(digits: Seq<char>) -> int
    decreases digits.len(),
{
    if digits.len() == 0 {
        0
    } else {
        number(digits.drop_last()) * 10 + (digits.last() as int - '0' as int)
    }
}

/// Decimal digits stand for the number they were made from, begin with a zero only for zero,
/// and two digits are two digits.
pub proof fn lemma_digits_stand_for_the_number(n: nat)
    ensures
        number(decimal(n)) == n,
        decimal(n).len() > 0,
        forall|i: int| 0 <= i < decimal(n).len() ==> '0' <= #[trigger] decimal(n)[i] <= '9',
        n > 0 ==> decimal(n)[0] != '0',
        number(two_digits(n)) == n,
        forall|i: int| 0 <= i < two_digits(n).len() ==> '0' <= #[trigger] two_digits(n)[i] <= '9',
        n < 100 ==> two_digits(n).len() == 2,
        two_digits(n).len() >= 2,
    decreases n,
{
    reveal_with_fuel(number, 3);
    reveal_with_fuel(decimal, 2);
    assert(digit(n as int % 10) as int == '0' as int + n as int % 10);
    if n < 10 {
        assert(decimal(n).drop_last() =~= Seq::empty());
        assert(two_digits(n).drop_last() =~= seq!['0']);
        assert(seq!['0'].drop_last() =~= Seq::empty());
    } else {
        let head = decimal(n / 10);
        lemma_digits_stand_for_the_number(n / 10);
        assert(decimal(n).drop_last() =~= head);
        assert(decimal(n)[0] == head[0]);
        assert forall|i: int| 0 <= i < decimal(n).len() implies '0' <= #[trigger] decimal(n)[i]
            <= '9' by {
            if i < head.len() {
                assert(decimal(n)[i] == head[i]);
            }
        }
    }
}

/// A number below zero has the digits of its size behind a minus sign.
pub proof fn lemma_signs(n: int)
    ensures
        n >= 0 ==> integer(n) == decimal(n as nat),
        n < 0 ==> integer(n).len() > 1 && integer(n)[0] == '-' && number(
            integer(n).subrange(1, integer(n).len() as int),
        ) == -n,
{
    if n < 0 {
        lemma_digits_stand_for_the_number((-n) as nat);
        assert(integer(n).subrange(1, integer(n).len() as int) =~= decimal((-n) as nat));
    }
}

/// A character stands twice in a row exactly where the string is something, the character, the
/// character again, and something.
pub proof fn lemma_pairs_stand_together(s: Seq<char>, c: char, a: Seq<char>, b: Seq<char>)
    ensures
        s == a + seq![c, c] + b ==> has_pair(s, c),
        has_pair(s, c) ==> exists|i: int|
            0 <= i && i + 2 <= s.len() && #[trigger] s.subrange(i, i + 2) == seq![c, c],
        s.len() < 2 ==> !has_pair(s, c),
{
    if s == a + seq![c, c] + b {
        let i = a.len() as int;
        assert(s[i] == c && s[i + 1] == c);
    }
    if has_pair(s, c) {
        let i = choose|i: int| 0 <= i < s.len() - 1 && #[trigger] s[i] == c && s[i + 1] == c;
        assert(s.subrange(i, i + 2) =~= seq![c, c]);
    }
}

} // verus!
