//! Small verified operations on text: prefixes, equality, and decimal numbers.

use vstd::prelude::*;

verus! {

/// The characters of `s`, one by one.
pub fn chars_of(s: &str) -> (v: Vec<char>)
    ensures
        v@ == s@,
{
    let mut v: Vec<char> = Vec::new();
    for c in it: s.chars()
        invariant
            it.seq() == s@,
            v@ == s@.subrange(0, it.index() as int),
    {
        v.push(c);
    }
    v
}

/// Whether `s` begins with `prefix`.
pub fn starts_with(s: &str, prefix: &str) -> (r: bool)
    ensures
        r == prefix@.is_prefix_of(s@),
{
    let text = chars_of(s);
    let head = chars_of(prefix);
    if head.len() > text.len() {
        return false;
    }
    let mut i: usize = 0;
    while i < head.len()
        invariant
            text@ == s@,
            head@ == prefix@,
            i <= head.len() <= text.len(),
            forall|j: int| 0 <= j < i ==> text@[j] == head@[j],
        decreases head.len() - i,
    {
        if text[i] != head[i] {
            assert(prefix@[i as int] != s@.subrange(0, prefix@.len() as int)[i as int]);
            return false;
        }
        i = i + 1;
    }
    assert(head@ =~= text@.subrange(0, head@.len() as int));
    true
}

/// Whether two pieces of text hold the same characters.
pub fn same_text(a: &str, b: &str) -> (r: bool)
    ensures
        r == (a@ == b@),
{
    let x = chars_of(a);
    let y = chars_of(b);
    if x.len() != y.len() {
        return false;
    }
    let mut i: usize = 0;
    while i < x.len()
        invariant
            x@ == a@,
            y@ == b@,
            i <= x.len() == y.len(),
            forall|j: int| 0 <= j < i ==> x@[j] == y@[j],
        decreases x.len() - i,
    {
        if x[i] != y[i] {
            return false;
        }
        i = i + 1;
    }
    assert(x@ =~= y@);
    true
}

/// The character that stands for a digit below ten.
pub open spec fn digit_char(d: nat) -> char {
    if d == 0 {
        '0'
    } else if d == 1 {
        '1'
    } else if d == 2 {
        '2'
    } else if d == 3 {
        '3'
    } else if d == 4 {
        '4'
    } else if d == 5 {
        '5'
    } else if d == 6 {
        '6'
    } else if d == 7 {
        '7'
    } else if d == 8 {
        '8'
    } else {
        '9'
    }
}

/// A number written in base ten, without sign or leading zeros.
pub open spec fn decimal(n: nat) -> Seq<char>
    decreases n,
{
    if n < 10 {
        seq![digit_char(n)]
    } else {
        decimal(n / 10).push(digit_char(n % 10))
    }
}

/// A number written in base ten is one digit or more, and digits only.
pub proof fn decimal_is_digits(n: nat)
    ensures
        decimal(n).len() > 0,
        n >= 10 ==> decimal(n).len() > 1,
        forall|i: int| 0 <= i < decimal(n).len() ==> '0' <= #[trigger] decimal(n)[i] <= '9',
    decreases n,
{
    if n >= 10 {
        decimal_is_digits(n / 10);
    }
}

/// Written in base ten, two numbers look the same only where they are the same.
pub proof fn decimal_is_injective(m: nat, n: nat)
    requires
        decimal(m) == decimal(n),
    ensures
        m == n,
    decreases m,
{
    decimal_is_digits(m);
    decimal_is_digits(n);
    if m < 10 && n < 10 {
        assert(decimal(m)[0] == digit_char(m));
        assert(decimal(n)[0] == digit_char(n));
    } else if m >= 10 && n >= 10 {
        let a = decimal(m / 10).push(digit_char(m % 10));
        let b = decimal(n / 10).push(digit_char(n % 10));
        assert(a == decimal(m) && b == decimal(n));
        assert(a.drop_last() =~= decimal(m / 10));
        assert(b.drop_last() =~= decimal(n / 10));
        assert(a.last() == digit_char(m % 10));
        assert(b.last() == digit_char(n % 10));
        decimal_is_injective(m / 10, n / 10);
        assert(m % 10 == n % 10);
    } else {
        assert(decimal(m).len() != decimal(n).len());
    }
}

/// A text that ends in a mark, with a tail behind it that holds no such mark,
/// can be taken apart in one way only: where two such texts are equal, so are
/// their heads and their tails.
pub proof fn split_at_last_mark(
    head: Seq<char>,
    other_head: Seq<char>,
    middle: Seq<char>,
    tail: Seq<char>,
    other_tail: Seq<char>,
)
    requires
        middle.len() > 0,
        !tail.contains(middle.last()),
        !other_tail.contains(middle.last()),
        head + middle + tail == other_head + middle + other_tail,
    ensures
        head == other_head,
        tail == other_tail,
{
    let text = head + middle + tail;
    let other = other_head + middle + other_tail;
    let mark = middle.last();
    let at = head.len() + middle.len() - 1;
    let other_at = other_head.len() + middle.len() - 1;
    assert(text.len() == head.len() + middle.len() + tail.len());
    assert(other.len() == other_head.len() + middle.len() + other_tail.len());
    assert(text[at] == (head + middle)[at]);
    assert(text[at] == mark);
    assert(other[other_at] == (other_head + middle)[other_at]);
    assert(other[other_at] == mark);
    if tail.len() < other_tail.len() {
        let i = at - other_head.len() - middle.len();
        assert(0 <= i < other_tail.len());
        assert(other[at] == other_tail[i]);
        assert(other_tail.contains(mark));
    } else if tail.len() > other_tail.len() {
        let i = other_at - head.len() - middle.len();
        assert(0 <= i < tail.len());
        assert(text[other_at] == tail[i]);
        assert(tail.contains(mark));
    }
    assert(head.len() == other_head.len());
    assert(head =~= text.take(head.len() as int));
    assert(other_head =~= other.take(head.len() as int));
    assert(tail =~= text.skip(at + 1));
    assert(other_tail =~= other.skip(at + 1));
}

fn digit_text(d: usize) -> (s: &'static str)
    requires
        d < 10,
    ensures
        s@ == seq![digit_char(d as nat)],
{
    proof {
        reveal_strlit("0");
        reveal_strlit("1");
        reveal_strlit("2");
        reveal_strlit("3");
        reveal_strlit("4");
        reveal_strlit("5");
        reveal_strlit("6");
        reveal_strlit("7");
        reveal_strlit("8");
        reveal_strlit("9");
    }
    let s = if d == 0 {
        "0"
    } else if d == 1 {
        "1"
    } else if d == 2 {
        "2"
    } else if d == 3 {
        "3"
    } else if d == 4 {
        "4"
    } else if d == 5 {
        "5"
    } else if d == 6 {
        "6"
    } else if d == 7 {
        "7"
    } else if d == 8 {
        "8"
    } else {
        "9"
    };
    assert(s@ =~= seq![digit_char(d as nat)]);
    s
}

/// Writes `n` in base ten.
pub fn decimal_string(n: usize) -> (s: String)
    ensures
        s@ == decimal(n as nat),
    decreases n,
{
    if n < 10 {
        String::from_str(digit_text(n))
    } else {
        let mut s = decimal_string(n / 10);
        s.append(digit_text(n % 10));
        s
    }
}

/// The digit that a character stands for, up to base sixteen: `0` to `9`, then
/// `a` to `f` in small or capital letters.
pub open spec fn digit_of(c: char) -> Option<nat> {
    if '0' <= c && c <= '9' {
        Some((c as nat - '0' as nat) as nat)
    } else if 'a' <= c && c <= 'f' {
        Some((c as nat - 'a' as nat + 10) as nat)
    } else if 'A' <= c && c <= 'F' {
        Some((c as nat - 'A' as nat + 10) as nat)
    } else {
        None
    }
}

/// Whether a character is a digit of the base `radix`.
pub open spec fn is_digit(c: char, radix: nat) -> bool {
    digit_of(c) matches Some(d) && d < radix
}

/// Whether every character of `s` is a digit of the base `radix`.
pub open spec fn all_digits(s: Seq<char>, radix: nat) -> bool {
    forall|i: int| 0 <= i < s.len() ==> is_digit(#[trigger] s[i], radix)
}

/// The number that a run of digits writes in the base `radix`.
pub open spec fn digits_value(s: Seq<char>, radix: nat) -> nat
    decreases s.len(),
{
    if s.len() == 0 {
        0
    } else {
        digits_value(s.drop_last(), radix) * radix + digit_of(s.last()).unwrap_or(0)
    }
}

/// What is left of `s` once one leading plus sign is taken off.
pub open spec fn without_plus(s: Seq<char>) -> Seq<char> {
    if s.len() > 0 && s[0] == '+' {
        s.skip(1)
    } else {
        s
    }
}

/// The number that digits of the base `radix` write, where `s` holds one such
/// digit or more and nothing else, and the number is `max` at most.
pub open spec fn parse_digits(s: Seq<char>, radix: nat, max: nat) -> Option<nat> {
    if s.len() > 0 && all_digits(s, radix) && digits_value(s, radix) <= max {
        Some(digits_value(s, radix))
    } else {
        None
    }
}

/// The unsigned number that `s` writes in base ten: an optional plus sign, then
/// one digit or more and nothing else, with a value of at most `max`.
pub open spec fn parse_unsigned(s: Seq<char>, max: nat) -> Option<nat> {
    parse_digits(without_plus(s), 10, max)
}

/// Whether `s` begins with `0x`, the mark of a number in base sixteen.
pub open spec fn has_hex_mark(s: Seq<char>) -> bool {
    s.len() >= 2 && s[0] == '0' && s[1] == 'x'
}

/// The unsigned number that `s` writes: in base sixteen behind `0x`, and in base
/// ten, as `parse_unsigned` reads it, without that mark.
pub open spec fn parse_number(s: Seq<char>, max: nat) -> Option<nat> {
    if has_hex_mark(s) {
        parse_digits(s.skip(2), 16, max)
    } else {
        parse_unsigned(s, max)
    }
}

proof fn lemma_digits_value_grows(s: Seq<char>, radix: nat, k: int)
    requires
        0 <= k <= s.len(),
        radix >= 1,
    ensures
        digits_value(s.take(k), radix) <= digits_value(s, radix),
    decreases s.len() - k,
{
    if k < s.len() {
        let t = s.take(k + 1);
        assert(t.drop_last() =~= s.take(k));
        let v = digits_value(s.take(k), radix);
        assert(v * radix >= v) by (nonlinear_arith)
            requires
                radix >= 1,
                v >= 0,
        ;
        lemma_digits_value_grows(s, radix, k + 1);
    } else {
        assert(s.take(k) =~= s);
    }
}

fn digit_value(c: char) -> (r: Option<u64>)
    ensures
        match r {
            Some(d) => digit_of(c) == Some(d as nat),
            None => digit_of(c) is None,
        },
{
    if '0' <= c && c <= '9' {
        Some((c as u32 - '0' as u32) as u64)
    } else if 'a' <= c && c <= 'f' {
        Some((c as u32 - 'a' as u32 + 10) as u64)
    } else if 'A' <= c && c <= 'F' {
        Some((c as u32 - 'A' as u32 + 10) as u64)
    } else {
        None
    }
}

/// Reads the digits of `text` from `start` on as a number in the base `radix`.
fn read_digits(text: &Vec<char>, start: usize, radix: u64) -> (r: Option<u64>)
    requires
        start <= text.len(),
        1 <= radix <= 16,
    ensures
        match r {
            Some(n) => parse_digits(text@.skip(start as int), radix as nat, u64::MAX as nat)
                == Some(n as nat),
            None => parse_digits(text@.skip(start as int), radix as nat, u64::MAX as nat) is None,
        },
{
    let ghost d = text@.skip(start as int);
    if start == text.len() {
        return None;
    }
    let mut value: u64 = 0;
    let mut i: usize = start;
    assert(d.take(0) =~= Seq::<char>::empty());
    while i < text.len()
        invariant
            start <= i <= text.len(),
            1 <= radix <= 16,
            d == text@.skip(start as int),
            all_digits(d.take(i - start), radix as nat),
            value as nat == digits_value(d.take(i - start), radix as nat),
        decreases text.len() - i,
    {
        let c = text[i];
        let ghost head = d.take(i - start + 1);
        proof {
            assert(head.drop_last() =~= d.take(i - start));
            assert(head.last() == c);
            assert(d[i - start] == c);
        }
        let digit = match digit_value(c) {
            Some(digit) => digit,
            None => {
                assert(!is_digit(d[i - start], radix as nat));
                return None;
            },
        };
        if digit >= radix {
            assert(!is_digit(d[i - start], radix as nat));
            return None;
        }
        assert(all_digits(head, radix as nat)) by {
            assert forall|j: int| 0 <= j < head.len() implies is_digit(
                #[trigger] head[j],
                radix as nat,
            ) by {
                if j < i - start {
                    assert(head[j] == d.take(i - start)[j]);
                }
            }
        }
        let next = match value.checked_mul(radix) {
            Some(scaled) => scaled.checked_add(digit),
            None => None,
        };
        match next {
            Some(n) => {
                value = n;
            },
            None => {
                proof {
                    assert(digits_value(head, radix as nat) > u64::MAX);
                    lemma_digits_value_grows(d, radix as nat, i - start + 1);
                }
                return None;
            },
        }
        i = i + 1;
    }
    assert(d.take(i - start) =~= d);
    Some(value)
}

/// Reads an unsigned number in base ten, as `parse_unsigned` describes it.
pub fn parse_usize(s: &str) -> (r: Option<usize>)
    ensures
        match r {
            Some(n) => parse_unsigned(s@, usize::MAX as nat) == Some(n as nat),
            None => parse_unsigned(s@, usize::MAX as nat) is None,
        },
{
    let text = chars_of(s);
    let start: usize = if text.len() > 0 && text[0] == '+' {
        1
    } else {
        0
    };
    assert(without_plus(s@) =~= text@.skip(start as int));
    match read_digits(&text, start, 10) {
        Some(n) => if n <= usize::MAX as u64 {
            Some(n as usize)
        } else {
            None
        },
        None => None,
    }
}

/// Reads an unsigned number in base ten, or in base sixteen behind `0x`, as
/// `parse_number` describes it.
pub fn parse_u64(s: &str) -> (r: Option<u64>)
    ensures
        match r {
            Some(n) => parse_number(s@, u64::MAX as nat) == Some(n as nat),
            None => parse_number(s@, u64::MAX as nat) is None,
        },
{
    let text = chars_of(s);
    if text.len() >= 2 && text[0] == '0' && text[1] == 'x' {
        read_digits(&text, 2, 16)
    } else {
        let start: usize = if text.len() > 0 && text[0] == '+' {
            1
        } else {
            0
        };
        assert(without_plus(s@) =~= text@.skip(start as int));
        read_digits(&text, start, 10)
    }
}

} // verus!
