//! Decimal rendering of counters, as shown on the score board, the result
//! screen and in asset labels.

use vstd::prelude::*;

verus! {

/// The character of a decimal digit.
pub open spec fn digit_char(d: int) -> char {
    if d == 0 {
        '0'
    } else if d == 1 {
        '1'
    } else if d == 2 {
        '2'
    } else if d == 3 {
        '3'
    } else if d == 4 {
        '4'
    } else if d == 5 {
        '5'
    } else if d == 6 {
        '6'
    } else if d == 7 {
        '7'
    } else if d == 8 {
        '8'
    } else {
        '9'
    }
}

/// The decimal representation of `n` without leading zeros (`"0"` for zero),
/// as `to_string` prints an unsigned integer.
pub open spec fn decimal(n: nat) -> Seq<char>
    decreases n,
{
    if n < 10 {
        seq![digit_char(n as int)]
    } else {
        decimal(n / 10).push(digit_char((n % 10) as int))
    }
}

/// `digits` left-padded with `'0'` up to `width` characters, as the `{:0w}`
/// format specifier pads an integer.
pub open spec fn zero_pad(digits: Seq<char>, width: nat) -> Seq<char> {
    if digits.len() < width {
        Seq::new((width - digits.len()) as nat, |i: int| '0') + digits
    } else {
        digits
    }
}

/// The one-character string of a decimal digit.
fn digit_str(d: u64) -> (s: &'static str)
    requires
        d < 10,
    ensures
        s@ == seq![digit_char(d as int)],
{
    proof {
        reveal_strlit("0");
        reveal_strlit("1");
        reveal_strlit("2");
        reveal_strlit("3");
        reveal_strlit("4");
        reveal_strlit("5");
        reveal_strlit("6");
        reveal_strlit("7");
        reveal_strlit("8");
        reveal_strlit("9");
    }
    if d == 0 {
        "0"
    } else if d == 1 {
        "1"
    } else if d == 2 {
        "2"
    } else if d == 3 {
        "3"
    } else if d == 4 {
        "4"
    } else if d == 5 {
        "5"
    } else if d == 6 {
        "6"
    } else if d == 7 {
        "7"
    } else if d == 8 {
        "8"
    } else {
        "9"
    }
}

/// Appends the decimal representation of `n` to `out`.
pub fn push_decimal(out: &mut String, n: u64)
    ensures
        final(out)@ == old(out)@ + decimal(n as nat),
    decreases n,
{
    if n >= 10 {
        push_decimal(out, n / 10);
    }
    out.append(digit_str(n % 10));
    proof {
        assert(old(out)@ + decimal(n as nat) =~= if n >= 10 {
            old(out)@ + decimal((n / 10) as nat) + seq![digit_char((n % 10) as int)]
        } else {
            old(out)@ + seq![digit_char((n % 10) as int)]
        });
    }
}

/// The decimal text of `n`, as `n.to_string()` renders it.
pub fn decimal_string(n: u64) -> (s: String)
    ensures
        s@ == decimal(n as nat),
{
    let mut s = String::new();
    push_decimal(&mut s, n);
    assert(s@ =~= decimal(n as nat));
    s
}


/// Appends `n` left-padded with zeros to at least `width` digits (`width` is
/// two or three, the widths the result screen uses).
pub fn push_zero_padded(out: &mut String, n: u64, width: u64)
    requires
        width == 2 || width == 3,
    ensures
        final(out)@ == old(out)@ + zero_pad(decimal(n as nat), width as nat),
{
    proof {
        reveal_strlit("0");
        reveal_with_fuel(decimal, 3);
    }
    let ghost digits = decimal(n as nat);
    if width == 3 && n < 100 {
        out.append("0");
    }
    if n < 10 {
        out.append("0");
    }
    push_decimal(out, n);
    proof {
        if n >= 100 {
            lemma_decimal_len_at_least_3(n as nat);
        } else if n >= 10 {
            assert(digits.len() == 2);
        } else {
            assert(digits.len() == 1);
        }
        assert(final(out)@ =~= old(out)@ + zero_pad(digits, width as nat));
    }
}

/// A number of at least one hundred has at least three digits.
proof fn lemma_decimal_len_at_least_3(n: nat)
    requires
        n >= 100,
    ensures
        decimal(n).len() >= 3,
    decreases n,
{
    if n / 10 >= 100 {
        lemma_decimal_len_at_least_3(n / 10);
    } else {
        reveal_with_fuel(decimal, 3);
    }
}

/// The clock text of a play time in milliseconds: minutes (modulo an hour),
/// seconds and milliseconds, formatted as `{:02}:{:02}:{:03}`.
pub open spec fn play_time_text(total_millis: nat) -> Seq<char> {
    let minutes = (total_millis / (1000 * 60)) % 60;
    let seconds = (total_millis / 1000) % 60;
    let millis = total_millis % 1000;
    zero_pad(decimal(minutes), 2) + seq![':'] + zero_pad(decimal(seconds), 2) + seq![':']
        + zero_pad(decimal(millis), 3)
}

/// Renders a play time for the result screen.
pub fn format_play_time(total_millis: u64) -> (s: String)
    ensures
        s@ == play_time_text(total_millis as nat),
{
    proof {
        reveal_strlit(":");
    }
    let minutes = (total_millis / (1000 * 60)) % 60;
    let seconds = (total_millis / 1000) % 60;
    let millis = total_millis % 1000;
    let mut s = String::new();
    push_zero_padded(&mut s, minutes, 2);
    s.append(":");
    push_zero_padded(&mut s, seconds, 2);
    s.append(":");
    push_zero_padded(&mut s, millis, 3);
    assert(s@ =~= play_time_text(total_millis as nat));
    s
}


/// Whether `needle` occurs in `hay` as a contiguous run of characters.
pub open spec fn spec_contains(hay: Seq<char>, needle: Seq<char>) -> bool {
    exists|i: int| 0 <= i && i + needle.len() <= hay.len() && #[trigger] hay.subrange(i, i + needle.len()) == needle
}

/// Whether `needle` occurs in `hay` at character position `i`.
fn occurs_at(hay: &str, needle: &str, i: usize) -> (b: bool)
    requires
        i + needle@.len() <= hay@.len(),
        hay@.len() <= usize::MAX,
    ensures
        b == (hay@.subrange(i as int, i + needle@.len()) == needle@),
{
    let n = needle.unicode_len();
    let mut k: usize = 0;
    while k < n
        invariant
            n == needle@.len(),
            i + n <= hay@.len(),
            hay@.len() <= usize::MAX,
            k <= n,
            forall|j: int| 0 <= j < k ==> hay@[i + j] == needle@[j],
        decreases n - k,
    {
        if hay.get_char(i + k) != needle.get_char(k) {
            assert(hay@.subrange(i as int, i + n)[k as int] != needle@[k as int]);
            return false;
        }
        k += 1;
    }
    assert(hay@.subrange(i as int, i + n) =~= needle@);
    true
}

/// Whether `needle` occurs in `hay` (the behaviour of `str::contains` with a
/// string pattern).
pub fn contains(hay: &str, needle: &str) -> (b: bool)
    ensures
        b == spec_contains(hay@, needle@),
{
    let h = hay.unicode_len();
    let n = needle.unicode_len();
    if n > h {
        return false;
    }
    if n == 0 {
        assert(hay@.subrange(0int, 0int + needle@.len()) =~= needle@);
        return true;
    }
    let last = h - n;
    let mut i: usize = 0;
    while i <= last
        invariant
            h == hay@.len(),
            n == needle@.len(),
            1 <= n <= h,
            last == h - n,
            i <= last + 1,
            forall|j: int| 0 <= j < i ==> #[trigger] hay@.subrange(j, j + n) != needle@,
        decreases last + 1 - i,
    {
        if occurs_at(hay, needle, i) {
            return true;
        }
        i += 1;
    }
    false
}

} // verus!
