//! Decimal numbers, padding and joining for the game's text lines.

use vstd::prelude::*;

verus! {

/// The character of a decimal digit.
pub open spec fn digit_char(d: int) -> char {
    if d == 0 { '0' }
    else if d == 1 { '1' }
    else if d == 2 { '2' }
    else if d == 3 { '3' }
    else if d == 4 { '4' }
    else if d == 5 { '5' }
    else if d == 6 { '6' }
    else if d == 7 { '7' }
    else if d == 8 { '8' }
    else { '9' }
}

/// Decimal digits of `n`, most significant first, without leading zeros
/// (a single `'0'` for zero).
pub open spec fn digits(n: nat) -> Seq<char>
    decreases n,
{
    if n < 10 {
        seq![digit_char(n as int)]
    } else {
        digits(n / 10).push(digit_char((n % 10) as int))
    }
}

/// Decimal text of an integer, with a leading `'-'` when negative.
pub open spec fn int_text(n: int) -> Seq<char> {
    if n < 0 {
        seq!['-'] + digits((-n) as nat)
    } else {
        digits(n as nat)
    }
}

/// `k` copies of the character `c`.
pub open spec fn repeat_char(c: char, k: nat) -> Seq<char> {
    Seq::new(k, |i: int| c)
}

/// `s` preceded by enough `c` to reach `width` characters (no change when
/// `s` is already that long).
pub open spec fn pad_left(s: Seq<char>, width: nat, c: char) -> Seq<char> {
    if s.len() < width {
        repeat_char(c, (width - s.len()) as nat) + s
    } else {
        s
    }
}

/// `s` followed by enough spaces to reach `width` characters.
pub open spec fn pad_right(s: Seq<char>, width: nat) -> Seq<char> {
    if s.len() < width {
        s + repeat_char(' ', (width - s.len()) as nat)
    } else {
        s
    }
}

/// `seq![x]` when `present`, else nothing.
pub open spec fn maybe(present: bool, x: Seq<char>) -> Seq<Seq<char>> {
    if present {
        seq![x]
    } else {
        Seq::empty()
    }
}

/// The pieces of `parts` with `sep` between neighbours.
pub open spec fn join(parts: Seq<Seq<char>>, sep: Seq<char>) -> Seq<char>
    decreases parts.len(),
{
    if parts.len() == 0 {
        Seq::empty()
    } else if parts.len() == 1 {
        parts[0]
    } else {
        join(parts.drop_last(), sep) + sep + parts.last()
    }
}

/// Appending one piece to a joined list.
pub proof fn lemma_join_push(parts: Seq<Seq<char>>, sep: Seq<char>, p: Seq<char>)
    ensures
        join(parts.push(p), sep) == if parts.len() == 0 {
            p
        } else {
            join(parts, sep) + sep + p
        },
{
    assert(parts.push(p).drop_last() =~= parts);
    if parts.len() == 0 {
        assert(parts.push(p)[0] == p);
    }
}

fn digit_str(d: u64) -> (s: &'static str)
    requires
        d < 10,
    ensures
        s@ == seq![digit_char(d as int)],
{
    proof {
        reveal_strlit("0");
        reveal_strlit("1");
        reveal_strlit("2");
        reveal_strlit("3");
        reveal_strlit("4");
        reveal_strlit("5");
        reveal_strlit("6");
        reveal_strlit("7");
        reveal_strlit("8");
        reveal_strlit("9");
    }
    match d {
        0 => "0",
        1 => "1",
        2 => "2",
        3 => "3",
        4 => "4",
        5 => "5",
        6 => "6",
        7 => "7",
        8 => "8",
        _ => "9",
    }
}

/// Appends the decimal digits of `n`.
pub fn push_digits(out: &mut String, n: u64)
    ensures
        final(out)@ == old(out)@ + digits(n as nat),
    decreases n,
{
    if n >= 10 {
        push_digits(out, n / 10);
    }
    out.append(digit_str(n % 10));
    proof {
        assert(old(out)@ + digits((n / 10) as nat) + seq![digit_char((n % 10) as int)]
            =~= old(out)@ + digits((n / 10) as nat).push(digit_char((n % 10) as int)));
    }
}

/// Appends the decimal text of `n` (`format!("{}", n)`).
pub fn push_int(out: &mut String, n: i32)
    ensures
        final(out)@ == old(out)@ + int_text(n as int),
{
    if n < 0 {
        proof {
            reveal_strlit("-");
        }
        out.append("-");
        let m: i64 = -(n as i64);
        push_digits(out, m as u64);
        proof {
            assert(old(out)@ + seq!['-'] + digits((-n) as nat) =~= old(out)@ + (seq!['-']
                + digits((-n) as nat)));
        }
    } else {
        push_digits(out, n as u64);
    }
}

/// Appends `k` copies of the one-character string `c`.
pub fn push_repeat(out: &mut String, c: &str, k: usize)
    requires
        c@.len() == 1,
    ensures
        final(out)@ == old(out)@ + repeat_char(c@[0], k as nat),
{
    let mut i: usize = 0;
    while i < k
        invariant
            i <= k,
            c@.len() == 1,
            out@ == old(out)@ + repeat_char(c@[0], i as nat),
        decreases k - i,
    {
        out.append(c);
        i = i + 1;
        proof {
            assert(out@ =~= old(out)@ + repeat_char(c@[0], i as nat));
        }
    }
}

/// Decimal text of `n` as an owned string.
pub fn int_string(n: i32) -> (s: String)
    ensures
        s@ == int_text(n as int),
{
    let mut s = String::new();
    push_int(&mut s, n);
    proof {
        assert(s@ =~= int_text(n as int));
    }
    s
}

} // verus!

verus! {

/// `10` to the power `k`.
pub open spec fn pow10(k: nat) -> nat
    decreases k,
{
    if k == 0 {
        1
    } else {
        10 * pow10((k - 1) as nat)
    }
}

/// A number below `10^k` has at most `k` digits.
pub proof fn lemma_digits_len_bound(n: nat, k: nat)
    requires
        1 <= k,
        n < pow10(k),
    ensures
        digits(n).len() <= k,
    decreases k,
{
    if n >= 10 {
        assert(pow10(k) == 10 * pow10((k - 1) as nat));
        assert(n / 10 < pow10((k - 1) as nat));
        if k == 1 {
            assert(false);
        } else {
            lemma_digits_len_bound(n / 10, (k - 1) as nat);
        }
    }
}

/// A `u64` has at most 20 decimal digits.
pub proof fn lemma_u64_digits(n: u64)
    ensures
        digits(n as nat).len() <= 20,
{
    reveal_with_fuel(pow10, 21);
    assert(pow10(20) == 100000000000000000000nat);
    lemma_digits_len_bound(n as nat, 20);
}

/// Number of decimal digits of `n`.
pub fn digit_count(n: u64) -> (k: usize)
    ensures
        k == digits(n as nat).len(),
    decreases n,
{
    if n < 10 {
        1
    } else {
        let k = digit_count(n / 10);
        proof {
            lemma_u64_digits(n / 10);
            assert(digits(n as nat) == digits((n / 10) as nat).push(
                digit_char((n % 10) as int),
            ));
        }
        k + 1
    }
}

/// Appends the decimal digits of `n`, zero-padded on the left to `width`
/// characters (`format!("{:0width$}", n)`).
pub fn push_zero_padded(out: &mut String, n: u64, width: usize)
    ensures
        final(out)@ == old(out)@ + pad_left(digits(n as nat), width as nat, '0'),
{
    let k = digit_count(n);
    proof {
        reveal_strlit("0");
    }
    if k < width {
        push_repeat(out, "0", width - k);
    }
    push_digits(out, n);
    proof {
        if k < width {
            assert(old(out)@ + repeat_char('0', (width - k) as nat) + digits(n as nat)
                =~= old(out)@ + pad_left(digits(n as nat), width as nat, '0'));
        } else {
            assert(old(out)@ + digits(n as nat) =~= old(out)@ + pad_left(
                digits(n as nat),
                width as nat,
                '0',
            ));
        }
    }
}

/// Appends `s` padded with spaces on the right to `width` characters
/// (`format!("{:<width$}", s)`).
pub fn push_left_aligned(out: &mut String, s: &str, width: usize)
    ensures
        final(out)@ == old(out)@ + pad_right(s@, width as nat),
{
    out.append(s);
    let len = s.unicode_len();
    proof {
        reveal_strlit(" ");
    }
    if len < width {
        push_repeat(out, " ", width - len);
    }
    proof {
        assert(final(out)@ =~= old(out)@ + pad_right(s@, width as nat)) by {
            if len < width {
                assert(out@ =~= old(out)@ + (s@ + repeat_char(' ', (width - len) as nat)));
            }
        }
    }
}

/// Appends `s` padded with spaces on the left to `width` characters
/// (`format!("{:>width$}", s)`).
pub fn push_right_aligned(out: &mut String, s: &str, width: usize)
    ensures
        final(out)@ == old(out)@ + pad_left(s@, width as nat, ' '),
{
    let len = s.unicode_len();
    proof {
        reveal_strlit(" ");
    }
    if len < width {
        push_repeat(out, " ", width - len);
    }
    out.append(s);
    proof {
        if len < width {
            assert(out@ =~= old(out)@ + (repeat_char(' ', (width - len) as nat) + s@));
        } else {
            assert(out@ =~= old(out)@ + s@);
        }
    }
}

} // verus!
