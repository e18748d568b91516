//! Numbers as the text of a failure's detail shows them.

use vstd::prelude::*;

verus! {

/// The character that stands for one digit, up to base sixteen.
pub open spec fn digit_char(d: nat) -> char {
    if d == 0 {
        '0'
    } else if d == 1 {
        '1'
    } else if d == 2 {
        '2'
    } else if d == 3 {
        '3'
    } else if d == 4 {
        '4'
    } else if d == 5 {
        '5'
    } else if d == 6 {
        '6'
    } else if d == 7 {
        '7'
    } else if d == 8 {
        '8'
    } else if d == 9 {
        '9'
    } else if d == 10 {
        'a'
    } else if d == 11 {
        'b'
    } else if d == 12 {
        'c'
    } else if d == 13 {
        'd'
    } else if d == 14 {
        'e'
    } else {
        'f'
    }
}

/// `n` written in `base` with no leading zero.
pub open spec fn numeral(n: nat, base: nat) -> Seq<char>
    decreases n,
{
    if base < 2 || n < base {
        seq![digit_char(n)]
    } else {
        proof {
            assert(n / base < n) by (nonlinear_arith)
                requires
                    n >= base,
                    base >= 2,
            ;
        }
        numeral(n / base, base).push(digit_char(n % base))
    }
}

/// `n` in decimal.
pub open spec fn dec(n: nat) -> Seq<char> {
    numeral(n, 10)
}

/// `n` in hexadecimal, with its prefix.
pub open spec fn hex(n: nat) -> Seq<char> {
    "0x"@ + numeral(n, 16)
}

/// `n` in decimal, with its sign where it is below zero.
pub open spec fn signed(n: int) -> Seq<char> {
    if n < 0 {
        "-"@ + dec((-n) as nat)
    } else {
        dec(n as nat)
    }
}

/// The one-character text of a digit.
fn digit_text(d: u64) -> (s: &'static str)
    requires
        d < 16,
    ensures
        s@ == seq![digit_char(d as nat)],
{
    proof {
        reveal_strlit("0");
        reveal_strlit("1");
        reveal_strlit("2");
        reveal_strlit("3");
        reveal_strlit("4");
        reveal_strlit("5");
        reveal_strlit("6");
        reveal_strlit("7");
        reveal_strlit("8");
        reveal_strlit("9");
        reveal_strlit("a");
        reveal_strlit("b");
        reveal_strlit("c");
        reveal_strlit("d");
        reveal_strlit("e");
        reveal_strlit("f");
    }
    match d {
        0 => "0",
        1 => "1",
        2 => "2",
        3 => "3",
        4 => "4",
        5 => "5",
        6 => "6",
        7 => "7",
        8 => "8",
        9 => "9",
        10 => "a",
        11 => "b",
        12 => "c",
        13 => "d",
        14 => "e",
        _ => "f",
    }
}

/// Append `n` in `base` to `out`.
fn push_numeral(out: &mut String, n: u64, base: u64)
    requires
        2 <= base <= 16,
    ensures
        final(out)@ == old(out)@ + numeral(n as nat, base as nat),
    decreases n,
{
    if n >= base {
        proof {
            assert(n / base < n) by (nonlinear_arith)
                requires
                    n >= base,
                    base >= 2,
            ;
        }
        push_numeral(out, n / base, base);
    }
    let d: u64 = n % base;
    out.append(digit_text(d));
    proof {
        if n >= base {
            assert(old(out)@ + numeral((n / base) as nat, base as nat) + seq![digit_char(d as nat)]
                =~= old(out)@ + numeral(n as nat, base as nat));
        } else {
            assert(d == n) by (nonlinear_arith)
                requires
                    d == n % base,
                    n < base,
            ;
        }
    }
}

/// Append `n` in decimal to `out`.
pub fn push_dec(out: &mut String, n: u64)
    ensures
        final(out)@ == old(out)@ + dec(n as nat),
{
    push_numeral(out, n, 10)
}

/// Append `n` in hexadecimal, with its prefix, to `out`.
pub fn push_hex(out: &mut String, n: u64)
    ensures
        final(out)@ == old(out)@ + hex(n as nat),
{
    out.append("0x");
    push_numeral(out, n, 16);
    proof {
        assert(old(out)@ + "0x"@ + numeral(n as nat, 16) =~= old(out)@ + hex(n as nat));
    }
}

/// Append `n` in decimal, with its sign where it is below zero, to `out`.
pub fn push_signed(out: &mut String, n: i64)
    ensures
        final(out)@ == old(out)@ + signed(n as int),
{
    if n < 0 {
        out.append("-");
        let positive: u64 = if n == i64::MIN {
            0x8000_0000_0000_0000
        } else {
            (-n) as u64
        };
        push_dec(out, positive);
        proof {
            assert(old(out)@ + "-"@ + dec(positive as nat) =~= old(out)@ + signed(n as int));
        }
    } else {
        push_dec(out, n as u64);
    }
}

/// What a digit is worth.
pub open spec fn digit_worth(digit: char) -> int {
    if '0' <= digit <= '9' {
        digit as int - '0' as int
    } else {
        digit as int - 'a' as int + 10
    }
}

/// The number a numeral in `base` stands for, read from the front.
pub open spec fn worth(digits: Seq<char>, base: int) -> int
    decreases digits.len(),
{
    if digits.len() == 0 {
        0
    } else {
        worth(digits.drop_last(), base) * base + digit_worth(digits.last())
    }
}

/// A numeral reads back as the number it was written for, has a digit at
/// least, and none too many: only the numeral of zero begins with a zero.
pub proof fn a_numeral_reads_back_as_its_number(n: nat, base: nat)
    requires
        base == 10 || base == 16,
    ensures
        worth(numeral(n, base), base as int) == n,
        numeral(n, base).len() > 0,
        numeral(n, base)[0] == '0' <==> n == 0,
    decreases n,
{
    let digits = numeral(n, base);
    if n < base {
        assert(digits.drop_last() =~= Seq::<char>::empty());
        assert(worth(digits.drop_last(), base as int) == 0);
        assert(digits.last() == digit_char(n));
    } else {
        let front = numeral(n / base, base);
        assert(n / base < n) by (nonlinear_arith)
            requires
                n >= base,
                base >= 2,
        ;
        assert(n / base > 0) by (nonlinear_arith)
            requires
                n >= base,
                base >= 2,
        ;
        a_numeral_reads_back_as_its_number(n / base, base);
        assert(digits.drop_last() =~= front);
        assert(digits[0] == front[0]);
        assert((n / base) * base + n % base == n) by (nonlinear_arith)
            requires
                base >= 2,
        ;
    }
}

/// What is pushed reads back: a number in tens, a number in sixteens behind
/// its mark, and a number below zero behind its sign, each behind what was
/// there.
pub proof fn what_is_pushed_reads_back(
    tens: &mut String,
    n: u64,
    sixteens: &mut String,
    h: u64,
    with_sign: &mut String,
    i: i64,
    done: (),
)
    requires
        call_ensures(push_dec, (tens, n), done),
        call_ensures(push_hex, (sixteens, h), done),
        call_ensures(push_signed, (with_sign, i), done),
    ensures
        final(tens)@.take(old(tens)@.len() as int) == old(tens)@,
        worth(final(tens)@.skip(old(tens)@.len() as int), 10) == n,
        final(sixteens)@.take(old(sixteens)@.len() as int + 2) == old(sixteens)@ + seq!['0', 'x'],
        worth(final(sixteens)@.skip(old(sixteens)@.len() as int + 2), 16) == h,
        i >= 0 ==> final(with_sign)@.take(old(with_sign)@.len() as int) == old(with_sign)@,
        i >= 0 ==> worth(final(with_sign)@.skip(old(with_sign)@.len() as int), 10) == i,
        i < 0 ==> final(with_sign)@.take(old(with_sign)@.len() as int + 1) == old(with_sign)@ + seq!['-'],
        i < 0 ==> worth(final(with_sign)@.skip(old(with_sign)@.len() as int + 1), 10) == -i,
{
    reveal_strlit("0x");
    reveal_strlit("-");
    a_numeral_reads_back_as_its_number(n as nat, 10);
    a_numeral_reads_back_as_its_number(h as nat, 16);
    assert(final(tens)@.take(old(tens)@.len() as int) =~= old(tens)@);
    assert(final(tens)@.skip(old(tens)@.len() as int) =~= numeral(n as nat, 10));
    assert(final(sixteens)@.take(old(sixteens)@.len() as int + 2) =~= old(sixteens)@ + seq!['0', 'x']);
    assert(final(sixteens)@.skip(old(sixteens)@.len() as int + 2) =~= numeral(h as nat, 16));
    if i >= 0 {
        a_numeral_reads_back_as_its_number(i as nat, 10);
        assert(final(with_sign)@.take(old(with_sign)@.len() as int) =~= old(with_sign)@);
        assert(final(with_sign)@.skip(old(with_sign)@.len() as int) =~= numeral(i as nat, 10));
    } else {
        a_numeral_reads_back_as_its_number((-i) as nat, 10);
        assert(final(with_sign)@.take(old(with_sign)@.len() as int + 1) =~= old(with_sign)@ + seq!['-']);
        assert(final(with_sign)@.skip(old(with_sign)@.len() as int + 1) =~= numeral((-i) as nat, 10));
    }
}

} // verus!
