//! Writing numbers as text.
use vstd::prelude::*;

verus! {

/// The decimal digit `d` as a character.
pub open spec fn digit_char(d: int) -> char {
    if d == 0 {
        '0'
    } else if d == 1 {
        '1'
    } else if d == 2 {
        '2'
    } else if d == 3 {
        '3'
    } else if d == 4 {
        '4'
    } else if d == 5 {
        '5'
    } else if d == 6 {
        '6'
    } else if d == 7 {
        '7'
    } else if d == 8 {
        '8'
    } else {
        '9'
    }
}

/// `n` written in decimal, without leading zeros ("0" for zero).
pub open spec fn decimal(n: nat) -> Seq<char>
    decreases n,
{
    if n < 10 {
        seq![digit_char(n as int)]
    } else {
        decimal(n / 10).push(digit_char((n % 10) as int))
    }
}

fn digit_str(d: u32) -> (s: &'static str)
    requires
        d < 10,
    ensures
        s@ == seq![digit_char(d as int)],
{
    proof {
        reveal_strlit("0");
        reveal_strlit("1");
        reveal_strlit("2");
        reveal_strlit("3");
        reveal_strlit("4");
        reveal_strlit("5");
        reveal_strlit("6");
        reveal_strlit("7");
        reveal_strlit("8");
        reveal_strlit("9");
    }
    if d == 0 {
        "0"
    } else if d == 1 {
        "1"
    } else if d == 2 {
        "2"
    } else if d == 3 {
        "3"
    } else if d == 4 {
        "4"
    } else if d == 5 {
        "5"
    } else if d == 6 {
        "6"
    } else if d == 7 {
        "7"
    } else if d == 8 {
        "8"
    } else {
        "9"
    }
}

/// Appends `n` in decimal to `s`.
pub fn push_decimal(s: &mut String, n: u32)
    ensures
        final(s)@ == old(s)@ + decimal(n as nat),
    decreases n,
{
    if n >= 10 {
        push_decimal(s, n / 10);
    }
    let d = digit_str(n % 10);
    s.append(d);
    proof {
        if n >= 10 {
            assert(decimal(n as nat) == decimal((n / 10) as nat).push(digit_char((n % 10) as int)));
        }
    }
    assert(s@ =~= old(s)@ + decimal(n as nat));
}


/// `n` written in decimal, with a minus sign when negative.
pub open spec fn signed_decimal(n: int) -> Seq<char> {
    if n < 0 {
        seq!['-'] + decimal((-n) as nat)
    } else {
        decimal(n as nat)
    }
}

/// Appends `n` in decimal (with its sign) to `s`.
pub fn push_signed(s: &mut String, n: i32)
    ensures
        final(s)@ == old(s)@ + signed_decimal(n as int),
{
    if n < 0 {
        proof {
            reveal_strlit("-");
        }
        s.append("-");
        let m: u32 = if n == i32::MIN { 2_147_483_648 } else { (-n) as u32 };
        let ghost s1 = s@;
        push_decimal(s, m);
        assert(s@ =~= old(s)@ + signed_decimal(n as int));
    } else {
        push_decimal(s, n as u32);
    }
}


/// `m` (below a thousand) as three digits, with leading zeros.
pub open spec fn three_digits(m: nat) -> Seq<char> {
    seq![digit_char((m / 100) as int), digit_char(((m / 10) % 10) as int), digit_char((m % 10) as int)]
}

/// `n` in decimal with its digits grouped by three, the groups separated
/// by commas.
pub open spec fn grouped_decimal(n: nat) -> Seq<char>
    decreases n,
{
    if n < 1000 {
        decimal(n)
    } else {
        grouped_decimal(n / 1000) + seq![','] + three_digits(n % 1000)
    }
}

/// An amount of money as shown: digits grouped by three, with a minus sign
/// when negative.
pub open spec fn money_text(amount: int) -> Seq<char> {
    if amount < 0 {
        seq!['-'] + grouped_decimal((-amount) as nat)
    } else {
        grouped_decimal(amount as nat)
    }
}

fn push_grouped(s: &mut String, n: u32)
    ensures
        final(s)@ == old(s)@ + grouped_decimal(n as nat),
    decreases n,
{
    if n < 1000 {
        push_decimal(s, n);
        return;
    }
    push_grouped(s, n / 1000);
    proof {
        reveal_strlit(",");
    }
    s.append(",");
    let m = n % 1000;
    let d2 = digit_str(m / 100);
    s.append(d2);
    let d1 = digit_str((m / 10) % 10);
    s.append(d1);
    let d0 = digit_str(m % 10);
    s.append(d0);
    assert(s@ =~= old(s)@ + grouped_decimal(n as nat));
}

/// An amount of money with its digits grouped by three (see `money_text`).
pub fn format_money(amount: i32) -> (r: String)
    ensures
        r@ == money_text(amount as int),
{
    let mut s = String::new();
    if amount < 0 {
        proof {
            reveal_strlit("-");
        }
        s.append("-");
        let m: u32 = if amount == i32::MIN { 2_147_483_648 } else { (-amount) as u32 };
        push_grouped(&mut s, m);
    } else {
        push_grouped(&mut s, amount as u32);
    }
    assert(s@ =~= money_text(amount as int));
    s
}

} // verus!
