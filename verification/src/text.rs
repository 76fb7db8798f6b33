//! Numbers as the HUD and the result screens print them.

use vstd::prelude::*;
use crate::player::Player;

verus! {

/// The decimal digit `d` (for `d < 10`) as a character.
pub open spec fn digit_char(d: nat) -> char {
    if d == 0 {
        '0'
    } else if d == 1 {
        '1'
    } else if d == 2 {
        '2'
    } else if d == 3 {
        '3'
    } else if d == 4 {
        '4'
    } else if d == 5 {
        '5'
    } else if d == 6 {
        '6'
    } else if d == 7 {
        '7'
    } else if d == 8 {
        '8'
    } else {
        '9'
    }
}

/// `n` in decimal, without leading zeros (`"0"` for zero).
pub open spec fn decimal(n: nat) -> Seq<char>
    decreases n,
{
    if n < 10 {
        seq![digit_char(n)]
    } else {
        decimal(n / 10).push(digit_char(n % 10))
    }
}

/// `n` in decimal, padded with a zero to at least two digits.
pub open spec fn two_digits(n: nat) -> Seq<char> {
    if n < 10 {
        seq!['0'] + decimal(n)
    } else {
        decimal(n)
    }
}

/// Whole seconds as `MM:SS`: minutes and seconds, each at least two digits.
pub open spec fn clock_text(total_seconds: nat) -> Seq<char> {
    two_digits(total_seconds / 60) + seq![':'] + two_digits(total_seconds % 60)
}

/// The experience line of the HUD: `LV <level>  <xp>/<xp_to_next> XP`.
pub open spec fn spec_xp_text(p: Player) -> Seq<char> {
    seq!['L', 'V', ' '] + decimal(p.level as nat) + seq![' ', ' '] + decimal(p.xp as nat) + seq!['/']
        + decimal(p.xp_to_next as nat) + seq![' ', 'X', 'P']
}

/// Appends the digit `d`.
fn push_digit(s: &mut String, d: u64)
    requires
        d < 10,
    ensures
        final(s)@ == old(s)@.push(digit_char(d as nat)),
{
    if d == 0 {
        proof {
            reveal_strlit("0");
        }
        s.append("0");
    } else if d == 1 {
        proof {
            reveal_strlit("1");
        }
        s.append("1");
    } else if d == 2 {
        proof {
            reveal_strlit("2");
        }
        s.append("2");
    } else if d == 3 {
        proof {
            reveal_strlit("3");
        }
        s.append("3");
    } else if d == 4 {
        proof {
            reveal_strlit("4");
        }
        s.append("4");
    } else if d == 5 {
        proof {
            reveal_strlit("5");
        }
        s.append("5");
    } else if d == 6 {
        proof {
            reveal_strlit("6");
        }
        s.append("6");
    } else if d == 7 {
        proof {
            reveal_strlit("7");
        }
        s.append("7");
    } else if d == 8 {
        proof {
            reveal_strlit("8");
        }
        s.append("8");
    } else {
        proof {
            reveal_strlit("9");
        }
        s.append("9");
    }
}

/// Appends `n` in decimal.
fn push_decimal(s: &mut String, n: u64)
    ensures
        final(s)@ == old(s)@ + decimal(n as nat),
    decreases n,
{
    if n >= 10 {
        push_decimal(s, n / 10);
    }
    push_digit(s, n % 10);
    proof {
        if n < 10 {
            assert(decimal(n as nat) =~= seq![digit_char(n as nat)]);
        }
    }
}

/// Appends `n` in decimal, padded with a zero to at least two digits.
fn push_two_digits(s: &mut String, n: u64)
    ensures
        final(s)@ == old(s)@ + two_digits(n as nat),
{
    if n < 10 {
        push_digit(s, 0);
    }
    push_decimal(s, n);
}

/// Formats a time given in whole seconds as `MM:SS`.
pub fn format_time(total_seconds: u64) -> (r: String)
    ensures
        r@ == clock_text(total_seconds as nat),
{
    let mut s = String::new();
    push_two_digits(&mut s, total_seconds / 60);
    proof {
        reveal_strlit(":");
    }
    s.append(":");
    push_two_digits(&mut s, total_seconds % 60);
    s
}

/// The experience line of the HUD for `player`.
pub fn xp_text(player: &Player) -> (r: String)
    ensures
        r@ == spec_xp_text(*player),
{
    let mut s = String::new();
    proof {
        reveal_strlit("LV ");
        reveal_strlit("  ");
        reveal_strlit("/");
        reveal_strlit(" XP");
    }
    s.append("LV ");
    push_decimal(&mut s, player.level as u64);
    s.append("  ");
    push_decimal(&mut s, player.xp as u64);
    s.append("/");
    push_decimal(&mut s, player.xp_to_next as u64);
    s.append(" XP");
    s
}


/// The gold counter of the HUD: `金币 <gold>`.
pub fn gold_text(gold: usize) -> (r: String)
    ensures
        r@ == "金币 "@ + decimal(gold as nat),
{
    let mut s = String::from_str("金币 ");
    push_decimal(&mut s, gold as u64);
    s
}

/// The kill counter of the HUD: `击杀 <kills>`.
pub fn kills_text(kills: usize) -> (r: String)
    ensures
        r@ == "击杀 "@ + decimal(kills as nat),
{
    let mut s = String::from_str("击杀 ");
    push_decimal(&mut s, kills as u64);
    s
}


/// The value of a decimal digit character.
pub open spec fn digit_value(c: char) -> nat {
    if c == '1' {
        1
    } else if c == '2' {
        2
    } else if c == '3' {
        3
    } else if c == '4' {
        4
    } else if c == '5' {
        5
    } else if c == '6' {
        6
    } else if c == '7' {
        7
    } else if c == '8' {
        8
    } else if c == '9' {
        9
    } else {
        0
    }
}

/// The number a string of decimal digits reads as.
pub open spec fn read_decimal(s: Seq<char>) -> nat
    decreases s.len(),
{
    if s.len() == 0 {
        0
    } else {
        read_decimal(s.drop_last()) * 10 + digit_value(s.last())
    }
}

proof fn lemma_digit_roundtrip(d: nat)
    requires
        d < 10,
    ensures
        digit_value(digit_char(d)) == d,
{
}

proof fn lemma_read_one(c: char)
    ensures
        read_decimal(seq![c]) == digit_value(c),
{
    assert(seq![c].drop_last() =~= Seq::<char>::empty());
    assert(read_decimal(Seq::<char>::empty()) == 0);
}

proof fn lemma_read_padded(c: char)
    ensures
        read_decimal(seq!['0'] + seq![c]) == digit_value(c),
{
    let s = seq!['0'] + seq![c];
    assert(s.drop_last() =~= seq!['0']);
    lemma_read_one('0');
}

/// A number printed in decimal reads back as the same number.
pub proof fn law_decimal_reads_back(n: nat)
    ensures
        read_decimal(decimal(n)) == n,
    decreases n,
{
    if n < 10 {
        lemma_read_one(digit_char(n));
        lemma_digit_roundtrip(n);
    } else {
        law_decimal_reads_back(n / 10);
        assert(decimal(n).drop_last() =~= decimal(n / 10));
        lemma_digit_roundtrip(n % 10);
        assert(n == (n / 10) * 10 + n % 10) by (nonlinear_arith);
    }
}

proof fn lemma_decimal_len(n: nat)
    ensures
        n < 10 ==> decimal(n).len() == 1,
        10 <= n < 100 ==> decimal(n).len() == 2,
{
    if 10 <= n < 100 {
        assert(n / 10 < 10) by (nonlinear_arith)
            requires
                n < 100,
        ;
        assert(decimal(n / 10).len() == 1);
    }
}

/// Two padded digits read back as the number below 100 that they print.
proof fn lemma_two_digits(n: nat)
    requires
        n < 100,
    ensures
        two_digits(n).len() == 2,
        read_decimal(two_digits(n)) == n,
{
    lemma_decimal_len(n);
    law_decimal_reads_back(n);
    if n < 10 {
        assert(decimal(n) =~= seq![digit_char(n)]);
        lemma_read_padded(digit_char(n));
        lemma_digit_roundtrip(n);
    }
}

/// Under a hundred minutes the clock reads `MM:SS`: five characters with
/// the colon in the middle, the minutes and the seconds reading back as the
/// whole minutes and the seconds past them.
pub proof fn law_clock_text_shape(total_seconds: nat)
    requires
        total_seconds < 6000,
    ensures
        clock_text(total_seconds).len() == 5,
        clock_text(total_seconds)[2] == ':',
        read_decimal(clock_text(total_seconds).subrange(0, 2)) == total_seconds / 60,
        read_decimal(clock_text(total_seconds).subrange(3, 5)) == total_seconds % 60,
{
    let m = total_seconds / 60;
    let sec = total_seconds % 60;
    assert(m < 100) by (nonlinear_arith)
        requires
            total_seconds < 6000,
            m == total_seconds / 60,
    ;
    lemma_two_digits(m);
    lemma_two_digits(sec);
    let t = clock_text(total_seconds);
    assert(t.subrange(0, 2) =~= two_digits(m));
    assert(t.subrange(3, 5) =~= two_digits(sec));
}

} // verus!
