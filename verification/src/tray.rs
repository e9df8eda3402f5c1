//! The texts of the two tray menu entries that follow the state.

use vstd::prelude::*;
use vstd::string::*;

verus! {

/// Millilitres recorded by the sip entry of the tray menu, whatever the
/// settings say.
pub const TRAY_SIP_AMOUNT_ML: i64 = 50;

/// The character of a decimal digit.
pub open spec fn digit_char(digit: int) -> char {
    if digit == 0 {
        '0'
    } else if digit == 1 {
        '1'
    } else if digit == 2 {
        '2'
    } else if digit == 3 {
        '3'
    } else if digit == 4 {
        '4'
    } else if digit == 5 {
        '5'
    } else if digit == 6 {
        '6'
    } else if digit == 7 {
        '7'
    } else if digit == 8 {
        '8'
    } else {
        '9'
    }
}

/// A natural number in decimal, without leading zeros.
pub open spec fn decimal_nat(n: nat) -> Seq<char>
    decreases n,
{
    if n < 10 {
        seq![digit_char(n as int)]
    } else {
        decimal_nat(n / 10).push(digit_char((n % 10) as int))
    }
}

/// An integer in decimal, with a minus sign if it is negative.
pub open spec fn decimal(n: int) -> Seq<char> {
    if n < 0 {
        seq!['-'] + decimal_nat((-n) as nat)
    } else {
        decimal_nat(n as nat)
    }
}

/// The text of the timer entry: it offers the opposite of what the timer
/// does now.
pub open spec fn timer_text(timer_started: bool) -> Seq<char> {
    if timer_started {
        "Stop Timer"@
    } else {
        "Start Timer"@
    }
}

/// The text of the sip entry, with today's amount in millilitres.
pub open spec fn sip_text(total_amount: i64) -> Seq<char> {
    "Sip ("@ + decimal(total_amount as int) + "ml today)"@
}

/// The text of the timer entry for the given state of the timer.
pub fn update_timer_menu_item(timer_started: bool) -> (text: &'static str)
    ensures
        text@ == timer_text(timer_started),
{
    if timer_started {
        "Stop Timer"
    } else {
        "Start Timer"
    }
}

/// The text of the sip entry for the given amount taken today.
pub fn update_sip_menu_item(total_amount: i64) -> (text: String)
    ensures
        text@ == sip_text(total_amount),
{
    let mut text = String::from_str("Sip (");
    if total_amount < 0 {
        text.append("-");
        proof {
            reveal_strlit("-");
            assert("-"@ =~= seq!['-']);
        }
        // The magnitude of the smallest i64 does not fit in an i64.
        let magnitude: u64 = if total_amount == i64::MIN {
            0x8000_0000_0000_0000
        } else {
            (-total_amount) as u64
        };
        append_decimal(&mut text, magnitude);
        assert(text@ =~= "Sip ("@ + decimal(total_amount as int));
    } else {
        append_decimal(&mut text, total_amount as u64);
    }
    text.append("ml today)");
    text
}

/// Writes `n` in decimal behind what `text` holds.
fn append_decimal(text: &mut String, n: u64)
    ensures
        final(text)@ == old(text)@ + decimal_nat(n as nat),
    decreases n,
{
    if n >= 10 {
        append_decimal(text, n / 10);
    }
    let ghost so_far = text@;
    text.append(digit_str(n % 10));
    proof {
        if n >= 10 {
            assert(so_far + seq![digit_char((n % 10) as int)] =~= old(text)@ + decimal_nat(
                n as nat,
            ));
        }
    }
}

/// The one-character text of a digit.
fn digit_str(digit: u64) -> (text: &'static str)
    requires
        digit < 10,
    ensures
        text@ == seq![digit_char(digit as int)],
{
    proof {
        reveal_strlit("0");
        reveal_strlit("1");
        reveal_strlit("2");
        reveal_strlit("3");
        reveal_strlit("4");
        reveal_strlit("5");
        reveal_strlit("6");
        reveal_strlit("7");
        reveal_strlit("8");
        reveal_strlit("9");
    }
    let text = if digit == 0 {
        "0"
    } else if digit == 1 {
        "1"
    } else if digit == 2 {
        "2"
    } else if digit == 3 {
        "3"
    } else if digit == 4 {
        "4"
    } else if digit == 5 {
        "5"
    } else if digit == 6 {
        "6"
    } else if digit == 7 {
        "7"
    } else if digit == 8 {
        "8"
    } else {
        "9"
    };
    assert(text@ =~= seq![digit_char(digit as int)]);
    text
}

} // verus!
