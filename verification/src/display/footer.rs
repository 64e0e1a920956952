use vstd::prelude::*;
use crate::display::formatter::{colored_text, spec_colored};
use crate::models::AnsiColor;
use crate::text::{concat2, digit_char, push_char};

verus! {

/// A number below 100 as two decimal digits.
pub open spec fn two_digits(n: nat) -> Seq<char> {
    seq![digit_char(n / 10), digit_char(n % 10)]
}

/// A time of day as `HH:MM:SS`.
pub open spec fn spec_clock(hour: u8, minute: u8, second: u8) -> Seq<char> {
    two_digits(hour as nat) + ":"@ + two_digits(minute as nat) + ":"@ + two_digits(second as nat)
}

fn push_two_digits(s: &mut String, n: u8)
    requires
        n < 100,
    ensures
        final(s)@ == old(s)@ + two_digits(n as nat),
{
    push_char(s, ((n / 10) + 48u8) as char);
    push_char(s, ((n % 10) + 48u8) as char);
    assert(final(s)@ =~= old(s)@ + two_digits(n as nat));
}

pub open spec fn spec_format_footer(hour: u8, minute: u8, second: u8, use_colors: bool) -> Seq<char> {
    let time = spec_clock(hour, minute, second);
    if use_colors {
        spec_colored("[q]"@, AnsiColor::BrightBlack) + " quit  "@ + spec_colored("[r]"@, AnsiColor::BrightBlack)
            + " refresh  "@ + spec_colored("•  last update:"@, AnsiColor::BrightBlack) + " "@ + time
    } else {
        "[q] quit  [r] refresh  •  last update: "@ + time
    }
}

/// A time of day as `HH:MM:SS`.
fn format_clock(hour: u8, minute: u8, second: u8) -> (r: String)
    requires
        hour < 100,
        minute < 100,
        second < 100,
    ensures
        r@ == spec_clock(hour, minute, second),
{
    let mut r = String::new();
    push_two_digits(&mut r, hour);
    r.append(":");
    push_two_digits(&mut r, minute);
    r.append(":");
    push_two_digits(&mut r, second);
    r
}

/// The footer of the live screen: the keys it answers and the time of the
/// last update.
pub fn format_footer(hour: u8, minute: u8, second: u8, use_colors: bool) -> (r: String)
    requires
        hour < 100,
        minute < 100,
        second < 100,
    ensures
        r@ == spec_format_footer(hour, minute, second, use_colors),
{
    let time = format_clock(hour, minute, second);
    if use_colors {
        let mut r = colored_text("[q]", AnsiColor::BrightBlack);
        r.append(" quit  ");
        let q = colored_text("[r]", AnsiColor::BrightBlack);
        r.append(q.as_str());
        r.append(" refresh  ");
        let l = colored_text("•  last update:", AnsiColor::BrightBlack);
        r.append(l.as_str());
        r.append(" ");
        r.append(time.as_str());
        r
    } else {
        concat2("[q] quit  [r] refresh  •  last update: ", time.as_str())
    }
}

} // verus!
