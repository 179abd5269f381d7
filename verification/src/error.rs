//! The ways in which a move on a pole is refused, and how each reads.

use vstd::prelude::*;

verus! {

/// Why a pole refused an operation. Both kinds are faults of the caller's
/// logic; the pole is left as it was.
#[derive(Debug, Clone, Copy, PartialEq, Eq, Structural)]
pub enum PoleError {
    /// The disk `large` was to be placed on the smaller disk `small`.
    PlaceOnSmallerDisk { large: u8, small: u8 },
    /// A disk was to be taken from a pole that holds none.
    RemoveFromEmpty,
}

/// The character that writes the digit `d`; `'0'` stands for anything that
/// is no digit.
pub open spec fn digit_char(d: nat) -> char {
    if d == 1 {
        '1'
    } else if d == 2 {
        '2'
    } else if d == 3 {
        '3'
    } else if d == 4 {
        '4'
    } else if d == 5 {
        '5'
    } else if d == 6 {
        '6'
    } else if d == 7 {
        '7'
    } else if d == 8 {
        '8'
    } else if d == 9 {
        '9'
    } else {
        '0'
    }
}

/// The number `n` written in decimal, without leading zeros.
pub open spec fn decimal(n: nat) -> Seq<char>
    decreases n,
{
    if n < 10 {
        seq![digit_char(n)]
    } else {
        decimal(n / 10).push(digit_char(n % 10))
    }
}

impl PoleError {
    /// The sentence that tells a person what went wrong.
    pub open spec fn message_text(self) -> Seq<char> {
        match self {
            PoleError::PlaceOnSmallerDisk { large, small } => {
                "cannot place disk "@ + decimal(large as nat) + " on disk "@ + decimal(
                    small as nat,
                )
            },
            PoleError::RemoveFromEmpty => "cannot remove from empty pole"@,
        }
    }

    /// Writes the error out for a person: for a refused placement
    /// `cannot place disk L on disk S` with both ranks in decimal, for an
    /// empty pole `cannot remove from empty pole`.
    pub fn message(&self) -> (text: String)
        ensures
            text@ == self.message_text(),
    {
        match self {
            PoleError::PlaceOnSmallerDisk { large, small } => {
                let mut text = String::from_str("cannot place disk ");
                append_decimal(&mut text, *large);
                text.append(" on disk ");
                append_decimal(&mut text, *small);
                text
            },
            PoleError::RemoveFromEmpty => String::from_str("cannot remove from empty pole"),
        }
    }
}

/// The one-character text of the digit `d`.
fn digit_text(d: u8) -> (text: &'static str)
    requires
        d < 10,
    ensures
        text@ == seq![digit_char(d as nat)],
{
    proof {
        reveal_strlit("0");
        reveal_strlit("1");
        reveal_strlit("2");
        reveal_strlit("3");
        reveal_strlit("4");
        reveal_strlit("5");
        reveal_strlit("6");
        reveal_strlit("7");
        reveal_strlit("8");
        reveal_strlit("9");
    }
    let text = match d {
        0 => "0",
        1 => "1",
        2 => "2",
        3 => "3",
        4 => "4",
        5 => "5",
        6 => "6",
        7 => "7",
        8 => "8",
        _ => "9",
    };
    assert(text@ =~= seq![digit_char(d as nat)]);
    text
}

/// Appends `n` in decimal to `text`.
fn append_decimal(text: &mut String, n: u8)
    ensures
        final(text)@ == old(text)@ + decimal(n as nat),
{
    proof {
        reveal_with_fuel(decimal, 3);
    }
    if n >= 100 {
        text.append(digit_text(n / 100));
    }
    if n >= 10 {
        text.append(digit_text((n / 10) % 10));
    }
    text.append(digit_text(n % 10));
    assert(text@ =~= old(text)@ + decimal(n as nat));
}

} // verus!
