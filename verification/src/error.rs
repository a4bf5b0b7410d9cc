use crate::point::Point;
use vstd::prelude::*;

verus! {

/// Why a step of the game was refused.
#[derive(Debug, Copy, Clone, PartialEq, Eq)]
pub enum GameError {
    /// The text is not a move command.
    MalformedCommand,
    /// No piece stands on the square that the move starts from.
    EmptySquare(Point<2>),
    /// The piece belongs to another player.
    WrongPlayer,
    /// The destination lies outside the board.
    OutOfBounds,
    /// The piece's kind cannot make a move of this shape.
    IllegalShape,
    /// The occupancy rule refuses the destination.
    OccupiedDestination,
    /// A commit was asked for while no move was staged.
    NoStagedMove,
    /// The turn was to pass to a player who is not in the roster.
    UnknownPlayerId,
    /// The channel holds no input.
    BackendEmpty,
}

/// The numeral of a single decimal digit.
pub open spec fn digit_text(digit: int) -> Seq<char> {
    if digit == 0 {
        "0"@
    } else if digit == 1 {
        "1"@
    } else if digit == 2 {
        "2"@
    } else if digit == 3 {
        "3"@
    } else if digit == 4 {
        "4"@
    } else if digit == 5 {
        "5"@
    } else if digit == 6 {
        "6"@
    } else if digit == 7 {
        "7"@
    } else if digit == 8 {
        "8"@
    } else {
        "9"@
    }
}

/// A natural number in decimal, without leading zeros.
pub open spec fn natural_text(n: nat) -> Seq<char>
    decreases n,
{
    if n < 10 {
        digit_text(n as int)
    } else {
        natural_text(n / 10) + digit_text((n % 10) as int)
    }
}

/// An integer in decimal, with a minus sign where it is negative.
pub open spec fn decimal_text(n: int) -> Seq<char> {
    if n < 0 {
        "-"@ + natural_text((-n) as nat)
    } else {
        natural_text(n as nat)
    }
}

/// Writes a single decimal digit at the end of a text.
fn append_digit(text: &mut String, digit: u64)
    requires
        digit < 10,
    ensures
        final(text)@ == old(text)@ + digit_text(digit as int),
{
    if digit == 0 {
        text.append("0");
    } else if digit == 1 {
        text.append("1");
    } else if digit == 2 {
        text.append("2");
    } else if digit == 3 {
        text.append("3");
    } else if digit == 4 {
        text.append("4");
    } else if digit == 5 {
        text.append("5");
    } else if digit == 6 {
        text.append("6");
    } else if digit == 7 {
        text.append("7");
    } else if digit == 8 {
        text.append("8");
    } else {
        text.append("9");
    }
}

/// Writes a natural number in decimal at the end of a text.
fn append_natural(text: &mut String, n: u64)
    ensures
        final(text)@ == old(text)@ + natural_text(n as nat),
    decreases n,
{
    if n < 10 {
        append_digit(text, n);
    } else {
        append_natural(text, n / 10);
        append_digit(text, n % 10);
        proof {
            assert(old(text)@ + natural_text((n / 10) as nat) + digit_text((n % 10) as int)
                =~= old(text)@ + (natural_text((n / 10) as nat) + digit_text((n % 10) as int)));
        }
    }
}

/// Writes an integer in decimal at the end of a text.
pub fn append_decimal(text: &mut String, n: i32)
    ensures
        final(text)@ == old(text)@ + decimal_text(n as int),
{
    if n < 0 {
        text.append("-");
        let magnitude: i64 = -(n as i64);
        append_natural(text, magnitude as u64);
        proof {
            assert(old(text)@ + "-"@ + natural_text((-n) as nat) =~= old(text)@ + ("-"@
                + natural_text((-n) as nat)));
        }
    } else {
        append_natural(text, n as u64);
    }
}

impl GameError {
    /// Whether the player may simply try again. The two other errors show
    /// that the driver and the rule set disagree, and end the session.
    pub open spec fn recoverable(self) -> bool {
        !(self is NoStagedMove) && !(self is UnknownPlayerId)
    }

    /// Whether the player may simply try again.
    pub fn is_recoverable(&self) -> (yes: bool)
        ensures
            yes == self.recoverable(),
    {
        match self {
            GameError::NoStagedMove => false,
            GameError::UnknownPlayerId => false,
            _ => true,
        }
    }

    /// The words in which a player is told of the error.
    pub open spec fn text(self) -> Seq<char> {
        match self {
            GameError::MalformedCommand => "Not a move"@,
            GameError::EmptySquare(square) => "Square: ("@ + decimal_text(square@[0]) + ", "@
                + decimal_text(square@[1]) + ") is empty"@,
            GameError::WrongPlayer => "Not your figure"@,
            GameError::OutOfBounds => "Position is out of Bounds"@,
            GameError::IllegalShape => "Invalid Move"@,
            GameError::OccupiedDestination => "Already Occupied"@,
            GameError::NoStagedMove => "No move is staged"@,
            GameError::UnknownPlayerId => "Unknown player"@,
            GameError::BackendEmpty => "Empty"@,
        }
    }

    /// The words in which a player is told of the error.
    pub fn message(&self) -> (text: String)
        ensures
            text@ == self.text(),
    {
        match self {
            GameError::MalformedCommand => String::from_str("Not a move"),
            GameError::EmptySquare(square) => {
                let mut text = String::from_str("Square: (");
                append_decimal(&mut text, square.get(0));
                text.append(", ");
                append_decimal(&mut text, square.get(1));
                text.append(") is empty");
                text
            },
            GameError::WrongPlayer => String::from_str("Not your figure"),
            GameError::OutOfBounds => String::from_str("Position is out of Bounds"),
            GameError::IllegalShape => String::from_str("Invalid Move"),
            GameError::OccupiedDestination => String::from_str("Already Occupied"),
            GameError::NoStagedMove => String::from_str("No move is staged"),
            GameError::UnknownPlayerId => String::from_str("Unknown player"),
            GameError::BackendEmpty => String::from_str("Empty"),
        }
    }
}

} // verus!
