//! Colours and the escape-code parameters that select them.

use vstd::prelude::*;
use vstd::string::*;

use crate::decimal::{dec, push_decimal};

verus! {

/// A terminal colour: one of the eight basic colours, an entry of the
/// 256-colour palette, or a 24-bit true colour.
#[derive(Clone, Copy, Debug, PartialEq, Eq, Structural)]
pub enum Colour {
    Black,
    Red,
    Green,
    Yellow,
    Blue,
    Purple,
    Cyan,
    White,
    /// An entry of the 256-colour palette.
    Fixed(u8),
    /// A true colour, by its red, green and blue components.
    RGB(u8, u8, u8),
}

/// Whether `c` is one of the eight basic colours.
pub open spec fn is_basic(c: Colour) -> bool {
    !(c is Fixed || c is RGB)
}

/// The parameters that follow the `38;` or `48;` of a palette or true colour:
/// `5;n` for palette entry `n`, `2;r;g;b` for a true colour.
pub open spec fn extended_params(c: Colour) -> Seq<char> {
    match c {
        Colour::Fixed(n) => seq!['5', ';'] + dec(n as nat),
        Colour::RGB(r, g, b) => seq!['2', ';'] + dec(r as nat) + seq![';'] + dec(g as nat)
            + seq![';'] + dec(b as nat),
        _ => seq![],
    }
}

/// The code that sets `c` as the foreground colour.
pub open spec fn fg_code(c: Colour) -> Seq<char> {
    match c {
        Colour::Black => seq!['3', '0'],
        Colour::Red => seq!['3', '1'],
        Colour::Green => seq!['3', '2'],
        Colour::Yellow => seq!['3', '3'],
        Colour::Blue => seq!['3', '4'],
        Colour::Purple => seq!['3', '5'],
        Colour::Cyan => seq!['3', '6'],
        Colour::White => seq!['3', '7'],
        _ => seq!['3', '8', ';'] + extended_params(c),
    }
}

/// The code that sets `c` as the background colour.
pub open spec fn bg_code(c: Colour) -> Seq<char> {
    match c {
        Colour::Black => seq!['4', '0'],
        Colour::Red => seq!['4', '1'],
        Colour::Green => seq!['4', '2'],
        Colour::Yellow => seq!['4', '3'],
        Colour::Blue => seq!['4', '4'],
        Colour::Purple => seq!['4', '5'],
        Colour::Cyan => seq!['4', '6'],
        Colour::White => seq!['4', '7'],
        _ => seq!['4', '8', ';'] + extended_params(c),
    }
}

/// Appends `5;n` or `2;r;g;b` for a palette or true colour; nothing otherwise.
fn write_extended_params(c: Colour, f: &mut String)
    ensures
        final(f)@ == old(f)@ + extended_params(c),
{
    proof {
        reveal_strlit("5;");
        reveal_strlit("2;");
        reveal_strlit(";");
    }
    let ghost start = f@;
    match c {
        Colour::Fixed(n) => {
            f.append("5;");
            push_decimal(f, n);
            assert(f@ =~= start + extended_params(c));
        },
        Colour::RGB(r, g, b) => {
            f.append("2;");
            push_decimal(f, r);
            f.append(";");
            push_decimal(f, g);
            f.append(";");
            push_decimal(f, b);
            assert(f@ =~= start + extended_params(c));
        },
        _ => {
            assert(f@ =~= start + extended_params(c));
        },
    }
}

impl Colour {
    /// Appends the code that sets this colour as the foreground.
    pub fn write_foreground_code(self, f: &mut String)
        ensures
            final(f)@ == old(f)@ + fg_code(self),
    {
        proof {
            reveal_strlit("30");
            reveal_strlit("31");
            reveal_strlit("32");
            reveal_strlit("33");
            reveal_strlit("34");
            reveal_strlit("35");
            reveal_strlit("36");
            reveal_strlit("37");
            reveal_strlit("38;");
        }
        let ghost start = f@;
        match self {
            Colour::Black => f.append("30"),
            Colour::Red => f.append("31"),
            Colour::Green => f.append("32"),
            Colour::Yellow => f.append("33"),
            Colour::Blue => f.append("34"),
            Colour::Purple => f.append("35"),
            Colour::Cyan => f.append("36"),
            Colour::White => f.append("37"),
            _ => {
                f.append("38;");
                write_extended_params(self, f);
            },
        }
        assert(f@ =~= start + fg_code(self));
    }

    /// Appends the code that sets this colour as the background.
    pub fn write_background_code(self, f: &mut String)
        ensures
            final(f)@ == old(f)@ + bg_code(self),
    {
        proof {
            reveal_strlit("40");
            reveal_strlit("41");
            reveal_strlit("42");
            reveal_strlit("43");
            reveal_strlit("44");
            reveal_strlit("45");
            reveal_strlit("46");
            reveal_strlit("47");
            reveal_strlit("48;");
        }
        let ghost start = f@;
        match self {
            Colour::Black => f.append("40"),
            Colour::Red => f.append("41"),
            Colour::Green => f.append("42"),
            Colour::Yellow => f.append("43"),
            Colour::Blue => f.append("44"),
            Colour::Purple => f.append("45"),
            Colour::Cyan => f.append("46"),
            Colour::White => f.append("47"),
            _ => {
                f.append("48;");
                write_extended_params(self, f);
            },
        }
        assert(f@ =~= start + bg_code(self));
    }
}

} // verus!
