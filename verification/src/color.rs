//! The color model: hue, saturation and lightness, rendered to the CSS
//! `hsl(H, S%, L%)` syntax that the drawing surface understands.
//!
//! Saturation and lightness are stored in per-mille (thousandths), so that
//! one decimal place of the percentage can be rendered exactly.

use vstd::prelude::*;
use vstd::string::StringExecFns;

verus! {

/// The decimal digit character for a value below ten.
pub open spec fn digit_char(d: int) -> char {
    if d == 0 {
        '0'
    } else if d == 1 {
        '1'
    } else if d == 2 {
        '2'
    } else if d == 3 {
        '3'
    } else if d == 4 {
        '4'
    } else if d == 5 {
        '5'
    } else if d == 6 {
        '6'
    } else if d == 7 {
        '7'
    } else if d == 8 {
        '8'
    } else {
        '9'
    }
}

/// The decimal digits of a non-negative number, most significant first.
pub open spec fn spec_decimal(n: int) -> Seq<char>
    decreases n,
{
    if n < 10 {
        seq![digit_char(n)]
    } else {
        spec_decimal(n / 10).push(digit_char(n % 10))
    }
}

/// A per-mille value rendered as a percentage: the whole percent digits,
/// then one decimal place only when it is not zero.
pub open spec fn spec_permille_percent(pm: int) -> Seq<char> {
    if pm % 10 == 0 {
        spec_decimal(pm / 10)
    } else {
        spec_decimal(pm / 10).push('.').push(digit_char(pm % 10))
    }
}

/// The CSS color string for a hue in degrees and per-mille saturation and
/// lightness.
pub open spec fn spec_css(hue: int, saturation: int, lightness: int) -> Seq<char> {
    "hsl("@ + spec_decimal(hue) + ", "@ + spec_permille_percent(saturation) + "%, "@
        + spec_permille_percent(lightness) + "%)"@
}

/// A drawable color: hue in degrees, saturation and lightness in
/// per-mille of full.
#[derive(Clone, Copy, PartialEq, Eq, Structural, Debug)]
pub struct HSL(pub u8, pub u16, pub u16);

/// The one-character string for a decimal digit.
fn digit_str(d: u64) -> (r: &'static str)
    requires
        d < 10,
    ensures
        r@ == seq![digit_char(d as int)],
{
    let r: &'static str = if d == 0 {
        "0"
    } else if d == 1 {
        "1"
    } else if d == 2 {
        "2"
    } else if d == 3 {
        "3"
    } else if d == 4 {
        "4"
    } else if d == 5 {
        "5"
    } else if d == 6 {
        "6"
    } else if d == 7 {
        "7"
    } else if d == 8 {
        "8"
    } else {
        "9"
    };
    proof {
        reveal_strlit("0");
        reveal_strlit("1");
        reveal_strlit("2");
        reveal_strlit("3");
        reveal_strlit("4");
        reveal_strlit("5");
        reveal_strlit("6");
        reveal_strlit("7");
        reveal_strlit("8");
        reveal_strlit("9");
        assert(r@ =~= seq![digit_char(d as int)]);
    }
    r
}

/// Append the decimal digits of `n` to `s`.
fn push_decimal(s: &mut String, n: u64)
    ensures
        final(s)@ == old(s)@ + spec_decimal(n as int),
    decreases n,
{
    if n < 10 {
        s.append(digit_str(n));
        proof {
            assert(final(s)@ =~= old(s)@ + spec_decimal(n as int));
        }
    } else {
        push_decimal(s, n / 10);
        s.append(digit_str(n % 10));
        proof {
            assert(final(s)@ =~= old(s)@ + spec_decimal(n as int));
        }
    }
}

/// Append a per-mille value rendered as a percentage to `s`.
fn push_permille_percent(s: &mut String, pm: u16)
    ensures
        final(s)@ == old(s)@ + spec_permille_percent(pm as int),
{
    let whole: u16 = pm / 10;
    let frac: u16 = pm % 10;
    push_decimal(s, whole as u64);
    if frac != 0 {
        s.append(".");
        s.append(digit_str(frac as u64));
        proof {
            reveal_strlit(".");
            assert(final(s)@ =~= old(s)@ + spec_permille_percent(pm as int));
        }
    }
}

impl HSL {
    /// Construct a color from a hue in degrees and per-mille saturation
    /// and lightness. Values are not range-checked: out-of-range inputs
    /// are rendered as given and left to the drawing surface.
    pub fn new(hue: u8, saturation: u16, lightness: u16) -> (r: Self)
        ensures
            r.0 == hue,
            r.1 == saturation,
            r.2 == lightness,
    {
        HSL(hue, saturation, lightness)
    }

    /// The CSS `hsl(H, S%, L%)` string for this color.
    pub fn as_str(&self) -> (r: String)
        ensures
            r@ == spec_css(self.0 as int, self.1 as int, self.2 as int),
    {
        let mut s: String = String::from_str("hsl(");
        push_decimal(&mut s, self.0 as u64);
        s.append(", ");
        push_permille_percent(&mut s, self.1);
        s.append("%, ");
        push_permille_percent(&mut s, self.2);
        s.append("%)");
        proof {
            assert(s@ =~= spec_css(self.0 as int, self.1 as int, self.2 as int));
        }
        s
    }
}

} // verus!
