//! The user-visible text of a conversion failure: the reason, prefixed with
//! `Line {row}, Column {col}: ` when a position was attached.

use vstd::prelude::*;
use crate::conversion::{
    ConversionError, PositionalConversionError, SpecConversionError, SpecPositionalConversionError,
};
use vstd::string::StringExecFns;

verus! {

/// The character of one decimal digit.
pub open spec fn spec_digit_char(d: int) -> char {
    if d == 0 {
        '0'
    } else if d == 1 {
        '1'
    } else if d == 2 {
        '2'
    } else if d == 3 {
        '3'
    } else if d == 4 {
        '4'
    } else if d == 5 {
        '5'
    } else if d == 6 {
        '6'
    } else if d == 7 {
        '7'
    } else if d == 8 {
        '8'
    } else {
        '9'
    }
}

/// The decimal text of a number, most significant digit first, with no
/// leading zeroes (zero itself prints as one digit).
pub open spec fn spec_decimal(n: nat) -> Seq<char>
    decreases n,
{
    if n < 10 {
        seq![spec_digit_char(n as int)]
    } else {
        spec_decimal(n / 10) + seq![spec_digit_char((n % 10) as int)]
    }
}

/// One decimal digit as text.
fn digit_string(d: u64) -> (s: String)
    requires
        d < 10,
    ensures
        s@ == seq![spec_digit_char(d as int)],
{
    let s: String = if d == 0 {
        "0".to_owned()
    } else if d == 1 {
        "1".to_owned()
    } else if d == 2 {
        "2".to_owned()
    } else if d == 3 {
        "3".to_owned()
    } else if d == 4 {
        "4".to_owned()
    } else if d == 5 {
        "5".to_owned()
    } else if d == 6 {
        "6".to_owned()
    } else if d == 7 {
        "7".to_owned()
    } else if d == 8 {
        "8".to_owned()
    } else {
        "9".to_owned()
    };
    proof {
        reveal_strlit("0");
        reveal_strlit("1");
        reveal_strlit("2");
        reveal_strlit("3");
        reveal_strlit("4");
        reveal_strlit("5");
        reveal_strlit("6");
        reveal_strlit("7");
        reveal_strlit("8");
        reveal_strlit("9");
        assert(s@ =~= seq![spec_digit_char(d as int)]);
    }
    s
}

/// A number as decimal text.
pub fn u64_decimal(n: u64) -> (s: String)
    ensures
        s@ == spec_decimal(n as nat),
    decreases n,
{
    if n < 10 {
        digit_string(n)
    } else {
        let mut s = u64_decimal(n / 10);
        let d = digit_string(n % 10);
        s.append(d.as_str());
        proof {
            assert(s@ =~= spec_decimal((n / 10) as nat) + seq![
                spec_digit_char((n % 10) as int),
            ]);
        }
        s
    }
}

/// The reason text of each failure kind.
pub open spec fn spec_reason_text(e: SpecConversionError) -> Seq<char> {
    match e {
        SpecConversionError::InvalidPrimitive(name) => {
            "Expected a primitive type like int or bool, found "@ + name
        },
        SpecConversionError::InvalidParameterized(name, inner) => {
            "Expected a parameterized type like ptr, found "@ + name + "<"@ + inner + ">"@
        },
        SpecConversionError::InvalidValueOps(name) => "Expected an value operation, found "@
            + name,
        SpecConversionError::InvalidEffectOps(name) => "Expected an effect operation, found "@
            + name,
        SpecConversionError::MissingType => "Missing type signature"@,
    }
}

/// The full text of a positioned failure: positions are attached only while
/// position tracking is enabled, so a present position is always printed.
pub open spec fn spec_positional_text(p: SpecPositionalConversionError) -> Seq<char> {
    match p.pos {
        Some(position) => "Line "@ + spec_decimal(position.row as nat) + ", Column "@
            + spec_decimal(position.col as nat) + ": "@ + spec_reason_text(p.e),
        None => spec_reason_text(p.e),
    }
}

impl ConversionError {
    /// The user-visible reason text.
    pub fn message(&self) -> (s: String)
        ensures
            s@ == spec_reason_text(self@),
    {
        match self {
            ConversionError::InvalidPrimitive(name) => {
                let mut s: String = "Expected a primitive type like int or bool, found "
                    .to_owned();
                s.append(name.as_str());
                s
            },
            ConversionError::InvalidParameterized(name, inner) => {
                let mut s: String = "Expected a parameterized type like ptr, found ".to_owned();
                s.append(name.as_str());
                s.append("<");
                s.append(inner.as_str());
                s.append(">");
                proof {
                    assert(s@ =~= "Expected a parameterized type like ptr, found "@ + name@ + "<"@
                        + inner@ + ">"@);
                }
                s
            },
            ConversionError::InvalidValueOps(name) => {
                let mut s: String = "Expected an value operation, found ".to_owned();
                s.append(name.as_str());
                s
            },
            ConversionError::InvalidEffectOps(name) => {
                let mut s: String = "Expected an effect operation, found ".to_owned();
                s.append(name.as_str());
                s
            },
            ConversionError::MissingType => "Missing type signature".to_owned(),
        }
    }
}

impl PositionalConversionError {
    /// The user-visible diagnostic text: `Line {row}, Column {col}: {reason}`
    /// when a position is present, the bare reason text otherwise.
    pub fn message(&self) -> (s: String)
        ensures
            s@ == spec_positional_text(self@),
    {
        match &self.pos {
            Some(position) => {
                let mut s: String = "Line ".to_owned();
                let row_text = u64_decimal(position.row);
                s.append(row_text.as_str());
                s.append(", Column ");
                let col_text = u64_decimal(position.col);
                s.append(col_text.as_str());
                s.append(": ");
                let reason = self.e.message();
                s.append(reason.as_str());
                proof {
                    assert(s@ =~= "Line "@ + spec_decimal(position.row as nat) + ", Column "@
                        + spec_decimal(position.col as nat) + ": "@ + spec_reason_text(self.e@));
                }
                s
            },
            None => self.e.message(),
        }
    }
}

} // verus!
