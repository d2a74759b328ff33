//! Presentation: the success sentence and the error messages, as plain
//! strings. Colouring and printing happen outside the library.

use vstd::prelude::*;
use vstd::string::StringExecFns;
use crate::model::{ExchangeRate, FetchError};

verus! {

/// The character for one decimal digit.
pub open spec fn spec_digit(d: int) -> char {
    if d == 0 {
        '0'
    } else if d == 1 {
        '1'
    } else if d == 2 {
        '2'
    } else if d == 3 {
        '3'
    } else if d == 4 {
        '4'
    } else if d == 5 {
        '5'
    } else if d == 6 {
        '6'
    } else if d == 7 {
        '7'
    } else if d == 8 {
        '8'
    } else {
        '9'
    }
}

/// The decimal digits of `n`, most significant first, no sign and no
/// leading zero (a single zero for `n == 0`).
pub open spec fn spec_decimal(n: int) -> Seq<char>
    decreases n,
{
    if n < 10 {
        seq![spec_digit(n)]
    } else {
        spec_decimal(n / 10) + seq![spec_digit(n % 10)]
    }
}

fn digit_str(d: u16) -> (r: &'static str)
    requires
        d < 10,
    ensures
        r@ == seq![spec_digit(d as int)],
{
    if d == 0 {
        proof {
            reveal_strlit("0");
            assert("0"@ =~= seq![spec_digit(0int)]);
        }
        "0"
    } else if d == 1 {
        proof {
            reveal_strlit("1");
            assert("1"@ =~= seq![spec_digit(1int)]);
        }
        "1"
    } else if d == 2 {
        proof {
            reveal_strlit("2");
            assert("2"@ =~= seq![spec_digit(2int)]);
        }
        "2"
    } else if d == 3 {
        proof {
            reveal_strlit("3");
            assert("3"@ =~= seq![spec_digit(3int)]);
        }
        "3"
    } else if d == 4 {
        proof {
            reveal_strlit("4");
            assert("4"@ =~= seq![spec_digit(4int)]);
        }
        "4"
    } else if d == 5 {
        proof {
            reveal_strlit("5");
            assert("5"@ =~= seq![spec_digit(5int)]);
        }
        "5"
    } else if d == 6 {
        proof {
            reveal_strlit("6");
            assert("6"@ =~= seq![spec_digit(6int)]);
        }
        "6"
    } else if d == 7 {
        proof {
            reveal_strlit("7");
            assert("7"@ =~= seq![spec_digit(7int)]);
        }
        "7"
    } else if d == 8 {
        proof {
            reveal_strlit("8");
            assert("8"@ =~= seq![spec_digit(8int)]);
        }
        "8"
    } else {
        proof {
            reveal_strlit("9");
            assert("9"@ =~= seq![spec_digit(9int)]);
        }
        "9"
    }
}

/// Render a status code as its decimal digits.
pub fn u16_decimal(n: u16) -> (r: String)
    ensures
        r@ == spec_decimal(n as int),
    decreases n,
{
    if n < 10 {
        String::from_str(digit_str(n))
    } else {
        let mut s = u16_decimal(n / 10);
        s.append(digit_str(n % 10));
        s
    }
}

/// The sentence printed for a successful fetch.
pub open spec fn spec_sentence(e: ExchangeRate) -> Seq<char> {
    "At the time "@ + e.observed_at@ + " the price of "@ + e.base_asset@ + " in "@
        + e.quote_asset@ + " was "@ + e.rate@
}

/// The message shown for each error kind; the status error carries the
/// code's decimal digits.
pub open spec fn spec_message(e: FetchError) -> Seq<char> {
    match e {
        FetchError::UpstreamStatus(code) => "response from Coin API returned HTTP error code: "@
            + spec_decimal(code as int),
        FetchError::FetchFailure => "error fetching data from Coin API"@,
    }
}

impl ExchangeRate {
    /// The human-readable success sentence for this record.
    pub fn sentence(&self) -> (r: String)
        ensures
            r@ == spec_sentence(*self),
    {
        let mut s = String::from_str("At the time ");
        s.append(self.observed_at.as_str());
        s.append(" the price of ");
        s.append(self.base_asset.as_str());
        s.append(" in ");
        s.append(self.quote_asset.as_str());
        s.append(" was ");
        s.append(self.rate.as_str());
        s
    }
}

impl FetchError {
    /// The human-readable message for this error.
    pub fn message(&self) -> (r: String)
        ensures
            r@ == spec_message(*self),
    {
        match self {
            FetchError::UpstreamStatus(code) => {
                let mut s = String::from_str("response from Coin API returned HTTP error code: ");
                let digits = u16_decimal(*code);
                s.append(digits.as_str());
                s
            },
            FetchError::FetchFailure => String::from_str("error fetching data from Coin API"),
        }
    }
}

} // verus!
