//! Failures of a request, and the error value that describes one.

use vstd::prelude::*;
use vstd::string::*;

verus! {

/// Why a request has no value to return.
#[derive(Clone, Copy, Debug, PartialEq, Eq, Structural)]
pub enum Failure {
    /// The operation name is not one the plugin serves.
    UnknownFunction,
    /// No resolver is loaded under the key.
    NoResolver,
    /// The resolver has no table for the alternate variant.
    NoBaseFTable,
    /// The resolver has no override table.
    NoUserTable,
    /// The table index names none of a resolver's three tables.
    InvalidTableIndex,
    /// The value does not fit the integer type of the reply.
    OutOfRange,
    /// The plugin does not serve this kind of request.
    Unimplemented,
}

/// An error with its description.
#[derive(Debug, Clone)]
pub struct NWNXError {
    msg: String,
}

impl View for NWNXError {
    type V = Seq<char>;

    /// The description.
    closed spec fn view(&self) -> Seq<char> {
        self.msg@
    }
}

impl NWNXError {
    /// An error described by `msg`.
    pub fn new(msg: String) -> (e: Self)
        ensures
            e@ == msg@,
    {
        NWNXError { msg }
    }

    /// The description, as it was given.
    pub fn description(&self) -> (msg: &str)
        ensures
            msg@ == self@,
    {
        self.msg.as_str()
    }

    /// The text to show for this error: the description behind `Error: `.
    pub fn message(&self) -> (text: String)
        ensures
            text@ == "Error: "@ + self@,
    {
        let head = String::from_str("Error: ");
        head.concat(self.msg.as_str())
    }
}

/// The text of one decimal digit.
pub open spec fn digit_text(d: int) -> Seq<char> {
    if d == 0 {
        "0"@
    } else if d == 1 {
        "1"@
    } else if d == 2 {
        "2"@
    } else if d == 3 {
        "3"@
    } else if d == 4 {
        "4"@
    } else if d == 5 {
        "5"@
    } else if d == 6 {
        "6"@
    } else if d == 7 {
        "7"@
    } else if d == 8 {
        "8"@
    } else {
        "9"@
    }
}

/// The decimal digits of a natural number, without leading zeros.
pub open spec fn digits_text(n: nat) -> Seq<char>
    decreases n,
{
    if n < 10 {
        digit_text(n as int)
    } else {
        digits_text(n / 10) + digit_text((n % 10) as int)
    }
}

/// An integer in decimal, with a minus sign in front where it is negative.
pub open spec fn decimal_text(n: int) -> Seq<char> {
    if n < 0 {
        "-"@ + digits_text((-n) as nat)
    } else {
        digits_text(n as nat)
    }
}

fn digit(d: u64) -> (text: &'static str)
    requires
        d < 10,
    ensures
        text@ == digit_text(d as int),
{
    if d == 0 {
        "0"
    } else if d == 1 {
        "1"
    } else if d == 2 {
        "2"
    } else if d == 3 {
        "3"
    } else if d == 4 {
        "4"
    } else if d == 5 {
        "5"
    } else if d == 6 {
        "6"
    } else if d == 7 {
        "7"
    } else if d == 8 {
        "8"
    } else {
        "9"
    }
}

fn digits(n: u64) -> (text: String)
    ensures
        text@ == digits_text(n as nat),
    decreases n,
{
    if n < 10 {
        String::from_str(digit(n))
    } else {
        digits(n / 10).concat(digit(n % 10))
    }
}

/// Writes an integer in decimal.
pub fn decimal(n: i32) -> (text: String)
    ensures
        text@ == decimal_text(n as int),
{
    if n < 0 {
        let wide: i64 = -(n as i64);
        let tail = digits(wide as u64);
        String::from_str("-").concat(tail.as_str())
    } else {
        digits(n as u64)
    }
}

impl Failure {
    /// The description of a failure of the request `function`, `param1`,
    /// `param2`. It names what the request got wrong: the function that is
    /// not known, the key under which no resolver or table was found, or
    /// the table index that names no table.
    pub open spec fn text(self, function: Seq<char>, param1: Seq<char>, param2: i32) -> Seq<char> {
        match self {
            Failure::UnknownFunction => "Unknown function: "@ + function,
            Failure::NoResolver => "No resolver with key: "@ + param1,
            Failure::NoBaseFTable => "No base_f TLK for resolver "@ + param1,
            Failure::NoUserTable => "No user TLK for resolver "@ + param1,
            Failure::InvalidTableIndex => "Invalid tlk index: "@ + decimal_text(param2 as int),
            Failure::OutOfRange => "out of range integral type conversion attempted"@,
            Failure::Unimplemented => "Function is not implemented in CPlugin trait"@,
        }
    }

    /// The error that describes this failure of the request `function`,
    /// `param1`, `param2`.
    pub fn error(&self, function: &str, param1: &str, param2: i32) -> (e: NWNXError)
        ensures
            e@ == self.text(function@, param1@, param2),
    {
        let msg = match self {
            Failure::UnknownFunction => String::from_str("Unknown function: ").concat(function),
            Failure::NoResolver => String::from_str("No resolver with key: ").concat(param1),
            Failure::NoBaseFTable => String::from_str("No base_f TLK for resolver ").concat(param1),
            Failure::NoUserTable => String::from_str("No user TLK for resolver ").concat(param1),
            Failure::InvalidTableIndex => {
                let index = decimal(param2);
                String::from_str("Invalid tlk index: ").concat(index.as_str())
            },
            Failure::OutOfRange => String::from_str(
                "out of range integral type conversion attempted",
            ),
            Failure::Unimplemented => String::from_str(
                "Function is not implemented in CPlugin trait",
            ),
        };
        NWNXError::new(msg)
    }
}

} // verus!
