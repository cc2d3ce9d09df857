//! Errors of the library: a kind, which the contracts speak of, and a text.
use vstd::prelude::*;
use vstd::string::StringExecFns;

verus! {

/// What went wrong.
#[derive(Debug, Clone, Copy, PartialEq, Eq, Structural)]
pub enum ErrorKind {
    InvalidKeyLength,
    InvalidSeedLength,
    InvalidPrefix,
    CodecFailure,
    ChecksumFailure,
    SignatureError,
    VerifyError,
    ReadError,
    IncorrectKeyType,
    ConnectionError,
    IOError,
}

/// The character of a decimal digit.
pub open spec fn digit_char(d: nat) -> char {
    if d == 0 {
        '0'
    } else if d == 1 {
        '1'
    } else if d == 2 {
        '2'
    } else if d == 3 {
        '3'
    } else if d == 4 {
        '4'
    } else if d == 5 {
        '5'
    } else if d == 6 {
        '6'
    } else if d == 7 {
        '7'
    } else if d == 8 {
        '8'
    } else {
        '9'
    }
}

/// A number in decimal, most significant digit first, without leading
/// zeros: what `Display` writes for an unsigned integer.
pub open spec fn decimal_text(n: nat) -> Seq<char>
    decreases n,
{
    if n < 10 {
        seq![digit_char(n)]
    } else {
        decimal_text(n / 10) + seq![digit_char(n % 10)]
    }
}

/// The text of one decimal digit.
fn digit_str(d: u64) -> (s: &'static str)
    requires
        d < 10,
    ensures
        s@ == seq![digit_char(d as nat)],
{
    proof {
        reveal_strlit("0");
        reveal_strlit("1");
        reveal_strlit("2");
        reveal_strlit("3");
        reveal_strlit("4");
        reveal_strlit("5");
        reveal_strlit("6");
        reveal_strlit("7");
        reveal_strlit("8");
        reveal_strlit("9");
    }
    match d {
        0 => "0",
        1 => "1",
        2 => "2",
        3 => "3",
        4 => "4",
        5 => "5",
        6 => "6",
        7 => "7",
        8 => "8",
        _ => "9",
    }
}

/// Appends a number in decimal to a text.
fn append_decimal(text: &mut String, n: u64)
    ensures
        final(text)@ == old(text)@ + decimal_text(n as nat),
    decreases n,
{
    if n >= 10 {
        append_decimal(text, n / 10);
    }
    text.append(digit_str(n % 10));
    proof {
        assert(text@ =~= old(text)@ + decimal_text(n as nat));
    }
}

/// An error: its kind and an optional description for people.
#[derive(Debug)]
pub struct Error {
    kind: ErrorKind,
    description: Option<String>,
}

/// The results of this library.
pub type Result<T> = std::result::Result<T, Error>;

impl View for Error {
    type V = ErrorKind;

    /// An error is seen through its kind.
    closed spec fn view(&self) -> ErrorKind {
        self.kind
    }
}

impl Error {
    /// Makes an error of the given kind, with a description if one is given.
    pub fn new(kind: ErrorKind, description: Option<&str>) -> (e: Error)
        ensures
            e@ == kind,
            e.description_text() == (match description {
                Some(d) => Some(d@),
                None => None,
            }),
    {
        let description = match description {
            Some(d) => Some(d.to_owned()),
            None => None,
        };
        Error { kind, description }
    }

    /// Makes an error of the given kind whose description is the text, a
    /// colon and the detail.
    pub fn with_detail(kind: ErrorKind, text: &str, detail: &str) -> (e: Error)
        ensures
            e@ == kind,
            e.description_text() == Some(text@ + ": "@ + detail@),
    {
        let mut description = text.to_owned();
        description.append(": ");
        description.append(detail);
        Error { kind, description: Some(description) }
    }

    /// Makes an error of the given kind whose description is the text, a
    /// colon and the value in decimal.
    pub fn with_value(kind: ErrorKind, text: &str, value: u64) -> (e: Error)
        ensures
            e@ == kind,
            e.description_text() == Some(text@ + ": "@ + decimal_text(value as nat)),
    {
        let mut description = text.to_owned();
        description.append(": ");
        append_decimal(&mut description, value);
        proof {
            assert(description@ =~= text@ + ": "@ + decimal_text(value as nat));
        }
        Error { kind, description: Some(description) }
    }

    /// The kind of this error.
    pub fn kind(&self) -> (k: ErrorKind)
        ensures
            k == self@,
    {
        self.kind
    }

    /// The description that this error was made with.
    pub closed spec fn description_text(&self) -> Option<Seq<char>> {
        match self.description {
            Some(d) => Some(d@),
            None => None,
        }
    }

    /// The description of this error, if it has one.
    pub fn description(&self) -> (d: Option<String>)
        ensures
            match d {
                Some(s) => self.description_text() == Some(s@),
                None => self.description_text() is None,
            },
    {
        match &self.description {
            Some(s) => Some(s.clone()),
            None => None,
        }
    }
}

} // verus!
