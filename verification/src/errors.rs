//! Error taxonomy of the client.
//!
//! Per-call failures fall into three groups: the credential machinery
//! failed (`CredentialsError`), the transport failed, or the connection
//! was configured with an unusable target.

use vstd::prelude::*;
use vstd::string::StringExecFns;

verus! {

/// A failure of the credential machinery itself, distinct from a plain
/// transport failure.
#[derive(Debug, Clone, PartialEq, Eq)]
pub enum CredentialsError {
    /// The token issuer answered the authenticate or refresh call with a
    /// non-zero status: the presented secret or refresh token was not
    /// accepted.
    AuthenticationFailure { status: i32 },
    /// The issuer's reply could not be interpreted as an issued token at
    /// all: a contract mismatch between client and server rather than a
    /// bad credential.
    ProtocolFailure,
}

/// Any failure surfaced to the caller of a wrapped call.
#[derive(Debug, Clone, PartialEq, Eq)]
pub enum Error {
    /// Authenticating or refreshing went wrong; the call was not forwarded.
    Credentials(CredentialsError),
    /// The underlying channel failed; passed through unchanged.
    Transport(String),
    /// The connection was constructed against a malformed target.
    Configuration(String),
}

/// Mathematical model of a [`CredentialsError`].
pub enum CredentialsErrorView {
    AuthenticationFailure { status: int },
    ProtocolFailure,
}

/// Mathematical model of an [`Error`].
pub enum ErrorView {
    Credentials(CredentialsErrorView),
    Transport(Seq<char>),
    Configuration(Seq<char>),
}

impl View for CredentialsError {
    type V = CredentialsErrorView;

    open spec fn view(&self) -> CredentialsErrorView {
        match self {
            CredentialsError::AuthenticationFailure { status } => {
                CredentialsErrorView::AuthenticationFailure { status: status as int }
            },
            CredentialsError::ProtocolFailure => CredentialsErrorView::ProtocolFailure,
        }
    }
}

impl View for Error {
    type V = ErrorView;

    open spec fn view(&self) -> ErrorView {
        match self {
            Error::Credentials(e) => ErrorView::Credentials(e@),
            Error::Transport(msg) => ErrorView::Transport(msg@),
            Error::Configuration(msg) => ErrorView::Configuration(msg@),
        }
    }
}

/// The decimal digit characters of a non-negative number.
pub open spec fn spec_digits(n: int) -> Seq<char>
    recommends
        n >= 0,
    decreases n,
{
    if n < 10 {
        seq![digit_char(n)]
    } else {
        spec_digits(n / 10) + seq![digit_char(n % 10)]
    }
}

/// The character of one decimal digit.
pub open spec fn digit_char(d: int) -> char
    recommends
        0 <= d < 10,
{
    if d == 0 {
        '0'
    } else if d == 1 {
        '1'
    } else if d == 2 {
        '2'
    } else if d == 3 {
        '3'
    } else if d == 4 {
        '4'
    } else if d == 5 {
        '5'
    } else if d == 6 {
        '6'
    } else if d == 7 {
        '7'
    } else if d == 8 {
        '8'
    } else {
        '9'
    }
}

/// The decimal rendering of a signed number.
pub open spec fn spec_signed_digits(n: int) -> Seq<char> {
    if n < 0 {
        seq!['-'] + spec_digits(-n)
    } else {
        spec_digits(n)
    }
}

fn push_digit(s: &mut String, d: u64)
    requires
        d < 10,
    ensures
        final(s)@ == old(s)@ + seq![digit_char(d as int)],
{
    let text: &str = if d == 0 {
        "0"
    } else if d == 1 {
        "1"
    } else if d == 2 {
        "2"
    } else if d == 3 {
        "3"
    } else if d == 4 {
        "4"
    } else if d == 5 {
        "5"
    } else if d == 6 {
        "6"
    } else if d == 7 {
        "7"
    } else if d == 8 {
        "8"
    } else {
        "9"
    };
    proof {
        reveal_strlit("0");
        reveal_strlit("1");
        reveal_strlit("2");
        reveal_strlit("3");
        reveal_strlit("4");
        reveal_strlit("5");
        reveal_strlit("6");
        reveal_strlit("7");
        reveal_strlit("8");
        reveal_strlit("9");
    }
    s.append(text);
}

fn append_digits(s: &mut String, n: u64)
    ensures
        final(s)@ == old(s)@ + spec_digits(n as int),
    decreases n,
{
    if n < 10 {
        push_digit(s, n);
    } else {
        append_digits(s, n / 10);
        push_digit(s, n % 10);
    }
}

/// The rendering of one credential failure.
pub open spec fn spec_credentials_message(e: CredentialsErrorView) -> Seq<char> {
    match e {
        CredentialsErrorView::AuthenticationFailure { status } => {
            "authentication failed with status "@ + spec_signed_digits(status)
        },
        CredentialsErrorView::ProtocolFailure => "invalid token received from the server"@,
    }
}

/// The rendering of one error.
pub open spec fn spec_error_message(e: ErrorView) -> Seq<char> {
    match e {
        ErrorView::Credentials(inner) => "Credentials error: "@ + spec_credentials_message(inner),
        ErrorView::Transport(msg) => "Transport error: "@ + msg,
        ErrorView::Configuration(msg) => "Configuration error: "@ + msg,
    }
}

impl CredentialsError {
    /// A human-readable description of the failure.
    pub fn message(&self) -> (m: String)
        ensures
            m@ == spec_credentials_message(self@),
    {
        match self {
            CredentialsError::AuthenticationFailure { status } => {
                let mut m = String::from_str("authentication failed with status ");
                let wide: i64 = *status as i64;
                if wide < 0 {
                    m.append("-");
                    proof {
                        reveal_strlit("-");
                    }
                    append_digits(&mut m, (-wide) as u64);
                } else {
                    append_digits(&mut m, wide as u64);
                }
                m
            },
            CredentialsError::ProtocolFailure => {
                "invalid token received from the server".to_owned()
            },
        }
    }
}

impl Error {
    /// A human-readable description of the failure.
    pub fn message(&self) -> (m: String)
        ensures
            m@ == spec_error_message(self@),
    {
        match self {
            Error::Credentials(e) => {
                let mut m = String::from_str("Credentials error: ");
                let inner = e.message();
                m.append(inner.as_str());
                m
            },
            Error::Transport(msg) => {
                let mut m = String::from_str("Transport error: ");
                m.append(msg.as_str());
                m
            },
            Error::Configuration(msg) => {
                let mut m = String::from_str("Configuration error: ");
                m.append(msg.as_str());
                m
            },
        }
    }
}

} // verus!
