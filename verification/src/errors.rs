use vstd::prelude::*;
use vstd::string::StringExecFns;

verus! {

/// The conditions a run can end in. Every internal step returns a
/// success-or-failure result; the caller turns the first failure into a
/// single diagnostic line and stops. None of these is retried.
#[derive(Debug)]
pub enum FetchError {
    /// The input string does not conform to URL syntax; carries the
    /// original input for diagnostic display.
    MalformedUrl { input: String },
    /// The request could not complete at all (DNS failure, connection
    /// refused, timeout, TLS failure); carries the transport error's text.
    NetworkFailure { detail: String },
    /// The exchange completed, but with a status code outside the
    /// success range.
    HttpError { code: u16 },
    /// The response body is not valid text in the expected encoding.
    DecodeFailure,
    /// The local output file could not be created.
    FileCreateFailure { detail: String },
    /// The stream from the network to the file was interrupted; a partial
    /// file may be left behind.
    IoFailure { detail: String },
}

/// The decimal digit characters, in order of value.
pub open spec fn digit_char(d: nat) -> char {
    if d == 0 {
        '0'
    } else if d == 1 {
        '1'
    } else if d == 2 {
        '2'
    } else if d == 3 {
        '3'
    } else if d == 4 {
        '4'
    } else if d == 5 {
        '5'
    } else if d == 6 {
        '6'
    } else if d == 7 {
        '7'
    } else if d == 8 {
        '8'
    } else {
        '9'
    }
}

/// The usual base-ten rendering of `n`, most significant digit first,
/// with no leading zeros (a single `'0'` for zero itself).
pub open spec fn spec_decimal(n: nat) -> Seq<char>
    decreases n,
{
    if n < 10 {
        seq![digit_char(n)]
    } else {
        spec_decimal(n / 10).push(digit_char(n % 10))
    }
}

fn digit_str(d: u16) -> (r: &'static str)
    requires
        d < 10,
    ensures
        r@ == seq![digit_char(d as nat)],
{
    let r: &'static str = if d == 0 {
        proof {
            reveal_strlit("0");
        }
        "0"
    } else if d == 1 {
        proof {
            reveal_strlit("1");
        }
        "1"
    } else if d == 2 {
        proof {
            reveal_strlit("2");
        }
        "2"
    } else if d == 3 {
        proof {
            reveal_strlit("3");
        }
        "3"
    } else if d == 4 {
        proof {
            reveal_strlit("4");
        }
        "4"
    } else if d == 5 {
        proof {
            reveal_strlit("5");
        }
        "5"
    } else if d == 6 {
        proof {
            reveal_strlit("6");
        }
        "6"
    } else if d == 7 {
        proof {
            reveal_strlit("7");
        }
        "7"
    } else if d == 8 {
        proof {
            reveal_strlit("8");
        }
        "8"
    } else {
        proof {
            reveal_strlit("9");
        }
        "9"
    };
    proof {
        assert(r@ =~= seq![digit_char(d as nat)]);
    }
    r
}

/// Renders `n` in decimal, exactly as `spec_decimal` describes.
pub fn decimal_string(n: u16) -> (r: String)
    ensures
        r@ == spec_decimal(n as nat),
    decreases n,
{
    if n < 10 {
        digit_str(n).to_owned()
    } else {
        let q = n / 10;
        let rem = n % 10;
        let prefix = decimal_string(q);
        let r = prefix.concat(digit_str(rem));
        proof {
            assert(r@ =~= spec_decimal((n / 10) as nat).push(digit_char((n % 10) as nat)));
        }
        r
    }
}

/// The human-readable description of each failure condition.
pub open spec fn spec_message(e: FetchError) -> Seq<char> {
    match e {
        FetchError::MalformedUrl { input } => "This is not Url format: "@ + input@,
        FetchError::NetworkFailure { detail } => "Network request failed: "@ + detail@,
        FetchError::HttpError { code } => "Request failed with status: "@ + spec_decimal(
            code as nat,
        ),
        FetchError::DecodeFailure => "Response body is not valid text"@,
        FetchError::FileCreateFailure { detail } => "Could not create file: "@ + detail@,
        FetchError::IoFailure { detail } => "Saving the body failed: "@ + detail@,
    }
}

/// The single line written to the error stream when a run fails.
pub open spec fn spec_diagnostic(e: FetchError) -> Seq<char> {
    "Operation failed: "@ + spec_message(e)
}

impl FetchError {
    /// The description of this failure, exactly as `spec_message` states it.
    pub fn message(&self) -> (r: String)
        ensures
            r@ == spec_message(*self),
    {
        match self {
            FetchError::MalformedUrl { input } => "This is not Url format: ".to_owned().concat(
                input.as_str(),
            ),
            FetchError::NetworkFailure { detail } => "Network request failed: ".to_owned().concat(
                detail.as_str(),
            ),
            FetchError::HttpError { code } => "Request failed with status: ".to_owned().concat(
                decimal_string(*code).as_str(),
            ),
            FetchError::DecodeFailure => "Response body is not valid text".to_owned(),
            FetchError::FileCreateFailure { detail } => "Could not create file: ".to_owned().concat(
                detail.as_str(),
            ),
            FetchError::IoFailure { detail } => "Saving the body failed: ".to_owned().concat(
                detail.as_str(),
            ),
        }
    }

    /// The full diagnostic line for this failure, exactly as
    /// `spec_diagnostic` states it.
    pub fn diagnostic_line(&self) -> (r: String)
        ensures
            r@ == spec_diagnostic(*self),
    {
        "Operation failed: ".to_owned().concat(self.message().as_str())
    }
}

} // verus!
