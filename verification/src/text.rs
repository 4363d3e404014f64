//! The lines that the client reports, and how they are written out.

use vstd::prelude::*;
use vstd::string::StringExecFns;

verus! {

/// The character of one decimal digit.
pub open spec fn digit_char(d: int) -> char {
    if d == 0 {
        '0'
    } else if d == 1 {
        '1'
    } else if d == 2 {
        '2'
    } else if d == 3 {
        '3'
    } else if d == 4 {
        '4'
    } else if d == 5 {
        '5'
    } else if d == 6 {
        '6'
    } else if d == 7 {
        '7'
    } else if d == 8 {
        '8'
    } else {
        '9'
    }
}

/// A number in decimal, without sign, padding or leading zeros.
pub open spec fn decimal(n: nat) -> Seq<char>
    decreases n,
{
    if n < 10 {
        seq![digit_char(n as int)]
    } else {
        decimal(n / 10).push(digit_char((n % 10) as int))
    }
}

/// The one-character string of a digit.
fn digit_str(d: u64) -> (r: &'static str)
    requires
        d < 10,
    ensures
        r@ == seq![digit_char(d as int)],
{
    let r = if d == 0 {
        proof {
            reveal_strlit("0");
        }
        "0"
    } else if d == 1 {
        proof {
            reveal_strlit("1");
        }
        "1"
    } else if d == 2 {
        proof {
            reveal_strlit("2");
        }
        "2"
    } else if d == 3 {
        proof {
            reveal_strlit("3");
        }
        "3"
    } else if d == 4 {
        proof {
            reveal_strlit("4");
        }
        "4"
    } else if d == 5 {
        proof {
            reveal_strlit("5");
        }
        "5"
    } else if d == 6 {
        proof {
            reveal_strlit("6");
        }
        "6"
    } else if d == 7 {
        proof {
            reveal_strlit("7");
        }
        "7"
    } else if d == 8 {
        proof {
            reveal_strlit("8");
        }
        "8"
    } else {
        proof {
            reveal_strlit("9");
        }
        "9"
    };
    assert(r@ =~= seq![digit_char(d as int)]);
    r
}

/// Writes `n` in decimal at the end of `out`.
pub fn append_decimal(out: &mut String, n: u64)
    ensures
        final(out)@ == old(out)@ + decimal(n as nat),
    decreases n,
{
    if n >= 10 {
        append_decimal(out, n / 10);
        out.append(digit_str(n % 10));
        assert(final(out)@ =~= old(out)@ + decimal(n as nat));
    } else {
        out.append(digit_str(n));
    }
}

/// A number written in decimal.
pub fn decimal_string(n: u64) -> (r: String)
    ensures
        r@ == decimal(n as nat),
{
    let mut out = String::new();
    append_decimal(&mut out, n);
    assert(out@ =~= decimal(n as nat));
    out
}

/// Where a line is written.
#[derive(Clone, Copy, Debug, PartialEq, Eq, Structural)]
pub enum Channel {
    /// The report of what was found.
    Stdout,
    /// The diagnostic channel, for what went wrong.
    Stderr,
}

/// One line of the client's report.
#[derive(Debug, PartialEq, Eq)]
pub enum LogLine {
    /// A header arrived; `display` is its printed form.
    Header { display: String },
    /// The node answered the query at `height` with `count` blobs.
    BlobsFound { count: usize, height: u64 },
    /// An element of the header feed was a failure.
    HeaderError { detail: String },
    /// The query for the blobs of one height failed.
    BlobError { detail: String },
    /// A submitted blob was included at `height`.
    Included { height: u64 },
}

impl LogLine {
    /// The channel of a line: failures go to the diagnostic channel.
    pub open spec fn spec_channel(self) -> Channel {
        match self {
            LogLine::HeaderError { .. } | LogLine::BlobError { .. } => Channel::Stderr,
            _ => Channel::Stdout,
        }
    }

    /// The text of a line, without the line break.
    pub open spec fn spec_text(self) -> Seq<char> {
        match self {
            LogLine::Header { display } => "Header: "@ + display@,
            LogLine::BlobsFound { count, height } => "Found "@ + decimal(count as nat)
                + " blobs at height "@ + decimal(height as nat)
                + " in the 0xDEADBEEF namespace"@,
            LogLine::HeaderError { detail } => "ERROR: Error receiving header: "@ + detail@,
            LogLine::BlobError { detail } => "ERROR: Error fetching blobs: "@ + detail@,
            LogLine::Included { height } => "Blob was included at height "@ + decimal(
                height as nat,
            ),
        }
    }

    /// The channel the line belongs on.
    pub fn channel(&self) -> (r: Channel)
        ensures
            r == self.spec_channel(),
    {
        match self {
            LogLine::HeaderError { .. } => Channel::Stderr,
            LogLine::BlobError { .. } => Channel::Stderr,
            _ => Channel::Stdout,
        }
    }

    /// The text of the line, without the line break.
    pub fn render(&self) -> (r: String)
        ensures
            r@ == self.spec_text(),
    {
        match self {
            LogLine::Header { display } => {
                String::from_str("Header: ").concat(display.as_str())
            },
            LogLine::BlobsFound { count, height } => {
                let mut out = String::from_str("Found ");
                append_decimal(&mut out, *count as u64);
                out.append(" blobs at height ");
                append_decimal(&mut out, *height);
                out.append(" in the 0xDEADBEEF namespace");
                out
            },
            LogLine::HeaderError { detail } => {
                String::from_str("ERROR: Error receiving header: ").concat(detail.as_str())
            },
            LogLine::BlobError { detail } => {
                String::from_str("ERROR: Error fetching blobs: ").concat(detail.as_str())
            },
            LogLine::Included { height } => {
                let mut out = String::from_str("Blob was included at height ");
                append_decimal(&mut out, *height);
                out
            },
        }
    }
}

} // verus!
