//! Owned failure values.
//!
//! A native failure carries a domain string, an integer code and a message
//! string. The layer extracts the three fields once, owns them, and renders
//! them as `[domain:code] message`; two failures are never compared for
//! identity, only the fields matter.

use vstd::prelude::*;

verus! {

/// What a failure value holds: its domain, code and message.
pub ghost struct ErrorView {
    pub domain: Seq<char>,
    pub code: int,
    pub message: Seq<char>,
}

/// One native failure, owned by the layer: a domain, a code and a message.
pub struct Error {
    domain: String,
    code: i32,
    message: String,
}

impl View for Error {
    type V = ErrorView;

    closed spec fn view(&self) -> ErrorView {
        ErrorView {
            domain: self.domain@,
            code: self.code as int,
            message: self.message@,
        }
    }
}

/// The decimal digits of `n`, most significant first.
pub open spec fn dec_digits(n: nat) -> Seq<char>
    decreases n,
{
    if n < 10 {
        seq![digit_char(n as int)]
    } else {
        dec_digits(n / 10) + seq![digit_char((n % 10) as int)]
    }
}

/// The character for one decimal digit.
pub open spec fn digit_char(d: int) -> char {
    if d == 0 {
        '0'
    } else if d == 1 {
        '1'
    } else if d == 2 {
        '2'
    } else if d == 3 {
        '3'
    } else if d == 4 {
        '4'
    } else if d == 5 {
        '5'
    } else if d == 6 {
        '6'
    } else if d == 7 {
        '7'
    } else if d == 8 {
        '8'
    } else {
        '9'
    }
}

/// The decimal rendering of a possibly negative integer.
pub open spec fn int_chars(n: int) -> Seq<char> {
    if n < 0 {
        seq!['-'] + dec_digits((-n) as nat)
    } else {
        dec_digits(n as nat)
    }
}

/// The human-readable rendering of a failure: `[domain:code] message`.
pub open spec fn render_chars(e: ErrorView) -> Seq<char> {
    seq!['['] + e.domain + seq![':'] + int_chars(e.code) + seq![']', ' '] + e.message
}

fn digit_str(d: u64) -> (r: &'static str)
    requires
        d < 10,
    ensures
        r@ == seq![digit_char(d as int)],
{
    let r: &'static str = if d == 0 {
        "0"
    } else if d == 1 {
        "1"
    } else if d == 2 {
        "2"
    } else if d == 3 {
        "3"
    } else if d == 4 {
        "4"
    } else if d == 5 {
        "5"
    } else if d == 6 {
        "6"
    } else if d == 7 {
        "7"
    } else if d == 8 {
        "8"
    } else {
        "9"
    };
    proof {
        reveal_strlit("0");
        reveal_strlit("1");
        reveal_strlit("2");
        reveal_strlit("3");
        reveal_strlit("4");
        reveal_strlit("5");
        reveal_strlit("6");
        reveal_strlit("7");
        reveal_strlit("8");
        reveal_strlit("9");
        assert(r@ =~= seq![digit_char(d as int)]);
    }
    r
}

fn push_digits(n: u64, out: &mut String)
    ensures
        final(out)@ == old(out)@ + dec_digits(n as nat),
    decreases n,
{
    if n >= 10 {
        push_digits(n / 10, out);
        out.append(digit_str(n % 10));
        proof {
            assert(final(out)@ =~= old(out)@ + dec_digits(n as nat));
        }
    } else {
        out.append(digit_str(n));
        proof {
            assert(final(out)@ =~= old(out)@ + dec_digits(n as nat));
        }
    }
}

fn push_code(code: i32, out: &mut String)
    ensures
        final(out)@ == old(out)@ + int_chars(code as int),
{
    let wide: i64 = code as i64;
    if wide < 0 {
        out.append("-");
        let mag: u64 = (-wide) as u64;
        push_digits(mag, out);
        proof {
            reveal_strlit("-");
            assert(mag as nat == (-(code as int)) as nat);
            assert(final(out)@ =~= old(out)@ + int_chars(code as int));
        }
    } else {
        push_digits(wide as u64, out);
        proof {
            assert(wide as u64 as nat == (code as int) as nat);
        }
    }
}

impl Error {
    /// Builds a failure value from the three fields the native side reported.
    pub fn new(domain: String, code: i32, message: String) -> (r: Error)
        ensures
            r@.domain == domain@,
            r@.code == code as int,
            r@.message == message@,
    {
        Error { domain, code, message }
    }

    /// The failure's integer code.
    pub fn code(&self) -> (r: i32)
        ensures
            r as int == self@.code,
    {
        self.code
    }

    /// An owned copy of the failure's domain.
    pub fn domain(&self) -> (r: String)
        ensures
            r@ == self@.domain,
    {
        self.domain.clone()
    }

    /// An owned copy of the failure's message.
    pub fn message(&self) -> (r: String)
        ensures
            r@ == self@.message,
    {
        self.message.clone()
    }

    /// Renders the failure as `[domain:code] message`.
    pub fn render(&self) -> (r: String)
        ensures
            r@ == render_chars(self@),
    {
        let mut r = String::from_str("[");
        r.append(self.domain.as_str());
        r.append(":");
        push_code(self.code, &mut r);
        r.append("] ");
        r.append(self.message.as_str());
        proof {
            reveal_strlit("[");
            reveal_strlit(":");
            reveal_strlit("] ");
            assert(r@ =~= render_chars(self@));
        }
        r
    }
}

} // verus!
