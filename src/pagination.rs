//! Turning the optional `start` and `end` parameters of a listing into a
//! range that is always valid for the list at hand.

use vstd::prelude::*;

use crate::error::Error;

verus! {

/// A requested range `[start, end)`, as given by the client.
#[derive(Debug)]
pub struct Pagination {
    pub start: usize,
    pub end: usize,
}

pub open spec fn is_digit(c: char) -> bool {
    '0' <= c && c <= '9'
}

/// The value of a sequence of decimal digits, most significant first.
pub open spec fn digits_value(d: Seq<char>) -> nat
    decreases d.len(),
{
    if d.len() == 0 {
        0
    } else {
        digits_value(d.drop_last()) * 10 + ((d.last() as u32 - '0' as u32) as nat)
    }
}

/// What follows an optional leading `+`.
pub open spec fn unsigned_part(s: Seq<char>) -> Seq<char> {
    if s.len() > 0 && s[0] == '+' {
        s.subrange(1, s.len() as int)
    } else {
        s
    }
}

/// A text that reads as a `usize`: an optional `+`, then at least one
/// decimal digit and nothing else, with a value that fits.
pub open spec fn is_usize_text(s: Seq<char>) -> bool {
    let d = unsigned_part(s);
    &&& d.len() > 0
    &&& forall|i: int| 0 <= i < d.len() ==> is_digit(#[trigger] d[i])
    &&& digits_value(d) <= usize::MAX
}

pub open spec fn usize_text_value(s: Seq<char>) -> nat {
    digits_value(unsigned_part(s))
}

/// Relies on `usize::from_str` (`str::parse::<usize>`): it accepts an
/// optional `+` followed by decimal digits whose value fits, and gives
/// that value; any other text is an error.
#[verifier::external_body]
fn parse_usize(s: &str) -> (r: Result<usize, std::num::ParseIntError>)
    ensures
        match r {
            Ok(n) => is_usize_text(s@) && n as nat == usize_text_value(s@),
            Err(_) => !is_usize_text(s@),
        },
{
    s.parse::<usize>()
}

/// Reads the two range parameters. Both must be there: the first one
/// missing is named in the error. Then each must read as a `usize`,
/// `start` first.
pub fn extract_pagination(start: Option<&str>, end: Option<&str>) -> (r: Result<
    Pagination,
    Error,
>)
    ensures
        start is None ==> (r matches Err(Error::MissingParameter(p)) && p@ == "start"@),
        start is Some && end is None ==> (r matches Err(Error::MissingParameter(p)) && p@
            == "end"@),
        match (start, end) {
            (Some(s), Some(e)) => if !is_usize_text(s@) || !is_usize_text(e@) {
                r matches Err(Error::ParseError(_))
            } else {
                r matches Ok(p) && p.start as nat == usize_text_value(s@) && p.end as nat
                    == usize_text_value(e@)
            },
            _ => true,
        },
{
    match (start, end) {
        (Some(s), Some(e)) => {
            let first = match parse_usize(s) {
                Ok(n) => n,
                Err(err) => {
                    return Err(Error::ParseError(err));
                },
            };
            let last = match parse_usize(e) {
                Ok(n) => n,
                Err(err) => {
                    return Err(Error::ParseError(err));
                },
            };
            Ok(Pagination { start: first, end: last })
        },
        (None, _) => Err(Error::MissingParameter(String::from_str("start"))),
        (_, None) => Err(Error::MissingParameter(String::from_str("end"))),
    }
}

/// The end of the range once clamped to a list of length `len`.
pub open spec fn clamped_end(p: Pagination, len: nat) -> nat {
    if p.end <= len {
        p.end as nat
    } else {
        len
    }
}

/// The start of the range, clamped to the already clamped end.
pub open spec fn clamped_start(p: Pagination, len: nat) -> nat {
    if p.start <= clamped_end(p, len) {
        p.start as nat
    } else {
        clamped_end(p, len)
    }
}

impl Pagination {
    /// The range clamped to a list of length `len`: `end` into `[0, len]`,
    /// then `start` into `[0, end]`. A range out of bounds becomes empty.
    pub fn clamp_to(&self, len: usize) -> (r: Pagination)
        ensures
            r.end as nat == clamped_end(*self, len as nat),
            r.start as nat == clamped_start(*self, len as nat),
            r.start <= r.end <= len,
    {
        let end = if self.end <= len {
            self.end
        } else {
            len
        };
        let start = if self.start <= end {
            self.start
        } else {
            end
        };
        Pagination { start, end }
    }
}

} // verus!
