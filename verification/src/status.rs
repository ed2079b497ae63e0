//! HTTP status codes.

use vstd::prelude::*;

verus! {

/// The line that `hyper` prints for a status code: the number, a space and
/// the reason phrase that goes with it.
pub uninterp spec fn status_text(code: u16) -> Seq<char>;

/// `Display` of `hyper::StatusCode`, for the code that `from_u16` accepts:
/// a number from 100 up to, but not including, 600.
#[verifier::external_body]
fn status_line(code: u16) -> (r: String)
    requires
        100 <= code < 600,
    ensures
        r@ == status_text(code),
{
    hyper::StatusCode::from_u16(code).map(|status| status.to_string()).unwrap_or_default()
}

/// An HTTP status code: a number from 100 up to, but not including, 600.
#[derive(Debug, Clone, Copy, PartialEq, Eq)]
pub struct HttpStatus {
    code: u16,
}

impl View for HttpStatus {
    type V = u16;

    closed spec fn view(&self) -> u16 {
        self.code
    }
}

impl HttpStatus {
    #[verifier::type_invariant]
    spec fn in_range(self) -> bool {
        100 <= self.code < 600
    }

    /// The status with the given number, where there is one.
    pub fn from_u16(code: u16) -> (r: Option<HttpStatus>)
        ensures
            r is Some <==> 100 <= code < 600,
            r matches Some(status) ==> status@ == code,
    {
        if 100 <= code && code < 600 {
            Some(HttpStatus { code })
        } else {
            None
        }
    }

    /// The number of the status.
    pub fn as_u16(&self) -> (r: u16)
        ensures
            r == self@,
            100 <= r < 600,
    {
        proof {
            use_type_invariant(self);
        }
        self.code
    }

    /// Whether the status is in the success class, 200 to 299.
    pub fn is_success(&self) -> (r: bool)
        ensures
            r == (200 <= self@ < 300),
    {
        200 <= self.code && self.code < 300
    }

    /// Whether the status is 404, "Not Found".
    pub fn is_not_found(&self) -> (r: bool)
        ensures
            r == (self@ == 404),
    {
        self.code == 404
    }

    /// The status as `hyper` prints it, such as `404 Not Found`.
    pub fn to_string(&self) -> (r: String)
        ensures
            r@ == status_text(self@),
    {
        proof {
            use_type_invariant(self);
        }
        status_line(self.code)
    }
}

impl Default for HttpStatus {
    /// 200, "OK".
    fn default() -> (r: HttpStatus)
        ensures
            r@ == 200,
    {
        HttpStatus { code: 200 }
    }
}

} // verus!
