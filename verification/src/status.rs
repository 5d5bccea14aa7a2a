//! HTTP status codes as plain numbers.

use vstd::prelude::*;

verus! {

/// An HTTP status code: a number from 100 to 999.
#[derive(Debug, Clone, Copy, PartialEq, Eq, Structural)]
pub struct StatusCode {
    code: u16,
}

impl View for StatusCode {
    type V = u16;

    closed spec fn view(&self) -> u16 {
        self.code
    }
}

impl StatusCode {
    #[verifier::type_invariant]
    spec fn in_range(self) -> bool {
        100 <= self.code <= 999
    }

    /// The code with the number `code`, if that is from 100 to 999.
    pub fn from_u16(code: u16) -> (status: Option<StatusCode>)
        ensures
            status is Some <==> 100 <= code <= 999,
            status matches Some(s) ==> s@ == code,
    {
        if 100 <= code && code <= 999 {
            Some(StatusCode { code })
        } else {
            None
        }
    }

    /// The number of the code.
    pub fn as_u16(&self) -> (code: u16)
        ensures
            code == self@,
            100 <= code <= 999,
    {
        proof {
            use_type_invariant(self);
        }
        self.code
    }

    /// 204 No Content.
    pub fn no_content() -> (status: StatusCode)
        ensures
            status@ == 204,
    {
        StatusCode { code: 204 }
    }

    /// 400 Bad Request.
    pub fn bad_request() -> (status: StatusCode)
        ensures
            status@ == 400,
    {
        StatusCode { code: 400 }
    }

    /// 500 Internal Server Error.
    pub fn internal_server_error() -> (status: StatusCode)
        ensures
            status@ == 500,
    {
        StatusCode { code: 500 }
    }

    /// Whether this is 500 Internal Server Error.
    pub fn is_internal_server_error(&self) -> (yes: bool)
        ensures
            yes == (self@ == 500),
    {
        self.code == 500
    }
}

} // verus!
