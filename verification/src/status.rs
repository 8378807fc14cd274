use vstd::prelude::*;

verus! {

/// A response status, held as the number that stands for it on the wire.
#[derive(Clone, Copy, Debug, PartialEq, Eq, Structural)]
pub struct StatusCode {
    pub code: u16,
}

impl StatusCode {
    /// The status with the given number.
    pub open spec fn spec_new(code: u16) -> StatusCode {
        StatusCode { code }
    }

    /// 200, the status of a response that carries what was asked for.
    pub open spec fn spec_ok() -> StatusCode {
        StatusCode { code: 200 }
    }

    /// 303, the status that sends the client to another location.
    pub open spec fn spec_see_other() -> StatusCode {
        StatusCode { code: 303 }
    }

    /// 400, the status of a request whose parameters cannot be read.
    pub open spec fn spec_bad_request() -> StatusCode {
        StatusCode { code: 400 }
    }

    /// 404, the status of a request that no route answers.
    pub open spec fn spec_not_found() -> StatusCode {
        StatusCode { code: 404 }
    }

    #[verifier::when_used_as_spec(spec_new)]
    pub fn new(code: u16) -> (status: StatusCode)
        ensures
            status == Self::spec_new(code),
    {
        StatusCode { code }
    }

    #[verifier::when_used_as_spec(spec_ok)]
    pub fn ok() -> (status: StatusCode)
        ensures
            status == Self::spec_ok(),
    {
        StatusCode { code: 200 }
    }

    #[verifier::when_used_as_spec(spec_see_other)]
    pub fn see_other() -> (status: StatusCode)
        ensures
            status == Self::spec_see_other(),
    {
        StatusCode { code: 303 }
    }

    #[verifier::when_used_as_spec(spec_bad_request)]
    pub fn bad_request() -> (status: StatusCode)
        ensures
            status == Self::spec_bad_request(),
    {
        StatusCode { code: 400 }
    }

    #[verifier::when_used_as_spec(spec_not_found)]
    pub fn not_found() -> (status: StatusCode)
        ensures
            status == Self::spec_not_found(),
    {
        StatusCode { code: 404 }
    }
}

} // verus!
