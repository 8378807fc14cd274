use vstd::prelude::*;

verus! {

/// The request methods a transport may hand over.
#[derive(Clone, Copy, Debug, PartialEq, Eq, Structural)]
pub enum Method {
    Get,
    Post,
    Put,
    Patch,
    Delete,
    Head,
    Options,
}

impl Method {
    /// The methods that have a matcher of their own: GET, POST, PATCH and DELETE.
    pub open spec fn spec_is_supported(self) -> bool {
        self == Method::Get || self == Method::Post || self == Method::Patch || self
            == Method::Delete
    }

    #[verifier::when_used_as_spec(spec_is_supported)]
    pub fn is_supported(self) -> (supported: bool)
        ensures
            supported == self.spec_is_supported(),
    {
        match self {
            Method::Get | Method::Post | Method::Patch | Method::Delete => true,
            _ => false,
        }
    }
}

} // verus!
