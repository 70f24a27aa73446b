use vstd::prelude::*;

verus! {

/// Why the diagnostic interface could not answer a request.
#[derive(Clone, Copy, Debug, PartialEq, Eq, Structural)]
pub enum RequestError {
    GenericError,
    TooManyRequests,
}

pub open spec fn request_error_title(error: RequestError) -> Seq<char> {
    match error {
        RequestError::GenericError => "Generic Error"@,
        RequestError::TooManyRequests => "Too Many Requests"@,
    }
}

pub open spec fn request_error_status(error: RequestError) -> u32 {
    match error {
        RequestError::GenericError => 500,
        RequestError::TooManyRequests => 429,
    }
}

impl RequestError {
    /// Human-readable title of the error document.
    pub fn title(&self) -> (title: String)
        ensures
            title@ == request_error_title(*self),
    {
        match self {
            RequestError::GenericError => "Generic Error".to_owned(),
            RequestError::TooManyRequests => "Too Many Requests".to_owned(),
        }
    }

    /// HTTP status code of the error document.
    pub fn status(&self) -> (status: u32)
        ensures
            status == request_error_status(*self),
    {
        match self {
            RequestError::GenericError => 500,
            RequestError::TooManyRequests => 429,
        }
    }
}

} // verus!
