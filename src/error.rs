use vstd::prelude::*;

verus! {

/// Errors surfaced to API clients.
#[derive(Debug)]
pub enum ApiError {
    /// A zone name that is not an IANA identifier.
    InvalidTimezone(String),
    /// The clock could not be read or rendered.
    SystemTimeError,
    /// The synchronization daemon failed.
    ChronyError(String),
    /// A zone list longer than the maximum.
    TooManyTimezones,
    /// Any other failure, with its explanation.
    Internal(String),
    /// The request took too long.
    Timeout,
}

impl ApiError {
    /// HTTP status code of the error response.
    pub fn status_code(&self) -> (r: u16)
        ensures
            r == match self {
                ApiError::InvalidTimezone(_) => 400u16,
                ApiError::TooManyTimezones => 400u16,
                ApiError::SystemTimeError => 503u16,
                ApiError::ChronyError(_) => 500u16,
                ApiError::Internal(_) => 500u16,
                ApiError::Timeout => 408u16,
            },
    {
        match self {
            ApiError::InvalidTimezone(_) => 400,
            ApiError::TooManyTimezones => 400,
            ApiError::SystemTimeError => 503,
            ApiError::ChronyError(_) => 500,
            ApiError::Internal(_) => 500,
            ApiError::Timeout => 408,
        }
    }

    /// Text shown to the client in the error response; internal details
    /// are withheld.
    pub fn detail(&self) -> (r: String)
        ensures
            r@ == match self {
                ApiError::InvalidTimezone(tz) => "Unrecognized time zone '"@ + tz@ + "'"@,
                ApiError::TooManyTimezones => "Too many timezones requested (max: 50)"@,
                ApiError::SystemTimeError => "System time error"@,
                ApiError::ChronyError(_) => "Chrony error"@,
                ApiError::Internal(_) => "Internal server error"@,
                ApiError::Timeout => "Request timeout"@,
            },
    {
        match self {
            ApiError::InvalidTimezone(tz) => {
                let mut s = String::from_str("Unrecognized time zone '");
                s.append(tz.as_str());
                s.append("'");
                s
            },
            ApiError::TooManyTimezones => String::from_str("Too many timezones requested (max: 50)"),
            ApiError::SystemTimeError => String::from_str("System time error"),
            ApiError::ChronyError(_) => String::from_str("Chrony error"),
            ApiError::Internal(_) => String::from_str("Internal server error"),
            ApiError::Timeout => String::from_str("Request timeout"),
        }
    }

    /// Full description of the error.
    pub fn message(&self) -> (r: String)
        ensures
            r@ == match self {
                ApiError::InvalidTimezone(tz) => "Unrecognized time zone '"@ + tz@ + "'"@,
                ApiError::TooManyTimezones => "Too many timezones requested (max: 50)"@,
                ApiError::SystemTimeError => "System time error"@,
                ApiError::ChronyError(m) => "Chrony error: "@ + m@,
                ApiError::Internal(m) => "Internal error: "@ + m@,
                ApiError::Timeout => "Request timeout"@,
            },
    {
        match self {
            ApiError::ChronyError(m) => {
                let mut s = String::from_str("Chrony error: ");
                s.append(m.as_str());
                s
            },
            ApiError::Internal(m) => {
                let mut s = String::from_str("Internal error: ");
                s.append(m.as_str());
                s
            },
            _ => self.detail(),
        }
    }
}

} // verus!
