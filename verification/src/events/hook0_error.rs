//! The error ids that the webhook service answers with.

use vstd::prelude::*;
use vstd::std_specs::convert::FromSpecImpl;
use crate::utils::text::str_equal;

verus! {

/// Error ids of the webhook service.
#[derive(Debug, Clone, Copy, PartialEq, Eq, Hash, Structural)]
pub enum Hook0ErrorId {
    /// The event type does not exist or was deactivated.
    EventTypeDoesNotExist,
    /// The event was ingested before.
    EventAlreadyIngested,
    /// The event id is not valid.
    InvalidEventId,
    /// The payload is not valid.
    InvalidPayload,
    /// The token was refused.
    Unauthorized,
    /// Too many requests.
    RateLimitExceeded,
    /// The service failed.
    InternalServerError,
}

impl Hook0ErrorId {
    /// The id as the service spells it.
    pub open spec fn spec_as_str(self) -> Seq<char> {
        match self {
            Hook0ErrorId::EventTypeDoesNotExist => "EventTypeDoesNotExist"@,
            Hook0ErrorId::EventAlreadyIngested => "EventAlreadyIngested"@,
            Hook0ErrorId::InvalidEventId => "InvalidEventId"@,
            Hook0ErrorId::InvalidPayload => "InvalidPayload"@,
            Hook0ErrorId::Unauthorized => "Unauthorized"@,
            Hook0ErrorId::RateLimitExceeded => "RateLimitExceeded"@,
            Hook0ErrorId::InternalServerError => "InternalServerError"@,
        }
    }

    /// The id that the service spells `s`; spellings that are not known
    /// count as a failure of the service.
    pub open spec fn spec_from_str(s: Seq<char>) -> Hook0ErrorId {
        if s == "EventTypeDoesNotExist"@ {
            Hook0ErrorId::EventTypeDoesNotExist
        } else if s == "EventAlreadyIngested"@ {
            Hook0ErrorId::EventAlreadyIngested
        } else if s == "InvalidEventId"@ {
            Hook0ErrorId::InvalidEventId
        } else if s == "InvalidPayload"@ {
            Hook0ErrorId::InvalidPayload
        } else if s == "Unauthorized"@ {
            Hook0ErrorId::Unauthorized
        } else if s == "RateLimitExceeded"@ {
            Hook0ErrorId::RateLimitExceeded
        } else {
            Hook0ErrorId::InternalServerError
        }
    }

    /// The id as the service spells it.
    pub fn as_str(&self) -> (s: &'static str)
        ensures
            s@ == self.spec_as_str(),
    {
        match self {
            Hook0ErrorId::EventTypeDoesNotExist => "EventTypeDoesNotExist",
            Hook0ErrorId::EventAlreadyIngested => "EventAlreadyIngested",
            Hook0ErrorId::InvalidEventId => "InvalidEventId",
            Hook0ErrorId::InvalidPayload => "InvalidPayload",
            Hook0ErrorId::Unauthorized => "Unauthorized",
            Hook0ErrorId::RateLimitExceeded => "RateLimitExceeded",
            Hook0ErrorId::InternalServerError => "InternalServerError",
        }
    }

    /// The id that the service spells `s`.
    pub fn parse(s: &str) -> (id: Self)
        ensures
            id == Self::spec_from_str(s@),
    {
        if str_equal(s, "EventTypeDoesNotExist") {
            Hook0ErrorId::EventTypeDoesNotExist
        } else if str_equal(s, "EventAlreadyIngested") {
            Hook0ErrorId::EventAlreadyIngested
        } else if str_equal(s, "InvalidEventId") {
            Hook0ErrorId::InvalidEventId
        } else if str_equal(s, "InvalidPayload") {
            Hook0ErrorId::InvalidPayload
        } else if str_equal(s, "Unauthorized") {
            Hook0ErrorId::Unauthorized
        } else if str_equal(s, "RateLimitExceeded") {
            Hook0ErrorId::RateLimitExceeded
        } else {
            Hook0ErrorId::InternalServerError
        }
    }
}

impl From<&str> for Hook0ErrorId {
    fn from(s: &str) -> (id: Self) {
        Hook0ErrorId::parse(s)
    }
}

impl FromSpecImpl<&str> for Hook0ErrorId {
    open spec fn obeys_from_spec() -> bool {
        true
    }

    open spec fn from_spec(s: &str) -> Hook0ErrorId {
        Hook0ErrorId::spec_from_str(s@)
    }
}

} // verus!
