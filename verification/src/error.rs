//! The error taxonomy: gateway rejection reasons and client-side failures.

use vstd::prelude::*;

verus! {

/// The gateway's rejection vocabulary, one variant per documented reason
/// token, plus `Unknown` for a missing or unrecognized reason.
#[derive(Clone, Copy, Debug, PartialEq, Eq, Structural)]
pub enum ErrorReason {
    BadCollapseId,
    BadDeviceToken,
    BadExpirationDate,
    BadMessageId,
    BadPriority,
    BadTopic,
    DeviceTokenNotForTopic,
    DuplicateHeaders,
    IdleTimeout,
    MissingDeviceToken,
    MissingTopic,
    PayloadEmpty,
    TopicDisallowed,
    BadCertificate,
    BadCertificateEnvironment,
    ExpiredProviderToken,
    Forbidden,
    InvalidProviderToken,
    MissingProviderToken,
    BadPath,
    MethodNotAllowed,
    Unregistered,
    PayloadTooLarge,
    TooManyProviderTokenUpdates,
    TooManyRequests,
    InternalServerError,
    ServiceUnavailable,
    Shutdown,
    Unknown,
}

impl ErrorReason {
    /// The reason token the gateway uses for this variant.
    pub open spec fn spec_str(self) -> Seq<char> {
        match self {
            ErrorReason::BadCollapseId => "BadCollapseId"@,
            ErrorReason::BadDeviceToken => "BadDeviceToken"@,
            ErrorReason::BadExpirationDate => "BadExpirationDate"@,
            ErrorReason::BadMessageId => "BadMessageId"@,
            ErrorReason::BadPriority => "BadPriority"@,
            ErrorReason::BadTopic => "BadTopic"@,
            ErrorReason::DeviceTokenNotForTopic => "DeviceTokenNotForTopic"@,
            ErrorReason::DuplicateHeaders => "DuplicateHeaders"@,
            ErrorReason::IdleTimeout => "IdleTimeout"@,
            ErrorReason::MissingDeviceToken => "MissingDeviceToken"@,
            ErrorReason::MissingTopic => "MissingTopic"@,
            ErrorReason::PayloadEmpty => "PayloadEmpty"@,
            ErrorReason::TopicDisallowed => "TopicDisallowed"@,
            ErrorReason::BadCertificate => "BadCertificate"@,
            ErrorReason::BadCertificateEnvironment => "BadCertificateEnvironment"@,
            ErrorReason::ExpiredProviderToken => "ExpiredProviderToken"@,
            ErrorReason::Forbidden => "Forbidden"@,
            ErrorReason::InvalidProviderToken => "InvalidProviderToken"@,
            ErrorReason::MissingProviderToken => "MissingProviderToken"@,
            ErrorReason::BadPath => "BadPath"@,
            ErrorReason::MethodNotAllowed => "MethodNotAllowed"@,
            ErrorReason::Unregistered => "Unregistered"@,
            ErrorReason::PayloadTooLarge => "PayloadTooLarge"@,
            ErrorReason::TooManyProviderTokenUpdates => "TooManyProviderTokenUpdates"@,
            ErrorReason::TooManyRequests => "TooManyRequests"@,
            ErrorReason::InternalServerError => "InternalServerError"@,
            ErrorReason::ServiceUnavailable => "ServiceUnavailable"@,
            ErrorReason::Shutdown => "Shutdown"@,
            ErrorReason::Unknown => "Unknown"@,
        }
    }

    /// The variant a reason token parses to; unrecognized tokens fall back
    /// to `Unknown`.
    pub open spec fn spec_from_str(s: Seq<char>) -> ErrorReason {
        if s == "BadCollapseId"@ {
            ErrorReason::BadCollapseId
        } else if s == "BadDeviceToken"@ {
            ErrorReason::BadDeviceToken
        } else if s == "BadExpirationDate"@ {
            ErrorReason::BadExpirationDate
        } else if s == "BadMessageId"@ {
            ErrorReason::BadMessageId
        } else if s == "BadPriority"@ {
            ErrorReason::BadPriority
        } else if s == "BadTopic"@ {
            ErrorReason::BadTopic
        } else if s == "DeviceTokenNotForTopic"@ {
            ErrorReason::DeviceTokenNotForTopic
        } else if s == "DuplicateHeaders"@ {
            ErrorReason::DuplicateHeaders
        } else if s == "IdleTimeout"@ {
            ErrorReason::IdleTimeout
        } else if s == "MissingDeviceToken"@ {
            ErrorReason::MissingDeviceToken
        } else if s == "MissingTopic"@ {
            ErrorReason::MissingTopic
        } else if s == "PayloadEmpty"@ {
            ErrorReason::PayloadEmpty
        } else if s == "TopicDisallowed"@ {
            ErrorReason::TopicDisallowed
        } else if s == "BadCertificate"@ {
            ErrorReason::BadCertificate
        } else if s == "BadCertificateEnvironment"@ {
            ErrorReason::BadCertificateEnvironment
        } else if s == "ExpiredProviderToken"@ {
            ErrorReason::ExpiredProviderToken
        } else if s == "Forbidden"@ {
            ErrorReason::Forbidden
        } else if s == "InvalidProviderToken"@ {
            ErrorReason::InvalidProviderToken
        } else if s == "MissingProviderToken"@ {
            ErrorReason::MissingProviderToken
        } else if s == "BadPath"@ {
            ErrorReason::BadPath
        } else if s == "MethodNotAllowed"@ {
            ErrorReason::MethodNotAllowed
        } else if s == "Unregistered"@ {
            ErrorReason::Unregistered
        } else if s == "PayloadTooLarge"@ {
            ErrorReason::PayloadTooLarge
        } else if s == "TooManyProviderTokenUpdates"@ {
            ErrorReason::TooManyProviderTokenUpdates
        } else if s == "TooManyRequests"@ {
            ErrorReason::TooManyRequests
        } else if s == "InternalServerError"@ {
            ErrorReason::InternalServerError
        } else if s == "ServiceUnavailable"@ {
            ErrorReason::ServiceUnavailable
        } else if s == "Shutdown"@ {
            ErrorReason::Shutdown
        } else {
            ErrorReason::Unknown
        }
    }

    /// Format this reason as the gateway's token.
    pub fn as_str(&self) -> (r: &'static str)
        ensures
            r@ == self.spec_str(),
    {
        match self {
            ErrorReason::BadCollapseId => "BadCollapseId",
            ErrorReason::BadDeviceToken => "BadDeviceToken",
            ErrorReason::BadExpirationDate => "BadExpirationDate",
            ErrorReason::BadMessageId => "BadMessageId",
            ErrorReason::BadPriority => "BadPriority",
            ErrorReason::BadTopic => "BadTopic",
            ErrorReason::DeviceTokenNotForTopic => "DeviceTokenNotForTopic",
            ErrorReason::DuplicateHeaders => "DuplicateHeaders",
            ErrorReason::IdleTimeout => "IdleTimeout",
            ErrorReason::MissingDeviceToken => "MissingDeviceToken",
            ErrorReason::MissingTopic => "MissingTopic",
            ErrorReason::PayloadEmpty => "PayloadEmpty",
            ErrorReason::TopicDisallowed => "TopicDisallowed",
            ErrorReason::BadCertificate => "BadCertificate",
            ErrorReason::BadCertificateEnvironment => "BadCertificateEnvironment",
            ErrorReason::ExpiredProviderToken => "ExpiredProviderToken",
            ErrorReason::Forbidden => "Forbidden",
            ErrorReason::InvalidProviderToken => "InvalidProviderToken",
            ErrorReason::MissingProviderToken => "MissingProviderToken",
            ErrorReason::BadPath => "BadPath",
            ErrorReason::MethodNotAllowed => "MethodNotAllowed",
            ErrorReason::Unregistered => "Unregistered",
            ErrorReason::PayloadTooLarge => "PayloadTooLarge",
            ErrorReason::TooManyProviderTokenUpdates => "TooManyProviderTokenUpdates",
            ErrorReason::TooManyRequests => "TooManyRequests",
            ErrorReason::InternalServerError => "InternalServerError",
            ErrorReason::ServiceUnavailable => "ServiceUnavailable",
            ErrorReason::Shutdown => "Shutdown",
            ErrorReason::Unknown => "Unknown",
        }
    }

    /// Parse a gateway reason token; anything unrecognized becomes
    /// `Unknown`.
    pub fn from_reason_str(s: &str) -> (r: ErrorReason)
        ensures
            r == Self::spec_from_str(s@),
    {
        if crate::text::str_eq(s, "BadCollapseId") {
            ErrorReason::BadCollapseId
        } else if crate::text::str_eq(s, "BadDeviceToken") {
            ErrorReason::BadDeviceToken
        } else if crate::text::str_eq(s, "BadExpirationDate") {
            ErrorReason::BadExpirationDate
        } else if crate::text::str_eq(s, "BadMessageId") {
            ErrorReason::BadMessageId
        } else if crate::text::str_eq(s, "BadPriority") {
            ErrorReason::BadPriority
        } else if crate::text::str_eq(s, "BadTopic") {
            ErrorReason::BadTopic
        } else if crate::text::str_eq(s, "DeviceTokenNotForTopic") {
            ErrorReason::DeviceTokenNotForTopic
        } else if crate::text::str_eq(s, "DuplicateHeaders") {
            ErrorReason::DuplicateHeaders
        } else if crate::text::str_eq(s, "IdleTimeout") {
            ErrorReason::IdleTimeout
        } else if crate::text::str_eq(s, "MissingDeviceToken") {
            ErrorReason::MissingDeviceToken
        } else if crate::text::str_eq(s, "MissingTopic") {
            ErrorReason::MissingTopic
        } else if crate::text::str_eq(s, "PayloadEmpty") {
            ErrorReason::PayloadEmpty
        } else if crate::text::str_eq(s, "TopicDisallowed") {
            ErrorReason::TopicDisallowed
        } else if crate::text::str_eq(s, "BadCertificate") {
            ErrorReason::BadCertificate
        } else if crate::text::str_eq(s, "BadCertificateEnvironment") {
            ErrorReason::BadCertificateEnvironment
        } else if crate::text::str_eq(s, "ExpiredProviderToken") {
            ErrorReason::ExpiredProviderToken
        } else if crate::text::str_eq(s, "Forbidden") {
            ErrorReason::Forbidden
        } else if crate::text::str_eq(s, "InvalidProviderToken") {
            ErrorReason::InvalidProviderToken
        } else if crate::text::str_eq(s, "MissingProviderToken") {
            ErrorReason::MissingProviderToken
        } else if crate::text::str_eq(s, "BadPath") {
            ErrorReason::BadPath
        } else if crate::text::str_eq(s, "MethodNotAllowed") {
            ErrorReason::MethodNotAllowed
        } else if crate::text::str_eq(s, "Unregistered") {
            ErrorReason::Unregistered
        } else if crate::text::str_eq(s, "PayloadTooLarge") {
            ErrorReason::PayloadTooLarge
        } else if crate::text::str_eq(s, "TooManyProviderTokenUpdates") {
            ErrorReason::TooManyProviderTokenUpdates
        } else if crate::text::str_eq(s, "TooManyRequests") {
            ErrorReason::TooManyRequests
        } else if crate::text::str_eq(s, "InternalServerError") {
            ErrorReason::InternalServerError
        } else if crate::text::str_eq(s, "ServiceUnavailable") {
            ErrorReason::ServiceUnavailable
        } else if crate::text::str_eq(s, "Shutdown") {
            ErrorReason::Shutdown
        } else {
            ErrorReason::Unknown
        }
    }
}

/// Formatting a reason and parsing it back returns the same reason: the
/// vocabulary tokens are pairwise distinct and each parses to its own
/// variant.
pub proof fn lemma_reason_round_trip(r: ErrorReason)
    ensures
        ErrorReason::spec_from_str(r.spec_str()) == r,
{
    reveal_strlit("BadCollapseId");
    reveal_strlit("BadDeviceToken");
    reveal_strlit("BadExpirationDate");
    reveal_strlit("BadMessageId");
    reveal_strlit("BadPriority");
    reveal_strlit("BadTopic");
    reveal_strlit("DeviceTokenNotForTopic");
    reveal_strlit("DuplicateHeaders");
    reveal_strlit("IdleTimeout");
    reveal_strlit("MissingDeviceToken");
    reveal_strlit("MissingTopic");
    reveal_strlit("PayloadEmpty");
    reveal_strlit("TopicDisallowed");
    reveal_strlit("BadCertificate");
    reveal_strlit("BadCertificateEnvironment");
    reveal_strlit("ExpiredProviderToken");
    reveal_strlit("Forbidden");
    reveal_strlit("InvalidProviderToken");
    reveal_strlit("MissingProviderToken");
    reveal_strlit("BadPath");
    reveal_strlit("MethodNotAllowed");
    reveal_strlit("Unregistered");
    reveal_strlit("PayloadTooLarge");
    reveal_strlit("TooManyProviderTokenUpdates");
    reveal_strlit("TooManyRequests");
    reveal_strlit("InternalServerError");
    reveal_strlit("ServiceUnavailable");
    reveal_strlit("Shutdown");
    reveal_strlit("Unknown");
    assert(("BadCollapseId"@).len() == 13);
    assert(("BadDeviceToken"@).len() == 14);
    assert(("BadExpirationDate"@).len() == 17);
    assert(("BadMessageId"@).len() == 12);
    assert(("BadPriority"@).len() == 11);
    assert(("BadTopic"@).len() == 8);
    assert(("DeviceTokenNotForTopic"@).len() == 22);
    assert(("DuplicateHeaders"@).len() == 16);
    assert(("IdleTimeout"@).len() == 11);
    assert(("MissingDeviceToken"@).len() == 18);
    assert(("MissingTopic"@).len() == 12);
    assert(("PayloadEmpty"@).len() == 12);
    assert(("TopicDisallowed"@).len() == 15);
    assert(("BadCertificate"@).len() == 14);
    assert(("BadCertificateEnvironment"@).len() == 25);
    assert(("ExpiredProviderToken"@).len() == 20);
    assert(("Forbidden"@).len() == 9);
    assert(("InvalidProviderToken"@).len() == 20);
    assert(("MissingProviderToken"@).len() == 20);
    assert(("BadPath"@).len() == 7);
    assert(("MethodNotAllowed"@).len() == 16);
    assert(("Unregistered"@).len() == 12);
    assert(("PayloadTooLarge"@).len() == 15);
    assert(("TooManyProviderTokenUpdates"@).len() == 27);
    assert(("TooManyRequests"@).len() == 15);
    assert(("InternalServerError"@).len() == 19);
    assert(("ServiceUnavailable"@).len() == 18);
    assert(("Shutdown"@).len() == 8);
    assert(("Unknown"@).len() == 7);
    assert(("BadDeviceToken"@) != ("BadCertificate"@)) by {
        assert(("BadDeviceToken"@)[3] == 'D');
        assert(("BadCertificate"@)[3] == 'C');
    }
    assert(("BadMessageId"@) != ("MissingTopic"@)) by {
        assert(("BadMessageId"@)[0] == 'B');
        assert(("MissingTopic"@)[0] == 'M');
    }
    assert(("BadMessageId"@) != ("PayloadEmpty"@)) by {
        assert(("BadMessageId"@)[0] == 'B');
        assert(("PayloadEmpty"@)[0] == 'P');
    }
    assert(("BadMessageId"@) != ("Unregistered"@)) by {
        assert(("BadMessageId"@)[0] == 'B');
        assert(("Unregistered"@)[0] == 'U');
    }
    assert(("BadPriority"@) != ("IdleTimeout"@)) by {
        assert(("BadPriority"@)[0] == 'B');
        assert(("IdleTimeout"@)[0] == 'I');
    }
    assert(("BadTopic"@) != ("Shutdown"@)) by {
        assert(("BadTopic"@)[0] == 'B');
        assert(("Shutdown"@)[0] == 'S');
    }
    assert(("DuplicateHeaders"@) != ("MethodNotAllowed"@)) by {
        assert(("DuplicateHeaders"@)[0] == 'D');
        assert(("MethodNotAllowed"@)[0] == 'M');
    }
    assert(("MissingDeviceToken"@) != ("ServiceUnavailable"@)) by {
        assert(("MissingDeviceToken"@)[0] == 'M');
        assert(("ServiceUnavailable"@)[0] == 'S');
    }
    assert(("MissingTopic"@) != ("PayloadEmpty"@)) by {
        assert(("MissingTopic"@)[0] == 'M');
        assert(("PayloadEmpty"@)[0] == 'P');
    }
    assert(("MissingTopic"@) != ("Unregistered"@)) by {
        assert(("MissingTopic"@)[0] == 'M');
        assert(("Unregistered"@)[0] == 'U');
    }
    assert(("PayloadEmpty"@) != ("Unregistered"@)) by {
        assert(("PayloadEmpty"@)[0] == 'P');
        assert(("Unregistered"@)[0] == 'U');
    }
    assert(("TopicDisallowed"@) != ("PayloadTooLarge"@)) by {
        assert(("TopicDisallowed"@)[0] == 'T');
        assert(("PayloadTooLarge"@)[0] == 'P');
    }
    assert(("TopicDisallowed"@) != ("TooManyRequests"@)) by {
        assert(("TopicDisallowed"@)[2] == 'p');
        assert(("TooManyRequests"@)[2] == 'o');
    }
    assert(("ExpiredProviderToken"@) != ("InvalidProviderToken"@)) by {
        assert(("ExpiredProviderToken"@)[0] == 'E');
        assert(("InvalidProviderToken"@)[0] == 'I');
    }
    assert(("ExpiredProviderToken"@) != ("MissingProviderToken"@)) by {
        assert(("ExpiredProviderToken"@)[0] == 'E');
        assert(("MissingProviderToken"@)[0] == 'M');
    }
    assert(("InvalidProviderToken"@) != ("MissingProviderToken"@)) by {
        assert(("InvalidProviderToken"@)[0] == 'I');
        assert(("MissingProviderToken"@)[0] == 'M');
    }
    assert(("BadPath"@) != ("Unknown"@)) by {
        assert(("BadPath"@)[0] == 'B');
        assert(("Unknown"@)[0] == 'U');
    }
    assert(("PayloadTooLarge"@) != ("TooManyRequests"@)) by {
        assert(("PayloadTooLarge"@)[0] == 'P');
        assert(("TooManyRequests"@)[0] == 'T');
    }
    match r {
        ErrorReason::BadCollapseId => {},
        ErrorReason::BadDeviceToken => {},
        ErrorReason::BadExpirationDate => {},
        ErrorReason::BadMessageId => {},
        ErrorReason::BadPriority => {},
        ErrorReason::BadTopic => {},
        ErrorReason::DeviceTokenNotForTopic => {},
        ErrorReason::DuplicateHeaders => {},
        ErrorReason::IdleTimeout => {},
        ErrorReason::MissingDeviceToken => {},
        ErrorReason::MissingTopic => {},
        ErrorReason::PayloadEmpty => {},
        ErrorReason::TopicDisallowed => {},
        ErrorReason::BadCertificate => {},
        ErrorReason::BadCertificateEnvironment => {},
        ErrorReason::ExpiredProviderToken => {},
        ErrorReason::Forbidden => {},
        ErrorReason::InvalidProviderToken => {},
        ErrorReason::MissingProviderToken => {},
        ErrorReason::BadPath => {},
        ErrorReason::MethodNotAllowed => {},
        ErrorReason::Unregistered => {},
        ErrorReason::PayloadTooLarge => {},
        ErrorReason::TooManyProviderTokenUpdates => {},
        ErrorReason::TooManyRequests => {},
        ErrorReason::InternalServerError => {},
        ErrorReason::ServiceUnavailable => {},
        ErrorReason::Shutdown => {},
        ErrorReason::Unknown => {},
    }
}

/// A gateway rejection: the reason the notification was refused and, when
/// the gateway sent one, the failure timestamp in milliseconds since the
/// epoch.
#[derive(Clone, Debug, PartialEq)]
pub struct Rejection {
    pub reason: ErrorReason,
    pub timestamp: Option<u64>,
}

/// Everything a send can fail with, one variant per failure origin.
#[derive(Clone, Debug, PartialEq)]
pub enum Error {
    /// The payload could not be encoded as JSON.
    SerializeError,
    /// Transport-level failure: handshake, socket, or protocol error.
    ConnectionError,
    /// Token signing failed; the signing key is bad or unsupported.
    SignerError,
    /// The gateway explicitly rejected the notification.
    ResponseError(Rejection),
    /// A locally detectable contradiction in the requested options.
    InvalidOptions(String),
    /// Certificate or key material could not be read.
    ReadError,
    /// The TLS configuration could not be built from the identity.
    Tls,
    /// The wire request itself could not be constructed.
    BuildRequestError,
    /// No response arrived within the configured deadline, in seconds.
    RequestTimeout(u64),
    /// The private key is of an unsupported kind; only EC keys are signed.
    UnexpectedKey,
    /// The identity material is not a valid certificate container.
    InvalidCertificate,
}

impl Error {
    /// The fixed account for each failure kind.
    pub open spec fn spec_message(self) -> Seq<char> {
        match self {
            Error::SerializeError => "error serializing to JSON"@,
            Error::ConnectionError => "error connecting to the gateway"@,
            Error::SignerError => "error creating a signature"@,
            Error::ResponseError(_) => "notification was not accepted by the gateway"@,
            Error::InvalidOptions(_) => "invalid options for the payload"@,
            Error::ReadError => "error reading the certificate or key"@,
            Error::Tls => "error building the TLS configuration"@,
            Error::BuildRequestError => "failed to construct the request"@,
            Error::RequestTimeout(_) => "the request timed out"@,
            Error::UnexpectedKey => "unexpected private key"@,
            Error::InvalidCertificate => "invalid certificate"@,
        }
    }

    /// A short human-readable account of the failure.
    pub fn message(&self) -> (r: String)
        ensures
            r@ == self.spec_message(),
    {
        match self {
            Error::SerializeError => "error serializing to JSON".to_owned(),
            Error::ConnectionError => "error connecting to the gateway".to_owned(),
            Error::SignerError => "error creating a signature".to_owned(),
            Error::ResponseError(_) => "notification was not accepted by the gateway".to_owned(),
            Error::InvalidOptions(_) => "invalid options for the payload".to_owned(),
            Error::ReadError => "error reading the certificate or key".to_owned(),
            Error::Tls => "error building the TLS configuration".to_owned(),
            Error::BuildRequestError => "failed to construct the request".to_owned(),
            Error::RequestTimeout(_) => "the request timed out".to_owned(),
            Error::UnexpectedKey => "unexpected private key".to_owned(),
            Error::InvalidCertificate => "invalid certificate".to_owned(),
        }
    }
}

} // verus!
