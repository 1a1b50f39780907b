//! Delivery options a caller attaches to one notification.

use vstd::prelude::*;

verus! {

/// Delivery priority. The gateway's default is immediate delivery; only a
/// throttled request needs to say so on the wire.
#[derive(Clone, Copy, Debug, PartialEq, Eq, Structural)]
pub enum Priority {
    /// Deliver at once, waking the device if needed.
    Immediate,
    /// Let the gateway batch and defer delivery to save power.
    Throttled,
}

/// The notification's classification, which drives required headers and
/// delivery semantics.
#[derive(Clone, Copy, Debug, PartialEq, Eq, Structural)]
pub enum PushType {
    /// A user-visible alert.
    Alert,
    /// A silent background refresh.
    Background,
    /// An incoming-call notification.
    Voip,
}

impl PushType {
    /// The wire value of the push-type header.
    pub open spec fn spec_str(self) -> Seq<char> {
        match self {
            PushType::Alert => "alert"@,
            PushType::Background => "background"@,
            PushType::Voip => "voip"@,
        }
    }

    /// Format the push type as its header value.
    pub fn as_str(&self) -> (r: &'static str)
        ensures
            r@ == self.spec_str(),
    {
        match self {
            PushType::Alert => "alert",
            PushType::Background => "background",
            PushType::Voip => "voip",
        }
    }

    /// Whether this push type always needs a topic: silent and
    /// incoming-call pushes are rejected by the gateway without one, which
    /// is knowable before any network traffic.
    pub open spec fn spec_requires_topic(self) -> bool {
        self is Background || self is Voip
    }

    /// Whether this push type always needs a topic.
    pub fn requires_topic(&self) -> (r: bool)
        ensures
            r == self.spec_requires_topic(),
    {
        match self {
            PushType::Alert => false,
            PushType::Background => true,
            PushType::Voip => true,
        }
    }
}

/// Options for one delivery: all optional except the priority and push
/// type, which default.
#[derive(Clone, Debug)]
pub struct NotificationOptions {
    /// The topic (application identifier) the notification targets.
    pub apns_topic: Option<String>,
    /// A caller-chosen identifier for the notification; when absent the
    /// gateway assigns one.
    pub apns_id: Option<String>,
    /// When the notification expires, in seconds since the epoch.
    pub apns_expiration: Option<u64>,
    /// Delivery priority; on the wire only when it differs from the
    /// gateway default.
    pub apns_priority: Priority,
    /// A key letting the gateway coalesce notifications.
    pub apns_collapse_id: Option<String>,
    /// The notification's classification.
    pub apns_push_type: PushType,
}

impl Default for NotificationOptions {
    /// No topic, identifier, expiration or collapse key; immediate
    /// priority; an alert push.
    fn default() -> (r: Self)
        ensures
            r.apns_topic is None,
            r.apns_id is None,
            r.apns_expiration is None,
            r.apns_priority == Priority::Immediate,
            r.apns_collapse_id is None,
            r.apns_push_type == PushType::Alert,
    {
        NotificationOptions {
            apns_topic: None,
            apns_id: None,
            apns_expiration: None,
            apns_priority: Priority::Immediate,
            apns_collapse_id: None,
            apns_push_type: PushType::Alert,
        }
    }
}

} // verus!
