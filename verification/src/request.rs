//! The pure request builder: payload and options in, wire request out.

use vstd::prelude::*;
use crate::error::Error;
use crate::options::{NotificationOptions, Priority};
use crate::payload::{spec_body, NotificationPayload};
use crate::text::{append_str, dec_str, u64_to_string};

verus! {

/// One wire request: the path, the headers in emission order, and the
/// JSON body.
#[derive(Clone, Debug)]
pub struct WireRequest {
    /// The request path, `/3/device/` followed by the device token.
    pub path: String,
    /// The headers, name-value pairs in emission order.
    pub headers: Vec<(String, String)>,
    /// The UTF-8 JSON body.
    pub body: String,
}

/// The views of a header list.
pub open spec fn header_views(h: Seq<(String, String)>) -> Seq<(Seq<char>, Seq<char>)> {
    h.map_values(|kv: (String, String)| (kv.0@, kv.1@))
}

/// Whether a header by this name is present.
pub open spec fn header_present(h: Seq<(Seq<char>, Seq<char>)>, name: Seq<char>) -> bool {
    exists|i: int| 0 <= i < h.len() && h[i].0 == name
}

/// The request path for a device token.
pub open spec fn spec_path(device_token: Seq<char>) -> Seq<char> {
    "/3/device/"@ + device_token
}

/// The headers the builder emits for the given options and, in token
/// mode, the bearer token: push type always; identifier, expiration,
/// collapse key and topic only when set; priority only when it differs
/// from the gateway default; the authorization header exactly in token
/// mode.
pub open spec fn spec_headers(o: NotificationOptions, bearer: Option<Seq<char>>) -> Seq<
    (Seq<char>, Seq<char>),
> {
    let s = seq![("apns-push-type"@, o.apns_push_type.spec_str())];
    let s = if o.apns_id is Some {
        s.push(("apns-id"@, o.apns_id.unwrap()@))
    } else {
        s
    };
    let s = if o.apns_expiration is Some {
        s.push(("apns-expiration"@, dec_str(o.apns_expiration.unwrap() as nat)))
    } else {
        s
    };
    let s = if o.apns_priority is Throttled {
        s.push(("apns-priority"@, "5"@))
    } else {
        s
    };
    let s = if o.apns_topic is Some {
        s.push(("apns-topic"@, o.apns_topic.unwrap()@))
    } else {
        s
    };
    let s = if o.apns_collapse_id is Some {
        s.push(("apns-collapse-id"@, o.apns_collapse_id.unwrap()@))
    } else {
        s
    };
    let s = if bearer is Some {
        s.push(("authorization"@, "Bearer "@ + bearer.unwrap()))
    } else {
        s
    };
    s
}

/// Whether the options are locally contradictory: a push type that
/// mandates a topic, with no topic supplied.
pub open spec fn spec_options_invalid(o: NotificationOptions) -> bool {
    o.apns_push_type.spec_requires_topic() && o.apns_topic is None
}

/// The view of an optional bearer token.
pub open spec fn bearer_view(b: Option<&String>) -> Option<Seq<char>> {
    match b {
        Some(s) => Some(s@),
        None => None,
    }
}

/// The full builder outcome on valid options.
pub open spec fn spec_built(p: NotificationPayload, bearer: Option<Seq<char>>, w: WireRequest) -> bool {
    &&& w.path@ == spec_path(p.device_token@)
    &&& header_views(w.headers@) == spec_headers(p.options, bearer)
    &&& w.body@ == spec_body(p)
}

proof fn lemma_header_views_push(s: Seq<(String, String)>, k: String, v: String)
    ensures
        header_views(s.push((k, v))) == header_views(s).push((k@, v@)),
{
    assert(header_views(s.push((k, v))) =~= header_views(s).push((k@, v@)));
}

/// Map a notification payload and an optional bearer token onto the wire
/// request. Pure and deterministic: the result is fixed by the payload,
/// its options and the token. Fails exactly when the options are
/// contradictory, before any network traffic.
pub fn build(p: &NotificationPayload, bearer: Option<&String>) -> (r: Result<WireRequest, Error>)
    ensures
        spec_options_invalid(p.options) <==> r is Err,
        r matches Err(e) ==> e matches Error::InvalidOptions(m) && m@
            == "topic is required for this push type"@,
        r matches Ok(w) ==> spec_built(*p, bearer_view(bearer), w),
{
    if p.options.apns_push_type.requires_topic() && p.options.apns_topic.is_none() {
        return Err(Error::InvalidOptions("topic is required for this push type".to_owned()));
    }
    let mut path = "/3/device/".to_owned();
    append_str(&mut path, p.device_token.as_str());
    let body = p.to_json_string();
    let mut headers: Vec<(String, String)> = Vec::new();
    let ghost o = p.options;

    let k = "apns-push-type".to_owned();
    let v = p.options.apns_push_type.as_str().to_owned();
    proof {
        lemma_header_views_push(headers@, k, v);
    }
    headers.push((k, v));
    if let Some(id) = &p.options.apns_id {
        let k = "apns-id".to_owned();
        let v = id.clone();
        proof {
            lemma_header_views_push(headers@, k, v);
        }
        headers.push((k, v));
    }
    if let Some(exp) = &p.options.apns_expiration {
        let k = "apns-expiration".to_owned();
        let v = u64_to_string(*exp);
        proof {
            lemma_header_views_push(headers@, k, v);
        }
        headers.push((k, v));
    }
    if matches!(p.options.apns_priority, Priority::Throttled) {
        let k = "apns-priority".to_owned();
        let v = "5".to_owned();
        proof {
            lemma_header_views_push(headers@, k, v);
        }
        headers.push((k, v));
    }
    if let Some(topic) = &p.options.apns_topic {
        let k = "apns-topic".to_owned();
        let v = topic.clone();
        proof {
            lemma_header_views_push(headers@, k, v);
        }
        headers.push((k, v));
    }
    if let Some(collapse) = &p.options.apns_collapse_id {
        let k = "apns-collapse-id".to_owned();
        let v = collapse.clone();
        proof {
            lemma_header_views_push(headers@, k, v);
        }
        headers.push((k, v));
    }
    if let Some(token) = bearer {
        let k = "authorization".to_owned();
        let mut v = "Bearer ".to_owned();
        append_str(&mut v, token.as_str());
        proof {
            lemma_header_views_push(headers@, k, v);
        }
        headers.push((k, v));
    }
    proof {
        assert(header_views(headers@) =~= spec_headers(o, bearer_view(bearer)));
    }
    Ok(WireRequest { path, headers, body })
}

/// The builder is deterministic: equal payloads, options and tokens give
/// requests equal in path, header sequence and body bytes.
pub proof fn lemma_build_deterministic(
    p1: NotificationPayload,
    p2: NotificationPayload,
    b1: Option<Seq<char>>,
    b2: Option<Seq<char>>,
    w1: WireRequest,
    w2: WireRequest,
)
    requires
        p1 == p2,
        b1 == b2,
        spec_built(p1, b1, w1),
        spec_built(p2, b2, w2),
    ensures
        w1.path@ == w2.path@,
        header_views(w1.headers@) == header_views(w2.headers@),
        w1.body@ == w2.body@,
{
}

/// The two authentication schemes are mutually exclusive on the wire: the
/// authorization header stands in the emitted header set exactly when a
/// bearer token was supplied, so a certificate-mode request never carries
/// one.
pub proof fn lemma_auth_header_exclusive(o: NotificationOptions, bearer: Option<Seq<char>>)
    ensures
        header_present(spec_headers(o, bearer), "authorization"@) <==> bearer is Some,
{
    reveal_strlit("apns-push-type");
    reveal_strlit("apns-id");
    reveal_strlit("apns-expiration");
    reveal_strlit("apns-priority");
    reveal_strlit("apns-topic");
    reveal_strlit("apns-collapse-id");
    reveal_strlit("authorization");
    let hs = spec_headers(o, bearer);
    if bearer is Some {
        assert(hs[hs.len() - 1].0 == "authorization"@);
    } else {
        assert forall|i: int| 0 <= i < hs.len() implies hs[i].0 != "authorization"@ by {
            assert(("apns-push-type"@).len() == 14);
            assert(("apns-id"@).len() == 7);
            assert(("apns-expiration"@).len() == 15);
            assert(("apns-priority"@).len() == 13);
            assert(("apns-topic"@).len() == 10);
            assert(("apns-collapse-id"@).len() == 16);
            assert(("authorization"@).len() == 13);
            assert(("apns-priority"@)[0] == 'a' && ("authorization"@)[0] == 'a');
            assert(("apns-priority"@)[1] == 'p' && ("authorization"@)[1] == 'u');
        }
    }
}

} // verus!
