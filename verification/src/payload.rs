//! The notification payload and its exact wire-body serialization.

use vstd::prelude::*;
use crate::options::NotificationOptions;
use crate::text::{append_json_str, append_str, dec_str, json_str, push_char, u64_to_string};

verus! {

/// A caller-supplied top-level field value beside the `aps` object.
#[derive(Clone, Debug)]
pub enum CustomValue {
    /// A JSON string.
    Text(String),
    /// A non-negative JSON number.
    Number(u64),
    /// A JSON boolean.
    Flag(bool),
}

/// The `aps` dictionary: what the device presents to the user.
#[derive(Clone, Debug)]
pub struct Aps {
    /// The alert text.
    pub alert: Option<String>,
    /// The sound to play on delivery.
    pub sound: Option<String>,
    /// The number to badge the application icon with.
    pub badge: Option<u32>,
    /// Whether the push only wakes the application in the background.
    pub content_available: bool,
    /// Whether a service extension may rewrite the content.
    pub mutable_content: bool,
    /// The action category the notification belongs to.
    pub category: Option<String>,
    /// The thread the notification is grouped under.
    pub thread_id: Option<String>,
}

impl Aps {
    /// An empty `aps` dictionary.
    pub fn new() -> (r: Aps)
        ensures
            r.alert is None,
            r.sound is None,
            r.badge is None,
            !r.content_available,
            !r.mutable_content,
            r.category is None,
            r.thread_id is None,
    {
        Aps {
            alert: None,
            sound: None,
            badge: None,
            content_available: false,
            mutable_content: false,
            category: None,
            thread_id: None,
        }
    }
}

/// One notification: the recipient device, the content, caller-supplied
/// custom fields, and the delivery options.
#[derive(Clone, Debug)]
pub struct NotificationPayload {
    /// The recipient's device identifier, sent verbatim in the path.
    pub device_token: String,
    /// The `aps` content object.
    pub aps: Aps,
    /// Custom top-level fields serialized beside `aps`.
    pub custom: Vec<(String, CustomValue)>,
    /// Delivery options.
    pub options: NotificationOptions,
}

/// The views of a sequence of built parts.
pub open spec fn seq_views(s: Seq<String>) -> Seq<Seq<char>> {
    s.map_values(|x: String| x@)
}

/// Comma-separated concatenation of parts.
pub open spec fn comma_join(parts: Seq<Seq<char>>) -> Seq<char>
    decreases parts.len(),
{
    if parts.len() == 0 {
        Seq::empty()
    } else if parts.len() == 1 {
        parts[0]
    } else {
        comma_join(parts.drop_last()) + seq![','] + parts.last()
    }
}

proof fn lemma_comma_join_step(parts: Seq<Seq<char>>, i: int)
    requires
        0 < i < parts.len(),
    ensures
        comma_join(parts.take(i + 1)) == comma_join(parts.take(i)) + seq![','] + parts[i],
{
    assert(parts.take(i + 1).drop_last() =~= parts.take(i));
    assert(parts.take(i + 1).last() == parts[i]);
}

/// Join the built parts with commas.
fn join_parts(parts: &Vec<String>) -> (r: String)
    ensures
        r@ == comma_join(seq_views(parts@)),
{
    let ghost vs = seq_views(parts@);
    let mut out = String::new();
    let mut i: usize = 0;
    proof {
        assert(vs.take(0) =~= Seq::<Seq<char>>::empty());
    }
    while i < parts.len()
        invariant
            0 <= i <= parts@.len(),
            vs == seq_views(parts@),
            vs.len() == parts@.len(),
            out@ == comma_join(vs.take(i as int)),
        decreases parts@.len() - i,
    {
        if i > 0 {
            push_char(&mut out, ',');
        }
        append_str(&mut out, parts[i].as_str());
        proof {
            assert(vs[i as int] == parts@[i as int]@);
            if i > 0 {
                lemma_comma_join_step(vs, i as int);
                assert(out@ =~= comma_join(vs.take(i + 1)));
            } else {
                assert(vs.take(1).len() == 1);
                assert(vs.take(1)[0] == vs[0]);
                assert(out@ =~= comma_join(vs.take(1)));
            }
        }
        i += 1;
    }
    proof {
        assert(vs.take(vs.len() as int) =~= vs);
    }
    out
}

/// The serialized form of one custom value.
pub open spec fn custom_json(v: CustomValue) -> Seq<char> {
    match v {
        CustomValue::Text(s) => json_str(s@),
        CustomValue::Number(n) => dec_str(n as nat),
        CustomValue::Flag(b) => if b {
            "true"@
        } else {
            "false"@
        },
    }
}

/// One custom top-level member: escaped key, colon, value.
pub open spec fn custom_part(k: Seq<char>, v: CustomValue) -> Seq<char> {
    json_str(k) + seq![':'] + custom_json(v)
}

/// The members of the `aps` object, in wire order, only those present.
pub open spec fn aps_parts(a: Aps) -> Seq<Seq<char>> {
    let s = Seq::<Seq<char>>::empty();
    let s = if a.alert is Some {
        s.push("\"alert\":"@ + json_str(a.alert.unwrap()@))
    } else {
        s
    };
    let s = if a.sound is Some {
        s.push("\"sound\":"@ + json_str(a.sound.unwrap()@))
    } else {
        s
    };
    let s = if a.badge is Some {
        s.push("\"badge\":"@ + dec_str(a.badge.unwrap() as nat))
    } else {
        s
    };
    let s = if a.content_available {
        s.push("\"content-available\":1"@)
    } else {
        s
    };
    let s = if a.mutable_content {
        s.push("\"mutable-content\":1"@)
    } else {
        s
    };
    let s = if a.category is Some {
        s.push("\"category\":"@ + json_str(a.category.unwrap()@))
    } else {
        s
    };
    let s = if a.thread_id is Some {
        s.push("\"thread-id\":"@ + json_str(a.thread_id.unwrap()@))
    } else {
        s
    };
    s
}

/// The serialized `aps` member of the body.
pub open spec fn aps_json(a: Aps) -> Seq<char> {
    "\"aps\":{"@ + comma_join(aps_parts(a)) + seq!['}']
}

/// The top-level members of the body: `aps` first, then the custom fields
/// in order.
pub open spec fn body_parts(p: NotificationPayload) -> Seq<Seq<char>> {
    seq![aps_json(p.aps)] + p.custom@.map_values(
        |kv: (String, CustomValue)| custom_part(kv.0@, kv.1),
    )
}

/// The complete JSON body of the wire request for this payload.
pub open spec fn spec_body(p: NotificationPayload) -> Seq<char> {
    seq!['{'] + comma_join(body_parts(p)) + seq!['}']
}

proof fn lemma_views_push(s: Seq<String>, x: String)
    ensures
        seq_views(s.push(x)) == seq_views(s).push(x@),
{
    assert(seq_views(s.push(x)) =~= seq_views(s).push(x@));
}

/// Serialize one custom value onto `out`.
fn append_custom(out: &mut String, v: &CustomValue)
    ensures
        final(out)@ == old(out)@ + custom_json(*v),
{
    match v {
        CustomValue::Text(s) => {
            append_json_str(out, s.as_str());
        },
        CustomValue::Number(n) => {
            let num = u64_to_string(*n);
            append_str(out, num.as_str());
        },
        CustomValue::Flag(b) => {
            if *b {
                append_str(out, "true");
            } else {
                append_str(out, "false");
            }
        },
    }
}

/// Build the members of the `aps` object.
fn build_aps_parts(a: &Aps) -> (parts: Vec<String>)
    ensures
        seq_views(parts@) == aps_parts(*a),
{
    let mut parts: Vec<String> = Vec::new();
    if let Some(alert) = &a.alert {
        let mut part = "\"alert\":".to_owned();
        append_json_str(&mut part, alert.as_str());
        proof {
            lemma_views_push(parts@, part);
        }
        parts.push(part);
    }
    if let Some(sound) = &a.sound {
        let mut part = "\"sound\":".to_owned();
        append_json_str(&mut part, sound.as_str());
        proof {
            lemma_views_push(parts@, part);
        }
        parts.push(part);
    }
    if let Some(badge) = &a.badge {
        let mut part = "\"badge\":".to_owned();
        let num = u64_to_string(*badge as u64);
        append_str(&mut part, num.as_str());
        proof {
            lemma_views_push(parts@, part);
        }
        parts.push(part);
    }
    if a.content_available {
        let part = "\"content-available\":1".to_owned();
        proof {
            lemma_views_push(parts@, part);
        }
        parts.push(part);
    }
    if a.mutable_content {
        let part = "\"mutable-content\":1".to_owned();
        proof {
            lemma_views_push(parts@, part);
        }
        parts.push(part);
    }
    if let Some(category) = &a.category {
        let mut part = "\"category\":".to_owned();
        append_json_str(&mut part, category.as_str());
        proof {
            lemma_views_push(parts@, part);
        }
        parts.push(part);
    }
    if let Some(thread_id) = &a.thread_id {
        let mut part = "\"thread-id\":".to_owned();
        append_json_str(&mut part, thread_id.as_str());
        proof {
            lemma_views_push(parts@, part);
        }
        parts.push(part);
    }
    proof {
        assert(seq_views(parts@) =~= aps_parts(*a));
    }
    parts
}

impl NotificationPayload {
    /// Serialize the payload as the wire body: one JSON object holding
    /// `aps` and the custom fields, in a fixed member order.
    pub fn to_json_string(&self) -> (r: String)
        ensures
            r@ == spec_body(*self),
    {
        let ghost cparts = self.custom@.map_values(
            |kv: (String, CustomValue)| custom_part(kv.0@, kv.1),
        );
        let aps_parts_v = build_aps_parts(&self.aps);
        let inner = join_parts(&aps_parts_v);
        let mut aps_member = "\"aps\":{".to_owned();
        append_str(&mut aps_member, inner.as_str());
        push_char(&mut aps_member, '}');
        proof {
            assert(aps_member@ =~= aps_json(self.aps));
        }
        let mut parts: Vec<String> = Vec::new();
        proof {
            lemma_views_push(parts@, aps_member);
        }
        parts.push(aps_member);
        let mut j: usize = 0;
        proof {
            assert(seq_views(parts@) =~= seq![aps_json(self.aps)] + cparts.take(0));
        }
        while j < self.custom.len()
            invariant
                0 <= j <= self.custom@.len(),
                cparts == self.custom@.map_values(
                    |kv: (String, CustomValue)| custom_part(kv.0@, kv.1),
                ),
                cparts.len() == self.custom@.len(),
                seq_views(parts@) == seq![aps_json(self.aps)] + cparts.take(j as int),
            decreases self.custom@.len() - j,
        {
            let kv = &self.custom[j];
            let mut part = String::new();
            append_json_str(&mut part, kv.0.as_str());
            push_char(&mut part, ':');
            append_custom(&mut part, &kv.1);
            proof {
                assert(cparts[j as int] == custom_part(self.custom@[j as int].0@, self.custom@[
                    j as int].1));
                assert(part@ =~= cparts[j as int]);
                lemma_views_push(parts@, part);
                assert(seq_views(parts@).push(part@) =~= seq![aps_json(self.aps)] + cparts.take(
                    j + 1));
            }
            parts.push(part);
            j += 1;
        }
        proof {
            assert(cparts.take(cparts.len() as int) =~= cparts);
            assert(seq_views(parts@) =~= body_parts(*self));
        }
        let joined = join_parts(&parts);
        let mut out = String::new();
        push_char(&mut out, '{');
        append_str(&mut out, joined.as_str());
        push_char(&mut out, '}');
        proof {
            assert(out@ =~= spec_body(*self));
        }
        out
    }
}

} // verus!
