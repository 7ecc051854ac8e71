//! Events: what happened to which object, and how often.
use crate::kinds::{base_snapshot, base_view, field_if, keys1, keys2, push_field, push_field_if, push_text, text_at, text_of};
use crate::manifest::{doc_at, metadata_str, Manifest, ManifestView};
use crate::resources::{
    copy_opt_string, copy_string, join3, or_text, str_eq, text_or, HealthStatus, RelationshipType,
    ResourceLink, ResourceLinkView, ResourceSnapshot, ResourceV2, SnapshotView,
};
use crate::text::{decimal, i64_to_text};
use crate::yaml::{i64_of, key_views};
use crate::resources::Resource;
use crate::kinds::{no_names, two_names};
use vstd::prelude::*;

verus! {

/// The first of two optional values that is present.
pub open spec fn first_of<T>(a: Option<T>, b: Option<T>) -> Option<T> {
    match a {
        Some(x) => Some(x),
        None => b,
    }
}

/// The type of an event (`Normal` when unset).
pub open spec fn event_type(m: ManifestView) -> Seq<char> {
    or_text(text_of(m, seq!["type"@]), "Normal"@)
}

/// The reason of an event (`Unknown` when unset).
pub open spec fn event_reason(m: ManifestView) -> Seq<char> {
    or_text(text_of(m, seq!["reason"@]), "Unknown"@)
}

/// The message of an event (empty when unset).
pub open spec fn event_message(m: ManifestView) -> Seq<char> {
    or_text(text_of(m, seq!["message"@]), ""@)
}

/// How often the event occurred: its count, at least 1.
pub open spec fn event_count(m: ManifestView) -> i64 {
    let c = match i64_of(doc_at(m, seq!["count"@])) {
        Some(c) => c,
        None => 1,
    };
    if c < 1 {
        1
    } else {
        c
    }
}

/// The kind of the object the event is about.
pub open spec fn involved_kind(m: ManifestView) -> Option<Seq<char>> {
    text_of(m, seq!["involvedObject"@, "kind"@])
}

/// The name of the object the event is about.
pub open spec fn involved_name(m: ManifestView) -> Option<Seq<char>> {
    text_of(m, seq!["involvedObject"@, "name"@])
}

/// The namespace of the object the event is about, else the event's own.
pub open spec fn involved_namespace(m: ManifestView) -> Option<Seq<char>> {
    first_of(text_of(m, seq!["involvedObject"@, "namespace"@]), metadata_str(m, "namespace"@))
}

/// When the event happened: its last, event or first time, else when it
/// was created.
pub open spec fn event_timestamp(m: ManifestView) -> Option<Seq<char>> {
    first_of(
        text_of(m, seq!["lastTimestamp"@]),
        first_of(
            text_of(m, seq!["eventTime"@]),
            first_of(text_of(m, seq!["firstTimestamp"@]), metadata_str(m, "creationTimestamp"@)),
        ),
    )
}

/// The component that reported the event.
pub open spec fn reporting_component(m: ManifestView) -> Option<Seq<char>> {
    first_of(text_of(m, seq!["reportingComponent"@]), text_of(m, seq!["source"@, "component"@]))
}

/// The name an event is shown under: `reason - kind/name` when it names its
/// object, else its reason.
pub open spec fn event_display_name(m: ManifestView) -> Seq<char> {
    match (involved_kind(m), involved_name(m)) {
        (Some(k), Some(n)) => event_reason(m) + " - "@ + k + "/"@ + n,
        _ => event_reason(m),
    }
}

/// What an event yields.
pub open spec fn event_view(m: ManifestView) -> SnapshotView {
    let t = event_type(m);
    let message = event_message(m);
    SnapshotView {
        name: event_display_name(m),
        health_status: if t == "Warning"@ {
            HealthStatus::Warning
        } else if t == "Normal"@ {
            HealthStatus::Healthy
        } else {
            HealthStatus::Unknown
        },
        warnings: if t == "Warning"@ && message.len() > 0 {
            seq![message]
        } else {
            Seq::empty()
        },
        relationships: match (involved_kind(m), involved_name(m)) {
            (Some(k), Some(n)) => seq![
                ResourceLinkView {
                    kind: k,
                    name: n,
                    namespace: involved_namespace(m),
                    relationship: RelationshipType::References,
                },
            ],
            _ => Seq::empty(),
        },
        summary: Some(message),
        key_fields: seq![
            ("type"@, t),
            ("reason"@, event_reason(m)),
            ("count"@, decimal(event_count(m) as int)),
        ] + (if message.len() > 0 {
            seq![("message"@, message)]
        } else {
            Seq::empty()
        }) + field_if("involved_kind"@, involved_kind(m)) + field_if(
            "involved_name"@,
            involved_name(m),
        ) + field_if("timestamp"@, event_timestamp(m)) + field_if(
            "reporting_component"@,
            reporting_component(m),
        ),
        ..base_view(m, "Event"@, metadata_str(m, "namespace"@))
    }
}

/// An event.
#[derive(Debug)]
pub struct Event {
    manifest: Manifest,
}

impl Event {
    /// The manifest the event was read from.
    pub closed spec fn manifest_view(self) -> ManifestView {
        self.manifest@
    }

    /// Reads an event from its manifest.
    pub fn from(manifest: Manifest) -> (r: Event)
        ensures
            r.manifest_view() == manifest@,
    {
        Event { manifest }
    }
}

/// The first of two optional texts that is present.
fn first_text(a: Option<String>, b: Option<String>) -> (r: Option<String>)
    ensures
        r.deep_view() == first_of(a.deep_view(), b.deep_view()),
{
    match a {
        Some(x) => Some(x),
        None => b,
    }
}

/// The type, reason and message of an event.
fn event_texts(m: &Manifest) -> (r: (String, String, String))
    ensures
        r.0@ == event_type(m@),
        r.1@ == event_reason(m@),
        r.2@ == event_message(m@),
{
    proof {
        reveal_strlit("");
    }
    let t = match text_at(m, &keys1("type")) {
        Some(x) => x,
        None => String::from_str("Normal"),
    };
    let reason = match text_at(m, &keys1("reason")) {
        Some(x) => x,
        None => String::from_str("Unknown"),
    };
    let message = match text_at(m, &keys1("message")) {
        Some(x) => x,
        None => String::new(),
    };
    (t, reason, message)
}

/// How often an event occurred.
fn event_count_of(m: &Manifest) -> (r: i64)
    ensures
        r == event_count(m@),
{
    let count_path = keys1("count");
    let raw_count: i64 = match m.at(&count_path) {
        Some(n) => match n.as_i64() {
            Some(c) => c,
            None => 1,
        },
        None => 1,
    };
    if raw_count < 1 {
        1
    } else {
        raw_count
    }
}

/// The kind, name and namespace of the object an event is about.
fn event_object(m: &Manifest) -> (r: (Option<String>, Option<String>, Option<String>))
    ensures
        r.0.deep_view() == involved_kind(m@),
        r.1.deep_view() == involved_name(m@),
        r.2.deep_view() == involved_namespace(m@),
{
    let kind = text_at(m, &keys2("involvedObject", "kind"));
    let name = text_at(m, &keys2("involvedObject", "name"));
    let ns = first_text(text_at(m, &keys2("involvedObject", "namespace")), m.namespace());
    (kind, name, ns)
}

/// When an event happened and who reported it.
fn event_origin(m: &Manifest) -> (r: (Option<String>, Option<String>))
    ensures
        r.0.deep_view() == event_timestamp(m@),
        r.1.deep_view() == reporting_component(m@),
{
    let timestamp = first_text(
        text_at(m, &keys1("lastTimestamp")),
        first_text(
            text_at(m, &keys1("eventTime")),
            first_text(text_at(m, &keys1("firstTimestamp")), m.creation_timestamp()),
        ),
    );
    let component = first_text(
        text_at(m, &keys1("reportingComponent")),
        text_at(m, &keys2("source", "component")),
    );
    (timestamp, component)
}

/// The key fields of an event.
fn event_fields(m: &Manifest) -> (r: Vec<(String, String)>)
    ensures
        r.deep_view() == event_view(m@).key_fields,
{
    let (t, reason, message) = event_texts(m);
    let count = event_count_of(m);
    let (kind, name, _ns) = event_object(m);
    let (timestamp, component) = event_origin(m);
    let mut f: Vec<(String, String)> = Vec::new();
    push_field(&mut f, "type", t);
    push_field(&mut f, "reason", reason);
    push_field(&mut f, "count", i64_to_text(count));
    if message.as_str().unicode_len() > 0 {
        push_field(&mut f, "message", message);
    }
    push_field_if(&mut f, "involved_kind", &kind);
    push_field_if(&mut f, "involved_name", &name);
    push_field_if(&mut f, "timestamp", &timestamp);
    push_field_if(&mut f, "reporting_component", &component);
    assert(f.deep_view() =~= event_view(m@).key_fields);
    f
}

impl ResourceV2 for Event {
    open spec fn describe(&self) -> SnapshotView {
        event_view(self.manifest_view())
    }

    fn snapshot(&self) -> (r: ResourceSnapshot) {
        let m = &self.manifest;
        let namespace = m.namespace();
        let (t, reason, message) = event_texts(m);
        let (kind, name, involved_ns) = event_object(m);
        let mut s = base_snapshot(m, "Event", &namespace);
        match (&kind, &name) {
            (Some(k), Some(n)) => {
                let mut display = join3(reason.as_str(), " - ", k.as_str());
                display.append("/");
                display.append(n.as_str());
                s.name = display;
                let link = ResourceLink {
                    kind: copy_string(k),
                    name: copy_string(n),
                    namespace: involved_ns,
                    relationship: RelationshipType::References,
                };
                let ghost lv = link@;
                s.relationships.push(link);
                assert(s.relationships.deep_view() =~= seq![lv]);
            },
            _ => {
                s.name = copy_string(&reason);
            },
        }
        let is_warning = str_eq(t.as_str(), "Warning");
        s.health_status = if is_warning {
            HealthStatus::Warning
        } else if str_eq(t.as_str(), "Normal") {
            HealthStatus::Healthy
        } else {
            HealthStatus::Unknown
        };
        if is_warning && message.as_str().unicode_len() > 0 {
            push_text(&mut s.warnings, copy_string(&message));
        }
        s.summary = Some(message);
        s.key_fields = event_fields(m);
        proof {
            let v = event_view(m@);
            assert(s@.warnings =~= v.warnings);
            assert(s@.relationships =~= v.relationships);
        }
        s
    }
}

// ---------------------------------------------------------------------------
// The first view of each kind
// ---------------------------------------------------------------------------

impl Resource for Event {
    open spec fn failing(&self) -> bool {
        false
    }

    open spec fn warned(&self) -> bool {
        false
    }

    open spec fn flagged(&self) -> Seq<Seq<char>> {
        Seq::empty()
    }

    fn is_error(&self) -> (r: bool) {
        false
    }

    fn is_warning(&self) -> (r: bool) {
        false
    }

    fn conditions(&self) -> (r: Vec<String>) {
        no_names()
    }
}

} // verus!
