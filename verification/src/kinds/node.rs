//! Nodes: healthy when Ready.
use crate::kinds::{base_snapshot, base_view, condition_views, conditions_of};
use crate::manifest::{manifest_has_condition_status, Manifest, ManifestView};
use crate::resources::{
    join2, join3, or_text, str_eq, text_or, ConditionView, HealthStatus, ResourceSnapshot,
    ResourceV2, SnapshotView,
};
use crate::resources::Resource;
use crate::kinds::{no_names, two_names};
use vstd::prelude::*;

verus! {

/// The warning of each condition other than Ready that is True.
pub open spec fn node_warnings(conds: Seq<ConditionView>) -> Seq<Seq<char>>
    decreases conds.len(),
{
    if conds.len() == 0 {
        Seq::empty()
    } else {
        let init = node_warnings(conds.drop_last());
        let c = conds.last();
        if c.type_ != "Ready"@ && c.status == "True"@ {
            init.push(c.type_ + ": "@ + or_text(c.message, "No message"@))
        } else {
            init
        }
    }
}

/// The status word of a node.
pub open spec fn node_status_word(ready: bool) -> Seq<char> {
    if ready {
        "Ready"@
    } else {
        "NotReady"@
    }
}

/// What a node yields.
pub open spec fn node_view(m: ManifestView) -> SnapshotView {
    let ready = manifest_has_condition_status(m, "Ready"@, "True"@);
    let conds = condition_views(m);
    SnapshotView {
        health_status: if ready {
            HealthStatus::Healthy
        } else {
            HealthStatus::Error
        },
        conditions: conds,
        warnings: node_warnings(conds),
        errors: if ready {
            Seq::empty()
        } else {
            seq!["Node is not Ready"@]
        },
        summary: Some("Node "@ + m.name + " - Status: "@ + node_status_word(ready)),
        key_fields: seq![("status"@, node_status_word(ready))],
        ..base_view(m, "Node"@, None)
    }
}

/// A node of the cluster.
#[derive(Debug)]
pub struct Node {
    manifest: Manifest,
    is_ready: bool,
}

impl Node {
    #[verifier::type_invariant]
    spec fn wf(self) -> bool {
        self.is_ready == manifest_has_condition_status(self.manifest@, "Ready"@, "True"@)
    }

    /// The manifest the node was read from.
    pub closed spec fn manifest_view(self) -> ManifestView {
        self.manifest@
    }

    /// Reads a node from its manifest.
    pub fn from(manifest: Manifest) -> (r: Node)
        ensures
            r.manifest_view() == manifest@,
    {
        let is_ready = manifest.has_condition_status("Ready", "True");
        Node { manifest, is_ready }
    }

    /// The node's name.
    pub fn name(&self) -> (r: &String)
        ensures
            r@ == self.manifest_view().name,
    {
        &self.manifest.name
    }
}

/// The warnings of a node's conditions.
fn warnings_of(conds: &Vec<crate::resources::Condition>) -> (r: Vec<String>)
    ensures
        r.deep_view() == node_warnings(conds.deep_view()),
{
    let ghost cv = conds.deep_view();
    let mut out: Vec<String> = Vec::new();
    let mut i: usize = 0;
    assert(cv.take(0) =~= Seq::<ConditionView>::empty());
    while i < conds.len()
        invariant
            i <= conds.len(),
            cv == conds.deep_view(),
            out.deep_view() == node_warnings(cv.take(i as int)),
        decreases conds.len() - i,
    {
        assert(cv.take(i + 1).drop_last() =~= cv.take(i as int));
        let c = &conds[i];
        assert(cv[i as int] == c@);
        let ghost before = out.deep_view();
        if !str_eq(c.type_.as_str(), "Ready") && str_eq(c.status.as_str(), "True") {
            let w = join3(c.type_.as_str(), ": ", text_or(&c.message, "No message"));
            let ghost wv = w@;
            out.push(w);
            assert(out.deep_view() =~= before.push(wv));
        }
        i = i + 1;
    }
    assert(cv.take(conds.len() as int) =~= cv);
    out
}

impl ResourceV2 for Node {
    open spec fn describe(&self) -> SnapshotView {
        node_view(self.manifest_view())
    }

    fn snapshot(&self) -> (r: ResourceSnapshot) {
        proof {
            use_type_invariant(self);
        }
        let m = &self.manifest;
        let mut s = base_snapshot(m, "Node", &None);
        let word = if self.is_ready {
            "Ready"
        } else {
            "NotReady"
        };
        s.health_status = if self.is_ready {
            HealthStatus::Healthy
        } else {
            HealthStatus::Error
        };
        s.conditions = conditions_of(m);
        s.warnings = warnings_of(&s.conditions);
        if !self.is_ready {
            s.errors.push(String::from_str("Node is not Ready"));
        }
        let mut summary = join3("Node ", m.name.as_str(), " - Status: ");
        summary.append(word);
        s.summary = Some(summary);
        s.key_fields.push((String::from_str("status"), String::from_str(word)));
        proof {
            assert(s@.errors =~= node_view(m@).errors);
            assert(s@.key_fields =~= node_view(m@).key_fields);
        }
        s
    }
}

// ---------------------------------------------------------------------------
// The first view of each kind
// ---------------------------------------------------------------------------

impl Resource for Node {
    open spec fn failing(&self) -> bool {
        !manifest_has_condition_status(self.manifest_view(), "Ready"@, "True"@)
    }

    open spec fn warned(&self) -> bool {
        false
    }

    open spec fn flagged(&self) -> Seq<Seq<char>> {
        Seq::empty()
    }

    fn is_error(&self) -> (r: bool) {
        !self.manifest.has_condition_status("Ready", "True")
    }

    fn is_warning(&self) -> (r: bool) {
        false
    }

    fn conditions(&self) -> (r: Vec<String>) {
        no_names()
    }
}

} // verus!
