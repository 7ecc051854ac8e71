//! A registry of resource types: for each group and kind, how the type is
//! shown and where its manifests lie in a must-gather.
use crate::resources::{copy_string, str_eq};
use vstd::prelude::*;

verus! {

/// Describes a resource type: its kind and group, whether it lives in
/// namespaces, its display name, and the path of its manifests below a
/// must-gather root (the root followed by `path_suffix`).
#[derive(Debug)]
pub struct ResourceDescriptor {
    pub kind: String,
    pub group: String,
    pub namespace_scoped: bool,
    pub display_name: String,
    pub path_suffix: String,
}

pub struct DescriptorView {
    pub kind: Seq<char>,
    pub group: Seq<char>,
    pub namespace_scoped: bool,
    pub display_name: Seq<char>,
    pub path_suffix: Seq<char>,
}

impl View for ResourceDescriptor {
    type V = DescriptorView;

    open spec fn view(&self) -> DescriptorView {
        DescriptorView {
            kind: self.kind@,
            group: self.group@,
            namespace_scoped: self.namespace_scoped,
            display_name: self.display_name@,
            path_suffix: self.path_suffix@,
        }
    }
}

impl DeepView for ResourceDescriptor {
    type V = DescriptorView;

    open spec fn deep_view(&self) -> DescriptorView {
        self@
    }
}

/// The key a type is registered under: `group/kind`.
pub open spec fn registry_key(group: Seq<char>, kind: Seq<char>) -> Seq<char> {
    group + seq!['/'] + kind
}

/// The key of a descriptor.
pub open spec fn descriptor_key(d: DescriptorView) -> Seq<char> {
    registry_key(d.group, d.kind)
}

impl ResourceDescriptor {
    /// The path of this type's manifests below a must-gather root.
    pub fn build_path(&self, root: &str) -> (r: String)
        ensures
            r@ == root@ + self.path_suffix@,
    {
        let mut s = String::from_str(root);
        s.append(self.path_suffix.as_str());
        s
    }
}

/// No two descriptors of the list have the same key.
pub open spec fn keys_unique(ds: Seq<DescriptorView>) -> bool {
    forall|i: int, j: int|
        0 <= i < j < ds.len() ==> descriptor_key(#[trigger] ds[i]) != descriptor_key(#[trigger] ds[j])
}

/// The registry as a map from key to descriptor.
pub open spec fn as_map(ds: Seq<DescriptorView>) -> Map<Seq<char>, DescriptorView>
    decreases ds.len(),
{
    if ds.len() == 0 {
        Map::empty()
    } else {
        as_map(ds.drop_last()).insert(descriptor_key(ds.last()), ds.last())
    }
}

/// The descriptors registered, each under its key, at most one per key.
#[derive(Debug)]
pub struct ResourceRegistry {
    descriptors: Vec<ResourceDescriptor>,
}

impl ResourceRegistry {
    /// The descriptors, in the order they were first registered.
    pub closed spec fn entries(self) -> Seq<DescriptorView> {
        self.descriptors.deep_view()
    }

    /// The registry as a map from `group/kind` to descriptor.
    pub open spec fn view_map(self) -> Map<Seq<char>, DescriptorView> {
        as_map(self.entries())
    }

    #[verifier::type_invariant]
    spec fn wf(self) -> bool {
        keys_unique(self.descriptors.deep_view())
    }

    /// An empty registry.
    pub fn new() -> (r: ResourceRegistry)
        ensures
            r.entries().len() == 0,
            r.view_map() == Map::<Seq<char>, DescriptorView>::empty(),
    {
        let r = ResourceRegistry { descriptors: Vec::new() };
        assert(r.descriptors.deep_view() =~= Seq::<DescriptorView>::empty());
        r
    }

    /// The position of the descriptor with the key, if any.
    fn position(&self, group: &str, kind: &str) -> (r: Option<usize>)
        ensures
            match r {
                Some(i) => i < self.entries().len() && descriptor_key(self.entries()[i as int])
                    == registry_key(group@, kind@),
                None => forall|i: int|
                    0 <= i < self.entries().len() ==> descriptor_key(#[trigger] self.entries()[i])
                        != registry_key(group@, kind@),
            },
    {
        let ghost key = registry_key(group@, kind@);
        let mut i: usize = 0;
        while i < self.descriptors.len()
            invariant
                i <= self.descriptors.len(),
                forall|k: int|
                    0 <= k < i ==> descriptor_key(#[trigger] self.descriptors.deep_view()[k])
                        != key,
            decreases self.descriptors.len() - i,
        {
            let d = &self.descriptors[i];
            let mut k = String::from_str(d.group.as_str());
            k.append("/");
            k.append(d.kind.as_str());
            let mut q = String::from_str(group);
            q.append("/");
            q.append(kind);
            proof {
                reveal_strlit("/");
                assert(k@ =~= descriptor_key(d@));
                assert(q@ =~= key);
                assert(self.descriptors.deep_view()[i as int] == d@);
            }
            if str_eq(k.as_str(), q.as_str()) {
                return Some(i);
            }
            i = i + 1;
        }
        None
    }

    /// Registers a descriptor under `group/kind`, replacing the one
    /// registered under the same key.
    pub fn register(&mut self, descriptor: ResourceDescriptor)
        ensures
            final(self).view_map() == old(self).view_map().insert(
                descriptor_key(descriptor@),
                descriptor@,
            ),
            old(self).view_map().contains_key(descriptor_key(descriptor@))
                ==> final(self).entries().len() == old(self).entries().len(),
            !old(self).view_map().contains_key(descriptor_key(descriptor@))
                ==> final(self).entries().len() == old(self).entries().len() + 1,
    {
        proof {
            use_type_invariant(&*self);
            lemma_as_map_keys(self.descriptors.deep_view());
        }
        let ghost dv = descriptor@;
        let ghost key = descriptor_key(dv);
        let ghost old_entries = self.descriptors.deep_view();
        match self.position(descriptor.group.as_str(), descriptor.kind.as_str()) {
            Some(i) => {
                let mut ds = Vec::new();
                std::mem::swap(&mut ds, &mut self.descriptors);
                ds.set(i, descriptor);
                proof {
                    assert(ds.deep_view() =~= old_entries.update(i as int, dv));
                    lemma_as_map_update(old_entries, i as int, dv);
                }
                self.descriptors = ds;
            },
            None => {
                assert forall|k: int| 0 <= k < old_entries.len() implies descriptor_key(
                    #[trigger] old_entries[k],
                ) != key by {
                    assert(self.entries()[k] == old_entries[k]);
                }
                let mut ds = Vec::new();
                std::mem::swap(&mut ds, &mut self.descriptors);
                ds.push(descriptor);
                proof {
                    assert(ds.deep_view() =~= old_entries.push(dv));
                    assert(ds.deep_view().drop_last() =~= old_entries);
                    assert forall|i: int, j: int|
                        0 <= i < j < ds.deep_view().len() implies descriptor_key(
                        #[trigger] ds.deep_view()[i],
                    ) != descriptor_key(#[trigger] ds.deep_view()[j]) by {
                        if j < old_entries.len() {
                            assert(ds.deep_view()[i] == old_entries[i]);
                            assert(ds.deep_view()[j] == old_entries[j]);
                        } else {
                            assert(ds.deep_view()[i] == old_entries[i]);
                            assert(ds.deep_view()[j] == dv);
                            assert(descriptor_key(old_entries[i]) != key);
                        }
                    }
                    assert(!as_map(old_entries).contains_key(key)) by {
                        if as_map(old_entries).contains_key(key) {
                            let i = choose|i: int|
                                0 <= i < old_entries.len() && descriptor_key(
                                    #[trigger] old_entries[i],
                                ) == key;
                            assert(descriptor_key(old_entries[i]) != key);
                        }
                    }
                    assert(as_map(ds.deep_view()) == as_map(old_entries).insert(key, dv));
                }
                self.descriptors = ds;
            },
        }
    }

    /// The descriptor registered under `group/kind`, if any.
    pub fn get(&self, group: &str, kind: &str) -> (r: Option<&ResourceDescriptor>)
        ensures
            match r {
                Some(d) => self.view_map().contains_key(registry_key(group@, kind@))
                    && self.view_map()[registry_key(group@, kind@)] == d@,
                None => !self.view_map().contains_key(registry_key(group@, kind@)),
            },
    {
        proof {
            use_type_invariant(self);
            lemma_as_map_keys(self.descriptors.deep_view());
        }
        match self.position(group, kind) {
            Some(i) => {
                proof {
                    lemma_as_map_at(self.descriptors.deep_view(), i as int);
                }
                Some(&self.descriptors[i])
            },
            None => None,
        }
    }

    /// All descriptors registered, one per key.
    pub fn all_descriptors(&self) -> (r: Vec<&ResourceDescriptor>)
        ensures
            r@.len() == self.view_map().dom().len(),
            forall|i: int|
                0 <= i < r@.len() ==> self.view_map().contains_key(descriptor_key(r@[i]@))
                    && self.view_map()[descriptor_key(r@[i]@)] == r@[i]@,
    {
        proof {
            use_type_invariant(self);
            lemma_as_map_keys(self.descriptors.deep_view());
            lemma_as_map_len(self.descriptors.deep_view());
        }
        let mut out: Vec<&ResourceDescriptor> = Vec::new();
        let mut i: usize = 0;
        while i < self.descriptors.len()
            invariant
                i <= self.descriptors.len(),
                out@.len() == i,
                keys_unique(self.descriptors.deep_view()),
                forall|k: int| 0 <= k < i ==> out@[k]@ == self.descriptors.deep_view()[k],
            decreases self.descriptors.len() - i,
        {
            out.push(&self.descriptors[i]);
            i = i + 1;
        }
        proof {
            assert forall|k: int| 0 <= k < out@.len() implies self.view_map().contains_key(
                descriptor_key(out@[k]@),
            ) && self.view_map()[descriptor_key(out@[k]@)] == out@[k]@ by {
                lemma_as_map_at(self.descriptors.deep_view(), k);
            }
        }
        out
    }
}

/// The keys of the map are the keys of the list.
proof fn lemma_as_map_keys(ds: Seq<DescriptorView>)
    ensures
        forall|k: Seq<char>|
            as_map(ds).contains_key(k) <==> exists|i: int|
                0 <= i < ds.len() && descriptor_key(#[trigger] ds[i]) == k,
    decreases ds.len(),
{
    if ds.len() > 0 {
        lemma_as_map_keys(ds.drop_last());
        assert forall|k: Seq<char>|
            as_map(ds).contains_key(k) <==> exists|i: int|
                0 <= i < ds.len() && descriptor_key(#[trigger] ds[i]) == k by {
            if as_map(ds).contains_key(k) {
                if k == descriptor_key(ds.last()) {
                    assert(descriptor_key(ds[ds.len() - 1]) == k);
                } else {
                    assert(as_map(ds.drop_last()).contains_key(k));
                    let i = choose|i: int|
                        0 <= i < ds.drop_last().len() && descriptor_key(
                            #[trigger] ds.drop_last()[i],
                        ) == k;
                    assert(ds[i] == ds.drop_last()[i]);
                }
            }
            if exists|i: int| 0 <= i < ds.len() && descriptor_key(#[trigger] ds[i]) == k {
                let i = choose|i: int| 0 <= i < ds.len() && descriptor_key(#[trigger] ds[i]) == k;
                if i < ds.len() - 1 {
                    assert(ds.drop_last()[i] == ds[i]);
                    assert(descriptor_key(ds.drop_last()[i]) == k);
                    assert(as_map(ds.drop_last()).contains_key(k));
                }
            }
        }
    }
}

/// With unique keys, the map gives each descriptor under its key.
proof fn lemma_as_map_at(ds: Seq<DescriptorView>, i: int)
    requires
        keys_unique(ds),
        0 <= i < ds.len(),
    ensures
        as_map(ds).contains_key(descriptor_key(ds[i])),
        as_map(ds)[descriptor_key(ds[i])] == ds[i],
    decreases ds.len(),
{
    if i < ds.len() - 1 {
        let init = ds.drop_last();
        assert(init[i] == ds[i]);
        assert(keys_unique(init)) by {
            assert forall|a: int, b: int| 0 <= a < b < init.len() implies descriptor_key(
                #[trigger] init[a],
            ) != descriptor_key(#[trigger] init[b]) by {
                assert(init[a] == ds[a]);
                assert(init[b] == ds[b]);
            }
        }
        lemma_as_map_at(init, i);
        assert(descriptor_key(ds[i]) != descriptor_key(ds[ds.len() - 1]));
    }
}

/// With unique keys, the map has as many keys as the list has entries.
proof fn lemma_as_map_len(ds: Seq<DescriptorView>)
    requires
        keys_unique(ds),
    ensures
        as_map(ds).dom().finite(),
        as_map(ds).dom().len() == ds.len(),
    decreases ds.len(),
{
    if ds.len() > 0 {
        let init = ds.drop_last();
        assert(keys_unique(init)) by {
            assert forall|a: int, b: int| 0 <= a < b < init.len() implies descriptor_key(
                #[trigger] init[a],
            ) != descriptor_key(#[trigger] init[b]) by {
                assert(init[a] == ds[a]);
                assert(init[b] == ds[b]);
            }
        }
        lemma_as_map_len(init);
        lemma_as_map_keys(init);
        assert(!as_map(init).contains_key(descriptor_key(ds.last()))) by {
            if as_map(init).contains_key(descriptor_key(ds.last())) {
                let i = choose|i: int|
                    0 <= i < init.len() && descriptor_key(#[trigger] init[i]) == descriptor_key(
                        ds.last(),
                    );
                assert(init[i] == ds[i]);
            }
        }
    } else {
        assert(as_map(ds).dom() =~= Set::<Seq<char>>::empty());
    }
}

/// Replacing the entry at a key's position replaces the map's value there.
proof fn lemma_as_map_update(ds: Seq<DescriptorView>, i: int, d: DescriptorView)
    requires
        keys_unique(ds),
        0 <= i < ds.len(),
        descriptor_key(ds[i]) == descriptor_key(d),
    ensures
        as_map(ds.update(i, d)) == as_map(ds).insert(descriptor_key(d), d),
        keys_unique(ds.update(i, d)),
    decreases ds.len(),
{
    let u = ds.update(i, d);
    assert forall|a: int, b: int| 0 <= a < b < u.len() implies descriptor_key(#[trigger] u[a])
        != descriptor_key(#[trigger] u[b]) by {
        assert(descriptor_key(u[a]) == descriptor_key(ds[a]));
        assert(descriptor_key(u[b]) == descriptor_key(ds[b]));
    }
    let init = ds.drop_last();
    assert(keys_unique(init)) by {
        assert forall|a: int, b: int| 0 <= a < b < init.len() implies descriptor_key(
            #[trigger] init[a],
        ) != descriptor_key(#[trigger] init[b]) by {
            assert(init[a] == ds[a]);
            assert(init[b] == ds[b]);
        }
    }
    if i == ds.len() - 1 {
        assert(u.drop_last() =~= init);
        assert(as_map(u) =~= as_map(init).insert(descriptor_key(d), d));
        assert(as_map(ds) == as_map(init).insert(descriptor_key(d), ds.last()));
        assert(as_map(u) =~= as_map(ds).insert(descriptor_key(d), d));
    } else {
        lemma_as_map_update(init, i, d);
        assert(u.drop_last() =~= init.update(i, d));
        assert(u.last() == ds.last());
        assert(descriptor_key(ds[i]) != descriptor_key(ds.last()));
        assert(as_map(u) =~= as_map(ds).insert(descriptor_key(d), d));
    }
}

/// Registering a descriptor and then asking for its group and kind gives
/// it back.
pub proof fn lemma_register_then_get(
    before: Map<Seq<char>, DescriptorView>,
    d: DescriptorView,
)
    ensures
        before.insert(descriptor_key(d), d).contains_key(registry_key(d.group, d.kind)),
        before.insert(descriptor_key(d), d)[registry_key(d.group, d.kind)] == d,
{
}

/// Builds a registry of the known resource types.
#[derive(Debug)]
pub struct RegistryBuilder {
    registry: ResourceRegistry,
}

impl RegistryBuilder {
    /// The registry built so far.
    pub closed spec fn current(self) -> Map<Seq<char>, DescriptorView> {
        self.registry.view_map()
    }

    /// A builder with an empty registry.
    pub fn new() -> (r: RegistryBuilder)
        ensures
            r.current() == Map::<Seq<char>, DescriptorView>::empty(),
    {
        RegistryBuilder { registry: ResourceRegistry::new() }
    }

    /// The registry built.
    pub fn build(self) -> (r: ResourceRegistry)
        ensures
            r.view_map() == self.current(),
    {
        self.registry
    }

    /// Adds the node type (none is described yet: the builder is unchanged).
    pub fn with_nodes(self) -> (r: RegistryBuilder)
        ensures
            r.current() == self.current(),
    {
        self
    }

    /// Adds the machine type (none is described yet: the builder is unchanged).
    pub fn with_machines(self) -> (r: RegistryBuilder)
        ensures
            r.current() == self.current(),
    {
        self
    }

    /// Adds the pod type (none is described yet: the builder is unchanged).
    pub fn with_pods(self) -> (r: RegistryBuilder)
        ensures
            r.current() == self.current(),
    {
        self
    }

    /// Adds the machine set type (none is described yet: the builder is
    /// unchanged).
    pub fn with_machinesets(self) -> (r: RegistryBuilder)
        ensures
            r.current() == self.current(),
    {
        self
    }

    /// Adds the cluster operator type (none is described yet: the builder
    /// is unchanged).
    pub fn with_clusteroperators(self) -> (r: RegistryBuilder)
        ensures
            r.current() == self.current(),
    {
        self
    }

    /// Adds the machine config pool type (none is described yet: the
    /// builder is unchanged).
    pub fn with_machineconfigpools(self) -> (r: RegistryBuilder)
        ensures
            r.current() == self.current(),
    {
        self
    }
}

impl Default for ResourceRegistry {
    fn default() -> (r: ResourceRegistry)
        ensures
            r.view_map() == Map::<Seq<char>, DescriptorView>::empty(),
    {
        ResourceRegistry::new()
    }
}

impl Default for RegistryBuilder {
    fn default() -> (r: RegistryBuilder)
        ensures
            r.current() == Map::<Seq<char>, DescriptorView>::empty(),
    {
        RegistryBuilder::new()
    }
}

} // verus!
