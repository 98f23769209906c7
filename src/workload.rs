//! Workload resources: the uniform accessors over DaemonSets and StatefulSets,
//! and the embedding of the generated policy into their manifests.
use crate::document::{diverges, is_patch, keys_view, lookup, set_path, Doc};
use crate::mounts::{
    add_mount, classify_claim, mount_access, mount_propagation, mount_record, mounts_view,
    records_for_mount, records_for_mounts, storages_after, storages_view,
    KataMount, PersistentVolumeClaim, Settings, Storage, VolumeMount,
};
use crate::text::{clone_string, same_str};
use vstd::prelude::*;

verus! {

/// Object metadata.
#[derive(Debug)]
pub struct ObjectMeta {
    pub name: Option<String>,
    pub namespace: Option<String>,
    pub annotations: Option<Vec<(String, String)>>,
}

/// A container of a pod template.
#[derive(Debug)]
pub struct Container {
    pub name: String,
    pub image: String,
    pub volume_mounts: Option<Vec<VolumeMount>>,
}

/// The pod specification of a template.
#[derive(Debug)]
pub struct PodSpec {
    /// In manifest order.
    pub containers: Vec<Container>,
    pub host_network: Option<bool>,
    pub share_process_namespace: Option<bool>,
}

/// A pod template.
#[derive(Debug)]
pub struct PodTemplateSpec {
    pub metadata: Option<ObjectMeta>,
    pub spec: PodSpec,
}

/// The keys under which the policy text is stored in a workload manifest:
/// an annotation of the pod template.
pub open spec fn policy_path() -> Seq<Seq<char>> {
    seq![
        "spec"@,
        "template"@,
        "metadata"@,
        "annotations"@,
        "io.katacontainers.config.agent.policy"@,
    ]
}

/// The keys of [`policy_path`].
pub fn policy_annotation_path() -> (r: Vec<String>)
    ensures
        keys_view(r@) == policy_path(),
{
    let r = vec![
        "spec".to_owned(),
        "template".to_owned(),
        "metadata".to_owned(),
        "annotations".to_owned(),
        "io.katacontainers.config.agent.policy".to_owned(),
    ];
    assert(keys_view(r@) =~= policy_path());
    r
}

/// Stores `policy` as the pod template's policy annotation of the manifest
/// `doc`, adding the metadata and annotations mappings if they are missing.
/// Everything else in the document stays as it was.
pub fn add_policy_annotation(doc: Doc, policy: &str) -> (r: Doc)
    ensures
        exists|s: String| s@ == policy@ && is_patch(doc, r, policy_path(), Doc::Text(s)),
        lookup(r, policy_path()) matches Some(Doc::Text(s)) && s@ == policy@,
        forall|p: Seq<Seq<char>>| diverges(p, policy_path()) ==> #[trigger] lookup(r, p) == lookup(
            doc,
            p,
        ),
{
    let path = policy_annotation_path();
    let text = policy.to_owned();
    let ghost v = Doc::Text(text);
    let r = set_path(doc, &path, Doc::Text(text));
    assert(is_patch(doc, r, policy_path(), v));
    r
}

/// The annotations of a pod template.
fn template_annotations(template: &PodTemplateSpec) -> (r: Option<&Vec<(String, String)>>)
    ensures
        r == match template.metadata {
            Some(m) => match m.annotations {
                Some(a) => Some(&a),
                None => None,
            },
            None => None,
        },
{
    match &template.metadata {
        Some(m) => match &m.annotations {
            Some(a) => Some(a),
            None => None,
        },
        None => None,
    }
}

/// A flag of the pod specification; absent means false.
fn flag_or_false(flag: Option<bool>) -> (r: bool)
    ensures
        r == (flag == Some(true)),
{
    match flag {
        Some(b) => b,
        None => false,
    }
}

fn clone_opt_string(s: &Option<String>) -> (r: Option<String>)
    ensures
        r is Some == s is Some,
        r is Some ==> r->Some_0@ == s->Some_0@,
{
    match s {
        Some(s) => Some(clone_string(s)),
        None => None,
    }
}

/// The specification of a DaemonSet.
#[derive(Debug)]
pub struct DaemonSetSpec {
    pub template: PodTemplateSpec,
    pub min_ready_seconds: Option<i32>,
    pub revision_history_limit: Option<i32>,
}

/// A DaemonSet, with its manifest kept whole beside the fields read here.
#[derive(Debug)]
pub struct DaemonSet {
    pub api_version: String,
    pub kind: String,
    pub metadata: ObjectMeta,
    pub spec: DaemonSetSpec,
    /// The whole manifest, patched only through `serialize`.
    pub doc: Doc,
}

impl DaemonSet {
    /// A DaemonSet read from the manifest `doc`.
    pub fn init(
        api_version: String,
        kind: String,
        metadata: ObjectMeta,
        spec: DaemonSetSpec,
        doc: Doc,
    ) -> (r: Self)
        ensures
            r.api_version == api_version && r.kind == kind,
            r.metadata == metadata && r.spec == spec && r.doc == doc,
    {
        DaemonSet { api_version, kind, metadata, spec, doc }
    }

    /// The manifest, with the policy annotation once `serialize` has run.
    pub fn document(&self) -> (r: &Doc)
        ensures
            *r == self.doc,
    {
        &self.doc
    }

    /// A DaemonSet has no sandbox name of its own.
    pub fn get_sandbox_name(&self) -> (r: Option<String>)
        ensures
            r is None,
    {
        None
    }

    pub fn get_namespace(&self) -> (r: Option<String>)
        ensures
            r is Some == self.metadata.namespace is Some,
            r is Some ==> r->Some_0@ == self.metadata.namespace->Some_0@,
    {
        clone_opt_string(&self.metadata.namespace)
    }

    /// The containers of the pod template, in manifest order.
    pub fn get_containers(&self) -> (r: &Vec<Container>)
        ensures
            *r == self.spec.template.spec.containers,
    {
        &self.spec.template.spec.containers
    }

    /// The annotations of the pod template, if it has any.
    pub fn get_annotations(&self) -> (r: Option<&Vec<(String, String)>>)
        ensures
            r == match self.spec.template.metadata {
                Some(m) => match m.annotations {
                    Some(a) => Some(&a),
                    None => None,
                },
                None => None,
            },
    {
        template_annotations(&self.spec.template)
    }

    pub fn use_host_network(&self) -> (r: bool)
        ensures
            r == (self.spec.template.spec.host_network == Some(true)),
    {
        flag_or_false(self.spec.template.spec.host_network)
    }

    pub fn use_sandbox_pidns(&self) -> (r: bool)
        ensures
            r == (self.spec.template.spec.share_process_namespace == Some(true)),
    {
        flag_or_false(self.spec.template.spec.share_process_namespace)
    }

    /// Stores `policy` in the manifest's pod template annotations.
    pub fn serialize(&mut self, policy: &str)
        ensures
            final(self).api_version == old(self).api_version,
            final(self).kind == old(self).kind,
            final(self).metadata == old(self).metadata,
            final(self).spec == old(self).spec,
            exists|s: String|
                s@ == policy@ && is_patch(old(self).doc, final(self).doc, policy_path(), Doc::Text(s)),
            lookup(final(self).doc, policy_path()) matches Some(Doc::Text(s)) && s@ == policy@,
            forall|p: Seq<Seq<char>>| diverges(p, policy_path()) ==> #[trigger] lookup(
                final(self).doc,
                p,
            ) == lookup(old(self).doc, p),
    {
        let mut doc = Doc::Null;
        std::mem::swap(&mut doc, &mut self.doc);
        self.doc = add_policy_annotation(doc, policy);
    }
}

/// The specification of a StatefulSet.
#[derive(Debug)]
pub struct StatefulSetSpec {
    pub service_name: String,
    pub replicas: Option<i32>,
    pub template: PodTemplateSpec,
    pub volume_claim_templates: Option<Vec<PersistentVolumeClaim>>,
    pub min_ready_seconds: Option<i32>,
    pub revision_history_limit: Option<i32>,
    pub pod_management_policy: Option<String>,
}

/// A StatefulSet, with its manifest kept whole beside the fields read here.
#[derive(Debug)]
pub struct StatefulSet {
    pub api_version: String,
    pub kind: String,
    pub metadata: ObjectMeta,
    pub spec: StatefulSetSpec,
    /// The whole manifest, patched only through `serialize`.
    pub doc: Doc,
}

impl StatefulSet {
    /// A StatefulSet read from the manifest `doc`.
    pub fn init(
        api_version: String,
        kind: String,
        metadata: ObjectMeta,
        spec: StatefulSetSpec,
        doc: Doc,
    ) -> (r: Self)
        ensures
            r.api_version == api_version && r.kind == kind,
            r.metadata == metadata && r.spec == spec && r.doc == doc,
    {
        StatefulSet { api_version, kind, metadata, spec, doc }
    }

    /// The manifest, with the policy annotation once `serialize` has run.
    pub fn document(&self) -> (r: &Doc)
        ensures
            *r == self.doc,
    {
        &self.doc
    }

    /// A StatefulSet has no sandbox name of its own.
    pub fn get_sandbox_name(&self) -> (r: Option<String>)
        ensures
            r is None,
    {
        None
    }

    pub fn get_namespace(&self) -> (r: Option<String>)
        ensures
            r is Some == self.metadata.namespace is Some,
            r is Some ==> r->Some_0@ == self.metadata.namespace->Some_0@,
    {
        clone_opt_string(&self.metadata.namespace)
    }

    /// The containers of the pod template, in manifest order.
    pub fn get_containers(&self) -> (r: &Vec<Container>)
        ensures
            *r == self.spec.template.spec.containers,
    {
        &self.spec.template.spec.containers
    }

    /// The annotations of the pod template, if it has any.
    pub fn get_annotations(&self) -> (r: Option<&Vec<(String, String)>>)
        ensures
            r == match self.spec.template.metadata {
                Some(m) => match m.annotations {
                    Some(a) => Some(&a),
                    None => None,
                },
                None => None,
            },
    {
        template_annotations(&self.spec.template)
    }

    pub fn use_host_network(&self) -> (r: bool)
        ensures
            r == (self.spec.template.spec.host_network == Some(true)),
    {
        flag_or_false(self.spec.template.spec.host_network)
    }

    pub fn use_sandbox_pidns(&self) -> (r: bool)
        ensures
            r == (self.spec.template.spec.share_process_namespace == Some(true)),
    {
        flag_or_false(self.spec.template.spec.share_process_namespace)
    }

    /// Resolves each of `volume_mounts` against the StatefulSet's claim
    /// templates: for every template of the mount's name, a mount record with the
    /// mount's propagation and access modes and the template's backing storage,
    /// and a storage record for the volume if it has none yet. Mounts without a
    /// template are left to other stages.
    pub fn get_mounts_and_storages(
        policy_mounts: &mut Vec<KataMount>,
        storages: &mut Vec<Storage>,
        settings: &Settings,
        volume_mounts: &Vec<VolumeMount>,
        claims: &[PersistentVolumeClaim],
    )
        ensures
            mounts_view(final(policy_mounts)@) == mounts_view(old(policy_mounts)@) + records_for_mounts(
                volume_mounts@,
                claims@,
                *settings,
            ),
            storages_view(final(storages)@) == storages_after(
                storages_view(old(storages)@),
                records_for_mounts(volume_mounts@, claims@, *settings),
            ),
    {
        let ghost m0 = mounts_view(policy_mounts@);
        let ghost s0 = storages_view(storages@);
        let mut i: usize = 0;
        while i < volume_mounts.len()
            invariant
                i <= volume_mounts@.len(),
                mounts_view(policy_mounts@) == m0 + records_for_mounts(
                    volume_mounts@.subrange(0, i as int),
                    claims@,
                    *settings,
                ),
                storages_view(storages@) == storages_after(
                    s0,
                    records_for_mounts(volume_mounts@.subrange(0, i as int), claims@, *settings),
                ),
            decreases volume_mounts@.len() - i,
        {
            let mount = &volume_mounts[i];
            let ghost done = records_for_mounts(volume_mounts@.subrange(0, i as int), claims@, *settings);
            let mut k: usize = 0;
            while k < claims.len()
                invariant
                    i < volume_mounts@.len(),
                    *mount == volume_mounts@[i as int],
                    k <= claims@.len(),
                    mounts_view(policy_mounts@) == m0 + done + records_for_mount(
                        *mount,
                        claims@.subrange(0, k as int),
                        *settings,
                    ),
                    storages_view(storages@) == storages_after(
                        s0,
                        done + records_for_mount(*mount, claims@.subrange(0, k as int), *settings),
                    ),
                decreases claims@.len() - k,
            {
                let claim = &claims[k];
                let ghost before = done + records_for_mount(
                    *mount,
                    claims@.subrange(0, k as int),
                    *settings,
                );
                assert(claims@.subrange(0, k + 1).drop_last() =~= claims@.subrange(0, k as int));
                let matched = match &claim.name {
                    Some(n) => same_str(n.as_str(), mount.name.as_str()),
                    None => false,
                };
                if matched {
                    let m = KataMount {
                        destination: clone_string(&mount.mount_path),
                        source: clone_string(&mount.name),
                        propagation: mount_propagation(&mount.mount_propagation),
                        access: mount_access(mount.read_only),
                        storage: classify_claim(claim, settings),
                    };
                    assert(m@ == mount_record(*mount, *claim, *settings));
                    add_mount(policy_mounts, storages, m);
                    let ghost after = done + records_for_mount(
                        *mount,
                        claims@.subrange(0, k + 1),
                        *settings,
                    );
                    assert(after =~= before.push(mount_record(*mount, *claim, *settings)));
                    assert(after.drop_last() =~= before);
                } else {
                    assert(done + records_for_mount(*mount, claims@.subrange(0, k + 1), *settings)
                        =~= before);
                }
                k = k + 1;
            }
            assert(claims@.subrange(0, claims@.len() as int) =~= claims@);
            assert(volume_mounts@.subrange(0, i + 1).drop_last() =~= volume_mounts@.subrange(
                0,
                i as int,
            ));
            i = i + 1;
        }
        assert(volume_mounts@.subrange(0, volume_mounts@.len() as int) =~= volume_mounts@);
    }

    /// The mounts and storages of `container` that its volume claim templates
    /// provide: each mount is matched by name against the templates. Mounts
    /// of plain pod volumes are not resolved here: the pod model holds no
    /// volumes.
    pub fn get_container_mounts_and_storages(
        &self,
        policy_mounts: &mut Vec<KataMount>,
        storages: &mut Vec<Storage>,
        container: &Container,
        settings: &Settings,
    )
        ensures
            match (container.volume_mounts, self.spec.volume_claim_templates) {
                (Some(vm), Some(claims)) => {
                    &&& mounts_view(final(policy_mounts)@) == mounts_view(old(policy_mounts)@)
                        + records_for_mounts(vm@, claims@, *settings)
                    &&& storages_view(final(storages)@) == storages_after(
                        storages_view(old(storages)@),
                        records_for_mounts(vm@, claims@, *settings),
                    )
                },
                _ => final(policy_mounts)@ == old(policy_mounts)@ && final(storages)@ == old(
                    storages,
                )@,
            },
    {
        if let Some(volume_mounts) = &container.volume_mounts {
            if let Some(claims) = &self.spec.volume_claim_templates {
                StatefulSet::get_mounts_and_storages(
                    policy_mounts,
                    storages,
                    settings,
                    volume_mounts,
                    claims.as_slice(),
                );
            }
        }
    }

    /// Stores `policy` in the manifest's pod template annotations.
    pub fn serialize(&mut self, policy: &str)
        ensures
            final(self).api_version == old(self).api_version,
            final(self).kind == old(self).kind,
            final(self).metadata == old(self).metadata,
            final(self).spec == old(self).spec,
            exists|s: String|
                s@ == policy@ && is_patch(old(self).doc, final(self).doc, policy_path(), Doc::Text(s)),
            lookup(final(self).doc, policy_path()) matches Some(Doc::Text(s)) && s@ == policy@,
            forall|p: Seq<Seq<char>>| diverges(p, policy_path()) ==> #[trigger] lookup(
                final(self).doc,
                p,
            ) == lookup(old(self).doc, p),
    {
        let mut doc = Doc::Null;
        std::mem::swap(&mut doc, &mut self.doc);
        self.doc = add_policy_annotation(doc, policy);
    }
}

/// A workload of any supported kind, seen through the accessors that policy
/// generation uses.
#[derive(Debug)]
pub enum Workload {
    DaemonSet(DaemonSet),
    StatefulSet(StatefulSet),
}

impl Workload {
    /// The pod template that the workload runs.
    pub open spec fn template(&self) -> PodTemplateSpec {
        match self {
            Workload::DaemonSet(d) => d.spec.template,
            Workload::StatefulSet(s) => s.spec.template,
        }
    }

    /// The whole manifest.
    pub open spec fn doc(&self) -> Doc {
        match self {
            Workload::DaemonSet(d) => d.doc,
            Workload::StatefulSet(s) => s.doc,
        }
    }

    pub open spec fn metadata(&self) -> ObjectMeta {
        match self {
            Workload::DaemonSet(d) => d.metadata,
            Workload::StatefulSet(s) => s.metadata,
        }
    }

    /// No supported kind has a sandbox name of its own.
    pub fn get_sandbox_name(&self) -> (r: Option<String>)
        ensures
            r is None,
    {
        None
    }

    pub fn get_namespace(&self) -> (r: Option<String>)
        ensures
            r is Some == self.metadata().namespace is Some,
            r is Some ==> r->Some_0@ == self.metadata().namespace->Some_0@,
    {
        match self {
            Workload::DaemonSet(d) => d.get_namespace(),
            Workload::StatefulSet(s) => s.get_namespace(),
        }
    }

    /// The containers of the pod template, in manifest order.
    pub fn get_containers(&self) -> (r: &Vec<Container>)
        ensures
            *r == self.template().spec.containers,
    {
        match self {
            Workload::DaemonSet(d) => d.get_containers(),
            Workload::StatefulSet(s) => s.get_containers(),
        }
    }

    /// The annotations of the pod template, if it has any.
    pub fn get_annotations(&self) -> (r: Option<&Vec<(String, String)>>)
        ensures
            r == match self.template().metadata {
                Some(m) => match m.annotations {
                    Some(a) => Some(&a),
                    None => None,
                },
                None => None,
            },
    {
        match self {
            Workload::DaemonSet(d) => d.get_annotations(),
            Workload::StatefulSet(s) => s.get_annotations(),
        }
    }

    pub fn use_host_network(&self) -> (r: bool)
        ensures
            r == (self.template().spec.host_network == Some(true)),
    {
        match self {
            Workload::DaemonSet(d) => d.use_host_network(),
            Workload::StatefulSet(s) => s.use_host_network(),
        }
    }

    pub fn use_sandbox_pidns(&self) -> (r: bool)
        ensures
            r == (self.template().spec.share_process_namespace == Some(true)),
    {
        match self {
            Workload::DaemonSet(d) => d.use_sandbox_pidns(),
            Workload::StatefulSet(s) => s.use_sandbox_pidns(),
        }
    }

    /// The mounts and storages of `container` that come from claim
    /// templates; only a StatefulSet has any. Mounts of plain pod volumes are
    /// not resolved here (the pod model holds no volumes), so a DaemonSet adds
    /// nothing.
    pub fn get_container_mounts_and_storages(
        &self,
        policy_mounts: &mut Vec<KataMount>,
        storages: &mut Vec<Storage>,
        container: &Container,
        settings: &Settings,
    )
        ensures
            match (self, container.volume_mounts) {
                (Workload::StatefulSet(s), Some(vm)) => match s.spec.volume_claim_templates {
                    Some(claims) => {
                        &&& mounts_view(final(policy_mounts)@) == mounts_view(old(policy_mounts)@)
                            + records_for_mounts(vm@, claims@, *settings)
                        &&& storages_view(final(storages)@) == storages_after(
                            storages_view(old(storages)@),
                            records_for_mounts(vm@, claims@, *settings),
                        )
                    },
                    None => final(policy_mounts)@ == old(policy_mounts)@ && final(storages)@
                        == old(storages)@,
                },
                _ => final(policy_mounts)@ == old(policy_mounts)@ && final(storages)@ == old(
                    storages,
                )@,
            },
    {
        match self {
            Workload::DaemonSet(_) => {},
            Workload::StatefulSet(s) => s.get_container_mounts_and_storages(
                policy_mounts,
                storages,
                container,
                settings,
            ),
        }
    }

    /// Stores `policy` in the manifest's pod template annotations.
    pub fn serialize(&mut self, policy: &str)
        ensures
            match (*old(self), *final(self)) {
                (Workload::DaemonSet(a), Workload::DaemonSet(b)) => a.api_version == b.api_version
                    && a.kind == b.kind && a.metadata == b.metadata && a.spec == b.spec,
                (Workload::StatefulSet(a), Workload::StatefulSet(b)) => a.api_version
                    == b.api_version && a.kind == b.kind && a.metadata == b.metadata && a.spec
                    == b.spec,
                _ => false,
            },
            exists|s: String|
                s@ == policy@ && is_patch(old(self).doc(), final(self).doc(), policy_path(), Doc::Text(s)),
            lookup(final(self).doc(), policy_path()) matches Some(Doc::Text(s)) && s@ == policy@,
            forall|p: Seq<Seq<char>>| diverges(p, policy_path()) ==> #[trigger] lookup(
                final(self).doc(),
                p,
            ) == lookup(old(self).doc(), p),
    {
        match self {
            Workload::DaemonSet(d) => d.serialize(policy),
            Workload::StatefulSet(s) => s.serialize(policy),
        }
    }

    /// The manifest, with the policy annotation once `serialize` has run.
    pub fn document(&self) -> (r: &Doc)
        ensures
            *r == self.doc(),
    {
        match self {
            Workload::DaemonSet(d) => d.document(),
            Workload::StatefulSet(s) => s.document(),
        }
    }
}

} // verus!
