//! Normalised mount and storage records, and the rules that classify a
//! volume mount: propagation, access and backing storage.
use crate::text::{clone_string, same_str};
use vstd::prelude::*;

verus! {

/// A volume mount of a container.
#[derive(Debug, Clone)]
pub struct VolumeMount {
    pub name: String,
    pub mount_path: String,
    pub mount_propagation: Option<String>,
    pub read_only: Option<bool>,
}

/// A persistent volume claim, or a claim template of a StatefulSet.
#[derive(Debug, Clone)]
pub struct PersistentVolumeClaim {
    pub name: Option<String>,
    pub storage_class_name: Option<String>,
}

/// The storage classes that the generator knows of.
#[derive(Debug, Clone)]
pub struct Settings {
    /// Classes backed by a block device.
    pub virtio_blk_storage_classes: Vec<String>,
    /// Classes backed by a network share.
    pub smb_storage_classes: Vec<String>,
}

#[derive(Debug, Clone, Copy, PartialEq, Eq, Structural)]
pub enum Propagation {
    /// Shared, recursively (`rshared`).
    Shared,
    /// Private, recursively (`rprivate`).
    Private,
}

#[derive(Debug, Clone, Copy, PartialEq, Eq, Structural)]
pub enum Access {
    ReadOnly,
    ReadWrite,
}

#[derive(Debug, Clone, Copy, PartialEq, Eq, Structural)]
pub enum StorageKind {
    BlockDevice,
    NetworkShare,
    Default,
}

/// A normalised mount.
#[derive(Debug, Clone)]
pub struct KataMount {
    pub destination: String,
    /// The name of the volume behind the mount.
    pub source: String,
    pub propagation: Propagation,
    pub access: Access,
    pub storage: StorageKind,
}

/// A normalised storage, one for each volume name.
#[derive(Debug, Clone)]
pub struct Storage {
    pub name: String,
    pub mount_point: String,
    pub kind: StorageKind,
}

pub struct MountRecord {
    pub destination: Seq<char>,
    pub source: Seq<char>,
    pub propagation: Propagation,
    pub access: Access,
    pub storage: StorageKind,
}

pub struct StorageRecord {
    pub name: Seq<char>,
    pub mount_point: Seq<char>,
    pub kind: StorageKind,
}

impl View for KataMount {
    type V = MountRecord;

    open spec fn view(&self) -> MountRecord {
        MountRecord {
            destination: self.destination@,
            source: self.source@,
            propagation: self.propagation,
            access: self.access,
            storage: self.storage,
        }
    }
}

impl View for Storage {
    type V = StorageRecord;

    open spec fn view(&self) -> StorageRecord {
        StorageRecord { name: self.name@, mount_point: self.mount_point@, kind: self.kind }
    }
}

pub open spec fn mounts_view(v: Seq<KataMount>) -> Seq<MountRecord> {
    v.map_values(|m: KataMount| m@)
}

pub open spec fn storages_view(v: Seq<Storage>) -> Seq<StorageRecord> {
    v.map_values(|s: Storage| s@)
}

/// Whether one of `classes` is named `name`.
pub open spec fn in_classes(classes: Seq<String>, name: Seq<char>) -> bool {
    exists|i: int| 0 <= i < classes.len() && #[trigger] classes[i]@ == name
}

/// The backing storage of a claim: its storage class looked up among the
/// block-device classes first, then the network-share classes.
pub open spec fn storage_kind_of(claim: PersistentVolumeClaim, settings: Settings) -> StorageKind {
    match claim.storage_class_name {
        Some(c) => if in_classes(settings.virtio_blk_storage_classes@, c@) {
            StorageKind::BlockDevice
        } else if in_classes(settings.smb_storage_classes@, c@) {
            StorageKind::NetworkShare
        } else {
            StorageKind::Default
        },
        None => StorageKind::Default,
    }
}

/// `"Bidirectional"` propagation is shared; anything else, or none, is private.
pub open spec fn propagation_of(p: Option<String>) -> Propagation {
    match p {
        Some(s) => if s@ == "Bidirectional"@ {
            Propagation::Shared
        } else {
            Propagation::Private
        },
        None => Propagation::Private,
    }
}

/// Read-only only when the flag is present and true.
pub open spec fn access_of(read_only: Option<bool>) -> Access {
    if read_only == Some(true) {
        Access::ReadOnly
    } else {
        Access::ReadWrite
    }
}

pub open spec fn claim_matches(claim: PersistentVolumeClaim, mount: VolumeMount) -> bool {
    claim.name is Some && claim.name->Some_0@ == mount.name@
}

/// The record of `mount` backed by `claim`.
pub open spec fn mount_record(
    mount: VolumeMount,
    claim: PersistentVolumeClaim,
    settings: Settings,
) -> MountRecord {
    MountRecord {
        destination: mount.mount_path@,
        source: mount.name@,
        propagation: propagation_of(mount.mount_propagation),
        access: access_of(mount.read_only),
        storage: storage_kind_of(claim, settings),
    }
}

/// The records of one mount: one for each claim of its name, in claim order.
pub open spec fn records_for_mount(
    mount: VolumeMount,
    claims: Seq<PersistentVolumeClaim>,
    settings: Settings,
) -> Seq<MountRecord>
    decreases claims.len(),
{
    if claims.len() == 0 {
        Seq::empty()
    } else {
        records_for_mount(mount, claims.drop_last(), settings) + if claim_matches(
            claims.last(),
            mount,
        ) {
            seq![mount_record(mount, claims.last(), settings)]
        } else {
            Seq::empty()
        }
    }
}

/// The records of all mounts, in mount order.
pub open spec fn records_for_mounts(
    mounts: Seq<VolumeMount>,
    claims: Seq<PersistentVolumeClaim>,
    settings: Settings,
) -> Seq<MountRecord>
    decreases mounts.len(),
{
    if mounts.len() == 0 {
        Seq::empty()
    } else {
        records_for_mounts(mounts.drop_last(), claims, settings) + records_for_mount(
            mounts.last(),
            claims,
            settings,
        )
    }
}

/// Whether some storage is named `name`.
pub open spec fn has_storage(storages: Seq<StorageRecord>, name: Seq<char>) -> bool {
    exists|i: int| 0 <= i < storages.len() && #[trigger] storages[i].name == name
}

/// The storage that backs a mount record.
pub open spec fn storage_of(m: MountRecord) -> StorageRecord {
    StorageRecord { name: m.source, mount_point: m.destination, kind: m.storage }
}

/// The storages after the mounts `records` are added: a storage for each
/// volume name not yet present.
pub open spec fn storages_after(storages: Seq<StorageRecord>, records: Seq<MountRecord>) -> Seq<
    StorageRecord,
>
    decreases records.len(),
{
    if records.len() == 0 {
        storages
    } else {
        let before = storages_after(storages, records.drop_last());
        if has_storage(before, records.last().source) {
            before
        } else {
            before.push(storage_of(records.last()))
        }
    }
}

/// Whether `classes` holds `name`.
fn contains_class(classes: &Vec<String>, name: &String) -> (r: bool)
    ensures
        r == in_classes(classes@, name@),
{
    let mut i: usize = 0;
    while i < classes.len()
        invariant
            i <= classes@.len(),
            forall|j: int| 0 <= j < i ==> classes@[j]@ != name@,
        decreases classes@.len() - i,
    {
        if same_str(classes[i].as_str(), name.as_str()) {
            return true;
        }
        i = i + 1;
    }
    false
}

/// The backing storage of a claim.
pub fn classify_claim(claim: &PersistentVolumeClaim, settings: &Settings) -> (r: StorageKind)
    ensures
        r == storage_kind_of(*claim, *settings),
{
    match &claim.storage_class_name {
        Some(c) => if contains_class(&settings.virtio_blk_storage_classes, c) {
            StorageKind::BlockDevice
        } else if contains_class(&settings.smb_storage_classes, c) {
            StorageKind::NetworkShare
        } else {
            StorageKind::Default
        },
        None => StorageKind::Default,
    }
}

/// The propagation mode of a mount.
pub fn mount_propagation(p: &Option<String>) -> (r: Propagation)
    ensures
        r == propagation_of(*p),
{
    match p {
        Some(s) => if same_str(s.as_str(), "Bidirectional") {
            Propagation::Shared
        } else {
            Propagation::Private
        },
        None => Propagation::Private,
    }
}

/// The access mode of a mount.
pub fn mount_access(read_only: Option<bool>) -> (r: Access)
    ensures
        r == access_of(read_only),
{
    match read_only {
        Some(true) => Access::ReadOnly,
        _ => Access::ReadWrite,
    }
}

/// Adds the mount `m`, and a storage for its volume unless one of that name
/// is there already.
pub(crate) fn add_mount(policy_mounts: &mut Vec<KataMount>, storages: &mut Vec<Storage>, m: KataMount)
    ensures
        mounts_view(final(policy_mounts)@) == mounts_view(old(policy_mounts)@).push(m@),
        storages_view(final(storages)@) == if has_storage(storages_view(old(storages)@), m@.source) {
            storages_view(old(storages)@)
        } else {
            storages_view(old(storages)@).push(storage_of(m@))
        },
{
    let ghost sv = storages_view(storages@);
    let mut i: usize = 0;
    let mut found = false;
    while i < storages.len() && !found
        invariant
            i <= storages@.len(),
            sv == storages_view(storages@),
            found ==> i < storages@.len() && storages@[i as int].name@ == m.source@,
            forall|j: int| 0 <= j < i ==> storages@[j].name@ != m.source@,
        decreases storages@.len() - i + if found { 0int } else { 1int },
    {
        if same_str(storages[i].name.as_str(), m.source.as_str()) {
            found = true;
        } else {
            i = i + 1;
        }
    }
    proof {
        if found {
            assert(sv[i as int].name == m@.source);
        } else {
            assert forall|j: int| 0 <= j < sv.len() implies #[trigger] sv[j].name != m@.source by {
                assert(sv[j] == storages@[j]@);
            }
        }
    }
    if !found {
        let s = Storage {
            name: clone_string(&m.source),
            mount_point: clone_string(&m.destination),
            kind: m.storage,
        };
        storages.push(s);
        assert(storages_view(storages@) =~= sv.push(storage_of(m@)));
    }
    let ghost mv = mounts_view(policy_mounts@);
    policy_mounts.push(m);
    assert(mounts_view(policy_mounts@) =~= mv.push(m@));
}

} // verus!
