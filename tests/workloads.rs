use agent_policy::document::Doc;
use agent_policy::mounts::{KataMount, PersistentVolumeClaim, Settings, Storage, StorageKind, VolumeMount};
use agent_policy::workload::{
    add_policy_annotation, Container, DaemonSet, DaemonSetSpec, ObjectMeta, PodSpec,
    PodTemplateSpec, StatefulSet, StatefulSetSpec, Workload,
};

fn text(s: &str) -> Doc {
    Doc::Text(s.to_string())
}

fn map(entries: Vec<(&str, Doc)>) -> Doc {
    Doc::Mapping(entries.into_iter().map(|(k, v)| (k.to_string(), v)).collect())
}

fn entries(d: &Doc) -> &Vec<(String, Doc)> {
    match d {
        Doc::Mapping(es) => es,
        _ => panic!("not a mapping"),
    }
}

fn get<'a>(d: &'a Doc, key: &str) -> &'a Doc {
    &entries(d).iter().find(|(k, _)| k == key).unwrap().1
}

fn manifest() -> Doc {
    map(vec![
        ("apiVersion", text("apps/v1")),
        ("kind", text("StatefulSet")),
        ("metadata", map(vec![("name", text("web"))])),
        (
            "spec",
            map(vec![
                ("serviceName", text("nginx")),
                ("replicas", Doc::Number("2".to_string())),
                (
                    "template",
                    map(vec![(
                        "spec",
                        map(vec![("containers", Doc::List(vec![map(vec![("name", text("nginx"))])]))]),
                    )]),
                ),
            ]),
        ),
    ])
}

fn template(annotations: Option<Vec<(String, String)>>, host_network: Option<bool>) -> PodTemplateSpec {
    PodTemplateSpec {
        metadata: Some(ObjectMeta { name: None, namespace: None, annotations }),
        spec: PodSpec {
            containers: vec![
                Container { name: "a".to_string(), image: "img-a".to_string(), volume_mounts: None },
                Container { name: "b".to_string(), image: "img-b".to_string(), volume_mounts: None },
            ],
            host_network,
            share_process_namespace: None,
        },
    }
}

fn stateful_set(doc: Doc) -> StatefulSet {
    StatefulSet::init(
        "apps/v1".to_string(),
        "StatefulSet".to_string(),
        ObjectMeta { name: Some("web".to_string()), namespace: Some("prod".to_string()), annotations: None },
        StatefulSetSpec {
            service_name: "nginx".to_string(),
            replicas: Some(2),
            template: template(None, Some(true)),
            volume_claim_templates: Some(vec![PersistentVolumeClaim {
                name: Some("www".to_string()),
                storage_class_name: Some("cc-local-csi".to_string()),
            }]),
            min_ready_seconds: None,
            revision_history_limit: None,
            pod_management_policy: None,
        },
        doc,
    )
}

#[test]
fn annotation_is_added_under_template_metadata() {
    let d = add_policy_annotation(manifest(), "cG9saWN5");
    let annotations = get(get(get(get(&d, "spec"), "template"), "metadata"), "annotations");
    match get(annotations, "io.katacontainers.config.agent.policy") {
        Doc::Text(s) => assert_eq!(s, "cG9saWN5"),
        other => panic!("unexpected {:?}", other),
    }
}

#[test]
fn annotation_leaves_other_fields_and_order() {
    let d = add_policy_annotation(manifest(), "cG9saWN5");
    let keys: Vec<&str> = entries(&d).iter().map(|(k, _)| k.as_str()).collect();
    assert_eq!(keys, vec!["apiVersion", "kind", "metadata", "spec"]);
    let spec_keys: Vec<&str> = entries(get(&d, "spec")).iter().map(|(k, _)| k.as_str()).collect();
    assert_eq!(spec_keys, vec!["serviceName", "replicas", "template"]);
    let template_keys: Vec<&str> = entries(get(get(&d, "spec"), "template")).iter().map(|(k, _)| k.as_str()).collect();
    assert_eq!(template_keys, vec!["spec", "metadata"]);
    assert!(matches!(get(get(&d, "spec"), "replicas"), Doc::Number(n) if n == "2"));
    assert!(matches!(get(get(&d, "metadata"), "name"), Doc::Text(n) if n == "web"));
}

#[test]
fn annotation_replaces_existing_value_in_place() {
    let doc = map(vec![(
        "spec",
        map(vec![(
            "template",
            map(vec![(
                "metadata",
                map(vec![(
                    "annotations",
                    map(vec![
                        ("io.katacontainers.config.agent.policy", text("old")),
                        ("other", text("kept")),
                    ]),
                )]),
            )]),
        )]),
    )]);
    let d = add_policy_annotation(doc, "new");
    let annotations = get(get(get(get(&d, "spec"), "template"), "metadata"), "annotations");
    assert_eq!(entries(annotations).len(), 2);
    assert!(matches!(&entries(annotations)[0], (k, Doc::Text(v)) if k == "io.katacontainers.config.agent.policy" && v == "new"));
    assert!(matches!(&entries(annotations)[1], (k, Doc::Text(v)) if k == "other" && v == "kept"));
}

#[test]
fn stateful_set_accessors() {
    let s = stateful_set(manifest());
    assert_eq!(s.get_sandbox_name(), None);
    assert_eq!(s.get_namespace(), Some("prod".to_string()));
    let names: Vec<&str> = s.get_containers().iter().map(|c| c.name.as_str()).collect();
    assert_eq!(names, vec!["a", "b"]);
    assert!(s.get_annotations().is_none());
    assert!(s.use_host_network());
    assert!(!s.use_sandbox_pidns());
}

#[test]
fn stateful_set_serialize_patches_document() {
    let mut s = stateful_set(manifest());
    s.serialize("cG9saWN5");
    let annotations = get(get(get(get(s.document(), "spec"), "template"), "metadata"), "annotations");
    assert!(matches!(get(annotations, "io.katacontainers.config.agent.policy"), Doc::Text(v) if v == "cG9saWN5"));
}

#[test]
fn stateful_set_resolves_claim_templates() {
    let s = stateful_set(manifest());
    let container = Container {
        name: "nginx".to_string(),
        image: "nginx".to_string(),
        volume_mounts: Some(vec![VolumeMount {
            name: "www".to_string(),
            mount_path: "/usr/share/nginx/html".to_string(),
            mount_propagation: Some("Bidirectional".to_string()),
            read_only: None,
        }]),
    };
    let settings = Settings {
        virtio_blk_storage_classes: vec!["cc-local-csi".to_string()],
        smb_storage_classes: vec![],
    };
    let mut mounts: Vec<KataMount> = Vec::new();
    let mut storages: Vec<Storage> = Vec::new();
    s.get_container_mounts_and_storages(&mut mounts, &mut storages, &container, &settings);
    assert_eq!(mounts.len(), 1);
    assert_eq!(mounts[0].storage, StorageKind::BlockDevice);
    assert_eq!(storages.len(), 1);

    let bare = Container { name: "c".to_string(), image: "i".to_string(), volume_mounts: None };
    s.get_container_mounts_and_storages(&mut mounts, &mut storages, &bare, &settings);
    assert_eq!(mounts.len(), 1);
}

#[test]
fn daemon_set_accessors() {
    let annotations = vec![("k".to_string(), "v".to_string())];
    let d = DaemonSet::init(
        "apps/v1".to_string(),
        "DaemonSet".to_string(),
        ObjectMeta { name: Some("ds".to_string()), namespace: None, annotations: None },
        DaemonSetSpec { template: template(Some(annotations), None), min_ready_seconds: None, revision_history_limit: Some(3) },
        map(vec![("kind", text("DaemonSet"))]),
    );
    assert_eq!(d.get_sandbox_name(), None);
    assert_eq!(d.get_namespace(), None);
    assert_eq!(d.get_containers().len(), 2);
    assert_eq!(d.get_annotations().unwrap()[0].1, "v");
    assert!(!d.use_host_network());
    assert!(!d.use_sandbox_pidns());
}

#[test]
fn daemon_set_serialize_creates_missing_path() {
    let mut d = DaemonSet::init(
        "apps/v1".to_string(),
        "DaemonSet".to_string(),
        ObjectMeta { name: None, namespace: None, annotations: None },
        DaemonSetSpec { template: template(None, None), min_ready_seconds: None, revision_history_limit: None },
        map(vec![("kind", text("DaemonSet"))]),
    );
    d.serialize("p");
    let keys: Vec<&str> = entries(d.document()).iter().map(|(k, _)| k.as_str()).collect();
    assert_eq!(keys, vec!["kind", "spec"]);
    let annotations = get(get(get(get(d.document(), "spec"), "template"), "metadata"), "annotations");
    assert!(matches!(get(annotations, "io.katacontainers.config.agent.policy"), Doc::Text(v) if v == "p"));
}

#[test]
fn workload_dispatches_to_its_kind() {
    let mut w = Workload::StatefulSet(stateful_set(manifest()));
    assert_eq!(w.get_namespace(), Some("prod".to_string()));
    assert_eq!(w.get_sandbox_name(), None);
    assert_eq!(w.get_containers().len(), 2);
    assert!(w.use_host_network());
    assert!(!w.use_sandbox_pidns());
    assert!(w.get_annotations().is_none());
    let container = Container {
        name: "nginx".to_string(),
        image: "nginx".to_string(),
        volume_mounts: Some(vec![VolumeMount {
            name: "www".to_string(),
            mount_path: "/www".to_string(),
            mount_propagation: None,
            read_only: Some(true),
        }]),
    };
    let settings = Settings { virtio_blk_storage_classes: vec![], smb_storage_classes: vec![] };
    let mut mounts: Vec<KataMount> = Vec::new();
    let mut storages: Vec<Storage> = Vec::new();
    w.get_container_mounts_and_storages(&mut mounts, &mut storages, &container, &settings);
    assert_eq!(mounts.len(), 1);
    assert_eq!(mounts[0].storage, StorageKind::Default);
    w.serialize("x");
    let annotations = get(get(get(get(w.document(), "spec"), "template"), "metadata"), "annotations");
    assert!(matches!(get(annotations, "io.katacontainers.config.agent.policy"), Doc::Text(v) if v == "x"));

    let d = Workload::DaemonSet(DaemonSet::init(
        "apps/v1".to_string(),
        "DaemonSet".to_string(),
        ObjectMeta { name: None, namespace: Some("kube-system".to_string()), annotations: None },
        DaemonSetSpec { template: template(None, Some(false)), min_ready_seconds: None, revision_history_limit: None },
        Doc::Null,
    ));
    assert_eq!(d.get_namespace(), Some("kube-system".to_string()));
    assert!(!d.use_host_network());
    let mut mounts: Vec<KataMount> = Vec::new();
    d.get_container_mounts_and_storages(&mut mounts, &mut storages, &container, &settings);
    assert!(mounts.is_empty());
}

#[test]
fn tagged_nodes_are_kept_by_patching() {
    let doc = map(vec![
        ("extra", Doc::Tagged("!custom".to_string(), Box::new(text("v")))),
        ("spec", map(vec![("template", map(vec![]))])),
    ]);
    let d = add_policy_annotation(doc, "p");
    assert!(matches!(get(&d, "extra"), Doc::Tagged(t, inner) if t == "!custom" && matches!(inner.as_ref(), Doc::Text(v) if v == "v")));
}
