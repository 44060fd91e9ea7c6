use beaver::manifest::patch_manifest;
use beaver::node::{Entry, ManifestError, Node};

fn scalar(s: &str) -> Node {
    Node::Scalar(s.to_string())
}

fn mapping(fields: Vec<(&str, Node)>) -> Node {
    Node::Mapping(
        fields
            .into_iter()
            .map(|(k, v)| Entry { key: k.to_string(), val: v })
            .collect(),
    )
}

fn get<'a>(n: &'a Node, key: &str) -> &'a Node {
    match n {
        Node::Mapping(es) => &es.iter().find(|e| e.key == key).expect("key present").val,
        _ => panic!("not a mapping"),
    }
}

fn item<'a>(n: &'a Node, i: usize) -> &'a Node {
    match n {
        Node::List(items) => &items[i],
        _ => panic!("not a list"),
    }
}

/// A manifest with the doubled template/spec nesting the schema uses.
fn well_formed_manifest() -> Node {
    let container = mapping(vec![("image", scalar("img:latest")), ("name", scalar("worker"))]);
    let pod = mapping(vec![
        ("containers", Node::List(vec![container])),
        ("timeoutSeconds", scalar("600")),
    ]);
    let inner_template = mapping(vec![("spec", pod)]);
    let outer_spec = mapping(vec![("template", inner_template)]);
    let outer_template = mapping(vec![("spec", outer_spec)]);
    mapping(vec![
        ("apiVersion", scalar("run.googleapis.com/v1")),
        ("spec", mapping(vec![("template", outer_template)])),
    ])
}

fn pod_of(doc: &Node) -> &Node {
    get(
        get(get(get(get(doc, "spec"), "template"), "spec"), "template"),
        "spec",
    )
}

#[test]
fn mapping_lookup_finds_the_first_member() {
    let doc = mapping(vec![("a", scalar("1")), ("b", scalar("2")), ("a", scalar("3"))]);
    match &doc {
        Node::Mapping(entries) => {
            assert_eq!(
                beaver::node::mapping_get(entries, &"a".to_string()),
                Some(&scalar("1"))
            );
            assert_eq!(
                beaver::node::mapping_get(entries, &"b".to_string()),
                Some(&scalar("2"))
            );
            assert_eq!(beaver::node::mapping_get(entries, &"c".to_string()), None);
        }
        _ => panic!("a mapping was built"),
    }
}

#[test]
fn patch_injects_one_mount_and_one_volume() {
    let doc = well_formed_manifest();
    let out = patch_manifest(doc, &"vol".to_string(), &"bkt".to_string()).expect("patch succeeds");

    let pod = pod_of(&out);
    let container = item(get(pod, "containers"), 0);

    let mounts = get(container, "volumeMounts");
    match mounts {
        Node::List(items) => assert_eq!(items.len(), 1),
        _ => panic!("volumeMounts is a list"),
    }
    let mount = item(mounts, 0);
    assert_eq!(get(mount, "mountPath"), &scalar("/etc/vector"));
    assert_eq!(get(mount, "name"), &scalar("vol"));

    let volumes = get(pod, "volumes");
    match volumes {
        Node::List(items) => assert_eq!(items.len(), 1),
        _ => panic!("volumes is a list"),
    }
    let volume = item(volumes, 0);
    assert_eq!(get(volume, "name"), &scalar("vol"));
    let csi = get(volume, "csi");
    assert_eq!(get(csi, "driver"), &scalar("gcsfuse.run.googleapis.com"));
    assert_eq!(get(get(csi, "volumeAttributes"), "bucketName"), &scalar("bkt"));
}

#[test]
fn patch_keeps_the_untouched_members() {
    let doc = well_formed_manifest();
    let out = patch_manifest(doc, &"vol".to_string(), &"bkt".to_string()).expect("patch succeeds");
    assert_eq!(get(&out, "apiVersion"), &scalar("run.googleapis.com/v1"));
    let pod = pod_of(&out);
    assert_eq!(get(pod, "timeoutSeconds"), &scalar("600"));
    let container = item(get(pod, "containers"), 0);
    assert_eq!(get(container, "image"), &scalar("img:latest"));
}

#[test]
fn missing_pod_spec_path_is_a_structural_error() {
    // No `template` under the top-level `spec`: the first missing segment is
    // reported and nothing is handed on for resubmission.
    let doc = mapping(vec![
        ("apiVersion", scalar("run.googleapis.com/v1")),
        ("spec", mapping(vec![("metadata", scalar("x"))])),
    ]);
    let r = patch_manifest(doc, &"vol".to_string(), &"bkt".to_string());
    assert_eq!(r, Err(ManifestError::MissingKey("template".to_string())));
}

#[test]
fn missing_containers_is_a_structural_error() {
    let pod = mapping(vec![("timeoutSeconds", scalar("600"))]);
    let inner_template = mapping(vec![("spec", pod)]);
    let outer_spec = mapping(vec![("template", inner_template)]);
    let outer_template = mapping(vec![("spec", outer_spec)]);
    let doc = mapping(vec![("spec", mapping(vec![("template", outer_template)]))]);
    let r = patch_manifest(doc, &"vol".to_string(), &"bkt".to_string());
    assert_eq!(r, Err(ManifestError::MissingKey("containers".to_string())));
}

#[test]
fn empty_container_list_is_a_structural_error() {
    let pod = mapping(vec![("containers", Node::List(vec![]))]);
    let inner_template = mapping(vec![("spec", pod)]);
    let outer_spec = mapping(vec![("template", inner_template)]);
    let outer_template = mapping(vec![("spec", outer_spec)]);
    let doc = mapping(vec![("spec", mapping(vec![("template", outer_template)]))]);
    let r = patch_manifest(doc, &"vol".to_string(), &"bkt".to_string());
    assert_eq!(r, Err(ManifestError::MissingIndex(0)));
}

#[test]
fn scalar_container_entry_is_a_structural_error() {
    let pod = mapping(vec![("containers", Node::List(vec![scalar("oops")]))]);
    let inner_template = mapping(vec![("spec", pod)]);
    let outer_spec = mapping(vec![("template", inner_template)]);
    let outer_template = mapping(vec![("spec", outer_spec)]);
    let doc = mapping(vec![("spec", mapping(vec![("template", outer_template)]))]);
    let r = patch_manifest(doc, &"vol".to_string(), &"bkt".to_string());
    assert_eq!(r, Err(ManifestError::NotAMapping));
}

#[test]
fn patching_twice_leaves_exactly_one_entry() {
    let doc = well_formed_manifest();
    let once =
        patch_manifest(doc, &"vol".to_string(), &"bkt".to_string()).expect("first patch succeeds");
    let reference = patch_manifest(well_formed_manifest(), &"vol".to_string(), &"bkt".to_string())
        .expect("first patch succeeds");
    let twice =
        patch_manifest(once, &"vol".to_string(), &"bkt".to_string()).expect("second patch succeeds");
    assert_eq!(twice, reference);
    let pod = pod_of(&twice);
    match get(pod, "volumes") {
        Node::List(items) => assert_eq!(items.len(), 1),
        _ => panic!("volumes is a list"),
    }
    match get(item(get(pod, "containers"), 0), "volumeMounts") {
        Node::List(items) => assert_eq!(items.len(), 1),
        _ => panic!("volumeMounts is a list"),
    }
}

#[test]
fn patch_replaces_an_already_present_member() {
    // A manifest that already carries a volumeMounts member of the same name:
    // the patch replaces it in place rather than appending a second one.
    let stale_mount = mapping(vec![("mountPath", scalar("/old")), ("name", scalar("vol"))]);
    let container = mapping(vec![
        ("image", scalar("img:latest")),
        ("volumeMounts", Node::List(vec![stale_mount])),
    ]);
    let pod = mapping(vec![("containers", Node::List(vec![container]))]);
    let inner_template = mapping(vec![("spec", pod)]);
    let outer_spec = mapping(vec![("template", inner_template)]);
    let outer_template = mapping(vec![("spec", outer_spec)]);
    let doc = mapping(vec![("spec", mapping(vec![("template", outer_template)]))]);

    let out = patch_manifest(doc, &"vol".to_string(), &"bkt".to_string()).expect("patch succeeds");
    let pod = pod_of(&out);
    let mounts = get(item(get(pod, "containers"), 0), "volumeMounts");
    match mounts {
        Node::List(items) => assert_eq!(items.len(), 1),
        _ => panic!("volumeMounts is a list"),
    }
    assert_eq!(get(item(mounts, 0), "mountPath"), &scalar("/etc/vector"));
}
