use vstd::prelude::*;

use crate::node::{
    entries_view, fail_of, fields_get, fields_set, lemma_entries_view, lemma_fields_get_set,
    lemma_fields_get_set_other, lemma_nodes_view, lemma_val_at_append, lemma_val_at_set_at,
    lemma_val_set_at_append, lemma_val_set_at_noop, node_view, nodes_view, segs_view, step_into,
    val_at, val_set_at, Entry, ErrV, ManifestError, Node, Seg, SegV, Val,
};

verus! {

/// The fixed structural path of the pod specification inside a fetched job
/// manifest. The doubled `template`/`spec` pair is a quirk of the manifest
/// schema itself and is deliberate.
pub open spec fn pod_path_v() -> Seq<SegV> {
    seq![
        SegV::Key("spec"@),
        SegV::Key("template"@),
        SegV::Key("spec"@),
        SegV::Key("template"@),
        SegV::Key("spec"@),
    ]
}

/// The fixed structural path of the first container entry inside a fetched
/// job manifest: the pod specification's `containers[0]`.
pub open spec fn container_path_v() -> Seq<SegV> {
    pod_path_v() + seq![SegV::Key("containers"@), SegV::Index(0)]
}

/// The `volumeMounts` value injected into the container: one mount of the
/// volume at `/etc/vector`.
pub open spec fn mounts_val(volume: Seq<char>) -> Val {
    Val::List(
        seq![
            Val::Mapping(
                seq![
                    ("mountPath"@, Val::Scalar("/etc/vector"@)),
                    ("name"@, Val::Scalar(volume)),
                ],
            ),
        ],
    )
}

/// The `volumes` value injected into the pod specification: one volume backed
/// by the storage-fuse driver over the given bucket.
pub open spec fn volumes_val(volume: Seq<char>, bucket: Seq<char>) -> Val {
    Val::List(
        seq![
            Val::Mapping(
                seq![
                    ("name"@, Val::Scalar(volume)),
                    (
                        "csi"@,
                        Val::Mapping(
                            seq![
                                ("driver"@, Val::Scalar("gcsfuse.run.googleapis.com"@)),
                                (
                                    "volumeAttributes"@,
                                    Val::Mapping(seq![("bucketName"@, Val::Scalar(bucket))]),
                                ),
                            ],
                        ),
                    ),
                ],
            ),
        ],
    )
}

/// The patched manifest: `volumeMounts` set in the container entry, then
/// `volumes` set in the pod specification; `None` when either fixed path is
/// absent from the manifest.
pub open spec fn spec_patch(doc: Val, volume: Seq<char>, bucket: Seq<char>) -> Option<Val> {
    match val_set_at(doc, container_path_v(), "volumeMounts"@, mounts_val(volume)) {
        Some(d1) => val_set_at(d1, pod_path_v(), "volumes"@, volumes_val(volume, bucket)),
        None => None,
    }
}

/// The structural element a failing patch stopped at (meaningful when
/// `spec_patch` returns `None`).
pub open spec fn spec_patch_fail(doc: Val, volume: Seq<char>, bucket: Seq<char>) -> ErrV {
    match val_set_at(doc, container_path_v(), "volumeMounts"@, mounts_val(volume)) {
        Some(d1) => fail_of(d1, pod_path_v()),
        None => fail_of(doc, container_path_v()),
    }
}

/// Law: after a successful patch, the container entry's `volumeMounts` is
/// exactly the injected single-mount list, and the pod specification's
/// `volumes` is exactly the injected single-volume list (one entry each, with
/// the requested volume and bucket names).
pub proof fn lemma_patch_places_volumes(doc: Val, volume: Seq<char>, bucket: Seq<char>)
    requires
        spec_patch(doc, volume, bucket) is Some,
    ensures
        ({
            let out = spec_patch(doc, volume, bucket).unwrap();
            &&& val_at(out, pod_path_v()) is Some
            &&& val_at(out, pod_path_v()).unwrap() is Mapping
            &&& fields_get(val_at(out, pod_path_v()).unwrap()->Mapping_0, "volumes"@) == Some(
                volumes_val(volume, bucket),
            )
            &&& val_at(out, container_path_v()) is Some
            &&& val_at(out, container_path_v()).unwrap() is Mapping
            &&& fields_get(val_at(out, container_path_v()).unwrap()->Mapping_0, "volumeMounts"@)
                == Some(mounts_val(volume))
        }),
{
    reveal_with_fuel(val_at, 4);
    reveal_with_fuel(val_set_at, 4);
    reveal_strlit("volumes");
    reveal_strlit("containers");
    assert("volumes"@.len() == 7);
    assert("containers"@.len() == 10);
    assert("volumes"@ != "containers"@);
    let mounts = mounts_val(volume);
    let vols = volumes_val(volume, bucket);
    let q = seq![SegV::Key("containers"@), SegV::Index(0)];
    assert(container_path_v() == pod_path_v() + q);
    let d1 = val_set_at(doc, container_path_v(), "volumeMounts"@, mounts).unwrap();
    let out = val_set_at(d1, pod_path_v(), "volumes"@, vols).unwrap();

    // The pod specification of `out` is that of `d1` with `volumes` set.
    lemma_val_at_set_at(d1, pod_path_v(), "volumes"@, vols);
    let pfs1 = val_at(d1, pod_path_v()).unwrap()->Mapping_0;
    lemma_fields_get_set(pfs1, "volumes"@, vols);

    // The pod specification of `d1` is that of `doc` with the container set under it.
    lemma_val_set_at_append(doc, pod_path_v(), q, "volumeMounts"@, mounts);
    let podsub = val_at(doc, pod_path_v()).unwrap();
    let sub2 = val_set_at(podsub, q, "volumeMounts"@, mounts).unwrap();
    assert(val_at(d1, pod_path_v()) == Some(sub2));

    // Unfold the two-segment set below the pod specification.
    assert(q.drop_first() =~= seq![SegV::Index(0)]);
    assert(q.drop_first().drop_first() =~= Seq::<SegV>::empty());
    let podfs = podsub->Mapping_0;
    let conts = fields_get(podfs, "containers"@).unwrap();
    let items = conts->List_0;
    let cont0 = items[0];
    let contnew = val_set_at(cont0, q.drop_first().drop_first(), "volumeMounts"@, mounts).unwrap();
    assert(contnew == Val::Mapping(fields_set(cont0->Mapping_0, "volumeMounts"@, mounts)));
    assert(sub2 == Val::Mapping(
        fields_set(podfs, "containers"@, Val::List(items.update(0, contnew))),
    ));
    lemma_fields_get_set(cont0->Mapping_0, "volumeMounts"@, mounts);
    lemma_fields_get_set(podfs, "containers"@, Val::List(items.update(0, contnew)));

    // Walk the container path inside `out`.
    lemma_val_at_append(out, pod_path_v(), q);
    lemma_fields_get_set_other(pfs1, "volumes"@, "containers"@, vols);
    assert(fields_get(pfs1, "containers"@) == Some(Val::List(items.update(0, contnew))));
    let podspec_out = val_at(out, pod_path_v()).unwrap();
    assert(step_into(podspec_out, q[0]) == Some(Val::List(items.update(0, contnew))));
    assert(val_at(out, container_path_v()) == Some(contnew));
}

/// Law: patching an already-patched manifest is a no-op — the members it
/// would inject are already present with exactly the injected values, so the
/// document keeps exactly one `volumeMounts` and one `volumes` entry.
pub proof fn lemma_patch_idempotent(doc: Val, volume: Seq<char>, bucket: Seq<char>)
    requires
        spec_patch(doc, volume, bucket) is Some,
    ensures
        spec_patch(spec_patch(doc, volume, bucket).unwrap(), volume, bucket) == spec_patch(
            doc,
            volume,
            bucket,
        ),
{
    let out = spec_patch(doc, volume, bucket).unwrap();
    lemma_patch_places_volumes(doc, volume, bucket);
    lemma_val_set_at_noop(out, container_path_v(), "volumeMounts"@, mounts_val(volume));
    lemma_val_set_at_noop(out, pod_path_v(), "volumes"@, volumes_val(volume, bucket));
}

fn lit(s: &str) -> (r: String)
    ensures
        r@ == s@,
{
    s.to_owned()
}

fn pod_path() -> (r: Vec<Seg>)
    ensures
        segs_view(r@) == pod_path_v(),
{
    let mut p: Vec<Seg> = Vec::new();
    p.push(Seg::Key(lit("spec")));
    p.push(Seg::Key(lit("template")));
    p.push(Seg::Key(lit("spec")));
    p.push(Seg::Key(lit("template")));
    p.push(Seg::Key(lit("spec")));
    proof {
        assert(segs_view(p@) =~= pod_path_v());
    }
    p
}

fn container_path() -> (r: Vec<Seg>)
    ensures
        segs_view(r@) == container_path_v(),
{
    let mut p = pod_path();
    p.push(Seg::Key(lit("containers")));
    p.push(Seg::Index(0));
    proof {
        assert(segs_view(p@) =~= container_path_v());
    }
    p
}

fn mounts_node(volume_name: &String) -> (r: Node)
    ensures
        r@ == mounts_val(volume_name@),
{
    let mut fields: Vec<Entry> = Vec::new();
    fields.push(Entry { key: lit("mountPath"), val: Node::Scalar(lit("/etc/vector")) });
    fields.push(Entry { key: lit("name"), val: Node::Scalar(volume_name.clone()) });
    let mut items: Vec<Node> = Vec::new();
    let inner = Node::Mapping(fields);
    proof {
        lemma_entries_view(inner->Mapping_0@);
        let fs = entries_view(inner->Mapping_0@);
        assert(inner@ == Val::Mapping(fs));
        assert(fs.len() == 2);
        assert(fs[0] == (inner->Mapping_0@[0].key@, node_view(inner->Mapping_0@[0].val)));
        assert(fs[0] == ("mountPath"@, Val::Scalar("/etc/vector"@)));
        assert(fs[1] == ("name"@, Val::Scalar(volume_name@)));
        assert(fs =~= seq![
            ("mountPath"@, Val::Scalar("/etc/vector"@)),
            ("name"@, Val::Scalar(volume_name@)),
        ]);
        assert(inner@ == Val::Mapping(
            seq![("mountPath"@, Val::Scalar("/etc/vector"@)), ("name"@, Val::Scalar(volume_name@))],
        ));
    }
    items.push(inner);
    let r = Node::List(items);
    proof {
        lemma_nodes_view(r->List_0@);
        assert(r@ =~~= mounts_val(volume_name@));
    }
    r
}

fn volumes_node(volume_name: &String, bucket_name: &String) -> (r: Node)
    ensures
        r@ == volumes_val(volume_name@, bucket_name@),
{
    let mut attrs: Vec<Entry> = Vec::new();
    attrs.push(Entry { key: lit("bucketName"), val: Node::Scalar(bucket_name.clone()) });
    let attrs_node = Node::Mapping(attrs);
    proof {
        lemma_entries_view(attrs_node->Mapping_0@);
        assert(entries_view(attrs_node->Mapping_0@) =~= seq![("bucketName"@, Val::Scalar(
            bucket_name@,
        ))]);
        assert(attrs_node@ == Val::Mapping(seq![("bucketName"@, Val::Scalar(bucket_name@))]));
    }
    let mut csi: Vec<Entry> = Vec::new();
    csi.push(Entry { key: lit("driver"), val: Node::Scalar(lit("gcsfuse.run.googleapis.com")) });
    csi.push(Entry { key: lit("volumeAttributes"), val: attrs_node });
    let csi_node = Node::Mapping(csi);
    proof {
        lemma_entries_view(csi_node->Mapping_0@);
        assert(entries_view(csi_node->Mapping_0@) =~= seq![
            ("driver"@, Val::Scalar("gcsfuse.run.googleapis.com"@)),
            ("volumeAttributes"@, Val::Mapping(seq![("bucketName"@, Val::Scalar(bucket_name@))])),
        ]);
        assert(csi_node@ == Val::Mapping(
            seq![
                ("driver"@, Val::Scalar("gcsfuse.run.googleapis.com"@)),
                (
                    "volumeAttributes"@,
                    Val::Mapping(seq![("bucketName"@, Val::Scalar(bucket_name@))]),
                ),
            ],
        ));
    }
    let mut fields: Vec<Entry> = Vec::new();
    fields.push(Entry { key: lit("name"), val: Node::Scalar(volume_name.clone()) });
    fields.push(Entry { key: lit("csi"), val: csi_node });
    let inner = Node::Mapping(fields);
    let ghost inner_val = volumes_val(volume_name@, bucket_name@)->List_0[0];
    proof {
        lemma_entries_view(inner->Mapping_0@);
        assert(entries_view(inner->Mapping_0@) =~= inner_val->Mapping_0);
        assert(inner@ == inner_val);
    }
    let mut items: Vec<Node> = Vec::new();
    items.push(inner);
    let r = Node::List(items);
    proof {
        lemma_nodes_view(r->List_0@);
        assert(nodes_view(r->List_0@) =~= seq![inner_val]);
        assert(r@ == volumes_val(volume_name@, bucket_name@));
    }
    r
}

/// Injects the runtime-only volume definitions into a fetched job manifest:
/// sets `volumeMounts` in the container entry and `volumes` in the pod
/// specification, replacing an already-present member of the same name rather
/// than adding a second one. A manifest on which either fixed path is absent
/// is rejected with the structural element the navigation stopped at, and is
/// returned unmodified in no form.
pub fn patch_manifest(doc: Node, volume_name: &String, bucket_name: &String) -> (r: Result<
    Node,
    ManifestError,
>)
    ensures
        match r {
            Ok(out) => spec_patch(doc@, volume_name@, bucket_name@) == Some(out@),
            Err(e) => spec_patch(doc@, volume_name@, bucket_name@) is None && e@ == spec_patch_fail(
                doc@,
                volume_name@,
                bucket_name@,
            ),
        },
{
    let cpath = container_path();
    let mounts = mounts_node(volume_name);
    proof {
        assert(segs_view(cpath@).skip(0) =~= container_path_v());
    }
    let d1 = match crate::node::insert_at(doc, &cpath, 0, &lit("volumeMounts"), mounts) {
        Ok(d1) => d1,
        Err(e) => {
            return Err(e);
        },
    };
    let ppath = pod_path();
    let volumes = volumes_node(volume_name, bucket_name);
    proof {
        assert(segs_view(ppath@).skip(0) =~= pod_path_v());
    }
    match crate::node::insert_at(d1, &ppath, 0, &lit("volumes"), volumes) {
        Ok(out) => Ok(out),
        Err(e) => Err(e),
    }
}

} // verus!
