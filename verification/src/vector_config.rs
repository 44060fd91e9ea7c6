use vstd::prelude::*;

use crate::node::{
    entries_view, fields_get, lemma_entries_view, lemma_fields_get_by_index, lemma_nodes_view,
    node_view, nodes_view, Entry, Node, Val,
};

verus! {

/// Why a fragment was rejected by the routing-configuration generator.
#[derive(Clone, Copy, PartialEq, Eq, Structural, Debug)]
pub enum ConfigError {
    MissingSources,
    MissingTransforms,
    TransformsNotAMapping,
    TransformNotSingleEntry,
}

/// The fragment's `sources` member, passed through verbatim.
pub open spec fn frag_sources(f: Val) -> Option<Val> {
    match f {
        Val::Mapping(fs) => fields_get(fs, "sources"@),
        _ => None,
    }
}

/// The fragment's `transforms` member, passed through verbatim.
pub open spec fn frag_transforms(f: Val) -> Option<Val> {
    match f {
        Val::Mapping(fs) => fields_get(fs, "transforms"@),
        _ => None,
    }
}

/// A fragment the generator accepts: it has `sources` and `transforms`
/// members, `transforms` is a mapping, and every transform definition is a
/// single-entry mapping (anything else makes its name ambiguous).
pub open spec fn frag_valid(f: Val) -> bool {
    match (frag_sources(f), frag_transforms(f)) {
        (Some(_), Some(Val::Mapping(tr))) => forall|i: int|
            0 <= i < tr.len() ==> (#[trigger] tr[i].1) is Mapping && tr[i].1->Mapping_0.len() == 1,
        _ => false,
    }
}

/// The error reported for an invalid fragment, in the order the flaws are
/// looked for (meaningful when `frag_valid` is false).
pub open spec fn frag_err(f: Val) -> ConfigError {
    if frag_sources(f) is None {
        ConfigError::MissingSources
    } else if frag_transforms(f) is None {
        ConfigError::MissingTransforms
    } else if !(frag_transforms(f)->Some_0 is Mapping) {
        ConfigError::TransformsNotAMapping
    } else {
        ConfigError::TransformNotSingleEntry
    }
}

/// The transform names, in the fragment's own order.
pub open spec fn transform_names(tr: Seq<(Seq<char>, Val)>) -> Seq<Val> {
    Seq::new(tr.len(), |i: int| Val::Scalar(tr[i].0))
}

/// The computed sink: it consumes every transform, in fragment order, and
/// writes to the resolved topic.
pub open spec fn sink_val(names: Seq<Val>, project: Seq<char>, topic: Seq<char>) -> Val {
    Val::Mapping(
        seq![
            ("type"@, Val::Scalar("pubsub-sink"@)),
            ("inputs"@, Val::List(names)),
            ("project"@, Val::Scalar(project)),
            ("topic"@, Val::Scalar(topic)),
            ("encoding"@, Val::Scalar("json"@)),
        ],
    )
}

/// The whole routing configuration: `sources` and `transforms` passed through,
/// then a single computed sink, in exactly this member order.
pub open spec fn spec_generate(f: Val, project: Seq<char>, topic: Seq<char>) -> Val {
    Val::Mapping(
        seq![
            ("sources"@, frag_sources(f)->Some_0),
            ("transforms"@, frag_transforms(f)->Some_0),
            (
                "sinks"@,
                Val::Mapping(
                    seq![
                        (
                            "bq_writing_pubsub"@,
                            sink_val(
                                transform_names(frag_transforms(f)->Some_0->Mapping_0),
                                project,
                                topic,
                            ),
                        ),
                    ],
                ),
            ),
        ],
    )
}

/// Merges a user-authored fragment with the computed sink into the routing
/// configuration. The fragment's `sources` and `transforms` pass through
/// verbatim; the sink's inputs are the transform names in fragment order; the
/// output's member order is `sources`, `transforms`, `sinks`. A fragment
/// without both members, or with a transform definition that is not a
/// single-entry mapping, is rejected.
#[verifier::loop_isolation(false)]
pub fn generate(fragment: Node, project_id: &String, topic_id: &String) -> (r: Result<
    Node,
    ConfigError,
>)
    ensures
        r is Ok <==> frag_valid(fragment@),
        r matches Ok(out) ==> out@ == spec_generate(fragment@, project_id@, topic_id@),
        r matches Err(e) ==> e == frag_err(fragment@),
{
    let ghost fv = fragment@;
    let mut entries = match fragment {
        Node::Mapping(es) => es,
        _ => {
            return Err(ConfigError::MissingSources);
        },
    };
    let ghost es0 = entries@;
    let ghost fs0 = entries_view(es0);
    proof {
        lemma_entries_view(es0);
        lemma_fields_get_by_index(fs0, "sources"@);
        lemma_fields_get_by_index(fs0, "transforms"@);
    }
    let skey = "sources".to_owned();
    let tkey = "transforms".to_owned();
    let si = match crate::node::mapping_find(&entries, &skey) {
        Some(i) => i,
        None => {
            proof {
                assert forall|j: int| 0 <= j < fs0.len() implies fs0[j].0 != "sources"@ by {
                    assert(fs0[j].0 == es0[j].key@);
                }
            }
            return Err(ConfigError::MissingSources);
        },
    };
    let ti = match crate::node::mapping_find(&entries, &tkey) {
        Some(i) => i,
        None => {
            proof {
                assert forall|j: int| 0 <= j < fs0.len() implies fs0[j].0 != "transforms"@ by {
                    assert(fs0[j].0 == es0[j].key@);
                }
            }
            return Err(ConfigError::MissingTransforms);
        },
    };
    proof {
        assert forall|j: int| 0 <= j < si implies fs0[j].0 != "sources"@ by {
            assert(fs0[j].0 == es0[j].key@);
        }
        assert forall|j: int| 0 <= j < ti implies fs0[j].0 != "transforms"@ by {
            assert(fs0[j].0 == es0[j].key@);
        }
        assert(fields_get(fs0, "sources"@) == Some(fs0[si as int].1));
        assert(fields_get(fs0, "transforms"@) == Some(fs0[ti as int].1));
        reveal_strlit("sources");
        reveal_strlit("transforms");
        assert("sources"@.len() == 7);
        assert("transforms"@.len() == 10);
        assert(si != ti);
    }
    let (sources, transforms) = if si < ti {
        let t = entries.remove(ti).val;
        proof {
            assert(entries@[si as int] == es0[si as int]);
        }
        let s = entries.remove(si).val;
        (s, t)
    } else {
        let s = entries.remove(si).val;
        proof {
            assert(entries@[ti as int] == es0[ti as int]);
        }
        let t = entries.remove(ti).val;
        (s, t)
    };
    let ghost sourcesv = frag_sources(fv)->Some_0;
    let ghost transformsv = frag_transforms(fv)->Some_0;
    assert(sources@ == sourcesv);
    assert(transforms@ == transformsv);
    let tr_entries = match transforms {
        Node::Mapping(te) => te,
        _ => {
            return Err(ConfigError::TransformsNotAMapping);
        },
    };
    let ghost trv = entries_view(tr_entries@);
    proof {
        lemma_entries_view(tr_entries@);
        assert(transformsv == Val::Mapping(trv));
    }
    let mut names: Vec<Node> = Vec::new();
    let mut k: usize = 0;
    while k < tr_entries.len()
        invariant
            k <= tr_entries@.len(),
            trv == entries_view(tr_entries@),
            names@.len() == k,
            forall|m: int|
                0 <= m < k ==> node_view(#[trigger] names@[m]) == Val::Scalar(trv[m].0),
            forall|m: int|
                0 <= m < k ==> (#[trigger] trv[m]).1 is Mapping && trv[m].1->Mapping_0.len() == 1,
        decreases tr_entries@.len() - k,
    {
        proof {
            lemma_entries_view(tr_entries@);
        }
        proof {
            assert(trv[k as int] == (tr_entries@[k as int].key@, node_view(
                tr_entries@[k as int].val,
            )));
        }
        match &tr_entries[k].val {
            Node::Mapping(def) => {
                proof {
                    lemma_entries_view(def@);
                }
                if def.len() != 1 {
                    proof {
                        assert(trv[k as int].1 == Val::Mapping(entries_view(def@)));
                        assert(trv[k as int].1->Mapping_0.len() == def@.len());
                        assert(!frag_valid(fv));
                    }
                    return Err(ConfigError::TransformNotSingleEntry);
                }
            },
            _ => {
                proof {
                    assert(!(trv[k as int].1 is Mapping));
                    assert(!frag_valid(fv));
                }
                return Err(ConfigError::TransformNotSingleEntry);
            },
        }
        names.push(Node::Scalar(tr_entries[k].key.clone()));
        k = k + 1;
    }
    let ghost namesv = transform_names(trv);
    proof {
        lemma_nodes_view(names@);
        assert(nodes_view(names@) =~= namesv);
    }
    let mut sink_fields: Vec<Entry> = Vec::new();
    sink_fields.push(Entry { key: "type".to_owned(), val: Node::Scalar("pubsub-sink".to_owned()) });
    sink_fields.push(Entry { key: "inputs".to_owned(), val: Node::List(names) });
    sink_fields.push(Entry { key: "project".to_owned(), val: Node::Scalar(project_id.clone()) });
    sink_fields.push(Entry { key: "topic".to_owned(), val: Node::Scalar(topic_id.clone()) });
    sink_fields.push(Entry { key: "encoding".to_owned(), val: Node::Scalar("json".to_owned()) });
    let sink = Node::Mapping(sink_fields);
    let ghost sinkv = sink_val(namesv, project_id@, topic_id@);
    proof {
        lemma_entries_view(sink->Mapping_0@);
        assert(entries_view(sink->Mapping_0@) =~= sinkv->Mapping_0);
        assert(sink@ == sinkv);
    }
    let mut sinks_fields: Vec<Entry> = Vec::new();
    sinks_fields.push(Entry { key: "bq_writing_pubsub".to_owned(), val: sink });
    let sinks = Node::Mapping(sinks_fields);
    proof {
        lemma_entries_view(sinks->Mapping_0@);
        assert(entries_view(sinks->Mapping_0@) =~= seq![("bq_writing_pubsub"@, sinkv)]);
    }
    let transforms_out = Node::Mapping(tr_entries);
    let mut out_fields: Vec<Entry> = Vec::new();
    out_fields.push(Entry { key: skey, val: sources });
    out_fields.push(Entry { key: tkey, val: transforms_out });
    out_fields.push(Entry { key: "sinks".to_owned(), val: sinks });
    let out = Node::Mapping(out_fields);
    proof {
        lemma_entries_view(out->Mapping_0@);
        assert(entries_view(out->Mapping_0@) =~= spec_generate(fv, project_id@, topic_id@)
            ->Mapping_0);
        assert(out@ == spec_generate(fv, project_id@, topic_id@));
    }
    Ok(out)
}

} // verus!
