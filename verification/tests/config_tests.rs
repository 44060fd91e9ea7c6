use beaver::node::{Entry, Node};
use beaver::vector_config::{generate, ConfigError};

fn scalar(s: &str) -> Node {
    Node::Scalar(s.to_string())
}

fn mapping(fields: Vec<(&str, Node)>) -> Node {
    Node::Mapping(
        fields
            .into_iter()
            .map(|(k, v)| Entry { key: k.to_string(), val: v })
            .collect(),
    )
}

fn keys(n: &Node) -> Vec<String> {
    match n {
        Node::Mapping(es) => es.iter().map(|e| e.key.clone()).collect(),
        _ => panic!("not a mapping"),
    }
}

fn get<'a>(n: &'a Node, key: &str) -> &'a Node {
    match n {
        Node::Mapping(es) => &es.iter().find(|e| e.key == key).expect("key present").val,
        _ => panic!("not a mapping"),
    }
}

fn sample_fragment() -> Node {
    mapping(vec![
        ("sources", mapping(vec![("in", mapping(vec![("type", scalar("stdin"))]))])),
        (
            "transforms",
            mapping(vec![
                ("t1", mapping(vec![("parse", mapping(vec![("field", scalar("msg"))]))])),
                ("t2", mapping(vec![("filter", mapping(vec![("field", scalar("lvl"))]))])),
            ]),
        ),
    ])
}

#[test]
fn generated_document_keeps_the_member_order_and_inputs_order() {
    let out = generate(sample_fragment(), &"proj".to_string(), &"topic".to_string())
        .expect("valid fragment");
    assert_eq!(keys(&out), vec!["sources", "transforms", "sinks"]);

    let sinks = get(&out, "sinks");
    assert_eq!(keys(sinks), vec!["bq_writing_pubsub"]);
    let sink = get(sinks, "bq_writing_pubsub");
    assert_eq!(
        keys(sink),
        vec!["type", "inputs", "project", "topic", "encoding"]
    );
    assert_eq!(get(sink, "type"), &scalar("pubsub-sink"));
    assert_eq!(
        get(sink, "inputs"),
        &Node::List(vec![scalar("t1"), scalar("t2")])
    );
    assert_eq!(get(sink, "project"), &scalar("proj"));
    assert_eq!(get(sink, "topic"), &scalar("topic"));
    assert_eq!(get(sink, "encoding"), &scalar("json"));
}

#[test]
fn sources_and_transforms_pass_through_verbatim() {
    let out = generate(sample_fragment(), &"proj".to_string(), &"topic".to_string())
        .expect("valid fragment");
    let same_fragment = sample_fragment();
    assert_eq!(get(&out, "sources"), get(&same_fragment, "sources"));
    assert_eq!(get(&out, "transforms"), get(&same_fragment, "transforms"));
}

#[test]
fn fragment_without_sources_is_rejected() {
    let frag = mapping(vec![("transforms", mapping(vec![]))]);
    let r = generate(frag, &"proj".to_string(), &"topic".to_string());
    assert_eq!(r, Err(ConfigError::MissingSources));
}

#[test]
fn fragment_without_transforms_is_rejected() {
    let frag = mapping(vec![("sources", mapping(vec![]))]);
    let r = generate(frag, &"proj".to_string(), &"topic".to_string());
    assert_eq!(r, Err(ConfigError::MissingTransforms));
}

#[test]
fn scalar_transforms_member_is_rejected() {
    let frag = mapping(vec![("sources", mapping(vec![])), ("transforms", scalar("x"))]);
    let r = generate(frag, &"proj".to_string(), &"topic".to_string());
    assert_eq!(r, Err(ConfigError::TransformsNotAMapping));
}

#[test]
fn transform_definition_with_two_members_is_rejected() {
    let frag = mapping(vec![
        ("sources", mapping(vec![])),
        (
            "transforms",
            mapping(vec![(
                "t1",
                mapping(vec![("parse", scalar("a")), ("filter", scalar("b"))]),
            )]),
        ),
    ]);
    let r = generate(frag, &"proj".to_string(), &"topic".to_string());
    assert_eq!(r, Err(ConfigError::TransformNotSingleEntry));
}

#[test]
fn scalar_transform_definition_is_rejected() {
    let frag = mapping(vec![
        ("sources", mapping(vec![])),
        ("transforms", mapping(vec![("t1", scalar("oops"))])),
    ]);
    let r = generate(frag, &"proj".to_string(), &"topic".to_string());
    assert_eq!(r, Err(ConfigError::TransformNotSingleEntry));
}

#[test]
fn fragment_with_no_transform_entries_generates_an_empty_input_list() {
    let frag = mapping(vec![("sources", mapping(vec![])), ("transforms", mapping(vec![]))]);
    let out = generate(frag, &"proj".to_string(), &"topic".to_string()).expect("valid fragment");
    let sink = get(get(&out, "sinks"), "bq_writing_pubsub");
    assert_eq!(get(sink, "inputs"), &Node::List(vec![]));
}
