use tasktree::{
    IdentityFault, TaskId, TaskLineage, TaskLineageError, TaskNodeId, TaskTreeId, UrnScheme,
};

#[derive(Debug, Clone, Copy, PartialEq, Eq, Hash, PartialOrd, Ord)]
struct ExampleUrn;

impl UrnScheme for ExampleUrn {
    const TASK_PREFIX: &'static str = "urn:example:task:";
    const TREE_PREFIX: &'static str = "urn:example:task-tree:";
}

type Id = TaskId<ExampleUrn>;
type TreeId = TaskTreeId<ExampleUrn>;
type Lineage = TaskLineage<ExampleUrn>;

const TRACE: &str = "0102030405060708090a0b0c0d0e0f10";
const OTHER_TRACE: &str = "1112131415161718191a1b1c1d1e1f20";
const SPAN: &str = "1112131415161718";

#[test]
fn root_task_urn_round_trips_under_the_scheme() {
    let root = Id::generate();
    assert!(root.as_str().starts_with("urn:example:task:"));
    let parsed = Id::parse(root.as_str()).expect("round trip");
    assert_eq!(parsed, root);
    assert_eq!(parsed.node(), root.node());
}

#[test]
fn child_tasks_share_the_tree_and_round_trip() {
    let root = Id::generate();
    let child = root.child();
    assert_eq!(child.tree(), root.tree());
    assert_ne!(child, root);
    assert!(child.as_str().contains(':'));
    assert_eq!(Id::parse(child.as_str()).expect("round trip"), child);
}

#[test]
fn foreign_prefixes_are_rejected() {
    let root = Id::generate();
    let foreign = root.as_str().replace("urn:example:", "urn:other:");
    assert!(Id::parse(&foreign).is_err(), "{foreign}");
}

#[test]
fn tree_ids_parse_urn_bare_trace_and_traceparent_forms() {
    let tree = TreeId::generate();
    let trace = tree.as_w3c_trace_id();
    for raw in [
        tree.as_str().to_owned(),
        trace.to_owned(),
        format!("00-{trace}-00f067aa0ba902b7-01"),
    ] {
        assert_eq!(
            TreeId::new(&raw).expect("parse").as_str(),
            tree.as_str(),
            "{raw}"
        );
    }
}

#[test]
fn zero_and_malformed_identities_are_rejected() {
    for raw in [
        "urn:example:task:",
        "urn:example:task:00000000000000000000000000000000",
        "urn:example:task:zz",
        "urn:example:task:0af7651916cd43dd8448eb211c80319c:0000000000000000",
        "urn:example:task:0af7651916cd43dd8448eb211c80319c:0000000000000001",
        "urn:example:task:0af7651916cd43dd8448eb211c80319c:aa:bb",
    ] {
        assert!(Id::parse(raw).is_err(), "{raw}");
    }
}

#[test]
fn tests_lineage_rejects_self_and_cross_tree_parentage() {
    let root = Id::generate();
    let child = root.child();
    assert!(TaskLineage::try_new(child.clone(), root.clone()).is_ok());
    assert!(matches!(
        TaskLineage::try_new(root.clone(), root.clone()),
        Err(TaskLineageError::SelfParent { .. })
    ));
    let stranger = Id::generate();
    assert!(matches!(
        TaskLineage::try_new(stranger, root),
        Err(TaskLineageError::TreeMismatch { .. })
    ));
}

#[test]
fn task_identity_round_trips_canonical_root_and_descendant_urns() {
    let tree = TreeId::new(TRACE).unwrap();
    let root = Id::root(tree.clone());
    let descendant = Id::new(tree, TaskNodeId::new(SPAN).unwrap());

    assert_eq!(root.as_str(), format!("urn:example:task:{TRACE}"));
    assert_eq!(root.node().as_w3c_span_id(), "0000000000000001");
    assert_eq!(Id::parse(root.as_str()).unwrap(), root);
    assert_eq!(
        descendant.as_str(),
        format!("urn:example:task:{TRACE}:{SPAN}")
    );
    assert_eq!(Id::parse(descendant.as_str()).unwrap(), descendant);
}

#[test]
fn task_identity_rejects_noncanonical_and_ambiguous_forms() {
    assert!(Id::parse(TRACE).is_err());
    assert!(Id::parse(SPAN).is_err());
    assert!(Id::parse(&format!("urn:example:task-tree:{TRACE}")).is_err());
    assert!(Id::parse(&format!("urn:example:task-ref:{TRACE}:{SPAN}")).is_err());
    assert!(Id::parse(&format!("urn:example:task:{TRACE}:0000000000000001")).is_err());
}

#[test]
fn task_identity_components_enforce_w3c_width_and_nonzero_rules() {
    assert!(TreeId::new("00000000000000000000000000000000").is_err());
    assert!(TaskNodeId::new("0000000000000000").is_err());
    assert!(TreeId::new("0102").is_err());
    assert!(TaskNodeId::new("0102").is_err());

    let tree = TreeId::new(&format!("urn:example:task-tree:{TRACE}")).unwrap();
    assert_eq!(tree.as_w3c_trace_id(), TRACE);
    let from_traceparent = TreeId::new(&format!("00-{TRACE}-{SPAN}-01")).unwrap();
    assert_eq!(from_traceparent, tree);
}

#[test]
fn task_nodes_are_only_unique_within_their_tree() {
    let node = TaskNodeId::new(SPAN).unwrap();
    let first = Id::new(TreeId::new(TRACE).unwrap(), node.clone());
    let second = Id::new(TreeId::new(OTHER_TRACE).unwrap(), node);

    assert_ne!(first, second);
}

#[test]
fn core_invariants_lineage_rejects_self_and_cross_tree_parentage() {
    let parent = Id::generate();
    let child = parent.child();
    let lineage = Lineage::try_new(child.clone(), parent.clone()).unwrap();

    assert_eq!(lineage.task(), &child);
    assert_eq!(lineage.parent(), &parent);
    assert!(matches!(
        Lineage::try_new(parent.clone(), parent),
        Err(TaskLineageError::SelfParent { .. })
    ));
    assert!(matches!(
        Lineage::try_new(child, Id::generate()),
        Err(TaskLineageError::TreeMismatch { .. })
    ));
}

#[test]
fn lineage_parts_come_back_unchanged() {
    let parent = Id::generate();
    let child = parent.child();
    let (task, back) = Lineage::try_new(child.clone(), parent.clone())
        .unwrap()
        .into_parts();
    assert_eq!(task, child);
    assert_eq!(back, parent);
}

#[test]
fn lineage_errors_display_the_urns() {
    let root = Id::parse(&format!("urn:example:task:{TRACE}")).unwrap();
    match Lineage::try_new(root.clone(), root) {
        Err(e) => assert_eq!(
            e.to_string(),
            format!("task cannot be its own parent: urn:example:task:{TRACE}")
        ),
        Ok(_) => panic!("self-parentage accepted"),
    }
}

#[test]
fn parse_reports_each_fault() {
    let cases = [
        ("urn:other:task:0102", IdentityFault::ForeignPrefix),
        (
            "urn:example:task:0af7651916cd43dd8448eb211c80319c:aa:bb",
            IdentityFault::TooManyFields,
        ),
        (
            "urn:example:task:0af7651916cd43dd8448eb211c80319c:0000000000000001",
            IdentityFault::RootNodeSpelled,
        ),
        ("urn:example:task:zz", IdentityFault::TraceWidth),
        (
            "urn:example:task:0AF7651916CD43DD8448EB211C80319C",
            IdentityFault::TraceWidth,
        ),
        (
            "urn:example:task:00000000000000000000000000000000",
            IdentityFault::TraceZero,
        ),
        (
            "urn:example:task:0af7651916cd43dd8448eb211c80319c:12",
            IdentityFault::SpanWidth,
        ),
        (
            "urn:example:task:0af7651916cd43dd8448eb211c80319c:0000000000000000",
            IdentityFault::SpanZero,
        ),
    ];
    for (raw, fault) in cases {
        let err = Id::parse(raw).expect_err(raw);
        assert_eq!(err.fault(), fault, "{raw}");
        assert_eq!(err.value(), raw);
    }
}

#[test]
fn traceparent_faults_are_reported() {
    let cases = [
        (format!("00-{TRACE}-{SPAN}-01-ff"), IdentityFault::TraceparentTooManyFields),
        (format!("00-{TRACE}-{SPAN}-1"), IdentityFault::TraceparentFlags),
        (format!("zz-{TRACE}-{SPAN}-01"), IdentityFault::TraceparentNotHex),
        (
            format!("00-{TRACE}-1112131415161A18-01"),
            IdentityFault::TraceparentParentWidth,
        ),
        (
            format!("00-{TRACE}-0000000000000000-01"),
            IdentityFault::TraceparentParentZero,
        ),
        (
            "00-00000000000000000000000000000000-1112131415161718-01".to_owned(),
            IdentityFault::TraceZero,
        ),
    ];
    for (raw, fault) in cases {
        let err = TreeId::new(&raw).expect_err(&raw);
        assert_eq!(err.fault(), fault, "{raw}");
    }
    // Not shaped like a traceparent: read as a bare trace ID instead.
    let err = TreeId::new("0-1-2-3").expect_err("not hex");
    assert_eq!(err.fault(), IdentityFault::TraceWidth);
}

#[test]
fn identity_errors_explain_themselves() {
    let err = TaskNodeId::new("0102").expect_err("too short");
    assert_eq!(err.message(), "expected 16 span hex characters");
    assert_eq!(
        err.to_string(),
        "invalid task identity \"0102\": expected 16 span hex characters"
    );
}

#[test]
fn urn_suffix_and_components_are_consistent() {
    let tree = TreeId::new(TRACE).unwrap();
    let node = TaskNodeId::new(SPAN).unwrap();
    let id = Id::new(tree.clone(), node.clone());
    assert_eq!(id.as_urn_suffix(), format!("{TRACE}:{SPAN}"));
    assert_eq!(id.tree(), &tree);
    assert_eq!(id.node(), &node);
    assert_eq!(tree.as_str(), format!("urn:example:task-tree:{TRACE}"));
    assert_eq!(node.as_str(), SPAN);
    let root = Id::root(tree);
    assert_eq!(root.as_urn_suffix(), TRACE);
}

#[test]
fn generated_identities_are_never_zero_or_root() {
    for _ in 0..32 {
        let node = TaskNodeId::generate();
        assert_ne!(node.as_str(), "0000000000000000");
        assert_ne!(node.as_str(), "0000000000000001");
        let tree = TreeId::generate();
        assert_ne!(tree.as_w3c_trace_id(), "00000000000000000000000000000000");
        assert_eq!(TreeId::new(tree.as_str()).unwrap(), tree);
        assert_eq!(TaskNodeId::new(node.as_str()).unwrap(), node);
    }
}

#[test]
fn schemes_are_validated() {
    assert!(tasktree::scheme::scheme_is_valid::<ExampleUrn>());
    assert!(tasktree::scheme::validate_prefixes(
        "urn:a:task:",
        "urn:a:tree:"
    ));
    assert!(!tasktree::scheme::validate_prefixes("urn:a:", "urn:a:"));
    assert!(!tasktree::scheme::validate_prefix(""));
    assert!(!tasktree::scheme::validate_prefix("urn:a"));
    assert!(!tasktree::scheme::validate_prefix("urn a:"));
    assert!(!tasktree::scheme::validate_prefix("urn:é:"));
}

#[derive(Debug, Clone, Copy, PartialEq, Eq, Hash, PartialOrd, Ord)]
struct DashedUrn;

impl UrnScheme for DashedUrn {
    const TASK_PREFIX: &'static str = "urn:a-b-c-d:task:";
    const TREE_PREFIX: &'static str = "urn:a-b-c-d:tree:";
}

#[derive(Debug, Clone, Copy, PartialEq, Eq, Hash, PartialOrd, Ord)]
struct ManyDashUrn;

impl UrnScheme for ManyDashUrn {
    const TASK_PREFIX: &'static str = "urn:a-b-c-d-e:task:";
    const TREE_PREFIX: &'static str = "urn:a-b-c-d-e:tree:";
}

#[test]
fn three_dash_tree_prefixes_still_round_trip() {
    let tree = TaskTreeId::<DashedUrn>::new(TRACE).unwrap();
    assert_eq!(tree.as_str(), format!("urn:a-b-c-d:tree:{TRACE}"));
    assert_eq!(TaskTreeId::<DashedUrn>::new(tree.as_str()).unwrap(), tree);
    assert_eq!(TaskTreeId::<DashedUrn>::new(tree.as_w3c_trace_id()).unwrap(), tree);
}

#[derive(Debug, Clone, Copy, PartialEq, Eq, Hash, PartialOrd, Ord)]
struct TraceShapedUrn;

impl UrnScheme for TraceShapedUrn {
    const TASK_PREFIX: &'static str = "ab-0123456789abcdef0123456789abcdef-0123456789abcdef-task:";
    const TREE_PREFIX: &'static str = "ab-0123456789abcdef0123456789abcdef-0123456789abcdef-tree:";
}

#[test]
fn tree_urns_round_trip_under_any_valid_prefix() {
    let tree = TaskTreeId::<ManyDashUrn>::new(TRACE).unwrap();
    assert_eq!(tree.as_str(), format!("urn:a-b-c-d-e:tree:{TRACE}"));
    assert_eq!(TaskTreeId::<ManyDashUrn>::new(tree.as_str()).unwrap(), tree);
    assert_eq!(TaskTreeId::<ManyDashUrn>::new(tree.as_w3c_trace_id()).unwrap(), tree);

    let shaped = TaskTreeId::<TraceShapedUrn>::new(TRACE).unwrap();
    assert_eq!(TaskTreeId::<TraceShapedUrn>::new(shaped.as_str()).unwrap(), shaped);
    assert_eq!(shaped.as_w3c_trace_id(), TRACE);
}

#[test]
fn traceparents_still_parse_under_dashed_tree_prefixes() {
    let header = format!("00-{TRACE}-00f067aa0ba902b7-01");
    let tree = TaskTreeId::<ManyDashUrn>::new(&header).unwrap();
    assert_eq!(tree.as_w3c_trace_id(), TRACE);
    let err = TaskTreeId::<ManyDashUrn>::new(&format!("{header}-02")).expect_err("five fields");
    assert_eq!(err.fault(), IdentityFault::TraceparentTooManyFields);
}
