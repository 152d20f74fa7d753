use dioxus_transition::presence::{classify, maybe_is_element_placeholder, DynamicNode, Presence, VNode};

fn slot(inner: Vec<DynamicNode>) -> Option<VNode> {
    Some(VNode { dynamic_nodes: vec![DynamicNode::Fragment(vec![VNode { dynamic_nodes: inner }])] })
}

#[test]
fn placeholder_slot_is_absent() {
    assert_eq!(maybe_is_element_placeholder(slot(vec![DynamicNode::Placeholder])), Some(true));
    assert_eq!(classify(slot(vec![DynamicNode::Placeholder, DynamicNode::Text])), Presence::Absent);
}

#[test]
fn content_slot_is_present() {
    assert_eq!(maybe_is_element_placeholder(slot(vec![DynamicNode::Component])), Some(false));
    assert_eq!(classify(slot(vec![DynamicNode::Text, DynamicNode::Placeholder])), Presence::Present);
    assert_eq!(classify(slot(vec![])), Presence::Present);
}

#[test]
fn unknown_shapes_are_indeterminate() {
    assert_eq!(maybe_is_element_placeholder(None), None);
    assert_eq!(maybe_is_element_placeholder(Some(VNode { dynamic_nodes: vec![] })), None);
    assert_eq!(
        maybe_is_element_placeholder(Some(VNode { dynamic_nodes: vec![DynamicNode::Placeholder] })),
        None
    );
    assert_eq!(
        classify(Some(VNode { dynamic_nodes: vec![DynamicNode::Fragment(vec![])] })),
        Presence::Indeterminate
    );
}

#[test]
fn classifying_twice_gives_the_same_result() {
    let absent = slot(vec![DynamicNode::Placeholder]);
    assert_eq!(classify_ref(&absent), classify_ref(&absent));
    let present = slot(vec![DynamicNode::Text]);
    assert_eq!(classify_ref(&present), classify_ref(&present));
}

fn classify_ref(element: &Option<VNode>) -> Presence {
    classify(element.as_ref().map(|root| VNode { dynamic_nodes: root.dynamic_nodes.iter().map(copy_node).collect() }))
}

fn copy_node(n: &DynamicNode) -> DynamicNode {
    match n {
        DynamicNode::Component => DynamicNode::Component,
        DynamicNode::Text => DynamicNode::Text,
        DynamicNode::Placeholder => DynamicNode::Placeholder,
        DynamicNode::Fragment(nodes) => DynamicNode::Fragment(
            nodes.iter().map(|v| VNode { dynamic_nodes: v.dynamic_nodes.iter().map(copy_node).collect() }).collect(),
        ),
    }
}
