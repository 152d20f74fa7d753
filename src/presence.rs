//! Presence classification of a rendered slot.
//!
//! A host framework renders an empty slot as a placeholder node nested in the
//! slot's fragment. The types here model the part of a rendered tree that
//! the classification reads.

use vstd::prelude::*;

verus! {

/// A dynamic part of a rendered template.
pub enum DynamicNode {
    Component,
    Text,
    Placeholder,
    Fragment(Vec<VNode>),
}

/// A rendered template, by its dynamic parts in order.
pub struct VNode {
    pub dynamic_nodes: Vec<DynamicNode>,
}

/// What a rendered slot holds.
#[derive(PartialEq, Eq, Structural, Clone, Copy, Debug)]
pub enum Presence {
    Present,
    Absent,
    Indeterminate,
}

/// Whether the first dynamic node of the first template of `frag` is a placeholder.
pub open spec fn first_is_placeholder(frag: Seq<VNode>) -> bool {
    &&& frag.len() > 0
    &&& frag[0].dynamic_nodes@.len() > 0
    &&& frag[0].dynamic_nodes@[0] is Placeholder
}

/// `None` where the output does not have the fragment-of-fragment shape (a
/// failed render, no dynamic node, a first dynamic node that is no fragment,
/// an empty fragment); otherwise whether the slot renders a placeholder.
pub open spec fn placeholder_of(element: Option<VNode>) -> Option<bool> {
    match element {
        None => None,
        Some(root) => if root.dynamic_nodes@.len() == 0 {
            None
        } else {
            match root.dynamic_nodes@[0] {
                DynamicNode::Fragment(frag) => if frag@.len() == 0 {
                    None
                } else {
                    Some(first_is_placeholder(frag@))
                },
                _ => None,
            }
        },
    }
}

/// A placeholder means absent content, any other recognised shape present content.
pub open spec fn presence_of(element: Option<VNode>) -> Presence {
    match placeholder_of(element) {
        None => Presence::Indeterminate,
        Some(true) => Presence::Absent,
        Some(false) => Presence::Present,
    }
}

/// Reads whether a rendered slot (`None` for a failed render) holds the
/// framework's empty placeholder; `None` for a shape it does not recognise.
pub fn maybe_is_element_placeholder(element: Option<VNode>) -> (r: Option<bool>)
    ensures
        r == placeholder_of(element),
{
    let root = match &element {
        Some(root) => root,
        None => return None,
    };
    if root.dynamic_nodes.len() == 0 {
        return None;
    }
    let frag = match &root.dynamic_nodes[0] {
        DynamicNode::Fragment(frag) => frag,
        _ => return None,
    };
    if frag.len() == 0 {
        return None;
    }
    let inner = &frag[0];
    let result = inner.dynamic_nodes.len() > 0 && matches!(
        inner.dynamic_nodes[0],
        DynamicNode::Placeholder
    );
    Some(result)
}

/// Classifies a rendered slot.
pub fn classify(element: Option<VNode>) -> (r: Presence)
    ensures
        r == presence_of(element),
{
    match maybe_is_element_placeholder(element) {
        None => Presence::Indeterminate,
        Some(true) => Presence::Absent,
        Some(false) => Presence::Present,
    }
}

/// Classifying the same rendered tree twice gives the same result.
pub proof fn classification_is_stable(element: Option<VNode>, first: Presence, second: Presence)
    requires
        first == presence_of(element),
        second == presence_of(element),
    ensures
        first == second,
{
}

} // verus!
