//! The projection core: `NodeDataRef<T>` pairs a strong node handle with
//! access to one typed sub-part of the node that handle owns. The pair is
//! built in a single constructor call, so the sub-part can never be retained
//! without the handle that keeps it valid.

use vstd::prelude::*;
use crate::node::{CommentData, Doctype, DocumentData, ElementData, Node, NodeRef, TextData};

verus! {

/// A node variant the projection core can narrow to: a payload type together
/// with its classification, which yields the payload exactly when the node
/// holds this variant. The five node variants implement it; an implementation
/// of its two functions is all a custom sub-part projection needs to work
/// with `NodeDataRef::new` and `NodeDataRef::new_opt`.
pub trait NodeVariant: Sized {
    /// Spec-level classification: the payload carried by `n`, if `n` holds
    /// this variant.
    spec fn of_node(n: Node) -> Option<Self>;

    /// Narrowing accessor: a view of the payload, if `n` holds this variant.
    fn classify(n: &Node) -> (r: Option<&Self>)
        ensures
            r is None ==> Self::of_node(*n) is None,
            r matches Some(v) ==> Self::of_node(*n) == Some(*v),
    ;
}

/// A classification result `r` for the node `n` agrees with the spec-level
/// classification of `n`: present exactly when the node holds the variant,
/// and then carrying exactly the node's payload.
pub open spec fn classifies<T: NodeVariant>(n: Node, r: Option<&T>) -> bool {
    match r {
        Some(v) => T::of_node(n) == Some(*v),
        None => T::of_node(n) is None,
    }
}

impl NodeVariant for ElementData {
    open spec fn of_node(n: Node) -> Option<ElementData> {
        n.spec_element()
    }

    fn classify(n: &Node) -> Option<&ElementData> {
        n.as_element()
    }
}

impl NodeVariant for TextData {
    open spec fn of_node(n: Node) -> Option<TextData> {
        n.spec_text()
    }

    fn classify(n: &Node) -> Option<&TextData> {
        n.as_text()
    }
}

impl NodeVariant for CommentData {
    open spec fn of_node(n: Node) -> Option<CommentData> {
        n.spec_comment()
    }

    fn classify(n: &Node) -> Option<&CommentData> {
        n.as_comment()
    }
}

impl NodeVariant for Doctype {
    open spec fn of_node(n: Node) -> Option<Doctype> {
        n.spec_doctype()
    }

    fn classify(n: &Node) -> Option<&Doctype> {
        n.as_doctype()
    }
}

impl NodeVariant for DocumentData {
    open spec fn of_node(n: Node) -> Option<DocumentData> {
        n.spec_document()
    }

    fn classify(n: &Node) -> Option<&DocumentData> {
        n.as_document()
    }
}

/// Holds a strong reference to a node, but gives read access to one typed
/// sub-part inside of it. The handle and the sub-part are inseparable: the
/// only way to obtain a `NodeDataRef` derives the sub-part from the very
/// handle stored alongside it, and the handle is released only when the
/// projection itself is dropped.
pub struct NodeDataRef<T: NodeVariant> {
    keep_alive: NodeRef,
    projected: Ghost<T>,
}

impl<T: NodeVariant> NodeDataRef<T> {
    /// The stored handle's node holds the variant, and the ghost records
    /// exactly that payload.
    #[verifier::type_invariant]
    spec fn wf(self) -> bool {
        T::of_node(self.keep_alive.node()) == Some(self.projected@)
    }

    /// The node backing this projection.
    pub closed spec fn spec_node(self) -> Node {
        self.keep_alive.node()
    }

    /// The projected sub-part of the backing node.
    pub closed spec fn spec_value(self) -> T {
        self.projected@
    }

    /// Create a `NodeDataRef` for a sub-part that is present in every node
    /// the projection function accepts. The handle is consumed and stored
    /// inside the result; callers that need their own handle clone it first.
    pub fn new<F: FnOnce(&Node) -> &T>(rc: NodeRef, f: F) -> (r: NodeDataRef<T>)
        requires
            call_requires(f, (&rc.node(),)),
            forall|n: &Node, v: &T| #[trigger] call_ensures(f, (n,), v) ==> T::of_node(*n) == Some(*v),
        ensures
            r.spec_node() == rc.node(),
            Some(r.spec_value()) == T::of_node(rc.node()),
    {
        let v = f(rc.data());
        let ghost p = *v;
        NodeDataRef { keep_alive: rc, projected: Ghost(p) }
    }

    /// Create a `NodeDataRef` for a sub-part that may or may not be present
    /// in the given node. Yields a projection exactly when the projection
    /// function does; otherwise the handle is dropped and `None` returned,
    /// so no view of the sub-part can outlive its handle.
    pub fn new_opt<F: FnOnce(&Node) -> Option<&T>>(rc: NodeRef, f: F) -> (r: Option<NodeDataRef<T>>)
        requires
            call_requires(f, (&rc.node(),)),
            forall|n: &Node, o: Option<&T>| #[trigger] call_ensures(f, (n,), o) ==> classifies(*n, o),
        ensures
            r is Some <==> T::of_node(rc.node()) is Some,
            r matches Some(d) ==> d.spec_node() == rc.node()
                && Some(d.spec_value()) == T::of_node(rc.node()),
    {
        let present = f(rc.data()).is_some();
        if present {
            let ghost p = T::of_node(rc.node()).unwrap();
            Some(NodeDataRef { keep_alive: rc, projected: Ghost(p) })
        } else {
            None
        }
    }

    /// Access the corresponding node: the very handle this projection keeps
    /// alive, available without releasing the projection.
    pub fn as_node(&self) -> (r: &NodeRef)
        ensures
            r.node() == self.spec_node(),
    {
        &self.keep_alive
    }

    /// Read the projected sub-part: always the payload that classification
    /// of the backing node yields.
    pub fn get(&self) -> (r: &T)
        ensures
            *r == self.spec_value(),
            Some(*r) == T::of_node(self.spec_node()),
    {
        proof {
            use_type_invariant(self);
        }
        match T::classify(self.keep_alive.data()) {
            Some(v) => v,
            None => vstd::pervasive::unreached(),
        }
    }
}

impl<T: NodeVariant> core::ops::Deref for NodeDataRef<T> {
    type Target = T;

    /// Transparent read access: a projection dereferences directly to the
    /// sub-part, as `get` does.
    fn deref(&self) -> (r: &T)
        ensures
            *r == self.spec_value(),
    {
        self.get()
    }
}

/// Relies on std's `Debug` formatting: renders a value with `format!("{:?}", ..)`.
#[verifier::external_body]
fn debug_of<T: core::fmt::Debug>(v: &T) -> String {
    format!("{:?}", v)
}

impl<T: NodeVariant + core::fmt::Debug> NodeDataRef<T> {
    /// Debug rendering of this projection for diagnostics: exactly the debug
    /// rendering of the projected sub-part itself, so the wrapper stays
    /// invisible.
    pub fn debug_string(&self) -> String {
        debug_of(self.get())
    }
}

impl NodeRef {
    /// If this node is an element, return a strong reference to element-specific data.
    pub fn into_element_ref(self) -> (r: Option<NodeDataRef<ElementData>>)
        ensures
            r is Some <==> self.node() matches Node::Element(_),
            r matches Some(d) ==> d.spec_node() == self.node()
                && Some(d.spec_value()) == self.node().spec_element(),
    {
        NodeDataRef::new_opt(self, ElementData::classify)
    }

    /// If this node is a text node, return a strong reference to its contents.
    pub fn into_text_ref(self) -> (r: Option<NodeDataRef<TextData>>)
        ensures
            r is Some <==> self.node() matches Node::Text(_),
            r matches Some(d) ==> d.spec_node() == self.node()
                && Some(d.spec_value()) == self.node().spec_text(),
    {
        NodeDataRef::new_opt(self, TextData::classify)
    }

    /// If this node is a comment, return a strong reference to its contents.
    pub fn into_comment_ref(self) -> (r: Option<NodeDataRef<CommentData>>)
        ensures
            r is Some <==> self.node() matches Node::Comment(_),
            r matches Some(d) ==> d.spec_node() == self.node()
                && Some(d.spec_value()) == self.node().spec_comment(),
    {
        NodeDataRef::new_opt(self, CommentData::classify)
    }

    /// If this node is a doctype, return a strong reference to doctype-specific data.
    pub fn into_doctype_ref(self) -> (r: Option<NodeDataRef<Doctype>>)
        ensures
            r is Some <==> self.node() matches Node::Doctype(_),
            r matches Some(d) ==> d.spec_node() == self.node()
                && Some(d.spec_value()) == self.node().spec_doctype(),
    {
        NodeDataRef::new_opt(self, Doctype::classify)
    }

    /// If this node is a document, return a strong reference to document-specific data.
    pub fn into_document_ref(self) -> (r: Option<NodeDataRef<DocumentData>>)
        ensures
            r is Some <==> self.node() matches Node::Document(_),
            r matches Some(d) ==> d.spec_node() == self.node()
                && Some(d.spec_value()) == self.node().spec_document(),
    {
        NodeDataRef::new_opt(self, DocumentData::classify)
    }
}

} // verus!
