//! The node abstraction the projection core works over: a tree node is an
//! owned value with exactly one classified variant (element, text, comment,
//! doctype, or document), shared between handles through `Rc`.

use vstd::prelude::*;
use std::rc::Rc;

verus! {

/// One attribute of an element: a name and a value.
#[derive(Clone, Debug, PartialEq, Eq)]
pub struct Attribute {
    pub name: String,
    pub value: String,
}

/// Data specific to element nodes: a tag name and its attributes.
#[derive(Clone, Debug, PartialEq, Eq)]
pub struct ElementData {
    pub name: String,
    pub attributes: Vec<Attribute>,
}

/// Data specific to text nodes: the text contents.
#[derive(Clone, Debug, PartialEq, Eq)]
pub struct TextData {
    pub contents: String,
}

/// Data specific to comment nodes: the comment contents.
#[derive(Clone, Debug, PartialEq, Eq)]
pub struct CommentData {
    pub contents: String,
}

/// Data specific to doctype nodes.
#[derive(Clone, Debug, PartialEq, Eq)]
pub struct Doctype {
    pub name: String,
    pub public_id: String,
    pub system_id: String,
}

/// Data specific to document nodes.
#[derive(Clone, Debug, PartialEq, Eq)]
pub struct DocumentData {
}

/// A tree node's data: exactly one of the five variants.
#[derive(Clone, Debug, PartialEq, Eq)]
pub enum Node {
    Element(ElementData),
    Text(TextData),
    Comment(CommentData),
    Doctype(Doctype),
    Document(DocumentData),
}

impl Node {
    /// The element data, if this node is an element.
    pub open spec fn spec_element(self) -> Option<ElementData> {
        match self {
            Node::Element(d) => Some(d),
            _ => None,
        }
    }

    /// The text data, if this node is a text node.
    pub open spec fn spec_text(self) -> Option<TextData> {
        match self {
            Node::Text(d) => Some(d),
            _ => None,
        }
    }

    /// The comment data, if this node is a comment.
    pub open spec fn spec_comment(self) -> Option<CommentData> {
        match self {
            Node::Comment(d) => Some(d),
            _ => None,
        }
    }

    /// The doctype data, if this node is a doctype.
    pub open spec fn spec_doctype(self) -> Option<Doctype> {
        match self {
            Node::Doctype(d) => Some(d),
            _ => None,
        }
    }

    /// The document data, if this node is a document.
    pub open spec fn spec_document(self) -> Option<DocumentData> {
        match self {
            Node::Document(d) => Some(d),
            _ => None,
        }
    }

    /// If this node is an element, a view of its element data.
    pub fn as_element(&self) -> (r: Option<&ElementData>)
        ensures
            r is None ==> self.spec_element() is None,
            r matches Some(d) ==> self.spec_element() == Some(*d),
    {
        match self {
            Node::Element(d) => Some(d),
            _ => None,
        }
    }

    /// If this node is a text node, a view of its text data.
    pub fn as_text(&self) -> (r: Option<&TextData>)
        ensures
            r is None ==> self.spec_text() is None,
            r matches Some(d) ==> self.spec_text() == Some(*d),
    {
        match self {
            Node::Text(d) => Some(d),
            _ => None,
        }
    }

    /// If this node is a comment, a view of its comment data.
    pub fn as_comment(&self) -> (r: Option<&CommentData>)
        ensures
            r is None ==> self.spec_comment() is None,
            r matches Some(d) ==> self.spec_comment() == Some(*d),
    {
        match self {
            Node::Comment(d) => Some(d),
            _ => None,
        }
    }

    /// If this node is a doctype, a view of its doctype data.
    pub fn as_doctype(&self) -> (r: Option<&Doctype>)
        ensures
            r is None ==> self.spec_doctype() is None,
            r matches Some(d) ==> self.spec_doctype() == Some(*d),
    {
        match self {
            Node::Doctype(d) => Some(d),
            _ => None,
        }
    }

    /// If this node is a document, a view of its document data.
    pub fn as_document(&self) -> (r: Option<&DocumentData>)
        ensures
            r is None ==> self.spec_document() is None,
            r matches Some(d) ==> self.spec_document() == Some(*d),
    {
        match self {
            Node::Document(d) => Some(d),
            _ => None,
        }
    }
}

/// Law: a node holds exactly one variant, so classification is exclusive —
/// whenever one variant's classification yields a payload, every other
/// variant's classification yields none — and never empty: some variant's
/// classification always yields a payload.
pub proof fn lemma_classification_exclusive(n: Node)
    ensures
        n.spec_element() is Some ==> n.spec_text() is None && n.spec_comment() is None
            && n.spec_doctype() is None && n.spec_document() is None,
        n.spec_text() is Some ==> n.spec_element() is None && n.spec_comment() is None
            && n.spec_doctype() is None && n.spec_document() is None,
        n.spec_comment() is Some ==> n.spec_element() is None && n.spec_text() is None
            && n.spec_doctype() is None && n.spec_document() is None,
        n.spec_doctype() is Some ==> n.spec_element() is None && n.spec_text() is None
            && n.spec_comment() is None && n.spec_document() is None,
        n.spec_document() is Some ==> n.spec_element() is None && n.spec_text() is None
            && n.spec_comment() is None && n.spec_doctype() is None,
        n.spec_element() is Some || n.spec_text() is Some || n.spec_comment() is Some
            || n.spec_doctype() is Some || n.spec_document() is Some,
{
}

/// A shared-ownership handle to a node. Cloning the handle shares the same
/// underlying node; the node is released when the last handle (or projection
/// built from one) is dropped.
pub struct NodeRef(pub Rc<Node>);

impl NodeRef {
    /// The node this handle refers to.
    pub open spec fn node(self) -> Node {
        *self.0
    }

    /// Wrap a node's data in a fresh shared-ownership handle.
    pub fn new(data: Node) -> (r: NodeRef)
        ensures
            r.node() == data,
    {
        NodeRef(Rc::new(data))
    }

    /// Read-only access to the node's data through this handle.
    pub fn data(&self) -> (r: &Node)
        ensures
            *r == self.node(),
    {
        &*self.0
    }
}

impl Clone for NodeRef {
    /// Another handle to the same node, sharing ownership.
    fn clone(&self) -> (r: Self)
        ensures
            r.node() == self.node(),
    {
        NodeRef(self.0.clone())
    }
}

} // verus!
