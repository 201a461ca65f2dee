use std::rc::Rc;

use node_data_ref::node::{
    Attribute, CommentData, Doctype, DocumentData, ElementData, Node, NodeRef, TextData,
};
use node_data_ref::node_data_ref::NodeDataRef;

fn element_node(name: &str, attributes: Vec<(&str, &str)>) -> NodeRef {
    NodeRef::new(Node::Element(ElementData {
        name: name.to_string(),
        attributes: attributes
            .into_iter()
            .map(|(n, v)| Attribute { name: n.to_string(), value: v.to_string() })
            .collect(),
    }))
}

fn text_node(contents: &str) -> NodeRef {
    NodeRef::new(Node::Text(TextData { contents: contents.to_string() }))
}

fn comment_node(contents: &str) -> NodeRef {
    NodeRef::new(Node::Comment(CommentData { contents: contents.to_string() }))
}

fn doctype_node(name: &str, public_id: &str, system_id: &str) -> NodeRef {
    NodeRef::new(Node::Doctype(Doctype {
        name: name.to_string(),
        public_id: public_id.to_string(),
        system_id: system_id.to_string(),
    }))
}

fn document_node() -> NodeRef {
    NodeRef::new(Node::Document(DocumentData {}))
}

#[test]
fn element_with_attribute_projects_and_text_does_not() {
    let node = element_node("div", vec![("id", "x")]);
    let as_text = node.clone().into_text_ref();
    assert!(as_text.is_none());
    let proj = node.into_element_ref().expect("element node must project as element");
    assert_eq!(proj.get().name, "div");
    assert_eq!(
        proj.get().attributes,
        vec![Attribute { name: "id".to_string(), value: "x".to_string() }]
    );
}

#[test]
fn text_hello_projects_and_round_trips() {
    let node = text_node("hello");
    let proj = node.into_text_ref().expect("text node must project as text");
    assert_eq!(proj.get().contents, "hello");
    let handle = proj.as_node();
    let reread = handle.data().as_text().expect("recovered handle must still be a text node");
    assert_eq!(reread.contents, "hello");
}

#[test]
fn recovered_handle_is_the_same_node() {
    let node = text_node("same");
    let original = node.clone();
    let proj = node.into_text_ref().unwrap();
    assert!(Rc::ptr_eq(&proj.as_node().0, &original.0));
}

#[test]
fn projection_alone_keeps_the_node_alive() {
    let node = text_node("alive");
    let weak = Rc::downgrade(&node.0);
    let proj = node.into_text_ref().unwrap();
    // No other handle exists: the projection alone must keep the node alive.
    assert!(weak.upgrade().is_some());
    assert_eq!(proj.get().contents, "alive");
    drop(proj);
    // The projection was the last owner: the node is released with it.
    assert!(weak.upgrade().is_none());
}

#[test]
fn dropping_projection_leaves_other_handles_intact() {
    let node = text_node("shared");
    let other = node.clone();
    let weak = Rc::downgrade(&node.0);
    let proj = node.into_text_ref().unwrap();
    drop(proj);
    assert!(weak.upgrade().is_some());
    assert_eq!(other.data().as_text().unwrap().contents, "shared");
}

#[test]
fn debug_rendering_is_transparent() {
    let payload = ElementData {
        name: "span".to_string(),
        attributes: vec![Attribute { name: "id".to_string(), value: "x".to_string() }],
    };
    let node = NodeRef::new(Node::Element(payload.clone()));
    let proj = node.into_element_ref().unwrap();
    assert_eq!(proj.debug_string(), format!("{:?}", payload));

    let text = text_node("hello").into_text_ref().unwrap();
    assert_eq!(
        text.debug_string(),
        format!("{:?}", TextData { contents: "hello".to_string() })
    );
}

#[test]
fn new_opt_with_custom_classification() {
    let node = comment_node("note");
    let proj = NodeDataRef::new_opt(node, |n: &Node| n.as_comment())
        .expect("comment node must project as comment");
    assert_eq!(proj.get().contents, "note");

    let absent = NodeDataRef::<CommentData>::new_opt(text_node("not a comment"), |n: &Node| {
        n.as_comment()
    });
    assert!(absent.is_none());
}

#[test]
fn new_with_total_projection() {
    let node = text_node("total");
    let proj = NodeDataRef::new(node, |n: &Node| match n {
        Node::Text(t) => t,
        _ => panic!("projection function applied outside its domain"),
    });
    assert_eq!(proj.get().contents, "total");
    assert!(proj.as_node().data().as_text().is_some());
}

#[test]
fn comment_doctype_and_document_variants_project() {
    let comment = comment_node("c").into_comment_ref().unwrap();
    assert_eq!(comment.get().contents, "c");

    let doctype = doctype_node("html", "pub", "sys").into_doctype_ref().unwrap();
    assert_eq!(doctype.get().name, "html");
    assert_eq!(doctype.get().public_id, "pub");
    assert_eq!(doctype.get().system_id, "sys");

    let document = document_node().into_document_ref().unwrap();
    assert_eq!(*document.get(), DocumentData {});
}

#[test]
fn classification_is_exclusive_across_variants() {
    let node = element_node("p", vec![]);
    assert!(node.clone().into_text_ref().is_none());
    assert!(node.clone().into_comment_ref().is_none());
    assert!(node.clone().into_doctype_ref().is_none());
    assert!(node.clone().into_document_ref().is_none());
    assert!(node.into_element_ref().is_some());

    let node = document_node();
    assert!(node.clone().into_element_ref().is_none());
    assert!(node.into_document_ref().is_some());
}

#[test]
fn repeated_reads_agree() {
    let proj = text_node("steady").into_text_ref().unwrap();
    let first = proj.get().contents.clone();
    let second = proj.get().contents.clone();
    assert_eq!(first, second);
    assert_eq!(first, "steady");
}

#[test]
fn deref_is_transparent() {
    let proj = text_node("plain").into_text_ref().unwrap();
    // A projection can stand wherever a direct reference to the sub-part is
    // expected.
    let direct: &TextData = &proj;
    assert_eq!(direct.contents, "plain");
    assert_eq!(proj.contents, "plain");
}
