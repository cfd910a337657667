use collab_panel::element::{Kind, Node};
use collab_panel::style::{Interaction, Layer, Part, Style, StyleSet, ThemeColor};

#[test]
fn new_elements_are_bare() {
    for (built, kind) in [
        (Node::div(), Kind::Div),
        (Node::h_stack(), Kind::HStack),
        (Node::v_stack(), Kind::VStack),
        (Node::img("a.png"), Kind::Img { uri: "a.png".to_string() }),
        (Node::svg("icons/x.svg"), Kind::Svg { path: "icons/x.svg".to_string() }),
        (Node::text("hello"), Kind::Text { content: "hello".to_string() }),
    ] {
        assert_eq!(built.kind, kind);
        assert!(built.styles.is_empty());
        assert!(built.hover_styles.is_empty());
        assert!(built.active_styles.is_empty());
        assert!(built.children.is_empty());
    }
}

#[test]
fn styles_keep_the_order_of_application() {
    let built = Node::div().style(Style::Flex).style(Style::Gap1).style(Style::Flex);
    assert_eq!(built.styles, vec![Style::Flex, Style::Gap1, Style::Flex]);
    assert!(built.hover_styles.is_empty());
    assert!(built.active_styles.is_empty());
    assert!(built.children.is_empty());
}

#[test]
fn hover_and_active_styles_stay_apart() {
    let fill = Style::Fill(ThemeColor {
        layer: Layer::Lowest,
        set: StyleSet::Base,
        state: Interaction::Hovered,
        part: Part::Background,
    });
    let built = Node::div().style(Style::H7).hover(fill).active(Style::Border).hover(Style::Px2);
    assert_eq!(built.styles, vec![Style::H7]);
    assert_eq!(built.hover_styles, vec![fill, Style::Px2]);
    assert_eq!(built.active_styles, vec![Style::Border]);
}

#[test]
fn children_keep_the_order_of_addition() {
    let built = Node::v_stack()
        .child(Node::text("a"))
        .children(vec![Node::text("b"), Node::text("c")])
        .child(Node::text("d"))
        .children(vec![]);
    assert_eq!(built.kind, Kind::VStack);
    assert_eq!(
        built.children,
        vec![Node::text("a"), Node::text("b"), Node::text("c"), Node::text("d")]
    );
}

#[test]
fn adding_a_child_leaves_the_styles() {
    let built = Node::div().style(Style::Flex).child(Node::div().style(Style::Gap1));
    assert_eq!(built.styles, vec![Style::Flex]);
    assert_eq!(built.children.len(), 1);
    assert_eq!(built.children[0].styles, vec![Style::Gap1]);
    assert!(built.children[0].children.is_empty());
}
