use collab_panel::collab_panel;
use collab_panel::element::{Kind, Node};
use collab_panel::style::{
    FontFamily, Interaction, Layer, Part, ScrollState, Style, StyleSet, ThemeColor,
};

fn color(layer: Layer, set: StyleSet, state: Interaction, part: Part) -> ThemeColor {
    ThemeColor { layer, set, state, part }
}

fn node(kind: Kind, styles: Vec<Style>, children: Vec<Node>) -> Node {
    Node { kind, styles, hover_styles: vec![], active_styles: vec![], children }
}

fn text(content: &str) -> Node {
    node(Kind::Text { content: content.to_string() }, vec![], vec![])
}

fn expected_header(label: &str, caret: &str) -> Node {
    node(
        Kind::Div,
        vec![Style::H7, Style::Px2, Style::Flex, Style::JustifyBetween, Style::ItemsCenter],
        vec![
            node(Kind::Div, vec![Style::Flex, Style::Gap1, Style::TextSm], vec![text(label)]),
            node(
                Kind::Div,
                vec![Style::Flex, Style::HFull, Style::Gap1, Style::ItemsCenter],
                vec![node(
                    Kind::Svg { path: caret.to_string() },
                    vec![
                        Style::W3p5,
                        Style::H3p5,
                        Style::Fill(color(
                            Layer::Middle,
                            StyleSet::Variant,
                            Interaction::Default,
                            Part::Foreground,
                        )),
                    ],
                    vec![],
                )],
            ),
        ],
    )
}

fn expected_item(avatar_uri: &str, label: &str) -> Node {
    Node {
        kind: Kind::Div,
        styles: vec![Style::H7, Style::Px2, Style::Flex, Style::ItemsCenter],
        hover_styles: vec![Style::Fill(color(
            Layer::Lowest,
            StyleSet::Variant,
            Interaction::Hovered,
            Part::Background,
        ))],
        active_styles: vec![Style::Fill(color(
            Layer::Lowest,
            StyleSet::Variant,
            Interaction::Pressed,
            Part::Background,
        ))],
        children: vec![node(
            Kind::Div,
            vec![Style::Flex, Style::ItemsCenter, Style::Gap1, Style::TextSm],
            vec![
                node(
                    Kind::Img { uri: avatar_uri.to_string() },
                    vec![
                        Style::Size3p5,
                        Style::RoundedFull,
                        Style::Fill(color(
                            Layer::Middle,
                            StyleSet::Positive,
                            Interaction::Default,
                            Part::Foreground,
                        )),
                    ],
                    vec![],
                ),
                text(label),
            ],
        )],
    }
}

fn rendered(id: u64) -> Node {
    let mut panel = collab_panel::<()>(ScrollState { id });
    panel.render(&mut ())
}

#[test]
fn expanded_header_points_down() {
    let panel = collab_panel::<()>(ScrollState { id: 0 });
    let header = panel.list_section_header("CHANNELS", true);
    assert_eq!(header, expected_header("CHANNELS", "icons/caret_down.svg"));
}

#[test]
fn collapsed_header_points_up() {
    let panel = collab_panel::<()>(ScrollState { id: 0 });
    let header = panel.list_section_header("CONTACTS", false);
    assert_eq!(header, expected_header("CONTACTS", "icons/caret_up.svg"));
}

#[test]
fn header_keeps_an_empty_label() {
    let panel = collab_panel::<()>(ScrollState { id: 0 });
    let header = panel.list_section_header("", true);
    assert_eq!(header.children[0].children, vec![text("")]);
}

#[test]
fn list_item_shows_avatar_then_label() {
    let panel = collab_panel::<()>(ScrollState { id: 0 });
    let item = panel.list_item("http://github.com/as-cii.png?s=50", "as-cii");
    assert_eq!(item, expected_item("http://github.com/as-cii.png?s=50", "as-cii"));
}

#[test]
fn list_item_changes_fill_on_hover_and_press() {
    let panel = collab_panel::<()>(ScrollState { id: 0 });
    let item = panel.list_item("uri", "label");
    assert_eq!(
        item.hover_styles,
        vec![Style::Fill(color(
            Layer::Lowest,
            StyleSet::Variant,
            Interaction::Hovered,
            Part::Background
        ))]
    );
    assert_eq!(
        item.active_styles,
        vec![Style::Fill(color(
            Layer::Lowest,
            StyleSet::Variant,
            Interaction::Pressed,
            Part::Background
        ))]
    );
    assert!(item.children[0].hover_styles.is_empty());
    assert!(item.children[0].active_styles.is_empty());
}

#[test]
fn panel_root_is_a_fixed_width_row() {
    let tree = rendered(1);
    assert_eq!(tree.kind, Kind::HStack);
    assert_eq!(
        tree.styles,
        vec![
            Style::W64,
            Style::HFull,
            Style::Font(FontFamily::ZedSansExtended),
            Style::TextColor(color(
                Layer::Middle,
                StyleSet::Base,
                Interaction::Default,
                Part::Foreground
            )),
            Style::BorderColor(color(
                Layer::Middle,
                StyleSet::Base,
                Interaction::Default,
                Part::Border
            )),
            Style::Border,
            Style::Fill(color(
                Layer::Middle,
                StyleSet::Base,
                Interaction::Default,
                Part::Background
            )),
        ]
    );
    assert!(tree.hover_styles.is_empty());
    assert!(tree.active_styles.is_empty());
    assert_eq!(tree.children.len(), 2);
}

#[test]
fn panel_list_scrolls_at_the_given_cursor() {
    let tree = rendered(42);
    let list = &tree.children[0];
    assert_eq!(list.kind, Kind::VStack);
    assert_eq!(
        list.styles,
        vec![Style::WFull, Style::OverflowYScroll(ScrollState { id: 42 })]
    );
    assert_eq!(list.children.len(), 3);

    let other = rendered(7);
    assert_eq!(
        other.children[0].styles,
        vec![Style::WFull, Style::OverflowYScroll(ScrollState { id: 7 })]
    );
}

#[test]
fn panel_top_section_shows_the_call() {
    let tree = rendered(0);
    let call = &tree.children[0].children[0];
    assert_eq!(
        *call,
        node(
            Kind::Div,
            vec![
                Style::Fill(color(
                    Layer::Lowest,
                    StyleSet::Base,
                    Interaction::Default,
                    Part::Background
                )),
                Style::Pb1,
                Style::BorderColor(color(
                    Layer::Lowest,
                    StyleSet::Base,
                    Interaction::Default,
                    Part::Border
                )),
                Style::BorderB,
            ],
            vec![
                expected_header("#CRDB", "icons/caret_down.svg"),
                expected_item("http://github.com/maxbrunsfeld.png?s=50", "maxbrunsfeld"),
            ],
        )
    );
}

#[test]
fn panel_channels_section_holds_its_header_alone() {
    let tree = rendered(0);
    let channels = &tree.children[0].children[1];
    assert_eq!(
        *channels,
        node(
            Kind::VStack,
            vec![Style::Py2],
            vec![expected_header("CHANNELS", "icons/caret_down.svg")],
        )
    );
}

#[test]
fn panel_contacts_section_repeats_the_roster_three_times() {
    let tree = rendered(0);
    let contacts = &tree.children[0].children[2];
    assert_eq!(contacts.kind, Kind::VStack);
    assert_eq!(contacts.styles, vec![Style::Py2]);
    assert_eq!(contacts.children.len(), 10);
    assert_eq!(contacts.children[0], expected_header("CONTACTS", "icons/caret_down.svg"));
    let roster = ["as-cii", "nathansobo", "maxbrunsfeld"];
    for i in 0..9 {
        let name = roster[i % 3];
        let uri = format!("http://github.com/{}.png?s=50", name);
        assert_eq!(contacts.children[1 + i], expected_item(&uri, name));
    }
}

#[test]
fn panel_ends_with_the_search_row() {
    let tree = rendered(0);
    assert_eq!(
        tree.children[1],
        node(
            Kind::Div,
            vec![
                Style::H7,
                Style::Px2,
                Style::BorderT,
                Style::BorderColor(color(
                    Layer::Middle,
                    StyleSet::Variant,
                    Interaction::Default,
                    Part::Border
                )),
                Style::Flex,
                Style::ItemsCenter,
            ],
            vec![node(
                Kind::Div,
                vec![
                    Style::TextSm,
                    Style::TextColor(color(
                        Layer::Middle,
                        StyleSet::Variant,
                        Interaction::Default,
                        Part::Foreground
                    )),
                ],
                vec![text("Find...")],
            )],
        )
    );
}

#[test]
fn render_is_repeatable_and_leaves_the_view_alone() {
    let mut panel = collab_panel::<u32>(ScrollState { id: 3 });
    let mut view: u32 = 17;
    let first = panel.render(&mut view);
    let second = panel.render(&mut view);
    assert_eq!(first, second);
    assert_eq!(view, 17);
    assert_eq!(first, rendered(3));
}

#[test]
fn font_family_has_its_name() {
    assert_eq!(FontFamily::ZedSansExtended.name(), "Zed Sans Extended");
}
