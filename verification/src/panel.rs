//! The collaboration panel: a fixed-width column of channel and contact
//! entries under section headers, above a search row.

use vstd::prelude::*;
use std::marker::PhantomData;
use crate::element::{KindView, Node, NodeView, views};
use crate::style::{FontFamily, Interaction, Layer, Part, ScrollState, Style, StyleSet, ThemeColor};

verus! {

/// How many contacts the roster holds.
pub const ROSTER_LEN: usize = 3;

/// How many times the contacts section shows the roster.
pub const ROSTER_ROUNDS: usize = 3;

/// A run of text, without styles.
pub open spec fn text(content: Seq<char>) -> NodeView {
    NodeView::bare(KindView::Text { content })
}

/// The asset that shows whether a section is expanded.
pub open spec fn caret_path(expanded: bool) -> Seq<char> {
    if expanded {
        "icons/caret_down.svg"@
    } else {
        "icons/caret_up.svg"@
    }
}

/// The caret of a section header.
pub open spec fn caret_icon(expanded: bool) -> NodeView {
    NodeView {
        kind: KindView::Svg { path: caret_path(expanded) },
        styles: seq![
            Style::W3p5,
            Style::H3p5,
            Style::Fill(
                (ThemeColor {
                    layer: Layer::Middle,
                    set: StyleSet::Variant,
                    state: Interaction::Default,
                    part: Part::Foreground,
                }),
            ),
        ],
        hover_styles: seq![],
        active_styles: seq![],
        children: seq![],
    }
}

/// The left side of a section header: its label.
pub open spec fn header_label(label: Seq<char>) -> NodeView {
    NodeView {
        kind: KindView::Div,
        styles: seq![Style::Flex, Style::Gap1, Style::TextSm],
        hover_styles: seq![],
        active_styles: seq![],
        children: seq![text(label)],
    }
}

/// The right side of a section header: its caret.
pub open spec fn header_caret(expanded: bool) -> NodeView {
    NodeView {
        kind: KindView::Div,
        styles: seq![Style::Flex, Style::HFull, Style::Gap1, Style::ItemsCenter],
        hover_styles: seq![],
        active_styles: seq![],
        children: seq![caret_icon(expanded)],
    }
}

/// A section header: the label on the left, the caret on the right.
pub open spec fn section_header(label: Seq<char>, expanded: bool) -> NodeView {
    NodeView {
        kind: KindView::Div,
        styles: seq![Style::H7, Style::Px2, Style::Flex, Style::JustifyBetween, Style::ItemsCenter],
        hover_styles: seq![],
        active_styles: seq![],
        children: seq![header_label(label), header_caret(expanded)],
    }
}

/// The round avatar of a list entry.
pub open spec fn avatar(uri: Seq<char>) -> NodeView {
    NodeView {
        kind: KindView::Img { uri },
        styles: seq![
            Style::Size3p5,
            Style::RoundedFull,
            Style::Fill(
                (ThemeColor {
                    layer: Layer::Middle,
                    set: StyleSet::Positive,
                    state: Interaction::Default,
                    part: Part::Foreground,
                }),
            ),
        ],
        hover_styles: seq![],
        active_styles: seq![],
        children: seq![],
    }
}

/// What a list entry shows: the avatar, then the label.
pub open spec fn entry_body(avatar_uri: Seq<char>, label: Seq<char>) -> NodeView {
    NodeView {
        kind: KindView::Div,
        styles: seq![Style::Flex, Style::ItemsCenter, Style::Gap1, Style::TextSm],
        hover_styles: seq![],
        active_styles: seq![],
        children: seq![avatar(avatar_uri), text(label)],
    }
}

/// A list entry: a row that changes its fill while hovered and while
/// pressed.
pub open spec fn list_entry(avatar_uri: Seq<char>, label: Seq<char>) -> NodeView {
    NodeView {
        kind: KindView::Div,
        styles: seq![Style::H7, Style::Px2, Style::Flex, Style::ItemsCenter],
        hover_styles: seq![
            Style::Fill(
                (ThemeColor {
                    layer: Layer::Lowest,
                    set: StyleSet::Variant,
                    state: Interaction::Hovered,
                    part: Part::Background,
                }),
            ),
        ],
        active_styles: seq![
            Style::Fill(
                (ThemeColor {
                    layer: Layer::Lowest,
                    set: StyleSet::Variant,
                    state: Interaction::Pressed,
                    part: Part::Background,
                }),
            ),
        ],
        children: seq![entry_body(avatar_uri, label)],
    }
}

/// The name of the contact at place `k` of the roster.
pub open spec fn contact_name(k: int) -> Seq<char> {
    if k == 0 {
        "as-cii"@
    } else if k == 1 {
        "nathansobo"@
    } else {
        "maxbrunsfeld"@
    }
}

/// Where the avatar of the contact at place `k` of the roster is found.
pub open spec fn contact_avatar(k: int) -> Seq<char> {
    if k == 0 {
        "http://github.com/as-cii.png?s=50"@
    } else if k == 1 {
        "http://github.com/nathansobo.png?s=50"@
    } else {
        "http://github.com/maxbrunsfeld.png?s=50"@
    }
}

/// The entries of the contacts section: the roster in its order, shown
/// `ROSTER_ROUNDS` times over.
pub open spec fn contact_entries() -> Seq<NodeView> {
    Seq::new(
        (ROSTER_ROUNDS * ROSTER_LEN) as nat,
        |i: int| list_entry(contact_avatar(i % ROSTER_LEN as int), contact_name(i % ROSTER_LEN as int)),
    )
}

/// The top section: the call in progress and who is in it.
pub open spec fn current_call() -> NodeView {
    NodeView {
        kind: KindView::Div,
        styles: seq![
            Style::Fill(
                (ThemeColor {
                    layer: Layer::Lowest,
                    set: StyleSet::Base,
                    state: Interaction::Default,
                    part: Part::Background,
                }),
            ),
            Style::Pb1,
            Style::BorderColor(
                (ThemeColor {
                    layer: Layer::Lowest,
                    set: StyleSet::Base,
                    state: Interaction::Default,
                    part: Part::Border,
                }),
            ),
            Style::BorderB,
        ],
        hover_styles: seq![],
        active_styles: seq![],
        children: seq![
            section_header("#CRDB"@, true),
            list_entry("http://github.com/maxbrunsfeld.png?s=50"@, "maxbrunsfeld"@),
        ],
    }
}

/// The channels section: its header alone.
pub open spec fn channels() -> NodeView {
    NodeView {
        kind: KindView::VStack,
        styles: seq![Style::Py2],
        hover_styles: seq![],
        active_styles: seq![],
        children: seq![section_header("CHANNELS"@, true)],
    }
}

/// The contacts section: its header, then the contact entries.
pub open spec fn contacts() -> NodeView {
    NodeView {
        kind: KindView::VStack,
        styles: seq![Style::Py2],
        hover_styles: seq![],
        active_styles: seq![],
        children: seq![section_header("CONTACTS"@, true)] + contact_entries(),
    }
}

/// The scrolling column that holds the three sections.
pub open spec fn section_list(scroll_state: ScrollState) -> NodeView {
    NodeView {
        kind: KindView::VStack,
        styles: seq![Style::WFull, Style::OverflowYScroll(scroll_state)],
        hover_styles: seq![],
        active_styles: seq![],
        children: seq![current_call(), channels(), contacts()],
    }
}

/// The search row under the sections.
pub open spec fn search_row() -> NodeView {
    NodeView {
        kind: KindView::Div,
        styles: seq![
            Style::H7,
            Style::Px2,
            Style::BorderT,
            Style::BorderColor(
                (ThemeColor {
                    layer: Layer::Middle,
                    set: StyleSet::Variant,
                    state: Interaction::Default,
                    part: Part::Border,
                }),
            ),
            Style::Flex,
            Style::ItemsCenter,
        ],
        hover_styles: seq![],
        active_styles: seq![],
        children: seq![
            NodeView {
                kind: KindView::Div,
                styles: seq![
                    Style::TextSm,
                    Style::TextColor(
                        (ThemeColor {
                            layer: Layer::Middle,
                            set: StyleSet::Variant,
                            state: Interaction::Default,
                            part: Part::Foreground,
                        }),
                    ),
                ],
                hover_styles: seq![],
                active_styles: seq![],
                children: seq![text("Find..."@)],
            },
        ],
    }
}

/// The whole panel, its list scrolling at `scroll_state`.
pub open spec fn panel(scroll_state: ScrollState) -> NodeView {
    NodeView {
        kind: KindView::HStack,
        styles: seq![
            Style::W64,
            Style::HFull,
            Style::Font(FontFamily::ZedSansExtended),
            Style::TextColor(
                (ThemeColor {
                    layer: Layer::Middle,
                    set: StyleSet::Base,
                    state: Interaction::Default,
                    part: Part::Foreground,
                }),
            ),
            Style::BorderColor(
                (ThemeColor {
                    layer: Layer::Middle,
                    set: StyleSet::Base,
                    state: Interaction::Default,
                    part: Part::Border,
                }),
            ),
            Style::Border,
            Style::Fill(
                (ThemeColor {
                    layer: Layer::Middle,
                    set: StyleSet::Base,
                    state: Interaction::Default,
                    part: Part::Background,
                }),
            ),
        ],
        hover_styles: seq![],
        active_styles: seq![],
        children: seq![section_list(scroll_state), search_row()],
    }
}

/// The avatar and the name of the contact at place `k` of the roster.
fn contact(k: usize) -> (entry: (&'static str, &'static str))
    requires
        k < ROSTER_LEN,
    ensures
        entry.0@ == contact_avatar(k as int),
        entry.1@ == contact_name(k as int),
{
    if k == 0 {
        ("http://github.com/as-cii.png?s=50", "as-cii")
    } else if k == 1 {
        ("http://github.com/nathansobo.png?s=50", "nathansobo")
    } else {
        ("http://github.com/maxbrunsfeld.png?s=50", "maxbrunsfeld")
    }
}

/// The collaboration panel as an element.
pub struct CollabPanelElement<V: 'static> {
    view_type: PhantomData<V>,
    scroll_state: ScrollState,
}

/// A collaboration panel whose list scrolls at `scroll_state`.
pub fn collab_panel<V: 'static>(scroll_state: ScrollState) -> (panel: CollabPanelElement<V>)
    ensures
        panel.scroll_state() == scroll_state,
{
    CollabPanelElement { view_type: PhantomData, scroll_state }
}

impl<V: 'static> CollabPanelElement<V> {
    /// The cursor at which the panel's list scrolls.
    pub closed spec fn scroll_state(&self) -> ScrollState {
        self.scroll_state
    }

    /// The panel's element tree. Neither the panel nor the view changes.
    pub fn render(&mut self, view: &mut V) -> (tree: Node)
        ensures
            tree@ == panel(old(self).scroll_state()),
            final(self).scroll_state() == old(self).scroll_state(),
            *final(view) == *old(view),
    {
        let call = Node::div()
            .style(
                Style::Fill(
                    ThemeColor {
                        layer: Layer::Lowest,
                        set: StyleSet::Base,
                        state: Interaction::Default,
                        part: Part::Background,
                    },
                ),
            )
            .style(Style::Pb1)
            .style(
                Style::BorderColor(
                    ThemeColor {
                        layer: Layer::Lowest,
                        set: StyleSet::Base,
                        state: Interaction::Default,
                        part: Part::Border,
                    },
                ),
            )
            .style(Style::BorderB)
            .child(self.list_section_header("#CRDB", true))
            .child(self.list_item("http://github.com/maxbrunsfeld.png?s=50", "maxbrunsfeld"));
        assert(call@.styles =~= current_call().styles);
        assert(call@.children =~= current_call().children);

        let channel_list = Node::v_stack().style(Style::Py2).child(
            self.list_section_header("CHANNELS", true),
        );

        let mut entries: Vec<Node> = Vec::new();
        let mut round: usize = 0;
        while round < ROSTER_ROUNDS
            invariant
                round <= ROSTER_ROUNDS,
                entries@.len() == round * ROSTER_LEN,
                forall|i: int|
                    0 <= i < entries@.len() ==> (#[trigger] entries@[i])@ == contact_entries()[i],
            decreases ROSTER_ROUNDS - round,
        {
            let mut k: usize = 0;
            while k < ROSTER_LEN
                invariant
                    round < ROSTER_ROUNDS,
                    k <= ROSTER_LEN,
                    entries@.len() == round * ROSTER_LEN + k,
                    forall|i: int|
                        0 <= i < entries@.len() ==> (#[trigger] entries@[i])@
                            == contact_entries()[i],
                decreases ROSTER_LEN - k,
            {
                let (avatar_uri, name) = contact(k);
                let entry = self.list_item(avatar_uri, name);
                assert((round * ROSTER_LEN + k) % ROSTER_LEN as int == k);
                entries.push(entry);
                k += 1;
            }
            round += 1;
        }
        assert(views(entries@) =~= contact_entries());
        let contact_list = Node::v_stack()
            .style(Style::Py2)
            .child(self.list_section_header("CONTACTS", true))
            .children(entries);

        let list = Node::v_stack()
            .style(Style::WFull)
            .style(Style::OverflowYScroll(self.scroll_state))
            .child(call)
            .child(channel_list)
            .child(contact_list);
        assert(list@.styles =~= section_list(self.scroll_state).styles);
        assert(list@.children =~= section_list(self.scroll_state).children);

        let find = Node::div()
            .style(Style::TextSm)
            .style(
                Style::TextColor(
                    ThemeColor {
                        layer: Layer::Middle,
                        set: StyleSet::Variant,
                        state: Interaction::Default,
                        part: Part::Foreground,
                    },
                ),
            )
            .child(Node::text("Find..."));
        assert(find@.styles =~= search_row().children[0].styles);
        let search = Node::div()
            .style(Style::H7)
            .style(Style::Px2)
            .style(Style::BorderT)
            .style(
                Style::BorderColor(
                    ThemeColor {
                        layer: Layer::Middle,
                        set: StyleSet::Variant,
                        state: Interaction::Default,
                        part: Part::Border,
                    },
                ),
            )
            .style(Style::Flex)
            .style(Style::ItemsCenter)
            .child(find);
        assert(search@.styles =~= search_row().styles);

        let tree = Node::h_stack()
            .style(Style::W64)
            .style(Style::HFull)
            .style(Style::Font(FontFamily::ZedSansExtended))
            .style(
                Style::TextColor(
                    ThemeColor {
                        layer: Layer::Middle,
                        set: StyleSet::Base,
                        state: Interaction::Default,
                        part: Part::Foreground,
                    },
                ),
            )
            .style(
                Style::BorderColor(
                    ThemeColor {
                        layer: Layer::Middle,
                        set: StyleSet::Base,
                        state: Interaction::Default,
                        part: Part::Border,
                    },
                ),
            )
            .style(Style::Border)
            .style(
                Style::Fill(
                    ThemeColor {
                        layer: Layer::Middle,
                        set: StyleSet::Base,
                        state: Interaction::Default,
                        part: Part::Background,
                    },
                ),
            )
            .child(list)
            .child(search);
        assert(tree@.styles =~= panel(self.scroll_state).styles);
        assert(tree@.children =~= panel(self.scroll_state).children);
        tree
    }

    /// A section header with `label`, its caret pointing down when the
    /// section is expanded and up when it is not.
    pub fn list_section_header(&self, label: &str, expanded: bool) -> (header: Node)
        ensures
            header@ == section_header(label@, expanded),
    {
        let caret = if expanded {
            "icons/caret_down.svg"
        } else {
            "icons/caret_up.svg"
        };
        let icon = Node::svg(caret).style(Style::W3p5).style(Style::H3p5).style(
            Style::Fill(
                ThemeColor {
                    layer: Layer::Middle,
                    set: StyleSet::Variant,
                    state: Interaction::Default,
                    part: Part::Foreground,
                },
            ),
        );
        assert(icon@.styles =~= caret_icon(expanded).styles);
        let left = Node::div().style(Style::Flex).style(Style::Gap1).style(Style::TextSm).child(
            Node::text(label),
        );
        assert(left@.styles =~= header_label(label@).styles);
        let right = Node::div()
            .style(Style::Flex)
            .style(Style::HFull)
            .style(Style::Gap1)
            .style(Style::ItemsCenter)
            .child(icon);
        assert(right@.styles =~= header_caret(expanded).styles);
        let header = Node::div()
            .style(Style::H7)
            .style(Style::Px2)
            .style(Style::Flex)
            .style(Style::JustifyBetween)
            .style(Style::ItemsCenter)
            .child(left)
            .child(right);
        assert(header@.styles =~= section_header(label@, expanded).styles);
        assert(header@.children =~= section_header(label@, expanded).children);
        header
    }

    /// A list entry that shows the image at `avatar_uri` and `label`.
    pub fn list_item(&self, avatar_uri: &str, label: &str) -> (item: Node)
        ensures
            item@ == list_entry(avatar_uri@, label@),
    {
        let image = Node::img(avatar_uri).style(Style::Size3p5).style(Style::RoundedFull).style(
            Style::Fill(
                ThemeColor {
                    layer: Layer::Middle,
                    set: StyleSet::Positive,
                    state: Interaction::Default,
                    part: Part::Foreground,
                },
            ),
        );
        assert(image@.styles =~= avatar(avatar_uri@).styles);
        let body = Node::div()
            .style(Style::Flex)
            .style(Style::ItemsCenter)
            .style(Style::Gap1)
            .style(Style::TextSm)
            .child(image)
            .child(Node::text(label));
        assert(body@.styles =~= entry_body(avatar_uri@, label@).styles);
        assert(body@.children =~= entry_body(avatar_uri@, label@).children);
        let item = Node::div()
            .style(Style::H7)
            .style(Style::Px2)
            .style(Style::Flex)
            .style(Style::ItemsCenter)
            .hover(
                Style::Fill(
                    ThemeColor {
                        layer: Layer::Lowest,
                        set: StyleSet::Variant,
                        state: Interaction::Hovered,
                        part: Part::Background,
                    },
                ),
            )
            .active(
                Style::Fill(
                    ThemeColor {
                        layer: Layer::Lowest,
                        set: StyleSet::Variant,
                        state: Interaction::Pressed,
                        part: Part::Background,
                    },
                ),
            )
            .child(body);
        assert(item@.styles =~= list_entry(avatar_uri@, label@).styles);
        item
    }
}

} // verus!
