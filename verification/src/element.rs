//! The element tree: what the panel is made of, as plain values.

use vstd::prelude::*;
use crate::style::Style;

verus! {

/// What an element is.
#[derive(Debug, PartialEq, Eq)]
pub enum Kind {
    /// A plain box.
    Div,
    /// A box that lays its children out in a row.
    HStack,
    /// A box that lays its children out in a column.
    VStack,
    /// An image loaded from `uri`.
    Img { uri: String },
    /// A vector icon loaded from the asset at `path`.
    Svg { path: String },
    /// A run of text.
    Text { content: String },
}

/// An element with its styles and children.
///
/// `styles` apply always, `hover_styles` while the pointer is over the
/// element, `active_styles` while it is pressed; each list is in the
/// order of application.
#[derive(Debug, PartialEq, Eq)]
pub struct Node {
    pub kind: Kind,
    pub styles: Vec<Style>,
    pub hover_styles: Vec<Style>,
    pub active_styles: Vec<Style>,
    pub children: Vec<Node>,
}

/// The mathematical value of a `Kind`.
pub ghost enum KindView {
    Div,
    HStack,
    VStack,
    Img { uri: Seq<char> },
    Svg { path: Seq<char> },
    Text { content: Seq<char> },
}

/// The mathematical value of a `Node`: a finite tree.
pub ghost struct NodeView {
    pub kind: KindView,
    pub styles: Seq<Style>,
    pub hover_styles: Seq<Style>,
    pub active_styles: Seq<Style>,
    pub children: Seq<NodeView>,
}

impl View for Kind {
    type V = KindView;

    open spec fn view(&self) -> KindView {
        match *self {
            Kind::Div => KindView::Div,
            Kind::HStack => KindView::HStack,
            Kind::VStack => KindView::VStack,
            Kind::Img { uri } => KindView::Img { uri: uri@ },
            Kind::Svg { path } => KindView::Svg { path: path@ },
            Kind::Text { content } => KindView::Text { content: content@ },
        }
    }
}

impl Node {
    /// The values of the first `n` children, in their order.
    pub open spec fn child_views(self, n: nat) -> Seq<NodeView>
        decreases self, n,
    {
        if 0 < n <= self.children@.len() {
            self.child_views((n - 1) as nat).push(self.children[n - 1]@)
        } else {
            Seq::empty()
        }
    }
}

impl View for Node {
    type V = NodeView;

    open spec fn view(&self) -> NodeView
        decreases self, self.children@.len() + 1,
    {
        NodeView {
            kind: self.kind@,
            styles: self.styles@,
            hover_styles: self.hover_styles@,
            active_styles: self.active_styles@,
            children: self.child_views(self.children@.len()),
        }
    }
}

impl NodeView {
    /// An element of the given kind, without styles or children.
    pub open spec fn bare(kind: KindView) -> NodeView {
        NodeView {
            kind,
            styles: Seq::empty(),
            hover_styles: Seq::empty(),
            active_styles: Seq::empty(),
            children: Seq::empty(),
        }
    }

    /// The element with `style` applied after the styles it has.
    pub open spec fn style(self, style: Style) -> NodeView {
        NodeView { styles: self.styles.push(style), ..self }
    }

    /// The element with `style` applied, after its other hover styles,
    /// while the pointer is over it.
    pub open spec fn hover(self, style: Style) -> NodeView {
        NodeView { hover_styles: self.hover_styles.push(style), ..self }
    }

    /// The element with `style` applied, after its other active styles,
    /// while it is pressed.
    pub open spec fn active(self, style: Style) -> NodeView {
        NodeView { active_styles: self.active_styles.push(style), ..self }
    }

    /// The element with `child` after the children it has.
    pub open spec fn child(self, child: NodeView) -> NodeView {
        NodeView { children: self.children.push(child), ..self }
    }

    /// The element with `children`, in their order, after those it has.
    pub open spec fn children(self, children: Seq<NodeView>) -> NodeView {
        NodeView { children: self.children + children, ..self }
    }
}

/// The values of the elements of `nodes`, one for one.
pub open spec fn views(nodes: Seq<Node>) -> Seq<NodeView> {
    Seq::new(nodes.len(), |i: int| nodes[i]@)
}

/// The first `n` child values of a node are the values of its first `n`
/// children.
proof fn lemma_child_views(node: Node, n: nat)
    requires
        n <= node.children@.len(),
    ensures
        node.child_views(n) == views(node.children@.take(n as int)),
    decreases n,
{
    if n > 0 {
        lemma_child_views(node, (n - 1) as nat);
        let shorter = node.children@.take(n - 1);
        let longer = node.children@.take(n as int);
        assert(node.child_views(n) == views(shorter).push(node.children@[n - 1]@));
        assert forall|i: int| 0 <= i < n implies #[trigger] node.child_views(n)[i]
            == views(longer)[i] by {
            if i < n - 1 {
                assert(shorter[i] == longer[i]);
            }
        }
        assert(node.child_views(n) =~= views(longer));
    } else {
        assert(node.child_views(n) =~= views(node.children@.take(n as int)));
    }
}

/// The children of a node's value are the values of its children.
pub proof fn lemma_view_children(node: Node)
    ensures
        node@.children == views(node.children@),
{
    lemma_child_views(node, node.children@.len());
    assert(node.children@.take(node.children@.len() as int) =~= node.children@);
}

impl Node {
    fn bare(kind: Kind) -> (node: Node)
        ensures
            node@ == NodeView::bare(kind@),
    {
        let node = Node {
            kind,
            styles: Vec::new(),
            hover_styles: Vec::new(),
            active_styles: Vec::new(),
            children: Vec::new(),
        };
        proof {
            lemma_view_children(node);
        }
        assert(node@.children =~= Seq::empty());
        node
    }

    /// A plain box.
    pub fn div() -> (node: Node)
        ensures
            node@ == NodeView::bare(KindView::Div),
    {
        Node::bare(Kind::Div)
    }

    /// A box that lays its children out in a row.
    pub fn h_stack() -> (node: Node)
        ensures
            node@ == NodeView::bare(KindView::HStack),
    {
        Node::bare(Kind::HStack)
    }

    /// A box that lays its children out in a column.
    pub fn v_stack() -> (node: Node)
        ensures
            node@ == NodeView::bare(KindView::VStack),
    {
        Node::bare(Kind::VStack)
    }

    /// An image loaded from `uri`.
    pub fn img(uri: &str) -> (node: Node)
        ensures
            node@ == NodeView::bare(KindView::Img { uri: uri@ }),
    {
        Node::bare(Kind::Img { uri: uri.to_owned() })
    }

    /// A vector icon loaded from the asset at `path`.
    pub fn svg(path: &str) -> (node: Node)
        ensures
            node@ == NodeView::bare(KindView::Svg { path: path@ }),
    {
        Node::bare(Kind::Svg { path: path.to_owned() })
    }

    /// A run of text.
    pub fn text(content: &str) -> (node: Node)
        ensures
            node@ == NodeView::bare(KindView::Text { content: content@ }),
    {
        Node::bare(Kind::Text { content: content.to_owned() })
    }

    /// Applies `style` after the styles the element has.
    pub fn style(self, style: Style) -> (node: Node)
        ensures
            node@ == self@.style(style),
    {
        let mut node = self;
        node.styles.push(style);
        proof {
            lemma_view_children(self);
            lemma_view_children(node);
        }
        node
    }

    /// Applies `style` while the pointer is over the element.
    pub fn hover(self, style: Style) -> (node: Node)
        ensures
            node@ == self@.hover(style),
    {
        let mut node = self;
        node.hover_styles.push(style);
        proof {
            lemma_view_children(self);
            lemma_view_children(node);
        }
        node
    }

    /// Applies `style` while the element is pressed.
    pub fn active(self, style: Style) -> (node: Node)
        ensures
            node@ == self@.active(style),
    {
        let mut node = self;
        node.active_styles.push(style);
        proof {
            lemma_view_children(self);
            lemma_view_children(node);
        }
        node
    }

    /// Adds `child` after the children the element has.
    pub fn child(self, child: Node) -> (node: Node)
        ensures
            node@ == self@.child(child@),
    {
        let mut node = self;
        node.children.push(child);
        proof {
            lemma_view_children(self);
            lemma_view_children(node);
        }
        assert(node@.children =~= self@.children.push(child@));
        node
    }

    /// Adds `children`, in their order, after those the element has.
    pub fn children(self, children: Vec<Node>) -> (node: Node)
        ensures
            node@ == self@.children(views(children@)),
    {
        let mut node = self;
        let mut children = children;
        let ghost added = children@;
        node.children.append(&mut children);
        proof {
            lemma_view_children(self);
            lemma_view_children(node);
        }
        assert(node@.children =~= self@.children + views(added));
        node
    }
}

} // verus!
