//! The tree of widgets that a host draws.
//!
//! A tree says how texts and buttons are laid out: in rows and columns,
//! inside padded and aligned containers, behind a scroll bar. It holds
//! measures as whole pixels and styles by name, and nothing of the host.
//! Buttons may nest. Activating an element emits the action of the
//! innermost button around it, and of that button alone.

use vstd::prelude::*;
use crate::enums::message::Message;
use crate::style::{Color, Role, Surface};

verus! {

/// How much room a widget takes along one axis.
#[derive(Debug, Clone, Copy, PartialEq, Eq, Structural)]
pub enum Length {
    /// All the room that is left.
    Fill,
    /// As little as the content needs.
    Shrink,
    /// So many pixels.
    Fixed(u16),
}

/// Where content stands between the left and the right edge.
#[derive(Debug, Clone, Copy, PartialEq, Eq, Structural)]
pub enum Horizontal {
    Left,
    Center,
    Right,
}

/// Where content stands between the top and the bottom edge.
#[derive(Debug, Clone, Copy, PartialEq, Eq, Structural)]
pub enum Vertical {
    Top,
    Center,
    Bottom,
}

/// The room kept free inside each edge of a widget.
#[derive(Debug, Clone, Copy, PartialEq, Eq, Structural)]
pub struct Edges {
    pub top: u16,
    pub right: u16,
    pub bottom: u16,
    pub left: u16,
}

/// The room kept free inside the edges of a button.
#[derive(Debug, Clone, Copy, PartialEq, Eq, Structural)]
pub struct Padding {
    pub vertical: u16,
    pub horizontal: u16,
}

/// One run of text.
#[derive(Debug, Clone, PartialEq, Eq)]
pub struct Label {
    pub content: String,
    /// The size of the type, in tenths of a pixel.
    pub size: u16,
    pub color: Color,
}

/// A run of text with its content as a sequence of characters.
pub struct LabelView {
    pub content: Seq<char>,
    pub size: u16,
    pub color: Color,
}

impl View for Label {
    type V = LabelView;

    open spec fn view(&self) -> LabelView {
        LabelView { content: self.content@, size: self.size, color: self.color }
    }
}

/// How a container holds its content.
#[derive(Debug, Clone, Copy, PartialEq, Eq)]
pub struct Frame {
    pub padding: Edges,
    /// `None` leaves the width to the host, which takes it from the content.
    pub width: Option<Length>,
    /// `None` leaves the height to the host, which takes it from the content.
    pub height: Option<Length>,
    pub align_x: Horizontal,
    pub align_y: Vertical,
    /// The surface whose style the container shows, if it shows one.
    pub surface: Option<Surface>,
}

/// A widget and, below it, the widgets that it holds.
#[derive(Debug, PartialEq, Eq)]
pub enum Node {
    /// One run of text.
    Text { label: Label, width: Length },
    /// Widgets side by side. A row without children is a spacer.
    Row { children: Vec<Node>, spacing: u16, align_y: Vertical, width: Length },
    /// Widgets one below the other.
    Column { children: Vec<Node>, spacing: u16, padding: Edges },
    /// A surface that emits `on_press` when it is activated.
    Button { content: Box<Node>, padding: Padding, role: Role, on_press: Message },
    /// A box around one widget.
    Container { content: Box<Node>, frame: Frame },
    /// A window onto a widget that may be taller than the room it gets.
    Scrollable { content: Box<Node>, height: Length },
}

/// A tree with its texts as sequences of characters.
pub enum NodeView {
    Text { label: LabelView, width: Length },
    Row { children: Seq<NodeView>, spacing: u16, align_y: Vertical, width: Length },
    Column { children: Seq<NodeView>, spacing: u16, padding: Edges },
    Button { content: Box<NodeView>, padding: Padding, role: Role, on_press: Message },
    Container { content: Box<NodeView>, frame: Frame },
    Scrollable { content: Box<NodeView>, height: Length },
}

/// The trees of a list, each by its model, in the list's order.
pub open spec fn models(nodes: Seq<Node>) -> Seq<NodeView> {
    Seq::new(nodes.len(), |i: int| nodes[i].model())
}

/// The texts of a list, each by its view, in the list's order.
pub open spec fn label_views(labels: Seq<Label>) -> Seq<LabelView> {
    Seq::new(labels.len(), |i: int| labels[i]@)
}

impl Label {
    /// A run of text of the given size and colour.
    pub fn new(content: String, size: u16, color: Color) -> (label: Label)
        ensures
            label@ == (LabelView { content: content@, size, color }),
    {
        Label { content, size, color }
    }
}

impl Edges {
    pub open spec fn spec_none() -> Edges {
        Edges { top: 0, right: 0, bottom: 0, left: 0 }
    }

    /// No room on any edge.
    #[verifier::when_used_as_spec(spec_none)]
    pub fn none() -> (edges: Edges)
        ensures
            edges == Edges::spec_none(),
    {
        Edges { top: 0, right: 0, bottom: 0, left: 0 }
    }
}

impl Node {
    /// What the tree holds.
    pub open spec fn model(&self) -> NodeView
        decreases self,
    {
        match self {
            Node::Text { label, width } => NodeView::Text { label: label@, width: *width },
            Node::Row { children, spacing, align_y, width } => NodeView::Row {
                children: Seq::new(
                    children@.len(),
                    |i: int|
                        if 0 <= i < children@.len() {
                            children@[i].model()
                        } else {
                            arbitrary()
                        },
                ),
                spacing: *spacing,
                align_y: *align_y,
                width: *width,
            },
            Node::Column { children, spacing, padding } => NodeView::Column {
                children: Seq::new(
                    children@.len(),
                    |i: int|
                        if 0 <= i < children@.len() {
                            children@[i].model()
                        } else {
                            arbitrary()
                        },
                ),
                spacing: *spacing,
                padding: *padding,
            },
            Node::Button { content, padding, role, on_press } => NodeView::Button {
                content: Box::new(content.model()),
                padding: *padding,
                role: *role,
                on_press: *on_press,
            },
            Node::Container { content, frame } => NodeView::Container {
                content: Box::new(content.model()),
                frame: *frame,
            },
            Node::Scrollable { content, height } => NodeView::Scrollable {
                content: Box::new(content.model()),
                height: *height,
            },
        }
    }

    /// A run of text.
    pub fn text(label: Label, width: Length) -> (node: Node)
        ensures
            node.model() == (NodeView::Text { label: label@, width }),
    {
        Node::Text { label, width }
    }

    /// A row of widgets.
    pub fn row(children: Vec<Node>, spacing: u16, align_y: Vertical, width: Length) -> (node: Node)
        ensures
            node.model() == (NodeView::Row { children: models(children@), spacing, align_y, width }),
    {
        let node = Node::Row { children, spacing, align_y, width };
        assert(node.model()->Row_children =~= models(children@));
        node
    }

    /// A column of widgets.
    pub fn column(children: Vec<Node>, spacing: u16, padding: Edges) -> (node: Node)
        ensures
            node.model() == (NodeView::Column { children: models(children@), spacing, padding }),
    {
        let node = Node::Column { children, spacing, padding };
        assert(node.model()->Column_children =~= models(children@));
        node
    }

    /// A button around `content`.
    pub fn button(content: Node, padding: Padding, role: Role, on_press: Message) -> (node: Node)
        ensures
            node.model() == (NodeView::Button {
                content: Box::new(content.model()),
                padding,
                role,
                on_press,
            }),
    {
        Node::Button { content: Box::new(content), padding, role, on_press }
    }

    /// A container that holds `content` as `frame` says.
    pub fn container(content: Node, frame: Frame) -> (node: Node)
        ensures
            node.model() == (NodeView::Container { content: Box::new(content.model()), frame }),
    {
        Node::Container { content: Box::new(content), frame }
    }

    /// A scroll window of the given height onto `content`.
    pub fn scrollable(content: Node, height: Length) -> (node: Node)
        ensures
            node.model() == (NodeView::Scrollable { content: Box::new(content.model()), height }),
    {
        Node::Scrollable { content: Box::new(content), height }
    }
}

impl NodeView {
    /// The widget at position `k` directly below this one, if there is one.
    /// A button, a container and a scroll window hold one widget, at
    /// position 0.
    pub open spec fn child(self, k: int) -> Option<NodeView> {
        match self {
            NodeView::Text { .. } => None,
            NodeView::Row { children, .. } => if 0 <= k < children.len() {
                Some(children[k])
            } else {
                None
            },
            NodeView::Column { children, .. } => if 0 <= k < children.len() {
                Some(children[k])
            } else {
                None
            },
            NodeView::Button { content, .. } => if k == 0 {
                Some(*content)
            } else {
                None
            },
            NodeView::Container { content, .. } => if k == 0 {
                Some(*content)
            } else {
                None
            },
            NodeView::Scrollable { content, .. } => if k == 0 {
                Some(*content)
            } else {
                None
            },
        }
    }

    /// The action of this widget itself: that of a button, and none of any
    /// other widget.
    pub open spec fn own_action(self) -> Option<Message> {
        match self {
            NodeView::Button { on_press, .. } => Some(on_press),
            _ => None,
        }
    }

    /// The widget that `path`, a list of positions from this widget
    /// downwards, leads to, if it leads to one.
    pub open spec fn at(self, path: Seq<usize>) -> Option<NodeView>
        decreases path.len(),
    {
        if path.len() == 0 {
            Some(self)
        } else {
            match self.child(path[0] as int) {
                Some(child) => child.at(path.skip(1)),
                None => None,
            }
        }
    }

    /// Whether `path` leads to a widget of the tree.
    pub open spec fn holds(self, path: Seq<usize>) -> bool {
        self.at(path) is Some
    }

    /// The action of the innermost button among this widget and those that
    /// `path` leads through, the widget at its end included.
    pub open spec fn innermost(self, path: Seq<usize>) -> Option<Message>
        decreases path.len(),
    {
        if path.len() == 0 {
            self.own_action()
        } else {
            match self.child(path[0] as int) {
                Some(child) => match child.innermost(path.skip(1)) {
                    Some(action) => Some(action),
                    None => self.own_action(),
                },
                None => self.own_action(),
            }
        }
    }

    /// What activating the widget at the end of `path` emits: the action of
    /// the innermost button around it, or nothing where no button is around
    /// it or the path leads nowhere.
    pub open spec fn emitted(self, path: Seq<usize>) -> Option<Message> {
        if self.holds(path) {
            self.innermost(path)
        } else {
            None
        }
    }
}

impl Node {
    fn own_action(&self) -> (action: Option<Message>)
        ensures
            action == self.model().own_action(),
    {
        match self {
            Node::Button { on_press, .. } => Some(*on_press),
            _ => None,
        }
    }

    fn child(&self, k: usize) -> (child: Option<&Node>)
        ensures
            child is Some <==> self.model().child(k as int) is Some,
            child matches Some(node) ==> self.model().child(k as int) == Some(node.model()),
    {
        match self {
            Node::Text { .. } => None,
            Node::Row { children, .. } => if k < children.len() {
                Some(&children[k])
            } else {
                None
            },
            Node::Column { children, .. } => if k < children.len() {
                Some(&children[k])
            } else {
                None
            },
            Node::Button { content, .. } => if k == 0 {
                Some(&**content)
            } else {
                None
            },
            Node::Container { content, .. } => if k == 0 {
                Some(&**content)
            } else {
                None
            },
            Node::Scrollable { content, .. } => if k == 0 {
                Some(&**content)
            } else {
                None
            },
        }
    }

    /// Follows `path` from its position `from` on. The result is `None`
    /// where the path leaves the tree, and else the action of the innermost
    /// button on the way.
    fn locate(&self, path: &Vec<usize>, from: usize) -> (found: Option<Option<Message>>)
        requires
            from <= path.len(),
        ensures
            found is Some <==> self.model().holds(path@.skip(from as int)),
            found matches Some(action) ==> action == self.model().innermost(path@.skip(from as int)),
        decreases path.len() - from,
    {
        let own = self.own_action();
        if from == path.len() {
            return Some(own);
        }
        let ghost rest = path@.skip(from as int);
        assert(rest.len() > 0 && rest[0] == path@[from as int]);
        assert(rest.skip(1) =~= path@.skip(from + 1));
        match self.child(path[from]) {
            None => None,
            Some(child) => match child.locate(path, from + 1) {
                None => None,
                Some(Some(action)) => Some(Some(action)),
                Some(None) => Some(own),
            },
        }
    }

    /// Finds what activating the widget at the end of `path` emits. Where
    /// buttons nest, the innermost emits its action and those around it
    /// emit nothing.
    pub fn activate(&self, path: &Vec<usize>) -> (emitted: Option<Message>)
        ensures
            emitted == self.model().emitted(path@),
    {
        assert(path@.skip(0) =~= path@);
        match self.locate(path, 0) {
            Some(action) => action,
            None => None,
        }
    }
}

} // verus!
