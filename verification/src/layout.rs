//! How the panel is laid out as a tree of widgets, and the fixed measures of
//! that layout, in whole pixels.
//!
//! On a backdrop that fills the window the panel stands in the middle. It
//! is a column of four: the header, with the title at the left and the
//! button at the right of a spacer; the summary block; the scroll window
//! onto the rows; and the footer, with its button at the right. The row of
//! a change is a button around its texts and its inner button.

use vstd::prelude::*;
use crate::enums::message::Message;
use crate::panel::{ActionButton, ActionButtonView, Panel, PanelView, Row, RowView, Target};
use crate::structs::file::FileView;
use crate::style::Surface;
use crate::widget::{
    models, Edges, Frame, Horizontal, Label, LabelView, Length, Node, NodeView, Vertical,
};

verus! {

/// The gap between the header's title and its button.
pub const HEADER_SPACING: u16 = 20;

/// The gap between the lines of the summary.
pub const SUMMARY_SPACING: u16 = 4;

/// The summary's padding at the top, the right and the bottom.
pub const SUMMARY_PADDING: u16 = 18;

/// The summary's padding at the left, wider to set the block off.
pub const SUMMARY_PADDING_LEFT: u16 = 22;

/// The gap between two rows of the list.
pub const LIST_SPACING: u16 = 2;

/// The width that a row keeps for its glyph.
pub const GLYPH_WIDTH: u16 = 12;

/// The gap between a row's glyph, title and metadata.
pub const ROW_TEXT_SPACING: u16 = 14;

/// The gap between a row's texts and its button.
pub const ROW_SPACING: u16 = 20;

/// The gap between header, summary, list and footer.
pub const PANEL_SPACING: u16 = 28;

/// The panel's padding at the top and the bottom.
pub const PANEL_PADDING: u16 = 48;

/// The panel's padding at the left and the right.
pub const PANEL_PADDING_SIDES: u16 = 56;

/// A text that takes the room it needs.
pub open spec fn spec_text(label: LabelView) -> NodeView {
    NodeView::Text { label, width: Length::Shrink }
}

/// A button around its label.
pub open spec fn spec_action(button: ActionButtonView) -> NodeView {
    NodeView::Button {
        content: Box::new(spec_text(button.label)),
        padding: button.padding,
        role: button.role,
        on_press: button.on_press,
    }
}

/// An empty row that takes all the room that is left.
pub open spec fn spec_spacer() -> NodeView {
    NodeView::Row { children: Seq::empty(), spacing: 0, align_y: Vertical::Top, width: Length::Fill }
}

/// A container with no padding and no surface that leaves its height to
/// the host and keeps its content at the top.
pub open spec fn spec_strip(width: Length, align_x: Horizontal) -> Frame {
    Frame {
        padding: Edges::spec_none(),
        width: Some(width),
        height: None,
        align_x,
        align_y: Vertical::Top,
        surface: None,
    }
}

/// A container that fills the room it gets and centers its content.
pub open spec fn spec_centered(surface: Option<Surface>) -> Frame {
    Frame {
        padding: Edges::spec_none(),
        width: Some(Length::Fill),
        height: Some(Length::Fill),
        align_x: Horizontal::Center,
        align_y: Vertical::Center,
        surface,
    }
}

/// The texts of a row: the glyph in a column of fixed width, then title
/// and metadata.
pub open spec fn spec_row_texts(row: RowView) -> NodeView {
    NodeView::Row {
        children: seq![
            NodeView::Text { label: row.glyph, width: Length::Fixed(GLYPH_WIDTH) },
            spec_text(row.title),
            spec_text(row.meta),
        ],
        spacing: ROW_TEXT_SPACING,
        align_y: Vertical::Center,
        width: Length::Fill,
    }
}

/// The row of a change: a button around the texts and the inner button.
pub open spec fn spec_row(row: RowView) -> NodeView {
    NodeView::Button {
        content: Box::new(
            NodeView::Row {
                children: seq![spec_row_texts(row), spec_action(row.action)],
                spacing: ROW_SPACING,
                align_y: Vertical::Center,
                width: Length::Shrink,
            },
        ),
        padding: row.padding,
        role: row.role,
        on_press: row.on_press,
    }
}

/// The header: title, spacer, button.
pub open spec fn spec_header(panel: PanelView) -> NodeView {
    NodeView::Container {
        content: Box::new(
            NodeView::Row {
                children: seq![spec_text(panel.title), spec_spacer(), spec_action(panel.accept_all)],
                spacing: HEADER_SPACING,
                align_y: Vertical::Center,
                width: Length::Fill,
            },
        ),
        frame: spec_strip(Length::Fill, Horizontal::Left),
    }
}

/// The summary block: its lines below each other on the summary's surface.
pub open spec fn spec_summary_block(panel: PanelView) -> NodeView {
    NodeView::Container {
        content: Box::new(
            NodeView::Column {
                children: Seq::new(panel.summary.len(), |i: int| spec_text(panel.summary[i])),
                spacing: SUMMARY_SPACING,
                padding: Edges::spec_none(),
            },
        ),
        frame: Frame {
            padding: Edges {
                top: SUMMARY_PADDING,
                right: SUMMARY_PADDING,
                bottom: SUMMARY_PADDING,
                left: SUMMARY_PADDING_LEFT,
            },
            surface: Some(Surface::Summary),
            ..spec_strip(Length::Fill, Horizontal::Left)
        },
    }
}

/// The list: a scroll window onto the rows, in their order.
pub open spec fn spec_list(panel: PanelView) -> NodeView {
    NodeView::Scrollable {
        content: Box::new(
            NodeView::Column {
                children: Seq::new(panel.rows.len(), |i: int| spec_row(panel.rows[i])),
                spacing: LIST_SPACING,
                padding: Edges::spec_none(),
            },
        ),
        height: Length::Fill,
    }
}

/// The footer: the button at the right.
pub open spec fn spec_footer(panel: PanelView) -> NodeView {
    NodeView::Container {
        content: Box::new(spec_action(panel.finish)),
        frame: spec_strip(Length::Fill, Horizontal::Right),
    }
}

/// The panel itself: header, summary, list and footer on the panel's
/// surface, which takes no more room than they need.
pub open spec fn spec_body(panel: PanelView) -> NodeView {
    NodeView::Container {
        content: Box::new(
            NodeView::Column {
                children: seq![
                    spec_header(panel),
                    spec_summary_block(panel),
                    spec_list(panel),
                    spec_footer(panel),
                ],
                spacing: PANEL_SPACING,
                padding: Edges {
                    top: PANEL_PADDING,
                    right: PANEL_PADDING_SIDES,
                    bottom: PANEL_PADDING,
                    left: PANEL_PADDING_SIDES,
                },
            },
        ),
        frame: Frame {
            padding: Edges::spec_none(),
            width: Some(Length::Shrink),
            height: Some(Length::Shrink),
            align_x: Horizontal::Left,
            align_y: Vertical::Top,
            surface: Some(Surface::Panel),
        },
    }
}

/// The whole tree: the panel in the middle of the backdrop.
pub open spec fn arrangement(panel: PanelView) -> NodeView {
    NodeView::Container {
        content: Box::new(
            NodeView::Container { content: Box::new(spec_body(panel)), frame: spec_centered(None) },
        ),
        frame: spec_centered(Some(Surface::Root)),
    }
}

fn duplicate(label: &Label) -> (copy: Label)
    ensures
        copy@ == label@,
{
    Label { content: label.content.clone(), size: label.size, color: label.color }
}

fn text(label: &Label) -> (node: Node)
    ensures
        node.model() == spec_text(label@),
{
    Node::text(duplicate(label), Length::Shrink)
}

fn action(button: &ActionButton) -> (node: Node)
    ensures
        node.model() == spec_action(button@),
{
    Node::button(text(&button.label), button.padding, button.role, button.on_press)
}

fn strip(width: Length, align_x: Horizontal) -> (frame: Frame)
    ensures
        frame == spec_strip(width, align_x),
{
    Frame {
        padding: Edges::none(),
        width: Some(width),
        height: None,
        align_x,
        align_y: Vertical::Top,
        surface: None,
    }
}

fn centered(surface: Option<Surface>) -> (frame: Frame)
    ensures
        frame == spec_centered(surface),
{
    Frame {
        padding: Edges::none(),
        width: Some(Length::Fill),
        height: Some(Length::Fill),
        align_x: Horizontal::Center,
        align_y: Vertical::Center,
        surface,
    }
}

fn change(row: &Row) -> (node: Node)
    ensures
        node.model() == spec_row(row@),
{
    let mut texts: Vec<Node> = Vec::new();
    texts.push(Node::text(duplicate(&row.glyph), Length::Fixed(GLYPH_WIDTH)));
    texts.push(text(&row.title));
    texts.push(text(&row.meta));
    assert(models(texts@) =~= spec_row_texts(row@)->Row_children);
    let mut parts: Vec<Node> = Vec::new();
    parts.push(Node::row(texts, ROW_TEXT_SPACING, Vertical::Center, Length::Fill));
    parts.push(action(&row.action));
    assert(models(parts@) =~= seq![spec_row_texts(row@), spec_action(row.action@)]);
    Node::button(
        Node::row(parts, ROW_SPACING, Vertical::Center, Length::Shrink),
        row.padding,
        row.role,
        row.on_press,
    )
}

fn header(panel: &Panel) -> (node: Node)
    ensures
        node.model() == spec_header(panel@),
{
    let mut parts: Vec<Node> = Vec::new();
    parts.push(text(&panel.title));
    let spacer = Node::row(Vec::new(), 0, Vertical::Top, Length::Fill);
    assert(spacer.model()->Row_children =~= Seq::empty());
    parts.push(spacer);
    parts.push(action(&panel.accept_all));
    assert(models(parts@) =~= seq![
        spec_text(panel@.title),
        spec_spacer(),
        spec_action(panel@.accept_all),
    ]);
    Node::container(
        Node::row(parts, HEADER_SPACING, Vertical::Center, Length::Fill),
        strip(Length::Fill, Horizontal::Left),
    )
}

fn summary_block(panel: &Panel) -> (node: Node)
    ensures
        node.model() == spec_summary_block(panel@),
{
    let mut lines: Vec<Node> = Vec::new();
    let mut i: usize = 0;
    while i < panel.summary.len()
        invariant
            i <= panel.summary.len(),
            lines.len() == i,
            forall|j: int| 0 <= j < i ==> (#[trigger] lines@[j]).model() == spec_text(panel.summary@[j]@),
        decreases panel.summary.len() - i,
    {
        lines.push(text(&panel.summary[i]));
        i += 1;
    }
    assert(models(lines@) =~= Seq::new(panel@.summary.len(), |i: int| spec_text(panel@.summary[i])));
    let mut frame = strip(Length::Fill, Horizontal::Left);
    frame.padding = Edges {
        top: SUMMARY_PADDING,
        right: SUMMARY_PADDING,
        bottom: SUMMARY_PADDING,
        left: SUMMARY_PADDING_LEFT,
    };
    frame.surface = Some(Surface::Summary);
    Node::container(Node::column(lines, SUMMARY_SPACING, Edges::none()), frame)
}

fn list(panel: &Panel) -> (node: Node)
    ensures
        node.model() == spec_list(panel@),
{
    let mut rows: Vec<Node> = Vec::new();
    let mut i: usize = 0;
    while i < panel.rows.len()
        invariant
            i <= panel.rows.len(),
            rows.len() == i,
            forall|j: int| 0 <= j < i ==> (#[trigger] rows@[j]).model() == spec_row(panel.rows@[j]@),
        decreases panel.rows.len() - i,
    {
        rows.push(change(&panel.rows[i]));
        i += 1;
    }
    assert(models(rows@) =~= Seq::new(panel@.rows.len(), |i: int| spec_row(panel@.rows[i])));
    Node::scrollable(Node::column(rows, LIST_SPACING, Edges::none()), Length::Fill)
}

fn footer(panel: &Panel) -> (node: Node)
    ensures
        node.model() == spec_footer(panel@),
{
    Node::container(action(&panel.finish), strip(Length::Fill, Horizontal::Right))
}

fn body(panel: &Panel) -> (node: Node)
    ensures
        node.model() == spec_body(panel@),
{
    let mut parts: Vec<Node> = Vec::new();
    parts.push(header(panel));
    parts.push(summary_block(panel));
    parts.push(list(panel));
    parts.push(footer(panel));
    assert(models(parts@) =~= seq![
        spec_header(panel@),
        spec_summary_block(panel@),
        spec_list(panel@),
        spec_footer(panel@),
    ]);
    let padding = Edges {
        top: PANEL_PADDING,
        right: PANEL_PADDING_SIDES,
        bottom: PANEL_PADDING,
        left: PANEL_PADDING_SIDES,
    };
    Node::container(
        Node::column(parts, PANEL_SPACING, padding),
        Frame {
            padding: Edges::none(),
            width: Some(Length::Shrink),
            height: Some(Length::Shrink),
            align_x: Horizontal::Left,
            align_y: Vertical::Top,
            surface: Some(Surface::Panel),
        },
    )
}

/// Lays the panel out as a tree of widgets.
pub fn arrange(panel: &Panel) -> (node: Node)
    ensures
        node.model() == arrangement(panel@),
{
    Node::container(Node::container(body(panel), centered(None)), centered(Some(Surface::Root)))
}

/// Where an element of the panel stands in the tree: the positions to
/// follow from the root down to the element's button.
pub open spec fn spec_path_of(target: Target) -> Seq<usize> {
    match target {
        Target::AcceptAll => seq![0, 0, 0, 0, 0, 2],
        Target::Finish => seq![0, 0, 0, 3, 0],
        Target::RowAction(i) => seq![0, 0, 0, 2, 0, i, 0, 1],
        Target::RowSurface(i) => seq![0, 0, 0, 2, 0, i],
    }
}

/// Gives the path from the root of the tree to an element of the panel.
pub fn path_of(target: Target) -> (path: Vec<usize>)
    ensures
        path@ == spec_path_of(target),
{
    let path = match target {
        Target::AcceptAll => vec![0, 0, 0, 0, 0, 2],
        Target::Finish => vec![0, 0, 0, 3, 0],
        Target::RowAction(i) => vec![0, 0, 0, 2, 0, i, 0, 1],
        Target::RowSurface(i) => vec![0, 0, 0, 2, 0, i],
    };
    assert(path@ =~= spec_path_of(target));
    path
}

/// The tree emits what the panel binds: activating the button of an
/// element in the laid-out tree emits the action that the panel binds to
/// that element, and nothing where the panel has no such element. So the
/// inner button of a row, which stands inside the row's own button, emits
/// its own action and not the row's.
pub proof fn lemma_tree_emits_what_the_panel_binds(panel: PanelView, target: Target)
    ensures
        arrangement(panel).emitted(spec_path_of(target)) == Panel::spec_activate(panel, target),
{
    reveal_with_fuel(NodeView::at, 10);
    reveal_with_fuel(NodeView::innermost, 10);
}

/// Activation is contained in every part of a row. Whatever stands inside
/// the inner button emits the action of that button, and whatever else
/// stands inside the row emits the action of the row: no activation emits
/// both.
pub proof fn lemma_rows_contain_activation(panel: PanelView, i: usize, rest: Seq<usize>)
    requires
        i < panel.rows.len(),
    ensures
        arrangement(panel).holds(spec_path_of(Target::RowAction(i)) + rest) ==> arrangement(
            panel,
        ).emitted(spec_path_of(Target::RowAction(i)) + rest) == Some(
            panel.rows[i as int].action.on_press,
        ),
        arrangement(panel).holds(spec_path_of(Target::RowSurface(i)) + rest) && !(rest.len() >= 2
            && rest[0] == 0 && rest[1] == 1) ==> arrangement(panel).emitted(
            spec_path_of(Target::RowSurface(i)) + rest,
        ) == Some(panel.rows[i as int].on_press),
{
    reveal_with_fuel(NodeView::at, 12);
    reveal_with_fuel(NodeView::innermost, 12);
}

/// Where the column of rows stands in the tree.
pub open spec fn spec_list_path() -> Seq<usize> {
    seq![0, 0, 0, 2, 0]
}

/// The tree lists every entry once, in order: the column of rows has one
/// child for each entry of the list, and the child at a position is the row
/// of the entry at that position.
pub proof fn lemma_tree_lists_every_entry(files: Seq<FileView>)
    ensures
        arrangement(Panel::of(files)).at(spec_list_path()) matches Some(
            NodeView::Column { children, .. },
        ) && children.len() == files.len() && forall|i: int|
            0 <= i < files.len() ==> #[trigger] children[i] == spec_row(Row::of(files[i], i as usize)),
{
    reveal_with_fuel(NodeView::at, 8);
}

/// Whatever the tree emits, wherever it is activated, can be carried out on
/// the list that it was derived from: the action names no row that the list
/// lacks.
pub proof fn lemma_tree_emits_applicable_actions(files: Seq<FileView>, path: Seq<usize>, emitted: Message)
    requires
        files.len() <= usize::MAX,
        arrangement(Panel::of(files)).emitted(path) == Some(emitted),
    ensures
        emitted.applies_to(files.len()),
{
    reveal_with_fuel(NodeView::at, 12);
    reveal_with_fuel(NodeView::innermost, 12);
}

} // verus!
