//! What the panel shows, and how it is composed from the list of changes.
//!
//! From top to bottom the panel holds a header (a title and the button that
//! accepts all changes), the analysis summary, one row for each change in
//! the order of the list, and a footer with the button that finishes the
//! review. A row carries two bindings that are activated apart: that of its
//! inner button, and that of the row as a whole.

use vstd::prelude::*;
use vstd::string::StringExecFns;
use crate::enums::change_type::ChangeType;
use crate::enums::message::Message;
use crate::structs::file::{views, File, FileView};
use crate::style::{
    accent, button_text, heading_tone, spec_accent, spec_button_text, spec_heading_tone,
    spec_text_primary, spec_text_secondary, spec_warning_tone, text_primary, text_secondary,
    warning_tone, Role,
};
use crate::widget::{label_views, Label, LabelView, Padding};

verus! {

/// A labelled button and the action that activating it emits.
#[derive(Debug, Clone, PartialEq, Eq)]
pub struct ActionButton {
    pub label: Label,
    pub padding: Padding,
    /// The role that the button's style is resolved by.
    pub role: Role,
    pub on_press: Message,
}

/// A button with its label by its view.
pub struct ActionButtonView {
    pub label: LabelView,
    pub padding: Padding,
    pub role: Role,
    pub on_press: Message,
}

impl View for ActionButton {
    type V = ActionButtonView;

    open spec fn view(&self) -> ActionButtonView {
        ActionButtonView {
            label: self.label@,
            padding: self.padding,
            role: self.role,
            on_press: self.on_press,
        }
    }
}

/// The row of one change: three texts, the inner button, and the binding of
/// the row's own surface.
#[derive(Debug, Clone, PartialEq, Eq)]
pub struct Row {
    pub glyph: Label,
    pub title: Label,
    pub meta: Label,
    pub action: ActionButton,
    pub padding: Padding,
    /// The role that the surface's style is resolved by.
    pub role: Role,
    /// What activating the row as a whole emits.
    pub on_press: Message,
}

/// A row with its texts and its button by their views.
pub struct RowView {
    pub glyph: LabelView,
    pub title: LabelView,
    pub meta: LabelView,
    pub action: ActionButtonView,
    pub padding: Padding,
    pub role: Role,
    pub on_press: Message,
}

impl View for Row {
    type V = RowView;

    open spec fn view(&self) -> RowView {
        RowView {
            glyph: self.glyph@,
            title: self.title@,
            meta: self.meta@,
            action: self.action@,
            padding: self.padding,
            role: self.role,
            on_press: self.on_press,
        }
    }
}

/// The label of a row's inner button: an added entry is reviewed, any other
/// is ignored.
pub open spec fn spec_action_label(kind: ChangeType) -> Seq<char> {
    match kind {
        ChangeType::Added => "Review"@,
        ChangeType::Modified | ChangeType::Deleted => "Ignore"@,
    }
}

/// The action of the inner button of the row at `index`.
pub open spec fn spec_action_message(kind: ChangeType, index: usize) -> Message {
    match kind {
        ChangeType::Added => Message::ReviewChange(index),
        ChangeType::Modified | ChangeType::Deleted => Message::IgnoreChange(index),
    }
}

/// The action of the inner button of the row at `index`.
#[verifier::when_used_as_spec(spec_action_message)]
pub fn action_message(kind: ChangeType, index: usize) -> (message: Message)
    ensures
        message == spec_action_message(kind, index),
{
    match kind {
        ChangeType::Added => Message::ReviewChange(index),
        ChangeType::Modified | ChangeType::Deleted => Message::IgnoreChange(index),
    }
}

impl Row {
    /// The row that shows `file` at position `index` of the list. Glyph and
    /// title take the accent of the entry's kind; the metadata keeps the
    /// neutral tone.
    pub open spec fn of(file: FileView, index: usize) -> RowView {
        RowView {
            glyph: LabelView { content: file.icon, size: 112, color: spec_accent(file.change_type) },
            title: LabelView { content: file.title, size: 152, color: spec_accent(file.change_type) },
            meta: LabelView { content: file.meta, size: 131, color: spec_text_secondary() },
            action: ActionButtonView {
                label: LabelView {
                    content: spec_action_label(file.change_type),
                    size: 130,
                    color: spec_button_text(),
                },
                padding: Padding { vertical: 6, horizontal: 20 },
                role: Role::SecondaryButton,
                on_press: spec_action_message(file.change_type, index),
            },
            padding: Padding { vertical: 12, horizontal: 10 },
            role: Role::RowSurface,
            on_press: Message::RowClicked(index),
        }
    }

    /// Composes the row of `file`, which stands at position `index`.
    pub fn compose(file: &File, index: usize) -> (row: Row)
        ensures
            row@ == Row::of(file@, index),
    {
        let tone = accent(file.change_type);
        let caption = match file.change_type {
            ChangeType::Added => "Review",
            ChangeType::Modified | ChangeType::Deleted => "Ignore",
        };
        Row {
            glyph: Label::new(file.icon.clone(), 112, tone),
            title: Label::new(file.title.clone(), 152, tone),
            meta: Label::new(file.meta.clone(), 131, text_secondary()),
            action: ActionButton {
                label: Label::new(String::from_str(caption), 130, button_text()),
                padding: Padding { vertical: 6, horizontal: 20 },
                role: Role::SecondaryButton,
                on_press: action_message(file.change_type, index),
            },
            padding: Padding { vertical: 12, horizontal: 10 },
            role: Role::RowSurface,
            on_press: Message::RowClicked(index),
        }
    }
}

/// The whole panel, from top to bottom.
#[derive(Debug, Clone, PartialEq, Eq)]
pub struct Panel {
    /// The header's title.
    pub title: Label,
    /// The header's button.
    pub accept_all: ActionButton,
    /// The lines of the analysis summary.
    pub summary: Vec<Label>,
    /// One row for each change, in the order of the list.
    pub rows: Vec<Row>,
    /// The footer's button.
    pub finish: ActionButton,
}

/// A panel with its parts by their views, lists as sequences.
pub struct PanelView {
    pub title: LabelView,
    pub accept_all: ActionButtonView,
    pub summary: Seq<LabelView>,
    pub rows: Seq<RowView>,
    pub finish: ActionButtonView,
}

/// The rows of a list, each by its view, in the list's order.
pub open spec fn row_views(rows: Seq<Row>) -> Seq<RowView> {
    Seq::new(rows.len(), |i: int| rows[i]@)
}

impl View for Panel {
    type V = PanelView;

    open spec fn view(&self) -> PanelView {
        PanelView {
            title: self.title@,
            accept_all: self.accept_all@,
            summary: label_views(self.summary@),
            rows: row_views(self.rows@),
            finish: self.finish@,
        }
    }
}

/// An element of the panel that can be activated.
#[derive(Debug, Clone, Copy, PartialEq, Eq, Structural)]
pub enum Target {
    /// The header's button.
    AcceptAll,
    /// The footer's button.
    Finish,
    /// The inner button of the row at the given position.
    RowAction(usize),
    /// The surface of the row at the given position, outside its button.
    RowSurface(usize),
}

/// The header's title.
pub open spec fn spec_title() -> LabelView {
    LabelView { content: "All Changes"@, size: 320, color: spec_text_primary() }
}

/// One of the two large buttons.
pub open spec fn spec_pill(caption: Seq<char>, role: Role, on_press: Message) -> ActionButtonView {
    ActionButtonView {
        label: LabelView { content: caption, size: 140, color: spec_button_text() },
        padding: Padding { vertical: 6, horizontal: 22 },
        role,
        on_press,
    }
}

/// The analysis summary: a heading, the findings, and a closing warning.
pub open spec fn spec_summary() -> Seq<LabelView> {
    seq![
        LabelView { content: "ANALYSIS SUMMARY"@, size: 144, color: spec_heading_tone() },
        LabelView {
            content: "Found 15 critical issues across multiple categories: 8 security vulnerabilities (SQL injection risks), 3 bugs (type mismatches and typos), 2 performance issues (N+1 queries and large file processing), 12 clean code violations (long methods, large classes, magic numbers), 8 architecture issues (business logic in resolvers, missing service layer), and 6 duplicate code patterns (repeated validation, CRUD operations, query building)."@,
            size: 131,
            color: spec_text_primary(),
        },
        LabelView {
            content: "Most critical are the SQL injection vulnerabilities from string concatenation in query building."@,
            size: 131,
            color: spec_warning_tone(),
        },
    ]
}

fn pill(caption: &str, role: Role, on_press: Message) -> (button: ActionButton)
    ensures
        button@ == spec_pill(caption@, role, on_press),
{
    ActionButton {
        label: Label::new(String::from_str(caption), 140, button_text()),
        padding: Padding { vertical: 6, horizontal: 22 },
        role,
        on_press,
    }
}

fn summary() -> (lines: Vec<Label>)
    ensures
        label_views(lines@) == spec_summary(),
{
    let mut lines: Vec<Label> = Vec::new();
    lines.push(Label::new(String::from_str("ANALYSIS SUMMARY"), 144, heading_tone()));
    lines.push(
        Label::new(
            String::from_str(
                "Found 15 critical issues across multiple categories: 8 security vulnerabilities (SQL injection risks), 3 bugs (type mismatches and typos), 2 performance issues (N+1 queries and large file processing), 12 clean code violations (long methods, large classes, magic numbers), 8 architecture issues (business logic in resolvers, missing service layer), and 6 duplicate code patterns (repeated validation, CRUD operations, query building).",
            ),
            131,
            text_primary(),
        ),
    );
    lines.push(
        Label::new(
            String::from_str(
                "Most critical are the SQL injection vulnerabilities from string concatenation in query building.",
            ),
            131,
            warning_tone(),
        ),
    );
    assert(label_views(lines@) =~= spec_summary());
    lines
}

impl Panel {
    /// The panel that shows `files`: the fixed header, summary and footer,
    /// and between them the row of each entry at the entry's position.
    pub open spec fn of(files: Seq<FileView>) -> PanelView {
        PanelView {
            title: spec_title(),
            accept_all: spec_pill("Accept All"@, Role::AcceptAllButton, Message::AcceptAll),
            summary: spec_summary(),
            rows: Seq::new(files.len(), |i: int| Row::of(files[i], i as usize)),
            finish: spec_pill("Finish Review"@, Role::FinishButton, Message::FinishReview),
        }
    }

    /// Composes the panel that shows `files`.
    pub fn compose(files: &Vec<File>) -> (panel: Panel)
        ensures
            panel@ == Panel::of(views(files@)),
    {
        let mut rows: Vec<Row> = Vec::new();
        let mut i: usize = 0;
        while i < files.len()
            invariant
                i <= files.len(),
                rows.len() == i,
                forall|j: int| 0 <= j < i ==> (#[trigger] rows@[j])@ == Row::of(files@[j]@, j as usize),
            decreases files.len() - i,
        {
            rows.push(Row::compose(&files[i], i));
            i += 1;
        }
        let panel = Panel {
            title: Label::new(String::from_str("All Changes"), 320, text_primary()),
            accept_all: pill("Accept All", Role::AcceptAllButton, Message::AcceptAll),
            summary: summary(),
            rows,
            finish: pill("Finish Review", Role::FinishButton, Message::FinishReview),
        };
        assert(panel@.rows =~= Panel::of(views(files@)).rows);
        panel
    }

    /// What activating `target` emits on a panel: the one action bound to
    /// that element, or nothing where the panel has no such element.
    pub open spec fn spec_activate(panel: PanelView, target: Target) -> Option<Message> {
        match target {
            Target::AcceptAll => Some(panel.accept_all.on_press),
            Target::Finish => Some(panel.finish.on_press),
            Target::RowAction(i) => if i < panel.rows.len() {
                Some(panel.rows[i as int].action.on_press)
            } else {
                None
            },
            Target::RowSurface(i) => if i < panel.rows.len() {
                Some(panel.rows[i as int].on_press)
            } else {
                None
            },
        }
    }

    /// Finds the action that activating `target` emits. An element emits its
    /// own action and no other: the inner button of a row does not pass the
    /// activation on to the row.
    pub fn activate(&self, target: Target) -> (emitted: Option<Message>)
        ensures
            emitted == Panel::spec_activate(self@, target),
    {
        match target {
            Target::AcceptAll => Some(self.accept_all.on_press),
            Target::Finish => Some(self.finish.on_press),
            Target::RowAction(i) => if i < self.rows.len() {
                Some(self.rows[i].action.on_press)
            } else {
                None
            },
            Target::RowSurface(i) => if i < self.rows.len() {
                Some(self.rows[i].on_press)
            } else {
                None
            },
        }
    }
}

/// The rows follow the list: there is one row for each entry, none is
/// dropped and none comes twice, and the row at a position shows the entry
/// at that position.
pub proof fn lemma_rows_follow_list(files: Seq<FileView>)
    ensures
        Panel::of(files).rows.len() == files.len(),
        forall|i: int|
            0 <= i < files.len() ==> {
                let row = #[trigger] Panel::of(files).rows[i];
                &&& row == Row::of(files[i], i as usize)
                &&& row.glyph.content == files[i].icon
                &&& row.title.content == files[i].title
                &&& row.meta.content == files[i].meta
            },
{
}

/// The inner button of a row offers to review an added entry and to ignore
/// any other, and its action names the position of the row.
pub proof fn lemma_row_binding(files: Seq<FileView>, i: usize)
    requires
        i < files.len(),
    ensures
        files[i as int].change_type == ChangeType::Added ==> {
            &&& Panel::of(files).rows[i as int].action.label.content == "Review"@
            &&& Panel::of(files).rows[i as int].action.on_press == Message::ReviewChange(i)
        },
        files[i as int].change_type != ChangeType::Added ==> {
            &&& Panel::of(files).rows[i as int].action.label.content == "Ignore"@
            &&& Panel::of(files).rows[i as int].action.on_press == Message::IgnoreChange(i)
        },
        Panel::of(files).rows[i as int].on_press == Message::RowClicked(i),
{
}

/// Activation is contained: the inner button of a row emits its own action
/// and never that of the row, and the surface of the row emits that of the
/// row.
pub proof fn lemma_activation_is_contained(files: Seq<FileView>, i: usize)
    requires
        i < files.len(),
    ensures
        Panel::spec_activate(Panel::of(files), Target::RowAction(i)) == Some(
            spec_action_message(files[i as int].change_type, i),
        ),
        Panel::spec_activate(Panel::of(files), Target::RowAction(i)) != Some(Message::RowClicked(i)),
        Panel::spec_activate(Panel::of(files), Target::RowSurface(i)) == Some(Message::RowClicked(i)),
{
}

/// Whatever an element of a panel emits can be carried out on the list that
/// the panel was composed from: the action names no row that the list
/// lacks. A review is offered for added entries only, and only the other
/// entries can be ignored.
pub proof fn lemma_emitted_actions_apply(files: Seq<FileView>, target: Target, emitted: Message)
    requires
        files.len() <= usize::MAX,
        Panel::spec_activate(Panel::of(files), target) == Some(emitted),
    ensures
        emitted.applies_to(files.len()),
        emitted matches Message::ReviewChange(i) ==> files[i as int].change_type == ChangeType::Added,
        emitted matches Message::IgnoreChange(i) ==> files[i as int].change_type != ChangeType::Added,
{
}

/// The accent marks glyph and title and nothing else: both take the accent
/// of the entry's kind, while the metadata and the label of the inner
/// button keep their fixed tones, whatever the kind.
pub proof fn lemma_accent_marks_glyph_and_title(file: FileView, other: FileView, index: usize)
    ensures
        Row::of(file, index).glyph.color == spec_accent(file.change_type),
        Row::of(file, index).title.color == spec_accent(file.change_type),
        Row::of(file, index).meta.color == Row::of(other, index).meta.color,
        Row::of(file, index).meta.color != spec_accent(file.change_type),
        Row::of(file, index).action.label.color == Row::of(other, index).action.label.color,
        Row::of(file, index).action.label.color != spec_accent(file.change_type),
{
}

} // verus!
