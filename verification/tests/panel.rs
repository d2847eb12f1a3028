use review_panel::enums::change_type::ChangeType;
use review_panel::enums::message::Message;
use review_panel::panel::{action_message, ActionButton, Panel, Row, Target};
use review_panel::widget::{Label, Padding};
use review_panel::structs::file::File;
use review_panel::structs::file_tree::FileTree;
use review_panel::style::{Color, Role};

const GREEN: Color = Color { r: 0x7b, g: 0xfd, b: 0x6b, a: 255 };
const AMBER: Color = Color { r: 0xff, g: 0x9f, b: 0x4d, a: 255 };
const RED: Color = Color { r: 0xff, g: 0x57, b: 0x57, a: 255 };
const NEUTRAL: Color = Color { r: 0x6b, g: 0x72, b: 0x80, a: 255 };
const PRIMARY: Color = Color { r: 0xeb, g: 0xf4, b: 0xff, a: 255 };
const ON_BUTTON: Color = Color { r: 0xdb, g: 0xea, b: 0xfe, a: 255 };

fn label(content: &str, size: u16, color: Color) -> Label {
    Label { content: content.to_string(), size, color }
}

fn numbered(count: usize) -> Vec<File> {
    let kinds = [ChangeType::Added, ChangeType::Modified, ChangeType::Deleted];
    let mut files = Vec::new();
    for i in 0..count {
        files.push(File::new(kinds[i % 3], &format!("change {}", i), &format!("meta {}", i), &format!("g{}", i)));
    }
    files
}

#[test]
fn label_new_keeps_its_arguments() {
    assert_eq!(Label::new("text".to_string(), 131, NEUTRAL), label("text", 131, NEUTRAL));
}

#[test]
fn action_message_depends_on_the_kind() {
    assert_eq!(action_message(ChangeType::Added, 4), Message::ReviewChange(4));
    assert_eq!(action_message(ChangeType::Modified, 4), Message::IgnoreChange(4));
    assert_eq!(action_message(ChangeType::Deleted, 0), Message::IgnoreChange(0));
}

#[test]
fn row_of_an_added_entry() {
    let file = File::new(ChangeType::Added, "lib.rs", "Mar 5  •  By Hassan, Mar 5", "^");
    assert_eq!(
        Row::compose(&file, 2),
        Row {
            glyph: label("^", 112, GREEN),
            title: label("lib.rs", 152, GREEN),
            meta: label("Mar 5  •  By Hassan, Mar 5", 131, NEUTRAL),
            action: ActionButton {
                label: label("Review", 130, ON_BUTTON),
                padding: Padding { vertical: 6, horizontal: 20 },
                role: Role::SecondaryButton,
                on_press: Message::ReviewChange(2),
            },
            padding: Padding { vertical: 12, horizontal: 10 },
            role: Role::RowSurface,
            on_press: Message::RowClicked(2),
        }
    );
}

#[test]
fn row_of_a_modified_and_of_a_deleted_entry() {
    let modified = Row::compose(&File::new(ChangeType::Modified, "a", "b", "c"), 5);
    assert_eq!(modified.glyph, label("c", 112, AMBER));
    assert_eq!(modified.title, label("a", 152, AMBER));
    assert_eq!(modified.meta, label("b", 131, NEUTRAL));
    assert_eq!(modified.action.label, label("Ignore", 130, ON_BUTTON));
    assert_eq!(modified.action.on_press, Message::IgnoreChange(5));
    assert_eq!(modified.on_press, Message::RowClicked(5));
    let deleted = Row::compose(&File::new(ChangeType::Deleted, "a", "b", "c"), 0);
    assert_eq!(deleted.glyph.color, RED);
    assert_eq!(deleted.title.color, RED);
    assert_eq!(deleted.meta.color, NEUTRAL);
    assert_eq!(deleted.action.label.content, "Ignore");
    assert_eq!(deleted.action.on_press, Message::IgnoreChange(0));
}

#[test]
fn row_action_binding() {
    let panel = FileTree::from_files(vec![
        File::new(ChangeType::Deleted, "Deleted", "m", "●"),
        File::new(ChangeType::Modified, "Modified", "m", "●"),
        File::new(ChangeType::Added, "Added", "m", "●"),
    ])
    .panel();
    assert_eq!(panel.rows[2].action.label.content, "Review");
    assert_eq!(panel.rows[2].action.on_press, Message::ReviewChange(2));
    assert_eq!(panel.rows[0].action.label.content, "Ignore");
    assert_eq!(panel.rows[0].action.on_press, Message::IgnoreChange(0));
    assert_eq!(panel.rows[1].action.label.content, "Ignore");
    assert_eq!(panel.rows[1].action.on_press, Message::IgnoreChange(1));
}

#[test]
fn row_action_binding_in_the_sample() {
    let tree = FileTree::new();
    let panel = tree.panel();
    for (i, file) in tree.files().iter().enumerate() {
        let action = &panel.rows[i].action;
        if file.change_type == ChangeType::Added {
            assert_eq!(action.label.content, "Review");
            assert_eq!(action.on_press, Message::ReviewChange(i));
        } else {
            assert_eq!(action.label.content, "Ignore");
            assert_eq!(action.on_press, Message::IgnoreChange(i));
        }
        assert_eq!(panel.rows[i].on_press, Message::RowClicked(i));
    }
}

#[test]
fn inner_button_emits_its_own_action_only() {
    let panel = FileTree::from_files(vec![
        File::new(ChangeType::Deleted, "Deleted", "m", "●"),
        File::new(ChangeType::Added, "Added", "m", "●"),
    ])
    .panel();
    assert_eq!(panel.activate(Target::RowAction(0)), Some(Message::IgnoreChange(0)));
    assert_ne!(panel.activate(Target::RowAction(0)), Some(Message::RowClicked(0)));
    assert_eq!(panel.activate(Target::RowSurface(0)), Some(Message::RowClicked(0)));
    assert_eq!(panel.activate(Target::RowAction(1)), Some(Message::ReviewChange(1)));
    assert_eq!(panel.activate(Target::RowSurface(1)), Some(Message::RowClicked(1)));
}

#[test]
fn activation_of_the_large_buttons() {
    let panel = FileTree::new().panel();
    assert_eq!(panel.activate(Target::AcceptAll), Some(Message::AcceptAll));
    assert_eq!(panel.activate(Target::Finish), Some(Message::FinishReview));
}

#[test]
fn activation_of_a_missing_row_emits_nothing() {
    let panel = FileTree::new().panel();
    assert_eq!(panel.activate(Target::RowAction(13)), None);
    assert_eq!(panel.activate(Target::RowSurface(13)), None);
    assert_eq!(panel.activate(Target::RowAction(usize::MAX)), None);
    let empty = FileTree::from_files(Vec::new()).panel();
    assert_eq!(empty.activate(Target::RowAction(0)), None);
    assert_eq!(empty.activate(Target::RowSurface(0)), None);
}

#[test]
fn panel_is_deterministic() {
    let tree = FileTree::new();
    assert_eq!(tree.panel(), tree.panel());
    let first = FileTree::from_files(numbered(7));
    let second = FileTree::from_files(numbered(7));
    assert_eq!(first.panel(), second.panel());
    assert_eq!(Panel::compose(first.files()), first.panel());
}

#[test]
fn panel_is_the_same_after_updates() {
    let mut tree = FileTree::new();
    let before = tree.panel();
    tree.update(Message::AcceptAll);
    tree.update(Message::IgnoreChange(1));
    tree.update(Message::ReviewChange(40));
    assert_eq!(tree.panel(), before);
}

#[test]
fn hundred_items_give_hundred_rows_in_order() {
    let files = numbered(100);
    let panel = FileTree::from_files(files.clone()).panel();
    assert_eq!(panel.rows.len(), 100);
    for (i, file) in files.iter().enumerate() {
        assert_eq!(panel.rows[i], Row::compose(file, i));
        assert_eq!(panel.rows[i].title.content, format!("change {}", i));
        assert_eq!(panel.rows[i].meta.content, format!("meta {}", i));
        assert_eq!(panel.rows[i].glyph.content, format!("g{}", i));
        assert_eq!(panel.rows[i].on_press, Message::RowClicked(i));
    }
}

#[test]
fn empty_list_gives_no_rows() {
    let panel = FileTree::from_files(Vec::new()).panel();
    assert!(panel.rows.is_empty());
    assert_eq!(panel.summary.len(), 3);
    assert_eq!(panel.accept_all.on_press, Message::AcceptAll);
    assert_eq!(panel.finish.on_press, Message::FinishReview);
}

#[test]
fn header_and_footer() {
    let panel = FileTree::new().panel();
    assert_eq!(panel.title, label("All Changes", 320, PRIMARY));
    assert_eq!(
        panel.accept_all,
        ActionButton {
            label: label("Accept All", 140, ON_BUTTON),
            padding: Padding { vertical: 6, horizontal: 22 },
            role: Role::AcceptAllButton,
            on_press: Message::AcceptAll,
        }
    );
    assert_eq!(
        panel.finish,
        ActionButton {
            label: label("Finish Review", 140, ON_BUTTON),
            padding: Padding { vertical: 6, horizontal: 22 },
            role: Role::FinishButton,
            on_press: Message::FinishReview,
        }
    );
}

#[test]
fn summary_lines() {
    let panel = FileTree::new().panel();
    assert_eq!(
        panel.summary,
        vec![
            label("ANALYSIS SUMMARY", 144, Color { r: 0xff, g: 0xcc, b: 0x4d, a: 255 }),
            label(
                "Found 15 critical issues across multiple categories: 8 security vulnerabilities (SQL injection risks), 3 bugs (type mismatches and typos), 2 performance issues (N+1 queries and large file processing), 12 clean code violations (long methods, large classes, magic numbers), 8 architecture issues (business logic in resolvers, missing service layer), and 6 duplicate code patterns (repeated validation, CRUD operations, query building).",
                131,
                PRIMARY,
            ),
            label(
                "Most critical are the SQL injection vulnerabilities from string concatenation in query building.",
                131,
                RED,
            ),
        ]
    );
}

#[test]
fn sample_rows() {
    let panel = FileTree::new().panel();
    assert_eq!(panel.rows.len(), 13);
    assert_eq!(panel.rows[0].glyph, label("●", 112, GREEN));
    assert_eq!(panel.rows[0].title, label("Added", 152, GREEN));
    assert_eq!(panel.rows[0].meta, label("Manlajra  •  By Hassan, Mar 5", 131, NEUTRAL));
    assert_eq!(panel.rows[6].glyph, label("△", 112, AMBER));
    assert_eq!(panel.rows[7].title, label("Modified", 152, GREEN));
    assert_eq!(panel.rows[7].action.on_press, Message::ReviewChange(7));
    assert_eq!(panel.rows[9].title, label("A foó", 152, RED));
    assert_eq!(panel.rows[12].glyph, label("□", 112, RED));
    assert_eq!(panel.rows[12].action.on_press, Message::IgnoreChange(12));
}
