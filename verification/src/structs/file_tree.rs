use vstd::prelude::*;
use crate::enums::change_type::ChangeType;
use crate::enums::effect::Effect;
use crate::enums::message::Message;
use crate::layout::{arrange, arrangement, lemma_tree_emits_applicable_actions};
use crate::panel::Panel;
use crate::structs::file::{views, File, FileView};
use crate::widget::Node;

verus! {

/// The state of the panel: the ordered list of pending changes. The order
/// is the identity of the entries, so nothing but `update` may touch it.
#[derive(Debug)]
pub struct FileTree {
    files: Vec<File>,
}

/// What one entry of the sample list holds.
pub open spec fn sample_entry(
    change_type: ChangeType,
    title: Seq<char>,
    meta: Seq<char>,
    icon: Seq<char>,
) -> FileView {
    FileView { change_type, title, meta, icon }
}

/// The sample list that a new state starts with.
pub open spec fn sample() -> Seq<FileView> {
    seq![
        sample_entry(ChangeType::Added, "Added"@, "Manlajra  •  By Hassan, Mar 5"@, "●"@),
        sample_entry(ChangeType::Deleted, "Deleted"@, "Manlajra  •  By Hassan, Mar 5"@, "●"@),
        sample_entry(ChangeType::Deleted, "Deleted"@, "Manlajra  •  By Hassan, Mar 5"@, "●"@),
        sample_entry(ChangeType::Deleted, "Deleted"@, "Manlajra  •  By Hassan, Mar 5"@, "●"@),
        sample_entry(ChangeType::Deleted, "Deleted"@, "Manlajra  •  By Hassan, Mar 5"@, "●"@),
        sample_entry(ChangeType::Modified, "Modified"@, "Manlajra  •  By Hassan, Mar 5"@, "●"@),
        sample_entry(ChangeType::Modified, "Modified"@, "Hasssan  •  By Hassan, Mar 5"@, "△"@),
        sample_entry(ChangeType::Added, "Modified"@, "Mar 5  •  By Hassan, Mar 5"@, "^"@),
        sample_entry(ChangeType::Modified, "Modified"@, "Mar 5  •  By Hassan, Mar 5"@, "●"@),
        sample_entry(ChangeType::Deleted, "A foó"@, "Mar 5  •  By Hassan, Mar 5"@, "●"@),
        sample_entry(ChangeType::Deleted, "Modified"@, "Mar 5  •  By Hassan, Mar 5"@, "^"@),
        sample_entry(ChangeType::Modified, "Modified"@, "Mar 5  •  By Hassan, Mar 5"@, "○"@),
        sample_entry(ChangeType::Deleted, "Modified"@, "Mar 5  •  By Hassan, Mar 5"@, "□"@),
    ]
}

impl FileTree {
    /// The entries of the list, in order.
    pub closed spec fn entries(&self) -> Seq<FileView> {
        views(self.files@)
    }

    /// A state that holds the sample list.
    pub fn new() -> (tree: FileTree)
        ensures
            tree.entries() == sample(),
    {
        let mut files: Vec<File> = Vec::new();
        files.push(File::new(ChangeType::Added, "Added", "Manlajra  •  By Hassan, Mar 5", "●"));
        files.push(File::new(ChangeType::Deleted, "Deleted", "Manlajra  •  By Hassan, Mar 5", "●"));
        files.push(File::new(ChangeType::Deleted, "Deleted", "Manlajra  •  By Hassan, Mar 5", "●"));
        files.push(File::new(ChangeType::Deleted, "Deleted", "Manlajra  •  By Hassan, Mar 5", "●"));
        files.push(File::new(ChangeType::Deleted, "Deleted", "Manlajra  •  By Hassan, Mar 5", "●"));
        files.push(File::new(ChangeType::Modified, "Modified", "Manlajra  •  By Hassan, Mar 5", "●"));
        files.push(File::new(ChangeType::Modified, "Modified", "Hasssan  •  By Hassan, Mar 5", "△"));
        files.push(File::new(ChangeType::Added, "Modified", "Mar 5  •  By Hassan, Mar 5", "^"));
        files.push(File::new(ChangeType::Modified, "Modified", "Mar 5  •  By Hassan, Mar 5", "●"));
        files.push(File::new(ChangeType::Deleted, "A foó", "Mar 5  •  By Hassan, Mar 5", "●"));
        files.push(File::new(ChangeType::Deleted, "Modified", "Mar 5  •  By Hassan, Mar 5", "^"));
        files.push(File::new(ChangeType::Modified, "Modified", "Mar 5  •  By Hassan, Mar 5", "○"));
        files.push(File::new(ChangeType::Deleted, "Modified", "Mar 5  •  By Hassan, Mar 5", "□"));
        assert(views(files@) =~= sample());
        FileTree { files }
    }

    /// A state that holds the given list, as it is.
    pub fn from_files(files: Vec<File>) -> (tree: FileTree)
        ensures
            tree.entries() == views(files@),
    {
        FileTree { files }
    }

    /// The list of entries.
    pub fn files(&self) -> (files: &Vec<File>)
        ensures
            views(files@) == self.entries(),
    {
        &self.files
    }

    /// The number of entries.
    pub fn len(&self) -> (len: usize)
        ensures
            len == self.entries().len(),
    {
        self.files.len()
    }

    /// Applies one action and returns what the host has to do about it, in
    /// order. Every action yields one effect for the intent sink: a
    /// notification, or, where the action names a row that the list does not
    /// have, the report of a stale index. No action changes the list.
    pub fn update(&mut self, message: Message) -> (effects: Vec<Effect>)
        ensures
            final(self).entries() == old(self).entries(),
            effects@ == seq![Effect::of(message, old(self).entries().len())],
    {
        let applies = match message.index() {
            Some(i) => i < self.files.len(),
            None => true,
        };
        let effect = if applies {
            Effect::Notify(message)
        } else {
            Effect::StaleIndex(message)
        };
        let mut effects: Vec<Effect> = Vec::new();
        effects.push(effect);
        assert(effects@ =~= seq![effect]);
        effects
    }

    /// Derives what the panel shows from the state: the texts, the buttons
    /// and the action bound to each. It depends on the entries and on
    /// nothing else.
    pub fn panel(&self) -> (panel: Panel)
        ensures
            panel@ == Panel::of(self.entries()),
    {
        Panel::compose(&self.files)
    }

    /// Derives the tree of widgets that the host draws: the panel of the
    /// state, laid out. It depends on the entries and on nothing else.
    pub fn view(&self) -> (tree: Node)
        ensures
            tree.model() == arrangement(Panel::of(self.entries())),
    {
        arrange(&self.panel())
    }
}

impl Default for FileTree {
    fn default() -> (tree: FileTree)
        ensures
            tree.entries() == sample(),
    {
        FileTree::new()
    }
}

/// Rendering is deterministic: states that hold the same entries are shown
/// by the same tree of widgets, whenever and however often it is derived.
pub proof fn lemma_view_is_deterministic(first: FileTree, second: FileTree, a: Node, b: Node)
    requires
        first.entries() == second.entries(),
        a.model() == arrangement(Panel::of(first.entries())),
        b.model() == arrangement(Panel::of(second.entries())),
    ensures
        a.model() == b.model(),
{
}

/// An action that the tree emits is taken by the state that the tree was
/// derived from: wherever the tree is activated, the effect of what it
/// emits is a notification, never a stale index.
pub proof fn lemma_rendered_actions_are_taken(tree: FileTree, path: Seq<usize>, emitted: Message)
    requires
        arrangement(Panel::of(tree.entries())).emitted(path) == Some(emitted),
    ensures
        Effect::of(emitted, tree.entries().len()) == Effect::Notify(emitted),
{
    assert(tree.entries().len() == tree.files.len());
    lemma_tree_emits_applicable_actions(tree.entries(), path, emitted);
}

} // verus!
