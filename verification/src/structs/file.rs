use vstd::prelude::*;
use vstd::string::StringExecFns;
use crate::enums::change_type::ChangeType;

verus! {

/// One reviewable entry of the list. It has no identity but its position in
/// the list that owns it. The icon is free text: nothing ties it to the kind.
#[derive(Debug, Clone, PartialEq, Eq)]
pub struct File {
    pub change_type: ChangeType,
    pub title: String,
    /// The line that says who made the change, and when.
    pub meta: String,
    pub icon: String,
}

/// What an entry holds, with its texts as sequences of characters.
pub struct FileView {
    pub change_type: ChangeType,
    pub title: Seq<char>,
    pub meta: Seq<char>,
    pub icon: Seq<char>,
}

impl View for File {
    type V = FileView;

    open spec fn view(&self) -> FileView {
        FileView {
            change_type: self.change_type,
            title: self.title@,
            meta: self.meta@,
            icon: self.icon@,
        }
    }
}

/// The entries of a list, each by its view, in the list's order.
pub open spec fn views(files: Seq<File>) -> Seq<FileView> {
    Seq::new(files.len(), |i: int| files[i]@)
}

impl File {
    /// An entry with the given texts.
    pub fn new(change_type: ChangeType, title: &str, meta: &str, icon: &str) -> (file: File)
        ensures
            file@ == (FileView { change_type, title: title@, meta: meta@, icon: icon@ }),
    {
        File {
            change_type,
            title: String::from_str(title),
            meta: String::from_str(meta),
            icon: String::from_str(icon),
        }
    }
}

} // verus!
