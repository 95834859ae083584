//! The files of the configuration directory as a watcher of that directory
//! learns of them.

use vstd::prelude::*;

verus! {

/// What happened to a file of the watched directory.
#[derive(Debug, Clone, Copy, PartialEq, Eq, Structural)]
pub enum FileEventKind {
    Create,
    Modify,
    Remove,
    /// Access and other events, which change nothing.
    Other,
}

/// The files seen so far: each path with the contents read when it
/// appeared, in the order they appeared.
pub struct WatchedFiles {
    pub files: Vec<(String, String)>,
}

/// The files' paths and contents.
pub open spec fn files_view(files: Seq<(String, String)>) -> Seq<(Seq<char>, Seq<char>)> {
    files.map_values(|f: (String, String)| (f.0@, f.1@))
}

impl WatchedFiles {
    /// No files yet.
    pub fn new() -> (w: WatchedFiles)
        ensures
            w.files@.len() == 0,
    {
        WatchedFiles { files: Vec::new() }
    }

    /// Takes in one event for the file at `path`; `contents` is what reading
    /// the file gave, or `None` where it could not be read. A created file
    /// that could be read is added with its contents; changes to and
    /// removals of files are not handled yet.
    pub fn handle_file_event(&mut self, kind: FileEventKind, path: String, contents: Option<String>)
        requires
            kind != FileEventKind::Modify,
            kind != FileEventKind::Remove,
        ensures
            kind == FileEventKind::Create && contents is Some ==> files_view(final(self).files@)
                == files_view(old(self).files@).push((path@, contents->Some_0@)),
            !(kind == FileEventKind::Create && contents is Some) ==> final(self).files@ == old(self).files@,
    {
        match kind {
            FileEventKind::Create => match contents {
                Some(c) => {
                    let ghost p = path@;
                    let ghost cv = c@;
                    self.files.push((path, c));
                    assert(files_view(self.files@) =~= files_view(old(self).files@).push((p, cv)));
                },
                None => {},
            },
            _ => {},
        }
    }
}

} // verus!
