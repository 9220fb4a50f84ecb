//! The record kept for each child of a listed directory, and how it is made
//! from what the filesystem reported.
use vstd::prelude::*;

use crate::date::{format_modified, modified_label, Timestamp};

verus! {

/// Whether a child is a directory or anything else.
#[derive(Clone, Copy, Debug, PartialEq, Eq, Structural)]
pub enum FileType {
    File,
    Dir,
}

pub open spec fn file_type_label(t: FileType) -> Seq<char> {
    match t {
        FileType::File => seq!['F', 'i', 'l', 'e'],
        FileType::Dir => seq!['D', 'i', 'r'],
    }
}

impl FileType {
    /// The display string of the kind: `"File"` or `"Dir"`.
    pub fn as_str(&self) -> (r: &'static str)
        ensures
            r@ == file_type_label(*self),
    {
        match self {
            FileType::File => {
                proof {
                    reveal_strlit("File");
                }
                "File"
            },
            FileType::Dir => {
                proof {
                    reveal_strlit("Dir");
                }
                "Dir"
            },
        }
    }
}

/// One record per child of a listed directory.
#[derive(Debug)]
pub struct FileEntry {
    pub name: String,
    pub len_bytes: u64,
    pub last_modified: String,
    pub file_type: FileType,
}

/// What a `FileEntry` holds, as mathematical values.
pub ghost struct EntryView {
    pub name: Seq<char>,
    pub len_bytes: u64,
    pub last_modified: Seq<char>,
    pub file_type: FileType,
}

impl View for FileEntry {
    type V = EntryView;

    open spec fn view(&self) -> EntryView {
        EntryView {
            name: self.name@,
            len_bytes: self.len_bytes,
            last_modified: self.last_modified@,
            file_type: self.file_type,
        }
    }
}

/// The records of a sequence of entries.
pub open spec fn entries_view(v: Seq<FileEntry>) -> Seq<EntryView> {
    v.map_values(|e: FileEntry| e@)
}

pub open spec fn unknown_name() -> Seq<char> {
    seq!['U', 'N', 'K', 'N', 'O', 'W', 'N']
}

/// The record that stands for a child whose metadata could not be read.
pub open spec fn fallback_view() -> EntryView {
    EntryView {
        name: unknown_name(),
        len_bytes: 0,
        last_modified: Seq::empty(),
        file_type: FileType::File,
    }
}

/// The fallback record: name `"UNKNOWN"`, size 0, no date, kind `File`.
pub fn fallback_entry() -> (r: FileEntry)
    ensures
        r@ == fallback_view(),
{
    proof {
        reveal_strlit("UNKNOWN");
    }
    let r = FileEntry {
        name: String::from_str("UNKNOWN"),
        len_bytes: 0,
        last_modified: String::new(),
        file_type: FileType::File,
    };
    assert(r.name@ =~= unknown_name());
    assert(r.last_modified@ =~= Seq::<char>::empty());
    r
}

/// What the filesystem reported of a child: its size, its modification
/// time where known, and whether it is a directory.
#[derive(Clone, Copy, Debug, PartialEq, Eq, Structural)]
pub struct EntryMetadata {
    pub len: u64,
    pub modified: Option<Timestamp>,
    pub is_dir: bool,
}

/// A child yielded by the directory iteration: its name where it is valid
/// text, and its metadata where it could be read.
#[derive(Debug)]
pub struct DirChild {
    pub name: Option<String>,
    pub metadata: Option<EntryMetadata>,
}

/// The record of a child.
pub open spec fn child_view(c: DirChild) -> EntryView {
    match c.metadata {
        None => fallback_view(),
        Some(m) => EntryView {
            name: match c.name {
                Some(n) => n@,
                None => unknown_name(),
            },
            len_bytes: m.len,
            last_modified: modified_label(m.modified),
            file_type: if m.is_dir {
                FileType::Dir
            } else {
                FileType::File
            },
        },
    }
}

/// Makes the record of one child. Where its metadata is missing the record
/// is the fallback one, whatever the name.
pub fn map_data(c: &DirChild) -> (r: FileEntry)
    ensures
        r@ == child_view(*c),
        c.metadata is None ==> r@ == fallback_view(),
{
    match &c.metadata {
        None => fallback_entry(),
        Some(m) => {
            let name = match &c.name {
                Some(n) => n.clone(),
                None => {
                    proof {
                        reveal_strlit("UNKNOWN");
                    }
                    let u = String::from_str("UNKNOWN");
                    assert(u@ =~= unknown_name());
                    u
                },
            };
            let file_type = if m.is_dir {
                FileType::Dir
            } else {
                FileType::File
            };
            FileEntry {
                name,
                len_bytes: m.len,
                last_modified: format_modified(m.modified),
                file_type,
            }
        },
    }
}

/// The children that the iteration yielded, in order, without the failed
/// steps.
pub open spec fn yielded(s: Seq<Option<DirChild>>) -> Seq<DirChild>
    decreases s.len(),
{
    if s.len() == 0 {
        Seq::empty()
    } else {
        let rest = yielded(s.drop_last());
        match s.last() {
            Some(c) => rest.push(c),
            None => rest,
        }
    }
}

/// The records of a listing: one per yielded child, in the order of the
/// iteration; none where the directory could not be opened.
pub open spec fn listing_view(dir: Option<Vec<Option<DirChild>>>) -> Seq<EntryView> {
    match dir {
        Some(s) => yielded(s@).map_values(|c: DirChild| child_view(c)),
        None => Seq::empty(),
    }
}

/// Makes the records of a directory's children. `dir` is `None` where the
/// directory could not be opened; each step of its iteration is `None`
/// where it failed.
pub fn get_files(dir: &Option<Vec<Option<DirChild>>>) -> (r: Vec<FileEntry>)
    ensures
        r@.map_values(|e: FileEntry| e@) == listing_view(*dir),
{
    let mut data: Vec<FileEntry> = Vec::new();
    match dir {
        None => {},
        Some(steps) => {
            let mut i: usize = 0;
            while i < steps.len()
                invariant
                    i <= steps@.len(),
                    data@.map_values(|e: FileEntry| e@) == yielded(steps@.take(i as int)).map_values(
                        |c: DirChild| child_view(c),
                    ),
                decreases steps@.len() - i,
            {
                let ghost before = data@;
                assert(steps@.take(i as int + 1).drop_last() =~= steps@.take(i as int));
                assert(steps@.take(i as int + 1).last() == steps@[i as int]);
                let ghost prev = yielded(steps@.take(i as int));
                match &steps[i] {
                    Some(c) => {
                        let e = map_data(c);
                        data.push(e);
                        assert(yielded(steps@.take(i as int + 1)) == prev.push(*c));
                        assert(prev.push(*c).map_values(|c: DirChild| child_view(c)) =~= prev.map_values(
                            |c: DirChild| child_view(c),
                        ).push(child_view(*c)));
                        assert(data@.map_values(|e: FileEntry| e@) =~= before.map_values(
                            |e: FileEntry| e@,
                        ).push(e@));
                    },
                    None => {
                        assert(yielded(steps@.take(i as int + 1)) == prev);
                    },
                }
                assert(data@.map_values(|e: FileEntry| e@) =~= yielded(steps@.take(i as int + 1)).map_values(
                    |c: DirChild| child_view(c),
                ));
                i = i + 1;
            }
            assert(steps@.take(steps@.len() as int) =~= steps@);
        },
    }
    data
}

} // verus!
