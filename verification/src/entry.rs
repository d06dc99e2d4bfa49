use vstd::prelude::*;
use vstd::string::StringExecFns;

verus! {

/// What an entry of a directory tree is.
#[derive(Debug, Clone, Copy, PartialEq, Eq, Structural)]
pub enum EntryKind {
    File,
    Directory,
    Symlink,
    HardLink,
}

/// One entry of a directory tree, held in memory.
#[derive(Debug, Clone, PartialEq, Eq)]
pub struct Entry {
    /// Where the entry lies below the root of the tree, with `/` between
    /// the names.
    pub path: String,
    pub kind: EntryKind,
    /// The permission bits.
    pub mode: u32,
    /// When the entry was last modified, in seconds since 1970.
    pub mtime: u64,
    /// The content of a file; empty for every other kind.
    pub data: Vec<u8>,
    /// The target of a link; empty for every other kind.
    pub link: String,
}

/// An entry as contracts speak of it.
pub ghost struct Member {
    pub path: Seq<char>,
    pub kind: EntryKind,
    pub mode: u32,
    pub mtime: u64,
    pub data: Seq<u8>,
    pub link: Seq<char>,
}

impl View for Entry {
    type V = Member;

    open spec fn view(&self) -> Member {
        Member {
            path: self.path@,
            kind: self.kind,
            mode: self.mode,
            mtime: self.mtime,
            data: self.data@,
            link: self.link@,
        }
    }
}

/// The entries as contracts speak of them.
pub open spec fn members(entries: Seq<Entry>) -> Seq<Member> {
    entries.map_values(|e: Entry| e@)
}

/// The permission bits given to a file whose own are not known.
pub const FILE_MODE: u32 = 0o644;

/// The permission bits given to a directory whose own are not known.
pub const DIRECTORY_MODE: u32 = 0o755;

impl EntryKind {
    /// The permission bits of an entry of this kind whose own are not known.
    pub open spec fn spec_default_mode(self) -> u32 {
        if self == EntryKind::Directory {
            DIRECTORY_MODE
        } else {
            FILE_MODE
        }
    }

    /// The permission bits of an entry of this kind whose own are not known.
    pub fn default_mode(self) -> (mode: u32)
        ensures
            mode == self.spec_default_mode(),
    {
        match self {
            EntryKind::Directory => DIRECTORY_MODE,
            _ => FILE_MODE,
        }
    }

    /// Whether an entry of this kind points at another one.
    pub open spec fn spec_is_link(self) -> bool {
        self == EntryKind::Symlink || self == EntryKind::HardLink
    }

    /// Whether an entry of this kind points at another one.
    pub fn is_link(self) -> (r: bool)
        ensures
            r == self.spec_is_link(),
    {
        match self {
            EntryKind::Symlink | EntryKind::HardLink => true,
            _ => false,
        }
    }
}

impl Entry {
    /// A regular file with the given content, the default mode and no time.
    pub fn file(path: &str, data: Vec<u8>) -> (e: Entry)
        ensures
            e@ == (Member {
                path: path@,
                kind: EntryKind::File,
                mode: FILE_MODE,
                mtime: 0,
                data: data@,
                link: Seq::empty(),
            }),
    {
        Entry {
            path: String::from_str(path),
            kind: EntryKind::File,
            mode: FILE_MODE,
            mtime: 0,
            data,
            link: String::new(),
        }
    }

    /// A directory with the default mode and no time.
    pub fn directory(path: &str) -> (e: Entry)
        ensures
            e@ == (Member {
                path: path@,
                kind: EntryKind::Directory,
                mode: DIRECTORY_MODE,
                mtime: 0,
                data: Seq::empty(),
                link: Seq::empty(),
            }),
    {
        Entry {
            path: String::from_str(path),
            kind: EntryKind::Directory,
            mode: DIRECTORY_MODE,
            mtime: 0,
            data: Vec::new(),
            link: String::new(),
        }
    }

    /// A symbolic link to the given target, with the default mode and no
    /// time.
    pub fn symlink(path: &str, target: &str) -> (e: Entry)
        ensures
            e@ == (Member {
                path: path@,
                kind: EntryKind::Symlink,
                mode: FILE_MODE,
                mtime: 0,
                data: Seq::empty(),
                link: target@,
            }),
    {
        Entry {
            path: String::from_str(path),
            kind: EntryKind::Symlink,
            mode: FILE_MODE,
            mtime: 0,
            data: Vec::new(),
            link: String::from_str(target),
        }
    }
}

} // verus!
