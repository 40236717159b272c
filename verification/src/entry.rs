//! The records of a listing and how they are made from what the filesystem
//! reported.

use crate::date::{modified_string, modified_text, Timestamp};
use crate::decimal::{
    byte_count_value, decimal_string, decimal_text, lemma_decimal_round_trip,
};
use crate::text::opt_text;
use vstd::prelude::*;

verus! {

/// Whether an entry is a directory or anything else.
#[derive(Clone, Copy, Debug, PartialEq, Eq, Structural)]
pub enum EntryKind {
    File,
    Directory,
}

impl EntryKind {
    /// The word shown for the kind.
    pub open spec fn label_text(self) -> Seq<char> {
        match self {
            EntryKind::File => "File"@,
            EntryKind::Directory => "Dir"@,
        }
    }

    /// The kind of an entry, from whether the filesystem calls it a directory.
    pub open spec fn of(is_dir: bool) -> EntryKind {
        if is_dir {
            EntryKind::Directory
        } else {
            EntryKind::File
        }
    }

    /// The word shown for the kind: `File` or `Dir`.
    pub fn label(&self) -> (r: &'static str)
        ensures
            r@ == self.label_text(),
    {
        match self {
            EntryKind::File => "File",
            EntryKind::Directory => "Dir",
        }
    }
}

/// What the filesystem reported for one child of a directory.
#[derive(Debug)]
pub struct EntryMeta {
    /// The base name, or `None` where it is not valid Unicode.
    pub name: Option<String>,
    pub is_dir: bool,
    /// The length in bytes.
    pub len: u64,
    /// The time of the last modification, where the platform has one.
    pub modified: Option<Timestamp>,
    /// The directory's path joined with the entry's name.
    pub path: String,
}

/// An `EntryMeta` with its texts as sequences of characters.
pub struct MetaView {
    pub name: Option<Seq<char>>,
    pub is_dir: bool,
    pub len: u64,
    pub modified: Option<Timestamp>,
    pub path: Seq<char>,
}

impl View for EntryMeta {
    type V = MetaView;

    open spec fn view(&self) -> MetaView {
        MetaView {
            name: opt_text(self.name),
            is_dir: self.is_dir,
            len: self.len,
            modified: self.modified,
            path: self.path@,
        }
    }
}

impl Clone for EntryMeta {
    fn clone(&self) -> (r: Self)
        ensures
            r@ == self@,
    {
        let name = match &self.name {
            Some(n) => Some(n.clone()),
            None => None,
        };
        EntryMeta {
            name,
            is_dir: self.is_dir,
            len: self.len,
            modified: self.modified,
            path: self.path.clone(),
        }
    }
}

/// One record of a listing. `size` is always the decimal numeral of a byte
/// count that fits in 64 bits.
#[derive(Debug)]
pub struct FileEntry {
    name: String,
    kind: EntryKind,
    size: String,
    modified: String,
    path: String,
}

/// A `FileEntry` with its texts as sequences of characters.
pub struct EntryView {
    pub name: Seq<char>,
    pub kind: EntryKind,
    pub size: Seq<char>,
    pub modified: Seq<char>,
    pub path: Seq<char>,
}

impl View for FileEntry {
    type V = EntryView;

    closed spec fn view(&self) -> EntryView {
        EntryView {
            name: self.name@,
            kind: self.kind,
            size: self.size@,
            modified: self.modified@,
            path: self.path@,
        }
    }
}

impl Clone for FileEntry {
    fn clone(&self) -> (r: Self)
        ensures
            r@ == self@,
    {
        proof {
            use_type_invariant(self);
        }
        FileEntry {
            name: self.name.clone(),
            kind: self.kind,
            size: self.size.clone(),
            modified: self.modified.clone(),
            path: self.path.clone(),
        }
    }
}

/// Whether a text is the decimal numeral of a byte count that fits in 64
/// bits: it reads back as such a count, and is written without sign or
/// leading zero.
pub open spec fn is_byte_count_numeral(size: Seq<char>) -> bool {
    byte_count_value(size) matches Some(bytes) && size == decimal_text(bytes as nat)
}

/// The name shown for an entry whose name is not valid Unicode.
pub open spec fn unknown_name_text() -> Seq<char> {
    "unknown name"@
}

/// The record made from its parts: the name or its placeholder, the size as
/// a decimal numeral.
pub open spec fn entry_with(
    name: Option<Seq<char>>,
    kind: EntryKind,
    bytes: u64,
    modified: Seq<char>,
    path: Seq<char>,
) -> EntryView {
    EntryView {
        name: match name {
            Some(n) => n,
            None => unknown_name_text(),
        },
        kind,
        size: decimal_text(bytes as nat),
        modified,
        path,
    }
}

/// The record made from what the filesystem reported for an entry.
pub open spec fn entry_of(meta: MetaView) -> EntryView {
    entry_with(
        meta.name,
        EntryKind::of(meta.is_dir),
        meta.len,
        modified_text(meta.modified),
        meta.path,
    )
}

impl FileEntry {
    /// Holds of every record: its size is the decimal numeral of a byte count
    /// that fits in 64 bits.
    #[verifier::type_invariant]
    pub open spec fn well_formed(&self) -> bool {
        is_byte_count_numeral(self@.size)
    }

    /// Makes a record from its parts. A missing name becomes `unknown name`.
    pub fn new(
        name: Option<String>,
        kind: EntryKind,
        bytes: u64,
        modified: String,
        path: String,
    ) -> (r: FileEntry)
        ensures
            r@ == entry_with(opt_text(name), kind, bytes, modified@, path@),
            r.well_formed(),
    {
        let name = match name {
            Some(n) => n,
            None => "unknown name".to_owned(),
        };
        proof {
            lemma_decimal_round_trip(bytes as nat);
        }
        FileEntry { name, kind, size: decimal_string(bytes), modified, path }
    }

    /// Makes the record of an entry from what the filesystem reported for it.
    pub fn from_meta(meta: &EntryMeta) -> (r: FileEntry)
        ensures
            r@ == entry_of(meta@),
            r.well_formed(),
    {
        let name = match &meta.name {
            Some(n) => Some(n.clone()),
            None => None,
        };
        let kind = if meta.is_dir {
            EntryKind::Directory
        } else {
            EntryKind::File
        };
        FileEntry::new(name, kind, meta.len, modified_string(meta.modified), meta.path.clone())
    }

    pub fn name(&self) -> (r: &str)
        ensures
            r@ == self@.name,
    {
        self.name.as_str()
    }

    pub fn kind(&self) -> (r: EntryKind)
        ensures
            r == self@.kind,
    {
        self.kind
    }

    /// The size as a decimal numeral of bytes.
    pub fn size(&self) -> (r: &str)
        ensures
            r@ == self@.size,
            is_byte_count_numeral(r@),
    {
        proof {
            use_type_invariant(self);
        }
        self.size.as_str()
    }

    /// The date of the last modification, or nothing.
    pub fn modified(&self) -> (r: &str)
        ensures
            r@ == self@.modified,
    {
        self.modified.as_str()
    }

    pub fn path(&self) -> (r: &str)
        ensures
            r@ == self@.path,
    {
        self.path.as_str()
    }
}

} // verus!
