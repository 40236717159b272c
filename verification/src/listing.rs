//! The listing of one directory: a record for each child whose metadata could
//! be read, in the order in which the filesystem gave the children.

use crate::entry::{entry_of, EntryMeta, EntryView, FileEntry, MetaView};
use vstd::prelude::*;

verus! {

/// The records of a vector, each by its view.
pub open spec fn entries_view(entries: Seq<FileEntry>) -> Seq<EntryView> {
    entries.map_values(|e: FileEntry| e@)
}

/// The outcome of reading one child: its metadata, or `None` where the read
/// failed.
pub open spec fn read_view(read: Option<EntryMeta>) -> Option<MetaView> {
    match read {
        Some(meta) => Some(meta@),
        None => None,
    }
}

/// The outcomes of reading the children of a directory, each by its view.
pub open spec fn reads_view(reads: Seq<Option<EntryMeta>>) -> Seq<Option<MetaView>> {
    reads.map_values(|r: Option<EntryMeta>| read_view(r))
}

/// The listing that a run of reads gives: the record of each read that
/// succeeded, in order; a failed read leaves no trace.
pub open spec fn listed(reads: Seq<Option<MetaView>>) -> Seq<EntryView>
    decreases reads.len(),
{
    if reads.len() == 0 {
        Seq::empty()
    } else {
        match reads.last() {
            Some(meta) => listed(reads.drop_last()).push(entry_of(meta)),
            None => listed(reads.drop_last()),
        }
    }
}

/// How many of the reads failed.
pub open spec fn failed_reads(reads: Seq<Option<MetaView>>) -> nat
    decreases reads.len(),
{
    if reads.len() == 0 {
        0
    } else if reads.last() is None {
        failed_reads(reads.drop_last()) + 1
    } else {
        failed_reads(reads.drop_last())
    }
}

/// A listing holds one record for each read that succeeded: as many records
/// as children when every read succeeded, fewer when some read failed.
pub proof fn lemma_listed_len(reads: Seq<Option<MetaView>>)
    ensures
        listed(reads).len() + failed_reads(reads) == reads.len(),
        (forall|i: int| 0 <= i < reads.len() ==> reads[i] is Some) ==> listed(reads).len()
            == reads.len(),
        (exists|i: int| 0 <= i < reads.len() && reads[i] is None) ==> listed(reads).len()
            < reads.len(),
    decreases reads.len(),
{
    if reads.len() > 0 {
        let rest = reads.drop_last();
        lemma_listed_len(rest);
        assert forall|i: int| 0 <= i < rest.len() implies rest[i] == reads[i] by {}
    }
}

/// Adds the record of one child to a listing, or nothing where reading the
/// child failed.
pub fn push_read(data: &mut Vec<FileEntry>, read: &Option<EntryMeta>)
    ensures
        entries_view(final(data)@) == match read_view(*read) {
            Some(meta) => entries_view(old(data)@).push(entry_of(meta)),
            None => entries_view(old(data)@),
        },
{
    match read {
        Some(meta) => {
            let entry = FileEntry::from_meta(meta);
            data.push(entry);
        },
        None => {},
    }
}

/// Lists a directory from the outcomes of reading its children.
pub fn list_entries(reads: &Vec<Option<EntryMeta>>) -> (r: Vec<FileEntry>)
    ensures
        entries_view(r@) == listed(reads_view(reads@)),
        r@.len() + failed_reads(reads_view(reads@)) == reads@.len(),
        (forall|i: int| 0 <= i < reads@.len() ==> reads@[i] is Some) ==> r@.len() == reads@.len(),
        (exists|i: int| 0 <= i < reads@.len() && reads@[i] is None) ==> r@.len() < reads@.len(),
{
    let mut data: Vec<FileEntry> = Vec::new();
    let mut i: usize = 0;
    while i < reads.len()
        invariant
            i <= reads.len(),
            entries_view(data@) == listed(reads_view(reads@).take(i as int)),
        decreases reads.len() - i,
    {
        proof {
            let next = reads_view(reads@).take(i + 1);
            assert(next.drop_last() =~= reads_view(reads@).take(i as int));
        }
        push_read(&mut data, &reads[i]);
        i += 1;
    }
    proof {
        let views = reads_view(reads@);
        assert(views.take(i as int) =~= views);
        lemma_listed_len(views);
        if exists|k: int| 0 <= k < reads@.len() && reads@[k] is None {
            let k = choose|k: int| 0 <= k < reads@.len() && reads@[k] is None;
            assert(views[k] is None);
        }
        assert forall|k: int| 0 <= k < views.len() && reads@[k] is Some implies views[k] is Some by {}
    }
    data
}

} // verus!
