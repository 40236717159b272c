//! The walk over directories: a queue of pending paths, served first in first
//! out, and what is shown for each path that leaves it.

use crate::entry::{EntryKind, EntryMeta, EntryView, FileEntry, MetaView};
use crate::json::{listing_json_text, render_json};
use crate::listing::{entries_view, list_entries, listed, reads_view};
use crate::table::{render_table, styled_table_text, table_cells};
use crate::text::texts;
use crate::warn::{missing_text, missing_warning, unreadable_text, unreadable_warning};
use std::collections::VecDeque;
use vstd::prelude::*;

verus! {

/// How to list: as JSON in place of a table, with sizes in binary units in
/// the table, and going down into subdirectories.
#[derive(Clone, Copy, Debug, PartialEq, Eq, Structural)]
pub struct Options {
    pub json: bool,
    pub clarity: bool,
    pub recursive: bool,
}

/// What the filesystem answered for a path that left the queue.
#[derive(Debug)]
pub enum Outcome {
    /// The path does not exist.
    Missing,
    /// Whether the path exists could not be found out.
    Unreadable,
    /// The path exists; these are the outcomes of reading its children, in
    /// the order in which the filesystem gave them. A directory that could
    /// not be opened has none.
    Listed(Vec<Option<EntryMeta>>),
}

/// An `Outcome` with its reads by their views.
pub enum OutcomeView {
    Missing,
    Unreadable,
    Listed(Seq<Option<MetaView>>),
}

impl View for Outcome {
    type V = OutcomeView;

    open spec fn view(&self) -> OutcomeView {
        match self {
            Outcome::Missing => OutcomeView::Missing,
            Outcome::Unreadable => OutcomeView::Unreadable,
            Outcome::Listed(reads) => OutcomeView::Listed(reads_view(reads@)),
        }
    }
}

/// The paths of the directories among some records, in order.
pub open spec fn directory_paths(entries: Seq<EntryView>) -> Seq<Seq<char>>
    decreases entries.len(),
{
    if entries.len() == 0 {
        Seq::empty()
    } else if entries.last().kind == EntryKind::Directory {
        directory_paths(entries.drop_last()).push(entries.last().path)
    } else {
        directory_paths(entries.drop_last())
    }
}

/// A listing as the options ask for it: as JSON, or as a table.
pub open spec fn listing_text(entries: Seq<EntryView>, options: Options) -> Seq<char> {
    if options.json {
        listing_json_text(entries)
    } else {
        styled_table_text(table_cells(entries, options.clarity))
    }
}

/// A listing under its heading: the path on a line of its own, then the
/// listing and the end of its last line; after JSON an empty line as well.
pub open spec fn headed_text(path: Seq<char>, listing: Seq<char>, json: bool) -> Seq<char> {
    if json {
        path + "\n"@ + listing + "\n"@ + "\n"@
    } else {
        path + "\n"@ + listing + "\n"@
    }
}

/// What is shown for a path: a warning on a line of its own where the path
/// is missing or unreadable, else its listing under its heading.
pub open spec fn visit_text(path: Seq<char>, outcome: OutcomeView, options: Options) -> Seq<char> {
    match outcome {
        OutcomeView::Missing => missing_text() + "\n"@,
        OutcomeView::Unreadable => unreadable_text() + "\n"@,
        OutcomeView::Listed(reads) => headed_text(
            path,
            listing_text(listed(reads), options),
            options.json,
        ),
    }
}

/// The paths that a visit adds to the queue: the directories of the listing
/// in a recursive walk, none otherwise.
pub open spec fn discovered_paths(outcome: OutcomeView, options: Options) -> Seq<Seq<char>> {
    match outcome {
        OutcomeView::Listed(reads) if options.recursive => directory_paths(listed(reads)),
        _ => Seq::empty(),
    }
}

/// What is shown for a path that was listed begins with the path on a line
/// of its own.
pub proof fn lemma_listing_is_headed(
    path: Seq<char>,
    reads: Seq<Option<MetaView>>,
    options: Options,
)
    ensures
        (path + "\n"@).is_prefix_of(visit_text(path, OutcomeView::Listed(reads), options)),
{
}

/// As JSON a listing is the same whether or not clarity is asked for: its
/// sizes stay the byte counts as numerals.
pub proof fn lemma_json_ignores_clarity(entries: Seq<EntryView>, first: Options, second: Options)
    requires
        first.json,
        second.json,
    ensures
        listing_text(entries, first) == listing_text(entries, second),
        listing_text(entries, first) == listing_json_text(entries),
{
}

/// Listing a directory that has not changed shows the same text and finds
/// the same directories each time: both are fixed by the path, the outcomes
/// of reading the children and the options.
pub proof fn lemma_listing_repeatable(
    path: Seq<char>,
    first: Seq<Option<MetaView>>,
    second: Seq<Option<MetaView>>,
    options: Options,
)
    requires
        first.len() == second.len(),
        forall|i: int| 0 <= i < first.len() ==> first[i] == second[i],
    ensures
        visit_text(path, OutcomeView::Listed(first), options) == visit_text(
            path,
            OutcomeView::Listed(second),
            options,
        ),
        discovered_paths(OutcomeView::Listed(first), options) == discovered_paths(
            OutcomeView::Listed(second),
            options,
        ),
{
    assert(first =~= second);
}

/// The state of a walk.
#[derive(Debug)]
pub struct Walker {
    options: Options,
    pending: VecDeque<String>,
}

/// A `Walker` as its options and the pending paths, the next one first.
pub struct WalkerView {
    pub options: Options,
    pub pending: Seq<Seq<char>>,
}

impl View for Walker {
    type V = WalkerView;

    closed spec fn view(&self) -> WalkerView {
        WalkerView {
            options: self.options,
            pending: texts(self.pending@),
        }
    }
}

/// Writes a listing as the options ask for it.
pub fn render_listing(entries: &Vec<FileEntry>, options: Options) -> (r: String)
    ensures
        r@ == listing_text(entries_view(entries@), options),
{
    if options.json {
        render_json(entries)
    } else {
        render_table(entries, options.clarity)
    }
}

/// Puts a listing that is already written under its heading.
pub fn headed(path: &str, listing: &str, json: bool) -> (r: String)
    ensures
        r@ == headed_text(path@, listing@, json),
{
    let mut r = path.to_owned();
    r.append("\n");
    r.append(listing);
    r.append("\n");
    if json {
        r.append("\n");
    }
    r
}

impl Walker {
    /// Starts a walk at one path.
    pub fn new(start: String, options: Options) -> (r: Walker)
        ensures
            r@ == (WalkerView { options, pending: seq![start@] }),
    {
        let mut pending: VecDeque<String> = VecDeque::new();
        pending.push_back(start);
        assert(texts(pending@) =~= seq![start@]);
        Walker { options, pending }
    }

    pub fn options(&self) -> (r: Options)
        ensures
            r == self@.options,
    {
        self.options
    }

    /// How many paths are pending.
    pub fn pending_len(&self) -> (r: usize)
        ensures
            r == self@.pending.len(),
    {
        self.pending.len()
    }

    /// Takes the next path from the front of the queue; `None` once the walk
    /// is over.
    pub fn next_path(&mut self) -> (r: Option<String>)
        ensures
            final(self)@.options == old(self)@.options,
            old(self)@.pending.len() == 0 ==> r is None && final(self)@ == old(self)@,
            old(self)@.pending.len() > 0 ==> r is Some && r.unwrap()@ == old(self)@.pending[0]
                && final(self)@.pending == old(self)@.pending.drop_first(),
    {
        self.pending.pop_front()
    }

    /// Puts the directories of a listing at the back of the queue, in order.
    fn enqueue_directories(&mut self, entries: &Vec<FileEntry>)
        ensures
            final(self)@.options == old(self)@.options,
            final(self)@.pending == old(self)@.pending + directory_paths(entries_view(entries@)),
    {
        let ghost views = entries_view(entries@);
        let mut i: usize = 0;
        while i < entries.len()
            invariant
                i <= entries.len(),
                views == entries_view(entries@),
                self@.options == old(self)@.options,
                self@.pending == old(self)@.pending + directory_paths(views.take(i as int)),
            decreases entries.len() - i,
        {
            proof {
                let next = views.take(i + 1);
                assert(next.drop_last() =~= views.take(i as int));
            }
            let entry = &entries[i];
            let ghost before = self@.pending;
            match entry.kind() {
                EntryKind::Directory => {
                    self.pending.push_back(entry.path().to_owned());
                    assert(self@.pending =~= before.push(entry@.path));
                },
                EntryKind::File => {},
            }
            i += 1;
        }
        assert(views.take(i as int) =~= views);
    }

    /// Takes in what the filesystem answered for `path`, the path that last
    /// left the queue: lists it, queues the directories found in a recursive
    /// walk, and returns what is to be shown.
    pub fn visit(&mut self, path: &str, outcome: Outcome) -> (r: String)
        ensures
            final(self)@.options == old(self)@.options,
            final(self)@.pending == old(self)@.pending + discovered_paths(
                outcome@,
                old(self)@.options,
            ),
            r@ == visit_text(path@, outcome@, old(self)@.options),
    {
        match outcome {
            Outcome::Missing => {
                let mut r = missing_warning();
                r.append("\n");
                r
            },
            Outcome::Unreadable => {
                let mut r = unreadable_warning();
                r.append("\n");
                r
            },
            Outcome::Listed(reads) => {
                let entries = list_entries(&reads);
                if self.options.recursive {
                    self.enqueue_directories(&entries);
                }
                let listing = render_listing(&entries, self.options);
                headed(path, listing.as_str(), self.options.json)
            },
        }
    }
}

} // verus!
