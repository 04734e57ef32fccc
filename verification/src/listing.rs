//! A whole listing: what was read of a directory, the lines that it gives and
//! how the pass over it ends.

use crate::entry::{entry_line, entry_text, Entry, EntryView};
use crate::timestamp::on_calendar;
use crate::error::{failure_of, out_of_calendar, ErrorKind, ListError, ListErrorView};
use vstd::prelude::*;

verus! {

/// What came of reading the next entry of a directory.
#[derive(Debug, PartialEq, Eq)]
pub enum EntryRead {
    /// A call failed: reading on in the directory, decoding the name,
    /// fetching the metadata or taking the modification time from it.
    /// `detail` is what the file system said, or the raw name where the name
    /// is no valid text.
    Failed { kind: ErrorKind, detail: String },
    /// Every call succeeded.
    Read(Entry),
}

/// An `EntryRead` with its texts as sequences of characters.
pub enum EntryReadView {
    Failed { kind: ErrorKind, detail: Seq<char> },
    Read(EntryView),
}

impl View for EntryRead {
    type V = EntryReadView;

    open spec fn view(&self) -> EntryReadView {
        match self {
            EntryRead::Failed { kind, detail } => EntryReadView::Failed {
                kind: *kind,
                detail: detail@,
            },
            EntryRead::Read(entry) => EntryReadView::Read(entry@),
        }
    }
}

/// What came of reading a directory.
#[derive(Debug, PartialEq, Eq)]
pub enum DirRead {
    /// The path names no directory: nothing is there, or something else is.
    NotDirectory,
    /// The directory could not be opened; the text is what the file system
    /// said.
    Unreadable(String),
    /// The directory was opened, and these are its entries in the order in
    /// which the file system gave them.
    Entries(Vec<EntryRead>),
}

/// A `DirRead` with its texts as sequences of characters.
pub enum DirReadView {
    NotDirectory,
    Unreadable(Seq<char>),
    Entries(Seq<EntryReadView>),
}

/// The views of the entries read.
pub open spec fn reads_view(reads: Seq<EntryRead>) -> Seq<EntryReadView> {
    reads.map_values(|read: EntryRead| read@)
}

impl View for DirRead {
    type V = DirReadView;

    open spec fn view(&self) -> DirReadView {
        match self {
            DirRead::NotDirectory => DirReadView::NotDirectory,
            DirRead::Unreadable(reason) => DirReadView::Unreadable(reason@),
            DirRead::Entries(reads) => DirReadView::Entries(reads_view(reads@)),
        }
    }
}

/// The lines of a listing and how it ended.
#[derive(Debug, PartialEq, Eq)]
pub struct Listing {
    /// The lines to print, in order.
    pub lines: Vec<String>,
    /// Whether the pass reached the end, or the failure that stopped it.
    pub outcome: Result<(), ListError>,
}

/// A `Listing` with its texts as sequences of characters.
pub struct ListingView {
    pub lines: Seq<Seq<char>>,
    pub outcome: Result<(), ListErrorView>,
}

/// The characters of each line.
pub open spec fn lines_view(lines: Seq<String>) -> Seq<Seq<char>> {
    lines.map_values(|line: String| line@)
}

/// How a pass ended, with the failure's message as a sequence of characters.
pub open spec fn outcome_view(outcome: Result<(), ListError>) -> Result<(), ListErrorView> {
    match outcome {
        Ok(_) => Ok(()),
        Err(error) => Err(error@),
    }
}

impl View for Listing {
    type V = ListingView;

    open spec fn view(&self) -> ListingView {
        ListingView { lines: lines_view(self.lines@), outcome: outcome_view(self.outcome) }
    }
}

/// What one entry gives: its line, or the failure that ends the listing.
pub open spec fn entry_outcome(read: EntryReadView) -> Result<Seq<char>, ListErrorView> {
    match read {
        EntryReadView::Failed { kind, detail } => Err(failure_of(kind, detail)),
        EntryReadView::Read(entry) => match entry_text(entry) {
            Some(line) => Ok(line),
            None => Err(out_of_calendar()),
        },
    }
}

/// Where an entry was read, the calendar has a day for its modification
/// time, with day and time in their ranges.
pub open spec fn timed(read: EntryReadView) -> bool {
    read matches EntryReadView::Read(entry) ==> on_calendar(entry.modified, entry.utc_offset)
}

/// What came of one entry, with its texts as sequences of characters.
pub open spec fn outcome_text(outcome: Result<String, ListError>) -> Result<
    Seq<char>,
    ListErrorView,
> {
    match outcome {
        Ok(line) => Ok(line@),
        Err(error) => Err(error@),
    }
}

/// The line that an entry gives; the empty line where it gives none.
pub open spec fn entry_line_text(read: EntryReadView) -> Seq<char> {
    match entry_outcome(read) {
        Ok(line) => line,
        Err(_) => Seq::empty(),
    }
}

/// How many entries give a line before the first one that fails.
pub open spec fn readable_prefix(reads: Seq<EntryReadView>) -> nat
    decreases reads.len(),
{
    if reads.len() == 0 || entry_outcome(reads[0]) is Err {
        0
    } else {
        1 + readable_prefix(reads.drop_first())
    }
}

/// The pass over the entries stops at index `stop`: every entry before it
/// gives a line, and the entry there, if there is one, fails.
pub open spec fn stops_at(reads: Seq<EntryReadView>, stop: int) -> bool {
    &&& 0 <= stop <= reads.len()
    &&& forall|i: int| 0 <= i < stop ==> entry_outcome(#[trigger] reads[i]) is Ok
    &&& stop < reads.len() ==> entry_outcome(reads[stop]) is Err
}

/// Every entry gives a line.
pub open spec fn all_readable(reads: Seq<EntryReadView>) -> bool {
    forall|i: int| 0 <= i < reads.len() ==> entry_outcome(#[trigger] reads[i]) is Ok
}

/// The listing holds the line of every entry, each in its place, and ends
/// without a failure.
pub open spec fn lists_all(reads: Seq<EntryReadView>, listing: ListingView) -> bool {
    &&& listing.outcome is Ok
    &&& listing.lines.len() == reads.len()
    &&& forall|i: int|
        0 <= i < reads.len() ==> entry_outcome(reads[i]) == Ok::<Seq<char>, ListErrorView>(
            #[trigger] listing.lines[i],
        )
}

/// The first `shown` entries were read, and the calendar has a day for the
/// modification time of each.
pub open spec fn timed_before(reads: Seq<EntryReadView>, shown: int) -> bool {
    forall|i: int| 0 <= i < shown ==> timed(#[trigger] reads[i])
}

/// The listing of a directory. A path that names no directory gives no line
/// and no failure. A directory that cannot be opened gives that failure. An
/// open directory gives the line of each entry up to the first one that
/// fails, and that entry's failure, if there is one.
pub open spec fn listing_of(dir: DirReadView) -> ListingView {
    match dir {
        DirReadView::NotDirectory => ListingView { lines: Seq::empty(), outcome: Ok(()) },
        DirReadView::Unreadable(reason) => ListingView {
            lines: Seq::empty(),
            outcome: Err(failure_of(ErrorKind::Enumeration, reason)),
        },
        DirReadView::Entries(reads) => {
            let shown = readable_prefix(reads);
            ListingView {
                lines: Seq::new(shown, |i: int| entry_line_text(reads[i])),
                outcome: if shown < reads.len() {
                    Err(entry_outcome(reads[shown as int])->Err_0)
                } else {
                    Ok(())
                },
            }
        },
    }
}

/// Decides what to do with what was read of one entry: the line to print, or
/// the failure that ends the listing.
pub fn process_entry(read: &EntryRead) -> (outcome: Result<String, ListError>)
    ensures
        outcome_text(outcome) == entry_outcome(read@),
        outcome is Ok ==> timed(read@),
{
    match read {
        EntryRead::Failed { kind, detail } => Err(ListError::failure(*kind, detail.as_str())),
        EntryRead::Read(entry) => match entry_line(entry) {
            Some(line) => Ok(line),
            None => Err(ListError::out_of_calendar()),
        },
    }
}

/// Lists what was read of a directory: the lines to print and how the pass
/// ends. The first entry that fails ends it; the lines of the entries before
/// it stand.
pub fn list(dir: &DirRead) -> (listing: Listing)
    ensures
        listing@ == listing_of(dir@),
        listing@.lines.len() == listing.lines@.len(),
        dir@ is NotDirectory ==> listing@.lines.len() == 0 && listing@.outcome is Ok,
        dir@ matches DirReadView::Entries(reads) ==> (reads.len() == 0 ==> listing@.lines.len() == 0
            && listing@.outcome is Ok),
        dir@ matches DirReadView::Entries(reads) ==> (all_readable(reads) ==> lists_all(
            reads,
            listing@,
        )),
        dir@ matches DirReadView::Entries(reads) ==> (!all_readable(reads)
            ==> listing@.outcome is Err),
        dir@ matches DirReadView::Entries(reads) ==> timed_before(
            reads,
            listing@.lines.len() as int,
        ),
{
    match dir {
        DirRead::NotDirectory => {
            let listing = Listing { lines: Vec::new(), outcome: Ok(()) };
            assert(listing@.lines =~= Seq::<Seq<char>>::empty());
            listing
        },
        DirRead::Unreadable(reason) => {
            let error = ListError::failure(ErrorKind::Enumeration, reason.as_str());
            let listing = Listing { lines: Vec::new(), outcome: Err(error) };
            assert(listing@.lines =~= Seq::<Seq<char>>::empty());
            listing
        },
        DirRead::Entries(reads) => {
            let ghost views = reads_view(reads@);
            let mut lines: Vec<String> = Vec::new();
            let mut at: usize = 0;
            while at < reads.len()
                invariant
                    dir@ == DirReadView::Entries(views),
                    views == reads_view(reads@),
                    at <= reads.len(),
                    lines@.len() == at,
                    forall|i: int| 0 <= i < at ==> entry_outcome(#[trigger] views[i]) is Ok,
                    forall|i: int| 0 <= i < at ==> timed(#[trigger] views[i]),
                    forall|i: int|
                        0 <= i < at ==> (#[trigger] lines@[i])@ == entry_line_text(views[i]),
                decreases reads.len() - at,
            {
                assert(views[at as int] == reads@[at as int]@);
                match process_entry(&reads[at]) {
                    Ok(line) => {
                        lines.push(line);
                    },
                    Err(error) => {
                        let listing = Listing { lines, outcome: Err(error) };
                        proof {
                            lemma_readable_prefix(views, at as int);
                            assert(listing@.lines =~= listing_of(dir@).lines);
                            lemma_failed_entry_fails_listing(views, at as int);
                        }
                        return listing;
                    },
                }
                at = at + 1;
            }
            let listing = Listing { lines, outcome: Ok(()) };
            proof {
                lemma_readable_prefix(views, at as int);
                assert(listing@.lines =~= listing_of(dir@).lines);
                lemma_readable_entries_all_listed(views);
            }
            listing
        },
    }
}

/// The pass stops at one index only, and that is the number of entries that
/// give a line before the first one that fails.
pub proof fn lemma_readable_prefix(reads: Seq<EntryReadView>, stop: int)
    requires
        stops_at(reads, stop),
    ensures
        readable_prefix(reads) == stop,
    decreases reads.len(),
{
    if stop > 0 {
        let rest = reads.drop_first();
        assert(entry_outcome(reads[0]) is Ok);
        assert forall|i: int| 0 <= i < stop - 1 implies entry_outcome(#[trigger] rest[i]) is Ok by {
            assert(rest[i] == reads[i + 1]);
        }
        assert(stop - 1 < rest.len() ==> rest[stop - 1] == reads[stop]);
        lemma_readable_prefix(rest, stop - 1);
    }
}

/// The pass stops somewhere: at the first entry that fails, or behind the
/// last entry.
pub proof fn lemma_listing_stops(reads: Seq<EntryReadView>)
    ensures
        stops_at(reads, readable_prefix(reads) as int),
    decreases reads.len(),
{
    if !(reads.len() == 0 || entry_outcome(reads[0]) is Err) {
        let rest = reads.drop_first();
        lemma_listing_stops(rest);
        let stop = readable_prefix(reads) as int;
        assert forall|i: int| 0 <= i < stop implies entry_outcome(#[trigger] reads[i]) is Ok by {
            if i > 0 {
                assert(reads[i] == rest[i - 1]);
            }
        }
        assert(stop < reads.len() ==> reads[stop] == rest[stop - 1]);
    }
}

/// Listing a path that names no directory gives no line and succeeds.
pub proof fn lemma_no_directory_no_lines()
    ensures
        listing_of(DirReadView::NotDirectory).lines.len() == 0,
        listing_of(DirReadView::NotDirectory).outcome is Ok,
{
}

/// Listing a directory without entries gives no line and succeeds.
pub proof fn lemma_empty_directory_no_lines()
    ensures
        listing_of(DirReadView::Entries(Seq::empty())).lines.len() == 0,
        listing_of(DirReadView::Entries(Seq::empty())).outcome is Ok,
{
}

/// Listing a directory whose entries all give a line gives as many lines as
/// there are entries, the line of each entry in its place, and succeeds.
pub proof fn lemma_readable_entries_all_listed(reads: Seq<EntryReadView>)
    requires
        all_readable(reads),
    ensures
        lists_all(reads, listing_of(DirReadView::Entries(reads))),
{
    lemma_readable_prefix(reads, reads.len() as int);
}

/// A directory with an entry that gives no line is not listed with success:
/// the listing ends with the failure of the first such entry, and with the
/// lines of the entries before it. No entry is passed over.
pub proof fn lemma_failed_entry_fails_listing(reads: Seq<EntryReadView>, at: int)
    requires
        0 <= at < reads.len(),
        entry_outcome(reads[at]) is Err,
    ensures
        !all_readable(reads),
        listing_of(DirReadView::Entries(reads)).lines.len() <= at,
        listing_of(DirReadView::Entries(reads)).outcome == Err::<(), ListErrorView>(
            entry_outcome(reads[listing_of(DirReadView::Entries(reads)).lines.len() as int])->Err_0,
        ),
{
    lemma_listing_stops(reads);
}

/// A directory with an entry of which some call failed, the fetching of its
/// metadata or any other, is not listed with success. Where no entry before
/// it fails, the listing ends with the failure of that call.
pub proof fn lemma_failed_read_fails_listing(reads: Seq<EntryReadView>, at: int)
    requires
        0 <= at < reads.len(),
        reads[at] is Failed,
    ensures
        listing_of(DirReadView::Entries(reads)).outcome is Err,
        listing_of(DirReadView::Entries(reads)).lines.len() <= at,
        listing_of(DirReadView::Entries(reads)).lines.len() == at ==> listing_of(
            DirReadView::Entries(reads),
        ).outcome == Err::<(), ListErrorView>(
            failure_of(reads[at]->Failed_kind, reads[at]->Failed_detail),
        ),
{
    lemma_failed_entry_fails_listing(reads, at);
}

} // verus!
