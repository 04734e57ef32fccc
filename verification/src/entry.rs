//! One entry of a directory and its line.

use crate::permissions::{permission_parse, permission_text, PERMISSION_BITS};
use crate::size::{size_field, size_text};
use crate::timestamp::{
    civil_time, lemma_stamp_text_len, local_stamp, on_calendar, stamp_at, stamp_text, text_of,
};
use vstd::prelude::*;

verus! {

/// What a listing shows of one entry of a directory.
#[derive(Debug, PartialEq, Eq)]
pub struct Entry {
    /// The entry's name.
    pub name: String,
    /// Its size in bytes.
    pub size: u64,
    /// Its mode. Only the nine permission bits are shown.
    pub mode: u32,
    /// When it was last modified, in seconds since 1970-01-01 00:00:00 UTC.
    pub modified: i64,
    /// How many seconds the clocks of the place of the listing were ahead of
    /// UTC at that instant; negative where they were behind.
    pub utc_offset: i32,
}

/// An `Entry` with its name as a sequence of characters.
pub struct EntryView {
    pub name: Seq<char>,
    pub size: u64,
    pub mode: u32,
    pub modified: i64,
    pub utc_offset: i32,
}

impl View for Entry {
    type V = EntryView;

    open spec fn view(&self) -> EntryView {
        EntryView {
            name: self.name@,
            size: self.size,
            mode: self.mode,
            modified: self.modified,
            utc_offset: self.utc_offset,
        }
    }
}

/// The nine permission bits of a mode.
pub open spec fn mode_bits(mode: u32) -> u16 {
    (mode & 0o777) as u16
}

/// A line of the four columns, with one space between each two.
pub open spec fn line_text(
    permissions: Seq<char>,
    size: Seq<char>,
    stamp: Seq<char>,
    name: Seq<char>,
) -> Seq<char> {
    permissions + seq![' '] + size + seq![' '] + stamp + seq![' '] + name
}

/// The line of an entry: permissions, size, modification time, name. `None`
/// where the calendar has no day for the modification time.
pub open spec fn entry_text(entry: EntryView) -> Option<Seq<char>> {
    match local_stamp(entry.modified, entry.utc_offset) {
        Some(stamp) => Some(
            line_text(
                permission_text(mode_bits(entry.mode)),
                size_text(entry.size),
                stamp,
                entry.name,
            ),
        ),
        None => None,
    }
}

/// Keeps the nine permission bits of a mode and drops the rest.
pub fn permission_bits(mode: u32) -> (bits: u16)
    ensures
        bits == mode_bits(mode),
        bits == bits & PERMISSION_BITS,
{
    let low = mode & 0o777;
    assert(low <= 0o777) by (bit_vector)
        requires
            low == mode & 0o777,
    ;
    let bits = low as u16;
    assert(bits == bits & 0o777) by (bit_vector)
        requires
            bits <= 0o777,
    ;
    bits
}

/// Puts a line together: the permission string, the size right-aligned in
/// five columns, the time column and the name, with one space between each
/// two.
pub fn format_line(permissions: &str, size: u64, stamp: &str, name: &str) -> (line: String)
    ensures
        line@ == line_text(permissions@, size_text(size), stamp@, name@),
{
    let mut line = String::from_str(permissions);
    let size_column = size_field(size);
    line.append(" ");
    line.append(size_column.as_str());
    line.append(" ");
    line.append(stamp);
    line.append(" ");
    line.append(name);
    proof {
        reveal_strlit(" ");
        assert(line@ =~= line_text(permissions@, size_text(size), stamp@, name@));
    }
    line
}

/// Renders the line of an entry, unless the calendar has no day for its
/// modification time.
pub fn entry_line(entry: &Entry) -> (line: Option<String>)
    ensures
        text_of(line) == entry_text(entry@),
        line is Some ==> on_calendar(entry.modified, entry.utc_offset),
{
    match stamp_at(entry.modified, entry.utc_offset) {
        Some(stamp) => {
            let permissions = permission_parse(permission_bits(entry.mode));
            Some(format_line(permissions.as_str(), entry.size, stamp.as_str(), entry.name.as_str()))
        },
        None => None,
    }
}

/// `line` is laid out as the line of `entry`: nine characters of permissions,
/// a space, the size in five columns or more, a space, twelve characters of
/// time, a space, and the name.
pub open spec fn laid_out(entry: EntryView, line: Seq<char>) -> bool {
    let width = size_text(entry.size).len() as int;
    &&& width >= 5
    &&& line.len() == 24 + width + entry.name.len()
    &&& line.subrange(0, 9) == permission_text(mode_bits(entry.mode))
    &&& line[9] == ' '
    &&& line.subrange(10, 10 + width) == size_text(entry.size)
    &&& line[10 + width] == ' '
    &&& Some(line.subrange(11 + width, 23 + width)) == local_stamp(entry.modified, entry.utc_offset)
    &&& line[23 + width] == ' '
    &&& line.subrange(24 + width, line.len() as int) == entry.name
}

/// An entry whose modification time is on the calendar has a line, and the
/// line is laid out in the four columns.
pub proof fn lemma_entry_text_layout(entry: EntryView)
    requires
        on_calendar(entry.modified, entry.utc_offset),
    ensures
        entry_text(entry) matches Some(line) && laid_out(entry, line),
{
    let time = civil_time(entry.modified as int, entry.utc_offset as int)->Some_0;
    let line = entry_text(entry)->Some_0;
    let width = size_text(entry.size).len() as int;
    lemma_stamp_text_len(time);
    assert(line.subrange(0, 9) =~= permission_text(mode_bits(entry.mode)));
    assert(line.subrange(10, 10 + width) =~= size_text(entry.size));
    assert(line.subrange(11 + width, 23 + width) =~= stamp_text(time));
    assert(line.subrange(24 + width, line.len() as int) =~= entry.name);
}

} // verus!
