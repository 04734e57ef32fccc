//! The nine permission bits of a file mode and their `rwx` rendering.

use vstd::prelude::*;

verus! {

/// The owner may read.
pub const OWNER_READ: u16 = 0o400;

/// The owner may write.
pub const OWNER_WRITE: u16 = 0o200;

/// The owner may execute.
pub const OWNER_EXECUTE: u16 = 0o100;

/// The group may read.
pub const GROUP_READ: u16 = 0o040;

/// The group may write.
pub const GROUP_WRITE: u16 = 0o020;

/// The group may execute.
pub const GROUP_EXECUTE: u16 = 0o010;

/// Everyone else may read.
pub const OTHER_READ: u16 = 0o004;

/// Everyone else may write.
pub const OTHER_WRITE: u16 = 0o002;

/// Everyone else may execute.
pub const OTHER_EXECUTE: u16 = 0o001;

/// All nine permission bits.
pub const PERMISSION_BITS: u16 = 0o777;

/// The letter of a permission that is granted, a dash for one that is not.
pub open spec fn flag(granted: bool, letter: char) -> char {
    if granted {
        letter
    } else {
        '-'
    }
}

/// The three characters of one group: read, write, execute, in that order.
pub open spec fn triplet_text(read: bool, write: bool, execute: bool) -> Seq<char> {
    seq![flag(read, 'r'), flag(write, 'w'), flag(execute, 'x')]
}

/// The triplet of `mode` under the three masks of one group.
pub open spec fn triplet_of(mode: u16, read: u16, write: u16, execute: u16) -> Seq<char> {
    triplet_text(mode & read != 0, mode & write != 0, mode & execute != 0)
}

/// The nine characters of a mode: owner, group, others.
pub open spec fn permission_text(mode: u16) -> Seq<char> {
    triplet_of(mode, OWNER_READ, OWNER_WRITE, OWNER_EXECUTE) + triplet_of(
        mode,
        GROUP_READ,
        GROUP_WRITE,
        GROUP_EXECUTE,
    ) + triplet_of(mode, OTHER_READ, OTHER_WRITE, OTHER_EXECUTE)
}

/// The alphabet of a permission string.
pub open spec fn is_permission_char(c: char) -> bool {
    c == 'r' || c == 'w' || c == 'x' || c == '-'
}

/// Renders one group of `mode`: a letter for each of the three masks that
/// meets a set bit, a dash for each that does not.
pub fn triplet(mode: u16, read: u16, write: u16, execute: u16) -> (text: String)
    ensures
        text@ == triplet_of(mode, read, write, execute),
        text@.len() == 3,
{
    let text = match (mode & read != 0, mode & write != 0, mode & execute != 0) {
        (false, false, false) => "---",
        (true, false, false) => "r--",
        (false, true, false) => "-w-",
        (false, false, true) => "--x",
        (true, false, true) => "r-x",
        (true, true, false) => "rw-",
        (false, true, true) => "-wx",
        (true, true, true) => "rwx",
    };
    proof {
        reveal_strlit("---");
        reveal_strlit("r--");
        reveal_strlit("-w-");
        reveal_strlit("--x");
        reveal_strlit("r-x");
        reveal_strlit("rw-");
        reveal_strlit("-wx");
        reveal_strlit("rwx");
        assert(text@ =~= triplet_of(mode, read, write, execute));
    }
    String::from_str(text)
}

/// Renders the nine permission bits of `mode` as `rwxrwxrwx`, with a dash in
/// place of each bit that is clear. Bits above the ninth are not looked at.
pub fn permission_parse(mode: u16) -> (text: String)
    ensures
        text@ == permission_text(mode),
        text@.len() == 9,
        forall|i: int| 0 <= i < 9 ==> is_permission_char(#[trigger] text@[i]),
        text@ == permission_text(mode & PERMISSION_BITS),
{
    let mut text = triplet(mode, OWNER_READ, OWNER_WRITE, OWNER_EXECUTE);
    let group = triplet(mode, GROUP_READ, GROUP_WRITE, GROUP_EXECUTE);
    let other = triplet(mode, OTHER_READ, OTHER_WRITE, OTHER_EXECUTE);
    text.append(group.as_str());
    text.append(other.as_str());
    proof {
        lemma_permission_text_shape(mode);
        assert(mode & 0o777 == (mode & 0o777) & 0o777) by (bit_vector);
        lemma_permission_text_low_bits(mode, mode & PERMISSION_BITS);
    }
    text
}

/// A permission string has nine characters, each of them `r`, `w`, `x` or `-`.
pub proof fn lemma_permission_text_shape(mode: u16)
    ensures
        permission_text(mode).len() == 9,
        forall|i: int| 0 <= i < 9 ==> is_permission_char(#[trigger] permission_text(mode)[i]),
{
}

/// Two modes that agree on their nine low bits have the same permission
/// string: no higher bit bears on it.
pub proof fn lemma_permission_text_low_bits(a: u16, b: u16)
    requires
        a & PERMISSION_BITS == b & PERMISSION_BITS,
    ensures
        permission_text(a) == permission_text(b),
{
    assert(a & 0o400 == b & 0o400 && a & 0o200 == b & 0o200 && a & 0o100 == b & 0o100 && a & 0o040
        == b & 0o040 && a & 0o020 == b & 0o020 && a & 0o010 == b & 0o010 && a & 0o004 == b & 0o004
        && a & 0o002 == b & 0o002 && a & 0o001 == b & 0o001) by (bit_vector)
        requires
            a & 0o777 == b & 0o777,
    ;
}

} // verus!
