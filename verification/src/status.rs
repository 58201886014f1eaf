//! What the status flags of a file say about it.
use vstd::prelude::*;

verus! {

/// The flags of a file's status: how the index differs from the last commit,
/// and how the working tree differs from the index.
#[derive(Clone, Copy, PartialEq, Eq, Structural, Debug)]
pub struct Status {
    pub bits: u32,
}

impl DeepView for Status {
    type V = Status;

    open spec fn deep_view(&self) -> Status {
        *self
    }
}

/// New in the index.
pub const INDEX_NEW: u32 = 0x1;

/// Modified in the index.
pub const INDEX_MODIFIED: u32 = 0x2;

/// Deleted from the index.
pub const INDEX_DELETED: u32 = 0x4;

/// Renamed in the index.
pub const INDEX_RENAMED: u32 = 0x8;

/// Of another type in the index.
pub const INDEX_TYPECHANGE: u32 = 0x10;

/// New in the working tree.
pub const WT_NEW: u32 = 0x80;

/// Modified in the working tree.
pub const WT_MODIFIED: u32 = 0x100;

/// Deleted from the working tree.
pub const WT_DELETED: u32 = 0x200;

/// Of another type in the working tree.
pub const WT_TYPECHANGE: u32 = 0x400;

/// Renamed in the working tree.
pub const WT_RENAMED: u32 = 0x800;

/// In conflict.
pub const CONFLICTED: u32 = 0x8000;

/// Whether a status has a flag.
pub open spec fn has_flag(status: Status, flag: u32) -> bool {
    status.bits & flag == flag
}

/// Whether something of the file is staged.
pub open spec fn staged(status: Status) -> bool {
    ||| has_flag(status, INDEX_NEW)
    ||| has_flag(status, INDEX_MODIFIED)
    ||| has_flag(status, INDEX_DELETED)
    ||| has_flag(status, INDEX_RENAMED)
    ||| has_flag(status, INDEX_TYPECHANGE)
}

/// Whether something of the file is changed and not staged.
pub open spec fn unstaged(status: Status) -> bool {
    ||| has_flag(status, WT_MODIFIED)
    ||| has_flag(status, WT_DELETED)
    ||| has_flag(status, WT_RENAMED)
    ||| has_flag(status, WT_TYPECHANGE)
    ||| has_flag(status, WT_NEW)
}

/// The word for what happened to a file: the first that applies of conflicted,
/// new, modified, deleted, renamed and typechange, whether in the index or in
/// the working tree.
pub open spec fn status_word(status: Status) -> Seq<char> {
    if has_flag(status, CONFLICTED) {
        "conflicted"@
    } else if has_flag(status, WT_NEW) || has_flag(status, INDEX_NEW) {
        "new"@
    } else if has_flag(status, WT_MODIFIED) || has_flag(status, INDEX_MODIFIED) {
        "modified"@
    } else if has_flag(status, WT_DELETED) || has_flag(status, INDEX_DELETED) {
        "deleted"@
    } else if has_flag(status, WT_RENAMED) || has_flag(status, INDEX_RENAMED) {
        "renamed"@
    } else if has_flag(status, WT_TYPECHANGE) || has_flag(status, INDEX_TYPECHANGE) {
        "typechange"@
    } else {
        "changed"@
    }
}

/// Calls `git2::Status::contains` on the two sets of flags, which tells whether
/// the first has every flag of the second.
#[verifier::external_body]
fn flags_contain(bits: u32, other: u32) -> (r: bool)
    ensures
        r == (bits & other == other),
{
    git2::Status::from_bits_retain(bits).contains(git2::Status::from_bits_retain(other))
}

/// Calls `git2::Status::intersects` on the two sets of flags, which tells
/// whether the first has a flag of the second.
#[verifier::external_body]
fn flags_intersect(bits: u32, other: u32) -> (r: bool)
    ensures
        r == (bits & other != 0),
{
    git2::Status::from_bits_retain(bits).intersects(git2::Status::from_bits_retain(other))
}

/// Calls `git2::Status::is_conflicted`, which tells whether the flag of a
/// conflict is set.
#[verifier::external_body]
fn flags_conflicted(bits: u32) -> (r: bool)
    ensures
        r == (bits & 0x8000 != 0),
{
    git2::Status::from_bits_retain(bits).is_conflicted()
}

impl Status {
    /// Tells whether the status has a flag.
    pub fn contains(&self, flag: u32) -> (r: bool)
        ensures
            r == has_flag(*self, flag),
    {
        flags_contain(self.bits, flag)
    }

    /// Tells whether the file is in conflict.
    pub fn is_conflicted(&self) -> (r: bool)
        ensures
            r == has_flag(*self, CONFLICTED),
    {
        let bits = self.bits;
        assert((bits & 0x8000 != 0) == (bits & 0x8000 == 0x8000)) by (bit_vector);
        flags_conflicted(bits)
    }
}

/// Tells whether something of a file is staged.
pub fn is_staged(status: Status) -> (r: bool)
    ensures
        r == staged(status),
{
    let bits = status.bits;
    let mask: u32 = INDEX_NEW | INDEX_MODIFIED | INDEX_DELETED | INDEX_RENAMED | INDEX_TYPECHANGE;
    assert((bits & (0x1u32 | 0x2u32 | 0x4u32 | 0x8u32 | 0x10u32) != 0) == (bits & 0x1 == 0x1 || bits
        & 0x2 == 0x2 || bits & 0x4 == 0x4 || bits & 0x8 == 0x8 || bits & 0x10 == 0x10)) by (bit_vector);
    flags_intersect(bits, mask)
}

/// Tells whether something of a file is changed and not staged.
pub fn is_unstaged(status: Status) -> (r: bool)
    ensures
        r == unstaged(status),
{
    let bits = status.bits;
    let mask: u32 = WT_MODIFIED | WT_DELETED | WT_RENAMED | WT_TYPECHANGE | WT_NEW;
    assert((bits & (0x100u32 | 0x200u32 | 0x800u32 | 0x400u32 | 0x80u32) != 0) == (bits & 0x100
        == 0x100 || bits & 0x200 == 0x200 || bits & 0x800 == 0x800 || bits & 0x400 == 0x400 || bits
        & 0x80 == 0x80)) by (bit_vector);
    flags_intersect(bits, mask)
}

/// The word for what happened to a file.
pub fn describe_status(status: Status) -> (r: String)
    ensures
        r@ == status_word(status),
{
    if status.is_conflicted() {
        return "conflicted".to_owned();
    }
    if status.contains(WT_NEW) || status.contains(INDEX_NEW) {
        return "new".to_owned();
    }
    if status.contains(WT_MODIFIED) || status.contains(INDEX_MODIFIED) {
        return "modified".to_owned();
    }
    if status.contains(WT_DELETED) || status.contains(INDEX_DELETED) {
        return "deleted".to_owned();
    }
    if status.contains(WT_RENAMED) || status.contains(INDEX_RENAMED) {
        return "renamed".to_owned();
    }
    if status.contains(WT_TYPECHANGE) || status.contains(INDEX_TYPECHANGE) {
        return "typechange".to_owned();
    }
    "changed".to_owned()
}

}
