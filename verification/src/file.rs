//! What saving asks of the open file, and what those requests do to it.
//!
//! The library never touches a file. It hands out a list of operations for
//! the caller to carry out on the handle it holds, and reasons about them
//! against a model of a regular file: its bytes and the position of the
//! handle's cursor.

use vstd::prelude::*;

verus! {

/// One operation on an open file.
#[derive(Debug, Clone, PartialEq, Eq)]
pub enum FileOp {
    /// Move the cursor to this offset from the start.
    SeekStart(u64),
    /// Cut the file down, or pad it with zero bytes, to this length. The
    /// cursor stays where it is.
    SetLen(u64),
    /// Write all of these bytes at the cursor and move the cursor past them.
    /// Bytes that lay there are overwritten; a gap between the end of the
    /// file and the cursor fills with zero bytes. Writing no bytes does
    /// nothing.
    WriteAll(Vec<u8>),
}

/// A regular file as seen through one handle that was not opened for
/// appending.
pub struct FileState {
    /// Every byte of the file, in order.
    pub contents: Seq<u8>,
    /// Where the next write lands.
    pub cursor: nat,
}

/// `n` zero bytes.
pub open spec fn zeros(n: nat) -> Seq<u8> {
    Seq::new(n, |i: int| 0u8)
}

/// `contents`, padded with zero bytes where it is shorter than `len`.
pub open spec fn padded_to(contents: Seq<u8>, len: nat) -> Seq<u8> {
    if len <= contents.len() {
        contents
    } else {
        contents + zeros((len - contents.len()) as nat)
    }
}

impl FileOp {
    /// The file after this operation.
    pub open spec fn effect(self, before: FileState) -> FileState {
        match self {
            FileOp::SeekStart(offset) => FileState { cursor: offset as nat, ..before },
            FileOp::SetLen(len) => FileState {
                contents: padded_to(before.contents, len as nat).take(len as int),
                ..before
            },
            FileOp::WriteAll(bytes) => if bytes@.len() == 0 {
                before
            } else {
                let end = before.cursor + bytes@.len();
                let kept = padded_to(before.contents, end);
                FileState {
                    contents: kept.take(before.cursor as int) + bytes@ + kept.skip(end as int),
                    cursor: end,
                }
            },
        }
    }
}

/// The file after a list of operations, carried out in order.
pub open spec fn effect_of(ops: Seq<FileOp>, before: FileState) -> FileState
    decreases ops.len(),
{
    if ops.len() == 0 {
        before
    } else {
        effect_of(ops.drop_first(), ops[0].effect(before))
    }
}

/// `ops` rewinds, empties the file and then writes `bytes`.
pub open spec fn rewrites_with(ops: Seq<FileOp>, bytes: Seq<u8>) -> bool {
    &&& ops.len() == 3
    &&& ops[0] == FileOp::SeekStart(0)
    &&& ops[1] == FileOp::SetLen(0)
    &&& ops[2] matches FileOp::WriteAll(written) && written@ == bytes
}

/// Whatever the file held and wherever the cursor stood, after a rewrite
/// the file holds the written bytes and nothing else.
pub proof fn lemma_rewrite_replaces_contents(ops: Seq<FileOp>, bytes: Seq<u8>, before: FileState)
    requires
        rewrites_with(ops, bytes),
    ensures
        effect_of(ops, before) == (FileState { contents: bytes, cursor: bytes.len() }),
{
    reveal_with_fuel(effect_of, 4);
    let rewound = ops[0].effect(before);
    let emptied = ops[1].effect(rewound);
    let written = ops[2].effect(emptied);
    assert(emptied.contents =~= Seq::<u8>::empty());
    assert(emptied.cursor == 0);
    assert(written.contents =~= bytes);
    assert(ops.drop_first()[0] == ops[1]);
    assert(ops.drop_first().drop_first()[0] == ops[2]);
    assert(ops.drop_first().drop_first().drop_first().len() == 0);
}

} // verus!
