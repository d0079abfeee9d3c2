use vstd::prelude::*;

use crate::bucket::{from_json_spec, Bucket, BucketView};
use crate::ids::fresh_uuid_text;

verus! {

/// What travels on the filesystem worker's queues.
pub enum FsMessage {
    Stop,
    /// Restore the partition stored at this path.
    Load(String),
    Result(Bucket),
}

/// What the filesystem worker does with one message.
#[derive(Debug, Clone, PartialEq, Eq)]
pub enum FsAction {
    /// Stop taking messages.
    Halt,
    /// Read the file at this path and restore a partition from it.
    Load(String),
    /// Drop the message: a result has no business on the inbound queue.
    Ignore,
}

/// Decides what the filesystem worker does with `msg`.
pub fn next_action(msg: FsMessage) -> (r: FsAction)
    ensures
        msg is Stop ==> r is Halt,
        msg matches FsMessage::Load(p) ==> r == FsAction::Load(p),
        msg is Result ==> r is Ignore,
{
    match msg {
        FsMessage::Stop => FsAction::Halt,
        FsMessage::Load(p) => FsAction::Load(p),
        FsMessage::Result(_) => FsAction::Ignore,
    }
}

/// The partition that the text read from a file describes, if the file was
/// read and its text describes one.
pub open spec fn restored(contents: Option<String>) -> Option<BucketView> {
    match contents {
        Some(t) => match from_json_spec(t@) {
            Ok(b) => Some(b),
            Err(_) => None,
        },
        None => None,
    }
}

/// Restores a partition from the text read from its file, or `None` when the
/// file could not be read. Never fails: where the text is missing or does not
/// describe a partition, the result is a new empty partition, with a fresh id
/// and a fresh UUID for label.
pub fn load_or_fresh(contents: Option<String>) -> (r: Bucket)
    ensures
        restored(contents) matches Some(b) ==> r@ == b,
        restored(contents) is None ==> r@.contents == Map::<u128, Seq<u8>>::empty(),
{
    if let Some(text) = contents {
        if let Ok(b) = Bucket::from_json(text.as_str()) {
            return b;
        }
    }
    Bucket::new(Some(fresh_uuid_text()))
}

} // verus!
