use vstd::prelude::*;

use crate::bucket::{bytes_of, dump_spec, lookup, Bucket, BucketView, SerializedBucket};
use crate::ids::fresh_uuid;
use crate::key::Key;

verus! {

/// A request to read one key; `req_id` is echoed in the reply.
#[derive(Debug, Clone)]
pub struct ReadMessage {
    pub key: Key,
    pub req_id: u128,
}

impl ReadMessage {
    /// A read of `key` under a fresh correlation id.
    pub fn new(key: Key) -> (r: ReadMessage)
        ensures
            r.key == key,
    {
        ReadMessage { key, req_id: fresh_uuid() }
    }
}

/// A request to store `value` under `key`; `req_id` is echoed in the reply.
#[derive(Debug, Clone)]
pub struct WriteMessage {
    pub key: Key,
    pub req_id: u128,
    pub value: Vec<u8>,
}

impl WriteMessage {
    /// A write of `value` under `key`, with a fresh correlation id.
    pub fn new(key: Key, value: Vec<u8>) -> (r: WriteMessage)
        ensures
            r.key == key,
            r.value == value,
    {
        WriteMessage { key, req_id: fresh_uuid(), value }
    }
}

/// The answer to a read or a write: the value found, or the one replaced.
#[derive(Debug, Clone)]
pub struct OpResult {
    pub result: Option<Vec<u8>>,
    pub req_id: u128,
}

impl OpResult {
    pub fn new(result: Option<Vec<u8>>, req_id: u128) -> (r: OpResult)
        ensures
            r.result == result,
            r.req_id == req_id,
    {
        OpResult { result, req_id }
    }
}

/// What travels on a worker's queues: commands inbound, results outbound.
#[derive(Debug, Clone)]
pub enum WorkerMessage {
    Stop,
    Read(ReadMessage),
    Write(WriteMessage),
    Dump,
    TaskResult(TaskResult),
}

/// The reply to one command.
#[derive(Debug, Clone)]
pub enum TaskResult {
    StopFlag,
    ReadResult(OpResult),
    WriteResult(OpResult),
    DumpResult(SerializedBucket),
}

/// A worker's state: its store, and whether it still takes commands.
pub struct WorkerView {
    pub store: BucketView,
    pub running: bool,
}

/// The state after one command. A stopped worker takes no command.
pub open spec fn next_state(w: WorkerView, m: WorkerMessage) -> WorkerView {
    if !w.running {
        w
    } else {
        match m {
            WorkerMessage::Stop => WorkerView { store: w.store, running: false },
            WorkerMessage::Write(wm) => WorkerView {
                store: BucketView {
                    contents: w.store.contents.insert(wm.key.0, wm.value@),
                    ..w.store
                },
                running: true,
            },
            _ => w,
        }
    }
}

/// Whether a command counts as one completed write.
pub open spec fn counts_write(w: WorkerView, m: WorkerMessage) -> bool {
    w.running && m is Write
}

/// Whether `reply` is the reply that a worker in state `w` owes for `m`:
/// one reply per well-formed command, carrying its correlation id; none for a
/// stray result, nor once the worker has stopped.
pub open spec fn is_reply(w: WorkerView, m: WorkerMessage, reply: Option<WorkerMessage>) -> bool {
    if !w.running {
        reply is None
    } else {
        match m {
            WorkerMessage::Stop => reply == Some(WorkerMessage::TaskResult(TaskResult::StopFlag)),
            WorkerMessage::Read(rm) => reply matches Some(
                WorkerMessage::TaskResult(TaskResult::ReadResult(op)),
            ) && op.req_id == rm.req_id && bytes_of(op.result) == lookup(
                w.store.contents,
                rm.key.0,
            ),
            WorkerMessage::Write(wm) => reply matches Some(
                WorkerMessage::TaskResult(TaskResult::WriteResult(op)),
            ) && op.req_id == wm.req_id && bytes_of(op.result) == lookup(
                w.store.contents,
                wm.key.0,
            ),
            WorkerMessage::Dump => reply matches Some(
                WorkerMessage::TaskResult(TaskResult::DumpResult(e)),
            ) && e@ == dump_spec(w.store),
            WorkerMessage::TaskResult(_) => reply is None,
        }
    }
}

/// The state after a sequence of commands, handled in order.
pub open spec fn run(w: WorkerView, cmds: Seq<WorkerMessage>) -> WorkerView
    decreases cmds.len(),
{
    if cmds.len() == 0 {
        w
    } else {
        run(next_state(w, cmds[0]), cmds.drop_first())
    }
}

/// How many of a sequence of commands the operations counter counts.
pub open spec fn counted_writes(w: WorkerView, cmds: Seq<WorkerMessage>) -> nat
    decreases cmds.len(),
{
    if cmds.len() == 0 {
        0
    } else {
        (if counts_write(w, cmds[0]) {
            1nat
        } else {
            0nat
        }) + counted_writes(next_state(w, cmds[0]), cmds.drop_first())
    }
}

/// How many `Write` commands a sequence holds.
pub open spec fn write_commands(cmds: Seq<WorkerMessage>) -> nat
    decreases cmds.len(),
{
    if cmds.len() == 0 {
        0
    } else {
        (if cmds[0] is Write {
            1nat
        } else {
            0nat
        }) + write_commands(cmds.drop_first())
    }
}

/// A running worker counts exactly the `Write` commands it is given, as long
/// as no `Stop` comes among them; so N writes count N.
pub proof fn writes_are_counted(w: WorkerView, cmds: Seq<WorkerMessage>)
    requires
        w.running,
        forall|i: int| 0 <= i < cmds.len() ==> !(#[trigger] cmds[i] is Stop),
    ensures
        counted_writes(w, cmds) == write_commands(cmds),
        (forall|i: int| 0 <= i < cmds.len() ==> #[trigger] cmds[i] is Write) ==> counted_writes(
            w,
            cmds,
        ) == cmds.len(),
    decreases cmds.len(),
{
    if cmds.len() > 0 {
        let rest = cmds.drop_first();
        assert forall|i: int| 0 <= i < rest.len() implies !(#[trigger] rest[i] is Stop) by {
            assert(rest[i] == cmds[i + 1]);
        }
        writes_are_counted(next_state(w, cmds[0]), rest);
        if forall|i: int| 0 <= i < cmds.len() ==> #[trigger] cmds[i] is Write {
            assert forall|i: int| 0 <= i < rest.len() implies #[trigger] rest[i] is Write by {
                assert(rest[i] == cmds[i + 1]);
            }
            assert(cmds[0] is Write);
        }
    }
}

/// Commands to one worker are handled in order: a `Read` of a key right after
/// a `Write` to it returns the written value.
pub proof fn read_after_write(
    w: WorkerView,
    wm: WriteMessage,
    rm: ReadMessage,
    reply: Option<WorkerMessage>,
)
    requires
        w.running,
        rm.key == wm.key,
        is_reply(next_state(w, WorkerMessage::Write(wm)), WorkerMessage::Read(rm), reply),
    ensures
        reply matches Some(WorkerMessage::TaskResult(TaskResult::ReadResult(op))) && bytes_of(
            op.result,
        ) == Some(wm.value@),
{
}

/// What a worker does with one command: the reply to emit, if any, and
/// whether the command adds one to the operations counter.
pub struct Step {
    pub reply: Option<WorkerMessage>,
    pub counted: bool,
}

/// The command-handling state of a partition worker, which owns its store.
pub struct BucketWorker {
    storage: Bucket,
    running: bool,
}

impl View for BucketWorker {
    type V = WorkerView;

    closed spec fn view(&self) -> WorkerView {
        WorkerView { store: self.storage@, running: self.running }
    }
}

impl BucketWorker {
    /// A running worker that owns `storage`.
    pub fn new(storage: Bucket) -> (r: BucketWorker)
        ensures
            r@ == (WorkerView { store: storage@, running: true }),
    {
        BucketWorker { storage, running: true }
    }

    /// False once a `Stop` has been handled.
    pub fn is_running(&self) -> (r: bool)
        ensures
            r == self@.running,
    {
        self.running
    }

    /// The store, for reading.
    pub fn storage(&self) -> (r: &Bucket)
        ensures
            r@ == self@.store,
    {
        &self.storage
    }

    /// Handles one command: reads or writes the store, and says what to reply.
    pub fn handle(&mut self, msg: WorkerMessage) -> (r: Step)
        ensures
            final(self)@ == next_state(old(self)@, msg),
            r.counted == counts_write(old(self)@, msg),
            is_reply(old(self)@, msg, r.reply),
    {
        if !self.running {
            return Step { reply: None, counted: false };
        }
        match msg {
            WorkerMessage::Stop => {
                self.running = false;
                Step { reply: Some(WorkerMessage::TaskResult(TaskResult::StopFlag)), counted: false }
            },
            WorkerMessage::Read(m) => {
                let result = self.storage.get(&m.key);
                let op = OpResult::new(result, m.req_id);
                Step {
                    reply: Some(WorkerMessage::TaskResult(TaskResult::ReadResult(op))),
                    counted: false,
                }
            },
            WorkerMessage::Write(m) => {
                let result = self.storage.set(m.key, m.value);
                let op = OpResult::new(result, m.req_id);
                Step {
                    reply: Some(WorkerMessage::TaskResult(TaskResult::WriteResult(op))),
                    counted: true,
                }
            },
            WorkerMessage::Dump => {
                let e = self.storage.dump();
                Step {
                    reply: Some(WorkerMessage::TaskResult(TaskResult::DumpResult(e))),
                    counted: false,
                }
            },
            WorkerMessage::TaskResult(_) => Step { reply: None, counted: false },
        }
    }
}

} // verus!
