use vstd::prelude::*;

use crate::bucket::bytes_of;
use crate::key::Key;
use crate::worker::{ReadMessage, TaskResult, WorkerMessage, WriteMessage};

verus! {

/// The failures that the controller reports to its caller.
#[derive(Debug, Clone, Copy, PartialEq, Eq, Structural)]
pub enum ControllerError {
    /// A partition under this name is already registered.
    DuplicateNameError,
    /// No partition is registered under this name.
    UnknownPartitionError,
    /// Only read commands may be sent to every partition.
    BroadcastMisuseError,
}

/// A registered partition: its name and the handle of its worker.
pub struct Partition<H> {
    pub name: String,
    pub handle: H,
}

/// The routing table of the store: partitions by name, each name once, and
/// the handle of the filesystem worker.
pub struct Controller<H, F> {
    workers: Vec<Partition<H>>,
    fs: F,
}

/// The names of a sequence of partitions.
pub open spec fn names_of<H>(ps: Seq<Partition<H>>) -> Seq<Seq<char>> {
    ps.map_values(|p: Partition<H>| p.name@)
}

/// Whether no name occurs twice.
pub open spec fn distinct_names(names: Seq<Seq<char>>) -> bool {
    forall|i: int, j: int| 0 <= i < j < names.len() ==> names[i] != names[j]
}

/// The position of `name` among `names`, if it is there.
pub open spec fn position_of(names: Seq<Seq<char>>, name: Seq<char>) -> Option<int> {
    if names.contains(name) {
        Some(choose|i: int| 0 <= i < names.len() && names[i] == name)
    } else {
        None
    }
}

/// The value that a reply carries for the request with correlation id
/// `req_id`, or `None` when the reply answers another request.
pub open spec fn reply_value(reply: WorkerMessage, req_id: u128) -> Option<Option<Seq<u8>>> {
    match reply {
        WorkerMessage::TaskResult(TaskResult::ReadResult(op)) => if op.req_id == req_id {
            Some(bytes_of(op.result))
        } else {
            None
        },
        WorkerMessage::TaskResult(TaskResult::WriteResult(op)) => if op.req_id == req_id {
            Some(bytes_of(op.result))
        } else {
            None
        },
        _ => None,
    }
}

impl<H, F> Controller<H, F> {
    /// Well-formed: each name is registered once.
    pub closed spec fn wf(&self) -> bool {
        distinct_names(names_of(self.workers@))
    }

    /// The registered partitions, in the order of registration.
    pub closed spec fn partitions(&self) -> Seq<Partition<H>> {
        self.workers@
    }

    /// The names of the registered partitions, in the order of registration.
    pub open spec fn names(&self) -> Seq<Seq<char>> {
        names_of(self.partitions())
    }

    pub closed spec fn fs_handle(&self) -> F {
        self.fs
    }

    /// The handle of the partition registered under `name`.
    pub open spec fn handle_of(&self, name: Seq<char>) -> H {
        self.partitions()[position_of(self.names(), name)->0].handle
    }

    /// A table with no partition, beside the filesystem worker `fs`.
    pub fn new(fs: F) -> (r: Controller<H, F>)
        ensures
            r.wf(),
            r.partitions() == Seq::<Partition<H>>::empty(),
            r.fs_handle() == fs,
    {
        let r = Controller { workers: Vec::new(), fs };
        assert(names_of(r.workers@) =~= Seq::<Seq<char>>::empty());
        r
    }

    /// The number of registered partitions.
    pub fn partition_count(&self) -> (r: usize)
        ensures
            r == self.partitions().len(),
    {
        self.workers.len()
    }

    /// The handle of the filesystem worker.
    pub fn fs(&self) -> (r: &F)
        ensures
            *r == self.fs_handle(),
    {
        &self.fs
    }

    /// Where `name` stands in the table, if it is registered.
    fn find(&self, name: &String) -> (r: Option<usize>)
        ensures
            r is Some <==> self.names().contains(name@),
            r matches Some(i) ==> i < self.partitions().len() && self.names()[i as int] == name@,
    {
        let mut i: usize = 0;
        while i < self.workers.len()
            invariant
                i <= self.workers@.len(),
                forall|j: int| 0 <= j < i ==> self.names()[j] != name@,
            decreases self.workers@.len() - i,
        {
            if self.workers[i].name == *name {
                assert(self.names()[i as int] == name@);
                return Some(i);
            }
            i = i + 1;
        }
        assert(!self.names().contains(name@)) by {
            if self.names().contains(name@) {
                let k = choose|k: int| 0 <= k < self.names().len() && self.names()[k] == name@;
                assert(self.names()[k] != name@);
            }
        }
        None
    }

    /// Whether a partition is registered under `name`.
    pub fn has_partition(&self, name: &str) -> (r: bool)
        ensures
            r == self.names().contains(name@),
    {
        let name = name.to_owned();
        self.find(&name).is_some()
    }

    /// The handle of the partition registered under `name`;
    /// `UnknownPartitionError` when there is none.
    pub fn route(&self, name: &str) -> (r: Result<&H, ControllerError>)
        requires
            self.wf(),
        ensures
            r is Ok <==> self.names().contains(name@),
            r matches Ok(h) ==> *h == self.handle_of(name@),
            r matches Err(e) ==> e == ControllerError::UnknownPartitionError,
    {
        let name = name.to_owned();
        match self.find(&name) {
            Some(i) => {
                proof {
                    let p = position_of(self.names(), name@)->0;
                    assert(p == i as int);
                }
                Ok(&self.workers[i].handle)
            },
            None => Err(ControllerError::UnknownPartitionError),
        }
    }

    /// Registers a partition under `name`, whose worker `make` starts.
    /// `DuplicateNameError` when the name is taken: then `make` is not called
    /// and the table stays as it was.
    pub fn create_partition<M: FnOnce() -> H>(&mut self, name: String, make: M) -> (r: Result<
        (),
        ControllerError,
    >)
        requires
            old(self).wf(),
            make.requires(()),
        ensures
            old(self).names().contains(name@) ==> r == Err::<(), ControllerError>(
                ControllerError::DuplicateNameError,
            ),
            old(self).names().contains(name@) ==> final(self).partitions() == old(
                self,
            ).partitions(),
            !old(self).names().contains(name@) ==> r is Ok,
            !old(self).names().contains(name@) ==> final(self).names() == old(self).names().push(
                name@,
            ),
            !old(self).names().contains(name@) ==> final(self).partitions().drop_last() == old(
                self,
            ).partitions(),
            !old(self).names().contains(name@) ==> make.ensures(
                (),
                final(self).partitions().last().handle,
            ),
            final(self).fs_handle() == old(self).fs_handle(),
            final(self).wf(),
    {
        if self.find(&name).is_some() {
            return Err(ControllerError::DuplicateNameError);
        }
        let handle = make();
        let ghost before = self.workers@;
        let ghost n = name@;
        let entry = Partition { name, handle };
        proof {
            assert(names_of(before.push(entry)) =~= names_of(before).push(n));
        }
        self.workers.push(entry);
        proof {
            assert(self.workers@.drop_last() =~= before);
        }
        Ok(())
    }

    /// A read of `key` for the partition under `name`, with a fresh
    /// correlation id, and the handle to send it to;
    /// `UnknownPartitionError` when there is no such partition.
    pub fn dispatch_read(&self, key: Key, name: &str) -> (r: Result<
        (&H, WorkerMessage),
        ControllerError,
    >)
        requires
            self.wf(),
        ensures
            r is Ok <==> self.names().contains(name@),
            r matches Ok(d) ==> *d.0 == self.handle_of(name@),
            r matches Ok(d) ==> d.1 matches WorkerMessage::Read(m) && m.key == key,
            r matches Err(e) ==> e == ControllerError::UnknownPartitionError,
    {
        let handle = self.route(name)?;
        Ok((handle, WorkerMessage::Read(ReadMessage::new(key))))
    }

    /// A write of `value` under `key` for the partition under `name`, with a
    /// fresh correlation id, and the handle to send it to;
    /// `UnknownPartitionError` when there is no such partition.
    pub fn dispatch_write(&self, key: Key, value: Vec<u8>, name: &str) -> (r: Result<
        (&H, WorkerMessage),
        ControllerError,
    >)
        requires
            self.wf(),
        ensures
            r is Ok <==> self.names().contains(name@),
            r matches Ok(d) ==> *d.0 == self.handle_of(name@),
            r matches Ok(d) ==> d.1 matches WorkerMessage::Write(m) && m.key == key && m.value
                == value,
            r matches Err(e) ==> e == ControllerError::UnknownPartitionError,
    {
        let handle = self.route(name)?;
        Ok((handle, WorkerMessage::Write(WriteMessage::new(key, value))))
    }

    /// Every partition, each once and in table order, to send `cmd` to;
    /// `BroadcastMisuseError` unless `cmd` is a read. A caller tags each
    /// reply with the name of the partition whose queue it came from.
    pub fn broadcast_read(&self, cmd: &WorkerMessage) -> (r: Result<
        Vec<&Partition<H>>,
        ControllerError,
    >)
        requires
            self.wf(),
        ensures
            r is Ok <==> cmd is Read,
            r matches Err(e) ==> e == ControllerError::BroadcastMisuseError,
            r matches Ok(ps) ==> ps@.len() == self.partitions().len(),
            r matches Ok(ps) ==> forall|i: int|
                0 <= i < ps@.len() ==> *ps@[i] == self.partitions()[i],
            distinct_names(self.names()),
    {
        proof {
            self.names_of_view();
        }
        if !matches!(cmd, WorkerMessage::Read(_)) {
            return Err(ControllerError::BroadcastMisuseError);
        }
        let mut ps: Vec<&Partition<H>> = Vec::new();
        let mut i: usize = 0;
        while i < self.workers.len()
            invariant
                i <= self.workers@.len(),
                ps@.len() == i,
                forall|j: int| 0 <= j < i ==> *ps@[j] == self.workers@[j],
            decreases self.workers@.len() - i,
        {
            ps.push(&self.workers[i]);
            i = i + 1;
        }
        Ok(ps)
    }

    proof fn names_of_view(&self)
        requires
            self.wf(),
        ensures
            distinct_names(self.names()),
    {
    }

    /// Gives up the table: every partition, in table order, and the
    /// filesystem worker's handle, for shutting them down.
    pub fn into_parts(self) -> (r: (Vec<Partition<H>>, F))
        ensures
            r.0@ == self.partitions(),
            r.1 == self.fs_handle(),
    {
        (self.workers, self.fs)
    }
}

/// A broadcast reaches every registered partition exactly once: for each
/// registered name one target carries it, so replies tagged with the name of
/// the partition they came from give one reply per partition, whatever order
/// they arrive in.
pub proof fn broadcast_reaches_each_once<H>(table: Seq<Partition<H>>, targets: Seq<&Partition<H>>)
    requires
        distinct_names(names_of(table)),
        targets.len() == table.len(),
        forall|i: int| 0 <= i < targets.len() ==> *targets[i] == table[i],
    ensures
        forall|n: Seq<char>|
            names_of(table).contains(n) ==> exists|i: int|
                0 <= i < targets.len() && (#[trigger] targets[i]).name@ == n,
        forall|i: int, j: int|
            0 <= i < targets.len() && 0 <= j < targets.len() && (#[trigger] targets[i]).name@ == (
            #[trigger] targets[j]).name@ ==> i == j,
{
    assert forall|n: Seq<char>| names_of(table).contains(n) implies exists|i: int|
        0 <= i < targets.len() && (#[trigger] targets[i]).name@ == n by {
        let k = choose|k: int| 0 <= k < names_of(table).len() && names_of(table)[k] == n;
        assert(targets[k].name@ == n);
    }
    assert forall|i: int, j: int|
        0 <= i < targets.len() && 0 <= j < targets.len() && (#[trigger] targets[i]).name@ == (
        #[trigger] targets[j]).name@ implies i == j by {
        if i < j {
            assert(names_of(table)[i] == names_of(table)[j]);
        } else if j < i {
            assert(names_of(table)[j] == names_of(table)[i]);
        }
    }
}

fn copy_bytes(v: &Option<Vec<u8>>) -> (r: Option<Vec<u8>>)
    ensures
        bytes_of(r) == bytes_of(*v),
{
    match v {
        Some(b) => {
            let c = b.clone();
            assert(c@ =~= b@);
            Some(c)
        },
        None => None,
    }
}

/// Matches a reply against the request with correlation id `req_id`: the
/// value it carries, or `None` when it answers another request.
pub fn match_reply(reply: &WorkerMessage, req_id: u128) -> (r: Option<Option<Vec<u8>>>)
    ensures
        r is Some <==> reply_value(*reply, req_id) is Some,
        r matches Some(v) ==> reply_value(*reply, req_id) == Some(bytes_of(v)),
{
    match reply {
        WorkerMessage::TaskResult(TaskResult::ReadResult(op)) => if op.req_id == req_id {
            Some(copy_bytes(&op.result))
        } else {
            None
        },
        WorkerMessage::TaskResult(TaskResult::WriteResult(op)) => if op.req_id == req_id {
            Some(copy_bytes(&op.result))
        } else {
            None
        },
        _ => None,
    }
}

} // verus!
