use partkv::bucket::Bucket;
use partkv::controller::{match_reply, Controller, ControllerError};
use partkv::key::Key;
use partkv::worker::{
    BucketWorker, OpResult, ReadMessage, TaskResult, WorkerMessage, WriteMessage,
};

fn read_value(step_reply: Option<WorkerMessage>, req_id: u128) -> Option<Vec<u8>> {
    match_reply(&step_reply.unwrap(), req_id).unwrap()
}

#[test]
fn write_then_read_on_one_worker() {
    let mut w = BucketWorker::new(Bucket::new(None));
    let k = Key::derive("k");
    let wm = WriteMessage::new(k, b"a".to_vec());
    let wid = wm.req_id;
    let s = w.handle(WorkerMessage::Write(wm));
    assert!(s.counted);
    assert_eq!(read_value(s.reply, wid), None);
    let rm = ReadMessage::new(k);
    let rid = rm.req_id;
    let s = w.handle(WorkerMessage::Read(rm));
    assert!(!s.counted);
    assert_eq!(read_value(s.reply, rid), Some(b"a".to_vec()));
}

#[test]
fn writes_are_counted_once_each() {
    let mut w = BucketWorker::new(Bucket::new(None));
    let mut count = 0;
    for i in 0..5u8 {
        if w.handle(WorkerMessage::Write(WriteMessage::new(Key(i as u128), vec![i]))).counted {
            count += 1;
        }
        if w.handle(WorkerMessage::Read(ReadMessage::new(Key(0)))).counted {
            count += 1;
        }
        if w.handle(WorkerMessage::Dump).counted {
            count += 1;
        }
    }
    assert_eq!(count, 5);
}

#[test]
fn stop_acknowledges_and_ends() {
    let mut w = BucketWorker::new(Bucket::new(None));
    let s = w.handle(WorkerMessage::Stop);
    assert!(matches!(s.reply, Some(WorkerMessage::TaskResult(TaskResult::StopFlag))));
    assert!(!w.is_running());
    let s = w.handle(WorkerMessage::Write(WriteMessage::new(Key(1), vec![1])));
    assert!(s.reply.is_none());
    assert!(!s.counted);
    assert_eq!(w.storage().get(&Key(1)), None);
}

#[test]
fn stray_result_is_dropped() {
    let mut w = BucketWorker::new(Bucket::new(None));
    let s = w.handle(WorkerMessage::TaskResult(TaskResult::StopFlag));
    assert!(s.reply.is_none());
    assert!(w.is_running());
}

#[test]
fn dump_command_replies_with_envelope() {
    let mut b = Bucket::new(Some("d".to_string()));
    b.set(Key(3), vec![3]);
    let id = b.id();
    let mut w = BucketWorker::new(b);
    match w.handle(WorkerMessage::Dump).reply {
        Some(WorkerMessage::TaskResult(TaskResult::DumpResult(e))) => {
            assert_eq!(e.label, "d");
            assert_eq!(e.id, id);
            assert_eq!(e.storage.as_object().unwrap().len(), 1);
        }
        _ => panic!("expected a dump result"),
    }
}

#[test]
fn reply_matching_uses_correlation_id() {
    let r = WorkerMessage::TaskResult(TaskResult::ReadResult(OpResult::new(Some(vec![1]), 7)));
    assert_eq!(match_reply(&r, 7), Some(Some(vec![1])));
    assert_eq!(match_reply(&r, 8), None);
    let w = WorkerMessage::TaskResult(TaskResult::WriteResult(OpResult::new(None, 9)));
    assert_eq!(match_reply(&w, 9), Some(None));
    assert_eq!(match_reply(&WorkerMessage::Dump, 9), None);
}

#[test]
fn create_partition_twice_fails() {
    let mut c: Controller<u32, ()> = Controller::new(());
    assert_eq!(c.create_partition("p1".to_string(), || 1), Ok(()));
    assert_eq!(
        c.create_partition("p1".to_string(), || panic!("not started twice")),
        Err(ControllerError::DuplicateNameError)
    );
    assert_eq!(c.partition_count(), 1);
    assert_eq!(c.route("p1"), Ok(&1));
}

#[test]
fn dispatch_to_unknown_partition_fails() {
    let mut c: Controller<u32, ()> = Controller::new(());
    assert!(matches!(c.dispatch_read(Key(1), "ghost"), Err(ControllerError::UnknownPartitionError)));
    c.create_partition("real".to_string(), || 4).unwrap();
    assert!(matches!(
        c.dispatch_write(Key(1), vec![1], "ghost"),
        Err(ControllerError::UnknownPartitionError)
    ));
    assert!(!c.has_partition("ghost"));
    assert!(c.has_partition("real"));
}

#[test]
fn dispatch_routes_by_name() {
    let mut c: Controller<u32, ()> = Controller::new(());
    c.create_partition("a".to_string(), || 10).unwrap();
    c.create_partition("b".to_string(), || 20).unwrap();
    match c.dispatch_read(Key(5), "b") {
        Ok((h, WorkerMessage::Read(m))) => {
            assert_eq!(*h, 20);
            assert_eq!(m.key, Key(5));
        }
        _ => panic!("expected a read for b"),
    }
    match c.dispatch_write(Key(6), vec![6], "a") {
        Ok((h, WorkerMessage::Write(m))) => {
            assert_eq!(*h, 10);
            assert_eq!(m.key, Key(6));
            assert_eq!(m.value, vec![6]);
        }
        _ => panic!("expected a write for a"),
    }
}

#[test]
fn broadcast_reaches_every_partition_once() {
    let mut c: Controller<u32, ()> = Controller::new(());
    for (n, h) in [("A", 1), ("B", 2), ("C", 3)] {
        c.create_partition(n.to_string(), move || h).unwrap();
    }
    let cmd = WorkerMessage::Read(ReadMessage::new(Key(1)));
    let targets = c.broadcast_read(&cmd).ok().unwrap();
    let mut names: Vec<&str> = targets.iter().map(|p| p.name.as_str()).collect();
    names.sort();
    assert_eq!(names, vec!["A", "B", "C"]);
}

#[test]
fn broadcast_of_non_read_fails() {
    let mut c: Controller<u32, ()> = Controller::new(());
    c.create_partition("A".to_string(), || 1).unwrap();
    let w = WorkerMessage::Write(WriteMessage::new(Key(1), vec![]));
    assert!(matches!(c.broadcast_read(&w), Err(ControllerError::BroadcastMisuseError)));
    assert!(matches!(c.broadcast_read(&WorkerMessage::Stop), Err(ControllerError::BroadcastMisuseError)));
}

#[test]
fn into_parts_gives_back_handles() {
    let mut c: Controller<u32, &str> = Controller::new("fs");
    c.create_partition("x".to_string(), || 1).unwrap();
    assert_eq!(*c.fs(), "fs");
    let (ps, fs) = c.into_parts();
    assert_eq!(ps.len(), 1);
    assert_eq!(ps[0].name, "x");
    assert_eq!(fs, "fs");
}
