use h5swmr::dataset::{DatasetState, H5Dataset};
use h5swmr::dataspace::DataSpace;
use h5swmr::error::{ErrorKind, Operation, SwmrError};
use h5swmr::htype::H5Datatype;
use h5swmr::protocol::{Handle, Machine, Reply, Request, ResourceKind, Sign, Step, TypeClass};
use h5swmr::swmr::{multiple_reader, open_reader, OpenFileMrRead, SwmrReadFapl};
use h5swmr::writer::{open_writer, Durability, WriterSession};

/// A container in memory that answers requests as the storage layer would.
struct Fake {
    exists: bool,
    slots: Vec<i64>,
    visible: usize,
    next_id: i64,
    open: Vec<Handle>,
    fail: Option<(Operation, usize)>,
    asked: Vec<Operation>,
    created: usize,
    reports: Vec<(Vec<i64>, Vec<i64>)>,
    pauses: Vec<u64>,
    paths: Vec<String>,
    windows: Vec<(u64, u64)>,
    chunks: Vec<u64>,
}

impl Fake {
    fn new() -> Fake {
        Fake {
            exists: false,
            slots: Vec::new(),
            visible: 0,
            next_id: 100,
            open: Vec::new(),
            fail: None,
            asked: Vec::new(),
            created: 0,
            reports: Vec::new(),
            pauses: Vec::new(),
            paths: Vec::new(),
            windows: Vec::new(),
            chunks: Vec::new(),
        }
    }

    fn holding(records: &[i64]) -> Fake {
        let mut fake = Fake::new();
        fake.exists = true;
        fake.slots = records.to_vec();
        fake.visible = records.len();
        fake
    }

    fn failing(mut self, op: Operation, nth: usize) -> Fake {
        self.fail = Some((op, nth));
        self
    }

    fn acquire(&mut self, kind: ResourceKind) -> Reply {
        let id = self.next_id;
        self.next_id += 1;
        self.open.push(Handle { kind, id });
        Reply::Code(id)
    }

    fn count(&self, op: Operation) -> usize {
        self.asked.iter().filter(|o| **o == op).count()
    }

    fn answer(&mut self, request: Request) -> Reply {
        let op = request.op();
        self.asked.push(op);
        if let Some((failing, nth)) = self.fail {
            if failing == op && self.count(op) == nth {
                if let Request::Close { handle } = request {
                    let at = self.open.iter().position(|h| *h == handle).expect("released a handle that is not held");
                    self.open.remove(at);
                }
                return Reply::Code(-7);
            }
        }
        match request {
            Request::CreateAccessList | Request::CreateLayoutList => self.acquire(ResourceKind::PropertyList),
            Request::PinLatestFormat { .. } => Reply::Code(0),
            Request::SetChunk { records, .. } => {
                self.chunks.push(records);
                Reply::Code(0)
            }
            Request::OpenFile { path, .. } => {
                self.paths.push(path);
                if self.exists {
                    self.acquire(ResourceKind::File)
                } else {
                    Reply::Code(-1)
                }
            }
            Request::CreateFile { path } => {
                self.paths.push(path);
                self.exists = true;
                self.created += 1;
                self.slots.clear();
                self.visible = 0;
                self.acquire(ResourceKind::File)
            }
            Request::OpenDataset { .. } | Request::CreateDataset { .. } => self.acquire(ResourceKind::Dataset),
            Request::GetSpace { .. } | Request::CreateSpace { .. } => self.acquire(ResourceKind::Dataspace),
            Request::QueryExtent { .. } => Reply::Extent { status: 0, dims: vec![self.visible as u64] },
            Request::Refresh { .. } => Reply::Code(0),
            Request::ReadAll { .. } => Reply::Records { status: 0, data: self.slots[..self.visible].to_vec() },
            Request::ReadWindow { start, count, .. } => {
                self.windows.push((start, count));
                let (from, to) = (start as usize, (start + count) as usize);
                if to <= self.visible {
                    Reply::Records { status: 0, data: self.slots[from..to].to_vec() }
                } else {
                    Reply::Records { status: -1, data: Vec::new() }
                }
            }
            Request::GetType { .. } => self.acquire(ResourceKind::Datatype),
            Request::Describe { .. } => {
                Reply::TypeInfo { status: 0, class: TypeClass::Integer, size: 8, sign: Sign::Signed }
            }
            Request::Close { handle } => {
                let at = self.open.iter().position(|h| *h == handle).expect("released a handle that is not held");
                self.open.remove(at);
                Reply::Code(0)
            }
            Request::Extend { len, .. } => {
                self.slots.resize(len as usize, 0);
                Reply::Code(0)
            }
            Request::WriteSlot { start, value, .. } => {
                self.slots[start as usize] = value;
                Reply::Code(0)
            }
            Request::FlushDataset { .. } | Request::FlushFile { .. } => {
                self.visible = self.slots.len();
                Reply::Code(0)
            }
            Request::Report { newest, all } => {
                self.reports.push((newest, all));
                Reply::Code(0)
            }
            Request::Pause { millis } => {
                self.pauses.push(millis);
                Reply::Code(0)
            }
        }
    }
}

fn drive<M: Machine>(start: Step<M, M::Output>, fake: &mut Fake) -> M::Output {
    let mut step = start;
    loop {
        match step {
            Step::Done(end) => return end,
            Step::Next(machine, request) => {
                let reply = fake.answer(request);
                step = machine.advance(reply);
            }
        }
    }
}

fn open_dataset(fake: &mut Fake) -> H5Dataset {
    let dataset = drive(H5Dataset::new("data".to_string(), 1), fake).expect("dataset opens");
    fake.asked.clear();
    dataset
}

fn only(fake: &Fake, kind: ResourceKind) -> bool {
    fake.open.len() == 1 && fake.open[0].kind == kind
}

#[test]
fn newest_n_of_forty_gives_the_last_twenty() {
    let records: Vec<i64> = (0..40).collect();
    let mut fake = Fake::holding(&records);
    let dataset = open_dataset(&mut fake);
    let (dataset, got) = drive(dataset.get_newest_n(20), &mut fake);
    assert_eq!(got, Ok((20..40).collect::<Vec<i64>>()));
    assert_eq!(fake.windows, vec![(20, 20)]);
    assert!(dataset.is_refreshed());
    assert!(only(&fake, ResourceKind::Dataset));
}

#[test]
fn newest_n_of_fewer_gives_all() {
    let mut fake = Fake::holding(&[5, 6, 7]);
    let dataset = open_dataset(&mut fake);
    let (_, got) = drive(dataset.get_newest_n(10), &mut fake);
    assert_eq!(got, Ok(vec![5, 6, 7]));
    assert_eq!(fake.windows, vec![(0, 3)]);
}

#[test]
fn newest_n_of_exactly_n_gives_all() {
    let mut fake = Fake::holding(&[1, 2, 3, 4]);
    let dataset = open_dataset(&mut fake);
    let (_, got) = drive(dataset.get_newest_n(4), &mut fake);
    assert_eq!(got, Ok(vec![1, 2, 3, 4]));
}

#[test]
fn newest_n_of_empty_dataset_is_empty_not_an_error() {
    let mut fake = Fake::holding(&[]);
    let dataset = open_dataset(&mut fake);
    let (_, got) = drive(dataset.get_newest_n(20), &mut fake);
    assert_eq!(got, Ok(Vec::new()));
    assert_eq!(fake.windows, vec![(0, 0)]);
    assert!(only(&fake, ResourceKind::Dataset));
}

#[test]
fn newest_zero_is_empty() {
    let mut fake = Fake::holding(&[1, 2, 3]);
    let dataset = open_dataset(&mut fake);
    let (_, got) = drive(dataset.get_newest_n(0), &mut fake);
    assert_eq!(got, Ok(Vec::new()));
    assert_eq!(fake.windows, vec![(3, 0)]);
}

#[test]
fn newest_n_asks_in_protocol_order() {
    let mut fake = Fake::holding(&[1, 2, 3]);
    let dataset = open_dataset(&mut fake);
    let _ = drive(dataset.get_newest_n(2), &mut fake);
    assert_eq!(
        fake.asked,
        vec![
            Operation::Refresh,
            Operation::GetSpace,
            Operation::QueryExtent,
            Operation::Close,
            Operation::GetSpace,
            Operation::CreateSpace,
            Operation::ReadWindow,
            Operation::Close,
            Operation::Close,
        ]
    );
}

#[test]
fn read_all_gives_every_record_in_order() {
    let records: Vec<i64> = (0..40).collect();
    let mut fake = Fake::holding(&records);
    let dataset = open_dataset(&mut fake);
    let (dataset, got) = drive(dataset.read_all(), &mut fake);
    assert_eq!(got, Ok(records));
    assert!(dataset.is_refreshed());
    assert_eq!(
        fake.asked,
        vec![
            Operation::Refresh,
            Operation::GetSpace,
            Operation::QueryExtent,
            Operation::Close,
            Operation::ReadAll
        ]
    );
}

#[test]
fn read_all_fails_with_read_failed() {
    let mut fake = Fake::holding(&[1, 2]).failing(Operation::ReadAll, 1);
    let dataset = open_dataset(&mut fake);
    let (_, got) = drive(dataset.read_all(), &mut fake);
    assert_eq!(got, Err(SwmrError { kind: ErrorKind::ReadFailed, op: Operation::ReadAll, status: -7 }));
}

#[test]
fn read_of_wrong_length_is_refused() {
    let dataset = match H5Dataset::new("data".to_string(), 1) {
        Step::Next(open, _) => match open.advance(Reply::Code(5)) {
            Step::Done(Ok(dataset)) => dataset,
            _ => panic!("dataset opens"),
        },
        Step::Done(_) => panic!("an open asks first"),
    };
    let replies = vec![
        Reply::Code(0),
        Reply::Code(9),
        Reply::Extent { status: 0, dims: vec![3] },
        Reply::Code(0),
        Reply::Records { status: 0, data: vec![1, 2] },
    ];
    let mut step = dataset.read_all();
    for reply in replies {
        step = match step {
            Step::Next(machine, _) => machine.advance(reply),
            Step::Done(_) => panic!("ended early"),
        };
    }
    match step {
        Step::Done((_, got)) => {
            assert_eq!(got, Err(SwmrError { kind: ErrorKind::ReadFailed, op: Operation::ReadAll, status: 0 }))
        }
        Step::Next(..) => panic!("not ended"),
    }
}

#[test]
fn refresh_twice_gives_the_same_extent() {
    let mut fake = Fake::holding(&[4, 5, 6]);
    let dataset = open_dataset(&mut fake);
    let (dataset, first) = drive(dataset.refresh(), &mut fake);
    let (dataset, second) = drive(dataset.refresh(), &mut fake);
    assert_eq!(first, Ok(vec![3]));
    assert_eq!(second, first);
    assert!(dataset.is_refreshed());
}

#[test]
fn refresh_failure_is_refresh_failed_and_leaves_state() {
    let mut fake = Fake::holding(&[4]).failing(Operation::Refresh, 1);
    let dataset = open_dataset(&mut fake);
    let (dataset, got) = drive(dataset.refresh(), &mut fake);
    assert_eq!(got, Err(SwmrError { kind: ErrorKind::RefreshFailed, op: Operation::Refresh, status: -7 }));
    assert!(!dataset.is_refreshed());
    assert_eq!(fake.asked, vec![Operation::Refresh]);
}

#[test]
fn ndims_reports_extent_and_releases_space() {
    let mut fake = Fake::holding(&[4, 5, 6, 7]);
    let dataset = open_dataset(&mut fake);
    let (dataset, dims) = drive(dataset.ndims(), &mut fake);
    assert_eq!(dims, Ok(vec![4]));
    assert!(!dataset.is_refreshed());
    assert!(only(&fake, ResourceKind::Dataset));
}

#[test]
fn extent_query_failure_still_releases_space() {
    let mut fake = Fake::holding(&[4]).failing(Operation::QueryExtent, 1);
    let dataset = open_dataset(&mut fake);
    let (_, dims) = drive(dataset.ndims(), &mut fake);
    assert_eq!(dims, Err(SwmrError { kind: ErrorKind::ReadFailed, op: Operation::QueryExtent, status: -7 }));
    assert!(only(&fake, ResourceKind::Dataset));
}

#[test]
fn window_read_failure_releases_both_spaces() {
    let mut fake = Fake::holding(&[1, 2, 3]).failing(Operation::ReadWindow, 1);
    let dataset = open_dataset(&mut fake);
    let (_, got) = drive(dataset.get_newest_n(2), &mut fake);
    assert_eq!(got, Err(SwmrError { kind: ErrorKind::ReadFailed, op: Operation::ReadWindow, status: -7 }));
    assert!(only(&fake, ResourceKind::Dataset));
    assert_eq!(fake.count(Operation::Close), 3);
}

#[test]
fn memory_space_failure_releases_file_space() {
    let mut fake = Fake::holding(&[1, 2, 3]).failing(Operation::CreateSpace, 1);
    let dataset = open_dataset(&mut fake);
    let (_, got) = drive(dataset.get_newest_n(2), &mut fake);
    assert_eq!(got, Err(SwmrError { kind: ErrorKind::CreateFailed, op: Operation::CreateSpace, status: -7 }));
    assert!(only(&fake, ResourceKind::Dataset));
}

#[test]
fn failed_release_is_reported_as_close_failed() {
    let mut fake = Fake::holding(&[1, 2, 3]).failing(Operation::Close, 2);
    let dataset = open_dataset(&mut fake);
    let (_, got) = drive(dataset.get_newest_n(2), &mut fake);
    assert_eq!(got, Err(SwmrError { kind: ErrorKind::CloseFailed, op: Operation::Close, status: -7 }));
    assert_eq!(fake.count(Operation::Close), 3);
}

#[test]
fn dataspace_pair_holds_both_ids_and_releases_both() {
    let mut fake = Fake::holding(&[1]);
    let space = drive(DataSpace::new(42, 5), &mut fake).expect("spaces open");
    assert_eq!(space.dataspace_id(), 100);
    assert_eq!(space.memoryspace_id(), 101);
    assert_eq!(fake.open.len(), 2);
    let released = drive(space.release(None), &mut fake);
    assert_eq!(released, Ok(()));
    assert!(fake.open.is_empty());
}

#[test]
fn dataset_open_failure_is_open_failed() {
    let mut fake = Fake::holding(&[]).failing(Operation::OpenDataset, 1);
    let got = drive(H5Dataset::new("data".to_string(), 1), &mut fake);
    assert!(matches!(got, Err(SwmrError { kind: ErrorKind::OpenFailed, op: Operation::OpenDataset, status: -7 })));
}

#[test]
fn dataset_id_is_the_native_id() {
    let mut fake = Fake::holding(&[]);
    let dataset = open_dataset(&mut fake);
    assert_eq!(dataset.id(), 100);
    assert!(!dataset.is_closed());
    assert!(!dataset.is_refreshed());
}

#[test]
fn closed_dataset_fails_fast_with_use_after_close() {
    let mut fake = Fake::holding(&[1, 2]);
    let dataset = open_dataset(&mut fake);
    let (dataset, closed) = drive(dataset.close(), &mut fake);
    assert_eq!(closed, Ok(()));
    assert!(dataset.is_closed());
    assert!(fake.open.is_empty());
    fake.asked.clear();
    let (dataset, got) = drive(dataset.get_newest_n(1), &mut fake);
    assert_eq!(got, Err(SwmrError { kind: ErrorKind::UseAfterClose, op: Operation::ReadWindow, status: 0 }));
    let (dataset, got) = drive(dataset.read_all(), &mut fake);
    assert_eq!(got, Err(SwmrError { kind: ErrorKind::UseAfterClose, op: Operation::ReadAll, status: 0 }));
    let (dataset, got) = drive(dataset.refresh(), &mut fake);
    assert_eq!(got, Err(SwmrError { kind: ErrorKind::UseAfterClose, op: Operation::Refresh, status: 0 }));
    let (dataset, got) = drive(dataset.ndims(), &mut fake);
    assert_eq!(got, Err(SwmrError { kind: ErrorKind::UseAfterClose, op: Operation::GetSpace, status: 0 }));
    assert!(matches!(
        drive(dataset.get_datatype(), &mut fake),
        Err(SwmrError { kind: ErrorKind::UseAfterClose, op: Operation::GetType, status: 0 })
    ));
    let (_, got) = drive(dataset.close(), &mut fake);
    assert_eq!(got, Err(SwmrError { kind: ErrorKind::UseAfterClose, op: Operation::Close, status: 0 }));
    assert!(fake.asked.is_empty());
}

#[test]
fn failed_close_still_closes_the_handle() {
    let mut fake = Fake::holding(&[1]).failing(Operation::Close, 1);
    let dataset = open_dataset(&mut fake);
    let (dataset, got) = drive(dataset.close(), &mut fake);
    assert_eq!(got, Err(SwmrError { kind: ErrorKind::CloseFailed, op: Operation::Close, status: -7 }));
    assert!(dataset.is_closed());
}

#[test]
fn datatype_is_described_and_released() {
    let mut fake = Fake::holding(&[1]);
    let dataset = open_dataset(&mut fake);
    let datatype: H5Datatype = drive(dataset.get_datatype(), &mut fake).expect("type opens");
    assert_eq!(datatype.id(), 101);
    assert_eq!(datatype.class(), TypeClass::Integer);
    assert_eq!(datatype.size(), 8);
    assert_eq!(datatype.sign(), Sign::Signed);
    assert_eq!(drive(datatype.release(), &mut fake), Ok(()));
    assert!(only(&fake, ResourceKind::Dataset));
}

#[test]
fn datatype_that_cannot_be_described_is_released() {
    let mut fake = Fake::holding(&[1]).failing(Operation::Describe, 1);
    let got = drive(H5Datatype::new(7), &mut fake);
    assert!(matches!(got, Err(SwmrError { kind: ErrorKind::ReadFailed, op: Operation::Describe, status: -7 })));
    assert!(fake.open.is_empty());
}

#[test]
fn access_list_is_created_then_pinned() {
    let mut fake = Fake::new();
    let fapl = drive(SwmrReadFapl::new(), &mut fake).expect("list is made");
    assert_eq!(fapl.id(), 100);
    assert_eq!(fake.asked, vec![Operation::CreateAccessList, Operation::PinLatestFormat]);
    assert_eq!(drive(fapl.release(), &mut fake), Ok(()));
    assert!(fake.open.is_empty());
}

#[test]
fn access_list_that_cannot_be_pinned_is_released() {
    let mut fake = Fake::new().failing(Operation::PinLatestFormat, 1);
    let got = drive(SwmrReadFapl::new(), &mut fake);
    assert!(matches!(
        got,
        Err(SwmrError { kind: ErrorKind::CreateFailed, op: Operation::PinLatestFormat, status: -7 })
    ));
    assert!(fake.open.is_empty());
}

#[test]
fn file_opens_with_the_given_path_and_list() {
    let mut fake = Fake::holding(&[]);
    let step = OpenFileMrRead::new_swmr_reader("test.h5".to_string(), 17);
    match &step {
        Step::Next(_, Request::OpenFile { path, access_plist }) => {
            assert_eq!(path, "test.h5");
            assert_eq!(*access_plist, 17);
        }
        _ => panic!("an open asks for the file first"),
    }
    let file = drive(step, &mut fake).expect("file opens");
    assert_eq!(file.id(), 100);
    assert_eq!(drive(file.release(), &mut fake), Ok(()));
    assert!(fake.open.is_empty());
}

#[test]
fn reader_without_container_fails_with_open_failed() {
    let mut fake = Fake::new();
    let got = drive(open_reader("missing.h5".to_string()), &mut fake);
    assert!(matches!(got, Err(SwmrError { kind: ErrorKind::OpenFailed, op: Operation::OpenFile, status: -1 })));
    assert!(fake.open.is_empty());
    assert_eq!(
        fake.asked,
        vec![Operation::CreateAccessList, Operation::PinLatestFormat, Operation::OpenFile, Operation::Close]
    );
}

#[test]
fn reader_session_opens_dataset_and_closes_in_order() {
    let mut fake = Fake::holding(&[9, 8]);
    let session = drive(open_reader("test.h5".to_string()), &mut fake).expect("session opens");
    let dataset = drive(session.dataset("data".to_string()), &mut fake).expect("dataset opens");
    let (dataset, all) = drive(dataset.read_all(), &mut fake);
    assert_eq!(all, Ok(vec![9, 8]));
    let (_, closed) = drive(dataset.close(), &mut fake);
    assert_eq!(closed, Ok(()));
    assert_eq!(drive(session.close(None), &mut fake), Ok(()));
    assert!(fake.open.is_empty());
}

#[test]
fn writer_replaces_an_existing_container() {
    let mut fake = Fake::holding(&[1, 2, 3]);
    let step = open_writer("test.h5".to_string(), "data".to_string(), 100, Durability::EveryAppend);
    assert!(matches!(&step, Step::Next(_, Request::CreateFile { path }) if path == "test.h5"));
    let session = drive(step, &mut fake).expect("writer opens");
    assert_eq!(fake.created, 1);
    assert_eq!(session.len(), 0);
    assert!(fake.slots.is_empty());
    assert_eq!(fake.chunks, vec![100]);
    assert_eq!(fake.open.len(), 2);
    assert_eq!(
        fake.asked,
        vec![
            Operation::CreateFile,
            Operation::CreateSpace,
            Operation::CreateLayoutList,
            Operation::SetChunk,
            Operation::CreateDataset,
            Operation::Close,
            Operation::Close,
        ]
    );
    assert_eq!(drive(session.close(), &mut fake), Ok(()));
    assert!(fake.open.is_empty());
}

#[test]
fn writer_with_zero_chunk_is_refused() {
    let step = open_writer("test.h5".to_string(), "data".to_string(), 0, Durability::EveryAppend);
    assert!(matches!(
        step,
        Step::Done(Err(SwmrError { kind: ErrorKind::CreateFailed, op: Operation::SetChunk, status: 0 }))
    ));
}

#[test]
fn writer_open_failures_release_everything() {
    for (op, nth) in [
        (Operation::CreateFile, 1),
        (Operation::CreateSpace, 1),
        (Operation::CreateLayoutList, 1),
        (Operation::SetChunk, 1),
        (Operation::CreateDataset, 1),
        (Operation::Close, 1),
        (Operation::Close, 2),
    ] {
        let mut fake = Fake::new().failing(op, nth);
        let got = drive(
            open_writer("test.h5".to_string(), "data".to_string(), 100, Durability::EveryAppend),
            &mut fake,
        );
        match got {
            Err(e) => {
                assert_eq!(e.op, op);
                assert_eq!(e.status, -7);
            }
            Ok(_) => panic!("a failure was met"),
        }
        assert!(fake.open.is_empty());
    }
}

fn writer(fake: &mut Fake, policy: Durability) -> WriterSession {
    let session = drive(open_writer("test.h5".to_string(), "data".to_string(), 100, policy), fake)
        .expect("writer opens");
    fake.asked.clear();
    session
}

#[test]
fn append_extends_writes_and_flushes() {
    let mut fake = Fake::new();
    let session = writer(&mut fake, Durability::EveryAppend);
    let (session, done) = drive(session.append(11), &mut fake);
    assert_eq!(done, Ok(()));
    assert_eq!(session.len(), 1);
    assert_eq!(fake.slots, vec![11]);
    assert_eq!(fake.visible, 1);
    assert_eq!(
        fake.asked,
        vec![
            Operation::Extend,
            Operation::CreateSpace,
            Operation::CreateSpace,
            Operation::WriteSlot,
            Operation::Close,
            Operation::Close,
            Operation::FlushDataset,
            Operation::FlushFile,
        ]
    );
    assert_eq!(fake.open.len(), 2);
}

#[test]
fn read_all_after_each_append_gives_what_was_appended() {
    let mut fake = Fake::new();
    let mut session = writer(&mut fake, Durability::EveryAppend);
    let reader = drive(open_reader("test.h5".to_string()), &mut fake).expect("reader opens");
    let mut dataset = drive(reader.dataset("data".to_string()), &mut fake).expect("dataset opens");
    for i in 0..10i64 {
        let (next, done) = drive(session.append(i * 3), &mut fake);
        assert_eq!(done, Ok(()));
        session = next;
        let (back, all) = drive(dataset.read_all(), &mut fake);
        dataset = back;
        assert_eq!(all, Ok((0..=i).map(|k| k * 3).collect::<Vec<i64>>()));
    }
    assert_eq!(session.len(), 10);
}

#[test]
fn failed_write_leaves_the_extent_grown() {
    let mut fake = Fake::new();
    let session = writer(&mut fake, Durability::EveryAppend);
    fake.fail = Some((Operation::WriteSlot, 1));
    let (session, done) = drive(session.append(5), &mut fake);
    assert_eq!(done, Err(SwmrError { kind: ErrorKind::WriteFailed, op: Operation::WriteSlot, status: -7 }));
    assert_eq!(session.len(), 1);
    assert_eq!(fake.slots.len(), 1);
    assert_eq!(fake.visible, 0);
    assert_eq!(fake.open.len(), 2);
    assert_eq!(fake.count(Operation::FlushFile), 0);
}

#[test]
fn failed_extend_leaves_the_extent() {
    let mut fake = Fake::new();
    let session = writer(&mut fake, Durability::EveryAppend);
    fake.fail = Some((Operation::Extend, 1));
    let (session, done) = drive(session.append(5), &mut fake);
    assert_eq!(done, Err(SwmrError { kind: ErrorKind::ExtendFailed, op: Operation::Extend, status: -7 }));
    assert_eq!(session.len(), 0);
}

#[test]
fn failed_flush_is_flush_failed() {
    for op in [Operation::FlushDataset, Operation::FlushFile] {
        let mut fake = Fake::new();
        let session = writer(&mut fake, Durability::EveryAppend);
        fake.fail = Some((op, 1));
        let (session, done) = drive(session.append(5), &mut fake);
        assert_eq!(done, Err(SwmrError { kind: ErrorKind::FlushFailed, op, status: -7 }));
        assert_eq!(session.len(), 1);
    }
}

#[test]
fn append_releases_spaces_when_memory_space_fails() {
    let mut fake = Fake::new();
    let session = writer(&mut fake, Durability::EveryAppend);
    fake.fail = Some((Operation::CreateSpace, 2));
    let (_, done) = drive(session.append(5), &mut fake);
    assert_eq!(done, Err(SwmrError { kind: ErrorKind::CreateFailed, op: Operation::CreateSpace, status: -7 }));
    assert_eq!(fake.open.len(), 2);
}

#[test]
fn policy_of_every_third_flushes_on_multiples_of_three() {
    let mut fake = Fake::new();
    let mut session = writer(&mut fake, Durability::Every(3));
    let mut seen = Vec::new();
    for i in 0..7i64 {
        let (next, done) = drive(session.append(i), &mut fake);
        assert_eq!(done, Ok(()));
        session = next;
        seen.push(fake.visible);
    }
    assert_eq!(seen, vec![0, 0, 3, 3, 3, 6, 6]);
}

#[test]
fn policy_of_every_zero_never_flushes() {
    let mut fake = Fake::new();
    let mut session = writer(&mut fake, Durability::Every(0));
    for i in 0..4i64 {
        let (next, done) = drive(session.append(i), &mut fake);
        assert_eq!(done, Ok(()));
        session = next;
    }
    assert_eq!(fake.visible, 0);
    assert_eq!(fake.slots, vec![0, 1, 2, 3]);
}

#[test]
fn explicit_flush_shows_unflushed_records() {
    let mut fake = Fake::new();
    let mut session = writer(&mut fake, Durability::Every(0));
    for i in 0..3i64 {
        let (next, done) = drive(session.append(i), &mut fake);
        assert_eq!(done, Ok(()));
        session = next;
    }
    assert_eq!(fake.visible, 0);
    fake.asked.clear();
    let (session, done) = drive(session.flush(), &mut fake);
    assert_eq!(done, Ok(()));
    assert_eq!(session.len(), 3);
    assert_eq!(fake.visible, 3);
    assert_eq!(fake.asked, vec![Operation::FlushDataset, Operation::FlushFile]);
}

#[test]
fn writer_and_two_readers_interleaved() {
    let mut fake = Fake::new();
    let mut session = writer(&mut fake, Durability::EveryAppend);
    let first = drive(open_reader("test.h5".to_string()), &mut fake).expect("reader opens");
    let second = drive(open_reader("test.h5".to_string()), &mut fake).expect("reader opens");
    let mut readers = vec![
        Some(drive(first.dataset("data".to_string()), &mut fake).expect("dataset opens")),
        Some(drive(second.dataset("data".to_string()), &mut fake).expect("dataset opens")),
    ];
    let mut windows: Vec<Vec<i64>> = Vec::new();
    for i in 0..40i64 {
        let (next, done) = drive(session.append(i), &mut fake);
        assert_eq!(done, Ok(()));
        session = next;
        if (i + 1) % 8 == 0 {
            for slot in readers.iter_mut() {
                let dataset = slot.take().expect("reader is there");
                let (back, got) = drive(dataset.get_newest_n(20), &mut fake);
                *slot = Some(back);
                windows.push(got.expect("window reads"));
            }
        }
    }
    assert_eq!(windows.len(), 10);
    let all_expected: Vec<i64> = (0..40).collect();
    for slot in readers.iter_mut() {
        let dataset = slot.take().expect("reader is there");
        let (back, all) = drive(dataset.read_all(), &mut fake);
        *slot = Some(back);
        assert_eq!(all, Ok(all_expected.clone()));
    }
    for (k, window) in windows.iter().enumerate() {
        let seen = (k / 2 + 1) * 8;
        let from = seen.saturating_sub(20);
        assert_eq!(window, &all_expected[from..seen].to_vec());
        assert!(window.len() <= 20);
    }
    let last = &windows[9];
    assert_eq!(last, &all_expected[20..].to_vec());
}

#[test]
fn polling_reader_makes_two_rounds_and_releases_all() {
    let records: Vec<i64> = (0..25).collect();
    let mut fake = Fake::holding(&records);
    let done = drive(multiple_reader("data.hdf5".to_string(), "data".to_string()), &mut fake);
    assert_eq!(done, Ok(()));
    assert_eq!(fake.paths, vec!["data.hdf5".to_string()]);
    assert_eq!(fake.reports.len(), 2);
    for (newest, all) in &fake.reports {
        assert_eq!(newest, &(15..25).collect::<Vec<i64>>());
        assert_eq!(all, &records);
    }
    assert_eq!(fake.pauses, vec![1000, 1000]);
    assert!(fake.open.is_empty());
    let tail: Vec<Operation> = fake.asked[fake.asked.len() - 3..].to_vec();
    assert_eq!(tail, vec![Operation::Close, Operation::Close, Operation::Close]);
}

#[test]
fn polling_reader_releases_all_when_a_round_fails() {
    for (op, nth) in [
        (Operation::OpenFile, 1),
        (Operation::OpenDataset, 1),
        (Operation::Refresh, 1),
        (Operation::ReadAll, 1),
        (Operation::ReadWindow, 1),
        (Operation::Refresh, 3),
        (Operation::ReadWindow, 2),
    ] {
        let mut fake = Fake::holding(&[1, 2, 3]).failing(op, nth);
        let done = drive(multiple_reader("data.hdf5".to_string(), "data".to_string()), &mut fake);
        match done {
            Err(e) => assert_eq!(e.op, op),
            Ok(()) => panic!("a failure was met"),
        }
        assert!(fake.open.is_empty());
    }
}

#[test]
fn dataset_state_names_are_distinct() {
    assert_ne!(DatasetState::Opened, DatasetState::Refreshed);
    assert_ne!(DatasetState::Refreshed, DatasetState::Closed);
}
