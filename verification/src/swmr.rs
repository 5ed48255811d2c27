//! The reader side of a session: the access property list, the file opened
//! for SWMR reading, and a reader that polls.

use vstd::prelude::*;
use vstd::pervasive::unreached;
use crate::dataset::{DatasetOpen, H5Dataset, Outcome, ReadAll, TailRead};
use crate::error::{Operation, SwmrError, check, checked};
use crate::protocol::{Handle, Machine, Reply, Request, ResourceKind, Step};
use crate::release::{Teardown, release_all};

verus! {

/// The file-access property list of a reader: both library-version bounds
/// pinned to the latest format, as SWMR access requires.
pub struct SwmrReadFapl {
    fapl_id: i64,
}

impl SwmrReadFapl {
    /// The native identifier.
    pub closed spec fn native_id(self) -> i64 {
        self.fapl_id
    }

    /// The property list that owns `id`.
    pub closed spec fn of(id: i64) -> SwmrReadFapl {
        SwmrReadFapl { fapl_id: id }
    }

    /// A property list is what it was made of.
    pub broadcast proof fn of_holds(id: i64)
        ensures
            (#[trigger] SwmrReadFapl::of(id)).native_id() == id,
    {
    }

    /// The release handle of the property list.
    pub open spec fn handle(self) -> Handle {
        Handle { kind: ResourceKind::PropertyList, id: self.native_id() }
    }

    /// The first step of making the property list.
    pub open spec fn creating() -> Step<FaplCreate, Result<SwmrReadFapl, SwmrError>> {
        Step::Next(FaplCreate::List, Request::CreateAccessList)
    }

    /// Starts making the property list: it is created, then pinned to the
    /// latest format. If it cannot be pinned it is released again.
    pub fn new() -> (step: Step<FaplCreate, Result<SwmrReadFapl, SwmrError>>)
        ensures
            step == SwmrReadFapl::creating(),
    {
        Step::Next(FaplCreate::List, Request::CreateAccessList)
    }

    /// The native identifier, to pass to a call.
    pub fn id(&self) -> (id: i64)
        ensures
            id == self.native_id(),
    {
        self.fapl_id
    }

    /// Gives up the property list for its release handle.
    pub fn into_handle(self) -> (handle: Handle)
        ensures
            handle == self.handle(),
    {
        Handle { kind: ResourceKind::PropertyList, id: self.fapl_id }
    }

    /// Starts the release of the property list.
    pub fn release(self) -> (step: Step<Teardown, Result<(), SwmrError>>)
        ensures
            step == release_all(None, Some(self.handle()), None, None, None),
    {
        Teardown::single(self.into_handle())
    }
}

/// Making a [`SwmrReadFapl`], step by step.
pub enum FaplCreate {
    /// The new property list is awaited.
    List,
    /// The reply to the pinning of the format is awaited.
    Pin { plist: i64 },
    /// The format could not be pinned: the property list is being released.
    Undo { error: SwmrError },
}

impl Machine for FaplCreate {
    type Output = Result<SwmrReadFapl, SwmrError>;

    open spec fn on_reply(self, reply: Reply) -> Step<Self, Self::Output> {
        match self {
            FaplCreate::List => match checked(Operation::CreateAccessList, reply.status()) {
                Ok(plist) => Step::Next(FaplCreate::Pin { plist }, Request::PinLatestFormat { plist }),
                Err(e) => Step::Done(Err(e)),
            },
            FaplCreate::Pin { plist } => match checked(Operation::PinLatestFormat, reply.status()) {
                Ok(_) => Step::Done(Ok(SwmrReadFapl::of(plist))),
                Err(e) => Step::Next(
                    FaplCreate::Undo { error: e },
                    Request::Close { handle: Handle { kind: ResourceKind::PropertyList, id: plist } },
                ),
            },
            FaplCreate::Undo { error } => Step::Done(Err(error)),
        }
    }

    fn advance(self, reply: Reply) -> (next: Step<Self, Self::Output>) {
        match self {
            FaplCreate::List => match check(Operation::CreateAccessList, reply.code()) {
                Ok(plist) => Step::Next(FaplCreate::Pin { plist }, Request::PinLatestFormat { plist }),
                Err(e) => Step::Done(Err(e)),
            },
            FaplCreate::Pin { plist } => match check(Operation::PinLatestFormat, reply.code()) {
                Ok(_) => Step::Done(Ok(SwmrReadFapl { fapl_id: plist })),
                Err(e) => Step::Next(
                    FaplCreate::Undo { error: e },
                    Request::Close { handle: Handle { kind: ResourceKind::PropertyList, id: plist } },
                ),
            },
            FaplCreate::Undo { error } => Step::Done(Err(error)),
        }
    }
}

/// A container opened read-only for SWMR reading.
pub struct OpenFileMrRead {
    file_id: i64,
}

impl OpenFileMrRead {
    /// The native identifier.
    pub closed spec fn native_id(self) -> i64 {
        self.file_id
    }

    /// The open file that owns `id`.
    pub closed spec fn of(id: i64) -> OpenFileMrRead {
        OpenFileMrRead { file_id: id }
    }

    /// An open file is what it was made of.
    pub broadcast proof fn of_holds(id: i64)
        ensures
            (#[trigger] OpenFileMrRead::of(id)).native_id() == id,
    {
    }

    /// The release handle of the file.
    pub open spec fn handle(self) -> Handle {
        Handle { kind: ResourceKind::File, id: self.native_id() }
    }

    /// The first step of opening the container at `fname`.
    pub open spec fn opening(fname: String, access_plist: i64) -> Step<FileOpen, Result<OpenFileMrRead, SwmrError>> {
        Step::Next(FileOpen::Pending, Request::OpenFile { path: fname, access_plist })
    }

    /// Starts opening the container at `fname` read-only for SWMR reading,
    /// with the access property list `access_plist`. The outcome is the open
    /// file, or `OpenFailed` where there is no container to open.
    pub fn new_swmr_reader(fname: String, access_plist: i64) -> (step: Step<
        FileOpen,
        Result<OpenFileMrRead, SwmrError>,
    >)
        ensures
            step == OpenFileMrRead::opening(fname, access_plist),
    {
        Step::Next(FileOpen::Pending, Request::OpenFile { path: fname, access_plist })
    }

    /// The native identifier, to pass to a call.
    pub fn id(&self) -> (id: i64)
        ensures
            id == self.native_id(),
    {
        self.file_id
    }

    /// Gives up the file for its release handle.
    pub fn into_handle(self) -> (handle: Handle)
        ensures
            handle == self.handle(),
    {
        Handle { kind: ResourceKind::File, id: self.file_id }
    }

    /// Starts the release of the file.
    pub fn release(self) -> (step: Step<Teardown, Result<(), SwmrError>>)
        ensures
            step == release_all(None, Some(self.handle()), None, None, None),
    {
        Teardown::single(self.into_handle())
    }
}

/// Opening a container: the reply to the open is awaited.
pub enum FileOpen {
    Pending,
}

impl Machine for FileOpen {
    type Output = Result<OpenFileMrRead, SwmrError>;

    open spec fn on_reply(self, reply: Reply) -> Step<Self, Self::Output> {
        match checked(Operation::OpenFile, reply.status()) {
            Ok(id) => Step::Done(Ok(OpenFileMrRead::of(id))),
            Err(e) => Step::Done(Err(e)),
        }
    }

    fn advance(self, reply: Reply) -> (next: Step<Self, Self::Output>) {
        match check(Operation::OpenFile, reply.code()) {
            Ok(id) => Step::Done(Ok(OpenFileMrRead { file_id: id })),
            Err(e) => Step::Done(Err(e)),
        }
    }
}

/// A reader's hold on a container: the open file and the access property
/// list it was opened with.
pub struct ReaderSession {
    fapl: SwmrReadFapl,
    file: OpenFileMrRead,
}

impl ReaderSession {
    /// The identifier of the open file.
    pub closed spec fn file_id(self) -> i64 {
        self.file.native_id()
    }

    /// The identifier of the access property list.
    pub closed spec fn access_list_id(self) -> i64 {
        self.fapl.native_id()
    }

    /// The session that owns this file and this access property list.
    pub closed spec fn of(fapl: SwmrReadFapl, file: OpenFileMrRead) -> ReaderSession {
        ReaderSession { fapl, file }
    }

    /// A session is what it was made of.
    pub broadcast proof fn of_holds(fapl: SwmrReadFapl, file: OpenFileMrRead)
        ensures
            (#[trigger] ReaderSession::of(fapl, file)).file_id() == file.native_id(),
            ReaderSession::of(fapl, file).access_list_id() == fapl.native_id(),
    {
    }

    /// The release handles of the session, in the order of their release:
    /// the file, then the access property list.
    pub open spec fn handles(self) -> (Handle, Handle) {
        (
            Handle { kind: ResourceKind::File, id: self.file_id() },
            Handle { kind: ResourceKind::PropertyList, id: self.access_list_id() },
        )
    }

    /// The first step of opening a dataset of the session's file.
    pub open spec fn locating(self, name: String) -> Step<DatasetOpen, Result<H5Dataset, SwmrError>> {
        H5Dataset::opening(name, self.file_id())
    }

    /// Starts opening the dataset `name` of the session's file.
    pub fn dataset(&self, name: String) -> (step: Step<DatasetOpen, Result<H5Dataset, SwmrError>>)
        ensures
            step == self.locating(name),
    {
        H5Dataset::new(name, self.file.id())
    }

    /// Starts the end of the session: the file is released, then the access
    /// property list, the second also when the first release fails.
    /// `failure` is what the session has failed with, if it has.
    pub fn close(self, failure: Option<SwmrError>) -> (step: Step<Teardown, Result<(), SwmrError>>)
        ensures
            step == release_all(failure, Some(self.handles().0), Some(self.handles().1), None, None),
    {
        let file = self.file.into_handle();
        let fapl = self.fapl.into_handle();
        Teardown::begin(failure, Some(file), Some(fapl), None, None)
    }
}

/// Opening a reader session, step by step.
pub enum ReaderOpen {
    /// The access property list is being made.
    Access { path: String, create: FaplCreate },
    /// The container is being opened.
    Container { fapl: SwmrReadFapl, open: FileOpen },
    /// The container could not be opened: the property list is being released.
    Undo { error: SwmrError },
}

/// The first step of opening a reader session on the container at `path`.
pub open spec fn opening_reader(path: String) -> Step<ReaderOpen, Result<ReaderSession, SwmrError>> {
    Step::Next(ReaderOpen::Access { path, create: FaplCreate::List }, Request::CreateAccessList)
}

/// Starts a reader session on the container at `path`: the access property
/// list is made, then the container is opened read-only for SWMR reading.
/// Any number of readers may do so at once, also while the writer appends.
pub fn open_reader(path: String) -> (step: Step<ReaderOpen, Result<ReaderSession, SwmrError>>)
    ensures
        step == opening_reader(path),
{
    match SwmrReadFapl::new() {
        Step::Next(create, request) => Step::Next(ReaderOpen::Access { path, create }, request),
        Step::Done(_) => unreached(),
    }
}

impl Machine for ReaderOpen {
    type Output = Result<ReaderSession, SwmrError>;

    open spec fn on_reply(self, reply: Reply) -> Step<Self, Self::Output> {
        match self {
            ReaderOpen::Access { path, create } => match create.on_reply(reply) {
                Step::Next(create, request) => Step::Next(ReaderOpen::Access { path, create }, request),
                Step::Done(Err(e)) => Step::Done(Err(e)),
                Step::Done(Ok(fapl)) => Step::Next(
                    ReaderOpen::Container { fapl, open: FileOpen::Pending },
                    Request::OpenFile { path, access_plist: fapl.native_id() },
                ),
            },
            ReaderOpen::Container { fapl, open } => match open.on_reply(reply) {
                Step::Next(open, request) => Step::Next(ReaderOpen::Container { fapl, open }, request),
                Step::Done(Ok(file)) => Step::Done(Ok(ReaderSession::of(fapl, file))),
                Step::Done(Err(e)) => Step::Next(
                    ReaderOpen::Undo { error: e },
                    Request::Close { handle: fapl.handle() },
                ),
            },
            ReaderOpen::Undo { error } => Step::Done(Err(error)),
        }
    }

    fn advance(self, reply: Reply) -> (next: Step<Self, Self::Output>) {
        match self {
            ReaderOpen::Access { path, create } => match create.advance(reply) {
                Step::Next(create, request) => Step::Next(ReaderOpen::Access { path, create }, request),
                Step::Done(Err(e)) => Step::Done(Err(e)),
                Step::Done(Ok(fapl)) => match OpenFileMrRead::new_swmr_reader(path, fapl.id()) {
                    Step::Next(open, request) => Step::Next(ReaderOpen::Container { fapl, open }, request),
                    Step::Done(_) => unreached(),
                },
            },
            ReaderOpen::Container { fapl, open } => match open.advance(reply) {
                Step::Next(open, request) => Step::Next(ReaderOpen::Container { fapl, open }, request),
                Step::Done(Ok(file)) => Step::Done(Ok(ReaderSession { fapl, file })),
                Step::Done(Err(e)) => Step::Next(
                    ReaderOpen::Undo { error: e },
                    Request::Close { handle: fapl.into_handle() },
                ),
            },
            ReaderOpen::Undo { error } => Step::Done(Err(error)),
        }
    }
}

/// How many rounds a polling reader makes.
pub const ROUNDS: u8 = 2;

/// How many of the newest records a polling reader asks for in each round.
pub const WINDOW: usize = 10;

/// How long a polling reader waits after each round, in milliseconds.
pub const PAUSE_MILLIS: u64 = 1000;

/// A polling reader, step by step.
pub enum ReaderLoop {
    /// The session is being opened.
    Connecting { name: String, connect: ReaderOpen },
    /// The dataset is being opened.
    Locating { session: ReaderSession, locate: DatasetOpen },
    /// All records are being read, in round `round`.
    ReadingAll { session: ReaderSession, round: u8, full: ReadAll },
    /// The newest records are being read; `all` is what the full read gave.
    ReadingNewest { session: ReaderSession, round: u8, all: Vec<i64>, tail: TailRead },
    /// The round's records are being shown.
    Reporting { session: ReaderSession, dataset: H5Dataset, round: u8 },
    /// The wait after the round is under way.
    Pausing { session: ReaderSession, dataset: H5Dataset, round: u8 },
    /// Everything is being released.
    Leaving { release: Teardown },
}

/// What a polling reader ends with.
pub type Polled = Step<ReaderLoop, Result<(), SwmrError>>;

/// The release at the end of a polling reader, as a step of the reader.
pub open spec fn left(release: Step<Teardown, Result<(), SwmrError>>) -> Polled {
    match release {
        Step::Next(release, request) => Step::Next(ReaderLoop::Leaving { release }, request),
        Step::Done(end) => Step::Done(end),
    }
}

/// The end of a polling reader: the dataset, if it is still held, the file
/// and the access property list are released, in this order, and `failure`
/// is reported if there is one.
pub open spec fn leaving(session: ReaderSession, dataset: Option<Handle>, failure: Option<SwmrError>) -> Polled {
    left(release_all(failure, dataset, Some(session.handles().0), Some(session.handles().1), None))
}

/// The opening of the session, as a step of the reader: once the session is
/// open, the dataset `name` is opened.
pub open spec fn connected(name: String, connect: Step<ReaderOpen, Result<ReaderSession, SwmrError>>) -> Polled {
    match connect {
        Step::Next(connect, request) => Step::Next(ReaderLoop::Connecting { name, connect }, request),
        Step::Done(Err(e)) => Step::Done(Err(e)),
        Step::Done(Ok(session)) => located(session, session.locating(name)),
    }
}

/// The opening of the dataset, as a step of the reader: once the dataset is
/// open, the first round starts.
pub open spec fn located(session: ReaderSession, locate: Step<DatasetOpen, Result<H5Dataset, SwmrError>>) -> Polled {
    match locate {
        Step::Next(locate, request) => Step::Next(ReaderLoop::Locating { session, locate }, request),
        Step::Done(Err(e)) => leaving(session, None, Some(e)),
        Step::Done(Ok(dataset)) => polling_round(session, dataset, 0),
    }
}

/// The full read of a round, as a step of the reader: once all records are
/// read, the newest `WINDOW` are.
pub open spec fn read_all_of_round(session: ReaderSession, round: u8, full: Step<ReadAll, Outcome<Vec<i64>>>) -> Polled {
    match full {
        Step::Next(full, request) => Step::Next(ReaderLoop::ReadingAll { session, round, full }, request),
        Step::Done((dataset, Err(e))) => leaving(session, dataset.release_handle(), Some(e)),
        Step::Done((dataset, Ok(all))) => read_newest_of_round(
            session,
            round,
            all,
            dataset.reading_newest(WINDOW),
        ),
    }
}

/// The read of the newest records of a round, as a step of the reader: once
/// they are read, they are shown together with `all`.
pub open spec fn read_newest_of_round(
    session: ReaderSession,
    round: u8,
    all: Vec<i64>,
    tail: Step<TailRead, Outcome<Vec<i64>>>,
) -> Polled {
    match tail {
        Step::Next(tail, request) => Step::Next(ReaderLoop::ReadingNewest { session, round, all, tail }, request),
        Step::Done((dataset, Err(e))) => leaving(session, dataset.release_handle(), Some(e)),
        Step::Done((dataset, Ok(newest))) => Step::Next(
            ReaderLoop::Reporting { session, dataset, round },
            Request::Report { newest, all },
        ),
    }
}

/// The start of round `round` of a polling reader, or its end after the last.
pub open spec fn polling_round(session: ReaderSession, dataset: H5Dataset, round: u8) -> Polled {
    if round < ROUNDS {
        read_all_of_round(session, round, dataset.reading_all())
    } else {
        leaving(session, dataset.release_handle(), None)
    }
}

/// The first step of a polling reader of the dataset `dataset` in the
/// container at `path`.
pub open spec fn polling(path: String, dataset: String) -> Polled {
    connected(dataset, opening_reader(path))
}

fn leave(session: ReaderSession, dataset: Option<Handle>, failure: Option<SwmrError>) -> (step: Polled)
    ensures
        step == leaving(session, dataset, failure),
{
    let file = session.file.into_handle();
    let fapl = session.fapl.into_handle();
    match Teardown::begin(failure, dataset, Some(file), Some(fapl), None) {
        Step::Next(release, request) => Step::Next(ReaderLoop::Leaving { release }, request),
        Step::Done(end) => Step::Done(end),
    }
}

fn connect_on(name: String, connect: Step<ReaderOpen, Result<ReaderSession, SwmrError>>) -> (step: Polled)
    ensures
        step == connected(name, connect),
{
    match connect {
        Step::Next(connect, request) => Step::Next(ReaderLoop::Connecting { name, connect }, request),
        Step::Done(Err(e)) => Step::Done(Err(e)),
        Step::Done(Ok(session)) => {
            let locate = session.dataset(name);
            locate_on(session, locate)
        },
    }
}

fn locate_on(session: ReaderSession, locate: Step<DatasetOpen, Result<H5Dataset, SwmrError>>) -> (step: Polled)
    ensures
        step == located(session, locate),
{
    match locate {
        Step::Next(locate, request) => Step::Next(ReaderLoop::Locating { session, locate }, request),
        Step::Done(Err(e)) => leave(session, None, Some(e)),
        Step::Done(Ok(dataset)) => poll_round(session, dataset, 0),
    }
}

fn read_all_on(session: ReaderSession, round: u8, full: Step<ReadAll, Outcome<Vec<i64>>>) -> (step: Polled)
    ensures
        step == read_all_of_round(session, round, full),
{
    match full {
        Step::Next(full, request) => Step::Next(ReaderLoop::ReadingAll { session, round, full }, request),
        Step::Done((dataset, Err(e))) => leave(session, dataset.into_release_handle(), Some(e)),
        Step::Done((dataset, Ok(all))) => read_newest_on(session, round, all, dataset.get_newest_n(WINDOW)),
    }
}

fn read_newest_on(session: ReaderSession, round: u8, all: Vec<i64>, tail: Step<TailRead, Outcome<Vec<i64>>>) -> (step:
    Polled)
    ensures
        step == read_newest_of_round(session, round, all, tail),
{
    match tail {
        Step::Next(tail, request) => Step::Next(ReaderLoop::ReadingNewest { session, round, all, tail }, request),
        Step::Done((dataset, Err(e))) => leave(session, dataset.into_release_handle(), Some(e)),
        Step::Done((dataset, Ok(newest))) => Step::Next(
            ReaderLoop::Reporting { session, dataset, round },
            Request::Report { newest, all },
        ),
    }
}

fn poll_round(session: ReaderSession, dataset: H5Dataset, round: u8) -> (step: Polled)
    ensures
        step == polling_round(session, dataset, round),
{
    if round < ROUNDS {
        read_all_on(session, round, dataset.read_all())
    } else {
        leave(session, dataset.into_release_handle(), None)
    }
}

/// Starts a reader that opens the dataset `dataset` of the container at
/// `path` and then, `ROUNDS` times over, reads all records, reads the newest
/// `WINDOW` of them, shows both and waits `PAUSE_MILLIS`. It ends by
/// releasing the dataset, the file and the access property list, also where
/// a round fails.
pub fn multiple_reader(path: String, dataset: String) -> (step: Polled)
    ensures
        step == polling(path, dataset),
{
    connect_on(dataset, open_reader(path))
}

impl Machine for ReaderLoop {
    type Output = Result<(), SwmrError>;

    open spec fn on_reply(self, reply: Reply) -> Step<Self, Self::Output> {
        match self {
            ReaderLoop::Connecting { name, connect } => connected(name, connect.on_reply(reply)),
            ReaderLoop::Locating { session, locate } => located(session, locate.on_reply(reply)),
            ReaderLoop::ReadingAll { session, round, full } => read_all_of_round(
                session,
                round,
                full.on_reply(reply),
            ),
            ReaderLoop::ReadingNewest { session, round, all, tail } => read_newest_of_round(
                session,
                round,
                all,
                tail.on_reply(reply),
            ),
            ReaderLoop::Reporting { session, dataset, round } => Step::Next(
                ReaderLoop::Pausing { session, dataset, round },
                Request::Pause { millis: PAUSE_MILLIS },
            ),
            ReaderLoop::Pausing { session, dataset, round } => if round < ROUNDS {
                polling_round(session, dataset, (round + 1) as u8)
            } else {
                leaving(session, dataset.release_handle(), None)
            },
            ReaderLoop::Leaving { release } => left(release.on_reply(reply)),
        }
    }

    fn advance(self, reply: Reply) -> (next: Step<Self, Self::Output>) {
        match self {
            ReaderLoop::Connecting { name, connect } => connect_on(name, connect.advance(reply)),
            ReaderLoop::Locating { session, locate } => locate_on(session, locate.advance(reply)),
            ReaderLoop::ReadingAll { session, round, full } => read_all_on(session, round, full.advance(reply)),
            ReaderLoop::ReadingNewest { session, round, all, tail } => read_newest_on(
                session,
                round,
                all,
                tail.advance(reply),
            ),
            ReaderLoop::Reporting { session, dataset, round } => Step::Next(
                ReaderLoop::Pausing { session, dataset, round },
                Request::Pause { millis: PAUSE_MILLIS },
            ),
            ReaderLoop::Pausing { session, dataset, round } => if round < ROUNDS {
                poll_round(session, dataset, round + 1)
            } else {
                leave(session, dataset.into_release_handle(), None)
            },
            ReaderLoop::Leaving { release } => match release.advance(reply) {
                Step::Next(release, request) => Step::Next(ReaderLoop::Leaving { release }, request),
                Step::Done(end) => Step::Done(end),
            },
        }
    }
}

} // verus!
