//! The storage engine on top of a blob store: its plain values, and the order
//! in which each of its operations asks the native layer for work.
//!
//! An engine operation is a short run of native requests, each of which may
//! fail. The run is a state machine: [`EngineRun::begin`] names the first
//! request, and [`EngineRun::advance`] takes the answer to the request that is
//! out and names the next, or ends the run. The surrounding program performs
//! the requests.

use crate::blob::BlobId;
use crate::error::SpdkError;
use vstd::prelude::*;

verus! {

/// The operations that the engine supports.
#[derive(Clone, Copy, Debug, PartialEq, Eq, Structural)]
pub enum Op {
    /// Write data at an offset of a blob.
    Write,
    /// Read data at an offset of a blob.
    Read,
    /// Create a new blob of a given size.
    CreateBlob,
    /// Finish all I/O and shut the engine down.
    Fini,
}

/// The arguments of an operation.
#[derive(Clone, Copy, Debug)]
pub struct OpCtx {
    offset: u64,
    blob_id: BlobId,
    blob_size: u64,
}

impl OpCtx {
    pub closed spec fn spec_offset(self) -> u64 {
        self.offset
    }

    pub closed spec fn spec_blob_id(self) -> BlobId {
        self.blob_id
    }

    pub closed spec fn spec_blob_size(self) -> u64 {
        self.blob_size
    }

    /// The arguments of a read or a write: where, and in which blob.
    pub fn init_io_ctx(offset: u64, blob_id: BlobId) -> (ctx: OpCtx)
        ensures
            ctx.spec_offset() == offset,
            ctx.spec_blob_id() == blob_id,
            ctx.spec_blob_size() == 0,
    {
        OpCtx { offset, blob_id, blob_size: 0 }
    }

    /// The arguments of a blob creation: the size of the blob, in clusters.
    pub fn init_blob_ctx(blob_size: u64) -> (ctx: OpCtx)
        ensures
            ctx.spec_offset() == 0,
            ctx.spec_blob_id() == (BlobId { id: 0 }),
            ctx.spec_blob_size() == blob_size,
    {
        OpCtx { offset: 0, blob_id: BlobId::set_blob_id(0), blob_size }
    }

    #[verifier::when_used_as_spec(spec_offset)]
    pub fn offset(self) -> (offset: u64)
        ensures
            offset == self.spec_offset(),
    {
        self.offset
    }

    #[verifier::when_used_as_spec(spec_blob_id)]
    pub fn blob_id(self) -> (blob_id: BlobId)
        ensures
            blob_id == self.spec_blob_id(),
    {
        self.blob_id
    }

    #[verifier::when_used_as_spec(spec_blob_size)]
    pub fn blob_size(self) -> (blob_size: u64)
        ensures
            blob_size == self.spec_blob_size(),
    {
        self.blob_size
    }
}

/// A blob as the engine hands it out.
#[derive(Debug)]
pub struct EngineBlob {
    pub bl: BlobId,
}

impl EngineBlob {
    pub fn get_id(&self) -> (id: Result<BlobId, SpdkError>)
        ensures
            id == Ok::<BlobId, SpdkError>(self.bl),
    {
        Ok(self.bl)
    }
}

/// An engine on one device, as far as it is known without a native call.
#[derive(Debug)]
pub struct DeviceEngine {
    pub name: String,
    pub io_size: u64,
}

impl DeviceEngine {
    /// The engine on the device `name` whose blob store moves data in units of
    /// `io_size` bytes.
    pub fn open(name: &str, io_size: u64) -> (engine: DeviceEngine)
        ensures
            engine.name@ == name@,
            engine.io_size == io_size,
    {
        DeviceEngine { name: name.to_owned(), io_size }
    }

    pub fn get_name(&self) -> (name: Result<String, SpdkError>)
        ensures
            name is Ok,
            name->Ok_0@ == self.name@,
    {
        Ok(self.name.clone())
    }

    pub fn get_io_size(&self) -> (io_size: Result<u64, SpdkError>)
        ensures
            io_size == Ok::<u64, SpdkError>(self.io_size),
    {
        Ok(self.io_size)
    }
}

/// An operation of the engine with its arguments.
#[derive(Clone, Copy, Debug, PartialEq, Eq, Structural)]
pub enum EngineCall {
    /// Opens the device's blob store.
    New,
    Write { offset: u64, blob_id: BlobId },
    Read { offset: u64, blob_id: BlobId },
    /// Creates a blob of `size` clusters.
    CreateBlob { size: u64 },
    DeleteBlob { blob_id: BlobId },
    CloseBs,
}

/// One request to the native layer.
#[derive(Clone, Copy, Debug, PartialEq, Eq, Structural)]
pub enum EngineRequest {
    CreateBsDev,
    InitBlobstore,
    CreateBlob,
    OpenBlob { blob_id: BlobId },
    AllocIoChannel,
    Write { offset: u64 },
    Read { offset: u64 },
    Resize { size: u64 },
    SyncMetadata,
    CloseBlob,
    DeleteBlob { blob_id: BlobId },
    Unload,
}

/// What a finished run hands to the caller of the operation.
#[derive(Clone, Copy, Debug, PartialEq, Eq, Structural)]
pub enum EngineOutput {
    /// Nothing but success.
    Done,
    /// The blob that was created.
    Blob { bl: BlobId },
}

/// What a run asks for next.
#[derive(Clone, Copy, Debug, PartialEq, Eq, Structural)]
pub enum EngineStep {
    /// Perform this request and come back with its answer.
    Call(EngineRequest),
    /// The run is over: every request succeeded, and this is the operation's
    /// output.
    Done(EngineOutput),
    /// The run is over: a request failed with this failure.
    Failed(SpdkError),
}

impl EngineCall {
    /// The requests of an operation, in order. `created` stands for the blob
    /// that the operation's own `CreateBlob` request brought.
    pub open spec fn requests(self, created: BlobId) -> Seq<EngineRequest> {
        match self {
            EngineCall::New => seq![EngineRequest::CreateBsDev, EngineRequest::InitBlobstore],
            EngineCall::Write { offset, blob_id } => seq![
                EngineRequest::OpenBlob { blob_id },
                EngineRequest::AllocIoChannel,
                EngineRequest::Write { offset },
                EngineRequest::CloseBlob,
            ],
            EngineCall::Read { offset, blob_id } => seq![
                EngineRequest::OpenBlob { blob_id },
                EngineRequest::AllocIoChannel,
                EngineRequest::Read { offset },
                EngineRequest::CloseBlob,
            ],
            EngineCall::CreateBlob { size } => seq![
                EngineRequest::CreateBlob,
                EngineRequest::OpenBlob { blob_id: created },
                EngineRequest::Resize { size },
                EngineRequest::SyncMetadata,
                EngineRequest::CloseBlob,
            ],
            EngineCall::DeleteBlob { blob_id } => seq![EngineRequest::DeleteBlob { blob_id }],
            EngineCall::CloseBs => seq![EngineRequest::Unload],
        }
    }

    /// What the operation returns once all its requests have succeeded.
    pub open spec fn output(self, created: BlobId) -> EngineOutput {
        match self {
            EngineCall::CreateBlob { .. } => EngineOutput::Blob { bl: created },
            _ => EngineOutput::Done,
        }
    }
}

/// What a run is, as a mathematical value.
pub struct EngineRunView {
    pub call: EngineCall,
    /// The number of requests that have been answered with success.
    pub answered: nat,
    /// The blob that a `CreateBlob` request of this run brought; until then,
    /// the blob numbered zero.
    pub created: BlobId,
    /// Whether the run is over.
    pub finished: bool,
}

impl EngineRunView {
    /// The run at its start.
    pub open spec fn initial(call: EngineCall) -> EngineRunView {
        EngineRunView { call, answered: 0, created: BlobId { id: 0 }, finished: false }
    }

    /// The request that is out.
    pub open spec fn current(self) -> EngineRequest {
        self.call.requests(self.created)[self.answered as int]
    }

    /// Whether the run is in order: it is over, or a request is out.
    pub open spec fn wf(self) -> bool {
        self.finished || self.answered < self.call.requests(self.created).len()
    }

    /// The blob that the run knows after an answer that brought `brought`: the
    /// one that the answer to its `CreateBlob` request names.
    pub open spec fn created_after(self, brought: Option<BlobId>) -> BlobId {
        match brought {
            Some(blob_id) if self.current() == EngineRequest::CreateBlob => blob_id,
            _ => self.created,
        }
    }

    /// What the run asks for after `answer` to the request that is out. A
    /// failure ends the run with that failure, and no request follows it. A
    /// success leads to the next request or, after the last one, ends the run
    /// with the operation's output.
    pub open spec fn step(self, answer: Result<Option<BlobId>, SpdkError>) -> EngineStep {
        match answer {
            Err(failure) => EngineStep::Failed(failure),
            Ok(brought) => {
                let created = self.created_after(brought);
                if self.answered + 1 < self.call.requests(created).len() {
                    EngineStep::Call(self.call.requests(created)[self.answered as int + 1])
                } else {
                    EngineStep::Done(self.call.output(created))
                }
            },
        }
    }

    /// The run after `answer` to the request that is out.
    pub open spec fn advanced(self, answer: Result<Option<BlobId>, SpdkError>) -> EngineRunView {
        match answer {
            Err(_) => EngineRunView { finished: true, ..self },
            Ok(brought) => {
                let created = self.created_after(brought);
                EngineRunView {
                    answered: self.answered + 1,
                    created,
                    finished: self.answered + 1 >= self.call.requests(created).len(),
                    ..self
                }
            },
        }
    }
}

/// One operation of the engine under way.
#[derive(Debug)]
pub struct EngineRun {
    call: EngineCall,
    answered: u8,
    created: BlobId,
    finished: bool,
}

impl EngineRun {
    pub closed spec fn view(&self) -> EngineRunView {
        EngineRunView {
            call: self.call,
            answered: self.answered as nat,
            created: self.created,
            finished: self.finished,
        }
    }

    fn request(call: EngineCall, created: BlobId, index: u8) -> (request: Option<EngineRequest>)
        ensures
            request == (if index < call.requests(created).len() {
                Some(call.requests(created)[index as int])
            } else {
                None
            }),
    {
        match call {
            EngineCall::New => match index {
                0 => Some(EngineRequest::CreateBsDev),
                1 => Some(EngineRequest::InitBlobstore),
                _ => None,
            },
            EngineCall::Write { offset, blob_id } => match index {
                0 => Some(EngineRequest::OpenBlob { blob_id }),
                1 => Some(EngineRequest::AllocIoChannel),
                2 => Some(EngineRequest::Write { offset }),
                3 => Some(EngineRequest::CloseBlob),
                _ => None,
            },
            EngineCall::Read { offset, blob_id } => match index {
                0 => Some(EngineRequest::OpenBlob { blob_id }),
                1 => Some(EngineRequest::AllocIoChannel),
                2 => Some(EngineRequest::Read { offset }),
                3 => Some(EngineRequest::CloseBlob),
                _ => None,
            },
            EngineCall::CreateBlob { size } => match index {
                0 => Some(EngineRequest::CreateBlob),
                1 => Some(EngineRequest::OpenBlob { blob_id: created }),
                2 => Some(EngineRequest::Resize { size }),
                3 => Some(EngineRequest::SyncMetadata),
                4 => Some(EngineRequest::CloseBlob),
                _ => None,
            },
            EngineCall::DeleteBlob { blob_id } => match index {
                0 => Some(EngineRequest::DeleteBlob { blob_id }),
                _ => None,
            },
            EngineCall::CloseBs => match index {
                0 => Some(EngineRequest::Unload),
                _ => None,
            },
        }
    }

    /// Starts an operation: the run, and the first request to perform.
    pub fn begin(call: EngineCall) -> (started: (EngineRun, EngineRequest))
        ensures
            started.0@ == EngineRunView::initial(call),
            started.0@.wf(),
            started.1 == started.0@.current(),
    {
        let created = BlobId::set_blob_id(0);
        let first = match Self::request(call, created, 0) {
            Some(request) => request,
            None => EngineRequest::Unload,
        };
        (EngineRun { call, answered: 0, created, finished: false }, first)
    }

    /// Takes the answer to the request that is out: `Ok` with the blob that
    /// the request brought, if it brings one, or the failure.
    ///
    /// A run that is over has no request out: to advance it is a programming
    /// error, excluded here.
    pub fn advance(&mut self, answer: Result<Option<BlobId>, SpdkError>) -> (step: EngineStep)
        requires
            old(self)@.wf(),
            !old(self)@.finished,
        ensures
            step == old(self)@.step(answer),
            final(self)@ == old(self)@.advanced(answer),
            final(self)@.wf(),
    {
        match answer {
            Err(failure) => {
                self.finished = true;
                EngineStep::Failed(failure)
            },
            Ok(brought) => {
                let current = Self::request(self.call, self.created, self.answered);
                match (brought, current) {
                    (Some(blob_id), Some(EngineRequest::CreateBlob)) => {
                        self.created = blob_id;
                    },
                    _ => {},
                }
                self.answered = self.answered + 1;
                match Self::request(self.call, self.created, self.answered) {
                    Some(request) => EngineStep::Call(request),
                    None => {
                        self.finished = true;
                        match self.call {
                            EngineCall::CreateBlob { .. } => EngineStep::Done(
                                EngineOutput::Blob { bl: self.created },
                            ),
                            _ => EngineStep::Done(EngineOutput::Done),
                        }
                    },
                }
            },
        }
    }

    pub fn is_finished(&self) -> (finished: bool)
        ensures
            finished == self@.finished,
    {
        self.finished
    }
}

} // verus!
