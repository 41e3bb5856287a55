//! The print session: what to send, what to expect, and what to make of the
//! printer's replies.
//!
//! A session goes through a fixed sequence of steps. It sends the preamble
//! and a status request and expects the printer to be ready. Then, for each
//! page, it sends the page and expects three replies: the printer has begun
//! to print, the page is printed, the printer takes data again.
//!
//! ```text
//!  Preamble -> StatusRequest -> Ready -> PageData -> Printing -> Completed -> Receiving -> Done
//!                                           ^                                     |
//!                                           +----------- next page ---------------+
//! ```
//!
//! The session itself does no input or output. After each step it hands out
//! a [`Request`], and it is told how the request went by a call of
//! [`PrintSession::written`] or [`PrintSession::received`].

use vstd::prelude::*;
use crate::commands::{RasterCommand, RasterCommands, preamble_commands, status_request_bytes};
use crate::error::{ConnectionError, PrintError, PrintErrorSource, ProtocolError, StatusError};
use crate::media::Media;
use crate::printjob::job::{PrintJob, pages_of};
use crate::status::{
    Phase, STATUS_LEN, StatusInformation, StatusType, decode_status, status_rejection,
};

verus! {

/// How many reads in a row may come back empty: at the last of them the
/// printer is given up.
pub const MAX_RETRIES: u8 = 60;

/// Time in milliseconds to wait after an empty read before the next.
pub const RETRY_DELAY_MS: u64 = 50;

/// Whether the media a status reply reports is the given media.
pub open spec fn spec_status_matches_media(status: StatusInformation, media: Media) -> bool {
    media.spec_matches_reply(status.media_type, status.media_width, status.media_length)
}

/// Whether the media a status reply reports is the given media: type, width
/// and length all agree.
pub fn status_matches_media(status: &StatusInformation, media: Media) -> (res: bool)
    ensures
        res == spec_status_matches_media(*status, media),
{
    media.matches_reply(status.media_type, status.media_width, status.media_length)
}

/// What is to be made of a status reply, given the media of the job and the
/// status type and phase that are expected.
///
/// The media is looked at first, then the error flags, then type and phase:
/// a reply for another media is a `MediaMismatch`, whatever else it says; a
/// reply with errors is a `PrinterError`, whatever its type and phase.
pub open spec fn validation(
    status: StatusInformation,
    job_media: Media,
    expected_type: StatusType,
    expected_phase: Phase,
) -> Result<(), ProtocolError> {
    if !spec_status_matches_media(status, job_media) {
        Err(
            ProtocolError::MediaMismatch {
                expected_media: job_media,
                reported_media: Media::spec_find_by_reply(
                    status.media_type,
                    status.media_width,
                    status.media_length,
                ),
            },
        )
    } else if status.spec_has_errors() {
        Err(ProtocolError::PrinterError(status.errors))
    } else if status.status_type != expected_type || status.phase != expected_phase {
        Err(
            ProtocolError::UnexpectedStatus {
                expected_type,
                expected_phase,
                actual_type: status.status_type,
                actual_phase: status.phase,
            },
        )
    } else {
        Ok(())
    }
}

/// Checks a status reply against the media of the job and the status type
/// and phase that are expected at this point of the session.
pub fn validate_status(
    status: &StatusInformation,
    job_media: Media,
    expected_type: StatusType,
    expected_phase: Phase,
) -> (res: Result<(), ProtocolError>)
    ensures
        res == validation(*status, job_media, expected_type, expected_phase),
{
    // The printer must hold the media the job was made for.
    if !status_matches_media(status, job_media) {
        let likely_match = Media::find_by_reply(
            status.media_type,
            status.media_width,
            status.media_length,
        );
        return Err(
            ProtocolError::MediaMismatch { expected_media: job_media, reported_media: likely_match },
        );
    }
    // Errors go before anything else the reply says.
    if status.has_errors() {
        return Err(ProtocolError::PrinterError(status.errors));
    }
    if status.status_type != expected_type || status.phase != expected_phase {
        return Err(
            ProtocolError::UnexpectedStatus {
                expected_type,
                expected_phase,
                actual_type: status.status_type,
                actual_phase: status.phase,
            },
        );
    }
    Ok(())
}

/// What the driver loop has to do next.
#[derive(Debug, Clone, PartialEq, Eq)]
pub enum Request {
    /// Write all of these bytes.
    Write(Vec<u8>),
    /// Wait for `delay_ms` milliseconds, then read up to `len` bytes. A read
    /// that finds nothing to read comes back with no bytes.
    Read { len: usize, delay_ms: u64 },
    /// Nothing: the session has ended well.
    Done,
}

/// A request in plain values.
pub enum RequestView {
    Write(Seq<u8>),
    Read { len: usize, delay_ms: u64 },
    Done,
}

impl View for Request {
    type V = RequestView;

    open spec fn view(&self) -> RequestView {
        match self {
            Request::Write(bytes) => RequestView::Write(bytes@),
            Request::Read { len, delay_ms } => RequestView::Read { len: *len, delay_ms: *delay_ms },
            Request::Done => RequestView::Done,
        }
    }
}

/// How the reading of one status reply goes on after a read.
#[derive(Debug, Clone, Copy, PartialEq, Eq, Structural)]
pub enum ReadStep {
    /// The reply is not complete: wait for `delay_ms` milliseconds, then read
    /// up to `len` bytes more.
    Read { len: usize, delay_ms: u64 },
    /// The reply is complete.
    Complete,
    /// The printer has been silent for too long.
    NoResponse,
}

/// Collects the 32 bytes of one status reply from reads that may each bring
/// a part of it, or nothing.
#[derive(Debug, Clone, PartialEq, Eq)]
pub struct StatusReader {
    /// The bytes received so far.
    pub received: Vec<u8>,
    /// How many reads in a row have come back empty.
    pub retries: u8,
}

/// How a read changes the bytes received so far: what it brought is added.
pub open spec fn received_after(received: Seq<u8>, chunk: Seq<u8>) -> Seq<u8> {
    received + chunk
}

/// How a read changes the count of empty reads in a row: an empty read adds
/// one, any other starts the count again.
pub open spec fn retries_after(retries: u8, chunk: Seq<u8>) -> int {
    if chunk.len() == 0 {
        retries + 1
    } else {
        0
    }
}

/// How the reading goes on after a read that brought `chunk`.
///
/// With the reply complete, it ends. After an empty read it goes on with the
/// next read 50 milliseconds later, unless that was the 60th empty read in a
/// row, at which the printer is given up. After a read that brought a part,
/// it goes on at once.
pub open spec fn read_step(received: Seq<u8>, retries: u8, chunk: Seq<u8>) -> ReadStep {
    if chunk.len() == 0 {
        if retries + 1 >= MAX_RETRIES {
            ReadStep::NoResponse
        } else {
            ReadStep::Read {
                len: (STATUS_LEN - received.len()) as usize,
                delay_ms: RETRY_DELAY_MS,
            }
        }
    } else if received.len() + chunk.len() == STATUS_LEN {
        ReadStep::Complete
    } else {
        ReadStep::Read {
            len: (STATUS_LEN - received.len() - chunk.len()) as usize,
            delay_ms: 0,
        }
    }
}

impl StatusReader {
    /// Whether the reader is still waiting for bytes and has not given up:
    /// the reply is incomplete, and fewer than 60 reads in a row have come
    /// back empty.
    pub open spec fn wf(&self) -> bool {
        self.received@.len() < STATUS_LEN && self.retries < MAX_RETRIES
    }

    /// Whether the reader has seen no read yet.
    pub open spec fn is_fresh(&self) -> bool {
        self.received@.len() == 0 && self.retries == 0
    }

    /// A reader that has received nothing yet.
    pub fn new() -> (reader: StatusReader)
        ensures
            reader.is_fresh(),
            reader.wf(),
    {
        StatusReader { received: Vec::new(), retries: 0 }
    }

    /// The first read of a reply: all 32 bytes, at once.
    pub open spec fn first_read() -> RequestView {
        RequestView::Read { len: STATUS_LEN, delay_ms: 0 }
    }

    /// Takes in what a read brought and says how the reading goes on.
    ///
    /// A read brings no more than it was asked for, so `chunk` is no longer
    /// than what the reply still lacks.
    pub fn feed(&mut self, chunk: &[u8]) -> (step: ReadStep)
        requires
            old(self).wf(),
            chunk@.len() <= STATUS_LEN - old(self).received@.len(),
        ensures
            step == read_step(old(self).received@, old(self).retries, chunk@),
            final(self).received@ == received_after(old(self).received@, chunk@),
            final(self).retries == retries_after(old(self).retries, chunk@),
            step is Read ==> final(self).wf(),
    {
        if chunk.len() == 0 {
            self.retries = self.retries + 1;
            assert(self.received@ =~= received_after(old(self).received@, chunk@));
            if self.retries >= MAX_RETRIES {
                return ReadStep::NoResponse;
            }
            // Nothing there yet: wait, then try again.
            return ReadStep::Read {
                len: STATUS_LEN - self.received.len(),
                delay_ms: RETRY_DELAY_MS,
            };
        }
        self.received.extend_from_slice(chunk);
        // A read that brought something starts the count again.
        self.retries = 0;
        if self.received.len() == STATUS_LEN {
            ReadStep::Complete
        } else {
            ReadStep::Read { len: STATUS_LEN - self.received.len(), delay_ms: 0 }
        }
    }
}

/// Where a print session stands: what it has asked for and waits to hear of.
#[derive(Debug, Clone, Copy, PartialEq, Eq, Structural)]
pub enum SessionStep {
    /// The preamble is being written.
    Preamble,
    /// The status request is being written.
    StatusRequest,
    /// The reply to the status request is being read.
    Ready,
    /// The commands of a page are being written.
    PageData,
    /// The reply that says the printer has begun to print is being read.
    Printing,
    /// The reply that says the page is printed is being read.
    Completed,
    /// The reply that says the printer takes data again is being read.
    Receiving,
    /// The session has ended, well or not.
    Done,
}

impl SessionStep {
    /// Whether the session waits for a write at this step.
    pub open spec fn spec_awaits_write(self) -> bool {
        self == SessionStep::Preamble || self == SessionStep::StatusRequest || self
            == SessionStep::PageData
    }

    /// Whether the session waits for a write at this step.
    #[verifier::when_used_as_spec(spec_awaits_write)]
    pub fn awaits_write(self) -> (res: bool)
        ensures
            res == self.spec_awaits_write(),
    {
        match self {
            SessionStep::Preamble | SessionStep::StatusRequest | SessionStep::PageData => true,
            _ => false,
        }
    }

    /// Whether the session waits for a status reply at this step.
    pub open spec fn spec_awaits_reply(self) -> bool {
        self == SessionStep::Ready || self == SessionStep::Printing || self
            == SessionStep::Completed || self == SessionStep::Receiving
    }

    /// Whether the session waits for a status reply at this step.
    #[verifier::when_used_as_spec(spec_awaits_reply)]
    pub fn awaits_reply(self) -> (res: bool)
        ensures
            res == self.spec_awaits_reply(),
    {
        match self {
            SessionStep::Ready | SessionStep::Printing | SessionStep::Completed
            | SessionStep::Receiving => true,
            _ => false,
        }
    }

    /// Whether the step belongs to a page.
    pub open spec fn in_page(self) -> bool {
        self == SessionStep::PageData || self == SessionStep::Printing || self
            == SessionStep::Completed || self == SessionStep::Receiving
    }

    /// The status type and phase that the reply read at this step must have.
    pub open spec fn spec_expected_reply(self) -> (StatusType, Phase) {
        match self {
            SessionStep::Printing => (StatusType::PhaseChange, Phase::Printing),
            SessionStep::Completed => (StatusType::PrintingCompleted, Phase::Printing),
            SessionStep::Receiving => (StatusType::PhaseChange, Phase::Receiving),
            _ => (StatusType::StatusRequestReply, Phase::Receiving),
        }
    }

    /// The status type and phase that the reply read at this step must have.
    #[verifier::when_used_as_spec(spec_expected_reply)]
    pub fn expected_reply(self) -> (res: (StatusType, Phase))
        ensures
            res == self.spec_expected_reply(),
    {
        match self {
            SessionStep::Printing => (StatusType::PhaseChange, Phase::Printing),
            SessionStep::Completed => (StatusType::PrintingCompleted, Phase::Printing),
            SessionStep::Receiving => (StatusType::PhaseChange, Phase::Receiving),
            _ => (StatusType::StatusRequestReply, Phase::Receiving),
        }
    }
}

/// A point in a print session: a step, and for the steps of a page, the page.
pub struct Position {
    /// Index of the page the step belongs to, counted from 0; 0 before the
    /// first page.
    pub page: nat,
    /// The step.
    pub step: SessionStep,
}

impl Position {
    /// Where a session starts.
    pub open spec fn start() -> Position {
        Position { page: 0, step: SessionStep::Preamble }
    }

    /// Where a session ends.
    pub open spec fn done() -> Position {
        Position { page: 0, step: SessionStep::Done }
    }

    /// The point that follows this one in a session of `page_count` pages,
    /// once what this point waits for has gone well.
    pub open spec fn next(self, page_count: nat) -> Position {
        match self.step {
            SessionStep::Preamble => Position { page: 0, step: SessionStep::StatusRequest },
            SessionStep::StatusRequest => Position { page: 0, step: SessionStep::Ready },
            SessionStep::Ready => if page_count == 0 {
                Position::done()
            } else {
                Position { page: 0, step: SessionStep::PageData }
            },
            SessionStep::PageData => Position { page: self.page, step: SessionStep::Printing },
            SessionStep::Printing => Position { page: self.page, step: SessionStep::Completed },
            SessionStep::Completed => Position { page: self.page, step: SessionStep::Receiving },
            SessionStep::Receiving => if self.page + 1 < page_count {
                Position { page: self.page + 1, step: SessionStep::PageData }
            } else {
                Position::done()
            },
            SessionStep::Done => self,
        }
    }

    /// The page number that an error at this point carries: 0 before the
    /// first page, else the number of the page, counted from 1.
    pub open spec fn page_no(self) -> u32 {
        if self.step.in_page() {
            ((self.page + 1) % 0x1_0000_0000) as u32
        } else {
            0
        }
    }

    /// What a session at this point asks its driver to do.
    pub open spec fn request(self, pages: Seq<Seq<u8>>) -> RequestView {
        match self.step {
            SessionStep::Preamble => RequestView::Write(preamble_commands().flatten()),
            SessionStep::StatusRequest => RequestView::Write(status_request_bytes()),
            SessionStep::PageData => RequestView::Write(pages[self.page as int]),
            SessionStep::Done => RequestView::Done,
            _ => StatusReader::first_read(),
        }
    }

    /// The error source for a transport failure at this point. A failure to
    /// write the preamble or a page is a connection error of the session; a
    /// failure while a status is asked for or read is a status error.
    pub open spec fn transport_failure<E: ConnectionError>(self, error: E) -> PrintErrorSource<E> {
        if self.step == SessionStep::Preamble || self.step == SessionStep::PageData {
            PrintErrorSource::Connection(error)
        } else {
            PrintErrorSource::Status(StatusError::Connection(error))
        }
    }
}

/// A print session: the pages of a job on their way to the printer.
#[derive(Debug, Clone, PartialEq, Eq)]
pub struct PrintSession {
    /// The media the job was made for.
    pub media: Media,
    /// The bytes of each page.
    pub pages: Vec<Vec<u8>>,
    /// Index of the page the session is at, counted from 0.
    pub page: usize,
    /// The step the session is at.
    pub step: SessionStep,
    /// The reader of the status reply that is being read.
    pub reader: StatusReader,
}

impl PrintSession {
    /// The pages of the session, each as its sequence of bytes.
    pub open spec fn pages_view(&self) -> Seq<Seq<u8>> {
        Seq::new(self.pages@.len(), |i: int| self.pages@[i]@)
    }

    /// The point the session is at.
    pub open spec fn position(&self) -> Position {
        Position { page: self.page as nat, step: self.step }
    }

    /// Whether the session is in order: a step of a page names a page of the
    /// job, and the reader reads only while a reply is awaited.
    pub open spec fn wf(&self) -> bool {
        &&& self.step.in_page() ==> self.page < self.pages@.len()
        &&& !self.step.in_page() ==> self.page == 0
        &&& self.reader.wf()
        &&& !self.step.spec_awaits_reply() ==> self.reader.is_fresh()
    }

    /// The request that the session waits to hear of while no reply is
    /// partly read.
    pub fn request(&self) -> (request: Request)
        requires
            self.wf(),
        ensures
            request@ == self.position().request(self.pages_view()),
    {
        match self.step {
            SessionStep::Preamble => Request::Write(RasterCommands::create_preamble().build()),
            SessionStep::StatusRequest => Request::Write(
                RasterCommand::StatusInformationRequest.encode(),
            ),
            SessionStep::PageData => Request::Write(self.pages[self.page].clone()),
            SessionStep::Done => Request::Done,
            _ => Request::Read { len: STATUS_LEN, delay_ms: 0 },
        }
    }

    /// The page number that an error at the present point carries.
    fn page_no(&self) -> (page_no: u32)
        requires
            self.wf(),
        ensures
            page_no == self.position().page_no(),
    {
        // The page lies below the number of pages, so counting from 1 fits.
        let page_count = self.pages.len();
        match self.step {
            SessionStep::PageData | SessionStep::Printing | SessionStep::Completed
            | SessionStep::Receiving => {
                assert(self.page < page_count);
                (((self.page as u64) + 1) % 0x1_0000_0000) as u32
            },
            _ => 0,
        }
    }

    /// Moves on to the next point and hands out its request.
    fn advance(&mut self) -> (request: Request)
        requires
            old(self).wf(),
            old(self).step != SessionStep::Done,
        ensures
            final(self).wf(),
            final(self).media == old(self).media,
            final(self).pages == old(self).pages,
            final(self).position() == old(self).position().next(old(self).pages@.len() as nat),
            final(self).reader.is_fresh(),
            request@ == final(self).position().request(final(self).pages_view()),
    {
        match self.step {
            SessionStep::Preamble => {
                self.step = SessionStep::StatusRequest;
            },
            SessionStep::StatusRequest => {
                self.step = SessionStep::Ready;
            },
            SessionStep::Ready => {
                if self.pages.len() == 0 {
                    self.step = SessionStep::Done;
                } else {
                    self.step = SessionStep::PageData;
                }
            },
            SessionStep::PageData => {
                self.step = SessionStep::Printing;
            },
            SessionStep::Printing => {
                self.step = SessionStep::Completed;
            },
            SessionStep::Completed => {
                self.step = SessionStep::Receiving;
            },
            SessionStep::Receiving => {
                let page_count = self.pages.len();
                if self.page + 1 < page_count {
                    self.page = self.page + 1;
                    self.step = SessionStep::PageData;
                } else {
                    self.page = 0;
                    self.step = SessionStep::Done;
                }
            },
            SessionStep::Done => {},
        }
        self.reader = StatusReader::new();
        self.request()
    }

    /// Starts a session for a job. The first request is to write the preamble.
    pub fn start(job: PrintJob) -> (res: (PrintSession, Request))
        ensures
            res.0.wf(),
            res.0.media == job.media,
            res.0.position() == Position::start(),
            res.0.reader.is_fresh(),
            res.0.pages_view() == pages_of(job@),
            res.1@ == Position::start().request(res.0.pages_view()),
    {
        let media = job.media;
        let ghost view = job@;
        let parts = job.into_parts();
        let mut pages: Vec<Vec<u8>> = Vec::new();
        let mut k: usize = 0;
        while k < parts.page_data.len()
            invariant
                k <= parts.page_data@.len(),
                parts.page_data@.len() == view.page_count(),
                forall|i: int|
                    0 <= i < parts.page_data@.len() ==> (#[trigger] parts.page_data@[i])@
                        == view.page_commands(i),
                pages@.len() == k,
                forall|i: int| 0 <= i < k ==> (#[trigger] pages@[i])@ == view.page_bytes(i),
            decreases parts.page_data@.len() - k,
        {
            pages.push(parts.page_data[k].to_bytes());
            k += 1;
        }
        let session = PrintSession {
            media,
            pages,
            page: 0,
            step: SessionStep::Preamble,
            reader: StatusReader::new(),
        };
        assert(session.pages_view() =~= pages_of(view));
        let request = session.request();
        (session, request)
    }

    /// Tells the session how the write it asked for went.
    ///
    /// After a write that went well the session moves on and hands out its
    /// next request. A write that failed ends the session with the error of
    /// the transport, at the page that was being sent.
    pub fn written<E: ConnectionError>(&mut self, result: Result<(), E>) -> (res: Result<
        Request,
        PrintError<E>,
    >)
        requires
            old(self).wf(),
            old(self).step.spec_awaits_write(),
        ensures
            final(self).wf(),
            final(self).media == old(self).media,
            final(self).pages == old(self).pages,
            match result {
                Ok(_) => {
                    &&& final(self).position() == old(self).position().next(
                        old(self).pages@.len() as nat,
                    )
                    &&& final(self).reader.is_fresh()
                    &&& res matches Ok(request)
                    &&& request@ == final(self).position().request(final(self).pages_view())
                },
                Err(e) => {
                    &&& final(self).position() == Position::done()
                    &&& res matches Err(error)
                    &&& error.page_no == old(self).position().page_no()
                    &&& error.source == old(self).position().transport_failure(e)
                },
            },
    {
        match result {
            Ok(_) => Ok(self.advance()),
            Err(e) => {
                let page_no = self.page_no();
                let source = match self.step {
                    SessionStep::StatusRequest => PrintErrorSource::Status(
                        StatusError::Connection(e),
                    ),
                    _ => PrintErrorSource::Connection(e),
                };
                self.fail();
                Err(PrintError::with_page(source, page_no))
            },
        }
    }

    /// Tells the session how the read it asked for went, with the bytes that
    /// the read brought.
    ///
    /// While the reply is incomplete, the session asks for the next read. A
    /// complete reply is decoded and checked against the media of the job and
    /// against what the printer has to report at this step; if it stands,
    /// the session moves on. A failed read, a printer that stays silent, a
    /// reply that cannot be decoded and a reply that does not stand each end
    /// the session with their error, at the page that was being printed.
    pub fn received<E: ConnectionError>(&mut self, result: Result<Vec<u8>, E>) -> (res: Result<
        Request,
        PrintError<E>,
    >)
        requires
            old(self).wf(),
            old(self).step.spec_awaits_reply(),
            result matches Ok(chunk) ==> chunk@.len() <= STATUS_LEN - old(self).reader.received@.len(),
        ensures
            final(self).wf(),
            final(self).media == old(self).media,
            final(self).pages == old(self).pages,
            match result {
                Err(e) => {
                    &&& final(self).position() == Position::done()
                    &&& res matches Err(error)
                    &&& error.page_no == old(self).position().page_no()
                    &&& error.source == old(self).position().transport_failure(e)
                },
                Ok(chunk) => match read_step(
                    old(self).reader.received@,
                    old(self).reader.retries,
                    chunk@,
                ) {
                    ReadStep::Read { len, delay_ms } => {
                        &&& final(self).position() == old(self).position()
                        &&& final(self).reader.received@ == old(self).reader.received@ + chunk@
                        &&& final(self).reader.retries == retries_after(
                            old(self).reader.retries,
                            chunk@,
                        )
                        &&& res matches Ok(request)
                        &&& request@ == (RequestView::Read { len, delay_ms })
                    },
                    ReadStep::NoResponse => {
                        &&& final(self).position() == Position::done()
                        &&& res matches Err(error)
                        &&& error.page_no == old(self).position().page_no()
                        &&& error.source == PrintErrorSource::<E>::Status(StatusError::NoResponse)
                    },
                    ReadStep::Complete => match decode_status(old(self).reader.received@ + chunk@) {
                        None => {
                            &&& final(self).position() == Position::done()
                            &&& res matches Err(error)
                            &&& error.page_no == old(self).position().page_no()
                            &&& error.source matches PrintErrorSource::Status(
                                StatusError::Parsing(parsing),
                            )
                            &&& parsing.reason@ == status_rejection(
                                old(self).reader.received@ + chunk@,
                            )
                        },
                        Some(status) => match validation(
                            status,
                            old(self).media,
                            old(self).step.spec_expected_reply().0,
                            old(self).step.spec_expected_reply().1,
                        ) {
                            Err(protocol_error) => {
                                &&& final(self).position() == Position::done()
                                &&& res matches Err(error)
                                &&& error.page_no == old(self).position().page_no()
                                &&& error.source == PrintErrorSource::<E>::Protocol(protocol_error)
                            },
                            Ok(_) => {
                                &&& final(self).position() == old(self).position().next(
                                    old(self).pages@.len() as nat,
                                )
                                &&& final(self).reader.is_fresh()
                                &&& res matches Ok(request)
                                &&& request@ == final(self).position().request(
                                    final(self).pages_view(),
                                )
                            },
                        },
                    },
                },
            },
    {
        let page_no = self.page_no();
        let chunk = match result {
            Ok(chunk) => chunk,
            Err(e) => {
                self.fail();
                return Err(
                    PrintError::with_page(
                        PrintErrorSource::Status(StatusError::Connection(e)),
                        page_no,
                    ),
                );
            },
        };
        match self.reader.feed(chunk.as_slice()) {
            ReadStep::Read { len, delay_ms } => Ok(Request::Read { len, delay_ms }),
            ReadStep::NoResponse => {
                self.fail();
                Err(
                    PrintError::with_page(PrintErrorSource::Status(StatusError::NoResponse), page_no),
                )
            },
            ReadStep::Complete => {
                let status = match StatusInformation::try_from(self.reader.received.as_slice()) {
                    Ok(status) => status,
                    Err(e) => {
                        self.fail();
                        return Err(
                            PrintError::with_page(
                                PrintErrorSource::Status(StatusError::Parsing(e)),
                                page_no,
                            ),
                        );
                    },
                };
                let expected = self.step.expected_reply();
                match validate_status(&status, self.media, expected.0, expected.1) {
                    Err(e) => {
                        self.fail();
                        Err(PrintError::with_page(PrintErrorSource::Protocol(e), page_no))
                    },
                    Ok(_) => {
                        self.reader = StatusReader::new();
                        Ok(self.advance())
                    },
                }
            },
        }
    }

    /// Ends the session after an error.
    fn fail(&mut self)
        ensures
            final(self).wf(),
            final(self).media == old(self).media,
            final(self).pages == old(self).pages,
            final(self).position() == Position::done(),
    {
        self.page = 0;
        self.step = SessionStep::Done;
        self.reader = StatusReader::new();
    }
}

/// Where a status query stands.
#[derive(Debug, Clone, Copy, PartialEq, Eq, Structural)]
pub enum QueryStep {
    /// The preamble is being written.
    Preamble,
    /// The status request is being written.
    StatusRequest,
    /// The reply is being read.
    Reply,
    /// The query has ended, well or not.
    Done,
}

/// How a status query goes on after a read.
#[derive(Debug, Clone, PartialEq, Eq)]
pub enum QueryProgress {
    /// The reply is not complete; this is the next read.
    Next(Request),
    /// The reply, decoded.
    Status(StatusInformation),
}

/// A status query: the preamble, a status request, and the reply to it,
/// handed out as the printer sent it, whatever it says.
#[derive(Debug, Clone, PartialEq, Eq)]
pub struct StatusQuery {
    /// The step the query is at.
    pub step: QueryStep,
    /// The reader of the reply.
    pub reader: StatusReader,
}

impl StatusQuery {
    /// Whether the query is in order.
    pub open spec fn wf(&self) -> bool {
        &&& self.reader.wf()
        &&& self.step != QueryStep::Reply ==> self.reader.is_fresh()
    }

    /// Starts a query. The first request is to write the preamble.
    pub fn start() -> (res: (StatusQuery, Request))
        ensures
            res.0.wf(),
            res.0.step == QueryStep::Preamble,
            res.1@ == RequestView::Write(preamble_commands().flatten()),
    {
        (
            StatusQuery { step: QueryStep::Preamble, reader: StatusReader::new() },
            Request::Write(RasterCommands::create_preamble().build()),
        )
    }

    /// Tells the query how the write it asked for went.
    ///
    /// After the preamble the status request is written, after the status
    /// request the reply is read. A write that failed ends the query with
    /// the error of the transport.
    pub fn written<E: ConnectionError>(&mut self, result: Result<(), E>) -> (res: Result<
        Request,
        StatusError<E>,
    >)
        requires
            old(self).wf(),
            old(self).step == QueryStep::Preamble || old(self).step == QueryStep::StatusRequest,
        ensures
            final(self).wf(),
            match result {
                Ok(_) => {
                    &&& final(self).reader.is_fresh()
                    &&& res matches Ok(request)
                    &&& if old(self).step == QueryStep::Preamble {
                        &&& final(self).step == QueryStep::StatusRequest
                        &&& request@ == RequestView::Write(status_request_bytes())
                    } else {
                        &&& final(self).step == QueryStep::Reply
                        &&& request@ == StatusReader::first_read()
                    }
                },
                Err(e) => {
                    &&& final(self).step == QueryStep::Done
                    &&& res matches Err(error)
                    &&& error == StatusError::Connection(e)
                },
            },
    {
        match result {
            Ok(_) => {
                match self.step {
                    QueryStep::Preamble => {
                        self.step = QueryStep::StatusRequest;
                        Ok(Request::Write(RasterCommand::StatusInformationRequest.encode()))
                    },
                    _ => {
                        self.step = QueryStep::Reply;
                        Ok(Request::Read { len: STATUS_LEN, delay_ms: 0 })
                    },
                }
            },
            Err(e) => {
                self.step = QueryStep::Done;
                Err(StatusError::Connection(e))
            },
        }
    }

    /// Tells the query how the read it asked for went, with the bytes that
    /// the read brought.
    ///
    /// While the reply is incomplete, the query asks for the next read. A
    /// complete reply is decoded and handed out; it is not checked for
    /// errors, media or phase.
    pub fn received<E: ConnectionError>(&mut self, result: Result<Vec<u8>, E>) -> (res: Result<
        QueryProgress,
        StatusError<E>,
    >)
        requires
            old(self).wf(),
            old(self).step == QueryStep::Reply,
            result matches Ok(chunk) ==> chunk@.len() <= STATUS_LEN - old(self).reader.received@.len(),
        ensures
            final(self).wf(),
            match result {
                Err(e) => {
                    &&& final(self).step == QueryStep::Done
                    &&& res matches Err(error)
                    &&& error == StatusError::Connection(e)
                },
                Ok(chunk) => match read_step(
                    old(self).reader.received@,
                    old(self).reader.retries,
                    chunk@,
                ) {
                    ReadStep::Read { len, delay_ms } => {
                        &&& final(self).step == QueryStep::Reply
                        &&& final(self).reader.received@ == old(self).reader.received@ + chunk@
                        &&& final(self).reader.retries == retries_after(
                            old(self).reader.retries,
                            chunk@,
                        )
                        &&& res matches Ok(QueryProgress::Next(request))
                        &&& request@ == (RequestView::Read { len, delay_ms })
                    },
                    ReadStep::NoResponse => {
                        &&& final(self).step == QueryStep::Done
                        &&& res matches Err(StatusError::NoResponse)
                    },
                    ReadStep::Complete => {
                        &&& final(self).step == QueryStep::Done
                        &&& match decode_status(old(self).reader.received@ + chunk@) {
                            None => res matches Err(StatusError::Parsing(parsing))
                                && parsing.reason@ == status_rejection(
                                old(self).reader.received@ + chunk@,
                            ),
                            Some(status) => res matches Ok(QueryProgress::Status(reply)) && reply
                                == status,
                        }
                    },
                },
            },
    {
        let chunk = match result {
            Ok(chunk) => chunk,
            Err(e) => {
                self.step = QueryStep::Done;
                self.reader = StatusReader::new();
                return Err(StatusError::Connection(e));
            },
        };
        match self.reader.feed(chunk.as_slice()) {
            ReadStep::Read { len, delay_ms } => Ok(
                QueryProgress::Next(Request::Read { len, delay_ms }),
            ),
            ReadStep::NoResponse => {
                self.step = QueryStep::Done;
                self.reader = StatusReader::new();
                Err(StatusError::NoResponse)
            },
            ReadStep::Complete => {
                let parsed = StatusInformation::try_from(self.reader.received.as_slice());
                self.step = QueryStep::Done;
                self.reader = StatusReader::new();
                match parsed {
                    Ok(status) => Ok(QueryProgress::Status(status)),
                    Err(e) => Err(StatusError::Parsing(e)),
                }
            },
        }
    }
}

/// The point a session has reached after `steps` steps that all went well.
pub open spec fn after_steps(page_count: nat, steps: nat) -> Position
    decreases steps,
{
    if steps == 0 {
        Position::start()
    } else {
        after_steps(page_count, (steps - 1) as nat).next(page_count)
    }
}

/// The schedule of a session: the point at which step `n` stands. Steps 0 to
/// 2 are the preamble, the status request and the reply to it; from step 3
/// on, each page takes four steps; after the last page the session is done.
pub open spec fn scheduled(page_count: nat, n: nat) -> Position {
    if n == 0 {
        Position { page: 0, step: SessionStep::Preamble }
    } else if n == 1 {
        Position { page: 0, step: SessionStep::StatusRequest }
    } else if n == 2 {
        Position { page: 0, step: SessionStep::Ready }
    } else if n < 3 + 4 * page_count {
        Position {
            page: ((n - 3) / 4) as nat,
            step: if (n - 3) % 4 == 0 {
                SessionStep::PageData
            } else if (n - 3) % 4 == 1 {
                SessionStep::Printing
            } else if (n - 3) % 4 == 2 {
                SessionStep::Completed
            } else {
                SessionStep::Receiving
            },
        }
    } else {
        Position::done()
    }
}

/// A session in which every write goes well and every reply stands follows
/// its schedule: it is done after three steps and four more for each page,
/// and not before.
pub proof fn lemma_session_schedule(page_count: nat, n: nat)
    ensures
        after_steps(page_count, n) == scheduled(page_count, n),
        after_steps(page_count, n).step == SessionStep::Done <==> n >= 3 + 4 * page_count,
        after_steps(page_count, n).step.in_page() ==> after_steps(page_count, n).page < page_count,
    decreases n,
{
    if n > 0 {
        lemma_session_schedule(page_count, (n - 1) as nat);
        lemma_schedule_step(page_count, (n - 1) as nat);
    }
    if 3 <= n < 3 + 4 * page_count {
        assert((n - 3) / 4 < page_count);
    }
}

/// The point that follows a point of the schedule is the next of the schedule.
proof fn lemma_schedule_step(page_count: nat, n: nat)
    ensures
        scheduled(page_count, n).next(page_count) == scheduled(page_count, n + 1),
{
    if n < 2 {
    } else if n == 2 {
        if page_count > 0 {
            assert((3 - 3) / 4 == 0 && (3 - 3) % 4 == 0);
        }
    } else if n < 3 + 4 * page_count {
        let k = (n - 3) / 4;
        let r = (n - 3) % 4;
        assert(n - 3 == 4 * k + r);
        assert(k < page_count);
        if r == 3 {
            assert((n + 1 - 3) / 4 == k + 1 && (n + 1 - 3) % 4 == 0);
            if k + 1 < page_count {
                assert(n + 1 < 3 + 4 * page_count);
            } else {
                assert(n + 1 >= 3 + 4 * page_count);
            }
        } else {
            assert((n + 1 - 3) / 4 == k && (n + 1 - 3) % 4 == r + 1);
            assert(n + 1 < 3 + 4 * page_count);
        }
    } else {
    }
}

/// What the printer has to report during a page, reply by reply: that it has
/// changed to printing, that the page is printed, and that it has changed
/// back to receiving. Before the first page it has to answer the status
/// request while receiving.
pub proof fn lemma_expected_replies()
    ensures
        SessionStep::Ready.spec_expected_reply() == (
            StatusType::StatusRequestReply,
            Phase::Receiving,
        ),
        SessionStep::Printing.spec_expected_reply() == (StatusType::PhaseChange, Phase::Printing),
        SessionStep::Completed.spec_expected_reply() == (
            StatusType::PrintingCompleted,
            Phase::Printing,
        ),
        SessionStep::Receiving.spec_expected_reply() == (StatusType::PhaseChange, Phase::Receiving),
{
}

/// A reply stands exactly if it reports the media of the job, no error, and
/// the status type and phase that are expected. A reply with an error flag
/// set never stands, and is a `PrinterError` unless the media is wrong.
pub proof fn lemma_validation(
    status: StatusInformation,
    job_media: Media,
    expected_type: StatusType,
    expected_phase: Phase,
)
    ensures
        validation(status, job_media, expected_type, expected_phase) is Ok <==> {
            &&& spec_status_matches_media(status, job_media)
            &&& status.errors.bits == 0
            &&& status.status_type == expected_type
            &&& status.phase == expected_phase
        },
        status.errors.bits != 0 && spec_status_matches_media(status, job_media) ==> validation(
            status,
            job_media,
            expected_type,
            expected_phase,
        ) == Err::<(), ProtocolError>(ProtocolError::PrinterError(status.errors)),
{
}

/// The retry budget of a read. The reader counts the reads that have come
/// back empty in a row; a read that brings anything starts the count again.
/// It gives up exactly at the 60th empty read in a row; after each empty read
/// before that it asks again 50 milliseconds later.
pub proof fn lemma_retry_budget(received: Seq<u8>, retries: u8, chunk: Seq<u8>)
    requires
        received.len() < STATUS_LEN,
        retries < MAX_RETRIES,
    ensures
        read_step(received, retries, chunk) == ReadStep::NoResponse <==> chunk.len() == 0
            && retries + 1 == MAX_RETRIES,
        chunk.len() == 0 && retries + 1 < MAX_RETRIES ==> read_step(received, retries, chunk) == (
        ReadStep::Read { len: (STATUS_LEN - received.len()) as usize, delay_ms: RETRY_DELAY_MS }),
        chunk.len() == 0 ==> retries_after(retries, chunk) == retries + 1,
        chunk.len() > 0 ==> retries_after(retries, chunk) == 0,
{
}

} // verus!
