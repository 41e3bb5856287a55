use std::collections::VecDeque;

use brother_ql::commands::VariousModeSettings;
use brother_ql::connection::{
    PrintSession, QueryProgress, ReadStep, Request, SessionStep, StatusQuery, StatusReader,
};
use brother_ql::error::{
    ConnectionError, KernelError, PrintError, PrintErrorSource, ProtocolError, StatusError,
    UsbError,
};
use brother_ql::media::{LabelType, Media};
use brother_ql::printer::PrinterModel;
use brother_ql::printjob::{PrintJob, PrintJobBuilder};
use brother_ql::raster_image::RgbImage;
use brother_ql::status::{
    ErrorFlags, Notification, Phase, StatusInformation, StatusType,
};

#[derive(Debug, PartialEq)]
struct ScriptError(u32);

impl ConnectionError for ScriptError {
    fn message(&self) -> String {
        format!("scripted failure {}", self.0)
    }
}

/// What a scripted transport answers to one read.
enum Read {
    Bytes(Vec<u8>),
    Fails(u32),
}

/// A transport that follows a script: it takes every write, unless told to
/// fail one, and answers reads from a queue, with nothing once the queue is
/// empty.
struct Script {
    written: Vec<Vec<u8>>,
    reads: VecDeque<Read>,
    fail_write: Option<(usize, u32)>,
    delays: Vec<u64>,
}

impl Script {
    fn new() -> Script {
        Script { written: Vec::new(), reads: VecDeque::new(), fail_write: None, delays: Vec::new() }
    }

    fn reply(mut self, status: StatusInformation) -> Script {
        self.reads.push_back(Read::Bytes(status.to_frame()));
        self
    }

    fn bytes(mut self, bytes: &[u8]) -> Script {
        self.reads.push_back(Read::Bytes(bytes.to_vec()));
        self
    }

    fn write(&mut self, data: &[u8]) -> Result<(), ScriptError> {
        if let Some((index, code)) = self.fail_write {
            if index == self.written.len() {
                return Err(ScriptError(code));
            }
        }
        self.written.push(data.to_vec());
        Ok(())
    }

    fn read(&mut self, len: usize, delay_ms: u64) -> Result<Vec<u8>, ScriptError> {
        self.delays.push(delay_ms);
        match self.reads.pop_front() {
            None => Ok(Vec::new()),
            Some(Read::Fails(code)) => Err(ScriptError(code)),
            Some(Read::Bytes(mut bytes)) => {
                if bytes.len() > len {
                    let rest = bytes.split_off(len);
                    self.reads.push_front(Read::Bytes(rest));
                }
                Ok(bytes)
            }
        }
    }
}

/// Prints a job over a scripted transport.
fn print(script: &mut Script, job: PrintJob) -> Result<(), PrintError<ScriptError>> {
    let (mut session, mut request) = PrintSession::start(job);
    loop {
        request = match request {
            Request::Write(bytes) => {
                assert!(session.step.awaits_write());
                session.written(script.write(&bytes))?
            }
            Request::Read { len, delay_ms } => {
                assert!(session.step.awaits_reply());
                session.received(script.read(len, delay_ms))?
            }
            Request::Done => {
                assert_eq!(session.step, SessionStep::Done);
                return Ok(());
            }
        };
    }
}

/// Asks a scripted printer for its status.
fn get_status(script: &mut Script) -> Result<StatusInformation, StatusError<ScriptError>> {
    let (mut query, mut request) = StatusQuery::start();
    loop {
        request = match request {
            Request::Write(bytes) => query.written(script.write(&bytes))?,
            Request::Read { len, delay_ms } => match query.received(script.read(len, delay_ms))? {
                QueryProgress::Next(request) => request,
                QueryProgress::Status(status) => return Ok(status),
            },
            Request::Done => panic!("a status query ends with a status"),
        };
    }
}

fn status(status_type: StatusType, phase: Phase) -> StatusInformation {
    StatusInformation {
        model: PrinterModel::QL820NWB,
        errors: ErrorFlags::from_bits_retain(0),
        media_width: 62,
        media_type: Some(LabelType::Continuous),
        mode: VariousModeSettings { auto_cut: true },
        media_length: 0,
        status_type,
        phase,
        notification: Notification::Unavailable,
    }
}

fn ready() -> StatusInformation {
    status(StatusType::StatusRequestReply, Phase::Receiving)
}

fn page_replies(script: Script) -> Script {
    script
        .reply(status(StatusType::PhaseChange, Phase::Printing))
        .reply(status(StatusType::PrintingCompleted, Phase::Printing))
        .reply(status(StatusType::PhaseChange, Phase::Receiving))
}

fn job(pages: u8) -> PrintJob {
    let img = RgbImage::new(696, 4, vec![255; 3 * 696 * 4]).unwrap();
    PrintJobBuilder::new(Media::C62).add_label(img).copies(pages).build().unwrap()
}

#[test]
fn session_happy_path_two_pages() {
    let job = job(2);
    let parts = job.clone().into_parts();
    let page_bytes: Vec<Vec<u8>> = parts.page_data.into_iter().map(|p| p.build()).collect();
    let mut script = page_replies(page_replies(Script::new().reply(ready())));
    assert!(print(&mut script, job).is_ok());
    assert_eq!(script.written.len(), 4);
    assert_eq!(script.written[0].len(), 402);
    assert!(script.written[0][..400].iter().all(|&b| b == 0));
    assert_eq!(&script.written[0][400..], &[0x1b, 0x40]);
    assert_eq!(script.written[1], vec![0x1b, 0x69, 0x53]);
    assert_eq!(script.written[2], page_bytes[0]);
    assert_eq!(script.written[3], page_bytes[1]);
    assert!(script.reads.is_empty());
    assert_eq!(script.delays, vec![0; 7]);
}

#[test]
fn session_error_in_last_reply_of_second_page() {
    let mut failing = status(StatusType::PhaseChange, Phase::Receiving);
    failing.errors = ErrorFlags::from_bits_retain(0x0004);
    let mut script = page_replies(Script::new().reply(ready()))
        .reply(status(StatusType::PhaseChange, Phase::Printing))
        .reply(status(StatusType::PrintingCompleted, Phase::Printing))
        .reply(failing);
    let err = print(&mut script, job(2)).unwrap_err();
    assert_eq!(err.page_no, 2);
    match err.source {
        PrintErrorSource::Protocol(ProtocolError::PrinterError(flags)) => {
            assert_eq!(flags.bits(), 0x0004);
        }
        other => panic!("expected a printer error, got {:?}", other),
    }
    assert_eq!(script.written.len(), 4);
}

#[test]
fn session_of_no_pages_ends_after_the_ready_check() {
    let mut script = Script::new().reply(ready());
    assert!(print(&mut script, job(0)).is_ok());
    assert_eq!(script.written.len(), 2);
}

#[test]
fn session_takes_steps_by_schedule() {
    let (mut session, request) = PrintSession::start(job(2));
    assert!(matches!(request, Request::Write(_)));
    let mut steps = vec![session.step];
    let mut pages = vec![session.page];
    let mut request = request;
    let replies = [
        ready(),
        status(StatusType::PhaseChange, Phase::Printing),
        status(StatusType::PrintingCompleted, Phase::Printing),
        status(StatusType::PhaseChange, Phase::Receiving),
        status(StatusType::PhaseChange, Phase::Printing),
        status(StatusType::PrintingCompleted, Phase::Printing),
        status(StatusType::PhaseChange, Phase::Receiving),
    ];
    let mut next_reply = 0;
    while request != Request::Done {
        request = match request {
            Request::Write(_) => session.written::<ScriptError>(Ok(())).unwrap(),
            Request::Read { len, delay_ms } => {
                assert_eq!((len, delay_ms), (32, 0));
                next_reply += 1;
                session.received::<ScriptError>(Ok(replies[next_reply - 1].to_frame())).unwrap()
            }
            Request::Done => unreachable!(),
        };
        steps.push(session.step);
        pages.push(session.page);
    }
    assert_eq!(
        steps,
        vec![
            SessionStep::Preamble,
            SessionStep::StatusRequest,
            SessionStep::Ready,
            SessionStep::PageData,
            SessionStep::Printing,
            SessionStep::Completed,
            SessionStep::Receiving,
            SessionStep::PageData,
            SessionStep::Printing,
            SessionStep::Completed,
            SessionStep::Receiving,
            SessionStep::Done,
        ]
    );
    assert_eq!(pages, vec![0, 0, 0, 0, 0, 0, 0, 1, 1, 1, 1, 0]);
    assert_eq!(steps.len() - 1, 3 + 4 * 2);
}

#[test]
fn expected_replies_of_each_step() {
    assert_eq!(
        SessionStep::Ready.expected_reply(),
        (StatusType::StatusRequestReply, Phase::Receiving)
    );
    assert_eq!(SessionStep::Printing.expected_reply(), (StatusType::PhaseChange, Phase::Printing));
    assert_eq!(
        SessionStep::Completed.expected_reply(),
        (StatusType::PrintingCompleted, Phase::Printing)
    );
    assert_eq!(SessionStep::Receiving.expected_reply(), (StatusType::PhaseChange, Phase::Receiving));
}

#[test]
fn media_mismatch_before_the_first_page() {
    let mut reply = ready();
    reply.media_width = 29;
    let mut script = Script::new().reply(reply);
    let err = print(&mut script, job(1)).unwrap_err();
    assert_eq!(err.page_no, 0);
    match err.source {
        PrintErrorSource::Protocol(ProtocolError::MediaMismatch {
            expected_media,
            reported_media,
        }) => {
            assert_eq!(expected_media, Media::C62);
            assert_eq!(reported_media, Some(Media::C29));
        }
        other => panic!("expected a media mismatch, got {:?}", other),
    }
    // Nothing of the page was sent.
    assert_eq!(script.written.len(), 2);
}

#[test]
fn media_mismatch_goes_before_printer_errors() {
    let mut reply = ready();
    reply.media_type = None;
    reply.media_width = 0;
    reply.errors = ErrorFlags::from_bits_retain(0x0001);
    let mut script = Script::new().reply(reply);
    let err = print(&mut script, job(1)).unwrap_err();
    assert_eq!(err.page_no, 0);
    assert!(matches!(
        err.source,
        PrintErrorSource::Protocol(ProtocolError::MediaMismatch {
            expected_media: Media::C62,
            reported_media: None,
        })
    ));
}

#[test]
fn printer_error_goes_before_unexpected_status() {
    let mut reply = status(StatusType::ErrorOccurred, Phase::Receiving);
    reply.errors = ErrorFlags::from_bits_retain(0x1000);
    let mut script = Script::new().reply(ready()).reply(reply);
    let err = print(&mut script, job(1)).unwrap_err();
    assert_eq!(err.page_no, 1);
    match err.source {
        PrintErrorSource::Protocol(ProtocolError::PrinterError(flags)) => {
            assert_eq!(flags.bits(), 0x1000)
        }
        other => panic!("expected a printer error, got {:?}", other),
    }
}

#[test]
fn unexpected_status_names_both_sides() {
    let mut script = Script::new()
        .reply(ready())
        .reply(status(StatusType::PhaseChange, Phase::Printing))
        .reply(status(StatusType::PhaseChange, Phase::Receiving));
    let err = print(&mut script, job(3)).unwrap_err();
    assert_eq!(err.page_no, 1);
    match err.source {
        PrintErrorSource::Protocol(ProtocolError::UnexpectedStatus {
            expected_type,
            expected_phase,
            actual_type,
            actual_phase,
        }) => {
            assert_eq!(expected_type, StatusType::PrintingCompleted);
            assert_eq!(expected_phase, Phase::Printing);
            assert_eq!(actual_type, StatusType::PhaseChange);
            assert_eq!(actual_phase, Phase::Receiving);
        }
        other => panic!("expected an unexpected status, got {:?}", other),
    }
}

#[test]
fn silent_printer_is_given_up_after_60_empty_reads() {
    let mut script = Script::new();
    let err = print(&mut script, job(1)).unwrap_err();
    assert_eq!(err.page_no, 0);
    assert!(matches!(err.source, PrintErrorSource::Status(StatusError::NoResponse)));
    // One read at once, then 59 after a pause of 50 ms each.
    assert_eq!(script.delays.len(), 60);
    assert_eq!(script.delays[0], 0);
    assert!(script.delays[1..].iter().all(|&d| d == 50));
}

#[test]
fn silence_during_a_page_carries_the_page_number() {
    let mut script = page_replies(Script::new().reply(ready()))
        .reply(status(StatusType::PhaseChange, Phase::Printing));
    let err = print(&mut script, job(2)).unwrap_err();
    assert_eq!(err.page_no, 2);
    assert!(matches!(err.source, PrintErrorSource::Status(StatusError::NoResponse)));
}

#[test]
fn partial_reads_are_put_together() {
    let frame = ready().to_frame();
    let mut script = Script::new().bytes(&frame[..5]).bytes(&frame[5..6]).bytes(&frame[6..]);
    assert!(print(&mut script, job(0)).is_ok());
    assert_eq!(script.delays, vec![0, 0, 0]);
}

#[test]
fn a_read_never_asks_for_more_than_is_missing() {
    let mut reader = StatusReader::new();
    assert_eq!(reader.feed(&[1, 2, 3]), ReadStep::Read { len: 29, delay_ms: 0 });
    assert_eq!(reader.feed(&[]), ReadStep::Read { len: 29, delay_ms: 50 });
    assert_eq!(reader.feed(&[0; 28]), ReadStep::Read { len: 1, delay_ms: 0 });
    assert_eq!(reader.feed(&[9]), ReadStep::Complete);
    assert_eq!(reader.received.len(), 32);
    assert_eq!(&reader.received[..3], &[1, 2, 3]);
    assert_eq!(reader.received[31], 9);
}

#[test]
fn a_partial_read_restarts_the_retry_count() {
    let mut reader = StatusReader::new();
    for _ in 0..59 {
        assert_eq!(reader.feed(&[]), ReadStep::Read { len: 32, delay_ms: 50 });
    }
    assert_eq!(reader.retries, 59);
    assert_eq!(reader.feed(&[7]), ReadStep::Read { len: 31, delay_ms: 0 });
    assert_eq!(reader.retries, 0);
    for _ in 0..59 {
        assert_eq!(reader.feed(&[]), ReadStep::Read { len: 31, delay_ms: 50 });
    }
    assert_eq!(reader.feed(&[]), ReadStep::NoResponse);
}

#[test]
fn the_60th_empty_read_in_a_row_gives_up() {
    let mut reader = StatusReader::new();
    for i in 0..59 {
        assert_eq!(reader.feed(&[]), ReadStep::Read { len: 32, delay_ms: 50 }, "read {}", i);
    }
    assert_eq!(reader.feed(&[]), ReadStep::NoResponse);
    assert_eq!(reader.retries, 60);
}

#[test]
fn reply_after_59_empty_reads_is_still_taken() {
    let mut script = Script::new();
    for _ in 0..59 {
        script = script.bytes(&[]);
    }
    let mut script = script.reply(ready());
    assert_eq!(get_status(&mut script).unwrap(), ready());
    assert_eq!(script.delays.len(), 60);
}

#[test]
fn malformed_reply_is_a_parsing_error() {
    let mut frame = ready().to_frame();
    frame[0] = 0x81;
    let mut script = Script::new().reply(ready()).bytes(&frame);
    let err = print(&mut script, job(1)).unwrap_err();
    assert_eq!(err.page_no, 1);
    match err.source {
        PrintErrorSource::Status(StatusError::Parsing(e)) => {
            assert_eq!(
                e.reason,
                "expected value 0x80 for field Print head mark at offset 0 but was 0x81"
            );
        }
        other => panic!("expected a parsing error, got {:?}", other),
    }
}

#[test]
fn failed_preamble_write_is_a_connection_error_at_page_0() {
    let mut script = Script::new();
    script.fail_write = Some((0, 11));
    let err = print(&mut script, job(1)).unwrap_err();
    assert_eq!(err.page_no, 0);
    assert!(matches!(err.source, PrintErrorSource::Connection(ScriptError(11))));
}

#[test]
fn failed_status_request_is_a_status_error_at_page_0() {
    let mut script = Script::new();
    script.fail_write = Some((1, 12));
    let err = print(&mut script, job(1)).unwrap_err();
    assert_eq!(err.page_no, 0);
    assert!(matches!(
        err.source,
        PrintErrorSource::Status(StatusError::Connection(ScriptError(12)))
    ));
}

#[test]
fn failed_page_write_is_a_connection_error_at_that_page() {
    let mut script = page_replies(Script::new().reply(ready()));
    script.fail_write = Some((3, 13));
    let err = print(&mut script, job(2)).unwrap_err();
    assert_eq!(err.page_no, 2);
    assert!(matches!(err.source, PrintErrorSource::Connection(ScriptError(13))));
}

#[test]
fn failed_read_is_a_status_error() {
    let mut script = Script::new().reply(ready());
    script.reads.push_back(Read::Fails(14));
    let err = print(&mut script, job(1)).unwrap_err();
    assert_eq!(err.page_no, 1);
    assert!(matches!(
        err.source,
        PrintErrorSource::Status(StatusError::Connection(ScriptError(14)))
    ));
}

#[test]
fn session_is_done_after_an_error() {
    let (mut session, _) = PrintSession::start(job(1));
    let err = session.written(Err(ScriptError(1))).unwrap_err();
    assert_eq!(err.page_no, 0);
    assert_eq!(session.step, SessionStep::Done);
    assert_eq!(session.request(), Request::Done);
}

#[test]
fn status_query_returns_the_reply_as_it_is() {
    let mut reply = status(StatusType::ErrorOccurred, Phase::Printing);
    reply.errors = ErrorFlags::from_bits_retain(0x0003);
    reply.media_type = None;
    let mut script = Script::new().reply(reply);
    assert_eq!(get_status(&mut script).unwrap(), reply);
    assert_eq!(script.written.len(), 2);
    assert_eq!(script.written[0].len(), 402);
    assert_eq!(script.written[1], vec![0x1b, 0x69, 0x53]);
}

#[test]
fn status_query_failures() {
    let mut script = Script::new();
    assert!(matches!(get_status(&mut script), Err(StatusError::NoResponse)));
    assert_eq!(script.delays.len(), 60);

    let mut script = Script::new();
    script.fail_write = Some((0, 5));
    assert!(matches!(get_status(&mut script), Err(StatusError::Connection(ScriptError(5)))));

    let mut script = Script::new();
    script.fail_write = Some((1, 6));
    assert!(matches!(get_status(&mut script), Err(StatusError::Connection(ScriptError(6)))));

    let mut script = Script::new();
    script.reads.push_back(Read::Fails(7));
    assert!(matches!(get_status(&mut script), Err(StatusError::Connection(ScriptError(7)))));

    let mut script = Script::new().bytes(&[0u8; 32]);
    assert!(matches!(get_status(&mut script), Err(StatusError::Parsing(_))));
}

#[test]
fn print_error_with_page() {
    let err: PrintError<ScriptError> =
        PrintError::with_page(PrintErrorSource::Connection(ScriptError(3)), 9);
    assert_eq!(err.page_no, 9);
    assert!(matches!(err.source, PrintErrorSource::Connection(ScriptError(3))));
}

#[test]
fn short_writes_are_incomplete() {
    assert!(KernelError::check_write(10, 10).is_ok());
    assert!(KernelError::check_write(0, 0).is_ok());
    assert!(matches!(KernelError::check_write(9, 10), Err(KernelError::IncompleteWrite)));
    assert!(matches!(KernelError::check_write(0, 1), Err(KernelError::IncompleteWrite)));
    assert!(UsbError::check_write(402, 402).is_ok());
    assert!(matches!(UsbError::check_write(401, 402), Err(UsbError::IncompleteWrite)));
}

#[test]
fn session_sends_the_compiled_job_page_by_page() {
    let job = job(3);
    let compiled = job.clone().compile();
    let mut script = page_replies(page_replies(page_replies(Script::new().reply(ready()))));
    assert!(print(&mut script, job).is_ok());
    let mut sent = script.written[0].clone();
    for page in &script.written[2..] {
        sent.extend_from_slice(page);
    }
    assert_eq!(sent, compiled);
}
