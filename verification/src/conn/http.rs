//! The firmware update over HTTP: which requests are admitted, and the
//! session that takes one image from the request into the update slot.
//!
//! The session decides; its caller does the work. Each decision names the
//! one piece of outside work that is due (`OtaAction`), and the caller
//! reports how it went (`OtaEvent`). At most one session exists at a time.

use vstd::prelude::*;
use vstd::string::*;
use crate::text::{joined, decimal, decimal_text, same_text};

verus! {

/// The number of bytes that the caller asks of the request at a time.
pub const FIRMWARE_DOWNLOAD_CHUNK_SIZE: usize = 1024 * 8;

/// The largest image that is admitted, in bytes.
pub const FIRMWARE_MAX_SIZE: u64 = 1024 * 1024 * 3;

/// How far above the size of the image header the smallest admitted image
/// lies, in bytes.
pub const FIRMWARE_MIN_MARGIN: u64 = 1024;

/// How loudly an outcome is logged.
#[derive(Debug, Clone, Copy, PartialEq, Eq, Structural)]
pub enum Severity {
    /// Success, and refusals that are to be expected.
    Info,
    /// Failures that should not happen.
    Error,
}

/// What is logged and then sent back to the client.
#[derive(Debug, Clone, PartialEq, Eq)]
pub struct Response {
    pub status: u16,
    pub severity: Severity,
    pub message: String,
}

/// A response as plain values.
pub struct Reply {
    pub status: u16,
    pub severity: Severity,
    pub message: Seq<char>,
}

impl View for Response {
    type V = Reply;

    open spec fn view(&self) -> Reply {
        Reply { status: self.status, severity: self.severity, message: self.message@ }
    }
}

/// The outside work that a session waits for.
#[derive(Debug, Clone, Copy, PartialEq, Eq, Structural)]
pub enum Stage {
    /// The update slot in flash is being opened.
    Opening,
    /// The next chunk of the request body is being read.
    Reading,
    /// The first chunk is being searched for the image header.
    Checking,
    /// The chunk in hand is being written to flash.
    Writing,
    /// The written image is being made the one to boot.
    Committing,
}

/// One upload in progress.
#[derive(Debug, Clone, Copy, PartialEq, Eq, Structural)]
pub struct OtaSession {
    /// The length that the request declared.
    pub declared: u64,
    /// The number of bytes read from the request so far.
    pub received: u64,
    /// Whether the image header has yet to be found.
    pub header_pending: bool,
    /// The size of the chunk in hand.
    pub chunk: usize,
    /// What the session waits for.
    pub stage: Stage,
}

/// How a piece of outside work went.
#[derive(Debug, Clone, Copy, PartialEq, Eq, Structural)]
pub enum OtaEvent {
    /// The update slot is open.
    Opened,
    /// The update slot could not be opened.
    OpenFailed,
    /// So many bytes were read; none means that the body has ended.
    Chunk(usize),
    /// Reading the body failed.
    ReadFailed,
    /// The chunk in hand holds an image header.
    HeaderAccepted,
    /// The chunk in hand holds no image header.
    HeaderRejected,
    /// The chunk in hand is in flash.
    Written,
    /// Writing the chunk in hand failed.
    WriteFailed,
    /// The image has been made the one to boot.
    Committed,
    /// The image could not be made the one to boot.
    CommitFailed,
}

/// The next thing for the caller to do.
#[derive(Debug, Clone, PartialEq, Eq)]
pub enum OtaAction {
    /// Open the update slot in flash.
    OpenFlash,
    /// Read the next chunk of the request body.
    ReadChunk,
    /// Look for the image header in the chunk in hand.
    CheckHeader,
    /// Write the chunk in hand to flash.
    WriteChunk,
    /// Make the written image the one to boot.
    Commit,
    /// Turn the request down. No session was opened for it.
    Reject(Response),
    /// The session is over: roll the flash back if `rollback` says so, then
    /// log and send the response.
    Finish { completed: bool, rollback: bool, response: Response },
}

/// An action as plain values.
pub enum Step {
    OpenFlash,
    ReadChunk,
    CheckHeader,
    WriteChunk,
    Commit,
    Reject(Reply),
    Finish { completed: bool, rollback: bool, response: Reply },
}

impl View for OtaAction {
    type V = Step;

    open spec fn view(&self) -> Step {
        match self {
            OtaAction::OpenFlash => Step::OpenFlash,
            OtaAction::ReadChunk => Step::ReadChunk,
            OtaAction::CheckHeader => Step::CheckHeader,
            OtaAction::WriteChunk => Step::WriteChunk,
            OtaAction::Commit => Step::Commit,
            OtaAction::Reject(response) => Step::Reject(response@),
            OtaAction::Finish { completed, rollback, response } => Step::Finish {
                completed: *completed,
                rollback: *rollback,
                response: response@,
            },
        }
    }
}

/// The refusal of an image that is too small.
pub open spec fn too_small(size: u64) -> Reply {
    Reply {
        status: 400,
        severity: Severity::Info,
        message: "File size "@ + decimal_text(size as nat) + " too small - not proceeding!"@,
    }
}

/// The refusal of an image that is too big.
pub open spec fn too_big(size: u64) -> Reply {
    Reply {
        status: 400,
        severity: Severity::Info,
        message: "File size "@ + decimal_text(size as nat) + " too big - not proceeding!"@,
    }
}

/// The refusal of a body that is not declared as a stream of octets.
pub open spec fn wrong_type() -> Reply {
    Reply {
        status: 400,
        severity: Severity::Info,
        message: "File Content-Type incorrect - not proceeding!"@,
    }
}

/// The refusal of an upload while another one is in progress.
pub open spec fn busy() -> Reply {
    Reply {
        status: 503,
        severity: Severity::Info,
        message: "OTA session busy - not proceeding!"@,
    }
}

/// The report of a body that ended before the declared length.
pub open spec fn shortfall(declared: u64, received: u64) -> Reply {
    Reply {
        status: 500,
        severity: Severity::Error,
        message: "was supposed to get "@ + decimal_text(declared as nat) + " bytes, but only got "@
            + decimal_text(received as nat) + ". aborting update"@,
    }
}

/// The report of a chunk without image header.
pub open spec fn no_header() -> Reply {
    Reply {
        status: 400,
        severity: Severity::Error,
        message: "Failed to get firmware info from sent bytes"@,
    }
}

/// The report of a failed write; `detail` is what the flash driver said.
pub open spec fn write_failed(detail: Seq<char>) -> Reply {
    Reply {
        status: 500,
        severity: Severity::Error,
        message: "Failed to write to the OTA: "@ + detail,
    }
}

/// The report of flash that could not be opened or committed; `detail` is
/// what the flash driver said.
pub open spec fn flash_failed(detail: Seq<char>) -> Reply {
    Reply { status: 500, severity: Severity::Error, message: detail }
}

/// The report of a completed update.
pub open spec fn completed() -> Reply {
    Reply { status: 200, severity: Severity::Info, message: "OTA update completed!"@ }
}

/// The length that a request declares; a request without one declares none.
pub open spec fn declared_size(content_len: Option<u64>) -> u64 {
    match content_len {
        Some(size) => size,
        None => 0,
    }
}

/// Whether a request is admitted, and if so the length it declares.
///
/// The length must be at least the size of the image header plus 1024 and
/// at most 3 MiB, and the content type exactly `application/octet-stream`.
/// The first of these that fails decides the refusal.
pub open spec fn admission(
    content_len: Option<u64>,
    content_type: Option<Seq<char>>,
    header_size: nat,
) -> Result<u64, Reply> {
    let size = declared_size(content_len);
    if size < header_size + FIRMWARE_MIN_MARGIN {
        Err(too_small(size))
    } else if size > FIRMWARE_MAX_SIZE {
        Err(too_big(size))
    } else if content_type != Some("application/octet-stream"@) {
        Err(wrong_type())
    } else {
        Ok(size)
    }
}

/// The session that an admitted request of `declared` bytes starts with.
pub open spec fn fresh(declared: u64) -> OtaSession {
    OtaSession { declared, received: 0, header_pending: true, chunk: 0, stage: Stage::Opening }
}

/// The count of bytes after `more` were read; it stops at the largest
/// number that 64 bits hold.
pub open spec fn counted(received: u64, more: usize) -> u64 {
    if received + more > u64::MAX {
        u64::MAX
    } else {
        (received + more) as u64
    }
}

/// One move of a session: the session that is left, if any, and what is to
/// be done next.
pub struct Move {
    pub session: Option<OtaSession>,
    pub step: Step,
}

/// What `event` does to the session `s`: the session that is left, if any,
/// and what is to be done next. `None` where the session does not wait for
/// that event. `detail` is what the driver said of a failure.
///
/// - Opening: the opened slot leads to the first read; a failure ends the
///   session.
/// - Reading: a chunk is counted, then searched for the header if that is
///   still due, else written. An empty chunk or a failed read ends the
///   session with the report of the shortfall.
/// - Checking: a header lets the chunk be written; none ends the session.
/// - Writing: after the write comes the commit once the declared length is
///   reached, else the next read; a failure ends the session.
/// - Committing: ends the session, completed or failed.
///
/// A session that ends before the commit has the flash rolled back.
pub open spec fn transition(s: OtaSession, event: OtaEvent, detail: Seq<char>) -> Option<Move> {
    match (s.stage, event) {
        (Stage::Opening, OtaEvent::Opened) => Some(
            Move { session: Some(OtaSession { stage: Stage::Reading, ..s }), step: Step::ReadChunk },
        ),
        (Stage::Opening, OtaEvent::OpenFailed) => Some(
            Move {
                session: None,
                step: Step::Finish {
                    completed: false,
                    rollback: false,
                    response: flash_failed(detail),
                },
            },
        ),
        (Stage::Reading, OtaEvent::Chunk(len)) => if len == 0 {
            Some(
                Move {
                    session: None,
                    step: Step::Finish {
                        completed: false,
                        rollback: true,
                        response: shortfall(s.declared, s.received),
                    },
                },
            )
        } else if s.header_pending {
            Some(
                Move {
                    session: Some(
                        OtaSession {
                            received: counted(s.received, len),
                            chunk: len,
                            stage: Stage::Checking,
                            ..s
                        },
                    ),
                    step: Step::CheckHeader,
                },
            )
        } else {
            Some(
                Move {
                    session: Some(
                        OtaSession {
                            received: counted(s.received, len),
                            chunk: len,
                            stage: Stage::Writing,
                            ..s
                        },
                    ),
                    step: Step::WriteChunk,
                },
            )
        },
        (Stage::Reading, OtaEvent::ReadFailed) => Some(
            Move {
                session: None,
                step: Step::Finish {
                    completed: false,
                    rollback: true,
                    response: shortfall(s.declared, s.received),
                },
            },
        ),
        (Stage::Checking, OtaEvent::HeaderAccepted) => Some(
            Move {
                session: Some(OtaSession { header_pending: false, stage: Stage::Writing, ..s }),
                step: Step::WriteChunk,
            },
        ),
        (Stage::Checking, OtaEvent::HeaderRejected) => Some(
            Move {
                session: None,
                step: Step::Finish { completed: false, rollback: true, response: no_header() },
            },
        ),
        (Stage::Writing, OtaEvent::Written) => if s.received >= s.declared {
            Some(
                Move {
                    session: Some(OtaSession { stage: Stage::Committing, ..s }),
                    step: Step::Commit,
                },
            )
        } else {
            Some(
                Move {
                    session: Some(OtaSession { stage: Stage::Reading, ..s }),
                    step: Step::ReadChunk,
                },
            )
        },
        (Stage::Writing, OtaEvent::WriteFailed) => Some(
            Move {
                session: None,
                step: Step::Finish {
                    completed: false,
                    rollback: true,
                    response: write_failed(detail),
                },
            },
        ),
        (Stage::Committing, OtaEvent::Committed) => Some(
            Move {
                session: None,
                step: Step::Finish { completed: true, rollback: false, response: completed() },
            },
        ),
        (Stage::Committing, OtaEvent::CommitFailed) => Some(
            Move {
                session: None,
                step: Step::Finish {
                    completed: false,
                    rollback: false,
                    response: flash_failed(detail),
                },
            },
        ),
        _ => None,
    }
}

/// What holds of every session that this module hands out.
///
/// The declared length is within the admitted bounds. Nothing is read
/// before the slot is open. A session reads only while bytes are missing
/// and commits only when none are. Nothing is written before the header
/// was found, and no empty chunk is checked or written.
pub open spec fn session_wf(s: OtaSession) -> bool {
    &&& FIRMWARE_MIN_MARGIN <= s.declared <= FIRMWARE_MAX_SIZE
    &&& match s.stage {
        Stage::Opening => s.received == 0 && s.header_pending,
        Stage::Reading => s.received < s.declared,
        Stage::Checking => s.header_pending && s.chunk > 0 && s.received >= s.chunk,
        Stage::Writing => !s.header_pending && s.chunk > 0 && s.received >= s.chunk,
        Stage::Committing => !s.header_pending && s.received >= s.declared,
    }
}

fn reply(status: u16, severity: Severity, message: String) -> (r: Response)
    ensures
        r@ == (Reply { status, severity, message: message@ }),
{
    Response { status, severity, message }
}

fn size_refusal(size: u64, ending: &str) -> (r: Response)
    ensures
        r@ == (Reply {
            status: 400,
            severity: Severity::Info,
            message: "File size "@ + decimal_text(size as nat) + ending@,
        }),
{
    let digits = decimal(size);
    let mut message = joined("File size ", digits.as_str());
    message.append(ending);
    reply(400, Severity::Info, message)
}

fn shortfall_report(declared: u64, received: u64) -> (r: Response)
    ensures
        r@ == shortfall(declared, received),
{
    let wanted = decimal(declared);
    let got = decimal(received);
    let mut message = joined("was supposed to get ", wanted.as_str());
    message.append(" bytes, but only got ");
    message.append(got.as_str());
    message.append(". aborting update");
    reply(500, Severity::Error, message)
}

/// Decides whether a request is admitted, and returns the length that it
/// declares or the refusal to send.
pub fn check_request(
    content_len: Option<u64>,
    content_type: Option<&str>,
    header_size: usize,
) -> (r: Result<u64, Response>)
    ensures
        match r {
            Ok(size) => admission(content_len, content_type_text(content_type), header_size as nat)
                == Ok::<u64, Reply>(size),
            Err(refusal) => admission(
                content_len,
                content_type_text(content_type),
                header_size as nat,
            ) == Err::<u64, Reply>(refusal@),
        },
{
    let size: u64 = match content_len {
        Some(size) => size,
        None => 0,
    };
    if size < FIRMWARE_MIN_MARGIN || size - FIRMWARE_MIN_MARGIN < header_size as u64 {
        return Err(size_refusal(size, " too small - not proceeding!"));
    }
    if size > FIRMWARE_MAX_SIZE {
        return Err(size_refusal(size, " too big - not proceeding!"));
    }
    let octets = match content_type {
        Some(name) => same_text(name, "application/octet-stream"),
        None => false,
    };
    if !octets {
        return Err(
            reply(
                400,
                Severity::Info,
                "File Content-Type incorrect - not proceeding!".to_owned(),
            ),
        );
    }
    Ok(size)
}

/// The content type as plain text.
pub open spec fn content_type_text(content_type: Option<&str>) -> Option<Seq<char>> {
    match content_type {
        Some(name) => Some(name@),
        None => None,
    }
}

/// The one place for an upload in progress.
pub struct UpdateSlot {
    active: Option<OtaSession>,
}

/// What a new request does to the slot that holds `active`: a request that
/// is not admitted is refused; one that is admitted while a session is
/// active is told so; else its session starts. A refusal leaves the slot as
/// it was.
pub open spec fn begun(
    active: Option<OtaSession>,
    content_len: Option<u64>,
    content_type: Option<Seq<char>>,
    header_size: nat,
) -> (Option<OtaSession>, Step) {
    match admission(content_len, content_type, header_size) {
        Err(refusal) => (active, Step::Reject(refusal)),
        Ok(size) => if active is Some {
            (active, Step::Reject(busy()))
        } else {
            (Some(fresh(size)), Step::OpenFlash)
        },
    }
}

/// What `event` does to the slot that holds `active`. An event that no
/// session waits for changes nothing and asks for nothing.
pub open spec fn advanced(active: Option<OtaSession>, event: OtaEvent, detail: Seq<char>) -> (
    Option<OtaSession>,
    Option<Step>,
) {
    match active {
        None => (None, None),
        Some(s) => match transition(s, event, detail) {
            None => (active, None),
            Some(m) => (m.session, Some(m.step)),
        },
    }
}

impl UpdateSlot {
    #[verifier::type_invariant]
    spec fn sound(self) -> bool {
        self.active is Some ==> session_wf(self.active->0)
    }

    /// The session in progress, if any.
    pub closed spec fn session(&self) -> Option<OtaSession> {
        self.active
    }

    /// An idle slot.
    pub fn new() -> (slot: Self)
        ensures
            slot.session() is None,
    {
        UpdateSlot { active: None }
    }

    /// The session in progress, if any.
    pub fn current(&self) -> (s: Option<OtaSession>)
        ensures
            s == self.session(),
            s is Some ==> session_wf(s->0),
    {
        proof {
            use_type_invariant(self);
        }
        self.active
    }

    /// Takes a new request, given the length and the content type that it
    /// declares and the size of an image header.
    pub fn begin(
        &mut self,
        content_len: Option<u64>,
        content_type: Option<&str>,
        header_size: usize,
    ) -> (action: OtaAction)
        ensures
            (final(self).session(), action@) == begun(
                old(self).session(),
                content_len,
                content_type_text(content_type),
                header_size as nat,
            ),
    {
        match check_request(content_len, content_type, header_size) {
            Err(refusal) => OtaAction::Reject(refusal),
            Ok(size) => {
                if self.active.is_some() {
                    OtaAction::Reject(
                        reply(503, Severity::Info, "OTA session busy - not proceeding!".to_owned()),
                    )
                } else {
                    self.active = Some(
                        OtaSession {
                            declared: size,
                            received: 0,
                            header_pending: true,
                            chunk: 0,
                            stage: Stage::Opening,
                        },
                    );
                    OtaAction::OpenFlash
                }
            },
        }
    }

    /// Reports how the work that was asked for went, and returns what to do
    /// next. `detail` is what the driver said of a failure. Returns `None`,
    /// and changes nothing, where no session waits for `event`.
    pub fn advance(&mut self, event: OtaEvent, detail: &str) -> (action: Option<OtaAction>)
        ensures
            final(self).session() == advanced(old(self).session(), event, detail@).0,
            match action {
                Some(a) => advanced(old(self).session(), event, detail@).1 == Some(a@),
                None => advanced(old(self).session(), event, detail@).1 is None,
            },
    {
        proof {
            use_type_invariant(&*self);
        }
        let s = match self.active {
            Some(s) => s,
            None => {
                return None;
            },
        };
        match (s.stage, event) {
            (Stage::Opening, OtaEvent::Opened) => {
                self.active = Some(OtaSession { stage: Stage::Reading, ..s });
                Some(OtaAction::ReadChunk)
            },
            (Stage::Opening, OtaEvent::OpenFailed) => {
                self.active = None;
                Some(
                    OtaAction::Finish {
                        completed: false,
                        rollback: false,
                        response: reply(500, Severity::Error, detail.to_owned()),
                    },
                )
            },
            (Stage::Reading, OtaEvent::Chunk(len)) => {
                if len == 0 {
                    self.active = None;
                    Some(
                        OtaAction::Finish {
                            completed: false,
                            rollback: true,
                            response: shortfall_report(s.declared, s.received),
                        },
                    )
                } else {
                    let received = s.received.saturating_add(len as u64);
                    if s.header_pending {
                        self.active = Some(
                            OtaSession { received, chunk: len, stage: Stage::Checking, ..s },
                        );
                        Some(OtaAction::CheckHeader)
                    } else {
                        self.active = Some(
                            OtaSession { received, chunk: len, stage: Stage::Writing, ..s },
                        );
                        Some(OtaAction::WriteChunk)
                    }
                }
            },
            (Stage::Reading, OtaEvent::ReadFailed) => {
                self.active = None;
                Some(
                    OtaAction::Finish {
                        completed: false,
                        rollback: true,
                        response: shortfall_report(s.declared, s.received),
                    },
                )
            },
            (Stage::Checking, OtaEvent::HeaderAccepted) => {
                self.active = Some(
                    OtaSession { header_pending: false, stage: Stage::Writing, ..s },
                );
                Some(OtaAction::WriteChunk)
            },
            (Stage::Checking, OtaEvent::HeaderRejected) => {
                self.active = None;
                Some(
                    OtaAction::Finish {
                        completed: false,
                        rollback: true,
                        response: reply(
                            400,
                            Severity::Error,
                            "Failed to get firmware info from sent bytes".to_owned(),
                        ),
                    },
                )
            },
            (Stage::Writing, OtaEvent::Written) => {
                if s.received >= s.declared {
                    self.active = Some(OtaSession { stage: Stage::Committing, ..s });
                    Some(OtaAction::Commit)
                } else {
                    self.active = Some(OtaSession { stage: Stage::Reading, ..s });
                    Some(OtaAction::ReadChunk)
                }
            },
            (Stage::Writing, OtaEvent::WriteFailed) => {
                self.active = None;
                Some(
                    OtaAction::Finish {
                        completed: false,
                        rollback: true,
                        response: reply(
                            500,
                            Severity::Error,
                            joined("Failed to write to the OTA: ", detail),
                        ),
                    },
                )
            },
            (Stage::Committing, OtaEvent::Committed) => {
                self.active = None;
                Some(
                    OtaAction::Finish {
                        completed: true,
                        rollback: false,
                        response: reply(200, Severity::Info, "OTA update completed!".to_owned()),
                    },
                )
            },
            (Stage::Committing, OtaEvent::CommitFailed) => {
                self.active = None;
                Some(
                    OtaAction::Finish {
                        completed: false,
                        rollback: false,
                        response: reply(500, Severity::Error, detail.to_owned()),
                    },
                )
            },
            _ => None,
        }
    }
}

/// Whether an action has the caller call into the flash driver: to open
/// the update slot, to write, to commit or to roll back.
pub open spec fn touches_flash(step: Step) -> bool {
    match step {
        Step::OpenFlash => true,
        Step::WriteChunk => true,
        Step::Commit => true,
        Step::Finish { rollback, .. } => rollback,
        _ => false,
    }
}

/// A request that is turned down, for whatever reason, leaves the slot as
/// it was and asks nothing of the flash; and as long as no session is
/// active, no event asks for anything either.
pub proof fn refused_request_touches_no_flash(
    active: Option<OtaSession>,
    content_len: Option<u64>,
    content_type: Option<Seq<char>>,
    header_size: nat,
    event: OtaEvent,
    detail: Seq<char>,
)
    requires
        begun(active, content_len, content_type, header_size).1 is Reject,
    ensures
        begun(active, content_len, content_type, header_size).0 == active,
        !touches_flash(begun(active, content_len, content_type, header_size).1),
        advanced(None, event, detail) == (None::<OtaSession>, None::<Step>),
{
}

/// A body that ends while bytes are missing has the flash rolled back
/// once and is answered with status 500 and both byte counts. The session
/// is over with that: whatever is reported later asks for nothing more, so
/// that no second rollback and no commit can follow.
pub proof fn short_stream_rolls_back_once(
    s: OtaSession,
    event: OtaEvent,
    detail: Seq<char>,
    later: OtaEvent,
    said: Seq<char>,
)
    requires
        session_wf(s),
        s.stage == Stage::Reading,
        event == OtaEvent::Chunk(0) || event == OtaEvent::ReadFailed,
    ensures
        advanced(Some(s), event, detail).0 is None,
        advanced(Some(s), event, detail).1 == Some(
            Step::Finish {
                completed: false,
                rollback: true,
                response: shortfall(s.declared, s.received),
            },
        ),
        shortfall(s.declared, s.received).status == 500,
        advanced(advanced(Some(s), event, detail).0, later, said) == (
            None::<OtaSession>,
            None::<Step>,
        ),
{
}

/// A request that declares less than the header size plus 1024 bytes is
/// refused as too small: no session starts, the slot stays as it was, and
/// nothing is asked of the flash.
pub proof fn small_request_is_refused(
    active: Option<OtaSession>,
    content_len: Option<u64>,
    content_type: Option<Seq<char>>,
    header_size: nat,
)
    requires
        declared_size(content_len) < header_size + FIRMWARE_MIN_MARGIN,
    ensures
        begun(active, content_len, content_type, header_size) == (
            active,
            Step::Reject(too_small(declared_size(content_len))),
        ),
{
}

/// While a session is active, every new request is refused and the session
/// keeps its state, the count of received bytes included.
pub proof fn busy_slot_is_untouched(
    active: Option<OtaSession>,
    content_len: Option<u64>,
    content_type: Option<Seq<char>>,
    header_size: nat,
)
    requires
        active is Some,
    ensures
        begun(active, content_len, content_type, header_size).0 == active,
        begun(active, content_len, content_type, header_size).1 is Reject,
        admission(content_len, content_type, header_size) is Ok ==> begun(
            active,
            content_len,
            content_type,
            header_size,
        ).1 == Step::Reject(busy()),
{
}

/// A body that ends while bytes are missing ends the session: the flash is
/// rolled back, the response reports how many bytes came of how many, and
/// the update is not completed.
pub proof fn short_stream_aborts(s: OtaSession, event: OtaEvent, detail: Seq<char>)
    requires
        session_wf(s),
        s.stage == Stage::Reading,
        event == OtaEvent::Chunk(0) || event == OtaEvent::ReadFailed,
    ensures
        s.received < s.declared,
        transition(s, event, detail) == Some(
            Move {
                session: None,
                step: Step::Finish {
                    completed: false,
                    rollback: true,
                    response: shortfall(s.declared, s.received),
                },
            },
        ),
{
}

/// An update is completed only by a successful commit, and only after as
/// many bytes were received as the request declared.
pub proof fn completion_needs_every_byte(s: OtaSession, event: OtaEvent, detail: Seq<char>)
    requires
        session_wf(s),
        transition(s, event, detail) is Some,
        transition(s, event, detail)->0.step matches Step::Finish { completed, .. } && completed,
    ensures
        event == OtaEvent::Committed,
        s.stage == Stage::Committing,
        s.received >= s.declared,
{
}

/// A session that goes on stays well-formed: it keeps its declared length,
/// never counts backwards, writes only once the header was found, and
/// commits only when every byte has come.
pub proof fn transition_keeps_session(s: OtaSession, event: OtaEvent, detail: Seq<char>)
    requires
        session_wf(s),
        transition(s, event, detail) is Some,
        transition(s, event, detail)->0.session is Some,
    ensures
        ({
            let next = transition(s, event, detail)->0.session->0;
            let step = transition(s, event, detail)->0.step;
            &&& session_wf(next)
            &&& next.declared == s.declared
            &&& next.received >= s.received
            &&& step is WriteChunk ==> !next.header_pending
            &&& step is Commit ==> next.received >= next.declared
            &&& !(step is Finish)
            &&& !(step is Reject)
        }),
{
}

} // verus!
