//! The per-connection protocol: read one request, answer it from a file or
//! from the application, write the response and close the connection.
//!
//! The protocol is a state machine. Whoever owns the connection performs each
//! action that `Connection::step` asks for and hands back what came of it as
//! the next event.

use vstd::prelude::*;
use vstd::string::*;
use vstd::utf8::*;
use crate::request::{Request, RequestKind, request_spec};
use crate::response::{
    NOT_FOUND_PAGE,
    SERVER_ERROR_PAGE,
    Response,
    ResponseModel,
    ResponseType,
    date_view,
    file_response,
    text_response,
};
use crate::routing::Router;

verus! {

/// The error an application reports for a request it could not handle.
pub struct InternalServerError(pub String);

/// An application that answers the requests that no static file serves.
/// It is shared read-only by all workers.
pub trait ServerApplication {
    /// The application named by `app_string`, if one is named and can be
    /// found.
    fn create(app_string: Option<&String>, port: &str) -> Option<Self> where Self: Sized;

    /// The full response text for one request.
    fn handle_one_request(&self, request: Request) -> Result<String, InternalServerError>;
}

/// Why a connection ended without a response.
#[derive(Clone, Copy, Debug, PartialEq, Eq, Structural)]
pub enum ServerError {
    /// The read failed or found the connection closed by the client, or
    /// closing the read side failed.
    ClientClosedConnection,
}

/// How the connection is carried. Closing the read side of a TLS stream does
/// nothing, so a TLS connection skips that step.
#[derive(Clone, Copy, Debug, PartialEq, Eq, Structural)]
pub enum Transport {
    Plain,
    Tls,
}

/// What a connection is waiting for.
pub enum Stage {
    /// The one bounded read of the request.
    Reading,
    /// The request is parsed; the read side is being closed.
    Parsed(Request),
    /// The contents of a static file.
    LoadingFile,
    /// The application's reply.
    CallingApplication,
    /// The write of the response.
    Writing,
    /// The write side is being closed.
    Closing,
    /// Nothing: the job has ended.
    Finished,
}

/// The four states of a connection.
#[derive(Clone, Copy, Debug, PartialEq, Eq, Structural)]
pub enum Phase {
    Reading,
    Parsed,
    Responding,
    Closed,
}

/// What the owner of the connection is asked to do next.
pub enum Action {
    /// Read once into the bounded buffer.
    Read,
    /// Close the read side.
    CloseRead,
    /// Read the file at this path fully.
    LoadFile(String),
    /// Hand the request to the application.
    CallApplication(Request),
    /// Write these bytes.
    Write(Vec<u8>),
    /// Close the write side.
    CloseWrite,
    /// Stop: the job ends with this outcome.
    Finish(Result<(), ServerError>),
}

/// What came of the last action.
pub enum Event {
    /// The bytes that the read returned (none when the client had closed),
    /// or None when the read failed.
    Read(Option<Vec<u8>>),
    /// Whether closing the read side succeeded.
    ReadClosed(bool),
    /// The contents of the file, or None when it could not be read.
    FileLoaded(Option<Vec<u8>>),
    /// The application's reply.
    ApplicationReplied(Result<String, InternalServerError>),
    /// Whether the write succeeded.
    Written(bool),
    /// Whether closing the write side succeeded.
    WriteClosed(bool),
}

/// One connection's progress through the protocol.
pub struct Connection {
    pub transport: Transport,
    pub stage: Stage,
}

impl Stage {
    /// The state of the protocol that this stage belongs to.
    pub open spec fn phase(self) -> Phase {
        match self {
            Stage::Reading => Phase::Reading,
            Stage::Parsed(_) => Phase::Parsed,
            Stage::LoadingFile | Stage::CallingApplication | Stage::Writing => Phase::Responding,
            Stage::Closing | Stage::Finished => Phase::Closed,
        }
    }
}

/// The event answers the action that the stage waits for.
pub open spec fn answers(stage: Stage, event: Event) -> bool {
    match stage {
        Stage::Reading => event is Read,
        Stage::Parsed(_) => event is ReadClosed,
        Stage::LoadingFile => event is FileLoaded,
        Stage::CallingApplication => event is ApplicationReplied,
        Stage::Writing => event is Written,
        Stage::Closing => event is WriteClosed,
        Stage::Finished => false,
    }
}

/// The bytes of the built-in 500 response sent at `date`.
pub open spec fn server_error_bytes_at(date: Option<Seq<char>>) -> Seq<u8> {
    text_response(ResponseType::ServerError, SERVER_ERROR_PAGE@, date).serialized_bytes()
}

/// The request that the bytes read decode to, if any.
pub open spec fn decoded_request(bytes: Seq<u8>) -> Option<(RequestKind, Seq<char>, Seq<char>)> {
    if valid_utf8(bytes) {
        request_spec(decode_utf8(bytes))
    } else {
        None
    }
}

/// `r` holds the method, path and host `decoded`, and the whole request
/// text `text`.
pub open spec fn request_is(
    r: Request,
    decoded: (RequestKind, Seq<char>, Seq<char>),
    text: Seq<char>,
) -> bool {
    &&& r.kind == decoded.0
    &&& r.path@ == decoded.1
    &&& r.host@ == decoded.2
    &&& r.data@ == text
}

/// How a parsed request is answered, once reading is over: from the file
/// its path is routed to, else by the application if there is one, else
/// with a 404 response.
pub open spec fn responds(
    request: Request,
    routes: Map<Seq<char>, Seq<char>>,
    has_application: bool,
    date: Option<Seq<char>>,
    after: Stage,
    action: Action,
) -> bool {
    if routes.contains_key(request.path@) {
        &&& after is LoadingFile
        &&& action matches Action::LoadFile(p) && p@ == routes[request.path@]
    } else if has_application {
        &&& after is CallingApplication
        &&& action == Action::CallApplication(request)
    } else {
        &&& after is Writing
        &&& action matches Action::Write(b) && b@ == text_response(
            ResponseType::NotFound,
            NOT_FOUND_PAGE@,
            date,
        ).serialized_bytes()
    }
}

/// One step of the protocol: the stage after the event and the next action.
pub open spec fn step_spec(
    transport: Transport,
    before: Stage,
    event: Event,
    routes: Map<Seq<char>, Seq<char>>,
    has_application: bool,
    date: Option<Seq<char>>,
    after: Stage,
    action: Action,
) -> bool {
    match (before, event) {
        (Stage::Reading, Event::Read(read)) => match read {
            Some(bytes) if bytes@.len() > 0 => match decoded_request(bytes@) {
                Some(decoded) => match transport {
                    Transport::Plain => after matches Stage::Parsed(r) && action is CloseRead
                        && request_is(r, decoded, decode_utf8(bytes@)),
                    Transport::Tls => exists|r: Request|
                        request_is(r, decoded, decode_utf8(bytes@)) && #[trigger] responds(
                            r,
                            routes,
                            has_application,
                            date,
                            after,
                            action,
                        ),
                },
                None => {
                    &&& after is Writing
                    &&& action matches Action::Write(b) && b@ == server_error_bytes_at(date)
                },
            },
            _ => after is Finished && action == Action::Finish(
                Err(ServerError::ClientClosedConnection),
            ),
        },
        (Stage::Parsed(request), Event::ReadClosed(ok)) => if ok {
            responds(request, routes, has_application, date, after, action)
        } else {
            after is Finished && action == Action::Finish(Err(ServerError::ClientClosedConnection))
        },
        (Stage::LoadingFile, Event::FileLoaded(loaded)) => {
            &&& after is Writing
            &&& match loaded {
                Some(data) => action matches Action::Write(b) && b@ == file_response(
                    data@,
                    date,
                ).serialized_bytes(),
                None => action matches Action::Write(b) && b@ == server_error_bytes_at(date),
            }
        },
        (Stage::CallingApplication, Event::ApplicationReplied(reply)) => {
            &&& after is Writing
            &&& match reply {
                Ok(text) => action matches Action::Write(b) && b@ == encode_utf8(text@),
                Err(_) => action matches Action::Write(b) && b@ == server_error_bytes_at(date),
            }
        },
        (Stage::Writing, Event::Written(_)) => after is Closing && action is CloseWrite,
        (Stage::Closing, Event::WriteClosed(_)) => after is Finished && action == Action::Finish(
            Ok(()),
        ),
        _ => false,
    }
}

/// The number of steps at most that a connection in this stage takes
/// before its job ends.
pub open spec fn steps_left(stage: Stage) -> nat {
    match stage {
        Stage::Reading => 6,
        Stage::Parsed(_) => 5,
        Stage::LoadingFile | Stage::CallingApplication => 3,
        Stage::Writing => 2,
        Stage::Closing => 1,
        Stage::Finished => 0,
    }
}

/// The place of a phase in the order reading, parsed, responding, closed.
pub open spec fn phase_order(phase: Phase) -> nat {
    match phase {
        Phase::Reading => 0,
        Phase::Parsed => 1,
        Phase::Responding => 2,
        Phase::Closed => 3,
    }
}

/// Every step moves a connection forward: its phases follow one another in
/// the order reading, parsed, responding, closed, and its job ends, asking
/// for no further action, after at most six steps.
pub proof fn lemma_step_moves_forward(
    transport: Transport,
    before: Stage,
    event: Event,
    routes: Map<Seq<char>, Seq<char>>,
    has_application: bool,
    date: Option<Seq<char>>,
    after: Stage,
    action: Action,
)
    requires
        step_spec(transport, before, event, routes, has_application, date, after, action),
    ensures
        steps_left(after) < steps_left(before),
        phase_order(before.phase()) <= phase_order(after.phase()),
        action is Finish <==> after is Finished,
{
}

/// Relies on `String::from_utf8`: the text that the bytes encode, when they
/// are valid UTF-8.
#[verifier::external_body]
fn text_from_utf8(bytes: Vec<u8>) -> (r: Option<String>)
    ensures
        match r {
            Some(s) => valid_utf8(bytes@) && s@ == decode_utf8(bytes@),
            None => !valid_utf8(bytes@),
        },
{
    String::from_utf8(bytes).ok()
}

/// The bytes of the built-in 500 response sent at `date`.
fn server_error_bytes(date: Option<&str>) -> (b: Vec<u8>)
    ensures
        b@ == server_error_bytes_at(date_view(date)),
{
    Response::server_error_at(date).to_bytes()
}

/// How a parsed request is answered, once reading is over.
fn respond(request: Request, router: &Router, has_application: bool, date: Option<&str>) -> (r: (
    Stage,
    Action,
))
    ensures
        responds(request, router@, has_application, date_view(date), r.0, r.1),
{
    if router.is_static_content(request.path.as_str()) {
        let path = String::from_str(router.get(request.path.as_str()));
        (Stage::LoadingFile, Action::LoadFile(path))
    } else if has_application {
        (Stage::CallingApplication, Action::CallApplication(request))
    } else {
        let r = Response::not_found_at(date);
        let b = r.to_bytes();
        (Stage::Writing, Action::Write(b))
    }
}

impl Connection {
    /// A new connection, and its first action: the read.
    pub fn start(transport: Transport) -> (r: (Connection, Action))
        ensures
            r.0.transport == transport,
            r.0.stage is Reading,
            r.1 is Read,
    {
        (Connection { transport, stage: Stage::Reading }, Action::Read)
    }

    /// The state of the protocol the connection is in.
    pub fn phase(&self) -> (r: Phase)
        ensures
            r == self.stage.phase(),
    {
        match self.stage {
            Stage::Reading => Phase::Reading,
            Stage::Parsed(_) => Phase::Parsed,
            Stage::LoadingFile | Stage::CallingApplication | Stage::Writing => Phase::Responding,
            Stage::Closing | Stage::Finished => Phase::Closed,
        }
    }

    /// Whether the event answers the action the connection waits for.
    pub fn accepts(&self, event: &Event) -> (r: bool)
        ensures
            r == answers(self.stage, *event),
    {
        match (&self.stage, event) {
            (Stage::Reading, Event::Read(_)) => true,
            (Stage::Parsed(_), Event::ReadClosed(_)) => true,
            (Stage::LoadingFile, Event::FileLoaded(_)) => true,
            (Stage::CallingApplication, Event::ApplicationReplied(_)) => true,
            (Stage::Writing, Event::Written(_)) => true,
            (Stage::Closing, Event::WriteClosed(_)) => true,
            _ => false,
        }
    }

    /// Takes the outcome of the last action and returns the connection's
    /// next stage and action; a response built in this step is dated
    /// `date`, the time its owner read from the clock. A failed write or
    /// write-side close ends the job as usual: the failure is only the
    /// owner's to report.
    pub fn step(self, event: Event, router: &Router, has_application: bool, date: Option<&str>) -> (r: (
        Connection,
        Action,
    ))
        requires
            answers(self.stage, event),
        ensures
            r.0.transport == self.transport,
            step_spec(
                self.transport,
                self.stage,
                event,
                router@,
                has_application,
                date_view(date),
                r.0.stage,
                r.1,
            ),
    {
        let transport = self.transport;
        let (stage, action) = match (self.stage, event) {
            (Stage::Reading, Event::Read(read)) => match read {
                Some(bytes) => {
                    if bytes.len() == 0 {
                        (Stage::Finished, Action::Finish(Err(ServerError::ClientClosedConnection)))
                    } else {
                        let parsed = match text_from_utf8(bytes) {
                            Some(text) => Request::from(text),
                            None => None,
                        };
                        match parsed {
                            Some(request) => {
                                match transport {
                                    Transport::Plain => (Stage::Parsed(request), Action::CloseRead),
                                    Transport::Tls => respond(request, router, has_application, date),
                                }
                            },
                            None => (Stage::Writing, Action::Write(server_error_bytes(date))),
                        }
                    }
                },
                None => (Stage::Finished, Action::Finish(Err(ServerError::ClientClosedConnection))),
            },
            (Stage::Parsed(request), Event::ReadClosed(ok)) => {
                if ok {
                    respond(request, router, has_application, date)
                } else {
                    (Stage::Finished, Action::Finish(Err(ServerError::ClientClosedConnection)))
                }
            },
            (Stage::LoadingFile, Event::FileLoaded(loaded)) => match loaded {
                Some(data) => {
                    let r = Response::http_ok_file_at(data, date);
                    let b = r.to_bytes();
                    (Stage::Writing, Action::Write(b))
                },
                None => (Stage::Writing, Action::Write(server_error_bytes(date))),
            },
            (Stage::CallingApplication, Event::ApplicationReplied(reply)) => match reply {
                Ok(text) => (Stage::Writing, Action::Write(text.as_str().as_bytes_vec())),
                Err(_) => (Stage::Writing, Action::Write(server_error_bytes(date))),
            },
            (Stage::Writing, Event::Written(_)) => (Stage::Closing, Action::CloseWrite),
            (Stage::Closing, Event::WriteClosed(_)) => (Stage::Finished, Action::Finish(Ok(()))),
            // Ruled out by the precondition.
            _ => (Stage::Finished, Action::Finish(Ok(()))),
        };
        (Connection { transport, stage }, action)
    }
}

} // verus!
