//! One request over HTTP/3: its head, its way to the server, and its bodies.
use vstd::prelude::*;

use crate::route::{host_in, host_of, UriParts};
use crate::text::{first_index, join, join_with, lines, lines_of, split_once, trim, trimmed, views};

verus! {

/// What is asked for on the command line.
#[derive(Debug)]
pub struct RequestOptions {
    pub uri: UriParts,
    /// A body that is written out.
    pub data: Option<String>,
    /// A file that is the body.
    pub upload_file: Option<String>,
    /// A file that the answer is written to.
    pub output: Option<String>,
    pub request: Option<String>,
    pub header: Vec<(String, String)>,
    pub connect_timeout: Option<u64>,
    pub verbose: bool,
}

/// The name and the value that a header holds; only the first colon parts them.
pub open spec fn header_parts(s: Seq<char>) -> Option<(Seq<char>, Seq<char>)> {
    if first_index(s, ':') < s.len() {
        Some((trimmed(s.take(first_index(s, ':'))), trimmed(s.skip(first_index(s, ':') + 1))))
    } else {
        None
    }
}

/// Reads a header from the command line.
pub fn parse_header(s: &str) -> (r: Result<(String, String), String>)
    ensures
        match r {
            Ok(header) => header_parts(s@) == Some((header.0@, header.1@)),
            Err(message) => header_parts(s@) is None && message@ == "missing header value"@,
        },
{
    match split_once(s, ':') {
        Some((key, value)) => Ok((trim(key).to_owned(), trim(value).to_owned())),
        None => Err("missing header value".to_owned()),
    }
}

/// The method of a request: the one that was asked for, else the one that fits the body.
pub open spec fn method_name(options: RequestOptions) -> Seq<char> {
    match options.request {
        Some(method) => method@,
        None => if options.data is Some {
            "POST"@
        } else if options.upload_file is Some {
            "PUT"@
        } else {
            "GET"@
        },
    }
}

/// The method of a request.
pub fn request_method(options: &RequestOptions) -> (r: String)
    ensures
        r@ == method_name(*options),
{
    match &options.request {
        Some(method) => method.clone(),
        None => if options.data.is_some() {
            "POST".to_owned()
        } else if options.upload_file.is_some() {
            "PUT".to_owned()
        } else {
            "GET".to_owned()
        },
    }
}

/// The limits that a client announces.
#[derive(Debug, Clone, Copy, PartialEq, Eq, Structural)]
pub struct ClientParameters {
    pub initial_max_streams_bidi: u32,
    pub initial_max_streams_uni: u32,
    pub initial_max_data: u32,
    pub initial_max_stream_data_uni: u32,
    pub initial_max_stream_data_bidi_local: u32,
    pub initial_max_stream_data_bidi_remote: u32,
    pub max_idle_timeout_seconds: u64,
}

/// A hundred streams of each kind and a mebibyte of data; without a timeout connections do not
/// become idle.
pub fn client_parameters(connect_timeout: Option<u64>) -> (r: ClientParameters)
    ensures
        r == (ClientParameters {
            initial_max_streams_bidi: 100,
            initial_max_streams_uni: 100,
            initial_max_data: 1_048_576,
            initial_max_stream_data_uni: 1_048_576,
            initial_max_stream_data_bidi_local: 1_048_576,
            initial_max_stream_data_bidi_remote: 1_048_576,
            max_idle_timeout_seconds: match connect_timeout {
                Some(seconds) => seconds,
                None => 0,
            },
        }),
{
    ClientParameters {
        initial_max_streams_bidi: 100,
        initial_max_streams_uni: 100,
        initial_max_data: 1_048_576,
        initial_max_stream_data_uni: 1_048_576,
        initial_max_stream_data_bidi_local: 1_048_576,
        initial_max_stream_data_bidi_remote: 1_048_576,
        max_idle_timeout_seconds: match connect_timeout {
            Some(seconds) => seconds,
            None => 0,
        },
    }
}

/// Why a request failed. The details are the words of the failure underneath.
#[derive(Debug, PartialEq, Eq)]
pub enum RequestError {
    MissingHost,
    Resolve { name: String, detail: String },
    Bind { detail: String },
    DnsNotFound,
    ConnectTimeout,
    Connect { detail: String },
    BuildRequest { detail: String },
    SendRequest { detail: String },
    SendBody { detail: String },
    OpenUpload { detail: String },
    ReadUpload { detail: String },
    Finish { detail: String },
    ReceiveResponse { detail: String },
    CreateOutput { detail: String },
    ReceiveBody { detail: String },
    Write { detail: String },
}

impl RequestError {
    pub open spec fn words(self) -> Seq<char> {
        match self {
            RequestError::MissingHost => "missing host in uri"@,
            RequestError::Resolve { name, detail } => "failed to resolve host "@ + name@ + ": "@
                + detail@,
            RequestError::Bind { detail } => detail@,
            RequestError::DnsNotFound => "Dns not found"@,
            RequestError::ConnectTimeout => "connect timeout"@,
            RequestError::Connect { detail } => detail@,
            RequestError::BuildRequest { detail } => "failed to build request: "@ + detail@,
            RequestError::SendRequest { detail } => "failed to send request: "@ + detail@,
            RequestError::SendBody { detail } => "failed to send request body: "@ + detail@,
            RequestError::OpenUpload { detail } => "failed to open file for upload: "@ + detail@,
            RequestError::ReadUpload { detail } => "failed to read file to upload: "@ + detail@,
            RequestError::Finish { detail } => detail@,
            RequestError::ReceiveResponse { detail } => "failed to receive response: "@ + detail@,
            RequestError::CreateOutput { detail } => "failed to create output file: "@ + detail@,
            RequestError::ReceiveBody { detail } => detail@,
            RequestError::Write { detail } => detail@,
        }
    }

    pub fn to_text(&self) -> (r: String)
        ensures
            r@ == self.words(),
    {
        match self {
            RequestError::MissingHost => "missing host in uri".to_owned(),
            RequestError::Resolve { name, detail } => {
                let mut r = "failed to resolve host ".to_owned();
                r.append(name);
                r.append(": ");
                r.append(detail);
                r
            },
            RequestError::Bind { detail } => detail.clone(),
            RequestError::DnsNotFound => "Dns not found".to_owned(),
            RequestError::ConnectTimeout => "connect timeout".to_owned(),
            RequestError::Connect { detail } => detail.clone(),
            RequestError::BuildRequest { detail } => told("failed to build request: ", detail),
            RequestError::SendRequest { detail } => told("failed to send request: ", detail),
            RequestError::SendBody { detail } => told("failed to send request body: ", detail),
            RequestError::OpenUpload { detail } => told("failed to open file for upload: ", detail),
            RequestError::ReadUpload { detail } => told("failed to read file to upload: ", detail),
            RequestError::Finish { detail } => detail.clone(),
            RequestError::ReceiveResponse { detail } => told("failed to receive response: ", detail),
            RequestError::CreateOutput { detail } => told("failed to create output file: ", detail),
            RequestError::ReceiveBody { detail } => detail.clone(),
            RequestError::Write { detail } => detail.clone(),
        }
    }
}

fn told(what: &str, detail: &String) -> (r: String)
    ensures
        r@ == what@ + detail@,
{
    let mut r = what.to_owned();
    r.append(detail);
    r
}

/// How far the way to the server has come.
#[derive(Debug, PartialEq, Eq)]
pub enum RequestStage {
    Resolving,
    Binding { addrs: Vec<String> },
    /// The address with this index is being tried.
    Connecting { addrs: Vec<String>, current: usize },
    Building,
    Sending,
    Transferring,
    Over,
}

/// What came of the last step.
#[derive(Debug, PartialEq, Eq)]
pub enum RequestEvent {
    Resolved { addrs: Vec<String> },
    Done,
    TimedOut,
    Failed { detail: String },
}

/// What is done next.
#[derive(Debug, PartialEq, Eq)]
pub enum RequestAction {
    Resolve,
    Bind,
    /// Connects within the given seconds.
    Attempt { addr: String, seconds: u64 },
    Build,
    Send,
    /// Sends the body and receives the answer at the same time.
    Transfer,
    Fail { error: RequestError },
}

/// One request on its way.
#[derive(Debug)]
pub struct RequestRun {
    /// The host that is asked.
    pub name: String,
    /// The time that a connection may take, in seconds.
    pub connect_timeout: Option<u64>,
    pub stage: RequestStage,
}

impl RequestRun {
    pub open spec fn wf(self) -> bool {
        self.stage matches RequestStage::Connecting { addrs, current } ==> current < addrs@.len()
    }

    /// The events that can follow.
    pub open spec fn awaits(self, event: RequestEvent) -> bool {
        match event {
            RequestEvent::Resolved { .. } => self.stage is Resolving,
            RequestEvent::Done => !(self.stage is Resolving) && !(self.stage is Transferring) && !(
            self.stage is Over),
            RequestEvent::TimedOut => self.stage is Connecting,
            RequestEvent::Failed { .. } => !(self.stage is Transferring) && !(self.stage is Over),
        }
    }

    /// How long one attempt to connect may take, in seconds.
    pub open spec fn patience(self) -> u64 {
        match self.connect_timeout {
            Some(seconds) => seconds,
            None => 3,
        }
    }

    pub open spec fn to(self, stage: RequestStage) -> RequestRun {
        RequestRun { stage, ..self }
    }

    pub open spec fn failing(self, error: RequestError) -> (RequestRun, RequestAction) {
        (self.to(RequestStage::Over), RequestAction::Fail { error })
    }

    /// What follows an attempt that came to nothing: the next address, or the end.
    pub open spec fn after_attempt(
        self,
        addrs: Vec<String>,
        current: usize,
        error: RequestError,
    ) -> (RequestRun, RequestAction) {
        if current + 1 < addrs@.len() {
            (
                self.to(RequestStage::Connecting { addrs, current: (current + 1) as usize }),
                RequestAction::Attempt { addr: addrs@[current + 1], seconds: self.patience() },
            )
        } else {
            self.failing(error)
        }
    }

    pub open spec fn after(self, event: RequestEvent) -> (RequestRun, RequestAction) {
        match (self.stage, event) {
            (RequestStage::Resolving, RequestEvent::Resolved { addrs }) => (
                self.to(RequestStage::Binding { addrs }),
                RequestAction::Bind,
            ),
            (RequestStage::Resolving, RequestEvent::Failed { detail }) => self.failing(
                RequestError::Resolve { name: self.name, detail },
            ),
            (RequestStage::Binding { addrs }, RequestEvent::Done) => if addrs@.len() == 0 {
                self.failing(RequestError::DnsNotFound)
            } else {
                (
                    self.to(RequestStage::Connecting { addrs, current: 0 }),
                    RequestAction::Attempt { addr: addrs@[0], seconds: self.patience() },
                )
            },
            (RequestStage::Binding { .. }, RequestEvent::Failed { detail }) => self.failing(
                RequestError::Bind { detail },
            ),
            (RequestStage::Connecting { .. }, RequestEvent::Done) => (
                self.to(RequestStage::Building),
                RequestAction::Build,
            ),
            (
                RequestStage::Connecting { addrs, current },
                RequestEvent::TimedOut,
            ) => self.after_attempt(addrs, current, RequestError::ConnectTimeout),
            (
                RequestStage::Connecting { addrs, current },
                RequestEvent::Failed { detail },
            ) => self.after_attempt(addrs, current, RequestError::Connect { detail }),
            (RequestStage::Building, RequestEvent::Done) => (
                self.to(RequestStage::Sending),
                RequestAction::Send,
            ),
            (RequestStage::Building, RequestEvent::Failed { detail }) => self.failing(
                RequestError::BuildRequest { detail },
            ),
            (RequestStage::Sending, RequestEvent::Done) => (
                self.to(RequestStage::Transferring),
                RequestAction::Transfer,
            ),
            (_, RequestEvent::Failed { detail }) => self.failing(
                RequestError::SendRequest { detail },
            ),
            (_, _) => (self, RequestAction::Transfer),
        }
    }

    /// Starts a request: its URI has to name a host.
    pub fn start(options: &RequestOptions) -> (r: Result<(RequestRun, RequestAction), RequestError>)
        ensures
            match options.uri.authority {
                None => r == Err::<(RequestRun, RequestAction), RequestError>(
                    RequestError::MissingHost,
                ),
                Some(authority) => r matches Ok(started) && started.0.wf() && started.0.name@
                    == host_in(authority@) && started.0.connect_timeout
                    == options.connect_timeout && started.0.stage == RequestStage::Resolving
                    && started.1 == RequestAction::Resolve,
            },
    {
        match &options.uri.authority {
            None => Err(RequestError::MissingHost),
            Some(authority) => Ok(
                (
                    RequestRun {
                        name: host_of(authority),
                        connect_timeout: options.connect_timeout,
                        stage: RequestStage::Resolving,
                    },
                    RequestAction::Resolve,
                ),
            ),
        }
    }

    fn fail(self, error: RequestError) -> (r: (RequestRun, RequestAction))
        ensures
            r == self.failing(error),
    {
        (
            RequestRun { stage: RequestStage::Over, ..self },
            RequestAction::Fail { error },
        )
    }

    fn attempt_seconds(&self) -> (r: u64)
        ensures
            r == self.patience(),
    {
        match self.connect_timeout {
            Some(seconds) => seconds,
            None => 3,
        }
    }

    fn next_attempt(self, addrs: Vec<String>, current: usize, error: RequestError) -> (r: (
        RequestRun,
        RequestAction,
    ))
        requires
            current < addrs@.len(),
        ensures
            r == self.after_attempt(addrs, current, error),
    {
        if current < addrs.len() - 1 {
            let addr = addrs[current + 1].clone();
            let seconds: u64 = self.attempt_seconds();
            (
                RequestRun {
                    stage: RequestStage::Connecting { addrs, current: current + 1 },
                    ..self
                },
                RequestAction::Attempt { addr, seconds },
            )
        } else {
            self.fail(error)
        }
    }

    /// Goes on after an event.
    pub fn step(self, event: RequestEvent) -> (r: (RequestRun, RequestAction))
        requires
            self.wf(),
            self.awaits(event),
        ensures
            r == self.after(event),
    {
        let run = RequestRun {
            name: self.name,
            connect_timeout: self.connect_timeout,
            stage: RequestStage::Over,
        };
        match (self.stage, event) {
            (RequestStage::Resolving, RequestEvent::Resolved { addrs }) => (
                RequestRun { stage: RequestStage::Binding { addrs }, ..run },
                RequestAction::Bind,
            ),
            (RequestStage::Resolving, RequestEvent::Failed { detail }) => {
                let name = run.name.clone();
                run.fail(
                    RequestError::Resolve { name, detail },
                )
            },
            (RequestStage::Binding { addrs }, RequestEvent::Done) => if addrs.len() == 0 {
                run.fail(RequestError::DnsNotFound)
            } else {
                let addr = addrs[0].clone();
                let seconds: u64 = run.attempt_seconds();
                (
                    RequestRun { stage: RequestStage::Connecting { addrs, current: 0 }, ..run },
                    RequestAction::Attempt { addr, seconds },
                )
            },
            (RequestStage::Binding { .. }, RequestEvent::Failed { detail }) => run.fail(RequestError::Bind { detail }),
            (RequestStage::Connecting { .. }, RequestEvent::Done) => (
                RequestRun { stage: RequestStage::Building, ..run },
                RequestAction::Build,
            ),
            (
                RequestStage::Connecting { addrs, current },
                RequestEvent::TimedOut,
            ) => run.next_attempt(addrs, current, RequestError::ConnectTimeout),
            (
                RequestStage::Connecting { addrs, current },
                RequestEvent::Failed { detail },
            ) => run.next_attempt(addrs, current, RequestError::Connect { detail }),
            (RequestStage::Building, RequestEvent::Done) => (
                RequestRun { stage: RequestStage::Sending, ..run },
                RequestAction::Send,
            ),
            (RequestStage::Building, RequestEvent::Failed { detail }) => run.fail(RequestError::BuildRequest { detail }),
            (RequestStage::Sending, RequestEvent::Done) => (
                RequestRun { stage: RequestStage::Transferring, ..run },
                RequestAction::Transfer,
            ),
            (stage, RequestEvent::Failed { detail }) => RequestRun { stage, ..run }.fail(
                RequestError::SendRequest { detail },
            ),
            (stage, _) => (RequestRun { stage, ..run }, RequestAction::Transfer),
        }
    }
}

/// How far the body of a request is sent.
#[derive(Debug, Clone, Copy, PartialEq, Eq, Structural)]
pub enum SendStage {
    SendingData,
    Opening,
    Reading,
    SendingChunk,
    Finishing,
    Over,
}

/// What came of the last step.
#[derive(Debug, PartialEq, Eq)]
pub enum SendEvent {
    Done,
    /// A chunk was read; an empty one ends the file.
    Read { empty: bool },
    Failed { detail: String },
}

/// What is done next.
#[derive(Debug, PartialEq, Eq)]
pub enum SendAction {
    SendData,
    OpenFile,
    /// Reads at most this many bytes.
    ReadChunk { limit: usize },
    SendChunk,
    Finish,
    Complete,
    Fail { error: RequestError },
}

impl SendStage {
    pub open spec fn awaits(self, event: SendEvent) -> bool {
        match event {
            SendEvent::Done => !(self is Reading) && !(self is Over),
            SendEvent::Read { .. } => self is Reading,
            SendEvent::Failed { .. } => !(self is Over),
        }
    }

    pub open spec fn after(self, has_file: bool, event: SendEvent) -> (SendStage, SendAction) {
        match (self, event) {
            (SendStage::SendingData, SendEvent::Done) => if has_file {
                (SendStage::Opening, SendAction::OpenFile)
            } else {
                (SendStage::Finishing, SendAction::Finish)
            },
            (SendStage::Opening, SendEvent::Done) | (SendStage::SendingChunk, SendEvent::Done) => (
                SendStage::Reading,
                SendAction::ReadChunk { limit: 1_048_576 },
            ),
            (SendStage::Reading, SendEvent::Read { empty }) => if empty {
                (SendStage::Finishing, SendAction::Finish)
            } else {
                (SendStage::SendingChunk, SendAction::SendChunk)
            },
            (SendStage::Opening, SendEvent::Failed { detail }) => (
                SendStage::Over,
                SendAction::Fail { error: RequestError::OpenUpload { detail } },
            ),
            (SendStage::Reading, SendEvent::Failed { detail }) => (
                SendStage::Over,
                SendAction::Fail { error: RequestError::ReadUpload { detail } },
            ),
            (SendStage::Finishing, SendEvent::Failed { detail }) => (
                SendStage::Over,
                SendAction::Fail { error: RequestError::Finish { detail } },
            ),
            (_, SendEvent::Failed { detail }) => (
                SendStage::Over,
                SendAction::Fail { error: RequestError::SendBody { detail } },
            ),
            (_, _) => (SendStage::Over, SendAction::Complete),
        }
    }

    /// Starts to send the body: the data comes before the file, and the end of the body behind
    /// both.
    pub fn start(options: &RequestOptions) -> (r: (SendStage, SendAction))
        ensures
            r == (if options.data is Some {
                (SendStage::SendingData, SendAction::SendData)
            } else if options.upload_file is Some {
                (SendStage::Opening, SendAction::OpenFile)
            } else {
                (SendStage::Finishing, SendAction::Finish)
            }),
    {
        if options.data.is_some() {
            (SendStage::SendingData, SendAction::SendData)
        } else if options.upload_file.is_some() {
            (SendStage::Opening, SendAction::OpenFile)
        } else {
            (SendStage::Finishing, SendAction::Finish)
        }
    }

    /// Goes on after an event.
    pub fn step(self, has_file: bool, event: SendEvent) -> (r: (SendStage, SendAction))
        requires
            self.awaits(event),
        ensures
            r == self.after(has_file, event),
    {
        match (self, event) {
            (SendStage::SendingData, SendEvent::Done) => if has_file {
                (SendStage::Opening, SendAction::OpenFile)
            } else {
                (SendStage::Finishing, SendAction::Finish)
            },
            (SendStage::Opening, SendEvent::Done) | (SendStage::SendingChunk, SendEvent::Done) => (
                SendStage::Reading,
                SendAction::ReadChunk { limit: 1_048_576 },
            ),
            (SendStage::Reading, SendEvent::Read { empty }) => if empty {
                (SendStage::Finishing, SendAction::Finish)
            } else {
                (SendStage::SendingChunk, SendAction::SendChunk)
            },
            (SendStage::Opening, SendEvent::Failed { detail }) => (
                SendStage::Over,
                SendAction::Fail { error: RequestError::OpenUpload { detail } },
            ),
            (SendStage::Reading, SendEvent::Failed { detail }) => (
                SendStage::Over,
                SendAction::Fail { error: RequestError::ReadUpload { detail } },
            ),
            (SendStage::Finishing, SendEvent::Failed { detail }) => (
                SendStage::Over,
                SendAction::Fail { error: RequestError::Finish { detail } },
            ),
            (_, SendEvent::Failed { detail }) => (
                SendStage::Over,
                SendAction::Fail { error: RequestError::SendBody { detail } },
            ),
            (_, _) => (SendStage::Over, SendAction::Complete),
        }
    }
}

/// How far the answer is received.
#[derive(Debug, Clone, Copy, PartialEq, Eq, Structural)]
pub enum ReceiveStage {
    Waiting,
    Creating,
    Receiving,
    Writing,
    Flushing,
    Over,
}

/// What came of the last step.
#[derive(Debug, PartialEq, Eq)]
pub enum ReceiveEvent {
    Done,
    /// Data came, or the body ended.
    Data { ended: bool },
    Failed { detail: String },
}

/// What is done next.
#[derive(Debug, PartialEq, Eq)]
pub enum ReceiveAction {
    ReceiveResponse,
    CreateOutput,
    ReceiveData,
    Write,
    Flush,
    Complete,
    Fail { error: RequestError },
}

impl ReceiveStage {
    pub open spec fn awaits(self, event: ReceiveEvent) -> bool {
        match event {
            ReceiveEvent::Done => !(self is Receiving) && !(self is Over),
            ReceiveEvent::Data { .. } => self is Receiving,
            ReceiveEvent::Failed { .. } => !(self is Over),
        }
    }

    pub open spec fn after(self, to_file: bool, event: ReceiveEvent) -> (
        ReceiveStage,
        ReceiveAction,
    ) {
        match (self, event) {
            (ReceiveStage::Waiting, ReceiveEvent::Done) => if to_file {
                (ReceiveStage::Creating, ReceiveAction::CreateOutput)
            } else {
                (ReceiveStage::Receiving, ReceiveAction::ReceiveData)
            },
            (ReceiveStage::Creating, ReceiveEvent::Done) | (
                ReceiveStage::Writing,
                ReceiveEvent::Done,
            ) => (ReceiveStage::Receiving, ReceiveAction::ReceiveData),
            (ReceiveStage::Receiving, ReceiveEvent::Data { ended }) => if ended {
                (ReceiveStage::Flushing, ReceiveAction::Flush)
            } else {
                (ReceiveStage::Writing, ReceiveAction::Write)
            },
            (ReceiveStage::Waiting, ReceiveEvent::Failed { detail }) => (
                ReceiveStage::Over,
                ReceiveAction::Fail { error: RequestError::ReceiveResponse { detail } },
            ),
            (ReceiveStage::Creating, ReceiveEvent::Failed { detail }) => (
                ReceiveStage::Over,
                ReceiveAction::Fail { error: RequestError::CreateOutput { detail } },
            ),
            (ReceiveStage::Receiving, ReceiveEvent::Failed { detail }) => (
                ReceiveStage::Over,
                ReceiveAction::Fail { error: RequestError::ReceiveBody { detail } },
            ),
            (_, ReceiveEvent::Failed { detail }) => (
                ReceiveStage::Over,
                ReceiveAction::Fail { error: RequestError::Write { detail } },
            ),
            (_, _) => (ReceiveStage::Over, ReceiveAction::Complete),
        }
    }

    /// Starts to receive the answer.
    pub fn start() -> (r: (ReceiveStage, ReceiveAction))
        ensures
            r == (ReceiveStage::Waiting, ReceiveAction::ReceiveResponse),
    {
        (ReceiveStage::Waiting, ReceiveAction::ReceiveResponse)
    }

    /// Goes on after an event.
    pub fn step(self, to_file: bool, event: ReceiveEvent) -> (r: (ReceiveStage, ReceiveAction))
        requires
            self.awaits(event),
        ensures
            r == self.after(to_file, event),
    {
        match (self, event) {
            (ReceiveStage::Waiting, ReceiveEvent::Done) => if to_file {
                (ReceiveStage::Creating, ReceiveAction::CreateOutput)
            } else {
                (ReceiveStage::Receiving, ReceiveAction::ReceiveData)
            },
            (ReceiveStage::Creating, ReceiveEvent::Done) | (
                ReceiveStage::Writing,
                ReceiveEvent::Done,
            ) => (ReceiveStage::Receiving, ReceiveAction::ReceiveData),
            (ReceiveStage::Receiving, ReceiveEvent::Data { ended }) => if ended {
                (ReceiveStage::Flushing, ReceiveAction::Flush)
            } else {
                (ReceiveStage::Writing, ReceiveAction::Write)
            },
            (ReceiveStage::Waiting, ReceiveEvent::Failed { detail }) => (
                ReceiveStage::Over,
                ReceiveAction::Fail { error: RequestError::ReceiveResponse { detail } },
            ),
            (ReceiveStage::Creating, ReceiveEvent::Failed { detail }) => (
                ReceiveStage::Over,
                ReceiveAction::Fail { error: RequestError::CreateOutput { detail } },
            ),
            (ReceiveStage::Receiving, ReceiveEvent::Failed { detail }) => (
                ReceiveStage::Over,
                ReceiveAction::Fail { error: RequestError::ReceiveBody { detail } },
            ),
            (_, ReceiveEvent::Failed { detail }) => (
                ReceiveStage::Over,
                ReceiveAction::Fail { error: RequestError::Write { detail } },
            ),
            (_, _) => (ReceiveStage::Over, ReceiveAction::Complete),
        }
    }
}

/// The line that tells where a host is.
pub fn resolved_line(name: &str, addrs: &Vec<String>) -> (r: String)
    ensures
        r@ == "* resolved "@ + name@ + " to address: ["@ + join_with(views(addrs@), ", "@) + "]"@,
{
    let mut r = "* resolved ".to_owned();
    r.append(name);
    r.append(" to address: [");
    r.append(&join(addrs, ", "));
    r.append("]");
    r
}

/// The line that tells that the server was reached.
pub fn established_line(name: &str) -> (r: String)
    ensures
        r@ == "* establish http3 connection to "@ + name@,
{
    let mut r = "* establish http3 connection to ".to_owned();
    r.append(name);
    r
}

/// A text of several lines, each behind the mark.
pub fn request_block(request: &str) -> (r: String)
    ensures
        r@ == join_with(lines_of("> send request: "@ + request@), "\n> "@),
{
    let mut text = "> send request: ".to_owned();
    text.append(request);
    join(&lines(&text), "\n> ")
}

/// A text of several lines, each behind the mark.
pub fn response_block(response: &str) -> (r: String)
    ensures
        r@ == join_with(lines_of("< received response: "@ + response@), "\n< "@),
{
    let mut text = "< received response: ".to_owned();
    text.append(response);
    join(&lines(&text), "\n< ")
}

/// A request on its way stays in order.
pub proof fn requests_stay_well_formed(run: RequestRun, event: RequestEvent)
    requires
        run.wf(),
        run.awaits(event),
    ensures
        run.after(event).0.wf(),
        run.after(event).0.name == run.name,
        run.after(event).0.connect_timeout == run.connect_timeout,
{
}

/// The addresses are tried one after the other until one answers, and the failure of the last
/// is the one that is reported.
pub proof fn addresses_are_tried_in_order(
    run: RequestRun,
    addrs: Vec<String>,
    current: usize,
    event: RequestEvent,
)
    requires
        run.wf(),
        run.awaits(event),
        run.stage == (RequestStage::Connecting { addrs, current }),
    ensures
        event is Done ==> run.after(event).1 is Build,
        !(event is Done) && current + 1 < addrs@.len() ==> run.after(event).1 == (
        RequestAction::Attempt {
            addr: addrs@[current + 1],
            seconds: match run.connect_timeout {
                Some(n) => n,
                None => 3,
            },
        }),
        event is TimedOut && current + 1 == addrs@.len() ==> run.after(event).1 == (
        RequestAction::Fail { error: RequestError::ConnectTimeout }),
        event matches RequestEvent::Failed { detail } ==> current + 1 == addrs@.len()
            ==> run.after(event).1 == (RequestAction::Fail {
            error: RequestError::Connect { detail },
        }),
{
}

/// A body is complete only once its end was sent, and nothing is sent behind its end.
pub proof fn bodies_end_once(stage: SendStage, has_file: bool, event: SendEvent)
    requires
        stage.awaits(event),
    ensures
        stage.after(has_file, event).1 is Complete <==> stage is Finishing && event is Done,
        stage is Finishing ==> stage.after(has_file, event).0 is Over,
{
}

/// An answer is complete only once all of it was written out.
pub proof fn answers_are_flushed(stage: ReceiveStage, to_file: bool, event: ReceiveEvent)
    requires
        stage.awaits(event),
    ensures
        stage.after(to_file, event).1 is Complete <==> stage is Flushing && event is Done,
        stage.after(to_file, event).1 is Flush <==> stage is Receiving && event
            == (ReceiveEvent::Data { ended: true }),
{
}

/// Without a file to upload, none is opened, read or sent: the body ends behind the data, or at
/// once. With one, it is opened behind the data.
pub proof fn bodies_hold_what_was_given(
    stage: SendStage,
    has_file: bool,
    event: SendEvent,
)
    requires
        stage.awaits(event),
    ensures
        stage is SendingData && event is Done && !has_file ==> stage.after(has_file, event) == (
            SendStage::Finishing,
            SendAction::Finish,
        ),
        stage is SendingData && event is Done && has_file ==> stage.after(has_file, event) == (
            SendStage::Opening,
            SendAction::OpenFile,
        ),
        !has_file && (stage is SendingData || stage is Finishing) ==> {
            &&& stage.after(has_file, event).0 is Finishing || stage.after(has_file, event).0
                is Over
            &&& !(stage.after(has_file, event).1 is OpenFile)
            &&& !(stage.after(has_file, event).1 is ReadChunk)
            &&& !(stage.after(has_file, event).1 is SendChunk)
        },
        stage.after(has_file, event).1 is OpenFile ==> has_file && stage is SendingData,
        stage.after(has_file, event).1 is SendData ==> false,
{
}

/// A file is read chunk by chunk, every chunk is sent before the next one is read, and the body
/// ends with the empty one.
pub proof fn files_are_sent_chunk_by_chunk(stage: SendStage, has_file: bool, event: SendEvent)
    requires
        stage.awaits(event),
    ensures
        stage.after(has_file, event).1 is ReadChunk <==> event is Done && (stage is Opening || stage
            is SendingChunk),
        stage.after(has_file, event).1 matches SendAction::ReadChunk { limit } ==> limit == 1024 * 1024
            && stage.after(has_file, event).0 is Reading,
        stage.after(has_file, event).1 is SendChunk <==> stage is Reading && event == (
        SendEvent::Read { empty: false }),
        stage.after(has_file, event).0 is SendingChunk <==> stage is Reading && event == (
        SendEvent::Read { empty: false }),
        stage is Reading && event == (SendEvent::Read { empty: true }) ==> stage.after(
            has_file,
            event,
        ) == (SendStage::Finishing, SendAction::Finish),
        stage.after(has_file, event).1 is Finish ==> stage.after(has_file, event).0 is Finishing
            && (stage is Reading || stage is SendingData),
        event matches SendEvent::Failed { detail } ==> stage.after(has_file, event) == (
            SendStage::Over,
            SendAction::Fail {
                error: if stage is Opening {
                    RequestError::OpenUpload { detail }
                } else if stage is Reading {
                    RequestError::ReadUpload { detail }
                } else if stage is Finishing {
                    RequestError::Finish { detail }
                } else {
                    RequestError::SendBody { detail }
                },
            },
        ),
        stage.after(has_file, event).1 is Fail ==> event is Failed,
{
}

/// An answer is written where it was asked for, piece by piece until it ends.
pub proof fn answers_are_written_piece_by_piece(
    stage: ReceiveStage,
    to_file: bool,
    event: ReceiveEvent,
)
    requires
        stage.awaits(event),
    ensures
        stage.after(to_file, event).1 is CreateOutput <==> to_file && stage is Waiting && event
            is Done,
        stage.after(to_file, event).0 is Creating <==> to_file && stage is Waiting && event is Done,
        stage.after(to_file, event).1 is ReceiveData <==> event is Done && ((stage is Waiting
            && !to_file) || stage is Creating || stage is Writing),
        stage.after(to_file, event).0 is Receiving <==> event is Done && ((stage is Waiting
            && !to_file) || stage is Creating || stage is Writing),
        stage.after(to_file, event).1 is Write <==> stage is Receiving && event == (
        ReceiveEvent::Data { ended: false }),
        stage.after(to_file, event).0 is Writing <==> stage is Receiving && event == (
        ReceiveEvent::Data { ended: false }),
        stage.after(to_file, event).0 is Flushing <==> stage is Receiving && event == (
        ReceiveEvent::Data { ended: true }),
        event matches ReceiveEvent::Failed { detail } ==> stage.after(to_file, event) == (
            ReceiveStage::Over,
            ReceiveAction::Fail {
                error: if stage is Waiting {
                    RequestError::ReceiveResponse { detail }
                } else if stage is Creating {
                    RequestError::CreateOutput { detail }
                } else if stage is Receiving {
                    RequestError::ReceiveBody { detail }
                } else {
                    RequestError::Write { detail }
                },
            },
        ),
        stage.after(to_file, event).1 is Fail ==> event is Failed,
{
}

/// The way of a request: it is resolved, bound, connected to the first address, built, sent and
/// then transferred; each step follows only on the one before it, and each failure is its own.
pub proof fn requests_take_their_way(run: RequestRun, event: RequestEvent)
    requires
        run.wf(),
        run.awaits(event),
    ensures
        run.after(event).1 is Bind <==> run.stage is Resolving && event is Resolved,
        event matches RequestEvent::Resolved { addrs } ==> run.after(event).0.stage == (
        RequestStage::Binding { addrs }),
        run.stage matches RequestStage::Binding { addrs } ==> event is Done ==> addrs@.len() > 0
            ==> run.after(event).1 == (RequestAction::Attempt {
            addr: addrs@[0],
            seconds: match run.connect_timeout {
                Some(n) => n,
                None => 3,
            },
        }) && run.after(event).0.stage == (RequestStage::Connecting { addrs, current: 0 }),
        run.stage matches RequestStage::Binding { addrs } ==> event is Done ==> addrs@.len() == 0
            ==> run.after(event).1 == (RequestAction::Fail { error: RequestError::DnsNotFound }),
        run.after(event).1 is Build <==> run.stage is Connecting && event is Done,
        run.after(event).0.stage is Building <==> run.stage is Connecting && event is Done,
        run.after(event).1 is Send <==> run.stage is Building && event is Done,
        run.after(event).0.stage is Sending <==> run.stage is Building && event is Done,
        run.after(event).1 is Transfer <==> run.stage is Sending && event is Done,
        run.after(event).0.stage is Transferring <==> run.stage is Sending && event is Done,
        run.after(event).1 is Attempt ==> run.after(event).0.stage is Connecting && (run.stage
            is Binding || run.stage is Connecting),
        run.after(event).1 is Fail <==> run.after(event).0.stage is Over,
        run.stage matches RequestStage::Connecting { addrs, current } ==> !(event is Done)
            ==> current + 1 < addrs@.len() <= usize::MAX ==> (run.after(
            event,
        ).0.stage matches RequestStage::Connecting { addrs: kept, current: next } && kept == addrs
            && next == current + 1) && (run.after(event).1 matches RequestAction::Attempt {
            addr,
            ..
        } && addr == addrs@[current + 1]),
        run.stage matches RequestStage::Connecting { addrs, current } ==> current + 1
            == addrs@.len() ==> event is TimedOut ==> run.after(event).1 == (RequestAction::Fail {
            error: RequestError::ConnectTimeout,
        }),
        run.stage matches RequestStage::Connecting { addrs, current } ==> current + 1
            == addrs@.len() ==> (event matches RequestEvent::Failed { detail } ==> run.after(
            event,
        ).1 == (RequestAction::Fail { error: RequestError::Connect { detail } })),
        event matches RequestEvent::Failed { detail } ==> !(run.stage is Connecting) ==> run.after(
            event,
        ).1 == (RequestAction::Fail {
            error: if run.stage is Resolving {
                RequestError::Resolve { name: run.name, detail }
            } else if run.stage is Binding {
                RequestError::Bind { detail }
            } else if run.stage is Building {
                RequestError::BuildRequest { detail }
            } else {
                RequestError::SendRequest { detail }
            },
        }),
{
}

/// A method that was asked for is used; otherwise data is posted, a file is put, and without
/// either the request gets.
pub proof fn methods_fit_what_is_sent(options: RequestOptions)
    ensures
        options.request matches Some(method) ==> method_name(options) == method@,
        options.request is None && options.data is Some ==> method_name(options) == "POST"@,
        options.request is None && options.data is None && options.upload_file is Some
            ==> method_name(options) == "PUT"@,
        options.request is None && options.data is None && options.upload_file is None
            ==> method_name(options) == "GET"@,
{
}

/// A header is parted at its first colon, without the white space around the parts.
pub proof fn headers_are_parted_at_the_first_colon(name: Seq<char>, value: Seq<char>)
    requires
        !name.contains(':'),
    ensures
        header_parts(name + seq![':'] + value) == Some((trimmed(name), trimmed(value))),
        header_parts(name) is None,
{
    let s = name + seq![':'] + value;
    crate::route::first_index_fits(s, ':');
    crate::route::first_index_fits(name, ':');
    assert(s[name.len() as int] == ':');
    assert forall|i: int| 0 <= i < name.len() implies s[i] != ':' by {
        assert(s[i] == name[i]);
    }
    assert(s.take(name.len() as int) =~= name);
    assert(s.skip((name.len() + 1) as int) =~= value);
}

} // verus!
