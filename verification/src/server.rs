//! The service around the directory: its configuration, and the reply it
//! gives to each request.

use crate::error::DirectoryError;
use vstd::prelude::*;
use vstd::string::StringExecFns;

verus! {

/// Host the service listens on when none is given.
pub open spec fn default_host() -> Seq<char> {
    "localhost"@
}

/// Port the service listens on when none is given.
pub const DEFAULT_PORT: u16 = 8080;

/// Payload that is loaded when none is given: a JSON array without records.
pub open spec fn default_payload() -> Seq<char> {
    "[]"@
}

/// What a [`Server`] is made of.
pub ghost struct ServerView {
    pub host: Seq<char>,
    pub port: u16,
    pub classroom_data: Seq<char>,
    pub image_data: Seq<char>,
}

/// What a [`ServerBuilder`] has been told so far.
pub ghost struct ServerBuilderView {
    pub host: Option<Seq<char>>,
    pub port: Option<u16>,
    pub classroom_data: Option<Seq<char>>,
    pub image_data: Option<Seq<char>>,
}

impl ServerBuilderView {
    /// The configuration that results when every missing setting takes its
    /// default.
    pub open spec fn finished(self) -> ServerView {
        ServerView {
            host: match self.host {
                Some(host) => host,
                None => default_host(),
            },
            port: match self.port {
                Some(port) => port,
                None => DEFAULT_PORT,
            },
            classroom_data: match self.classroom_data {
                Some(text) => text,
                None => default_payload(),
            },
            image_data: match self.image_data {
                Some(text) => text,
                None => default_payload(),
            },
        }
    }
}

/// A complete service configuration.
pub struct Server {
    host: String,
    port: u16,
    classroom_data: String,
    image_data: String,
}

/// Collects the settings of a [`Server`]; each may be left out.
pub struct ServerBuilder {
    host: Option<String>,
    port: Option<u16>,
    classroom_data: Option<String>,
    image_data: Option<String>,
}

/// The view of an optional string.
pub open spec fn text_view(text: Option<String>) -> Option<Seq<char>> {
    match text {
        Some(s) => Some(s@),
        None => None,
    }
}

impl View for Server {
    type V = ServerView;

    closed spec fn view(&self) -> ServerView {
        ServerView {
            host: self.host@,
            port: self.port,
            classroom_data: self.classroom_data@,
            image_data: self.image_data@,
        }
    }
}

impl View for ServerBuilder {
    type V = ServerBuilderView;

    closed spec fn view(&self) -> ServerBuilderView {
        ServerBuilderView {
            host: text_view(self.host),
            port: self.port,
            classroom_data: text_view(self.classroom_data),
            image_data: text_view(self.image_data),
        }
    }
}

impl Server {
    /// A builder in which nothing is set yet.
    pub fn builder() -> (builder: ServerBuilder)
        ensures
            builder@ == (ServerBuilderView {
                host: None,
                port: None,
                classroom_data: None,
                image_data: None,
            }),
    {
        ServerBuilder { host: None, port: None, classroom_data: None, image_data: None }
    }

    /// The host to listen on.
    pub fn host(&self) -> (host: &String)
        ensures
            host@ == self@.host,
    {
        &self.host
    }

    /// The port to listen on.
    pub fn port(&self) -> (port: u16)
        ensures
            port == self@.port,
    {
        self.port
    }

    /// The classroom payload to load at start-up.
    pub fn classroom_data(&self) -> (text: &String)
        ensures
            text@ == self@.classroom_data,
    {
        &self.classroom_data
    }

    /// The image payload to load at start-up.
    pub fn image_data(&self) -> (text: &String)
        ensures
            text@ == self@.image_data,
    {
        &self.image_data
    }
}

impl ServerBuilder {
    /// Sets the host, replacing an earlier one.
    pub fn host(self, value: String) -> (builder: ServerBuilder)
        ensures
            builder@ == (ServerBuilderView { host: Some(value@), ..self@ }),
    {
        let mut builder = self;
        builder.host = Some(value);
        builder
    }

    /// Sets the port, replacing an earlier one.
    pub fn port(self, value: u16) -> (builder: ServerBuilder)
        ensures
            builder@ == (ServerBuilderView { port: Some(value), ..self@ }),
    {
        let mut builder = self;
        builder.port = Some(value);
        builder
    }

    /// Sets the classroom payload, replacing an earlier one.
    pub fn classroom_data(self, value: String) -> (builder: ServerBuilder)
        ensures
            builder@ == (ServerBuilderView { classroom_data: Some(value@), ..self@ }),
    {
        let mut builder = self;
        builder.classroom_data = Some(value);
        builder
    }

    /// Sets the image payload, replacing an earlier one.
    pub fn image_data(self, value: String) -> (builder: ServerBuilder)
        ensures
            builder@ == (ServerBuilderView { image_data: Some(value@), ..self@ }),
    {
        let mut builder = self;
        builder.image_data = Some(value);
        builder
    }

    /// The configuration with every setting that was left out at its default:
    /// host `localhost`, port 8080, and `[]` for either payload.
    pub fn build(self) -> (server: Server)
        ensures
            server@ == self@.finished(),
    {
        Server {
            host: match self.host {
                Some(host) => host,
                None => "localhost".to_owned(),
            },
            port: match self.port {
                Some(port) => port,
                None => DEFAULT_PORT,
            },
            classroom_data: match self.classroom_data {
                Some(text) => text,
                None => "[]".to_owned(),
            },
            image_data: match self.image_data {
                Some(text) => text,
                None => "[]".to_owned(),
            },
        }
    }
}

/// Status of a reply that carries what was asked for.
pub const STATUS_OK: u16 = 200;

/// Status of a reply to a request that the directory could not serve.
pub const STATUS_NOT_FOUND: u16 = 404;

/// What is sent back to a client.
#[derive(Debug, PartialEq, Eq)]
pub struct Reply {
    pub status: u16,
    pub body: String,
}

/// The mathematical model of a [`Reply`].
pub ghost struct ReplyModel {
    pub status: u16,
    pub body: Seq<char>,
}

impl View for Reply {
    type V = ReplyModel;

    open spec fn view(&self) -> ReplyModel {
        ReplyModel { status: self.status, body: self.body@ }
    }
}

/// The reply for the outcome of a directory read: the text with status 200,
/// or, for any error, status 404 and a body that starts with `apology` and
/// ends with the description of the error.
pub open spec fn reply_for(outcome: Result<String, DirectoryError>, apology: Seq<char>)
    -> ReplyModel {
    match outcome {
        Ok(text) => ReplyModel { status: STATUS_OK, body: text@ },
        Err(error) => ReplyModel { status: STATUS_NOT_FOUND, body: apology + error.description() },
    }
}

/// How the body of a failed request for the classroom list begins.
pub open spec fn list_apology() -> Seq<char> {
    "Error: classroom list not available\nReason:"@
}

/// How the body of a failed request for a classroom begins.
pub open spec fn data_apology() -> Seq<char> {
    "Error: classroom data not available\nReason:"@
}

/// The reply to a request for the list of classrooms.
pub fn classroom_list_reply(outcome: Result<String, DirectoryError>) -> (reply: Reply)
    ensures
        reply@ == reply_for(outcome, list_apology()),
{
    match outcome {
        Ok(text) => Reply { status: STATUS_OK, body: text },
        Err(error) => Reply {
            status: STATUS_NOT_FOUND,
            body: "Error: classroom list not available\nReason:".to_owned().concat(error.reason()),
        },
    }
}

/// The reply to a request for one classroom.
pub fn classroom_data_reply(outcome: Result<String, DirectoryError>) -> (reply: Reply)
    ensures
        reply@ == reply_for(outcome, data_apology()),
{
    match outcome {
        Ok(text) => Reply { status: STATUS_OK, body: text },
        Err(error) => Reply {
            status: STATUS_NOT_FOUND,
            body: "Error: classroom data not available\nReason:".to_owned().concat(error.reason()),
        },
    }
}

} // verus!
