//! How the service starts: what it reads, what it connects to, and when it
//! gives up.

use vstd::prelude::*;

verus! {

/// The most connections that the pool holds.
pub const MAX_CONNECTIONS: u32 = 10;

/// The exit code of a process that could not connect to the datastore.
pub const EXIT_NO_CONNECTION: i32 = 1;

/// How far the start of the service has come.
#[derive(Debug, PartialEq, Eq)]
pub enum StartStage {
    /// Nothing has been done yet.
    Begin,
    /// The environment has been read: the connection string, where the
    /// variable is set.
    Environment(Option<String>),
    /// The datastore has been called: what it said where it refused.
    Connected(Result<(), String>),
}

/// The mathematical value of a [`StartStage`].
pub enum StartStageView {
    Begin,
    Environment(Option<Seq<char>>),
    Connected(Result<(), Seq<char>>),
}

impl View for StartStage {
    type V = StartStageView;

    open spec fn view(&self) -> StartStageView {
        match self {
            StartStage::Begin => StartStageView::Begin,
            StartStage::Environment(None) => StartStageView::Environment(None),
            StartStage::Environment(Some(url)) => StartStageView::Environment(Some(url@)),
            StartStage::Connected(Ok(())) => StartStageView::Connected(Ok(())),
            StartStage::Connected(Err(detail)) => StartStageView::Connected(Err(detail@)),
        }
    }
}

/// What to do next to start the service.
#[derive(Clone, Debug, PartialEq, Eq)]
pub enum StartAction {
    /// Say `notice`, then read the environment variable `name`.
    ReadEnvironment { notice: String, name: String },
    /// Open a pool of at most `max_connections` connections to `url`.
    Connect { url: String, max_connections: u32 },
    /// Say `connected`, then `listening`, then listen on `address` and serve
    /// until killed.
    Serve { connected: String, listening: String, address: String },
    /// End the process at once with `message`, before any network activity.
    Abort { message: String },
    /// Say `notice`, then end the process with the exit code `code`.
    Exit { notice: String, code: i32 },
}

/// The mathematical value of a [`StartAction`].
pub enum StartActionView {
    ReadEnvironment { notice: Seq<char>, name: Seq<char> },
    Connect { url: Seq<char>, max_connections: u32 },
    Serve { connected: Seq<char>, listening: Seq<char>, address: Seq<char> },
    Abort { message: Seq<char> },
    Exit { notice: Seq<char>, code: i32 },
}

impl View for StartAction {
    type V = StartActionView;

    open spec fn view(&self) -> StartActionView {
        match self {
            StartAction::ReadEnvironment { notice, name } => StartActionView::ReadEnvironment {
                notice: notice@,
                name: name@,
            },
            StartAction::Connect { url, max_connections } => StartActionView::Connect {
                url: url@,
                max_connections: *max_connections,
            },
            StartAction::Serve { connected, listening, address } => StartActionView::Serve {
                connected: connected@,
                listening: listening@,
                address: address@,
            },
            StartAction::Abort { message } => StartActionView::Abort { message: message@ },
            StartAction::Exit { notice, code } => StartActionView::Exit {
                notice: notice@,
                code: *code,
            },
        }
    }
}

/// What the start of the service does at each stage: it reads
/// `DATABASE_URL`; where the variable is not set it ends at once, else it
/// connects with a pool of at most 10 connections; where the datastore
/// refuses it ends with the exit code 1, else it serves on port 8080 of
/// every interface. Nothing is tried twice.
pub open spec fn start_spec(stage: StartStageView) -> StartActionView {
    match stage {
        StartStageView::Begin => StartActionView::ReadEnvironment {
            notice: "SERVIDOR CRUD"@,
            name: "DATABASE_URL"@,
        },
        StartStageView::Environment(None) => StartActionView::Abort {
            message: "DATABASE_URL must set"@,
        },
        StartStageView::Environment(Some(url)) => StartActionView::Connect {
            url,
            max_connections: MAX_CONNECTIONS,
        },
        StartStageView::Connected(Ok(())) => StartActionView::Serve {
            connected: "Conectado a la base de datos!"@,
            listening: "Servidor esta encendido en el puerto 0.0.0.0:8080"@,
            address: "0.0.0.0:8080"@,
        },
        StartStageView::Connected(Err(detail)) => StartActionView::Exit {
            notice: "conexion fallida con la base de datos: "@ + detail,
            code: EXIT_NO_CONNECTION,
        },
    }
}

/// Decides the next step of the start of the service.
pub fn start(stage: StartStage) -> (action: StartAction)
    ensures
        action@ == start_spec(stage@),
{
    match stage {
        StartStage::Begin => StartAction::ReadEnvironment {
            notice: String::from_str("SERVIDOR CRUD"),
            name: String::from_str("DATABASE_URL"),
        },
        StartStage::Environment(None) => StartAction::Abort {
            message: String::from_str("DATABASE_URL must set"),
        },
        StartStage::Environment(Some(url)) => StartAction::Connect {
            url,
            max_connections: MAX_CONNECTIONS,
        },
        StartStage::Connected(Ok(())) => StartAction::Serve {
            connected: String::from_str("Conectado a la base de datos!"),
            listening: String::from_str("Servidor esta encendido en el puerto 0.0.0.0:8080"),
            address: String::from_str("0.0.0.0:8080"),
        },
        StartStage::Connected(Err(detail)) => {
            let mut notice = String::from_str("conexion fallida con la base de datos: ");
            notice.append(detail.as_str());
            StartAction::Exit { notice, code: EXIT_NO_CONNECTION }
        },
    }
}

} // verus!
