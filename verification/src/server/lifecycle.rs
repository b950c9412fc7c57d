//! The tile server's lifecycle as a state machine: whether it runs, on which
//! port, and whether a database connection is there to serve from. The
//! thread, the listener and the shutdown signal stand outside this crate;
//! they act on the decisions taken here.
use crate::text::{decimal, decimal_string};
use vstd::prelude::*;

verus! {

/// What the server state holds: the port it runs on, if it runs, and
/// whether the database connection has been handed over.
pub struct ServerStateView {
    pub port: Option<u16>,
    pub connected: bool,
}

/// The shared state of the tile server.
pub struct ServerState {
    port: Option<u16>,
    connected: bool,
}

impl View for ServerState {
    type V = ServerStateView;

    closed spec fn view(&self) -> ServerStateView {
        ServerStateView { port: self.port, connected: self.connected }
    }
}

pub open spec fn result_view(r: Result<String, String>) -> Result<Seq<char>, Seq<char>> {
    match r {
        Ok(m) => Ok(m@),
        Err(m) => Err(m@),
    }
}

/// The message that refuses to start without a database connection.
pub open spec fn no_connection_text() -> Seq<char> {
    "No database connection available. Please ensure the extension is properly initialized."@
}

/// Starting on `port`: refused while the server runs, or while there is no
/// connection; otherwise the server runs on `port` from then on.
pub open spec fn start_spec(s: ServerStateView, port: u16) -> (
    ServerStateView,
    Result<Seq<char>, Seq<char>>,
) {
    match s.port {
        Some(p) => (s, Err("Server is already running on port "@ + decimal(p as nat))),
        None => if !s.connected {
            (s, Err(no_connection_text()))
        } else {
            (
                ServerStateView { port: Some(port), connected: s.connected },
                Ok("Server started on http://localhost:"@ + decimal(port as nat)),
            )
        },
    }
}

/// Stopping: refused while the server does not run; otherwise it no longer runs.
pub open spec fn stop_spec(s: ServerStateView) -> (ServerStateView, Result<Seq<char>, Seq<char>>) {
    match s.port {
        None => (s, Err("Server is not running"@)),
        Some(p) => (
            ServerStateView { port: None, connected: s.connected },
            Ok("Server stopped (was running on port "@ + decimal(p as nat) + ")"@),
        ),
    }
}

/// The status line of the server.
pub open spec fn status_spec(s: ServerStateView) -> Seq<char> {
    match s.port {
        Some(p) => "Server is running on port "@ + decimal(p as nat),
        None => "Server is not running"@,
    }
}

impl ServerState {
    /// A server that does not run and has no connection yet.
    pub fn new() -> (s: Self)
        ensures
            s@ == (ServerStateView { port: None, connected: false }),
    {
        ServerState { port: None, connected: false }
    }

    pub fn is_running(&self) -> (b: bool)
        ensures
            b == self@.port is Some,
    {
        self.port.is_some()
    }

    pub fn get_port(&self) -> (p: Option<u16>)
        ensures
            p == self@.port,
    {
        self.port
    }

    /// Records that the database connection is there to serve from.
    pub fn set_connection(&mut self)
        ensures
            final(self)@ == (ServerStateView { port: old(self)@.port, connected: true }),
    {
        self.connected = true;
    }
}

/// Decides a start request; on `Ok` the caller starts serving on `port`.
pub fn start_server(state: &mut ServerState, port: u16) -> (r: Result<String, String>)
    ensures
        (final(state)@, result_view(r)) == start_spec(old(state)@, port),
{
    match state.port {
        Some(p) => {
            let mut m = String::from_str("Server is already running on port ");
            let digits = decimal_string(p as u64);
            m.append(digits.as_str());
            Err(m)
        },
        None => {
            if !state.connected {
                return Err(
                    String::from_str(
                        "No database connection available. Please ensure the extension is properly initialized.",
                    ),
                );
            }
            state.port = Some(port);
            let mut m = String::from_str("Server started on http://localhost:");
            let digits = decimal_string(port as u64);
            m.append(digits.as_str());
            Ok(m)
        },
    }
}

/// Decides a stop request; on `Ok` the caller signals the server to shut
/// down and waits for it.
pub fn stop_server(state: &mut ServerState) -> (r: Result<String, String>)
    ensures
        (final(state)@, result_view(r)) == stop_spec(old(state)@),
{
    match state.port {
        None => Err(String::from_str("Server is not running")),
        Some(p) => {
            state.port = None;
            let mut m = String::from_str("Server stopped (was running on port ");
            let digits = decimal_string(p as u64);
            m.append(digits.as_str());
            m.append(")");
            Ok(m)
        },
    }
}

/// The status line of the server.
pub fn server_status(state: &ServerState) -> (r: String)
    ensures
        r@ == status_spec(state@),
{
    match state.port {
        Some(p) => {
            let mut m = String::from_str("Server is running on port ");
            let digits = decimal_string(p as u64);
            m.append(digits.as_str());
            m
        },
        None => String::from_str("Server is not running"),
    }
}

/// A started server reports that it runs on the port it was started on.
pub proof fn law_status_after_start(s: ServerStateView, port: u16)
    requires
        s.port is None,
        s.connected,
    ensures
        start_spec(s, port).1 is Ok,
        status_spec(start_spec(s, port).0) == "Server is running on port "@ + decimal(port as nat),
{
}

/// Stopping a server that was just started succeeds, names its port, and
/// returns to the state before the start.
pub proof fn law_start_then_stop(s: ServerStateView, port: u16)
    requires
        s.port is None,
        s.connected,
    ensures
        stop_spec(start_spec(s, port).0).0 == s,
        stop_spec(start_spec(s, port).0).1 == Ok::<Seq<char>, Seq<char>>(
            "Server stopped (was running on port "@ + decimal(port as nat) + ")"@,
        ),
{
}

/// A refused request leaves the state as it was.
pub proof fn law_refusal_keeps_state(s: ServerStateView, port: u16)
    ensures
        start_spec(s, port).1 is Err ==> start_spec(s, port).0 == s,
        stop_spec(s).1 is Err ==> stop_spec(s).0 == s,
{
}

/// One server at a time: a start succeeds exactly when the server does not
/// run and has a connection; a stop succeeds exactly when the server runs.
pub proof fn law_single_server(s: ServerStateView, port: u16)
    ensures
        start_spec(s, port).1 is Ok <==> (s.port is None && s.connected),
        stop_spec(s).1 is Ok <==> s.port is Some,
        start_spec(s, port).1 is Ok ==> start_spec(s, port).0.port == Some(port),
{
}

/// After a stop, whether it was refused or not, the server does not run.
pub proof fn law_stopped_after_stop(s: ServerStateView)
    ensures
        stop_spec(s).0.port is None,
        status_spec(stop_spec(s).0) == "Server is not running"@,
{
}

/// No transition drops the database connection.
pub proof fn law_connection_kept(s: ServerStateView, port: u16)
    ensures
        start_spec(s, port).0.connected == s.connected,
        stop_spec(s).0.connected == s.connected,
{
}

} // verus!
