//! The supervisor of the listener. It owns the handle of the listener that
//! is up, decides on each start whether the listener terminates TLS, and
//! stops a listener gracefully: no new connection is accepted, requests in
//! flight finish.
//!
//! Binding and serving are the caller's. `start_http_server` hands out what
//! to launch; the caller reports back with `listening` once the listener
//! accepts connections and with `serve_ended` once its serve loop is over,
//! be it after a shutdown or because the address could not be bound.

use axum_server::Handle;
use vstd::prelude::*;
use crate::synclan::{Document, ISynclan, DEFAULT_HTTP_PORT};

verus! {

/// The handle of a listener, `axum_server::Handle`. It is kept and passed
/// on; nothing of it is read.
#[verifier::external_type_specification]
#[verifier::external_body]
pub struct ExHandle(Handle);

/// `Handle::new` and `Handle::clone`: two handles of one listener that is
/// yet to be bound. The first stays with the supervisor, the second goes to
/// the listener.
#[verifier::external_body]
fn handle_pair() -> (pair: (Handle, Handle)) {
    let handle = Handle::new();
    (handle.clone(), handle)
}

/// `Handle::graceful_shutdown` without a time limit.
#[verifier::external_body]
fn graceful_shutdown(handle: &Handle) {
    handle.graceful_shutdown(None)
}

/// Where the listener is in its life.
#[derive(Clone, Copy, Debug, PartialEq, Eq, Structural)]
pub enum ServerState {
    /// No listener is up.
    Stopped,
    /// A listener was launched and is yet to accept connections.
    Starting,
    /// The listener accepts connections.
    Running,
    /// The listener was told to stop and lets its requests finish.
    Stopping,
}

/// What the listener speaks.
#[derive(Clone, Copy, Debug, PartialEq, Eq, Structural)]
pub enum Protocol {
    /// Plain HTTP.
    Plain,
    /// HTTP over TLS, with the certificate of the configuration.
    Tls,
}

/// Why a start was refused.
#[derive(Clone, Copy, Debug, PartialEq, Eq, Structural)]
pub enum StartError {
    /// The persistence layer is not initialized: no server without data.
    PoolNotInitialized,
}

impl StartError {
    /// The error in words.
    pub fn message(&self) -> (text: &'static str)
        ensures
            text@ == "SQLite connection pool has not been initialized"@,
    {
        "SQLite connection pool has not been initialized"
    }
}

/// A listener to bring up.
pub struct Launch {
    /// The handle by which the listener is told to stop.
    pub handle: Handle,
    /// What the listener speaks.
    pub protocol: Protocol,
    /// The port to bind.
    pub port: u16,
    /// The number of this launch, to report back with.
    pub generation: u64,
    /// Whether a listener was up before, and was told to stop.
    pub replaced: bool,
}

/// The protocol that a document asks for: TLS unless encryption is
/// switched off explicitly.
pub open spec fn protocol_of(document: Document) -> Protocol {
    if document.wants_tls() {
        Protocol::Tls
    } else {
        Protocol::Plain
    }
}

/// The port that a document asks for.
pub open spec fn port_of(document: Document) -> u16 {
    match document.http_server_port {
        Some(port) => port,
        None => DEFAULT_HTTP_PORT,
    }
}

/// The number of the launch that follows launch `generation`. Numbers start
/// at 1 and start over after the largest.
pub open spec fn next_generation(generation: u64) -> u64 {
    if generation == u64::MAX {
        1
    } else {
        (generation + 1) as u64
    }
}

/// The supervisor of the listener.
pub struct HttpServer {
    handle: Option<Handle>,
    state: ServerState,
    generation: u64,
}

impl HttpServer {
    /// Where the listener is in its life.
    pub closed spec fn state(&self) -> ServerState {
        self.state
    }

    /// The number of the latest launch; 0 before the first.
    pub closed spec fn generation(&self) -> u64 {
        self.generation
    }

    /// Whether the supervisor keeps the handle of a listener.
    pub closed spec fn keeps_handle(&self) -> bool {
        self.handle is Some
    }

    /// A supervisor without a listener.
    pub fn new() -> (server: Self)
        ensures
            server.state() == ServerState::Stopped,
            server.generation() == 0,
            !server.keeps_handle(),
    {
        HttpServer { handle: None, state: ServerState::Stopped, generation: 0 }
    }

    /// Where the listener is in its life.
    pub fn current_state(&self) -> (state: ServerState)
        ensures
            state == self.state(),
    {
        self.state
    }

    /// Whether the supervisor keeps the handle of a listener.
    pub fn has_handle(&self) -> (kept: bool)
        ensures
            kept == self.keeps_handle(),
    {
        self.handle.is_some()
    }

    /// Stops the listener gracefully, if one is up, and returns whether one
    /// was. The handle that was kept is taken out and told to stop, without
    /// a time limit; afterwards no handle is kept. Without a listener
    /// nothing happens.
    pub fn shutdown(&mut self) -> (stopped: bool)
        ensures
            final(self).state() == ServerState::Stopped,
            final(self).generation() == old(self).generation(),
            !final(self).keeps_handle(),
            stopped == (old(self).state() != ServerState::Stopped),
    {
        let was_up = self.state != ServerState::Stopped;
        if was_up {
            self.state = ServerState::Stopping;
        }
        match self.handle.take() {
            Some(handle) => graceful_shutdown(&handle),
            None => {},
        }
        self.state = ServerState::Stopped;
        was_up
    }

    /// Starts a listener. A listener that is up is stopped first, as by
    /// `shutdown`; then a fresh handle is made, one copy of it is kept and
    /// the other handed out with what to launch: the protocol and the port
    /// that the latest document asks for. Without an initialized persistence
    /// layer the start is refused, and nothing changes.
    pub fn start_http_server(&mut self, pool_ready: bool, latest: &ISynclan) -> (launch: Result<
        Launch,
        StartError,
    >)
        ensures
            !pool_ready ==> launch == Err::<Launch, StartError>(StartError::PoolNotInitialized)
                && *final(self) == *old(self),
            pool_ready ==> {
                &&& launch matches Ok(l)
                &&& l.protocol == protocol_of(latest@)
                &&& l.port == port_of(latest@)
                &&& l.generation == next_generation(old(self).generation())
                &&& l.replaced == (old(self).state() != ServerState::Stopped)
                &&& final(self).state() == ServerState::Starting
                &&& final(self).generation() == next_generation(old(self).generation())
                &&& final(self).keeps_handle()
            },
    {
        if !pool_ready {
            return Err(StartError::PoolNotInitialized);
        }
        let replaced = self.shutdown();
        let (kept, handle) = handle_pair();
        self.handle = Some(kept);
        self.state = ServerState::Starting;
        self.generation = if self.generation == u64::MAX {
            1
        } else {
            self.generation + 1
        };
        let protocol = if latest.wants_tls() {
            Protocol::Tls
        } else {
            Protocol::Plain
        };
        let port = match latest.http_server_port {
            Some(port) => port,
            None => DEFAULT_HTTP_PORT,
        };
        Ok(Launch { handle, protocol, port, generation: self.generation, replaced })
    }

    /// Restarts the listener: the same as a start.
    pub fn restart_http_server(&mut self, pool_ready: bool, latest: &ISynclan) -> (launch: Result<
        Launch,
        StartError,
    >)
        ensures
            !pool_ready ==> launch == Err::<Launch, StartError>(StartError::PoolNotInitialized)
                && *final(self) == *old(self),
            pool_ready ==> {
                &&& launch matches Ok(l)
                &&& l.protocol == protocol_of(latest@)
                &&& l.port == port_of(latest@)
                &&& l.generation == next_generation(old(self).generation())
                &&& l.replaced == (old(self).state() != ServerState::Stopped)
                &&& final(self).state() == ServerState::Starting
                &&& final(self).generation() == next_generation(old(self).generation())
                &&& final(self).keeps_handle()
            },
    {
        self.start_http_server(pool_ready, latest)
    }

    /// Notes that the listener of launch `generation` accepts connections.
    /// A report about an earlier launch is ignored.
    pub fn listening(&mut self, generation: u64)
        ensures
            final(self).generation() == old(self).generation(),
            final(self).keeps_handle() == old(self).keeps_handle(),
            final(self).state() == if generation == old(self).generation() && old(self).state()
                == ServerState::Starting {
                ServerState::Running
            } else {
                old(self).state()
            },
    {
        if generation == self.generation && self.state == ServerState::Starting {
            self.state = ServerState::Running;
        }
    }

    /// Notes that the serve loop of launch `generation` is over, after a
    /// shutdown or because the address could not be bound. The listener is
    /// down; nothing is tried again. A report about an earlier launch is
    /// ignored.
    pub fn serve_ended(&mut self, generation: u64)
        ensures
            final(self).generation() == old(self).generation(),
            final(self).state() == if generation == old(self).generation() {
                ServerState::Stopped
            } else {
                old(self).state()
            },
            final(self).keeps_handle() == (generation != old(self).generation() && old(
                self,
            ).keeps_handle()),
    {
        if generation == self.generation {
            self.handle = None;
            self.state = ServerState::Stopped;
        }
    }
}

} // verus!
