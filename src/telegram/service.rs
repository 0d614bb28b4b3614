//! The router between the bot, the reading connection and the application
//! layer, and the lifecycle of the service that owns the connections.

use vstd::prelude::*;
use crate::telegram::bot::{BotRequests, BotResponses};

verus! {

/// What the platform side asks of the application layer.
#[derive(Debug, Clone, PartialEq, Eq)]
pub enum ServiceRequests {
    Bot(BotRequests),
}

/// What the application layer sends back to the platform side.
#[derive(Debug, Clone, PartialEq, Eq)]
pub enum ServiceResponses {
    Bot(BotResponses),
}

/// A task that the router supervises.
#[derive(Debug, Clone, Copy, PartialEq, Eq)]
pub enum Task {
    Worker,
    Bot,
    Reader,
}

/// One thing that the router's loop receives.
#[derive(Debug, Clone, PartialEq, Eq)]
pub enum RouterEvent {
    FromApp(ServiceResponses),
    FromBot(BotRequests),
    Exited(Task),
}

/// What the router does about it.
#[derive(Debug, Clone, PartialEq, Eq)]
pub enum RouterAction {
    /// Hand a response to the bot.
    ToBot(BotResponses),
    /// Hand a request to the application layer.
    ToApp(ServiceRequests),
    /// Report that a task has ended; routing goes on without it.
    Report(Task),
}

/// The router's own state: which supervised tasks are still running.
#[derive(Debug, Clone, PartialEq, Eq)]
pub struct Router {
    worker: bool,
    bot: bool,
    reader: bool,
}

impl Router {
    /// The task is still running, so the router still waits for it to end.
    pub closed spec fn spec_is_live(&self, t: Task) -> bool {
        match t {
            Task::Worker => self.worker,
            Task::Bot => self.bot,
            Task::Reader => self.reader,
        }
    }

    /// A router whose three tasks all run.
    pub fn new() -> (r: Router)
        ensures
            r.spec_is_live(Task::Worker),
            r.spec_is_live(Task::Bot),
            r.spec_is_live(Task::Reader),
    {
        Router { worker: true, bot: true, reader: true }
    }

    pub fn is_live(&self, t: Task) -> (r: bool)
        ensures
            r == self.spec_is_live(t),
    {
        match t {
            Task::Worker => self.worker,
            Task::Bot => self.bot,
            Task::Reader => self.reader,
        }
    }

    /// Routes one event by its kind alone; payloads pass through untouched.
    /// Forwarding does not depend on which tasks have ended: it goes on in
    /// both directions after any of them exits. An exit is reported and the
    /// task is no longer waited for.
    pub fn route(&mut self, event: RouterEvent) -> (r: RouterAction)
        ensures
            match event {
                RouterEvent::FromApp(ServiceResponses::Bot(resp)) => r == RouterAction::ToBot(resp)
                    && *final(self) == *old(self),
                RouterEvent::FromBot(req) => r == RouterAction::ToApp(ServiceRequests::Bot(req))
                    && *final(self) == *old(self),
                RouterEvent::Exited(t) => {
                    &&& r == RouterAction::Report(t)
                    &&& !(final(self).spec_is_live(t))
                    &&& forall|u: Task|
                        u != t ==> #[trigger] final(self).spec_is_live(u) == old(self).spec_is_live(
                            u,
                        )
                },
            },
    {
        match event {
            RouterEvent::FromApp(ServiceResponses::Bot(resp)) => RouterAction::ToBot(resp),
            RouterEvent::FromBot(req) => RouterAction::ToApp(ServiceRequests::Bot(req)),
            RouterEvent::Exited(t) => {
                match t {
                    Task::Worker => self.worker = false,
                    Task::Bot => self.bot = false,
                    Task::Reader => self.reader = false,
                }
                RouterAction::Report(t)
            },
        }
    }
}

/// Why the service could not start.
#[derive(Debug, Clone, PartialEq, Eq)]
pub enum ServiceError {
    /// `start` was called on a service that is not new.
    AlreadyStarted,
    /// A connection was closed before it was authorised.
    ClientClosed,
    /// The platform refused to authorise a connection.
    AuthorizationFailed(String),
}

impl ServiceError {
    /// A sentence for the operator.
    pub fn message(&self) -> (r: String)
        ensures
            match self {
                ServiceError::AlreadyStarted => r@ == "service already started"@,
                ServiceError::ClientClosed => r@ == "client closed, need to reauthorize it"@,
                ServiceError::AuthorizationFailed(m) => r@ == "authorization failed: "@ + m@,
            },
    {
        match self {
            ServiceError::AlreadyStarted => String::from_str("service already started"),
            ServiceError::ClientClosed => String::from_str(
                "client closed, need to reauthorize it",
            ),
            ServiceError::AuthorizationFailed(m) => {
                let mut s = String::from_str("authorization failed: ");
                s.append(m.as_str());
                s
            },
        }
    }
}

/// Where the service is in its life.
#[derive(Debug, Clone, Copy, PartialEq, Eq)]
pub enum ServiceState {
    NotStarted,
    Starting,
    Running,
    Stopped,
}

/// The one holder of the service's state: it starts once, from new.
#[derive(Debug)]
pub struct ServiceLifecycle {
    state: ServiceState,
}

impl ServiceLifecycle {
    pub closed spec fn spec_state(&self) -> ServiceState {
        self.state
    }

    pub fn new() -> (r: ServiceLifecycle)
        ensures
            r.spec_state() == ServiceState::NotStarted,
    {
        ServiceLifecycle { state: ServiceState::NotStarted }
    }

    pub fn state(&self) -> (r: ServiceState)
        ensures
            r == self.spec_state(),
    {
        self.state
    }

    /// Claims the start: only a new service may start.
    pub fn begin_start(&mut self) -> (r: Result<(), ServiceError>)
        ensures
            old(self).spec_state() == ServiceState::NotStarted ==> r is Ok
                && final(self).spec_state() == ServiceState::Starting,
            old(self).spec_state() != ServiceState::NotStarted ==> r == Err::<(), ServiceError>(
                ServiceError::AlreadyStarted,
            ) && final(self).spec_state() == old(self).spec_state(),
    {
        match self.state {
            ServiceState::NotStarted => {
                self.state = ServiceState::Starting;
                Ok(())
            },
            _ => Err(ServiceError::AlreadyStarted),
        }
    }

    /// Ends a start: running if both connections came up, else new again.
    pub fn finish_start(&mut self, connected: bool)
        requires
            old(self).spec_state() == ServiceState::Starting,
        ensures
            final(self).spec_state() == if connected {
                ServiceState::Running
            } else {
                ServiceState::NotStarted
            },
    {
        self.state = if connected {
            ServiceState::Running
        } else {
            ServiceState::NotStarted
        };
    }

    /// Stops a running service; true when there was one to stop.
    pub fn stop(&mut self) -> (r: bool)
        ensures
            r == (old(self).spec_state() == ServiceState::Running),
            final(self).spec_state() == if r {
                ServiceState::Stopped
            } else {
                old(self).spec_state()
            },
    {
        match self.state {
            ServiceState::Running => {
                self.state = ServiceState::Stopped;
                true
            },
            _ => false,
        }
    }
}

/// The authorisation state that a connection reports.
#[derive(Debug, Clone, Copy, PartialEq, Eq)]
pub enum ClientState {
    Opened,
    Authorizing,
    Closed,
}

/// What bring-up does after one report of a connection's state.
#[derive(Debug, Clone, PartialEq, Eq)]
pub enum AuthProgress {
    /// Authorised: the connection can be used.
    Ready,
    /// Not yet: wait for the next report.
    Waiting,
    /// Fatal to the start.
    Failed(ServiceError),
}

/// Decides on one report of a connection's state, or on the error that came
/// in its place.
pub fn auth_step(report: Result<ClientState, String>) -> (r: AuthProgress)
    ensures
        match report {
            Ok(ClientState::Opened) => r == AuthProgress::Ready,
            Ok(ClientState::Authorizing) => r == AuthProgress::Waiting,
            Ok(ClientState::Closed) => r == AuthProgress::Failed(ServiceError::ClientClosed),
            Err(m) => r == AuthProgress::Failed(ServiceError::AuthorizationFailed(m)),
        },
{
    match report {
        Ok(ClientState::Opened) => AuthProgress::Ready,
        Ok(ClientState::Authorizing) => AuthProgress::Waiting,
        Ok(ClientState::Closed) => AuthProgress::Failed(ServiceError::ClientClosed),
        Err(m) => AuthProgress::Failed(ServiceError::AuthorizationFailed(m)),
    }
}

/// Which of the two connections.
#[derive(Debug, Clone, Copy, PartialEq, Eq)]
pub enum ClientKind {
    /// The bot's connection, authorised by a token.
    Bot,
    /// The reading connection, authorised by a phone number.
    User,
}

/// The working directory of a connection's local database.
pub fn database_directory(kind: ClientKind) -> (r: String)
    ensures
        kind == ClientKind::Bot ==> r@ == "bot"@,
        kind == ClientKind::User ==> r@ == "user"@,
{
    match kind {
        ClientKind::Bot => String::from_str("bot"),
        ClientKind::User => String::from_str("user"),
    }
}

} // verus!
