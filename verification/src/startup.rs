//! The start-up sequence of the server, as a state machine.
//!
//! Before the server listens, the upload directory has to exist and the TLS
//! material has to be loaded. As with the upload pipeline, a driver does the
//! work and reports what happened; the machine decides what comes next.
//!
//! A driver starts by probing whether the upload directory exists. From then
//! on:
//!
//! | action      | the driver ...                                        | and reports                      |
//! |-------------|-------------------------------------------------------|----------------------------------|
//! | `CreateDir` | creates the directory and its missing parents         | `DirCreated` or `DirCreateFailed`|
//! | `LoadTls`   | loads the certificate and the private key             | `TlsLoaded` or `TlsLoadFailed`   |
//! | `Listen`    | binds the listener and serves until the process ends  | nothing                          |
//! | `Abort`     | ends the process without binding a listener           | nothing                          |
//!
//! Nothing is tried twice: a failure ends the start-up.

use crate::destination::DEFAULT_UPLOAD_DIR;
use vstd::prelude::*;
use vstd::string::*;

verus! {

/// The file that the TLS certificate is read from, in PEM format.
pub const CERT_FILE: &'static str = "cert.pem";

/// The file that the TLS private key is read from, in PEM format.
pub const KEY_FILE: &'static str = "key.pem";

/// The port that the server listens on.
pub const PORT: u16 = 5555;

/// What the server is set up with.
#[derive(Clone, Debug, PartialEq, Eq)]
pub struct ServerConfig {
    /// The directory that uploads are stored in.
    pub upload_dir: String,
    /// The file that holds the TLS certificate.
    pub cert_path: String,
    /// The file that holds the TLS private key.
    pub key_path: String,
    /// The IPv4 address that the listener binds to.
    pub bind_address: [u8; 4],
    /// The port that the listener binds to.
    pub port: u16,
    /// The largest request body that is accepted, in bytes; `None` for no
    /// limit.
    pub body_limit: Option<usize>,
}

/// Why the start-up was given up.
#[derive(Clone, Copy, Debug, PartialEq, Eq, Structural)]
pub enum AbortReason {
    /// The upload directory does not exist and could not be created.
    DirUnavailable,
    /// The certificate or the private key could not be loaded.
    TlsUnavailable,
}

/// Where the start-up stands.
#[derive(Clone, Copy, Debug, PartialEq, Eq, Structural)]
pub enum StartupPhase {
    /// Waiting to learn whether the upload directory exists.
    ProbingDir,
    /// Waiting for the upload directory to be created.
    CreatingDir,
    /// Waiting for the TLS material to be loaded.
    LoadingTls,
    /// The listener was asked for.
    Listening,
    /// The start-up was given up.
    Aborted { reason: AbortReason },
}

/// What the driver reports to the start-up machine.
#[derive(Clone, Copy, Debug, PartialEq, Eq, Structural)]
pub enum StartupEvent {
    /// The upload directory was probed.
    DirProbed { exists: bool },
    /// The upload directory was created.
    DirCreated,
    /// The upload directory could not be created.
    DirCreateFailed,
    /// The certificate and the private key were loaded.
    TlsLoaded,
    /// The certificate or the private key could not be loaded.
    TlsLoadFailed,
}

/// What the start-up machine asks the driver to do.
#[derive(Clone, Debug, PartialEq, Eq)]
pub enum StartupAction {
    /// Create the directory at `path`, and its parents where they are
    /// missing.
    CreateDir { path: String },
    /// Load the certificate at `cert_path` and the private key at
    /// `key_path`.
    LoadTls { cert_path: String, key_path: String },
    /// Bind a TLS listener to `address` and `port` and serve, accepting
    /// request bodies up to `body_limit`.
    Listen { address: [u8; 4], port: u16, body_limit: Option<usize> },
    /// End the process without binding a listener.
    Abort { reason: AbortReason },
}

/// Why the start-up machine refused an event.
#[derive(Clone, Copy, Debug, PartialEq, Eq, Structural)]
pub enum StartupError {
    /// The start-up is over; the machine takes no further event.
    Over,
    /// The event does not answer the action that the machine asked for.
    Unexpected,
}

/// The model of a [`ServerConfig`].
pub struct ServerConfigView {
    pub upload_dir: Seq<char>,
    pub cert_path: Seq<char>,
    pub key_path: Seq<char>,
    pub bind_address: Seq<u8>,
    pub port: u16,
    pub body_limit: Option<usize>,
}

/// The model of a [`StartupAction`].
pub enum StartupActionView {
    CreateDir { path: Seq<char> },
    LoadTls { cert_path: Seq<char>, key_path: Seq<char> },
    Listen { address: Seq<u8>, port: u16, body_limit: Option<usize> },
    Abort { reason: AbortReason },
}

/// The model of a [`Startup`]: the configuration and where the start-up
/// stands.
pub struct StartupView {
    pub config: ServerConfigView,
    pub phase: StartupPhase,
}

impl View for ServerConfig {
    type V = ServerConfigView;

    open spec fn view(&self) -> ServerConfigView {
        ServerConfigView {
            upload_dir: self.upload_dir@,
            cert_path: self.cert_path@,
            key_path: self.key_path@,
            bind_address: self.bind_address@,
            port: self.port,
            body_limit: self.body_limit,
        }
    }
}

impl View for StartupAction {
    type V = StartupActionView;

    open spec fn view(&self) -> StartupActionView {
        match *self {
            StartupAction::CreateDir { path } => StartupActionView::CreateDir { path: path@ },
            StartupAction::LoadTls { cert_path, key_path } => StartupActionView::LoadTls {
                cert_path: cert_path@,
                key_path: key_path@,
            },
            StartupAction::Listen { address, port, body_limit } => StartupActionView::Listen {
                address: address@,
                port,
                body_limit,
            },
            StartupAction::Abort { reason } => StartupActionView::Abort { reason },
        }
    }
}

impl ServerConfigView {
    /// The configuration that the server runs with unless told otherwise:
    /// uploads go to `./uploads`, the TLS material is read from `cert.pem`
    /// and `key.pem`, the listener binds to port 5555 on all interfaces, and
    /// request bodies are not limited in size.
    pub open spec fn standard() -> ServerConfigView {
        ServerConfigView {
            upload_dir: DEFAULT_UPLOAD_DIR@,
            cert_path: CERT_FILE@,
            key_path: KEY_FILE@,
            bind_address: seq![0u8, 0u8, 0u8, 0u8],
            port: PORT,
            body_limit: None,
        }
    }
}

impl StartupView {
    /// The start-up before anything was reported.
    pub open spec fn initial(config: ServerConfigView) -> StartupView {
        StartupView { config, phase: StartupPhase::ProbingDir }
    }

    /// The start-up in another phase.
    pub open spec fn moved_to(self, phase: StartupPhase) -> StartupView {
        StartupView { config: self.config, phase }
    }

    /// The move to loading the TLS material.
    pub open spec fn load_tls(self) -> (StartupView, StartupActionView) {
        (
            self.moved_to(StartupPhase::LoadingTls),
            StartupActionView::LoadTls {
                cert_path: self.config.cert_path,
                key_path: self.config.key_path,
            },
        )
    }

    /// The end of the start-up for `reason`.
    pub open spec fn abort(self, reason: AbortReason) -> (StartupView, StartupActionView) {
        (self.moved_to(StartupPhase::Aborted { reason }), StartupActionView::Abort { reason })
    }

    /// What the machine does on `event`: the state it goes to and the action
    /// it asks for, or `None` where it refuses the event.
    pub open spec fn transition(self, event: StartupEvent) -> Option<
        (StartupView, StartupActionView),
    > {
        match self.phase {
            StartupPhase::ProbingDir => match event {
                StartupEvent::DirProbed { exists } => if exists {
                    Some(self.load_tls())
                } else {
                    Some(
                        (
                            self.moved_to(StartupPhase::CreatingDir),
                            StartupActionView::CreateDir { path: self.config.upload_dir },
                        ),
                    )
                },
                _ => None,
            },
            StartupPhase::CreatingDir => match event {
                StartupEvent::DirCreated => Some(self.load_tls()),
                StartupEvent::DirCreateFailed => Some(self.abort(AbortReason::DirUnavailable)),
                _ => None,
            },
            StartupPhase::LoadingTls => match event {
                StartupEvent::TlsLoaded => Some(
                    (
                        self.moved_to(StartupPhase::Listening),
                        StartupActionView::Listen {
                            address: self.config.bind_address,
                            port: self.config.port,
                            body_limit: self.config.body_limit,
                        },
                    ),
                ),
                StartupEvent::TlsLoadFailed => Some(self.abort(AbortReason::TlsUnavailable)),
                _ => None,
            },
            StartupPhase::Listening => None,
            StartupPhase::Aborted { .. } => None,
        }
    }

    /// Whether the start-up is over.
    pub open spec fn is_over(self) -> bool {
        self.phase is Listening || self.phase is Aborted
    }
}

impl Default for ServerConfig {
    /// The standard configuration.
    fn default() -> (config: ServerConfig)
        ensures
            config@ == ServerConfigView::standard(),
    {
        ServerConfig {
            upload_dir: String::from_str(DEFAULT_UPLOAD_DIR),
            cert_path: String::from_str(CERT_FILE),
            key_path: String::from_str(KEY_FILE),
            bind_address: [0, 0, 0, 0],
            port: PORT,
            body_limit: None,
        }
    }
}

/// The start-up of the server.
pub struct Startup {
    config: ServerConfig,
    phase: StartupPhase,
}

impl View for Startup {
    type V = StartupView;

    closed spec fn view(&self) -> StartupView {
        StartupView { config: self.config@, phase: self.phase }
    }
}

impl Startup {
    /// The start-up of a server set up with `config`.
    pub fn new(config: ServerConfig) -> (startup: Startup)
        ensures
            startup@ == StartupView::initial(config@),
    {
        Startup { config, phase: StartupPhase::ProbingDir }
    }

    /// What the server is set up with.
    pub fn config(&self) -> (config: &ServerConfig)
        ensures
            config@ == self@.config,
    {
        &self.config
    }

    /// Where the start-up stands.
    pub fn phase(&self) -> (phase: StartupPhase)
        ensures
            phase == self@.phase,
    {
        self.phase
    }

    /// Whether the start-up is over: the listener was asked for or the
    /// start-up was given up.
    pub fn is_over(&self) -> (b: bool)
        ensures
            b == self@.is_over(),
    {
        match self.phase {
            StartupPhase::Listening => true,
            StartupPhase::Aborted { .. } => true,
            _ => false,
        }
    }

    /// Whether the machine takes `event` in the state it is in.
    pub fn expects(&self, event: StartupEvent) -> (b: bool)
        ensures
            b == (self@.transition(event) is Some),
    {
        match self.phase {
            StartupPhase::ProbingDir => match event {
                StartupEvent::DirProbed { .. } => true,
                _ => false,
            },
            StartupPhase::CreatingDir => match event {
                StartupEvent::DirCreated => true,
                StartupEvent::DirCreateFailed => true,
                _ => false,
            },
            StartupPhase::LoadingTls => match event {
                StartupEvent::TlsLoaded => true,
                StartupEvent::TlsLoadFailed => true,
                _ => false,
            },
            StartupPhase::Listening => false,
            StartupPhase::Aborted { .. } => false,
        }
    }

    /// Moves on to loading the TLS material.
    fn begin_tls(&mut self) -> (action: StartupAction)
        ensures
            (final(self)@, action@) == old(self)@.load_tls(),
    {
        self.phase = StartupPhase::LoadingTls;
        StartupAction::LoadTls {
            cert_path: self.config.cert_path.clone(),
            key_path: self.config.key_path.clone(),
        }
    }

    /// Gives the start-up up.
    fn give_up(&mut self, reason: AbortReason) -> (action: StartupAction)
        ensures
            (final(self)@, action@) == old(self)@.abort(reason),
    {
        self.phase = StartupPhase::Aborted { reason };
        StartupAction::Abort { reason }
    }

    /// The error with which an event is refused in the state the machine is
    /// in.
    fn refusal(&self) -> (error: StartupError)
        ensures
            error == StartupError::Over <==> self@.is_over(),
    {
        if self.is_over() {
            StartupError::Over
        } else {
            StartupError::Unexpected
        }
    }

    /// Takes what the driver reports and says what to do next.
    ///
    /// The machine takes an event only if it answers the action asked for
    /// last. It then moves as [`StartupView::transition`] says: the upload
    /// directory is created if it does not exist, the TLS material is loaded
    /// once the directory is there, and the listener is asked for once the
    /// TLS material is loaded. A failure ends the start-up with `Abort`. Any
    /// other event is refused and leaves the machine as it was: with
    /// `StartupError::Over` once the start-up is over, with
    /// `StartupError::Unexpected` before.
    pub fn step(&mut self, event: StartupEvent) -> (result: Result<StartupAction, StartupError>)
        ensures
            match result {
                Ok(action) => old(self)@.transition(event) == Some((final(self)@, action@)),
                Err(error) => {
                    &&& old(self)@.transition(event) is None
                    &&& final(self)@ == old(self)@
                    &&& error == StartupError::Over <==> old(self)@.is_over()
                },
            },
    {
        match (self.phase, event) {
            (StartupPhase::ProbingDir, StartupEvent::DirProbed { exists }) => {
                if exists {
                    Ok(self.begin_tls())
                } else {
                    self.phase = StartupPhase::CreatingDir;
                    Ok(StartupAction::CreateDir { path: self.config.upload_dir.clone() })
                }
            },
            (StartupPhase::CreatingDir, StartupEvent::DirCreated) => Ok(self.begin_tls()),
            (StartupPhase::CreatingDir, StartupEvent::DirCreateFailed) => Ok(
                self.give_up(AbortReason::DirUnavailable),
            ),
            (StartupPhase::LoadingTls, StartupEvent::TlsLoaded) => {
                self.phase = StartupPhase::Listening;
                Ok(
                    StartupAction::Listen {
                        address: self.config.bind_address,
                        port: self.config.port,
                        body_limit: self.config.body_limit,
                    },
                )
            },
            (StartupPhase::LoadingTls, StartupEvent::TlsLoadFailed) => Ok(
                self.give_up(AbortReason::TlsUnavailable),
            ),
            _ => Err(self.refusal()),
        }
    }
}

/// The start-up machine together with what is known of the world around it
/// and a log of the actions that the machine asked for.
pub struct StartupWorld {
    /// The machine.
    pub startup: StartupView,
    /// Whether the upload directory is known to exist.
    pub dir_exists: bool,
    /// Whether the TLS material was loaded.
    pub tls_loaded: bool,
    /// The actions that the machine asked for, oldest first.
    pub log: Seq<StartupActionView>,
}

impl StartupWorld {
    /// The process starts: nothing is known of the upload directory, nothing
    /// was loaded and nothing was asked for.
    pub open spec fn start(config: ServerConfigView) -> StartupWorld {
        StartupWorld {
            startup: StartupView::initial(config),
            dir_exists: false,
            tls_loaded: false,
            log: Seq::empty(),
        }
    }

    /// The world after `event` was delivered. An event that the machine
    /// refuses changes nothing. The directory is known to exist once it was
    /// found or created, and the TLS material is loaded once that was
    /// reported.
    pub open spec fn deliver(self, event: StartupEvent) -> StartupWorld {
        match self.startup.transition(event) {
            Some((next, action)) => StartupWorld {
                startup: next,
                dir_exists: self.dir_exists || event == (StartupEvent::DirProbed { exists: true })
                    || event == StartupEvent::DirCreated,
                tls_loaded: self.tls_loaded || event == StartupEvent::TlsLoaded,
                log: self.log.push(action),
            },
            None => self,
        }
    }

    /// The world after each of `events` was delivered, in order.
    pub open spec fn deliver_all(self, events: Seq<StartupEvent>) -> StartupWorld
        decreases events.len(),
    {
        if events.len() == 0 {
            self
        } else {
            self.deliver(events.first()).deliver_all(events.drop_first())
        }
    }

    /// Whether the machine asked for the listener.
    pub open spec fn listens(self) -> bool {
        exists|i: int| 0 <= i < self.log.len() && #[trigger] self.log[i] is Listen
    }

    /// What holds of every world that a start-up can reach: the listener was
    /// asked for exactly if the machine is in the phase `Listening`, and then
    /// the directory is known to exist and the TLS material is loaded; the
    /// TLS material is loaded only once the directory is known to exist; and
    /// a start-up that was given up has not got what it was given up for.
    pub open spec fn sound(self) -> bool {
        &&& self.listens() <==> self.startup.phase is Listening
        &&& self.startup.phase is Listening ==> self.dir_exists && self.tls_loaded
        &&& self.startup.phase is LoadingTls ==> self.dir_exists && !self.tls_loaded
        &&& self.startup.phase is CreatingDir || self.startup.phase is ProbingDir
            ==> !self.dir_exists && !self.tls_loaded
        &&& self.startup.phase == (StartupPhase::Aborted { reason: AbortReason::DirUnavailable })
            ==> !self.dir_exists && !self.tls_loaded
        &&& self.startup.phase == (StartupPhase::Aborted { reason: AbortReason::TlsUnavailable })
            ==> self.dir_exists && !self.tls_loaded
    }
}

/// Delivering an event keeps a sound world sound.
pub proof fn lemma_startup_event_keeps_sound(w: StartupWorld, event: StartupEvent)
    requires
        w.sound(),
    ensures
        w.deliver(event).sound(),
{
    if let Some((_, action)) = w.startup.transition(event) {
        assert(w.deliver(event).log.last() == action);
    }
}

/// Every world that a start-up reaches is sound.
pub proof fn lemma_startup_stays_sound(w: StartupWorld, events: Seq<StartupEvent>)
    requires
        w.sound(),
    ensures
        w.deliver_all(events).sound(),
    decreases events.len(),
{
    if events.len() > 0 {
        lemma_startup_event_keeps_sound(w, events.first());
        lemma_startup_stays_sound(w.deliver(events.first()), events.drop_first());
    }
}

/// Once the start-up is over, nothing that is reported changes anything.
pub proof fn lemma_over_is_final(w: StartupWorld, events: Seq<StartupEvent>)
    requires
        w.startup.is_over(),
    ensures
        w.deliver_all(events) == w,
    decreases events.len(),
{
    if events.len() > 0 {
        lemma_over_is_final(w, events.drop_first());
    }
}

/// Delivering one sequence of events after another is delivering both as
/// one.
pub proof fn lemma_startup_deliver_all_concat(
    w: StartupWorld,
    a: Seq<StartupEvent>,
    b: Seq<StartupEvent>,
)
    ensures
        w.deliver_all(a + b) == w.deliver_all(a).deliver_all(b),
    decreases a.len(),
{
    if a.len() > 0 {
        assert((a + b).drop_first() == a.drop_first() + b);
        lemma_startup_deliver_all_concat(w.deliver(a.first()), a.drop_first(), b);
    }
}

/// The server listens only when it is ready: whatever is reported to the
/// start-up, if the listener was asked for, the upload directory is known to
/// exist and the TLS material is loaded.
pub proof fn lemma_listens_only_when_ready(config: ServerConfigView, events: Seq<StartupEvent>)
    ensures
        ({
            let end = StartupWorld::start(config).deliver_all(events);
            end.listens() ==> end.dir_exists && end.tls_loaded
        }),
{
    let w0 = StartupWorld::start(config);
    lemma_startup_stays_sound(w0, events);
}

/// If the upload directory cannot be created, the server never listens:
/// when, at any point of the start-up, the failure to create the directory
/// is reported in answer to `CreateDir`, the start-up ends there with
/// `Abort`, and the listener is asked for neither before nor after, whatever
/// else is reported.
pub proof fn lemma_no_listener_without_directory(
    config: ServerConfigView,
    before: Seq<StartupEvent>,
    after: Seq<StartupEvent>,
)
    requires
        StartupWorld::start(config).deliver_all(before).startup.phase == StartupPhase::CreatingDir,
    ensures
        ({
            let events = before.push(StartupEvent::DirCreateFailed) + after;
            let end = StartupWorld::start(config).deliver_all(events);
            &&& !end.listens()
            &&& !end.dir_exists
            &&& end.startup.phase == (StartupPhase::Aborted {
                reason: AbortReason::DirUnavailable,
            })
            &&& end.log.last() == (StartupActionView::Abort {
                reason: AbortReason::DirUnavailable,
            })
        }),
{
    let w0 = StartupWorld::start(config);
    let w1 = w0.deliver_all(before);
    lemma_startup_stays_sound(w0, before);
    let failed = seq![StartupEvent::DirCreateFailed];
    let w2 = w1.deliver(StartupEvent::DirCreateFailed);
    assert(w1.deliver_all(failed) == w2) by {
        reveal_with_fuel(StartupWorld::deliver_all, 2);
    }
    lemma_startup_event_keeps_sound(w1, StartupEvent::DirCreateFailed);
    lemma_over_is_final(w2, after);
    assert(before.push(StartupEvent::DirCreateFailed) == before + failed);
    lemma_startup_deliver_all_concat(w0, before, failed);
    lemma_startup_deliver_all_concat(w0, before + failed, after);
}

/// If the TLS material cannot be loaded, the server never listens: when, at
/// any point of the start-up, the failure to load it is reported in answer
/// to `LoadTls`, the start-up ends there with `Abort`, and the listener is
/// asked for neither before nor after, whatever else is reported.
pub proof fn lemma_no_listener_without_tls(
    config: ServerConfigView,
    before: Seq<StartupEvent>,
    after: Seq<StartupEvent>,
)
    requires
        StartupWorld::start(config).deliver_all(before).startup.phase == StartupPhase::LoadingTls,
    ensures
        ({
            let events = before.push(StartupEvent::TlsLoadFailed) + after;
            let end = StartupWorld::start(config).deliver_all(events);
            &&& !end.listens()
            &&& !end.tls_loaded
            &&& end.startup.phase == (StartupPhase::Aborted {
                reason: AbortReason::TlsUnavailable,
            })
            &&& end.log.last() == (StartupActionView::Abort {
                reason: AbortReason::TlsUnavailable,
            })
        }),
{
    let w0 = StartupWorld::start(config);
    let w1 = w0.deliver_all(before);
    lemma_startup_stays_sound(w0, before);
    let failed = seq![StartupEvent::TlsLoadFailed];
    let w2 = w1.deliver(StartupEvent::TlsLoadFailed);
    assert(w1.deliver_all(failed) == w2) by {
        reveal_with_fuel(StartupWorld::deliver_all, 2);
    }
    lemma_startup_event_keeps_sound(w1, StartupEvent::TlsLoadFailed);
    lemma_over_is_final(w2, after);
    assert(before.push(StartupEvent::TlsLoadFailed) == before + failed);
    lemma_startup_deliver_all_concat(w0, before, failed);
    lemma_startup_deliver_all_concat(w0, before + failed, after);
}

} // verus!
