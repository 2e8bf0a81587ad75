use vstd::prelude::*;

verus! {

/// The lifecycle state a session shows to its users.
#[derive(Clone, Copy, Debug, PartialEq, Eq, Structural)]
pub enum SessionState {
    Idle,
    Active,
    Stopped,
}

/// Failures a session reports to the caller of the operation that met them.
#[derive(Clone, Copy, Debug, PartialEq, Eq, Structural)]
pub enum SessionError {
    /// The terminal's attributes could not be read (not a terminal, or the query failed).
    AttributeRead,
    /// Raw mode could not be installed, or the saved attributes could not be put back.
    AttributeWrite,
    /// The pseudoterminal could not be allocated or the shell could not be executed.
    Spawn,
    /// Reading the pseudoterminal failed otherwise than by end-of-file.
    RelayRead,
    /// An operation needed the pseudoterminal, and no open handle exists.
    ClosedHandle,
    /// Input was sent to a session whose shell has gone.
    SessionClosed,
    /// A start was asked of a session that has already left `Idle`.
    AlreadyStarted,
}

/// Where a session stands. The three start-up phases all show as `Idle`:
/// a session becomes `Active` only once the whole start sequence succeeded.
#[derive(Clone, Copy, Debug, PartialEq, Eq, Structural)]
pub enum Phase {
    Idle,
    /// Waiting for the terminal's attributes.
    Capturing,
    /// Attributes saved; waiting for raw mode to be installed.
    Installing,
    /// Raw mode installed; waiting for the shell to be spawned.
    Spawning,
    Active,
    Stopped,
}

/// What the embedding program reports to a session: a request of its user,
/// or the outcome of an action the session asked for.
#[derive(Debug)]
pub enum Event<A> {
    /// Begin the start sequence.
    Start,
    /// The terminal's attributes, read before anything was changed.
    Captured(A),
    CaptureFailed,
    RawInstalled,
    RawInstallFailed,
    Spawned,
    SpawnFailed,
    /// Bytes the user wants forwarded to the shell.
    Send(Vec<u8>),
    /// Writing to the pseudoterminal failed (the shell has gone).
    WriteFailed,
    /// Bytes the relay read from the pseudoterminal.
    Output(Vec<u8>),
    /// The relay read end-of-file: the shell has exited.
    Eof,
    /// The relay's read failed.
    ReadFailed,
    /// End the session.
    Stop,
    /// A step of the shutdown sequence failed; it is recorded as a warning.
    TeardownFailed(SessionError),
}

/// What a session asks the embedding program to do, in order.
#[derive(Debug)]
pub enum Action<A> {
    CaptureAttributes,
    InstallRaw,
    SpawnShell(String),
    StartRelay,
    Write(Vec<u8>),
    /// Hand bytes of shell output to the consumer.
    Deliver(Vec<u8>),
    ReleaseMaster,
    JoinRelay,
    RestoreAttributes(A),
    ReapChild,
    NotifyEnded,
}

/// Mathematical counterpart of `Event`.
pub ghost enum EventView<A> {
    Start,
    Captured(A),
    CaptureFailed,
    RawInstalled,
    RawInstallFailed,
    Spawned,
    SpawnFailed,
    Send(Seq<u8>),
    WriteFailed,
    Output(Seq<u8>),
    Eof,
    ReadFailed,
    Stop,
    TeardownFailed(SessionError),
}

/// Mathematical counterpart of `Action`.
pub ghost enum ActionView<A> {
    CaptureAttributes,
    InstallRaw,
    SpawnShell(Seq<char>),
    StartRelay,
    Write(Seq<u8>),
    Deliver(Seq<u8>),
    ReleaseMaster,
    JoinRelay,
    RestoreAttributes(A),
    ReapChild,
    NotifyEnded,
}

impl<A> View for Event<A> {
    type V = EventView<A>;

    open spec fn view(&self) -> EventView<A> {
        match self {
            Event::Start => EventView::Start,
            Event::Captured(a) => EventView::Captured(*a),
            Event::CaptureFailed => EventView::CaptureFailed,
            Event::RawInstalled => EventView::RawInstalled,
            Event::RawInstallFailed => EventView::RawInstallFailed,
            Event::Spawned => EventView::Spawned,
            Event::SpawnFailed => EventView::SpawnFailed,
            Event::Send(b) => EventView::Send(b@),
            Event::WriteFailed => EventView::WriteFailed,
            Event::Output(b) => EventView::Output(b@),
            Event::Eof => EventView::Eof,
            Event::ReadFailed => EventView::ReadFailed,
            Event::Stop => EventView::Stop,
            Event::TeardownFailed(e) => EventView::TeardownFailed(*e),
        }
    }
}

impl<A> View for Action<A> {
    type V = ActionView<A>;

    open spec fn view(&self) -> ActionView<A> {
        match self {
            Action::CaptureAttributes => ActionView::CaptureAttributes,
            Action::InstallRaw => ActionView::InstallRaw,
            Action::SpawnShell(s) => ActionView::SpawnShell(s@),
            Action::StartRelay => ActionView::StartRelay,
            Action::Write(b) => ActionView::Write(b@),
            Action::Deliver(b) => ActionView::Deliver(b@),
            Action::ReleaseMaster => ActionView::ReleaseMaster,
            Action::JoinRelay => ActionView::JoinRelay,
            Action::RestoreAttributes(a) => ActionView::RestoreAttributes(*a),
            Action::ReapChild => ActionView::ReapChild,
            Action::NotifyEnded => ActionView::NotifyEnded,
        }
    }
}

/// The views of a list of actions, in order.
pub open spec fn actions_view<A>(v: Seq<Action<A>>) -> Seq<ActionView<A>> {
    v.map_values(|a: Action<A>| a@)
}

/// Mathematical model of a session.
pub ghost struct SessionView<A> {
    pub phase: Phase,
    /// The terminal's attributes as they were before raw mode, while raw mode is held.
    pub saved: Option<A>,
    /// The shell the session spawns.
    pub shell: Seq<char>,
    /// Every byte forwarded to the shell, in order.
    pub sent: Seq<u8>,
    /// Every byte of shell output handed to the consumer, in order.
    pub delivered: Seq<u8>,
    pub last_error: Option<SessionError>,
    /// Failures met while shutting down, in order.
    pub warnings: Seq<SessionError>,
}

impl<A> SessionView<A> {
    pub open spec fn state(self) -> SessionState {
        match self.phase {
            Phase::Active => SessionState::Active,
            Phase::Stopped => SessionState::Stopped,
            _ => SessionState::Idle,
        }
    }

    /// Attributes are held exactly while raw mode is (being) installed.
    pub open spec fn wf(self) -> bool {
        self.saved is Some <==> (self.phase == Phase::Installing || self.phase == Phase::Spawning
            || self.phase == Phase::Active)
    }

    pub open spec fn with_phase(self, p: Phase) -> SessionView<A> {
        SessionView { phase: p, ..self }
    }

    /// The session after an operation failed with `e` and raw mode was given up.
    pub open spec fn failed(self, p: Phase, e: SessionError) -> SessionView<A> {
        SessionView { phase: p, saved: None, last_error: Some(e), ..self }
    }
}

/// A fresh session that will spawn `shell`.
pub open spec fn initial<A>(shell: Seq<char>) -> SessionView<A> {
    SessionView {
        phase: Phase::Idle,
        saved: None,
        shell,
        sent: Seq::empty(),
        delivered: Seq::empty(),
        last_error: None,
        warnings: Seq::empty(),
    }
}

/// Putting the saved attributes back, if any are held.
pub open spec fn restore_actions<A>(saved: Option<A>) -> Seq<ActionView<A>> {
    match saved {
        Some(a) => seq![ActionView::RestoreAttributes(a)],
        None => Seq::empty(),
    }
}

/// The shutdown sequence of an active session: release the master side (which
/// ends the relay's pending read), join the relay, put the terminal back,
/// reap the shell, and tell the consumer that the session has ended.
pub open spec fn teardown<A>(saved: Option<A>) -> Seq<ActionView<A>> {
    seq![ActionView::ReleaseMaster, ActionView::JoinRelay] + restore_actions(saved) + seq![
        ActionView::ReapChild,
        ActionView::NotifyEnded,
    ]
}

/// The effect of one event: the next session, the actions to perform in
/// order, and the error reported to the caller.
pub open spec fn step<A>(s: SessionView<A>, e: EventView<A>) -> (
    SessionView<A>,
    Seq<ActionView<A>>,
    Option<SessionError>,
) {
    match (s.phase, e) {
        (Phase::Idle, EventView::Start) => (
            s.with_phase(Phase::Capturing),
            seq![ActionView::CaptureAttributes],
            None,
        ),
        (_, EventView::Start) => (
            SessionView { last_error: Some(SessionError::AlreadyStarted), ..s },
            Seq::empty(),
            Some(SessionError::AlreadyStarted),
        ),
        (Phase::Capturing, EventView::Captured(a)) => (
            SessionView { phase: Phase::Installing, saved: Some(a), ..s },
            seq![ActionView::InstallRaw],
            None,
        ),
        (Phase::Capturing, EventView::CaptureFailed) => (
            s.failed(Phase::Idle, SessionError::AttributeRead),
            Seq::empty(),
            Some(SessionError::AttributeRead),
        ),
        (Phase::Installing, EventView::RawInstalled) => (
            s.with_phase(Phase::Spawning),
            seq![ActionView::SpawnShell(s.shell)],
            None,
        ),
        (Phase::Installing, EventView::RawInstallFailed) => (
            s.failed(Phase::Idle, SessionError::AttributeWrite),
            restore_actions(s.saved),
            Some(SessionError::AttributeWrite),
        ),
        (Phase::Spawning, EventView::Spawned) => (
            s.with_phase(Phase::Active),
            seq![ActionView::StartRelay],
            None,
        ),
        (Phase::Spawning, EventView::SpawnFailed) => (
            s.failed(Phase::Idle, SessionError::Spawn),
            restore_actions(s.saved),
            Some(SessionError::Spawn),
        ),
        (Phase::Active, EventView::Send(b)) => (
            SessionView { sent: s.sent + b, ..s },
            seq![ActionView::Write(b)],
            None,
        ),
        (Phase::Stopped, EventView::Send(_)) => (
            SessionView { last_error: Some(SessionError::SessionClosed), ..s },
            Seq::empty(),
            Some(SessionError::SessionClosed),
        ),
        (_, EventView::Send(_)) => (
            SessionView { last_error: Some(SessionError::ClosedHandle), ..s },
            Seq::empty(),
            Some(SessionError::ClosedHandle),
        ),
        (Phase::Active, EventView::WriteFailed) => (
            s.failed(Phase::Stopped, SessionError::SessionClosed),
            teardown(s.saved),
            Some(SessionError::SessionClosed),
        ),
        (Phase::Active, EventView::Output(b)) => (
            SessionView { delivered: s.delivered + b, ..s },
            seq![ActionView::Deliver(b)],
            None,
        ),
        (Phase::Active, EventView::Eof) => (
            SessionView { phase: Phase::Stopped, saved: None, ..s },
            teardown(s.saved),
            None,
        ),
        (Phase::Active, EventView::ReadFailed) => (
            s.failed(Phase::Stopped, SessionError::RelayRead),
            teardown(s.saved),
            Some(SessionError::RelayRead),
        ),
        (Phase::Active, EventView::Stop) => (
            SessionView { phase: Phase::Stopped, saved: None, ..s },
            teardown(s.saved),
            None,
        ),
        (_, EventView::TeardownFailed(w)) => (
            SessionView { warnings: s.warnings.push(w), ..s },
            Seq::empty(),
            None,
        ),
        _ => (s, Seq::empty(), None),
    }
}

/// A session's answer to one event: the actions to perform, in order, and
/// the error to report to the caller, if any.
#[derive(Debug)]
pub struct Reply<A> {
    pub actions: Vec<Action<A>>,
    pub error: Option<SessionError>,
}

impl<A> Reply<A> {
    pub open spec fn actions_view(&self) -> Seq<ActionView<A>> {
        actions_view(self.actions@)
    }
}

/// One pseudoterminal session, from start to end. `A` is the saved terminal
/// attributes, which the session carries and hands back but never reads.
///
/// The session makes no system call: it answers each event with the
/// actions that the embedding program performs, and is told their outcomes.
/// A session is used once: after `Stopped` a new one is needed.
pub struct TerminalEmulator<A> {
    phase: Phase,
    saved: Option<A>,
    shell: String,
    sent: Ghost<Seq<u8>>,
    delivered: Ghost<Seq<u8>>,
    last_error: Option<SessionError>,
    warnings: Vec<SessionError>,
}

impl<A> View for TerminalEmulator<A> {
    type V = SessionView<A>;

    closed spec fn view(&self) -> SessionView<A> {
        SessionView {
            phase: self.phase,
            saved: self.saved,
            shell: self.shell@,
            sent: self.sent@,
            delivered: self.delivered@,
            last_error: self.last_error,
            warnings: self.warnings@,
        }
    }
}

impl<A> TerminalEmulator<A> {
    /// A fresh, idle session that will spawn `shell` when started.
    pub fn new(shell: String) -> (r: Self)
        ensures
            r@ == initial::<A>(shell@),
            r@.wf(),
    {
        TerminalEmulator {
            phase: Phase::Idle,
            saved: None,
            shell,
            sent: Ghost(Seq::empty()),
            delivered: Ghost(Seq::empty()),
            last_error: None,
            warnings: Vec::new(),
        }
    }

    pub fn state(&self) -> (r: SessionState)
        ensures
            r == self@.state(),
    {
        match self.phase {
            Phase::Active => SessionState::Active,
            Phase::Stopped => SessionState::Stopped,
            _ => SessionState::Idle,
        }
    }

    pub fn phase(&self) -> (r: Phase)
        ensures
            r == self@.phase,
    {
        self.phase
    }

    /// The error of the last operation that failed, if any did.
    pub fn last_error(&self) -> (r: Option<SessionError>)
        ensures
            r == self@.last_error,
    {
        self.last_error
    }

    /// The failures met while shutting down, in order.
    pub fn warnings(&self) -> (r: &Vec<SessionError>)
        ensures
            r@ == self@.warnings,
    {
        &self.warnings
    }

    pub fn shell(&self) -> (r: &str)
        ensures
            r@ == self@.shell,
    {
        self.shell.as_str()
    }

    /// The saved attributes, given up, as the one restoring action.
    fn take_restore(&mut self) -> (acts: Vec<Action<A>>)
        ensures
            actions_view(acts@) == restore_actions(old(self)@.saved),
            final(self)@ == (SessionView { saved: None, ..old(self)@ }),
    {
        let acts: Vec<Action<A>> = match self.saved.take() {
            Some(a) => vec![Action::RestoreAttributes(a)],
            None => Vec::new(),
        };
        assert(actions_view(acts@) =~= restore_actions(old(self)@.saved));
        acts
    }

    /// Ends an active session: the shutdown actions, and the phase `Stopped`.
    fn finish(&mut self) -> (acts: Vec<Action<A>>)
        ensures
            actions_view(acts@) == teardown(old(self)@.saved),
            final(self)@ == (SessionView { phase: Phase::Stopped, saved: None, ..old(self)@ }),
    {
        let mut acts: Vec<Action<A>> = vec![Action::ReleaseMaster, Action::JoinRelay];
        let mut restore = self.take_restore();
        acts.append(&mut restore);
        acts.push(Action::ReapChild);
        acts.push(Action::NotifyEnded);
        self.phase = Phase::Stopped;
        assert(actions_view(acts@) =~= teardown(old(self)@.saved));
        acts
    }

    /// Answers one event: moves the session to its next state and returns
    /// the actions to perform, in order, and the error to report.
    pub fn handle(&mut self, ev: Event<A>) -> (r: Reply<A>)
        ensures
            final(self)@ == step(old(self)@, ev@).0,
            r.actions_view() == step(old(self)@, ev@).1,
            r.error == step(old(self)@, ev@).2,
            old(self)@.wf() ==> final(self)@.wf(),
    {
        let none: Vec<Action<A>> = Vec::new();
        let r = match (self.phase, ev) {
            (Phase::Idle, Event::Start) => {
                self.phase = Phase::Capturing;
                Reply { actions: vec![Action::CaptureAttributes], error: None }
            },
            (_, Event::Start) => {
                self.last_error = Some(SessionError::AlreadyStarted);
                Reply { actions: none, error: Some(SessionError::AlreadyStarted) }
            },
            (Phase::Capturing, Event::Captured(a)) => {
                self.phase = Phase::Installing;
                self.saved = Some(a);
                Reply { actions: vec![Action::InstallRaw], error: None }
            },
            (Phase::Capturing, Event::CaptureFailed) => {
                self.phase = Phase::Idle;
                self.saved = None;
                self.last_error = Some(SessionError::AttributeRead);
                Reply { actions: none, error: Some(SessionError::AttributeRead) }
            },
            (Phase::Installing, Event::RawInstalled) => {
                self.phase = Phase::Spawning;
                Reply { actions: vec![Action::SpawnShell(self.shell.clone())], error: None }
            },
            (Phase::Installing, Event::RawInstallFailed) => {
                let acts = self.take_restore();
                self.phase = Phase::Idle;
                self.last_error = Some(SessionError::AttributeWrite);
                Reply { actions: acts, error: Some(SessionError::AttributeWrite) }
            },
            (Phase::Spawning, Event::Spawned) => {
                self.phase = Phase::Active;
                Reply { actions: vec![Action::StartRelay], error: None }
            },
            (Phase::Spawning, Event::SpawnFailed) => {
                let acts = self.take_restore();
                self.phase = Phase::Idle;
                self.last_error = Some(SessionError::Spawn);
                Reply { actions: acts, error: Some(SessionError::Spawn) }
            },
            (Phase::Active, Event::Send(b)) => {
                self.sent = Ghost(self.sent@ + b@);
                Reply { actions: vec![Action::Write(b)], error: None }
            },
            (Phase::Stopped, Event::Send(_)) => {
                self.last_error = Some(SessionError::SessionClosed);
                Reply { actions: none, error: Some(SessionError::SessionClosed) }
            },
            (_, Event::Send(_)) => {
                self.last_error = Some(SessionError::ClosedHandle);
                Reply { actions: none, error: Some(SessionError::ClosedHandle) }
            },
            (Phase::Active, Event::WriteFailed) => {
                let acts = self.finish();
                self.last_error = Some(SessionError::SessionClosed);
                Reply { actions: acts, error: Some(SessionError::SessionClosed) }
            },
            (Phase::Active, Event::Output(b)) => {
                self.delivered = Ghost(self.delivered@ + b@);
                Reply { actions: vec![Action::Deliver(b)], error: None }
            },
            (Phase::Active, Event::Eof) => {
                let acts = self.finish();
                Reply { actions: acts, error: None }
            },
            (Phase::Active, Event::ReadFailed) => {
                let acts = self.finish();
                self.last_error = Some(SessionError::RelayRead);
                Reply { actions: acts, error: Some(SessionError::RelayRead) }
            },
            (Phase::Active, Event::Stop) => {
                let acts = self.finish();
                Reply { actions: acts, error: None }
            },
            (_, Event::TeardownFailed(w)) => {
                self.warnings.push(w);
                Reply { actions: none, error: None }
            },
            _ => Reply { actions: none, error: None },
        };
        proof {
            assert(r.actions_view() =~= step(old(self)@, ev@).1);
        }
        r
    }

    /// Asks an idle session to start: its first action reads the terminal's
    /// attributes.
    pub fn start_terminal_emulation(&mut self) -> (r: Reply<A>)
        ensures
            final(self)@ == step(old(self)@, EventView::Start).0,
            r.actions_view() == step(old(self)@, EventView::Start).1,
            r.error == step(old(self)@, EventView::Start).2,
            old(self)@.wf() ==> final(self)@.wf(),
    {
        self.handle(Event::Start)
    }

    /// Forwards bytes to the shell of an active session.
    pub fn send(&mut self, bytes: Vec<u8>) -> (r: Reply<A>)
        ensures
            final(self)@ == step(old(self)@, EventView::Send(bytes@)).0,
            r.actions_view() == step(old(self)@, EventView::Send(bytes@)).1,
            r.error == step(old(self)@, EventView::Send(bytes@)).2,
            old(self)@.wf() ==> final(self)@.wf(),
    {
        self.handle(Event::Send(bytes))
    }

    /// Ends an active session; on any other session it changes nothing.
    pub fn stop_terminal_emulation(&mut self) -> (r: Reply<A>)
        ensures
            final(self)@ == step(old(self)@, EventView::Stop).0,
            r.actions_view() == step(old(self)@, EventView::Stop).1,
            r.error == step(old(self)@, EventView::Stop).2,
            old(self)@.wf() ==> final(self)@.wf(),
    {
        self.handle(Event::Stop)
    }
}

} // verus!
