use vstd::prelude::*;

verus! {

/// Exit status of a clean shutdown.
pub const EXIT_OK: i32 = 0;

/// Exit status for an input/output failure (binding the socket, removing it).
pub const EXIT_IO_ERROR: i32 = 74;

/// Where the server process stands.
#[derive(PartialEq, Eq, Structural, Clone, Copy)]
pub enum Phase {
    /// The listening socket is being bound.
    Starting,
    /// Requests are being dispatched.
    Serving,
    /// The socket file is being removed; no further removal is asked for.
    Terminating,
    /// The process exits with this status.
    Exited(i32),
}

/// What happened to the server process.
#[derive(PartialEq, Eq, Structural, Clone, Copy)]
pub enum LifeEvent {
    /// The listening socket was bound.
    Bound,
    /// Binding the listening socket failed.
    BindFailed,
    /// An interrupt signal arrived.
    Interrupted,
    /// The request dispatcher returned.
    DispatchReturned,
    /// The socket file was removed.
    Removed,
    /// Removing the socket file failed.
    RemoveFailed,
}

/// What the process does next.
#[derive(PartialEq, Eq, Structural, Clone, Copy)]
pub enum Command {
    /// Install the interrupt handler and dispatch requests.
    Serve,
    /// Remove the socket file and report `Removed` or `RemoveFailed`.
    RemoveSocket,
    /// Exit with this status.
    Exit(i32),
    /// Nothing to do.
    Nothing,
}

/// The lifecycle's rule: the phase after an event and the command it gives.
pub open spec fn next(p: Phase, e: LifeEvent) -> (Phase, Command) {
    match (p, e) {
        (Phase::Starting, LifeEvent::Bound) => (Phase::Serving, Command::Serve),
        (Phase::Starting, LifeEvent::BindFailed) => (
            Phase::Exited(EXIT_IO_ERROR),
            Command::Exit(EXIT_IO_ERROR),
        ),
        (Phase::Serving, LifeEvent::Interrupted) => (Phase::Terminating, Command::RemoveSocket),
        (Phase::Serving, LifeEvent::DispatchReturned) => (
            Phase::Terminating,
            Command::RemoveSocket,
        ),
        (Phase::Terminating, LifeEvent::Removed) => (Phase::Exited(EXIT_OK), Command::Exit(EXIT_OK)),
        (Phase::Terminating, LifeEvent::RemoveFailed) => (
            Phase::Exited(EXIT_IO_ERROR),
            Command::Exit(EXIT_IO_ERROR),
        ),
        _ => (p, Command::Nothing),
    }
}

/// The commands given for the events `es`, from phase `p` on.
pub open spec fn commands(p: Phase, es: Seq<LifeEvent>) -> Seq<Command>
    decreases es.len(),
{
    if es.len() == 0 {
        Seq::empty()
    } else {
        seq![next(p, es[0]).1] + commands(next(p, es[0]).0, es.subrange(1, es.len() as int))
    }
}

/// How many times the socket file is asked to be removed.
pub open spec fn removals(cs: Seq<Command>) -> nat
    decreases cs.len(),
{
    if cs.len() == 0 {
        0
    } else {
        (if cs[0] == Command::RemoveSocket {
            1nat
        } else {
            0nat
        }) + removals(cs.subrange(1, cs.len() as int))
    }
}

/// The server's lifecycle, shared by the main path and the interrupt handler.
pub struct Lifecycle {
    phase: Phase,
}

impl View for Lifecycle {
    type V = Phase;

    closed spec fn view(&self) -> Phase {
        self.phase
    }
}

impl Lifecycle {
    /// A process that is about to bind its socket.
    pub fn new() -> (r: Lifecycle)
        ensures
            r@ == Phase::Starting,
    {
        Lifecycle { phase: Phase::Starting }
    }

    pub fn phase(&self) -> (r: Phase)
        ensures
            r == self@,
    {
        self.phase
    }

    /// Takes an event and gives the command that answers it.
    pub fn on(&mut self, e: LifeEvent) -> (r: Command)
        ensures
            (final(self)@, r) == next(old(self)@, e),
    {
        let (p, c) = match (self.phase, e) {
            (Phase::Starting, LifeEvent::Bound) => (Phase::Serving, Command::Serve),
            (Phase::Starting, LifeEvent::BindFailed) => (
                Phase::Exited(EXIT_IO_ERROR),
                Command::Exit(EXIT_IO_ERROR),
            ),
            (Phase::Serving, LifeEvent::Interrupted) => (Phase::Terminating, Command::RemoveSocket),
            (Phase::Serving, LifeEvent::DispatchReturned) => (
                Phase::Terminating,
                Command::RemoveSocket,
            ),
            (Phase::Terminating, LifeEvent::Removed) => (
                Phase::Exited(EXIT_OK),
                Command::Exit(EXIT_OK),
            ),
            (Phase::Terminating, LifeEvent::RemoveFailed) => (
                Phase::Exited(EXIT_IO_ERROR),
                Command::Exit(EXIT_IO_ERROR),
            ),
            (p, _) => (p, Command::Nothing),
        };
        self.phase = p;
        c
    }
}

proof fn lemma_removals_bound(p: Phase, es: Seq<LifeEvent>)
    ensures
        removals(commands(p, es)) <= (if p == Phase::Starting || p == Phase::Serving {
            1nat
        } else {
            0nat
        }),
    decreases es.len(),
{
    if es.len() > 0 {
        let rest = es.subrange(1, es.len() as int);
        let cs = commands(p, es);
        lemma_removals_bound(next(p, es[0]).0, rest);
        assert(cs.subrange(1, cs.len() as int) =~= commands(next(p, es[0]).0, rest));
    }
}

/// Whatever happens, from startup on, the socket file is asked to be removed
/// at most once, whether the interrupt or the dispatcher's return comes
/// first, or both.
pub proof fn lemma_cleanup_at_most_once(es: Seq<LifeEvent>)
    ensures
        removals(commands(Phase::Starting, es)) <= 1,
{
    lemma_removals_bound(Phase::Starting, es);
}

/// A process that fails to bind exits with the input/output status and never
/// removes a socket file, whatever happens afterwards: a socket that another
/// process holds at that path stays.
pub proof fn lemma_bind_failure(es: Seq<LifeEvent>)
    ensures
        commands(Phase::Starting, seq![LifeEvent::BindFailed] + es)[0] == Command::Exit(
            EXIT_IO_ERROR,
        ),
        removals(commands(Phase::Starting, seq![LifeEvent::BindFailed] + es)) == 0,
{
    let all = seq![LifeEvent::BindFailed] + es;
    assert(all.subrange(1, all.len() as int) =~= es);
    lemma_removals_bound(Phase::Exited(EXIT_IO_ERROR), es);
    let cs = commands(Phase::Starting, all);
    assert(cs.subrange(1, cs.len() as int) =~= commands(Phase::Exited(EXIT_IO_ERROR), es));
}

/// An interrupt while serving asks for the socket file's removal at once and
/// never again; once it is removed the process exits with status 0.
pub proof fn lemma_interrupt_shutdown(es: Seq<LifeEvent>)
    ensures
        commands(Phase::Serving, seq![LifeEvent::Interrupted] + es)[0] == Command::RemoveSocket,
        removals(commands(Phase::Serving, seq![LifeEvent::Interrupted] + es)) == 1,
        next(Phase::Terminating, LifeEvent::Removed) == (
            Phase::Exited(EXIT_OK),
            Command::Exit(EXIT_OK),
        ),
{
    let all = seq![LifeEvent::Interrupted] + es;
    assert(all.subrange(1, all.len() as int) =~= es);
    lemma_removals_bound(Phase::Terminating, es);
    let cs = commands(Phase::Serving, all);
    assert(cs.subrange(1, cs.len() as int) =~= commands(Phase::Terminating, es));
}

} // verus!
