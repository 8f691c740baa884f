//! The supervisor of a renderer: it starts the three loops of the
//! discovery engine and the control dispatcher, and on the first sign of
//! an end stops them all and has the device's withdrawal announced, once.
//! The supervisor decides; whoever runs the loops carries its commands
//! out and tells it what happened.

use vstd::prelude::*;

verus! {

/// The three loops of a renderer.
#[derive(Clone, Copy, Debug, PartialEq, Eq, Structural)]
pub enum Task {
    /// The receive loop of the discovery engine.
    Discovery,
    /// The keep-alive loop of the discovery engine.
    KeepAlive,
    /// The accept loop of the control dispatcher.
    Control,
}

/// What the supervisor is told.
#[derive(Clone, Copy, Debug, PartialEq, Eq, Structural)]
pub enum Signal {
    /// The socket of the discovery engine is bound.
    Bound,
    /// The socket of the discovery engine could not be bound.
    BindFailed,
    /// One of the loops ended, of itself or by a fault.
    Ended(Task),
    /// The operator interrupted the renderer.
    Interrupt,
}

/// What the supervisor asks for.
#[derive(Clone, Copy, Debug, PartialEq, Eq, Structural)]
pub enum Command {
    /// Begin a loop.
    Start(Task),
    /// End a loop.
    Stop(Task),
    /// Have the discovery engine announce the device's withdrawal.
    Withdraw,
}

/// The phases of a renderer's life.
#[derive(Clone, Copy, Debug, PartialEq, Eq, Structural)]
pub enum Phase {
    /// Nothing runs yet.
    Idle,
    /// The three loops run.
    Running,
    /// Nothing runs any more.
    Done,
}

/// The commands that begin the three loops.
pub open spec fn start_all() -> Seq<Command> {
    seq![
        Command::Start(Task::Discovery),
        Command::Start(Task::KeepAlive),
        Command::Start(Task::Control),
    ]
}

/// The commands that end the three loops and then have the withdrawal
/// announced.
pub open spec fn stop_all() -> Seq<Command> {
    seq![
        Command::Stop(Task::Discovery),
        Command::Stop(Task::KeepAlive),
        Command::Stop(Task::Control),
        Command::Withdraw,
    ]
}

/// The phase that a supervisor in the phase `phase` enters on `signal`.
pub open spec fn next_phase(phase: Phase, signal: Signal) -> Phase {
    match (phase, signal) {
        (Phase::Idle, Signal::Bound) => Phase::Running,
        (Phase::Idle, Signal::BindFailed) => Phase::Done,
        (Phase::Running, Signal::Ended(_)) => Phase::Done,
        (Phase::Running, Signal::Interrupt) => Phase::Done,
        _ => phase,
    }
}

/// What a supervisor in the phase `phase` asks for on `signal`: the loops
/// begin once the socket is bound; they end, and the withdrawal is
/// announced, as soon as a running renderer is interrupted or one of its
/// loops ends. A failure to bind ends the renderer before anything runs.
pub open spec fn commands_on(phase: Phase, signal: Signal) -> Seq<Command> {
    match (phase, signal) {
        (Phase::Idle, Signal::Bound) => start_all(),
        (Phase::Running, Signal::Ended(_)) => stop_all(),
        (Phase::Running, Signal::Interrupt) => stop_all(),
        _ => Seq::empty(),
    }
}

/// The phase that a supervisor in the phase `phase` is in after the
/// signals `signals`.
pub open spec fn phase_after(phase: Phase, signals: Seq<Signal>) -> Phase
    decreases signals.len(),
{
    if signals.len() == 0 {
        phase
    } else {
        next_phase(phase_after(phase, signals.drop_last()), signals.last())
    }
}

/// All that a supervisor in the phase `phase` asks for on the signals
/// `signals`, in order.
pub open spec fn commands_after(phase: Phase, signals: Seq<Signal>) -> Seq<Command>
    decreases signals.len(),
{
    if signals.len() == 0 {
        Seq::empty()
    } else {
        commands_after(phase, signals.drop_last()) + commands_on(
            phase_after(phase, signals.drop_last()),
            signals.last(),
        )
    }
}

/// How often `command` occurs among `commands`.
pub open spec fn occurrences(commands: Seq<Command>, command: Command) -> nat
    decreases commands.len(),
{
    if commands.len() == 0 {
        0
    } else {
        occurrences(commands.drop_last(), command) + if commands.last() == command {
            1nat
        } else {
            0nat
        }
    }
}

/// The supervisor of a renderer.
pub struct Supervisor {
    phase: Phase,
}

impl View for Supervisor {
    type V = Phase;

    closed spec fn view(&self) -> Phase {
        self.phase
    }
}

impl Supervisor {
    /// A supervisor of a renderer of which nothing runs yet.
    pub fn new() -> (r: Supervisor)
        ensures
            r@ == Phase::Idle,
    {
        Supervisor { phase: Phase::Idle }
    }

    /// The phase of the renderer.
    pub fn phase(&self) -> (r: Phase)
        ensures
            r == self@,
    {
        self.phase
    }

    /// Takes a signal, and says what is to be done about it.
    pub fn on(&mut self, signal: Signal) -> (r: Vec<Command>)
        ensures
            final(self)@ == next_phase(old(self)@, signal),
            r@ == commands_on(old(self)@, signal),
    {
        let mut commands: Vec<Command> = Vec::new();
        match (self.phase, signal) {
            (Phase::Idle, Signal::Bound) => {
                commands.push(Command::Start(Task::Discovery));
                commands.push(Command::Start(Task::KeepAlive));
                commands.push(Command::Start(Task::Control));
                self.phase = Phase::Running;
                assert(commands@ =~= start_all());
            },
            (Phase::Idle, Signal::BindFailed) => {
                self.phase = Phase::Done;
            },
            (Phase::Running, Signal::Ended(_)) | (Phase::Running, Signal::Interrupt) => {
                commands.push(Command::Stop(Task::Discovery));
                commands.push(Command::Stop(Task::KeepAlive));
                commands.push(Command::Stop(Task::Control));
                commands.push(Command::Withdraw);
                self.phase = Phase::Done;
                assert(commands@ =~= stop_all());
            },
            _ => {},
        }
        commands
    }
}

/// Appending commands adds up their occurrences.
pub proof fn lemma_occurrences_add(a: Seq<Command>, b: Seq<Command>, command: Command)
    ensures
        occurrences(a + b, command) == occurrences(a, command) + occurrences(b, command),
    decreases b.len(),
{
    if b.len() == 0 {
        assert(a + b =~= a);
    } else {
        lemma_occurrences_add(a, b.drop_last(), command);
        assert((a + b).drop_last() =~= a + b.drop_last());
        assert((a + b).last() == b.last());
    }
}

/// A round of stopping holds the withdrawal once, a round of starting not
/// at all.
pub proof fn lemma_withdrawals_in_a_round()
    ensures
        occurrences(stop_all(), Command::Withdraw) == 1,
        occurrences(start_all(), Command::Withdraw) == 0,
        occurrences(Seq::empty(), Command::Withdraw) == 0,
{
    let none = Seq::<Command>::empty();
    assert(occurrences(none, Command::Withdraw) == 0);
    let stop = stop_all();
    assert(stop.drop_last() =~= seq![
        Command::Stop(Task::Discovery),
        Command::Stop(Task::KeepAlive),
        Command::Stop(Task::Control),
    ]);
    let three = stop.drop_last();
    assert(three.drop_last() =~= seq![
        Command::Stop(Task::Discovery),
        Command::Stop(Task::KeepAlive),
    ]);
    let two = three.drop_last();
    assert(two.drop_last() =~= seq![Command::Stop(Task::Discovery)]);
    let one = two.drop_last();
    assert(one.drop_last() =~= none);
    assert(occurrences(one, Command::Withdraw) == 0);
    assert(occurrences(two, Command::Withdraw) == 0);
    assert(occurrences(three, Command::Withdraw) == 0);

    let start = start_all();
    assert(start.drop_last() =~= seq![
        Command::Start(Task::Discovery),
        Command::Start(Task::KeepAlive),
    ]);
    let first_two = start.drop_last();
    assert(first_two.drop_last() =~= seq![Command::Start(Task::Discovery)]);
    let first = first_two.drop_last();
    assert(first.drop_last() =~= none);
    assert(occurrences(first, Command::Withdraw) == 0);
    assert(occurrences(first_two, Command::Withdraw) == 0);
}

/// Whatever the supervisor is told, from the start on, it has the
/// withdrawal announced at most once; it has had it announced exactly
/// where the renderer is done after having run; and once the renderer is
/// done it asks for nothing more.
pub proof fn lemma_withdrawal_once(signals: Seq<Signal>)
    ensures
        occurrences(commands_after(Phase::Idle, signals), Command::Withdraw) <= 1,
        occurrences(commands_after(Phase::Idle, signals), Command::Withdraw) == 1 ==> phase_after(
            Phase::Idle,
            signals,
        ) == Phase::Done,
        phase_after(Phase::Idle, signals) != Phase::Done ==> occurrences(
            commands_after(Phase::Idle, signals),
            Command::Withdraw,
        ) == 0,
        forall|signal: Signal|
            phase_after(Phase::Idle, signals) == Phase::Done ==> #[trigger] commands_on(
                phase_after(Phase::Idle, signals),
                signal,
            ) == Seq::<Command>::empty(),
    decreases signals.len(),
{
    if signals.len() > 0 {
        let before = signals.drop_last();
        lemma_withdrawal_once(before);
        lemma_withdrawals_in_a_round();
        lemma_occurrences_add(
            commands_after(Phase::Idle, before),
            commands_on(phase_after(Phase::Idle, before), signals.last()),
            Command::Withdraw,
        );
    }
}

/// A renderer that runs has the withdrawal announced as soon as it is
/// interrupted or one of its loops ends, after all three loops were told
/// to end.
pub proof fn lemma_stop_ends_with_withdrawal(signal: Signal)
    requires
        signal == Signal::Interrupt || signal is Ended,
    ensures
        next_phase(Phase::Running, signal) == Phase::Done,
        commands_on(Phase::Running, signal).len() == 4,
        commands_on(Phase::Running, signal).last() == Command::Withdraw,
{
}

} // verus!
