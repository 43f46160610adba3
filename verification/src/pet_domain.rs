//! The pet's state machine: commands come in, a transition either happens
//! (and yields an event and a new revision) or is refused (and nothing changes).

use vstd::prelude::*;
use vstd::string::*;

verus! {

/// What the pet can show; animation and UI are not part of the domain.
#[derive(Debug, Clone, Copy, PartialEq, Eq, Structural)]
pub enum PetState {
    Idle,
    Interacting,
    Sleeping,
}

impl Default for PetState {
    fn default() -> (r: PetState)
        ensures
            r == PetState::Idle,
    {
        PetState::Idle
    }
}

/// An intent sent into the state machine, kept apart from the events it emits.
#[derive(Debug, Clone, Copy, PartialEq, Eq, Structural)]
pub enum PetCommand {
    Interact,
    FinishInteraction,
    Sleep,
    Wake,
}

/// What a successful transition reports.
#[derive(Debug, Clone, Copy, PartialEq, Eq, Structural)]
pub enum PetEvent {
    StateChanged { from: PetState, to: PetState },
}

/// A command that the current state does not accept.
#[derive(Debug, Clone, Copy, PartialEq, Eq, Structural)]
pub struct InvalidTransition {
    pub state: PetState,
    pub command: PetCommand,
}

/// The error form of a refused command.
#[derive(Debug, Clone, Copy, PartialEq, Eq, Structural)]
pub enum PetError {
    InvalidTransition { state: PetState, command: PetCommand },
}

/// The state together with the number of transitions that led to it.
#[derive(Debug, Clone, Copy, PartialEq, Eq, Structural)]
pub struct PetSnapshot {
    pub state: PetState,
    pub revision: u64,
}

impl Default for PetSnapshot {
    fn default() -> (r: PetSnapshot)
        ensures
            r == initial_snapshot(),
    {
        PetSnapshot { state: PetState::Idle, revision: 0 }
    }
}

/// The state machine itself.
#[derive(Debug)]
pub struct PetMachine {
    snapshot: PetSnapshot,
}

impl View for PetMachine {
    type V = PetSnapshot;

    closed spec fn view(&self) -> PetSnapshot {
        self.snapshot
    }
}

/// A fresh pet is idle at revision zero.
pub open spec fn initial_snapshot() -> PetSnapshot {
    PetSnapshot { state: PetState::Idle, revision: 0 }
}

/// The transition table: the state a command leads to, or `None` where the
/// command is not accepted.
pub open spec fn next_state(state: PetState, command: PetCommand) -> Option<PetState> {
    match (state, command) {
        (PetState::Idle, PetCommand::Interact) => Some(PetState::Interacting),
        (PetState::Interacting, PetCommand::FinishInteraction) => Some(PetState::Idle),
        (PetState::Idle, PetCommand::Sleep) => Some(PetState::Sleeping),
        (PetState::Interacting, PetCommand::Sleep) => Some(PetState::Sleeping),
        (PetState::Sleeping, PetCommand::Wake) => Some(PetState::Idle),
        _ => None,
    }
}

/// Whether `command` is accepted in `state`.
pub open spec fn accepts(state: PetState, command: PetCommand) -> bool {
    next_state(state, command) is Some
}

/// The snapshot after one command: a new state and the next revision when the
/// command is accepted, the same snapshot when it is not.
pub open spec fn step(snapshot: PetSnapshot, command: PetCommand) -> PetSnapshot {
    match next_state(snapshot.state, command) {
        Some(to) => PetSnapshot { state: to, revision: (snapshot.revision + 1) as u64 },
        None => snapshot,
    }
}

/// What `dispatch` answers to `command` in `state`.
pub open spec fn outcome(state: PetState, command: PetCommand) -> Result<PetEvent, InvalidTransition> {
    match next_state(state, command) {
        Some(to) => Ok(PetEvent::StateChanged { from: state, to }),
        None => Err(InvalidTransition { state, command }),
    }
}

/// The snapshot after a run of commands, applied from the first to the last.
pub open spec fn run(snapshot: PetSnapshot, commands: Seq<PetCommand>) -> PetSnapshot
    decreases commands.len(),
{
    if commands.len() == 0 {
        snapshot
    } else {
        run(step(snapshot, commands[0]), commands.drop_first())
    }
}

/// How many commands of a run, started in `state`, are accepted.
pub open spec fn accepted_count(state: PetState, commands: Seq<PetCommand>) -> nat
    decreases commands.len(),
{
    if commands.len() == 0 {
        0
    } else {
        let first = commands[0];
        let rest_state = match next_state(state, first) {
            Some(to) => to,
            None => state,
        };
        (if accepts(state, first) { 1nat } else { 0nat }) + accepted_count(rest_state, commands.drop_first())
    }
}

/// The answers to a run of commands, in order.
pub open spec fn outcomes(snapshot: PetSnapshot, commands: Seq<PetCommand>) -> Seq<
    Result<PetEvent, InvalidTransition>,
>
    decreases commands.len(),
{
    if commands.len() == 0 {
        Seq::empty()
    } else {
        seq![outcome(snapshot.state, commands[0])] + outcomes(
            step(snapshot, commands[0]),
            commands.drop_first(),
        )
    }
}

/// The events of the accepted commands of a run, in order.
pub open spec fn accepted_events(snapshot: PetSnapshot, commands: Seq<PetCommand>) -> Seq<PetEvent>
    decreases commands.len(),
{
    if commands.len() == 0 {
        Seq::empty()
    } else {
        let rest = accepted_events(step(snapshot, commands[0]), commands.drop_first());
        match next_state(snapshot.state, commands[0]) {
            Some(to) => seq![PetEvent::StateChanged { from: snapshot.state, to }] + rest,
            None => rest,
        }
    }
}

/// The state an event leaves from.
pub open spec fn event_from(event: PetEvent) -> PetState {
    match event {
        PetEvent::StateChanged { from, .. } => from,
    }
}

/// The state an event arrives at.
pub open spec fn event_to(event: PetEvent) -> PetState {
    match event {
        PetEvent::StateChanged { to, .. } => to,
    }
}

/// The name under which a state is shown in messages.
pub open spec fn state_name(state: PetState) -> Seq<char> {
    match state {
        PetState::Idle => "Idle"@,
        PetState::Interacting => "Interacting"@,
        PetState::Sleeping => "Sleeping"@,
    }
}

/// The name under which a command is shown in messages.
pub open spec fn command_name(command: PetCommand) -> Seq<char> {
    match command {
        PetCommand::Interact => "Interact"@,
        PetCommand::FinishInteraction => "FinishInteraction"@,
        PetCommand::Sleep => "Sleep"@,
        PetCommand::Wake => "Wake"@,
    }
}

/// The message of a refused command.
pub open spec fn invalid_transition_message(state: PetState, command: PetCommand) -> Seq<char> {
    "cannot apply "@ + command_name(command) + " in "@ + state_name(state)
}

fn state_label(state: PetState) -> (r: &'static str)
    ensures
        r@ == state_name(state),
{
    match state {
        PetState::Idle => "Idle",
        PetState::Interacting => "Interacting",
        PetState::Sleeping => "Sleeping",
    }
}

fn command_label(command: PetCommand) -> (r: &'static str)
    ensures
        r@ == command_name(command),
{
    match command {
        PetCommand::Interact => "Interact",
        PetCommand::FinishInteraction => "FinishInteraction",
        PetCommand::Sleep => "Sleep",
        PetCommand::Wake => "Wake",
    }
}

impl InvalidTransition {
    /// The human-readable message, as in `cannot apply Interact in Sleeping`.
    pub fn to_string(&self) -> (r: String)
        ensures
            r@ == invalid_transition_message(self.state, self.command),
    {
        let mut out = String::from_str("cannot apply ");
        out.append(command_label(self.command));
        out.append(" in ");
        out.append(state_label(self.state));
        out
    }
}

/// The message of a [`PetError`].
pub open spec fn pet_error_message(error: PetError) -> Seq<char> {
    match error {
        PetError::InvalidTransition { state, command } => "cannot execute "@ + command_name(command)
            + " while pet is "@ + state_name(state),
    }
}

impl PetError {
    /// The human-readable message, as in `cannot execute Interact while pet is Sleeping`.
    pub fn to_string(&self) -> (r: String)
        ensures
            r@ == pet_error_message(*self),
    {
        match self {
            PetError::InvalidTransition { state, command } => {
                let mut out = String::from_str("cannot execute ");
                out.append(command_label(*command));
                out.append(" while pet is ");
                out.append(state_label(*state));
                out
            },
        }
    }
}

impl Default for PetMachine {
    fn default() -> (r: PetMachine)
        ensures
            r@ == initial_snapshot(),
    {
        PetMachine { snapshot: PetSnapshot::default() }
    }
}

/// Whether `command` is accepted in `state`, as `dispatch` decides it.
pub fn accepts_command(state: PetState, command: PetCommand) -> (r: bool)
    ensures
        r == accepts(state, command),
{
    match (state, command) {
        (PetState::Idle, PetCommand::Interact) => true,
        (PetState::Interacting, PetCommand::FinishInteraction) => true,
        (PetState::Idle, PetCommand::Sleep) | (PetState::Interacting, PetCommand::Sleep) => true,
        (PetState::Sleeping, PetCommand::Wake) => true,
        _ => false,
    }
}

impl PetMachine {
    /// The current state and revision.
    pub fn snapshot(&self) -> (r: PetSnapshot)
        ensures
            r == self@,
    {
        self.snapshot
    }

    /// Applies a command. A refused command changes nothing; only a real
    /// transition yields an event and advances the revision.
    pub fn dispatch(&mut self, command: PetCommand) -> (result: Result<PetEvent, InvalidTransition>)
        requires
            accepts(old(self)@.state, command) ==> old(self)@.revision < u64::MAX,
        ensures
            final(self)@ == step(old(self)@, command),
            result == outcome(old(self)@.state, command),
    {
        let from = self.snapshot.state;
        let to = match (from, command) {
            (PetState::Idle, PetCommand::Interact) => PetState::Interacting,
            (PetState::Interacting, PetCommand::FinishInteraction) => PetState::Idle,
            (PetState::Idle, PetCommand::Sleep) | (PetState::Interacting, PetCommand::Sleep) => {
                PetState::Sleeping
            },
            (PetState::Sleeping, PetCommand::Wake) => PetState::Idle,
            _ => {
                return Err(InvalidTransition { state: from, command });
            },
        };
        self.snapshot.state = to;
        self.snapshot.revision = self.snapshot.revision + 1;
        Ok(PetEvent::StateChanged { from, to })
    }
}

/// A refused command leaves the snapshot exactly as it was and is answered
/// with the state and the command that were refused.
pub proof fn lemma_refused_command_changes_nothing(snapshot: PetSnapshot, command: PetCommand)
    requires
        !accepts(snapshot.state, command),
    ensures
        step(snapshot, command) == snapshot,
        outcome(snapshot.state, command) == Err::<PetEvent, InvalidTransition>(
            InvalidTransition { state: snapshot.state, command },
        ),
{
}

/// An accepted command really changes the state, advances the revision by
/// exactly one, and its event names the old and the new state.
pub proof fn lemma_accepted_command_advances(snapshot: PetSnapshot, command: PetCommand)
    requires
        accepts(snapshot.state, command),
        snapshot.revision < u64::MAX,
    ensures
        step(snapshot, command).revision == snapshot.revision + 1,
        step(snapshot, command).state != snapshot.state,
        outcome(snapshot.state, command) == Ok::<PetEvent, InvalidTransition>(
            PetEvent::StateChanged { from: snapshot.state, to: step(snapshot, command).state },
        ),
{
}

/// An awake pet (idle or interacting) can always be put to sleep.
pub proof fn lemma_sleep_interrupts_any_awake_state(state: PetState)
    requires
        state != PetState::Sleeping,
    ensures
        next_state(state, PetCommand::Sleep) == Some(PetState::Sleeping),
{
}

/// A sleeping pet accepts `Wake` and nothing else, and waking makes it idle.
pub proof fn lemma_sleeping_pet_only_wakes(command: PetCommand)
    ensures
        accepts(PetState::Sleeping, command) <==> command == PetCommand::Wake,
        next_state(PetState::Sleeping, PetCommand::Wake) == Some(PetState::Idle),
{
}

/// Over any run of commands, the revision grows by exactly the number of
/// accepted commands, so it never goes backwards.
pub proof fn lemma_revision_counts_transitions(snapshot: PetSnapshot, commands: Seq<PetCommand>)
    requires
        snapshot.revision + commands.len() <= u64::MAX,
    ensures
        run(snapshot, commands).revision == snapshot.revision + accepted_count(snapshot.state, commands),
        run(snapshot, commands).revision >= snapshot.revision,
    decreases commands.len(),
{
    if commands.len() > 0 {
        let next = step(snapshot, commands[0]);
        lemma_revision_counts_transitions(next, commands.drop_first());
    }
}

/// One more command at the end of a run does to the run's snapshot what one
/// `dispatch` does, and adds that dispatch's answer at the end of the run's
/// answers. So a machine that started at `snapshot` and was then dispatched
/// `commands`, one call after another, is at `run(snapshot, commands)` and has
/// answered `outcomes(snapshot, commands)`.
pub proof fn lemma_run_extends(snapshot: PetSnapshot, commands: Seq<PetCommand>, command: PetCommand)
    ensures
        run(snapshot, commands.push(command)) == step(run(snapshot, commands), command),
        outcomes(snapshot, commands.push(command)) == outcomes(snapshot, commands).push(
            outcome(run(snapshot, commands).state, command),
        ),
        accepted_events(snapshot, commands.push(command)) == match next_state(
            run(snapshot, commands).state,
            command,
        ) {
            Some(to) => accepted_events(snapshot, commands).push(
                PetEvent::StateChanged { from: run(snapshot, commands).state, to },
            ),
            None => accepted_events(snapshot, commands),
        },
    decreases commands.len(),
{
    if commands.len() > 0 {
        let next = step(snapshot, commands[0]);
        assert(commands.push(command).drop_first() =~= commands.drop_first().push(command));
        lemma_run_extends(next, commands.drop_first(), command);
        assert(outcomes(snapshot, commands.push(command)) =~= outcomes(snapshot, commands).push(
            outcome(run(snapshot, commands).state, command),
        ));
        match next_state(run(snapshot, commands).state, command) {
            Some(to) => {
                let ev = PetEvent::StateChanged { from: run(snapshot, commands).state, to };
                match next_state(snapshot.state, commands[0]) {
                    Some(t0) => {
                        let ev0 = PetEvent::StateChanged { from: snapshot.state, to: t0 };
                        assert(seq![ev0] + accepted_events(next, commands.drop_first()).push(ev)
                            =~= (seq![ev0] + accepted_events(next, commands.drop_first())).push(ev));
                    },
                    None => {},
                }
            },
            None => {},
        }
    } else {
        let one = commands.push(command);
        assert(one[0] == command);
        assert(one.drop_first() =~= Seq::<PetCommand>::empty());
        assert(outcomes(step(snapshot, command), Seq::<PetCommand>::empty()) =~= Seq::<
            Result<PetEvent, InvalidTransition>,
        >::empty());
        assert(outcomes(snapshot, one) =~= seq![outcome(snapshot.state, command)]);
        assert(run(step(snapshot, command), Seq::<PetCommand>::empty()) == step(snapshot, command));
        assert(run(snapshot, commands) == snapshot);
        assert(accepted_events(step(snapshot, command), Seq::<PetCommand>::empty()) =~= Seq::<PetEvent>::empty());
        match next_state(snapshot.state, command) {
            Some(to) => {
                assert(accepted_events(snapshot, commands.push(command)) =~= seq![
                    PetEvent::StateChanged { from: snapshot.state, to },
                ]);
            },
            None => {},
        }
    }
}

/// Over any run of commands, the accepted ones are counted by the revision,
/// and their events chain: the first leaves from the starting state, each
/// next one leaves from where the one before arrived, and the last arrives at
/// the final state (which is the starting state when none was accepted).
pub proof fn lemma_events_chain(snapshot: PetSnapshot, commands: Seq<PetCommand>)
    requires
        snapshot.revision + commands.len() <= u64::MAX,
    ensures
        accepted_events(snapshot, commands).len() == accepted_count(snapshot.state, commands),
        run(snapshot, commands).revision == snapshot.revision + accepted_events(snapshot, commands).len(),
        accepted_events(snapshot, commands).len() == 0 ==> run(snapshot, commands).state == snapshot.state,
        accepted_events(snapshot, commands).len() > 0 ==> {
            &&& event_from(accepted_events(snapshot, commands)[0]) == snapshot.state
            &&& event_to(accepted_events(snapshot, commands).last()) == run(snapshot, commands).state
        },
        forall|i: int|
            0 <= i < accepted_events(snapshot, commands).len() - 1 ==> event_from(
                #[trigger] accepted_events(snapshot, commands)[i + 1],
            ) == event_to(accepted_events(snapshot, commands)[i]),
    decreases commands.len(),
{
    lemma_revision_counts_transitions(snapshot, commands);
    if commands.len() > 0 {
        let next = step(snapshot, commands[0]);
        let rest = commands.drop_first();
        lemma_events_chain(next, rest);
        let tail = accepted_events(next, rest);
        let all = accepted_events(snapshot, commands);
        match next_state(snapshot.state, commands[0]) {
            Some(to) => {
                let ev0 = PetEvent::StateChanged { from: snapshot.state, to };
                assert(all == seq![ev0] + tail);
                assert forall|i: int| 0 <= i < all.len() - 1 implies event_from(
                    #[trigger] all[i + 1],
                ) == event_to(all[i]) by {
                    assert(all[i + 1] == tail[i]);
                    if i > 0 {
                        assert(all[i] == tail[i - 1]);
                        assert(event_from(tail[(i - 1) + 1]) == event_to(tail[i - 1]));
                    }
                }
                if tail.len() > 0 {
                    assert(all.last() == tail.last());
                }
            },
            None => {
                assert(all == tail);
            },
        }
    }
}

/// The transitions, one by one: an idle pet starts interacting or falls
/// asleep, an interacting pet finishes (back to idle) or falls asleep, and a
/// sleeping pet wakes up idle; nothing else is accepted. The revision plays no
/// part in which commands are accepted.
pub proof fn lemma_transition_table(command: PetCommand, a: PetSnapshot, b: PetSnapshot)
    ensures
        next_state(PetState::Idle, PetCommand::Interact) == Some(PetState::Interacting),
        next_state(PetState::Idle, PetCommand::Sleep) == Some(PetState::Sleeping),
        next_state(PetState::Interacting, PetCommand::FinishInteraction) == Some(PetState::Idle),
        next_state(PetState::Interacting, PetCommand::Sleep) == Some(PetState::Sleeping),
        next_state(PetState::Sleeping, PetCommand::Wake) == Some(PetState::Idle),
        !accepts(PetState::Idle, PetCommand::FinishInteraction),
        !accepts(PetState::Idle, PetCommand::Wake),
        !accepts(PetState::Interacting, PetCommand::Interact),
        !accepts(PetState::Interacting, PetCommand::Wake),
        a.state == b.state ==> step(a, command).state == step(b, command).state,
{
}

} // verus!
