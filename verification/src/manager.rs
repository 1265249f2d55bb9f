//! The program/game state machine and its dual notification model.
//!
//! The manager owns the canonical [`AppState`], enforces legal transitions,
//! notifies synchronous observers in registration order, and fans every
//! transition out through the lossy [`EventBus`].

use crate::bus::EventBus;
use crate::bus::PollResult;
use crate::bus::SubscriberModel;
use crate::bus::step_subscriber;
use crate::clock::now_seconds;
use crate::errors::StateError;
use crate::events::StateChangeEvent;
use crate::state::AppState;
use crate::state::GameState;
use crate::state::ProgramState;
use vstd::prelude::*;

verus! {

/// A synchronous listener, notified in-line, in registration order, on
/// every transition.  Implementations live outside the library and carry
/// no contract: delivery happens after the state write, so a misbehaving
/// observer can never roll a transition back.
pub trait StateObserver {
    fn on_program_state_changed(&self, old_state: ProgramState, new_state: ProgramState);

    fn on_game_state_changed(&self, old_state: GameState, new_state: GameState);
}

impl StateObserver for Box<dyn StateObserver> {
    fn on_program_state_changed(&self, old_state: ProgramState, new_state: ProgramState) {
        (**self).on_program_state_changed(old_state, new_state)
    }

    fn on_game_state_changed(&self, old_state: GameState, new_state: GameState) {
        (**self).on_game_state_changed(old_state, new_state)
    }
}

/// Where and how often the application state is persisted.
#[derive(Debug, Clone, PartialEq)]
pub struct StatePersistenceConfig {
    pub enabled: bool,
    /// Path of the snapshot file, as the surrounding application resolves it.
    pub state_file_path: String,
    /// Seconds between automatic saves; 0 disables the periodic task.
    pub auto_save_interval: u64,
}

impl StatePersistenceConfig {
    pub fn new(state_file_path: String) -> (c: Self)
        ensures
            c.enabled == true,
            c.state_file_path == state_file_path,
            c.auto_save_interval == 60,
    {
        StatePersistenceConfig { enabled: true, state_file_path, auto_save_interval: 60 }
    }

    pub fn with_auto_save_interval(self, interval_seconds: u64) -> (c: Self)
        ensures
            c == (StatePersistenceConfig { auto_save_interval: interval_seconds, ..self }),
    {
        StatePersistenceConfig { auto_save_interval: interval_seconds, ..self }
    }

    pub fn without_auto_save(self) -> (c: Self)
        ensures
            c == (StatePersistenceConfig { auto_save_interval: 0, ..self }),
    {
        StatePersistenceConfig { auto_save_interval: 0, ..self }
    }
}

impl Default for StatePersistenceConfig {
    fn default() -> (c: Self)
        ensures
            c.enabled == false,
            c.state_file_path@ == "state.json"@,
            c.auto_save_interval == 60,
    {
        StatePersistenceConfig {
            enabled: false,
            state_file_path: "state.json".to_owned(),
            auto_save_interval: 60,
        }
    }
}

/// How many events one bus subscriber may buffer before it starts losing
/// the oldest unread ones.
pub const EVENT_BUS_CAPACITY: usize = 100;

/// The state manager: canonical state, synchronous observers, event bus,
/// and the persistence policy the surrounding application applies.
pub struct StateManager<O: StateObserver> {
    state: AppState,
    observers: Vec<O>,
    bus: EventBus<StateChangeEvent>,
    persistence_config: Option<StatePersistenceConfig>,
}

impl<O: StateObserver> StateManager<O> {
    /// The canonical state.
    pub closed spec fn spec_state(self) -> AppState {
        self.state
    }

    /// Every event ever published on the bus, in order.
    pub closed spec fn events(self) -> Seq<StateChangeEvent> {
        self.bus.history()
    }

    pub closed spec fn observer_count(self) -> int {
        self.observers@.len() as int
    }

    pub closed spec fn subscriber_count(self) -> int {
        self.bus.subscriber_count()
    }

    /// The abstract cursor of bus subscriber `id`.
    pub closed spec fn subscriber(self, id: int) -> SubscriberModel<StateChangeEvent> {
        self.bus.subscriber(id)
    }

    pub closed spec fn spec_persistence_config(self) -> Option<StatePersistenceConfig> {
        self.persistence_config
    }

    pub closed spec fn wf(self) -> bool {
        &&& self.bus.wf()
        &&& self.bus.capacity() == EVENT_BUS_CAPACITY as int
    }

    fn make(persistence_config: Option<StatePersistenceConfig>) -> (m: Self)
        ensures
            m.wf(),
            m.spec_state().program_state == ProgramState::Stopped,
            m.spec_state().game_state == GameState::NotDetected,
            m.events() == Seq::<StateChangeEvent>::empty(),
            m.observer_count() == 0,
            m.subscriber_count() == 0,
            m.spec_persistence_config() == persistence_config,
    {
        let now = now_seconds();
        StateManager {
            state: AppState::new(now),
            observers: Vec::new(),
            bus: EventBus::new(EVENT_BUS_CAPACITY),
            persistence_config,
        }
    }

    /// A manager in the initial state, without persistence.
    pub fn new() -> (m: Self)
        ensures
            m.wf(),
            m.spec_state().program_state == ProgramState::Stopped,
            m.spec_state().game_state == GameState::NotDetected,
            m.events() == Seq::<StateChangeEvent>::empty(),
            m.observer_count() == 0,
            m.subscriber_count() == 0,
            m.spec_persistence_config() is None,
    {
        Self::make(None)
    }

    /// A manager in the initial state that the application persists as the
    /// given configuration says.
    pub fn with_persistence(persistence_config: StatePersistenceConfig) -> (m: Self)
        ensures
            m.wf(),
            m.spec_state().program_state == ProgramState::Stopped,
            m.spec_state().game_state == GameState::NotDetected,
            m.events() == Seq::<StateChangeEvent>::empty(),
            m.observer_count() == 0,
            m.subscriber_count() == 0,
            m.spec_persistence_config() == Some(persistence_config),
    {
        Self::make(Some(persistence_config))
    }

    /// Adopt a previously persisted state, replacing the current one
    /// without emitting events.
    pub fn restore_state(&mut self, loaded: AppState)
        requires
            old(self).wf(),
        ensures
            final(self).wf(),
            final(self).spec_state() == loaded,
            final(self).events() == old(self).events(),
            final(self).observer_count() == old(self).observer_count(),
            final(self).subscriber_count() == old(self).subscriber_count(),
            final(self).spec_persistence_config() == old(self).spec_persistence_config(),
    {
        self.state = loaded;
    }

    /// The persistence policy, for the application's save and load tasks.
    pub fn persistence_config(&self) -> (r: &Option<StatePersistenceConfig>)
        ensures
            *r == self.spec_persistence_config(),
    {
        &self.persistence_config
    }

    fn notify_program_change(&self, old_state: ProgramState, new_state: ProgramState) {
        let n = self.observers.len();
        let mut i: usize = 0;
        while i < n
            invariant
                n == self.observers@.len(),
            decreases n - i,
        {
            self.observers[i].on_program_state_changed(old_state, new_state);
            i = i + 1;
        }
    }

    fn notify_game_change(&self, old_state: GameState, new_state: GameState) {
        let n = self.observers.len();
        let mut i: usize = 0;
        while i < n
            invariant
                n == self.observers@.len(),
            decreases n - i,
        {
            self.observers[i].on_game_state_changed(old_state, new_state);
            i = i + 1;
        }
    }

    /// One transition of the program state: write it, stamp it, publish the
    /// event, and notify every observer, in that order.
    fn transition_program(&mut self, to: ProgramState)
        requires
            old(self).wf(),
            old(self).events().len() < u64::MAX,
        ensures
            final(self).wf(),
            final(self).spec_state().program_state == to,
            final(self).spec_state().game_state == old(self).spec_state().game_state,
            final(self).events().len() == old(self).events().len() + 1,
            final(self).events().last().is_program_change(old(self).spec_state().program_state, to),
            forall|i: int| 0 <= i < old(self).events().len()
                ==> final(self).events()[i] == old(self).events()[i],
            final(self).observer_count() == old(self).observer_count(),
            final(self).subscriber_count() == old(self).subscriber_count(),
            final(self).spec_persistence_config() == old(self).spec_persistence_config(),
            forall|i: int| 0 <= i < old(self).subscriber_count()
                ==> final(self).subscriber(i)
                    == step_subscriber(#[trigger] old(self).subscriber(i), final(self).events().last(), EVENT_BUS_CAPACITY as int),
    {
        let from = self.state.program_state;
        let now = now_seconds();
        self.state.update_program_state(to, now);
        let event = StateChangeEvent::ProgramStateChanged { old_state: from, new_state: to, timestamp: now };
        self.bus.publish(event);
        self.notify_program_change(from, to);
        proof {
            assert(self.events() =~= old(self).events().push(event));
        }
    }

    /// Start the core: legal only when the program is stopped and a game is
    /// detected.  On success the state passes through `Starting` to
    /// `Running` and exactly two `ProgramStateChanged` events are emitted,
    /// in that order, to the bus and to every observer.  An illegal start
    /// fails with `InvalidTransition` and changes nothing.
    pub fn start_core(&mut self) -> (r: Result<(), StateError>)
        requires
            old(self).wf(),
            old(self).events().len() + 2 <= u64::MAX,
        ensures
            final(self).wf(),
            final(self).observer_count() == old(self).observer_count(),
            final(self).subscriber_count() == old(self).subscriber_count(),
            final(self).spec_persistence_config() == old(self).spec_persistence_config(),
            !old(self).spec_state().spec_can_start_core() ==> {
                &&& r matches Err(StateError::InvalidTransition { from, to })
                    && from@ == old(self).spec_state().program_state.spec_name()
                    && to@ == ProgramState::Starting.spec_name()
                &&& final(self).spec_state() == old(self).spec_state()
                &&& final(self).events() == old(self).events()
                &&& forall|i: int| 0 <= i < old(self).subscriber_count()
                    ==> final(self).subscriber(i) == old(self).subscriber(i)
            },
            old(self).spec_state().spec_can_start_core() ==> {
                &&& r is Ok
                &&& final(self).spec_state().program_state == ProgramState::Running
                &&& final(self).spec_state().game_state == old(self).spec_state().game_state
                &&& final(self).events().len() == old(self).events().len() + 2
                &&& forall|i: int| 0 <= i < old(self).events().len()
                    ==> final(self).events()[i] == old(self).events()[i]
                &&& final(self).events()[final(self).events().len() - 2]
                    .is_program_change(ProgramState::Stopped, ProgramState::Starting)
                &&& final(self).events()[final(self).events().len() - 1]
                    .is_program_change(ProgramState::Starting, ProgramState::Running)
                &&& forall|i: int| 0 <= i < old(self).subscriber_count()
                    ==> final(self).subscriber(i) == step_subscriber(
                        step_subscriber(
                            #[trigger] old(self).subscriber(i),
                            final(self).events()[final(self).events().len() - 2],
                            EVENT_BUS_CAPACITY as int,
                        ),
                        final(self).events()[final(self).events().len() - 1],
                        EVENT_BUS_CAPACITY as int,
                    )
            },
    {
        if !self.state.can_start_core() {
            return Err(StateError::invalid_transition(
                self.state.program_state.name(),
                ProgramState::Starting.name(),
            ));
        }
        self.transition_program(ProgramState::Starting);
        // The externally supplied startup action runs here, invoked by the
        // surrounding application while the state reads `Starting`.
        self.transition_program(ProgramState::Running);
        Ok(())
    }

    /// Stop the core: legal only while running.  On success the state
    /// passes through `Stopping` to `Stopped` with exactly two
    /// `ProgramStateChanged` events; an illegal stop fails with
    /// `InvalidTransition` and changes nothing.
    pub fn stop_core(&mut self) -> (r: Result<(), StateError>)
        requires
            old(self).wf(),
            old(self).events().len() + 2 <= u64::MAX,
        ensures
            final(self).wf(),
            final(self).observer_count() == old(self).observer_count(),
            final(self).subscriber_count() == old(self).subscriber_count(),
            final(self).spec_persistence_config() == old(self).spec_persistence_config(),
            !old(self).spec_state().spec_can_stop_core() ==> {
                &&& r matches Err(StateError::InvalidTransition { from, to })
                    && from@ == old(self).spec_state().program_state.spec_name()
                    && to@ == ProgramState::Stopping.spec_name()
                &&& final(self).spec_state() == old(self).spec_state()
                &&& final(self).events() == old(self).events()
                &&& forall|i: int| 0 <= i < old(self).subscriber_count()
                    ==> final(self).subscriber(i) == old(self).subscriber(i)
            },
            old(self).spec_state().spec_can_stop_core() ==> {
                &&& r is Ok
                &&& final(self).spec_state().program_state == ProgramState::Stopped
                &&& final(self).spec_state().game_state == old(self).spec_state().game_state
                &&& final(self).events().len() == old(self).events().len() + 2
                &&& forall|i: int| 0 <= i < old(self).events().len()
                    ==> final(self).events()[i] == old(self).events()[i]
                &&& final(self).events()[final(self).events().len() - 2]
                    .is_program_change(ProgramState::Running, ProgramState::Stopping)
                &&& final(self).events()[final(self).events().len() - 1]
                    .is_program_change(ProgramState::Stopping, ProgramState::Stopped)
                &&& forall|i: int| 0 <= i < old(self).subscriber_count()
                    ==> final(self).subscriber(i) == step_subscriber(
                        step_subscriber(
                            #[trigger] old(self).subscriber(i),
                            final(self).events()[final(self).events().len() - 2],
                            EVENT_BUS_CAPACITY as int,
                        ),
                        final(self).events()[final(self).events().len() - 1],
                        EVENT_BUS_CAPACITY as int,
                    )
            },
    {
        if !self.state.can_stop_core() {
            return Err(StateError::invalid_transition(
                self.state.program_state.name(),
                ProgramState::Stopping.name(),
            ));
        }
        self.transition_program(ProgramState::Stopping);
        // The externally supplied shutdown action runs here, invoked by the
        // surrounding application while the state reads `Stopping`.
        self.transition_program(ProgramState::Stopped);
        Ok(())
    }

    /// Pausing is only sketched: it demands a running core and otherwise
    /// reports an illegal transition; it never mutates state.
    pub fn pause_core(&mut self) -> (r: Result<(), StateError>)
        requires
            old(self).wf(),
        ensures
            final(self).wf(),
            final(self).spec_state() == old(self).spec_state(),
            final(self).events() == old(self).events(),
            final(self).observer_count() == old(self).observer_count(),
            final(self).subscriber_count() == old(self).subscriber_count(),
            final(self).spec_persistence_config() == old(self).spec_persistence_config(),
            r is Ok <==> old(self).spec_state().program_state == ProgramState::Running,
            !(old(self).spec_state().program_state == ProgramState::Running) ==> {
                r matches Err(StateError::InvalidTransition { from, to })
                    && from@ == old(self).spec_state().program_state.spec_name()
                    && to@ == "Paused"@
            },
    {
        if !matches!(self.state.program_state, ProgramState::Running) {
            return Err(StateError::invalid_transition(self.state.program_state.name(), "Paused"));
        }
        Ok(())
    }

    /// Record what the window tracker reports.  When the new value equals
    /// the current one nothing changes and no event is emitted — not even
    /// the timestamp moves; otherwise the state is updated, stamped, and
    /// one `GameStateChanged` event is published and dispatched.
    pub fn update_game_state(&mut self, new_state: GameState)
        requires
            old(self).wf(),
            old(self).events().len() < u64::MAX,
        ensures
            final(self).wf(),
            final(self).observer_count() == old(self).observer_count(),
            final(self).subscriber_count() == old(self).subscriber_count(),
            final(self).spec_persistence_config() == old(self).spec_persistence_config(),
            old(self).spec_state().game_state == new_state ==> {
                &&& final(self).spec_state() == old(self).spec_state()
                &&& final(self).events() == old(self).events()
                &&& forall|i: int| 0 <= i < old(self).subscriber_count()
                    ==> final(self).subscriber(i) == old(self).subscriber(i)
            },
            old(self).spec_state().game_state != new_state ==> {
                &&& final(self).spec_state().game_state == new_state
                &&& final(self).spec_state().program_state == old(self).spec_state().program_state
                &&& final(self).events().len() == old(self).events().len() + 1
                &&& forall|i: int| 0 <= i < old(self).events().len()
                    ==> final(self).events()[i] == old(self).events()[i]
                &&& final(self).events().last()
                    .is_game_change(old(self).spec_state().game_state, new_state)
                &&& forall|i: int| 0 <= i < old(self).subscriber_count()
                    ==> final(self).subscriber(i)
                        == step_subscriber(#[trigger] old(self).subscriber(i), final(self).events().last(), EVENT_BUS_CAPACITY as int)
            },
    {
        let old_state = self.state.game_state;
        if !game_state_eq(old_state, new_state) {
            let now = now_seconds();
            self.state.update_game_state(new_state, now);
            let event = StateChangeEvent::GameStateChanged { old_state, new_state, timestamp: now };
            self.bus.publish(event);
            self.notify_game_change(old_state, new_state);
            proof {
                assert(self.events() =~= old(self).events().push(event));
            }
        }
    }

    /// A snapshot of the canonical state.
    pub fn get_state(&self) -> (s: AppState)
        ensures
            s == self.spec_state(),
    {
        self.state
    }

    pub fn get_program_state(&self) -> (s: ProgramState)
        ensures
            s == self.spec_state().program_state,
    {
        self.state.program_state
    }

    pub fn get_game_state(&self) -> (s: GameState)
        ensures
            s == self.spec_state().game_state,
    {
        self.state.game_state
    }

    pub fn can_start_core(&self) -> (r: bool)
        ensures
            r == self.spec_state().spec_can_start_core(),
    {
        self.state.can_start_core()
    }

    pub fn can_stop_core(&self) -> (r: bool)
        ensures
            r == self.spec_state().spec_can_stop_core(),
    {
        self.state.can_stop_core()
    }

    pub fn should_disable_config(&self) -> (r: bool)
        ensures
            r == self.spec_state().spec_should_disable_config(),
    {
        self.state.should_disable_config()
    }

    /// Append a synchronous observer; it is notified after all earlier ones.
    pub fn add_observer(&mut self, observer: O)
        requires
            old(self).wf(),
        ensures
            final(self).wf(),
            final(self).observer_count() == old(self).observer_count() + 1,
            final(self).spec_state() == old(self).spec_state(),
            final(self).events() == old(self).events(),
            final(self).subscriber_count() == old(self).subscriber_count(),
            final(self).spec_persistence_config() == old(self).spec_persistence_config(),
    {
        self.observers.push(observer);
    }

    /// Remove the observer at the given registration position; reports
    /// whether a removal happened.
    pub fn remove_observer(&mut self, observer_id: usize) -> (r: bool)
        requires
            old(self).wf(),
        ensures
            final(self).wf(),
            r == (observer_id < old(self).observer_count()),
            r ==> final(self).observer_count() == old(self).observer_count() - 1,
            !r ==> final(self).observer_count() == old(self).observer_count(),
            final(self).spec_state() == old(self).spec_state(),
            final(self).events() == old(self).events(),
            final(self).subscriber_count() == old(self).subscriber_count(),
            final(self).spec_persistence_config() == old(self).spec_persistence_config(),
    {
        if observer_id < self.observers.len() {
            self.observers.remove(observer_id);
            true
        } else {
            false
        }
    }

    /// Open an independent cursor onto the event stream; later events are
    /// buffered for it up to the bus capacity.
    pub fn subscribe_events(&mut self) -> (id: usize)
        requires
            old(self).wf(),
        ensures
            final(self).wf(),
            id == old(self).subscriber_count(),
            final(self).subscriber_count() == old(self).subscriber_count() + 1,
            final(self).spec_state() == old(self).spec_state(),
            final(self).events() == old(self).events(),
            final(self).observer_count() == old(self).observer_count(),
            final(self).spec_persistence_config() == old(self).spec_persistence_config(),
            final(self).subscriber(id as int).missed == 0,
            final(self).subscriber(id as int).buffered == Seq::<StateChangeEvent>::empty(),
            forall|i: int| 0 <= i < old(self).subscriber_count()
                ==> final(self).subscriber(i) == old(self).subscriber(i),
    {
        self.bus.subscribe()
    }

    /// Advance the cursor of subscriber `id` by one step, as
    /// [`EventBus::poll`] specifies: a pending event, a gap report, or
    /// nothing.
    pub fn poll_event(&mut self, id: usize) -> (r: PollResult<StateChangeEvent>)
        requires
            old(self).wf(),
            id < old(self).subscriber_count(),
        ensures
            final(self).wf(),
            final(self).spec_state() == old(self).spec_state(),
            final(self).events() == old(self).events(),
            final(self).observer_count() == old(self).observer_count(),
            final(self).subscriber_count() == old(self).subscriber_count(),
            final(self).spec_persistence_config() == old(self).spec_persistence_config(),
            forall|i: int| 0 <= i < old(self).subscriber_count() && i != id
                ==> final(self).subscriber(i) == old(self).subscriber(i),
            match r {
                PollResult::Lagged(n) => {
                    &&& old(self).subscriber(id as int).missed == n
                    &&& n > 0
                    &&& final(self).subscriber(id as int).missed == 0
                    &&& final(self).subscriber(id as int).buffered
                        == old(self).subscriber(id as int).buffered
                },
                PollResult::Event(e) => {
                    &&& old(self).subscriber(id as int).missed == 0
                    &&& old(self).subscriber(id as int).buffered.len() > 0
                    &&& e == old(self).subscriber(id as int).buffered.first()
                    &&& final(self).subscriber(id as int).buffered
                        == old(self).subscriber(id as int).buffered.drop_first()
                },
                PollResult::Empty => {
                    &&& old(self).subscriber(id as int).missed == 0
                    &&& old(self).subscriber(id as int).buffered.len() == 0
                    &&& final(self).subscriber(id as int) == old(self).subscriber(id as int)
                },
            },
    {
        self.bus.poll(id)
    }
}

impl<O: StateObserver> Default for StateManager<O> {
    fn default() -> (m: Self)
        ensures
            m.wf(),
            m.spec_state().program_state == ProgramState::Stopped,
            m.spec_state().game_state == GameState::NotDetected,
            m.events() == Seq::<StateChangeEvent>::empty(),
    {
        StateManager::new()
    }
}

/// Equality on game states, spelled out so verified code need not rely on
/// the derived implementation.
fn game_state_eq(a: GameState, b: GameState) -> (r: bool)
    ensures
        r == (a == b),
{
    a == b
}

/// The game state after a sequence of tracker updates: the last update
/// wins; with none, the initial value stands.  Program state is untouched
/// by game updates, exactly as `update_game_state`'s contract says.
pub open spec fn game_state_after(initial: GameState, updates: Seq<GameState>) -> GameState {
    if updates.len() == 0 {
        initial
    } else {
        updates.last()
    }
}

/// Law: over every sequence of `update_game_state` calls, starting the
/// core is possible exactly when the program state is `Stopped` and the
/// latest game state is `Detected` or `InBattle`.  `update_game_state`
/// never changes the program state, so the program component is the one
/// the sequence began with.
pub proof fn lemma_can_start_core_iff(s0: AppState, updates: Seq<GameState>)
    ensures
        (AppState { game_state: game_state_after(s0.game_state, updates), ..s0 }).spec_can_start_core()
            <==> {
                &&& s0.program_state == ProgramState::Stopped
                &&& (game_state_after(s0.game_state, updates) == GameState::Detected
                    || game_state_after(s0.game_state, updates) == GameState::InBattle)
            },
{
}

} // verus!
