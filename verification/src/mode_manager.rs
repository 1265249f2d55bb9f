//! The operating-mode manager: which behavior set is active, the
//! per-mode configurations, the switch history, and mode-change events.
//!
//! A switch is all-or-nothing: the target mode's configuration is
//! validated first, and a validation failure leaves the current mode and
//! everything else untouched.

use crate::bus::DupEvent;
use crate::bus::EventBus;
use crate::bus::PollResult;
use crate::bus::SubscriberModel;
use crate::clock::now_seconds;
use crate::config::IntelligentModeConfig;
use crate::config::MacroModeConfig;
use crate::config::OperationMode;
use crate::errors::ModeError;
use crate::keymap::KeyTable;
use crate::operations::DefaultOperations;
use crate::operations::GameOperation;
use vstd::prelude::*;

verus! {

/// A change of mode state: a switch, a configuration update, or a hotkey
/// rebinding.
#[derive(Debug, PartialEq)]
pub enum ModeChangeEvent {
    ModeSwitch { from: OperationMode, to: OperationMode },
    ConfigUpdate { mode: OperationMode, config_type: String },
    HotkeyUpdate {
        mode: OperationMode,
        operation: String,
        old_hotkey: Option<String>,
        new_hotkey: String,
    },
}

impl Clone for ModeChangeEvent {
    fn clone(&self) -> (r: Self)
        ensures
            r == *self,
    {
        match self {
            ModeChangeEvent::ModeSwitch { from, to } => ModeChangeEvent::ModeSwitch {
                from: *from,
                to: *to,
            },
            ModeChangeEvent::ConfigUpdate { mode, config_type } => ModeChangeEvent::ConfigUpdate {
                mode: *mode,
                config_type: config_type.clone(),
            },
            ModeChangeEvent::HotkeyUpdate { mode, operation, old_hotkey, new_hotkey } => {
                let old = match old_hotkey {
                    Some(h) => Some(h.clone()),
                    None => None,
                };
                ModeChangeEvent::HotkeyUpdate {
                    mode: *mode,
                    operation: operation.clone(),
                    old_hotkey: old,
                    new_hotkey: new_hotkey.clone(),
                }
            },
        }
    }
}

impl DupEvent for ModeChangeEvent {
    fn dup(&self) -> (r: Self)
        ensures
            r == *self,
    {
        self.clone()
    }
}

/// How many mode events one subscriber may buffer.
pub const MODE_BUS_CAPACITY: usize = 100;

/// How many history entries a fresh manager keeps.
pub const DEFAULT_MAX_HISTORY: usize = 50;

/// How one bounded-history append relates the old history to the new
/// one: the entry for `mode` goes at the end; when the bound is already
/// reached the oldest entry is evicted, and a zero bound keeps the
/// history empty.
pub open spec fn history_appended(
    o: Seq<(OperationMode, u64)>,
    n: Seq<(OperationMode, u64)>,
    mode: OperationMode,
    max: nat,
) -> bool {
    &&& (max == 0 ==> n == Seq::<(OperationMode, u64)>::empty())
    &&& (o.len() < max ==> n.len() == o.len() + 1 && n.drop_last() == o && n.last().0 == mode)
    &&& (o.len() >= max >= 1 ==> n.len() == max && n.drop_last() == o.skip(
        o.len() - max + 1,
    ) && n.last().0 == mode)
}

/// The position of the (unique) operation with this name.
pub open spec fn op_index(ops: Seq<GameOperation>, name: Seq<char>) -> int {
    choose|i: int| 0 <= i < ops.len() && (#[trigger] ops[i]).name@ == name
}

pub open spec fn has_op(ops: Seq<GameOperation>, name: Seq<char>) -> bool {
    exists|i: int| 0 <= i < ops.len() && (#[trigger] ops[i]).name@ == name
}

/// The operating-mode manager.
pub struct ModeManager {
    current_mode: OperationMode,
    macro_config: MacroModeConfig,
    intelligent_config: IntelligentModeConfig,
    game_operations: Vec<GameOperation>,
    bus: EventBus<ModeChangeEvent>,
    mode_history: Vec<(OperationMode, u64)>,
    max_history: usize,
}

impl ModeManager {
    pub closed spec fn spec_current_mode(self) -> OperationMode {
        self.current_mode
    }

    pub closed spec fn spec_macro_config(self) -> MacroModeConfig {
        self.macro_config
    }

    pub closed spec fn spec_intelligent_config(self) -> IntelligentModeConfig {
        self.intelligent_config
    }

    pub closed spec fn operations(self) -> Seq<GameOperation> {
        self.game_operations@
    }

    /// Every mode event ever published, in order.
    pub closed spec fn events(self) -> Seq<ModeChangeEvent> {
        self.bus.history()
    }

    pub closed spec fn subscriber_count(self) -> int {
        self.bus.subscriber_count()
    }

    pub closed spec fn subscriber(self, id: int) -> SubscriberModel<ModeChangeEvent> {
        self.bus.subscriber(id)
    }

    pub closed spec fn history(self) -> Seq<(OperationMode, u64)> {
        self.mode_history@
    }

    pub closed spec fn max_history(self) -> nat {
        self.max_history as nat
    }

    /// The configuration guarding a switch to `mode` is valid.
    pub open spec fn target_valid(self, mode: OperationMode) -> bool {
        match mode {
            OperationMode::Macro => self.spec_macro_config().spec_valid(),
            OperationMode::Intelligent => self.spec_intelligent_config().spec_valid(),
        }
    }

    /// The hotkey map of the active mode, as a mathematical map.
    pub open spec fn active_hotkeys(self) -> Map<Seq<char>, Seq<char>> {
        match self.spec_current_mode() {
            OperationMode::Macro => self.spec_macro_config().hotkeys@,
            OperationMode::Intelligent => self.spec_intelligent_config().hotkeys@,
        }
    }

    pub closed spec fn ops_wf(self) -> bool {
        forall|i: int, j: int|
            0 <= i < j < self.game_operations@.len() ==> (#[trigger] self.game_operations@[i]).name@
                != (#[trigger] self.game_operations@[j]).name@
    }

    pub closed spec fn wf(self) -> bool {
        &&& self.bus.wf()
        &&& self.bus.capacity() == MODE_BUS_CAPACITY as int
        &&& self.macro_config.wf()
        &&& self.intelligent_config.wf()
        &&& self.ops_wf()
        &&& self.mode_history@.len() <= self.max_history
    }

    fn initial_operations() -> (ops: Vec<GameOperation>)
        ensures
            crate::operations::is_default_operations(ops@),
            ops@.len() == 5,
            forall|i: int, j: int|
                0 <= i < j < ops@.len() ==> (#[trigger] ops@[i]).name@ != (#[trigger] ops@[j]).name@,
    {
        let ops = DefaultOperations::get_default_operations();
        proof {
            crate::config::lemma_hotkey_literals();
        }
        ops
    }

    fn make(macro_config: MacroModeConfig, intelligent_config: IntelligentModeConfig) -> (m: Self)
        requires
            macro_config.wf(),
            intelligent_config.wf(),
        ensures
            m.wf(),
            m.spec_current_mode() == OperationMode::Macro,
            m.spec_macro_config() == macro_config,
            m.spec_intelligent_config() == intelligent_config,
            crate::operations::is_default_operations(m.operations()),
            m.operations().len() == 5,
            m.events() == Seq::<ModeChangeEvent>::empty(),
            m.subscriber_count() == 0,
            m.history().len() == 1,
            m.history()[0].0 == OperationMode::Macro,
            m.max_history() == DEFAULT_MAX_HISTORY,
    {
        let now = now_seconds();
        let mut mode_history: Vec<(OperationMode, u64)> = Vec::new();
        mode_history.push((OperationMode::Macro, now));
        ModeManager {
            current_mode: OperationMode::Macro,
            macro_config,
            intelligent_config,
            game_operations: Self::initial_operations(),
            bus: EventBus::new(MODE_BUS_CAPACITY),
            mode_history,
            max_history: DEFAULT_MAX_HISTORY,
        }
    }

    /// A manager in macro mode with the default configurations, the stock
    /// operations, and the initial history entry.
    pub fn new() -> (m: Self)
        ensures
            m.wf(),
            m.spec_current_mode() == OperationMode::Macro,
            m.spec_macro_config().is_default(),
            m.spec_intelligent_config().is_default(),
            m.spec_macro_config().spec_valid(),
            m.spec_intelligent_config().spec_valid(),
            crate::operations::is_default_operations(m.operations()),
            m.operations().len() == 5,
            m.events() == Seq::<ModeChangeEvent>::empty(),
            m.subscriber_count() == 0,
            m.history().len() == 1,
            m.history()[0].0 == OperationMode::Macro,
            m.max_history() == DEFAULT_MAX_HISTORY,
    {
        Self::make(MacroModeConfig::default(), IntelligentModeConfig::default())
    }

    /// A manager in macro mode with the given configurations.
    pub fn with_configs(macro_config: MacroModeConfig, intelligent_config: IntelligentModeConfig)
        -> (m: Self)
        requires
            macro_config.wf(),
            intelligent_config.wf(),
        ensures
            m.wf(),
            m.spec_current_mode() == OperationMode::Macro,
            m.spec_macro_config() == macro_config,
            m.spec_intelligent_config() == intelligent_config,
            m.operations().len() == 5,
            m.events() == Seq::<ModeChangeEvent>::empty(),
            m.subscriber_count() == 0,
            m.history().len() == 1,
            m.history()[0].0 == OperationMode::Macro,
    {
        Self::make(macro_config, intelligent_config)
    }

    fn add_to_history(&mut self, mode: OperationMode)
        requires
            old(self).wf(),
        ensures
            final(self).wf(),
            history_appended(
                old(self).history(),
                final(self).history(),
                mode,
                old(self).max_history(),
            ),
            *final(self) == (ModeManager { mode_history: final(self).mode_history, ..*old(self) }),
    {
        let ghost h0 = self.mode_history@;
        let now = now_seconds();
        self.mode_history.push((mode, now));
        if self.mode_history.len() > self.max_history {
            self.mode_history.remove(0);
            proof {
                assert(self.mode_history@ =~= h0.push((mode, now)).drop_first());
                if self.max_history >= 1 {
                    assert(self.mode_history@.drop_last() =~= h0.skip(
                        h0.len() - self.max_history + 1,
                    ));
                } else {
                    assert(self.mode_history@ =~= Seq::<(OperationMode, u64)>::empty());
                }
            }
        } else {
            proof {
                assert(self.mode_history@.drop_last() =~= h0);
            }
        }
    }

    /// Switch to `mode`, all-or-nothing.  Switching to the current mode is
    /// a successful no-op.  Otherwise the target configuration is
    /// validated: a failure returns the validation error and changes
    /// nothing; on success the mode is swapped, the switch is appended to
    /// the bounded history, and exactly one `ModeSwitch` event is
    /// published.
    pub fn switch_mode(&mut self, mode: OperationMode) -> (r: Result<(), ModeError>)
        requires
            old(self).wf(),
            old(self).events().len() < u64::MAX,
        ensures
            final(self).wf(),
            final(self).spec_macro_config() == old(self).spec_macro_config(),
            final(self).spec_intelligent_config() == old(self).spec_intelligent_config(),
            final(self).operations() == old(self).operations(),
            final(self).subscriber_count() == old(self).subscriber_count(),
            final(self).max_history() == old(self).max_history(),
            old(self).spec_current_mode() == mode ==> {
                &&& r is Ok
                &&& *final(self) == *old(self)
            },
            old(self).spec_current_mode() != mode && !old(self).target_valid(mode) ==> {
                &&& r matches Err(e) && e is ValidationError
                &&& final(self).spec_current_mode() == old(self).spec_current_mode()
                &&& final(self).events() == old(self).events()
                &&& final(self).history() == old(self).history()
            },
            old(self).spec_current_mode() != mode && old(self).target_valid(mode) ==> {
                &&& r is Ok
                &&& final(self).spec_current_mode() == mode
                &&& final(self).events() == old(self).events().push(
                    ModeChangeEvent::ModeSwitch { from: old(self).spec_current_mode(), to: mode },
                )
                &&& history_appended(
                    old(self).history(),
                    final(self).history(),
                    mode,
                    old(self).max_history(),
                )
            },
    {
        if mode_eq(self.current_mode, mode) {
            return Ok(());
        }
        let validation = match mode {
            OperationMode::Macro => self.macro_config.validate(),
            OperationMode::Intelligent => self.intelligent_config.validate(),
        };
        if let Err(msg) = validation {
            return Err(ModeError::ValidationError(msg));
        }
        let old_mode = self.current_mode;
        self.current_mode = mode;
        self.add_to_history(mode);
        self.bus.publish(ModeChangeEvent::ModeSwitch { from: old_mode, to: mode });
        Ok(())
    }

    /// The active mode.
    pub fn get_current_mode(&self) -> (r: &OperationMode)
        ensures
            *r == self.spec_current_mode(),
    {
        &self.current_mode
    }

    pub fn get_macro_config(&self) -> (r: &MacroModeConfig)
        ensures
            *r == self.spec_macro_config(),
    {
        &self.macro_config
    }

    pub fn get_intelligent_config(&self) -> (r: &IntelligentModeConfig)
        ensures
            *r == self.spec_intelligent_config(),
    {
        &self.intelligent_config
    }

    /// Replace the macro-mode configuration.
    pub fn set_macro_config(&mut self, config: MacroModeConfig)
        requires
            old(self).wf(),
            config.wf(),
        ensures
            final(self).wf(),
            final(self).spec_macro_config() == config,
            final(self).spec_intelligent_config() == old(self).spec_intelligent_config(),
            final(self).spec_current_mode() == old(self).spec_current_mode(),
            final(self).operations() == old(self).operations(),
            final(self).events() == old(self).events(),
            final(self).history() == old(self).history(),
            final(self).max_history() == old(self).max_history(),
            final(self).subscriber_count() == old(self).subscriber_count(),
    {
        self.macro_config = config;
    }

    /// Replace the intelligent-mode configuration.
    pub fn set_intelligent_config(&mut self, config: IntelligentModeConfig)
        requires
            old(self).wf(),
            config.wf(),
        ensures
            final(self).wf(),
            final(self).spec_intelligent_config() == config,
            final(self).spec_macro_config() == old(self).spec_macro_config(),
            final(self).spec_current_mode() == old(self).spec_current_mode(),
            final(self).operations() == old(self).operations(),
            final(self).events() == old(self).events(),
            final(self).history() == old(self).history(),
            final(self).max_history() == old(self).max_history(),
            final(self).subscriber_count() == old(self).subscriber_count(),
    {
        self.intelligent_config = config;
    }

    /// The hotkey table of the active mode.
    pub fn get_current_hotkeys(&self) -> (r: &KeyTable)
        ensures
            self.spec_current_mode() == OperationMode::Macro ==> *r
                == self.spec_macro_config().hotkeys,
            self.spec_current_mode() == OperationMode::Intelligent ==> *r
                == self.spec_intelligent_config().hotkeys,
    {
        match self.current_mode {
            OperationMode::Macro => &self.macro_config.hotkeys,
            OperationMode::Intelligent => &self.intelligent_config.hotkeys,
        }
    }

    /// Rebind a hotkey of the active mode and publish a `HotkeyUpdate`
    /// event carrying the old and the new binding.
    pub fn update_hotkey(&mut self, operation: String, hotkey: String) -> (r: Result<
        (),
        ModeError,
    >)
        requires
            old(self).wf(),
            old(self).events().len() < u64::MAX,
        ensures
            final(self).wf(),
            r is Ok,
            final(self).spec_current_mode() == old(self).spec_current_mode(),
            final(self).history() == old(self).history(),
            final(self).subscriber_count() == old(self).subscriber_count(),
            old(self).spec_current_mode() == OperationMode::Macro ==> {
                &&& final(self).spec_macro_config().hotkeys@ == old(
                    self,
                ).spec_macro_config().hotkeys@.insert(operation@, hotkey@)
                &&& final(self).spec_intelligent_config() == old(self).spec_intelligent_config()
            },
            old(self).spec_current_mode() == OperationMode::Intelligent ==> {
                &&& final(self).spec_intelligent_config().hotkeys@ == old(
                    self,
                ).spec_intelligent_config().hotkeys@.insert(operation@, hotkey@)
                &&& final(self).spec_macro_config() == old(self).spec_macro_config()
            },
            final(self).events().len() == old(self).events().len() + 1,
            final(self).events().last() matches ModeChangeEvent::HotkeyUpdate {
                mode,
                operation: op,
                old_hotkey,
                new_hotkey,
            } && mode == old(self).spec_current_mode() && op@ == operation@ && new_hotkey@
                == hotkey@ && (old(self).active_hotkeys().contains_key(operation@)
                ==> (old_hotkey matches Some(h) && h@ == old(self).active_hotkeys()[operation@]))
                && (!old(self).active_hotkeys().contains_key(operation@) ==> old_hotkey is None),
    {
        let old_hotkey = match self.current_mode {
            OperationMode::Macro => {
                let old = match self.macro_config.hotkeys.get(operation.as_str()) {
                    Some(v) => Some(v.clone()),
                    None => None,
                };
                self.macro_config.hotkeys.insert(operation.clone(), hotkey.clone());
                old
            },
            OperationMode::Intelligent => {
                let old = match self.intelligent_config.hotkeys.get(operation.as_str()) {
                    Some(v) => Some(v.clone()),
                    None => None,
                };
                self.intelligent_config.hotkeys.insert(operation.clone(), hotkey.clone());
                old
            },
        };
        let event = ModeChangeEvent::HotkeyUpdate {
            mode: self.current_mode,
            operation,
            old_hotkey,
            new_hotkey: hotkey,
        };
        self.bus.publish(event);
        Ok(())
    }

    /// The features the active mode enables: the per-mode capabilities
    /// plus `overlay` when the overlay is on.
    pub fn get_current_enabled_features(&self) -> (r: Vec<String>)
        ensures
            self.spec_current_mode() == OperationMode::Macro ==> r@.map_values(|s: String| s@)
                == spec_macro_features(self.spec_macro_config()),
            self.spec_current_mode() == OperationMode::Intelligent ==> r@.map_values(
                |s: String| s@,
            ) == spec_intelligent_features(self.spec_intelligent_config()),
    {
        let mut features: Vec<String> = Vec::new();
        match self.current_mode {
            OperationMode::Macro => {
                if self.macro_config.battle_detection_enabled {
                    features.push("battle_detection".to_owned());
                }
                if self.macro_config.overlay_settings.enabled {
                    features.push("overlay".to_owned());
                }
                proof {
                    assert(features@.map_values(|s: String| s@) =~= spec_macro_features(
                        self.spec_macro_config(),
                    ));
                }
            },
            OperationMode::Intelligent => {
                let n = self.intelligent_config.intelligent_features.len();
                let mut i: usize = 0;
                while i < n
                    invariant
                        n == self.intelligent_config.intelligent_features@.len(),
                        i <= n,
                        features@.len() == i,
                        forall|j: int| 0 <= j < i ==> (#[trigger] features@[j])@
                            == (self.intelligent_config.intelligent_features@[j])@,
                    decreases n - i,
                {
                    features.push(self.intelligent_config.intelligent_features[i].clone());
                    i = i + 1;
                }
                if self.intelligent_config.overlay_settings.enabled {
                    features.push("overlay".to_owned());
                }
                proof {
                    assert(features@.map_values(|s: String| s@) =~= spec_intelligent_features(
                        self.spec_intelligent_config(),
                    ));
                }
            },
        }
        features
    }

    /// Validation of the active mode's configuration.
    pub fn validate_current_config(&self) -> (r: Result<(), ModeError>)
        requires
            self.wf(),
        ensures
            r is Ok <==> self.target_valid(self.spec_current_mode()),
            r matches Err(e) ==> e is ValidationError,
    {
        let validation = match self.current_mode {
            OperationMode::Macro => self.macro_config.validate(),
            OperationMode::Intelligent => self.intelligent_config.validate(),
        };
        match validation {
            Ok(()) => Ok(()),
            Err(msg) => Err(ModeError::ValidationError(msg)),
        }
    }

    /// Whether a switch to `mode` would pass validation.
    pub fn can_switch_to(&self, mode: OperationMode) -> (r: bool)
        requires
            self.wf(),
        ensures
            r == self.target_valid(mode),
    {
        let validation = match mode {
            OperationMode::Macro => self.macro_config.validate(),
            OperationMode::Intelligent => self.intelligent_config.validate(),
        };
        validation.is_ok()
    }

    /// The operation with this name, if defined.
    pub fn get_game_operation(&self, name: &str) -> (r: Option<&GameOperation>)
        requires
            self.wf(),
        ensures
            match r {
                Some(op) => has_op(self.operations(), name@) && op.name@ == name@
                    && *op == self.operations()[op_index(self.operations(), name@)],
                None => !has_op(self.operations(), name@),
            },
    {
        let k = name.to_owned();
        let n = self.game_operations.len();
        let mut i: usize = 0;
        while i < n
            invariant
                self.wf(),
                n == self.game_operations@.len(),
                i <= n,
                k@ == name@,
                forall|j: int| 0 <= j < i ==> (#[trigger] self.game_operations@[j]).name@ != k@,
            decreases n - i,
        {
            if self.game_operations[i].name == k {
                proof {
                    assert((self.game_operations@[i as int]).name@ == name@);
                    assert(has_op(self.operations(), name@));
                    let w = op_index(self.operations(), name@);
                    assert((self.operations()[w]).name@ == name@);
                    if w != i as int {
                        assert((self.operations()[w]).name@ != (self.operations()[i as int]).name@);
                        assert(false);
                    }
                }
                return Some(&self.game_operations[i]);
            }
            i = i + 1;
        }
        None
    }

    /// Every defined operation.
    pub fn get_all_game_operations(&self) -> (r: &Vec<GameOperation>)
        ensures
            r@ == self.operations(),
    {
        &self.game_operations
    }

    /// Define or replace the operation with `operation.name`.
    pub fn set_game_operation(&mut self, operation: GameOperation)
        requires
            old(self).wf(),
        ensures
            final(self).wf(),
            has_op(final(self).operations(), operation.name@),
            has_op(old(self).operations(), operation.name@) ==> final(self).operations() == old(
                self,
            ).operations().update(op_index(old(self).operations(), operation.name@), operation),
            !has_op(old(self).operations(), operation.name@) ==> final(self).operations() == old(
                self,
            ).operations().push(operation),
            final(self).spec_current_mode() == old(self).spec_current_mode(),
            final(self).events() == old(self).events(),
            final(self).history() == old(self).history(),
    {
        let n = self.game_operations.len();
        let mut i: usize = 0;
        while i < n
            invariant
                *self == *old(self),
                old(self).wf(),
                n == self.game_operations@.len(),
                i <= n,
                forall|j: int| 0 <= j < i ==> (#[trigger] self.game_operations@[j]).name@
                    != operation.name@,
            decreases n - i,
        {
            if self.game_operations[i].name == operation.name {
                let ghost before = self.game_operations@;
                proof {
                    assert((before[i as int]).name@ == operation.name@);
                    assert(has_op(before, operation.name@));
                }
                self.game_operations.remove(i);
                self.game_operations.insert(i, operation);
                proof {
                    assert(self.game_operations@ =~= before.update(i as int, operation));
                    let w = op_index(before, operation.name@);
                    assert(before[w].name@ == operation.name@);
                    if w != i as int {
                        assert(before[w].name@ != before[i as int].name@);
                        assert(false);
                    }
                    assert forall|a: int, b: int|
                        0 <= a < b < self.game_operations@.len()
                        implies (#[trigger] self.game_operations@[a]).name@
                            != (#[trigger] self.game_operations@[b]).name@ by {
                        assert(before[a].name@ != before[b].name@);
                    }
                    assert(has_op(self.game_operations@, operation.name@)) by {
                        assert((self.game_operations@[i as int]).name@ == operation.name@);
                    }
                }
                return ;
            }
            i = i + 1;
        }
        self.game_operations.push(operation);
        proof {
            assert((self.game_operations@[n as int]).name@ == operation.name@);
            assert(has_op(self.game_operations@, operation.name@));
        }
    }

    /// Open an independent cursor onto the mode-event stream.
    pub fn subscribe_events(&mut self) -> (id: usize)
        requires
            old(self).wf(),
        ensures
            final(self).wf(),
            id == old(self).subscriber_count(),
            final(self).subscriber_count() == old(self).subscriber_count() + 1,
            final(self).events() == old(self).events(),
            final(self).spec_current_mode() == old(self).spec_current_mode(),
            final(self).subscriber(id as int).missed == 0,
            final(self).subscriber(id as int).buffered == Seq::<ModeChangeEvent>::empty(),
    {
        self.bus.subscribe()
    }

    /// Advance a subscriber's cursor by one step, as [`EventBus::poll`]
    /// specifies.
    pub fn poll_event(&mut self, id: usize) -> (r: PollResult<ModeChangeEvent>)
        requires
            old(self).wf(),
            id < old(self).subscriber_count(),
        ensures
            final(self).wf(),
            final(self).events() == old(self).events(),
            final(self).spec_current_mode() == old(self).spec_current_mode(),
            final(self).subscriber_count() == old(self).subscriber_count(),
            match r {
                PollResult::Lagged(n) => old(self).subscriber(id as int).missed == n && n > 0,
                PollResult::Event(e) => old(self).subscriber(id as int).missed == 0 && old(
                    self,
                ).subscriber(id as int).buffered.len() > 0 && e == old(self).subscriber(
                    id as int,
                ).buffered.first(),
                PollResult::Empty => old(self).subscriber(id as int).missed == 0 && old(
                    self,
                ).subscriber(id as int).buffered.len() == 0,
            },
    {
        self.bus.poll(id)
    }

    /// The switch history, oldest first, bounded by the maximum.
    pub fn get_mode_history(&self) -> (r: &Vec<(OperationMode, u64)>)
        ensures
            r@ == self.history(),
    {
        &self.mode_history
    }

    /// Cap the history length, truncating the oldest entries.
    pub fn set_max_history(&mut self, max: usize)
        requires
            old(self).wf(),
        ensures
            final(self).wf(),
            final(self).max_history() == max,
            final(self).history().len() <= max,
            final(self).history() == old(self).history().skip(
                vstd::math::max(old(self).history().len() - max, 0),
            ),
            final(self).spec_current_mode() == old(self).spec_current_mode(),
            final(self).events() == old(self).events(),
    {
        self.max_history = max;
        if self.mode_history.len() > max {
            let excess = self.mode_history.len() - max;
            let mut k: usize = 0;
            while k < excess
                invariant
                    k <= excess,
                    excess == old(self).mode_history@.len() - max,
                    self.mode_history@ == old(self).mode_history@.skip(k as int),
                    self.max_history == max,
                    *self == (ModeManager { mode_history: self.mode_history, max_history: self.max_history, ..*old(self) }),
                decreases excess - k,
            {
                self.mode_history.remove(0);
                proof {
                    assert(self.mode_history@ =~= old(self).mode_history@.skip(k + 1 as int));
                }
                k = k + 1;
            }
        } else {
            proof {
                assert(self.mode_history@ =~= old(self).mode_history@.skip(0));
            }
        }
    }

    /// How often each mode appears in the history, and how much time the
    /// history attributes to it, the still-running segment of the current
    /// mode included.  The `now` reading is the one unknown: everything
    /// else is pinned to the history.
    pub fn get_mode_stats(&self) -> (r: Vec<(OperationMode, (usize, u64))>)
        ensures
            r@.len() == 2,
            r@[0].0 == OperationMode::Macro,
            r@[1].0 == OperationMode::Intelligent,
            r@[0].1.0 == count_mode(self.history(), OperationMode::Macro),
            r@[1].1.0 == count_mode(self.history(), OperationMode::Intelligent),
            exists|now: u64|
                r@[0].1.1 == #[trigger] stats_time(self.history(), OperationMode::Macro, self.spec_current_mode(), now)
                    && r@[1].1.1 == stats_time(self.history(), OperationMode::Intelligent, self.spec_current_mode(), now),
    {
        let h = &self.mode_history;
        let n = h.len();
        let mut macro_count: usize = 0;
        let mut intelligent_count: usize = 0;
        let mut macro_time: u64 = 0;
        let mut intelligent_time: u64 = 0;
        let mut i: usize = 0;
        while i < n
            invariant
                n == h@.len(),
                h@ == self.history(),
                i <= n,
                macro_count == count_mode(h@.subrange(0, i as int), OperationMode::Macro),
                intelligent_count == count_mode(h@.subrange(0, i as int), OperationMode::Intelligent),
                macro_time == mode_time(h@.subrange(0, i as int), OperationMode::Macro),
                intelligent_time == mode_time(h@.subrange(0, i as int), OperationMode::Intelligent),
            decreases n - i,
        {
            let ghost pre = h@.subrange(0, i as int);
            let ghost cur = h@.subrange(0, i + 1 as int);
            proof {
                assert(cur.drop_last() =~= pre);
                assert(cur.last() == h@[i as int]);
                assert(count_mode(pre, OperationMode::Macro) <= pre.len())
                    by { lemma_count_mode_bound(pre, OperationMode::Macro) };
                assert(count_mode(pre, OperationMode::Intelligent) <= pre.len())
                    by { lemma_count_mode_bound(pre, OperationMode::Intelligent) };
            }
            let entry_mode = h[i].0;
            let delta: u64 = if i > 0 {
                let prev_stamp = h[i - 1].1;
                let stamp = h[i].1;
                if stamp >= prev_stamp {
                    stamp - prev_stamp
                } else {
                    0
                }
            } else {
                0
            };
            match entry_mode {
                OperationMode::Macro => {
                    macro_count = macro_count + 1;
                    macro_time = sat_add_exec(macro_time, delta);
                },
                OperationMode::Intelligent => {
                    intelligent_count = intelligent_count + 1;
                    intelligent_time = sat_add_exec(intelligent_time, delta);
                },
            }
            i = i + 1;
        }
        proof {
            assert(h@.subrange(0, n as int) =~= h@);
        }
        // The segment since the last switch belongs to the current mode.
        let now = now_seconds();
        if n > 0 {
            let last_stamp = h[n - 1].1;
            let since = if now >= last_stamp {
                now - last_stamp
            } else {
                0
            };
            match self.current_mode {
                OperationMode::Macro => {
                    macro_time = sat_add_exec(macro_time, since);
                },
                OperationMode::Intelligent => {
                    intelligent_time = sat_add_exec(intelligent_time, since);
                },
            }
        }
        let mut r: Vec<(OperationMode, (usize, u64))> = Vec::new();
        r.push((OperationMode::Macro, (macro_count, macro_time)));
        r.push((OperationMode::Intelligent, (intelligent_count, intelligent_time)));
        proof {
            assert(r@[0].1.1 == stats_time(self.history(), OperationMode::Macro, self.spec_current_mode(), now)
                && r@[1].1.1 == stats_time(self.history(), OperationMode::Intelligent, self.spec_current_mode(), now));
        }
        r
    }

    /// Restore the defaults: both configurations, macro mode, the stock
    /// operations, and a cleared history; one `ConfigUpdate` event is
    /// published.
    pub fn reset_to_defaults(&mut self) -> (r: Result<(), ModeError>)
        requires
            old(self).wf(),
            old(self).events().len() < u64::MAX,
        ensures
            final(self).wf(),
            r is Ok,
            final(self).spec_current_mode() == OperationMode::Macro,
            final(self).spec_macro_config().is_default(),
            final(self).spec_intelligent_config().is_default(),
            final(self).spec_macro_config().spec_valid(),
            final(self).spec_intelligent_config().spec_valid(),
            crate::operations::is_default_operations(final(self).operations()),
            final(self).max_history() == old(self).max_history(),
            final(self).history().len() <= 1,
            final(self).max_history() >= 1 ==> final(self).history().len() == 1
                && final(self).history()[0].0 == OperationMode::Macro,
            final(self).max_history() == 0 ==> final(self).history().len() == 0,
            final(self).events().len() == old(self).events().len() + 1,
            final(self).events().last() matches ModeChangeEvent::ConfigUpdate { mode, config_type }
                && mode == OperationMode::Macro && config_type@ == "reset_to_defaults"@,
    {
        self.macro_config = MacroModeConfig::default();
        self.intelligent_config = IntelligentModeConfig::default();
        self.current_mode = OperationMode::Macro;
        self.game_operations = Self::initial_operations();
        self.mode_history.clear();
        self.add_to_history(OperationMode::Macro);
        let event = ModeChangeEvent::ConfigUpdate {
            mode: self.current_mode,
            config_type: "reset_to_defaults".to_owned(),
        };
        self.bus.publish(event);
        Ok(())
    }
}

impl Default for ModeManager {
    fn default() -> (m: Self)
        ensures
            m.wf(),
            m.spec_current_mode() == OperationMode::Macro,
    {
        ModeManager::new()
    }
}

/// The features the macro mode enables.
pub open spec fn spec_macro_features(c: MacroModeConfig) -> Seq<Seq<char>> {
    (if c.battle_detection_enabled {
        seq!["battle_detection"@]
    } else {
        Seq::empty()
    }) + (if c.overlay_settings.enabled {
        seq!["overlay"@]
    } else {
        Seq::empty()
    })
}

/// The features the intelligent mode enables.
pub open spec fn spec_intelligent_features(c: IntelligentModeConfig) -> Seq<Seq<char>> {
    c.intelligent_features@.map_values(|s: String| s@) + (if c.overlay_settings.enabled {
        seq!["overlay"@]
    } else {
        Seq::empty()
    })
}

/// Addition that stops at the largest representable value.
pub open spec fn sat_add(a: u64, b: u64) -> u64 {
    if a + b > u64::MAX {
        u64::MAX
    } else {
        (a + b) as u64
    }
}

/// Subtraction that stops at zero.
pub open spec fn sat_sub(a: u64, b: u64) -> u64 {
    if a >= b {
        (a - b) as u64
    } else {
        0
    }
}

fn sat_add_exec(a: u64, b: u64) -> (r: u64)
    ensures
        r == sat_add(a, b),
{
    if a > u64::MAX - b {
        u64::MAX
    } else {
        a + b
    }
}

/// How often a mode appears in the history.
pub open spec fn count_mode(h: Seq<(OperationMode, u64)>, m: OperationMode) -> int
    decreases h.len(),
{
    if h.len() == 0 {
        0
    } else {
        count_mode(h.drop_last(), m) + (if h.last().0 == m {
            1int
        } else {
            0
        })
    }
}

proof fn lemma_count_mode_bound(h: Seq<(OperationMode, u64)>, m: OperationMode)
    ensures
        0 <= count_mode(h, m) <= h.len(),
    decreases h.len(),
{
    if h.len() > 0 {
        lemma_count_mode_bound(h.drop_last(), m);
    }
}

/// The time the history attributes to a mode: each entry adds the
/// saturated interval since the previous entry to the mode it switched
/// to.
pub open spec fn mode_time(h: Seq<(OperationMode, u64)>, m: OperationMode) -> u64
    decreases h.len(),
{
    if h.len() <= 1 {
        0
    } else {
        let rest = mode_time(h.drop_last(), m);
        if h.last().0 == m {
            sat_add(rest, sat_sub(h.last().1, h[h.len() - 2].1))
        } else {
            rest
        }
    }
}

/// The statistics time for a mode: the history's attribution, plus the
/// still-running segment since the last switch when the mode is current.
pub open spec fn stats_time(
    h: Seq<(OperationMode, u64)>,
    m: OperationMode,
    current: OperationMode,
    now: u64,
) -> u64 {
    if h.len() > 0 && m == current {
        sat_add(mode_time(h, m), sat_sub(now, h.last().1))
    } else {
        mode_time(h, m)
    }
}

/// Equality on modes, spelled out so verified code need not rely on the
/// derived implementation.
fn mode_eq(a: OperationMode, b: OperationMode) -> (r: bool)
    ensures
        r == (a == b),
{
    a == b
}

} // verus!
