//! Input actions, action sequences, and the predefined game operations.

use vstd::prelude::*;

verus! {

/// One primitive input action.
#[derive(Debug, PartialEq)]
pub enum ActionType {
    /// Press and release a named key.
    KeyPress(String),
    /// Move the pointer to screen coordinates.
    MouseMove(i32, i32),
    /// Click a button at screen coordinates.
    MouseClick(MouseButton, i32, i32),
    /// Pause for the given number of milliseconds.
    Wait(u64),
}

impl Clone for ActionType {
    fn clone(&self) -> (r: Self)
        ensures
            r == *self,
    {
        match self {
            ActionType::KeyPress(k) => ActionType::KeyPress(k.clone()),
            ActionType::MouseMove(x, y) => ActionType::MouseMove(*x, *y),
            ActionType::MouseClick(b, x, y) => ActionType::MouseClick(*b, *x, *y),
            ActionType::Wait(ms) => ActionType::Wait(*ms),
        }
    }
}

#[derive(Debug, Clone, Copy, PartialEq, Eq, Structural)]
pub enum MouseButton {
    Left,
    Right,
    Middle,
}

/// An ordered list of actions replayed as one unit.
#[derive(Debug, PartialEq)]
pub struct ActionSequence {
    pub actions: Vec<ActionType>,
    pub name: String,
    pub description: Option<String>,
}

impl Clone for ActionSequence {
    fn clone(&self) -> (r: Self)
        ensures
            r.name == self.name,
            r.description == self.description,
            r.actions@.len() == self.actions@.len(),
    {
        let n = self.actions.len();
        let mut actions: Vec<ActionType> = Vec::new();
        let mut i: usize = 0;
        while i < n
            invariant
                n == self.actions@.len(),
                i <= n,
                actions@.len() == i,
            decreases n - i,
        {
            actions.push(self.actions[i].clone());
            i = i + 1;
        }
        let description = match &self.description {
            Some(d) => Some(d.clone()),
            None => None,
        };
        ActionSequence { actions, name: self.name.clone(), description }
    }
}

impl ActionSequence {
    /// An empty sequence with the given name.
    pub fn new(name: String) -> (s: Self)
        ensures
            s.actions@ == Seq::<ActionType>::empty(),
            s.name == name,
            s.description is None,
    {
        ActionSequence { actions: Vec::new(), name, description: None }
    }

    /// Append an action at the end.
    pub fn add_action(&mut self, action: ActionType)
        ensures
            final(self).actions@ == old(self).actions@.push(action),
            final(self).name == old(self).name,
            final(self).description == old(self).description,
    {
        self.actions.push(action);
    }

    /// Append a key press.
    pub fn add_key_press(&mut self, key: String)
        ensures
            final(self).actions@ == old(self).actions@.push(ActionType::KeyPress(key)),
            final(self).name == old(self).name,
            final(self).description == old(self).description,
    {
        self.actions.push(ActionType::KeyPress(key));
    }

    /// Append a mouse click.
    pub fn add_mouse_click(&mut self, button: MouseButton, x: i32, y: i32)
        ensures
            final(self).actions@ == old(self).actions@.push(ActionType::MouseClick(button, x, y)),
            final(self).name == old(self).name,
            final(self).description == old(self).description,
    {
        self.actions.push(ActionType::MouseClick(button, x, y));
    }

    /// Append a pause of the given milliseconds.
    pub fn add_wait(&mut self, duration_ms: u64)
        ensures
            final(self).actions@ == old(self).actions@.push(ActionType::Wait(duration_ms)),
            final(self).name == old(self).name,
            final(self).description == old(self).description,
    {
        self.actions.push(ActionType::Wait(duration_ms));
    }

    /// How many actions the sequence holds.
    pub fn len(&self) -> (n: usize)
        ensures
            n == self.actions@.len(),
    {
        self.actions.len()
    }

    pub fn is_empty(&self) -> (r: bool)
        ensures
            r == (self.actions@.len() == 0),
    {
        self.actions.len() == 0
    }
}

/// A named operation: its trigger hotkey, the in-game key it presses, and
/// the action sequence that performs it.
#[derive(Debug, PartialEq)]
pub struct GameOperation {
    pub name: String,
    pub hotkey: String,
    pub game_key: String,
    pub sequence: ActionSequence,
    pub enabled: bool,
}

impl Clone for GameOperation {
    fn clone(&self) -> (r: Self)
        ensures
            r.name == self.name,
            r.hotkey == self.hotkey,
            r.game_key == self.game_key,
            r.enabled == self.enabled,
    {
        GameOperation {
            name: self.name.clone(),
            hotkey: self.hotkey.clone(),
            game_key: self.game_key.clone(),
            sequence: self.sequence.clone(),
            enabled: self.enabled,
        }
    }
}

impl GameOperation {
    /// An enabled operation with an empty sequence named after it.
    pub fn new(name: String, hotkey: String, game_key: String) -> (op: Self)
        ensures
            op.name == name,
            op.hotkey == hotkey,
            op.game_key == game_key,
            op.sequence.actions@ == Seq::<ActionType>::empty(),
            op.sequence.name == name,
            op.enabled == true,
    {
        let sequence = ActionSequence::new(name.clone());
        GameOperation { name, hotkey, game_key, sequence, enabled: true }
    }
}

/// The operation is the stock "deploy an operator" one.
pub open spec fn deploy_operator_spec(op: GameOperation) -> bool {
    &&& op.name@ == "deploy_operator"@
    &&& op.hotkey@ == "1"@
    &&& op.game_key@ == "1"@
    &&& op.enabled
    &&& op.sequence.actions@.len() == 2
    &&& op.sequence.actions@[0] matches ActionType::KeyPress(k) && k@ == "1"@
    &&& op.sequence.actions@[1] == ActionType::Wait(100)
}

/// The operation is the stock "activate a skill" one.
pub open spec fn activate_skill_spec(op: GameOperation) -> bool {
    &&& op.name@ == "activate_skill"@
    &&& op.hotkey@ == "2"@
    &&& op.game_key@ == "Space"@
    &&& op.enabled
    &&& op.sequence.actions@.len() == 2
    &&& op.sequence.actions@[0] matches ActionType::KeyPress(k) && k@ == "Space"@
    &&& op.sequence.actions@[1] == ActionType::Wait(50)
}

/// The operation is the stock "retreat an operator" one.
pub open spec fn retreat_operator_spec(op: GameOperation) -> bool {
    &&& op.name@ == "retreat_operator"@
    &&& op.hotkey@ == "3"@
    &&& op.game_key@ == "Delete"@
    &&& op.enabled
    &&& op.sequence.actions@.len() == 2
    &&& op.sequence.actions@[0] matches ActionType::KeyPress(k) && k@ == "Delete"@
    &&& op.sequence.actions@[1] == ActionType::Wait(100)
}

/// The operation is the stock "focus the view" one.
pub open spec fn focus_view_spec(op: GameOperation) -> bool {
    &&& op.name@ == "focus_view"@
    &&& op.hotkey@ == "4"@
    &&& op.game_key@ == "F"@
    &&& op.enabled
    &&& op.sequence.actions@.len() == 2
    &&& op.sequence.actions@[0] matches ActionType::KeyPress(k) && k@ == "F"@
    &&& op.sequence.actions@[1] == ActionType::Wait(50)
}

/// The operation is the stock "pause the game" one.
pub open spec fn pause_game_spec(op: GameOperation) -> bool {
    &&& op.name@ == "pause_game"@
    &&& op.hotkey@ == "Space"@
    &&& op.game_key@ == "Escape"@
    &&& op.enabled
    &&& op.sequence.actions@.len() == 2
    &&& op.sequence.actions@[0] matches ActionType::KeyPress(k) && k@ == "Escape"@
    &&& op.sequence.actions@[1] == ActionType::Wait(100)
}

/// The list holds exactly the five stock operations, in their canonical
/// order.
pub open spec fn is_default_operations(ops: Seq<GameOperation>) -> bool {
    &&& ops.len() == 5
    &&& deploy_operator_spec(ops[0])
    &&& activate_skill_spec(ops[1])
    &&& retreat_operator_spec(ops[2])
    &&& focus_view_spec(ops[3])
    &&& pause_game_spec(ops[4])
}

/// The operations every fresh mode manager starts with.
pub struct DefaultOperations;

impl DefaultOperations {
    /// All five stock operations, in their canonical order.
    pub fn get_default_operations() -> (ops: Vec<GameOperation>)
        ensures
            is_default_operations(ops@),
            ops@.len() == 5,
    {
        let mut ops: Vec<GameOperation> = Vec::new();
        ops.push(Self::deploy_operator());
        ops.push(Self::activate_skill());
        ops.push(Self::retreat_operator());
        ops.push(Self::focus_view());
        ops.push(Self::pause_game());
        ops
    }

    /// Drag an operator out: press its number, then settle briefly.
    pub fn deploy_operator() -> (op: GameOperation)
        ensures
            deploy_operator_spec(op),
            op.name@ == "deploy_operator"@,
            op.hotkey@ == "1"@,
            op.game_key@ == "1"@,
            op.enabled,
            op.sequence.actions@.len() == 2,
            op.sequence.actions@[0] matches ActionType::KeyPress(k) && k@ == "1"@,
            op.sequence.actions@[1] == ActionType::Wait(100),
    {
        let mut op = GameOperation::new("deploy_operator".to_owned(), "1".to_owned(), "1".to_owned());
        op.sequence.add_key_press("1".to_owned());
        op.sequence.add_wait(100);
        op
    }

    /// Activate the selected operator's skill.
    pub fn activate_skill() -> (op: GameOperation)
        ensures
            activate_skill_spec(op),
            op.name@ == "activate_skill"@,
            op.hotkey@ == "2"@,
            op.game_key@ == "Space"@,
            op.enabled,
            op.sequence.actions@.len() == 2,
            op.sequence.actions@[0] matches ActionType::KeyPress(k) && k@ == "Space"@,
            op.sequence.actions@[1] == ActionType::Wait(50),
    {
        let mut op = GameOperation::new("activate_skill".to_owned(), "2".to_owned(), "Space".to_owned());
        op.sequence.add_key_press("Space".to_owned());
        op.sequence.add_wait(50);
        op
    }

    /// Retreat the selected operator.
    pub fn retreat_operator() -> (op: GameOperation)
        ensures
            retreat_operator_spec(op),
            op.name@ == "retreat_operator"@,
            op.hotkey@ == "3"@,
            op.game_key@ == "Delete"@,
            op.enabled,
            op.sequence.actions@.len() == 2,
            op.sequence.actions@[0] matches ActionType::KeyPress(k) && k@ == "Delete"@,
            op.sequence.actions@[1] == ActionType::Wait(100),
    {
        let mut op = GameOperation::new("retreat_operator".to_owned(), "3".to_owned(), "Delete".to_owned());
        op.sequence.add_key_press("Delete".to_owned());
        op.sequence.add_wait(100);
        op
    }

    /// Focus the view on the battlefield.
    pub fn focus_view() -> (op: GameOperation)
        ensures
            focus_view_spec(op),
            op.name@ == "focus_view"@,
            op.hotkey@ == "4"@,
            op.game_key@ == "F"@,
            op.enabled,
            op.sequence.actions@.len() == 2,
            op.sequence.actions@[0] matches ActionType::KeyPress(k) && k@ == "F"@,
            op.sequence.actions@[1] == ActionType::Wait(50),
    {
        let mut op = GameOperation::new("focus_view".to_owned(), "4".to_owned(), "F".to_owned());
        op.sequence.add_key_press("F".to_owned());
        op.sequence.add_wait(50);
        op
    }

    /// Pause the game.
    pub fn pause_game() -> (op: GameOperation)
        ensures
            pause_game_spec(op),
            op.name@ == "pause_game"@,
            op.hotkey@ == "Space"@,
            op.game_key@ == "Escape"@,
            op.enabled,
            op.sequence.actions@.len() == 2,
            op.sequence.actions@[0] matches ActionType::KeyPress(k) && k@ == "Escape"@,
            op.sequence.actions@[1] == ActionType::Wait(100),
    {
        let mut op = GameOperation::new("pause_game".to_owned(), "Space".to_owned(), "Escape".to_owned());
        op.sequence.add_key_press("Escape".to_owned());
        op.sequence.add_wait(100);
        op
    }
}

} // verus!
