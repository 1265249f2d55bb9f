//! The in-game overlay's state: visibility, contents, geometry, and the
//! redraw schedule.  Drawing the surface itself is the rendering
//! collaborator's work; this component decides what is shown and when a
//! redraw is due.

use crate::config::OverlayDisplayMode;
use crate::config::OverlaySettings;
use crate::keymap::KeyTable;
use crate::operations::GameOperation;
use crate::window::WindowInfo;
use vstd::prelude::*;

verus! {

/// A hotkey reminder shown on the overlay.
#[derive(Debug, PartialEq)]
pub struct KeyHint {
    pub operation: String,
    pub key: String,
    pub description: String,
    pub enabled: bool,
}

impl Clone for KeyHint {
    fn clone(&self) -> (r: Self)
        ensures
            r == *self,
    {
        KeyHint {
            operation: self.operation.clone(),
            key: self.key.clone(),
            description: self.description.clone(),
            enabled: self.enabled,
        }
    }
}

/// Status lines shown on the overlay.
#[derive(Debug, PartialEq)]
pub struct StatusInfo {
    pub program_status: String,
    pub game_status: String,
    pub current_mode: String,
    pub extra_info: KeyTable,
}

/// One block of overlay content.
#[derive(Debug, PartialEq)]
pub enum OverlayContent {
    KeyHints(Vec<KeyHint>),
    StatusInfo(StatusInfo),
    CustomText(String),
}

/// Overlay geometry on screen.
#[derive(Debug, Clone, Copy, PartialEq, Eq, Structural)]
pub struct OverlayPosition {
    pub x: i32,
    pub y: i32,
    pub width: u32,
    pub height: u32,
}

impl Default for OverlayPosition {
    fn default() -> (p: Self)
        ensures
            p == (OverlayPosition { x: 100, y: 100, width: 300, height: 200 }),
    {
        OverlayPosition { x: 100, y: 100, width: 300, height: 200 }
    }
}

/// The key hints derived from a list of operations: one hint per enabled
/// operation, in order.
pub open spec fn spec_hints(ops: Seq<GameOperation>) -> Seq<KeyHint>
    decreases ops.len(),
{
    if ops.len() == 0 {
        Seq::empty()
    } else {
        spec_hints(ops.drop_last()) + (if ops.last().enabled {
            seq![
                KeyHint {
                    operation: ops.last().name,
                    key: ops.last().hotkey,
                    description: ops.last().name,
                    enabled: true,
                },
            ]
        } else {
            Seq::empty()
        })
    }
}

pub open spec fn is_status(c: OverlayContent) -> bool {
    c is StatusInfo
}

pub open spec fn has_status(content: Seq<OverlayContent>) -> bool {
    exists|i: int| 0 <= i < content.len() && is_status(#[trigger] content[i])
}

/// The overlay manager: what is shown, where, and whether it is due for a
/// redraw.
#[derive(Debug)]
pub struct OverlayManager {
    settings: OverlaySettings,
    visible: bool,
    pub content: Vec<OverlayContent>,
    position: OverlayPosition,
    last_update_ms: u64,
    update_interval_ms: u64,
    needs_redraw: bool,
}

impl OverlayManager {
    pub closed spec fn spec_settings(self) -> OverlaySettings {
        self.settings
    }

    /// The content blocks, in order.
    pub closed spec fn spec_content(self) -> Seq<OverlayContent> {
        self.content@
    }

    pub closed spec fn spec_visible(self) -> bool {
        self.visible
    }

    pub closed spec fn spec_position(self) -> OverlayPosition {
        self.position
    }

    pub closed spec fn spec_needs_redraw(self) -> bool {
        self.needs_redraw
    }

    pub closed spec fn spec_update_interval(self) -> u64 {
        self.update_interval_ms
    }

    /// When the last periodic tick was honored, in clock milliseconds.
    pub closed spec fn spec_last_update(self) -> u64 {
        self.last_update_ms
    }

    /// A tick at this time must be honored: the overlay is visible and
    /// the update interval has elapsed since the last honored tick.
    pub open spec fn tick_due(self, now_ms: u64) -> bool {
        &&& self.spec_visible()
        &&& now_ms >= self.spec_last_update()
        &&& now_ms - self.spec_last_update() >= self.spec_update_interval()
    }

    /// A hidden overlay with default settings and no content.
    pub fn new() -> (m: Self)
        ensures
            m.spec_settings() == OverlaySettings::default_spec(),
            !m.spec_visible(),
            m.spec_content() == Seq::<OverlayContent>::empty(),
            m.spec_position() == (OverlayPosition { x: 100, y: 100, width: 300, height: 200 }),
            m.spec_update_interval() == 100,
            !m.spec_needs_redraw(),
    {
        OverlayManager {
            settings: OverlaySettings::default(),
            visible: false,
            content: Vec::new(),
            position: OverlayPosition::default(),
            last_update_ms: 0,
            update_interval_ms: 100,
            needs_redraw: false,
        }
    }

    /// A hidden overlay with the given settings.
    pub fn with_settings(settings: OverlaySettings) -> (m: Self)
        ensures
            m.spec_settings() == settings,
            !m.spec_visible(),
            m.spec_content() == Seq::<OverlayContent>::empty(),
            m.spec_update_interval() == 100,
            !m.spec_needs_redraw(),
    {
        OverlayManager {
            settings,
            visible: false,
            content: Vec::new(),
            position: OverlayPosition::default(),
            last_update_ms: 0,
            update_interval_ms: 100,
            needs_redraw: false,
        }
    }

    /// Make the overlay visible.  Disabled settings make this a no-op, as
    /// does an already-visible overlay; otherwise it becomes visible and
    /// due for a redraw.  The rendering layer reacts to the visibility.
    pub fn show(&mut self) -> (r: Result<(), crate::errors::AppError>)
        ensures
            r is Ok,
            final(self).spec_settings() == old(self).spec_settings(),
            final(self).spec_content() == old(self).spec_content(),
            final(self).spec_position() == old(self).spec_position(),
            !old(self).spec_settings().enabled ==> *final(self) == *old(self),
            old(self).spec_settings().enabled && old(self).spec_visible() ==> *final(self) == *old(
                self,
            ),
            old(self).spec_settings().enabled && !old(self).spec_visible()
                ==> final(self).spec_visible() && final(self).spec_needs_redraw(),
    {
        if !self.settings.enabled {
            return Ok(());
        }
        if self.visible {
            return Ok(());
        }
        self.visible = true;
        self.needs_redraw = true;
        Ok(())
    }

    /// Hide the overlay; nothing else changes.
    pub fn hide_overlay(&mut self)
        ensures
            !final(self).spec_visible(),
            final(self).spec_settings() == old(self).spec_settings(),
            final(self).spec_content() == old(self).spec_content(),
            final(self).spec_position() == old(self).spec_position(),
    {
        self.visible = false;
    }

    /// Adopt new settings.  A change of the enabled flag shows or hides
    /// the overlay accordingly; a change of transparency or display mode
    /// schedules a redraw.
    pub fn update_settings(&mut self, settings: OverlaySettings)
        ensures
            final(self).spec_settings() == settings,
            final(self).spec_content() == old(self).spec_content(),
            final(self).spec_position() == old(self).spec_position(),
            settings.enabled && !old(self).spec_settings().enabled && !old(self).spec_visible()
                ==> final(self).spec_visible() && final(self).spec_needs_redraw(),
            !settings.enabled ==> !final(self).spec_visible(),
            settings.enabled && settings.enabled == old(self).spec_settings().enabled
                ==> final(self).spec_visible() == old(self).spec_visible(),
            old(self).spec_settings().transparency != settings.transparency
                || old(self).spec_settings().display_mode != settings.display_mode
                ==> final(self).spec_needs_redraw(),
    {
        let old_enabled = self.settings.enabled;
        let old_transparency = self.settings.transparency;
        let old_display_mode = self.settings.display_mode;
        self.settings = settings;
        if self.settings.enabled && !old_enabled && !self.visible {
            self.visible = true;
            self.needs_redraw = true;
        }
        if !self.settings.enabled {
            self.visible = false;
        }
        if old_transparency != self.settings.transparency || !display_mode_eq(
            old_display_mode,
            self.settings.display_mode,
        ) {
            self.needs_redraw = true;
        }
    }

    /// Whether the overlay should be drawn right now, given the session
    /// window's status and whether the application is in the foreground.
    pub fn should_show(&self, window_state: &WindowInfo, app_foreground: bool) -> (r: bool)
        ensures
            r == (self.spec_settings().enabled && match self.spec_settings().display_mode {
                OverlayDisplayMode::Always => true,
                OverlayDisplayMode::WhenForeground => app_foreground,
                OverlayDisplayMode::OnlyAboveProgram => app_foreground
                    && window_state.is_foreground,
            }),
    {
        if !self.settings.enabled {
            return false;
        }
        match self.settings.display_mode {
            OverlayDisplayMode::Always => true,
            OverlayDisplayMode::WhenForeground => app_foreground,
            OverlayDisplayMode::OnlyAboveProgram => app_foreground && window_state.is_foreground,
        }
    }

    /// Replace the whole content and schedule a redraw.
    pub fn update_content(&mut self, content: Vec<OverlayContent>)
        ensures
            final(self).spec_content() == content@,
            final(self).spec_needs_redraw(),
            final(self).spec_settings() == old(self).spec_settings(),
            final(self).spec_visible() == old(self).spec_visible(),
            final(self).spec_position() == old(self).spec_position(),
    {
        self.content = content;
        self.needs_redraw = true;
    }

    /// Append one key-hint block derived from the enabled operations and
    /// schedule a redraw.
    pub fn add_key_hints(&mut self, operations: &Vec<GameOperation>)
        ensures
            final(self).spec_content().len() == old(self).spec_content().len() + 1,
            forall|i: int| 0 <= i < old(self).spec_content().len()
                ==> final(self).spec_content()[i] == #[trigger] old(self).spec_content()[i],
            final(self).spec_content().last() matches OverlayContent::KeyHints(hints) && hints@
                == spec_hints(operations@),
            final(self).spec_needs_redraw(),
            final(self).spec_settings() == old(self).spec_settings(),
            final(self).spec_visible() == old(self).spec_visible(),
    {
        let n = operations.len();
        let mut hints: Vec<KeyHint> = Vec::new();
        let mut i: usize = 0;
        while i < n
            invariant
                n == operations@.len(),
                i <= n,
                hints@ == spec_hints(operations@.subrange(0, i as int)),
            decreases n - i,
        {
            let op = &operations[i];
            if op.enabled {
                hints.push(KeyHint {
                    operation: op.name.clone(),
                    key: op.hotkey.clone(),
                    description: op.name.clone(),
                    enabled: true,
                });
            }
            proof {
                let pre = operations@.subrange(0, i as int);
                let cur = operations@.subrange(0, i + 1 as int);
                assert(cur.drop_last() =~= pre);
                assert(cur.last() == operations@[i as int]);
            }
            i = i + 1;
        }
        proof {
            assert(operations@.subrange(0, n as int) =~= operations@);
        }
        self.content.push(OverlayContent::KeyHints(hints));
        self.needs_redraw = true;
    }

    /// Update the status block in place, or append one if none is shown
    /// yet, and schedule a redraw.
    pub fn update_status(&mut self, status: StatusInfo)
        ensures
            final(self).spec_needs_redraw(),
            final(self).spec_settings() == old(self).spec_settings(),
            final(self).spec_visible() == old(self).spec_visible(),
            !has_status(old(self).spec_content()) ==> final(self).spec_content() == old(self).spec_content().push(
                OverlayContent::StatusInfo(status),
            ),
            has_status(old(self).spec_content()) ==> exists|i: int|
                0 <= i < old(self).spec_content().len() && is_status(#[trigger] old(self).spec_content()[i])
                    && final(self).spec_content() == old(self).spec_content().update(
                    i,
                    OverlayContent::StatusInfo(status),
                ),
    {
        let n = self.content.len();
        let mut i: usize = 0;
        while i < n
            invariant
                *self == *old(self),
                n == self.content@.len(),
                i <= n,
                forall|j: int| 0 <= j < i ==> !is_status(#[trigger] self.content@[j]),
            decreases n - i,
        {
            let found = matches!(&self.content[i], OverlayContent::StatusInfo(_));
            if found {
                let ghost before = self.content@;
                self.content.remove(i);
                self.content.insert(i, OverlayContent::StatusInfo(status));
                self.needs_redraw = true;
                proof {
                    assert(self.content@ =~= before.update(i as int, OverlayContent::StatusInfo(status)));
                    assert(is_status(before[i as int]));
                }
                return ;
            }
            i = i + 1;
        }
        self.content.push(OverlayContent::StatusInfo(status));
        self.needs_redraw = true;
    }

    /// Move and resize the overlay; schedules a redraw.
    pub fn set_position(&mut self, position: OverlayPosition)
        ensures
            final(self).spec_position() == position,
            final(self).spec_needs_redraw(),
            final(self).spec_content() == old(self).spec_content(),
            final(self).spec_settings() == old(self).spec_settings(),
            final(self).spec_visible() == old(self).spec_visible(),
    {
        self.position = position;
        self.needs_redraw = true;
    }

    pub fn get_position(&self) -> (p: OverlayPosition)
        ensures
            p == self.spec_position(),
    {
        self.position
    }

    pub fn is_visible(&self) -> (r: bool)
        ensures
            r == self.spec_visible(),
    {
        self.visible
    }

    pub fn get_settings(&self) -> (r: &OverlaySettings)
        ensures
            *r == self.spec_settings(),
    {
        &self.settings
    }

    /// The periodic tick: reports whether the rendering layer must redraw
    /// now.  Nothing is due while hidden or before the update interval has
    /// elapsed; a due tick claims the pending redraw, exactly once.
    pub fn update(&mut self, now_ms: u64) -> (redraw: bool)
        ensures
            final(self).spec_settings() == old(self).spec_settings(),
            final(self).spec_content() == old(self).spec_content(),
            final(self).spec_visible() == old(self).spec_visible(),
            final(self).spec_position() == old(self).spec_position(),
            final(self).spec_update_interval() == old(self).spec_update_interval(),
            !old(self).tick_due(now_ms) ==> !redraw && *final(self) == *old(self),
            old(self).tick_due(now_ms) ==> {
                &&& redraw == old(self).spec_needs_redraw()
                &&& !final(self).spec_needs_redraw()
                &&& final(self).spec_last_update() == now_ms
            },
    {
        if !self.visible {
            return false;
        }
        if now_ms < self.last_update_ms || now_ms - self.last_update_ms < self.update_interval_ms {
            return false;
        }
        self.last_update_ms = now_ms;
        if self.needs_redraw {
            self.needs_redraw = false;
            true
        } else {
            false
        }
    }

    /// Drop every content block and schedule a redraw.
    pub fn clear_content(&mut self)
        ensures
            final(self).spec_content() == Seq::<OverlayContent>::empty(),
            final(self).spec_needs_redraw(),
            final(self).spec_settings() == old(self).spec_settings(),
            final(self).spec_visible() == old(self).spec_visible(),
    {
        self.content.clear();
        self.needs_redraw = true;
    }

    /// Change how often the periodic tick may redraw.
    pub fn set_update_interval(&mut self, interval_ms: u64)
        ensures
            final(self).spec_update_interval() == interval_ms,
            final(self).spec_content() == old(self).spec_content(),
            final(self).spec_settings() == old(self).spec_settings(),
            final(self).spec_visible() == old(self).spec_visible(),
    {
        self.update_interval_ms = interval_ms;
    }
}

impl Default for OverlayManager {
    fn default() -> (m: Self)
        ensures
            !m.spec_visible(),
            m.spec_content() == Seq::<OverlayContent>::empty(),
    {
        OverlayManager::new()
    }
}

/// Equality on display modes, spelled out so verified code need not rely
/// on the derived implementation.
fn display_mode_eq(a: OverlayDisplayMode, b: OverlayDisplayMode) -> (r: bool)
    ensures
        r == (a == b),
{
    a == b
}

} // verus!
