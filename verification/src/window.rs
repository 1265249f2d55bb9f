//! Window data: geometry of the session window and the detection
//! configuration.

use vstd::prelude::*;

verus! {

/// A snapshot of one top-level window: identity, geometry and status.
#[derive(Debug, PartialEq)]
pub struct WindowInfo {
    /// Opaque platform window id.
    pub handle: u64,
    /// Top-left corner on screen (x, y).
    pub position: (i32, i32),
    /// Extent in pixels (width, height).
    pub size: (u32, u32),
    pub title: String,
    pub process_id: u32,
    pub is_visible: bool,
    pub is_foreground: bool,
}

impl Clone for WindowInfo {
    fn clone(&self) -> (r: Self)
        ensures
            r == *self,
    {
        WindowInfo {
            handle: self.handle,
            position: (self.position.0, self.position.1),
            size: (self.size.0, self.size.1),
            title: self.title.clone(),
            process_id: self.process_id,
            is_visible: self.is_visible,
            is_foreground: self.is_foreground,
        }
    }
}

impl WindowInfo {
    /// A window record with the given identity and no geometry yet.
    pub fn new(handle: u64, title: String) -> (w: Self)
        ensures
            w.handle == handle,
            w.title == title,
            w.position == (0i32, 0i32),
            w.size == (0u32, 0u32),
            w.process_id == 0,
            w.is_visible == false,
            w.is_foreground == false,
    {
        WindowInfo {
            handle,
            position: (0, 0),
            size: (0, 0),
            title,
            process_id: 0,
            is_visible: false,
            is_foreground: false,
        }
    }

    /// The screen point `(x, y)` lies inside the window rectangle.
    pub open spec fn spec_contains_point(self, x: int, y: int) -> bool {
        &&& self.position.0 <= x < self.position.0 + self.size.0
        &&& self.position.1 <= y < self.position.1 + self.size.1
    }

    pub fn contains_point(&self, x: i32, y: i32) -> (r: bool)
        ensures
            r == self.spec_contains_point(x as int, y as int),
    {
        let xl = x as i64;
        let yl = y as i64;
        let px = self.position.0 as i64;
        let py = self.position.1 as i64;
        xl >= px && xl < px + self.size.0 as i64 && yl >= py && yl < py + self.size.1 as i64
    }

    /// The window's center point.
    pub open spec fn spec_center(self) -> (int, int) {
        (self.position.0 + self.size.0 / 2, self.position.1 + self.size.1 / 2)
    }

    pub fn center(&self) -> (r: (i32, i32))
        requires
            i32::MIN <= self.spec_center().0 <= i32::MAX,
            i32::MIN <= self.spec_center().1 <= i32::MAX,
        ensures
            r.0 == self.spec_center().0,
            r.1 == self.spec_center().1,
    {
        let cx = self.position.0 as i64 + (self.size.0 / 2) as i64;
        let cy = self.position.1 as i64 + (self.size.1 / 2) as i64;
        (cx as i32, cy as i32)
    }

    /// Translate a screen point into window coordinates.  The result is
    /// the offset from the top-left corner when the point lies inside the
    /// window and the offset is representable; otherwise nothing.
    pub fn screen_to_window_coords(&self, screen_x: i32, screen_y: i32) -> (r: Option<(i32, i32)>)
        ensures
            r matches Some(p) <==> {
                &&& self.spec_contains_point(screen_x as int, screen_y as int)
                &&& screen_x - self.position.0 <= i32::MAX
                &&& screen_y - self.position.1 <= i32::MAX
            },
            r matches Some(p) ==> p.0 == screen_x - self.position.0 && p.1 == screen_y
                - self.position.1,
    {
        let dx = screen_x as i64 - self.position.0 as i64;
        let dy = screen_y as i64 - self.position.1 as i64;
        if dx >= 0 && dx < self.size.0 as i64 && dy >= 0 && dy < self.size.1 as i64 && dx
            <= i32::MAX as i64 && dy <= i32::MAX as i64 {
            Some((dx as i32, dy as i32))
        } else {
            None
        }
    }

    /// Translate window coordinates back onto the screen, when the result
    /// is representable.
    pub fn window_to_screen_coords(&self, window_x: i32, window_y: i32) -> (r: Option<(i32, i32)>)
        ensures
            r matches Some(p) <==> {
                &&& i32::MIN <= self.position.0 + window_x <= i32::MAX
                &&& i32::MIN <= self.position.1 + window_y <= i32::MAX
            },
            r matches Some(p) ==> p.0 == self.position.0 + window_x && p.1 == self.position.1
                + window_y,
    {
        let sx = self.position.0 as i64 + window_x as i64;
        let sy = self.position.1 as i64 + window_y as i64;
        if sx >= i32::MIN as i64 && sx <= i32::MAX as i64 && sy >= i32::MIN as i64 && sy
            <= i32::MAX as i64 {
            Some((sx as i32, sy as i32))
        } else {
            None
        }
    }
}

/// How the tracker recognizes the target window; immutable per tracker.
#[derive(Debug, PartialEq)]
pub struct WindowDetectionConfig {
    /// Substring the window title must contain.
    pub target_window_title: String,
    /// Substring the process name must contain, compared case-insensitively.
    pub target_process_name: String,
    /// Poll interval of the detection loop.
    pub detection_interval_ms: u64,
    pub visible_only: bool,
    pub foreground_only: bool,
}

impl Clone for WindowDetectionConfig {
    fn clone(&self) -> (r: Self)
        ensures
            r == *self,
    {
        WindowDetectionConfig {
            target_window_title: self.target_window_title.clone(),
            target_process_name: self.target_process_name.clone(),
            detection_interval_ms: self.detection_interval_ms,
            visible_only: self.visible_only,
            foreground_only: self.foreground_only,
        }
    }
}

impl Default for WindowDetectionConfig {
    fn default() -> (c: Self)
        ensures
            c.target_window_title@ == "明日方舟"@,
            c.target_process_name@ == "Arknights.exe"@,
            c.detection_interval_ms == 1000,
            c.visible_only == true,
            c.foreground_only == false,
    {
        WindowDetectionConfig {
            target_window_title: "明日方舟".to_owned(),
            target_process_name: "Arknights.exe".to_owned(),
            detection_interval_ms: 1000,
            visible_only: true,
            foreground_only: false,
        }
    }
}

/// Kinds of on-screen UI elements the vision collaborator reports.
#[derive(Debug, Clone, Copy, PartialEq, Eq, Structural)]
pub enum UIElementType {
    Operator,
    Skill,
    DeployButton,
    PauseButton,
    RetreatButton,
    Unknown,
}

} // verus!
