//! The window-session tracker: matching the target window among the
//! enumerated top-level windows and maintaining the session.
//!
//! The operating-system enumeration and the polling thread live in the
//! surrounding application; each poll hands the candidate list to
//! [`WindowService::process_poll`], which decides what the session becomes
//! and which event, if any, to deliver.

use crate::errors::WindowError;
use crate::textops::contains_sub;
use crate::textops::is_substring_of;
use crate::textops::lower_of;
use crate::textops::lowercase;
use crate::window::WindowDetectionConfig;
use crate::window::WindowInfo;
use vstd::prelude::*;

verus! {

/// What one poll of the tracker observed.
#[derive(Debug, PartialEq)]
pub enum WindowEvent {
    /// A target window appeared where no session was held.
    WindowFound(WindowInfo),
    /// The session window disappeared.
    WindowLost,
    /// The session window moved, resized, or was replaced.
    WindowUpdated(WindowInfo),
}

impl Clone for WindowEvent {
    fn clone(&self) -> (r: Self)
        ensures
            r == *self,
    {
        match self {
            WindowEvent::WindowFound(w) => WindowEvent::WindowFound(w.clone()),
            WindowEvent::WindowLost => WindowEvent::WindowLost,
            WindowEvent::WindowUpdated(w) => WindowEvent::WindowUpdated(w.clone()),
        }
    }
}

/// One enumerated top-level window, together with the name of the process
/// that owns it.
#[derive(Debug, PartialEq)]
pub struct CandidateWindow {
    pub info: WindowInfo,
    pub process_name: String,
}

impl Clone for CandidateWindow {
    fn clone(&self) -> (r: Self)
        ensures
            r == *self,
    {
        CandidateWindow { info: self.info.clone(), process_name: self.process_name.clone() }
    }
}

/// The candidate survives the visibility and foreground filters.
pub open spec fn passes_filters(c: CandidateWindow, cfg: WindowDetectionConfig) -> bool {
    &&& (cfg.visible_only ==> c.info.is_visible)
    &&& (cfg.foreground_only ==> c.info.is_foreground)
}

/// The candidate is the target: it survives the filters, its title
/// contains the configured title substring, and its process name contains
/// the configured process substring, case-insensitively.
pub open spec fn matches_target(c: CandidateWindow, cfg: WindowDetectionConfig) -> bool {
    &&& passes_filters(c, cfg)
    &&& is_substring_of(cfg.target_window_title@, c.info.title@)
    &&& is_substring_of(lower_of(cfg.target_process_name@), lower_of(c.process_name@))
}

/// The first matching candidate, in enumeration order — the tracker's
/// explicit tie-break.
pub open spec fn first_match(cands: Seq<CandidateWindow>, cfg: WindowDetectionConfig) -> Option<
    WindowInfo,
>
    decreases cands.len(),
{
    if cands.len() == 0 {
        None
    } else if matches_target(cands.first(), cfg) {
        Some(cands.first().info)
    } else {
        first_match(cands.drop_first(), cfg)
    }
}

proof fn lemma_first_match_from(cands: Seq<CandidateWindow>, cfg: WindowDetectionConfig, i: int)
    requires
        0 <= i <= cands.len(),
        forall|j: int| 0 <= j < i ==> !matches_target(#[trigger] cands[j], cfg),
    ensures
        first_match(cands, cfg) == first_match(cands.skip(i), cfg),
    decreases i,
{
    if i == 0 {
        assert(cands.skip(0) =~= cands);
    } else {
        lemma_first_match_from(cands, cfg, i - 1);
        let rest = cands.skip(i - 1);
        assert(rest.len() > 0);
        assert(rest.first() == cands[i - 1]);
        assert(!matches_target(rest.first(), cfg));
        assert(first_match(rest, cfg) == first_match(rest.drop_first(), cfg));
        assert(rest.drop_first() =~= cands.skip(i));
    }
}

fn candidate_matches(c: &CandidateWindow, cfg: &WindowDetectionConfig) -> (r: bool)
    ensures
        r == matches_target(*c, *cfg),
{
    if cfg.visible_only && !c.info.is_visible {
        return false;
    }
    if cfg.foreground_only && !c.info.is_foreground {
        return false;
    }
    if !contains_sub(self_str(&c.info.title), self_str(&cfg.target_window_title)) {
        return false;
    }
    let pn = lowercase(self_str(&c.process_name));
    let tn = lowercase(self_str(&cfg.target_process_name));
    contains_sub(self_str(&pn), self_str(&tn))
}

fn self_str(s: &String) -> (r: &str)
    ensures
        r@ == s@,
{
    s.as_str()
}

/// The first candidate, in order, that matches the configuration.
pub fn select_match(candidates: &Vec<CandidateWindow>, config: &WindowDetectionConfig) -> (r:
    Option<WindowInfo>)
    ensures
        r == first_match(candidates@, *config),
{
    let n = candidates.len();
    let mut i: usize = 0;
    while i < n
        invariant
            n == candidates@.len(),
            i <= n,
            forall|j: int| 0 <= j < i ==> !matches_target(#[trigger] candidates@[j], *config),
        decreases n - i,
    {
        if candidate_matches(&candidates[i], config) {
            proof {
                lemma_first_match_from(candidates@, *config, i as int);
                assert(candidates@.skip(i as int).first() == candidates@[i as int]);
            }
            return Some(candidates[i].info.clone());
        }
        i = i + 1;
    }
    proof {
        lemma_first_match_from(candidates@, *config, n as int);
        assert(candidates@.skip(n as int).len() == 0);
    }
    None
}

/// The session windows compare equal for session purposes: same handle,
/// position and size.
pub open spec fn same_geometry(a: WindowInfo, b: WindowInfo) -> bool {
    a.handle == b.handle && a.position == b.position && a.size == b.size
}

/// Minimum interval between two captures of the session window.
pub const CAPTURE_MIN_INTERVAL_MS: u64 = 50;

/// How long an acquired capture stays fresh enough to reuse.
pub const CAPTURE_CACHE_TTL_MS: u64 = 50;

/// What a capture request should do: reuse the cached buffer or acquire
/// a new one.  A request inside the throttle window with a stale cache is
/// refused instead.
#[derive(Debug, Clone, Copy, PartialEq, Eq, Structural)]
pub enum CaptureDecision {
    /// The buffer acquired moments ago is still fresh; reuse it.
    Cached,
    /// Acquire a new buffer from the window.
    Acquire,
}

/// The window-session tracker: the current session window, the
/// detection configuration, and the capture throttle and cache gate.
pub struct WindowService {
    target_window: Option<WindowInfo>,
    /// How the target window is recognized; immutable per tracker.
    pub detection_config: WindowDetectionConfig,
    last_capture_ms: Option<u64>,
    cache_time_ms: Option<u64>,
    cache_ttl_ms: u64,
}

impl WindowService {
    /// The current session, if any.
    pub closed spec fn session(self) -> Option<WindowInfo> {
        self.target_window
    }

    /// The detection configuration, as a spec value.
    pub closed spec fn config(self) -> WindowDetectionConfig {
        self.detection_config
    }

    /// When the last capture was admitted, in clock milliseconds.
    pub closed spec fn last_capture(self) -> Option<u64> {
        self.last_capture_ms
    }

    /// When the cached buffer was acquired, in clock milliseconds.
    pub closed spec fn cache_time(self) -> Option<u64> {
        self.cache_time_ms
    }

    /// How long the cached buffer stays fresh.
    pub closed spec fn cache_ttl(self) -> u64 {
        self.cache_ttl_ms
    }

    /// The cached buffer is still fresh at the given time.
    pub open spec fn cache_fresh(self, now_ms: u64) -> bool {
        self.cache_time() matches Some(t) && now_ms < t + self.cache_ttl()
    }

    /// A capture at the given time would be refused by the throttle.
    pub open spec fn throttled(self, now_ms: u64) -> bool {
        self.last_capture() matches Some(t) && now_ms < t + CAPTURE_MIN_INTERVAL_MS
    }

    /// A tracker with the default detection configuration and no session.
    pub fn new() -> (s: Self)
        ensures
            s.session() is None,
            s.last_capture() is None,
            s.config().target_window_title@ == "明日方舟"@,
            s.config().target_process_name@ == "Arknights.exe"@,
            s.config().detection_interval_ms == 1000,
            s.config().visible_only == true,
            s.config().foreground_only == false,
    {
        WindowService {
            target_window: None,
            detection_config: WindowDetectionConfig::default(),
            last_capture_ms: None,
            cache_time_ms: None,
            cache_ttl_ms: CAPTURE_CACHE_TTL_MS,
        }
    }

    /// A tracker with the given detection configuration and no session.
    pub fn with_config(config: WindowDetectionConfig) -> (s: Self)
        ensures
            s.session() is None,
            s.last_capture() is None,
            s.config() == config,
    {
        WindowService {
            target_window: None,
            detection_config: config,
            last_capture_ms: None,
            cache_time_ms: None,
            cache_ttl_ms: CAPTURE_CACHE_TTL_MS,
        }
    }

    /// One poll cycle over the enumerated windows: pick the first match,
    /// compare it with the session, and report what changed.
    ///
    /// A match where no session was held starts the session (`Found`); a
    /// match with different handle, position or size replaces it
    /// (`Updated`); an identical match changes nothing; no match while a
    /// session was held clears it (`Lost`).
    pub fn process_poll(&mut self, candidates: &Vec<CandidateWindow>) -> (ev: Option<WindowEvent>)
        ensures
            final(self).config() == old(self).config(),
            final(self).last_capture() == old(self).last_capture(),
            ({
                let found = first_match(candidates@, old(self).config());
                match old(self).session() {
                    None => match found {
                        None => final(self).session() is None && ev is None,
                        Some(w) => final(self).session() == Some(w) && ev == Some(
                            WindowEvent::WindowFound(w),
                        ),
                    },
                    Some(prev) => match found {
                        None => final(self).session() is None && ev == Some(
                            WindowEvent::WindowLost,
                        ),
                        Some(w) => if same_geometry(prev, w) {
                            final(self).session() == old(self).session() && ev is None
                        } else {
                            final(self).session() == Some(w) && ev == Some(
                                WindowEvent::WindowUpdated(w),
                            )
                        },
                    },
                }
            }),
    {
        let found = select_match(candidates, &self.detection_config);
        match found {
            Some(w) => {
                let changed = match &self.target_window {
                    Some(prev) => !(prev.handle == w.handle && prev.position.0 == w.position.0
                        && prev.position.1 == w.position.1 && prev.size.0 == w.size.0
                        && prev.size.1 == w.size.1),
                    None => true,
                };
                if changed {
                    let was_tracking = self.target_window.is_some();
                    self.target_window = Some(w.clone());
                    if was_tracking {
                        Some(WindowEvent::WindowUpdated(w))
                    } else {
                        Some(WindowEvent::WindowFound(w))
                    }
                } else {
                    None
                }
            },
            None => {
                if self.target_window.is_some() {
                    self.target_window = None;
                    Some(WindowEvent::WindowLost)
                } else {
                    None
                }
            },
        }
    }

    /// Forget the session and immediately adopt whatever the fresh
    /// enumeration matches, reporting it as newly found.
    pub fn refresh_window_list(&mut self, candidates: &Vec<CandidateWindow>) -> (ev: Option<
        WindowEvent,
    >)
        ensures
            final(self).config() == old(self).config(),
            final(self).last_capture() == old(self).last_capture(),
            ({
                let found = first_match(candidates@, old(self).config());
                match found {
                    None => final(self).session() is None && ev is None,
                    Some(w) => final(self).session() == Some(w) && ev == Some(
                        WindowEvent::WindowFound(w),
                    ),
                }
            }),
    {
        self.target_window = None;
        match select_match(candidates, &self.detection_config) {
            Some(w) => {
                self.target_window = Some(w.clone());
                Some(WindowEvent::WindowFound(w))
            },
            None => None,
        }
    }

    /// Re-examine the enumeration for the session window: update it in
    /// place while the handle is unchanged, report `WindowClosed` when a
    /// different window matches, `WindowNotFound` when none does.  Without
    /// a session this is a no-op.
    pub fn refresh_window_info(&mut self, candidates: &Vec<CandidateWindow>) -> (r: Result<
        (),
        WindowError,
    >)
        ensures
            final(self).config() == old(self).config(),
            final(self).last_capture() == old(self).last_capture(),
            old(self).session() is None ==> r is Ok && final(self).session() is None,
            ({
                let found = first_match(candidates@, old(self).config());
                old(self).session() matches Some(prev) ==> match found {
                    None => r == Err::<(), WindowError>(WindowError::WindowNotFound)
                        && final(self).session() == old(self).session(),
                    Some(w) => if w.handle == prev.handle {
                        r is Ok && final(self).session() == Some(w)
                    } else {
                        r == Err::<(), WindowError>(WindowError::WindowClosed)
                            && final(self).session() == old(self).session()
                    },
                }
            }),
    {
        if self.target_window.is_none() {
            return Ok(());
        }
        let current_handle = match &self.target_window {
            Some(w) => w.handle,
            None => 0,
        };
        match select_match(candidates, &self.detection_config) {
            Some(w) => {
                if w.handle == current_handle {
                    self.target_window = Some(w);
                    Ok(())
                } else {
                    Err(WindowError::WindowClosed)
                }
            },
            None => Err(WindowError::WindowNotFound),
        }
    }

    /// A copy of the session window's data.
    pub fn get_window_info(&self) -> (r: Option<WindowInfo>)
        ensures
            r == self.session(),
    {
        match &self.target_window {
            Some(w) => Some(w.clone()),
            None => None,
        }
    }

    pub fn has_window(&self) -> (r: bool)
        ensures
            r == (self.session() is Some),
    {
        self.target_window.is_some()
    }

    /// Translate a screen point into coordinates of the session window;
    /// nothing without a session or outside the window.
    pub fn screen_to_window_coords(&self, screen_pos: (i32, i32)) -> (r: Option<(i32, i32)>)
        ensures
            self.session() is None ==> r is None,
            self.session() matches Some(w) ==> {
                &&& (r matches Some(p) <==> {
                    &&& w.spec_contains_point(screen_pos.0 as int, screen_pos.1 as int)
                    &&& screen_pos.0 - w.position.0 <= i32::MAX
                    &&& screen_pos.1 - w.position.1 <= i32::MAX
                })
                &&& (r matches Some(p) ==> p.0 == screen_pos.0 - w.position.0 && p.1
                    == screen_pos.1 - w.position.1)
            },
    {
        match &self.target_window {
            Some(w) => w.screen_to_window_coords(screen_pos.0, screen_pos.1),
            None => None,
        }
    }

    /// Translate coordinates of the session window onto the screen;
    /// nothing without a session or when the result is unrepresentable.
    pub fn window_to_screen_coords(&self, window_pos: (i32, i32)) -> (r: Option<(i32, i32)>)
        ensures
            self.session() is None ==> r is None,
            self.session() matches Some(w) ==> {
                &&& (r matches Some(p) <==> {
                    &&& i32::MIN <= w.position.0 + window_pos.0 <= i32::MAX
                    &&& i32::MIN <= w.position.1 + window_pos.1 <= i32::MAX
                })
                &&& (r matches Some(p) ==> p.0 == w.position.0 + window_pos.0 && p.1
                    == w.position.1 + window_pos.1)
            },
    {
        match &self.target_window {
            Some(w) => w.window_to_screen_coords(window_pos.0, window_pos.1),
            None => None,
        }
    }

    /// Gate a capture request at the given clock time.  Without a
    /// session it is refused.  A request while the cached buffer is still
    /// fresh reuses it.  Otherwise the throttle refuses requests that come
    /// sooner than the minimum interval after the last acquisition; past
    /// it, a new acquisition is admitted and becomes the cached buffer.
    /// Acquiring the bitmap itself is the surrounding application's work.
    pub fn begin_capture(&mut self, now_ms: u64) -> (r: Result<CaptureDecision, WindowError>)
        ensures
            final(self).config() == old(self).config(),
            final(self).session() == old(self).session(),
            final(self).cache_ttl() == old(self).cache_ttl(),
            old(self).session() is None ==> {
                &&& r == Err::<CaptureDecision, WindowError>(WindowError::WindowNotFound)
                &&& final(self).last_capture() == old(self).last_capture()
                &&& final(self).cache_time() == old(self).cache_time()
            },
            old(self).session() is Some && old(self).cache_fresh(now_ms) ==> {
                &&& r == Ok::<CaptureDecision, WindowError>(CaptureDecision::Cached)
                &&& final(self).last_capture() == old(self).last_capture()
                &&& final(self).cache_time() == old(self).cache_time()
            },
            old(self).session() is Some && !old(self).cache_fresh(now_ms)
                && old(self).throttled(now_ms) ==> {
                &&& r matches Err(e) && e is CaptureError
                &&& final(self).last_capture() == old(self).last_capture()
                &&& final(self).cache_time() == old(self).cache_time()
            },
            old(self).session() is Some && !old(self).cache_fresh(now_ms)
                && !old(self).throttled(now_ms) ==> {
                &&& r == Ok::<CaptureDecision, WindowError>(CaptureDecision::Acquire)
                &&& final(self).last_capture() == Some(now_ms)
                &&& final(self).cache_time() == Some(now_ms)
            },
    {
        if self.target_window.is_none() {
            return Err(WindowError::WindowNotFound);
        }
        if let Some(t) = self.cache_time_ms {
            if now_ms < t || now_ms - t < self.cache_ttl_ms {
                return Ok(CaptureDecision::Cached);
            }
        }
        if let Some(t) = self.last_capture_ms {
            if now_ms < t || now_ms - t < CAPTURE_MIN_INTERVAL_MS {
                return Err(WindowError::capture_error("capture rate limit exceeded"));
            }
        }
        self.last_capture_ms = Some(now_ms);
        self.cache_time_ms = Some(now_ms);
        Ok(CaptureDecision::Acquire)
    }

    /// Forget the cached buffer, so the next admitted request acquires.
    pub fn clear_cache(&mut self)
        ensures
            final(self).cache_time() is None,
            final(self).cache_ttl() == old(self).cache_ttl(),
            final(self).last_capture() == old(self).last_capture(),
            final(self).session() == old(self).session(),
            final(self).config() == old(self).config(),
    {
        self.cache_time_ms = None;
    }

    /// Change how long an acquired buffer stays fresh.
    pub fn set_cache_duration(&mut self, ttl_ms: u64)
        ensures
            final(self).cache_ttl() == ttl_ms,
            final(self).cache_time() == old(self).cache_time(),
            final(self).last_capture() == old(self).last_capture(),
            final(self).session() == old(self).session(),
            final(self).config() == old(self).config(),
    {
        self.cache_ttl_ms = ttl_ms;
    }
}

impl Default for WindowService {
    fn default() -> (s: Self)
        ensures
            s.session() is None,
            s.last_capture() is None,
    {
        WindowService::new()
    }
}

} // verus!
