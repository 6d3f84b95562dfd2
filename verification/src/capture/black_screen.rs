//! Privacy black screen: hides the display while encoding continues.
use vstd::prelude::*;
use crate::clock::now_ms;
use crate::text::to_string;

verus! {

/// Black screen mode state.
#[derive(Debug, Clone, Copy, PartialEq, Eq, Structural)]
pub enum BlackScreenMode {
    Off,
    On,
    Minimized,
}

impl BlackScreenMode {
    /// Display text of the mode.
    pub fn label(&self) -> (r: &'static str)
        ensures
            r@ == match *self {
                BlackScreenMode::Off => "Off"@,
                BlackScreenMode::On => "On"@,
                BlackScreenMode::Minimized => "Minimized"@,
            },
    {
        match self {
            BlackScreenMode::Off => "Off",
            BlackScreenMode::On => "On",
            BlackScreenMode::Minimized => "Minimized",
        }
    }
}

/// The mode after a toggle: Off and On swap, Minimized turns On.
pub open spec fn toggled(m: BlackScreenMode) -> BlackScreenMode {
    match m {
        BlackScreenMode::Off => BlackScreenMode::On,
        BlackScreenMode::On => BlackScreenMode::Off,
        BlackScreenMode::Minimized => BlackScreenMode::On,
    }
}

/// The screen is hidden in the On and Minimized modes.
pub open spec fn hides_screen(m: BlackScreenMode) -> bool {
    m == BlackScreenMode::On || m == BlackScreenMode::Minimized
}

/// Minimum time between two toggles, in milliseconds.
pub const TOGGLE_COOLDOWN_MS: u64 = 1000;

/// Privacy black screen manager.
#[derive(Debug)]
pub struct BlackScreenManager {
    mode: BlackScreenMode,
    last_toggle_ms: Option<u64>,
    toggle_cooldown_ms: u64,
}

impl BlackScreenManager {
    pub closed spec fn spec_mode(&self) -> BlackScreenMode {
        self.mode
    }

    /// Time of the last mode change, if any.
    pub closed spec fn last_change(&self) -> Option<u64> {
        self.last_toggle_ms
    }

    /// The cooldown is always one second.
    #[verifier::type_invariant]
    spec fn cooldown_is_one_second(&self) -> bool {
        self.toggle_cooldown_ms == TOGGLE_COOLDOWN_MS
    }

    /// A toggle at `now` is refused while less than the one-second cooldown
    /// has passed since the last change.
    pub open spec fn cooling_down(&self, now: u64) -> bool {
        match self.last_change() {
            Some(last) => now < last || now - last < TOGGLE_COOLDOWN_MS,
            None => false,
        }
    }

    /// Starts Off, with no change made yet.
    pub fn new() -> (r: Self)
        ensures
            r.spec_mode() == BlackScreenMode::Off,
            r.last_change() is None,
    {
        BlackScreenManager { mode: BlackScreenMode::Off, last_toggle_ms: None, toggle_cooldown_ms: TOGGLE_COOLDOWN_MS }
    }

    /// Toggles the mode now, unless the cooldown since the last change runs.
    pub fn toggle(&mut self) -> (r: Result<BlackScreenMode, String>)
        ensures
            exists|now: u64| #[trigger] toggle_outcome(*old(self), now, *final(self), r),
            old(self).last_change() is None ==> r is Ok,
    {
        let now = now_ms();
        let r = self.toggle_at(now);
        assert(toggle_outcome(*old(self), now, *self, r));
        r
    }

    /// Toggles the mode at time `now`; refused with "Toggle cooldown active"
    /// while the cooldown since the last change runs.
    pub fn toggle_at(&mut self, now: u64) -> (r: Result<BlackScreenMode, String>)
        ensures
            toggle_outcome(*old(self), now, *final(self), r),
    {
        proof {
            use_type_invariant(&*self);
        }
        match self.last_toggle_ms {
            Some(last) => {
                if now < last || now - last < self.toggle_cooldown_ms {
                    return Err(to_string("Toggle cooldown active"));
                }
            },
            None => {},
        }
        self.mode = match self.mode {
            BlackScreenMode::Off => BlackScreenMode::On,
            BlackScreenMode::On => BlackScreenMode::Off,
            BlackScreenMode::Minimized => BlackScreenMode::On,
        };
        self.last_toggle_ms = Some(now);
        Ok(self.mode)
    }

    /// Sets the mode directly, now.
    pub fn set_mode(&mut self, mode: BlackScreenMode)
        ensures
            final(self).spec_mode() == mode,
            exists|now: u64| final(self).last_change() == Some(now),
    {
        let now = now_ms();
        self.set_mode_at(mode, now);
    }

    /// Sets the mode directly at time `now`.
    pub fn set_mode_at(&mut self, mode: BlackScreenMode, now: u64)
        ensures
            final(self).spec_mode() == mode,
            final(self).last_change() == Some(now),
    {
        proof {
            use_type_invariant(&*self);
        }
        self.mode = mode;
        self.last_toggle_ms = Some(now);
    }

    pub fn mode(&self) -> (r: &BlackScreenMode)
        ensures
            *r == self.spec_mode(),
    {
        &self.mode
    }

    /// Whether the screen is hidden (On or Minimized).
    pub fn is_active(&self) -> (r: bool)
        ensures
            r == hides_screen(self.spec_mode()),
    {
        match self.mode {
            BlackScreenMode::On | BlackScreenMode::Minimized => true,
            BlackScreenMode::Off => false,
        }
    }
}

impl Default for BlackScreenManager {
    fn default() -> (r: Self)
        ensures
            r.spec_mode() == BlackScreenMode::Off,
            r.last_change() is None,
    {
        Self::new()
    }
}

/// Two accepted toggles restore the mode when it was Off or On, and the
/// screen is hidden after a toggle exactly when it was shown before, unless
/// it was Minimized.
pub proof fn toggle_twice(m: BlackScreenMode)
    ensures
        m != BlackScreenMode::Minimized ==> toggled(toggled(m)) == m,
        m != BlackScreenMode::Minimized ==> (hides_screen(toggled(m)) <==> !hides_screen(m)),
        m == BlackScreenMode::Minimized ==> toggled(m) == BlackScreenMode::On,
{
}

/// What a toggle at `now` does to `m`, giving `m2` and `r`: refused with
/// "Toggle cooldown active" and no change while the cooldown runs; else the
/// mode is toggled and `now` becomes the time of the last change.
pub open spec fn toggle_outcome(
    m: BlackScreenManager,
    now: u64,
    m2: BlackScreenManager,
    r: Result<BlackScreenMode, String>,
) -> bool {
    &&& m.cooling_down(now) <==> r is Err
    &&& r matches Err(msg) ==> msg@ == "Toggle cooldown active"@ && m2.spec_mode() == m.spec_mode()
        && m2.last_change() == m.last_change()
    &&& r matches Ok(mode) ==> {
        &&& mode == toggled(m.spec_mode())
        &&& m2.spec_mode() == mode
        &&& m2.last_change() == Some(now)
    }
}

/// After an accepted toggle at `t`, a second toggle within the next second
/// is refused and leaves the mode; one a second or more later is accepted
/// and toggles the mode again.
pub proof fn toggle_cooldown_law(
    m: BlackScreenManager,
    t: u64,
    m2: BlackScreenManager,
    r1: Result<BlackScreenMode, String>,
    now: u64,
    m3: BlackScreenManager,
    r2: Result<BlackScreenMode, String>,
)
    requires
        toggle_outcome(m, t, m2, r1),
        r1 is Ok,
        toggle_outcome(m2, now, m3, r2),
        t <= now,
    ensures
        now - t < TOGGLE_COOLDOWN_MS ==> r2 is Err && m3.spec_mode() == m2.spec_mode(),
        now - t >= TOGGLE_COOLDOWN_MS ==> r2 == Ok::<BlackScreenMode, String>(toggled(m2.spec_mode()))
            && m3.spec_mode() == toggled(m2.spec_mode()),
{
}

/// After the mode is set at `t`, a toggle within the next second is refused
/// and leaves the mode as set.
pub proof fn toggle_refused_after_set(
    m: BlackScreenManager,
    mode: BlackScreenMode,
    t: u64,
    now: u64,
    m2: BlackScreenManager,
    r: Result<BlackScreenMode, String>,
)
    requires
        m.spec_mode() == mode,
        m.last_change() == Some(t),
        t <= now,
        now - t < TOGGLE_COOLDOWN_MS,
        toggle_outcome(m, now, m2, r),
    ensures
        r is Err,
        m2.spec_mode() == mode,
        hides_screen(m2.spec_mode()) == (mode != BlackScreenMode::Off),
{
}

/// Low-latency mode switch (no driver integration: enabling always succeeds).
pub struct ReflexMode;

impl ReflexMode {
    pub fn enable() -> (r: Result<(), String>)
        ensures
            r is Ok,
    {
        Ok(())
    }

    pub fn disable() {
    }
}

} // verus!
