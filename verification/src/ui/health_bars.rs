//! Whether health bars show.
use vstd::prelude::*;

verus! {

/// Whether health bars are shown.
#[derive(Clone, Copy, PartialEq, Eq, Structural, Debug)]
pub struct HealthBarSettings {
    pub enabled: bool,
}

impl Default for HealthBarSettings {
    /// Health bars start shown.
    fn default() -> (s: Self)
        ensures
            s.enabled,
    {
        HealthBarSettings { enabled: true }
    }
}

impl HealthBarSettings {
    /// Flips whether health bars show, and returns whether they now do.
    pub fn toggle_health_bars(&mut self) -> (visible: bool)
        ensures
            final(self).enabled == !old(self).enabled,
            visible == final(self).enabled,
    {
        self.enabled = !self.enabled;
        self.enabled
    }
}

} // verus!
