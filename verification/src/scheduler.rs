//! The time-of-day lighting scheduler: once a second the controller checks
//! whether the wall clock crossed a scheduled instant, and if so makes the
//! named saved scheme current.

use vstd::prelude::*;

use crate::config::{Config, LightingScheme};

verus! {

/// Whether wall-clock second `time` lies strictly inside the interval from
/// `from` to `to`, wrapping past midnight when `to` precedes `from`.
pub open spec fn interval_contains(from: u32, to: u32, time: u32) -> bool {
    if to < from {
        time > from || time < to
    } else {
        time > from && time < to
    }
}

/// The first scheduled entry from index `i` on whose instant the interval
/// crossed, if any.
pub open spec fn schedule_hit_from(
    schedule: Seq<(u32, String)>,
    from: u32,
    to: u32,
    i: int,
) -> Option<int>
    decreases schedule.len() - i,
{
    if i < 0 || i >= schedule.len() {
        None
    } else if interval_contains(from, to, schedule[i].0) {
        Some(i)
    } else {
        schedule_hit_from(schedule, from, to, i + 1)
    }
}

/// The first saved scheme from index `i` on with the given name, if any.
pub open spec fn saved_scheme_from(
    saved: Seq<(String, LightingScheme)>,
    name: Seq<char>,
    i: int,
) -> Option<LightingScheme>
    decreases saved.len() - i,
{
    if i < 0 || i >= saved.len() {
        None
    } else if saved[i].0@ == name {
        Some(saved[i].1)
    } else {
        saved_scheme_from(saved, name, i + 1)
    }
}

/// One wall-clock poll interval, seconds past midnight at its two ends.
#[derive(Debug, PartialEq, Eq, Structural, Clone, Copy)]
pub struct DailyPollInterval {
    pub from: u32,
    pub to: u32,
}

impl DailyPollInterval {
    /// Whether the interval contains a wall-clock second.
    pub fn contains(&self, time: u32) -> (r: bool)
        ensures
            r == interval_contains(self.from, self.to, time),
    {
        if self.to < self.from {
            // Midnight wrap-around.
            time > self.from || time < self.to
        } else {
            time > self.from && time < self.to
        }
    }

    /// The name of the first scheduled scheme whose instant this interval
    /// crossed, if any.
    pub fn poll_lighting_change(&self, config: &Config) -> (r: Option<String>)
        ensures
            match r {
                Some(name) => exists|i: int|
                    {
                        &&& #[trigger] schedule_hit_from(
                            config.lighting.schedule@,
                            self.from,
                            self.to,
                            0,
                        ) == Some(i)
                        &&& 0 <= i < config.lighting.schedule@.len()
                        &&& name@ == config.lighting.schedule@[i].1@
                    },
                None => schedule_hit_from(
                    config.lighting.schedule@,
                    self.from,
                    self.to,
                    0,
                ) is None,
            },
    {
        let n = config.lighting.schedule.len();
        let mut i: usize = 0;
        while i < n
            invariant
                n == config.lighting.schedule@.len(),
                0 <= i <= n,
                schedule_hit_from(config.lighting.schedule@, self.from, self.to, 0)
                    == schedule_hit_from(config.lighting.schedule@, self.from, self.to, i as int),
            decreases n - i,
        {
            let entry = &config.lighting.schedule[i];
            if self.contains(entry.0) {
                return Some(entry.1.clone());
            }
            i = i + 1;
        }
        None
    }

    /// Apply any scheduled lighting change: if the interval crossed a
    /// scheduled instant and its named scheme is saved and in range, that
    /// scheme becomes current.  Reports whether anything changed.
    pub fn poll_config_changes(&self, config: &mut Config) -> (changed: bool)
        requires
            old(config).well_formed(),
        ensures
            final(config).well_formed(),
            changed ==> exists|name: Seq<char>|
                #[trigger] saved_scheme_from(old(config).lighting.saved@, name, 0) == Some(
                    final(config).lighting.current,
                ),
            !changed ==> *final(config) == *old(config),
            final(config).mode == old(config).mode,
            final(config).params == old(config).params,
            final(config).winches == old(config).winches,
    {
        let name = match self.poll_lighting_change(config) {
            None => {
                return false;
            },
            Some(name) => name,
        };
        let scheme = match find_saved_scheme(config, &name) {
            None => {
                return false;
            },
            Some(s) => s,
        };
        if !scheme_in_range(&scheme) {
            return false;
        }
        config.lighting.current = scheme;
        true
    }
}

/// The first saved scheme with the given name, if any.
fn find_saved_scheme(config: &Config, name: &String) -> (r: Option<LightingScheme>)
    ensures
        r == saved_scheme_from(config.lighting.saved@, name@, 0),
{
    let n = config.lighting.saved.len();
    let mut i: usize = 0;
    while i < n
        invariant
            n == config.lighting.saved@.len(),
            0 <= i <= n,
            saved_scheme_from(config.lighting.saved@, name@, 0) == saved_scheme_from(
                config.lighting.saved@,
                name@,
                i as int,
            ),
        decreases n - i,
    {
        let entry = &config.lighting.saved[i];
        if entry.0 == *name {
            return Some(entry.1);
        }
        i = i + 1;
    }
    None
}

/// A sufficient check that a scheme's parameters stay within fixed-point
/// range, so making it current keeps the configuration well-formed.
fn scheme_in_range(s: &LightingScheme) -> (r: bool)
    ensures
        r ==> s.well_formed(),
{
    let lim = crate::units::FIX_LIMIT;
    let w = &s.winch;
    let scalars_ok = -lim <= s.brightness && s.brightness <= lim && -lim <= s.flash_rate_hz
        && s.flash_rate_hz <= lim && -lim <= s.flash_exponent && s.flash_exponent <= lim && -lim
        <= w.wavelength_m && w.wavelength_m <= lim && -lim <= w.wave_window_length_m
        && w.wave_window_length_m <= lim && -lim <= w.wave_amplitude && w.wave_amplitude <= lim
        && -lim <= w.wave_exponent && w.wave_exponent <= lim && -lim
        <= w.speed_for_full_wave_amplitude_m_per_sec && w.speed_for_full_wave_amplitude_m_per_sec
        <= lim && -lim <= w.velocity_filter_param && w.velocity_filter_param <= lim;
    let colors_ok = color_in_range(&w.normal_color) && color_in_range(&w.manual_selected_color)
        && color_in_range(&w.manual_deselected_color) && color_in_range(&w.halt_color)
        && color_in_range(&w.error_color) && color_in_range(&w.stuck_color) && color_in_range(
        &w.command_color,
    ) && color_in_range(&w.motion_color);
    proof {
        if colors_ok {
            assert forall|i: int|
                0 <= i < 3 implies crate::config::fix_ok(#[trigger] w.normal_color[i])
                && crate::config::fix_ok(w.manual_selected_color[i]) && crate::config::fix_ok(
                w.manual_deselected_color[i],
            ) && crate::config::fix_ok(w.halt_color[i]) && crate::config::fix_ok(w.error_color[i])
                && crate::config::fix_ok(w.stuck_color[i]) && crate::config::fix_ok(
                w.command_color[i],
            ) && crate::config::fix_ok(w.motion_color[i]) by {
                assert(crate::config::fix_ok(w.normal_color[i]));
                assert(crate::config::fix_ok(w.manual_selected_color[i]));
                assert(crate::config::fix_ok(w.manual_deselected_color[i]));
                assert(crate::config::fix_ok(w.halt_color[i]));
                assert(crate::config::fix_ok(w.error_color[i]));
                assert(crate::config::fix_ok(w.stuck_color[i]));
                assert(crate::config::fix_ok(w.command_color[i]));
                assert(crate::config::fix_ok(w.motion_color[i]));
            }
        }
    }
    scalars_ok && colors_ok
}

/// Whether every channel of a colour is within fixed-point range.
fn color_in_range(c: &[i64; 3]) -> (r: bool)
    ensures
        r == forall|i: int| 0 <= i < 3 ==> crate::config::fix_ok(#[trigger] c[i]),
{
    let lim = crate::units::FIX_LIMIT;
    let ok = -lim <= c[0] && c[0] <= lim && -lim <= c[1] && c[1] <= lim && -lim <= c[2] && c[2]
        <= lim;
    proof {
        if ok {
            assert forall|i: int| 0 <= i < 3 implies crate::config::fix_ok(#[trigger] c[i]) by {
                assert(c[0] == c@[0] && c[1] == c@[1] && c[2] == c@[2]);
            }
        }
    }
    ok
}

} // verus!
