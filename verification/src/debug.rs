//! Debug settings of the lighting, changed one step at a time within bounds.

use vstd::prelude::*;

verus! {

#[derive(Clone, Copy, PartialEq, Eq, Debug, Structural)]
pub enum DebugConfigKey {
    LightIntensityIncrease,
    LightIntensityDecrease,
    LightHeightIncrease,
    LightHeightDecrease,
}

#[derive(Clone, Copy, PartialEq, Eq, Debug, Structural)]
pub struct UpdateDebugConfigEvent {
    pub config_key: DebugConfigKey,
}

#[derive(Clone, Copy, PartialEq, Eq, Debug, Structural)]
pub struct DebugConfig {
    pub light_height: DebugConfigValue,
    pub light_intensity: DebugConfigValue,
}

/// A setting and the bounds it is kept within.
#[derive(Clone, Copy, PartialEq, Eq, Debug, Structural)]
pub struct DebugConfigValue {
    pub value: i32,
    pub min: i32,
    pub max: i32,
}

/// One step up, but not above `max`.
pub open spec fn increased(v: DebugConfigValue) -> DebugConfigValue {
    DebugConfigValue {
        value: if v.value + 1 < v.max {
            (v.value + 1) as i32
        } else {
            v.max
        },
        ..v
    }
}

/// One step down, but not below `min`.
pub open spec fn decreased(v: DebugConfigValue) -> DebugConfigValue {
    DebugConfigValue {
        value: if v.value - 1 > v.min {
            (v.value - 1) as i32
        } else {
            v.min
        },
        ..v
    }
}

/// The setting that a key changes.
pub open spec fn setting_of(c: DebugConfig, k: DebugConfigKey) -> DebugConfigValue {
    match k {
        DebugConfigKey::LightIntensityIncrease | DebugConfigKey::LightIntensityDecrease => c.light_intensity,
        DebugConfigKey::LightHeightIncrease | DebugConfigKey::LightHeightDecrease => c.light_height,
    }
}

pub open spec fn is_increase(k: DebugConfigKey) -> bool {
    k == DebugConfigKey::LightIntensityIncrease || k == DebugConfigKey::LightHeightIncrease
}

/// The step that a key asks for does not leave `i32`.
pub open spec fn key_fits(c: DebugConfig, k: DebugConfigKey) -> bool {
    if is_increase(k) {
        setting_of(c, k).value < i32::MAX
    } else {
        setting_of(c, k).value > i32::MIN
    }
}

pub open spec fn apply_key(c: DebugConfig, k: DebugConfigKey) -> DebugConfig {
    match k {
        DebugConfigKey::LightIntensityIncrease => DebugConfig {
            light_intensity: increased(c.light_intensity),
            ..c
        },
        DebugConfigKey::LightIntensityDecrease => DebugConfig {
            light_intensity: decreased(c.light_intensity),
            ..c
        },
        DebugConfigKey::LightHeightIncrease => DebugConfig {
            light_height: increased(c.light_height),
            ..c
        },
        DebugConfigKey::LightHeightDecrease => DebugConfig {
            light_height: decreased(c.light_height),
            ..c
        },
    }
}

/// The configuration after the keys, in order.
pub open spec fn apply_keys(c: DebugConfig, keys: Seq<DebugConfigKey>) -> DebugConfig
    decreases keys.len(),
{
    if keys.len() == 0 {
        c
    } else {
        apply_key(apply_keys(c, keys.drop_last()), keys.last())
    }
}

/// No step of the keys, in order, leaves `i32`.
pub open spec fn keys_fit(c: DebugConfig, keys: Seq<DebugConfigKey>) -> bool
    decreases keys.len(),
{
    keys.len() == 0 || (keys_fit(c, keys.drop_last()) && key_fits(
        apply_keys(c, keys.drop_last()),
        keys.last(),
    ))
}

pub open spec fn event_keys(events: Seq<UpdateDebugConfigEvent>) -> Seq<DebugConfigKey> {
    events.map_values(|e: UpdateDebugConfigEvent| e.config_key)
}

impl DebugConfig {
    /// Applies one key.
    pub fn apply(&mut self, key: DebugConfigKey)
        requires
            key_fits(*old(self), key),
        ensures
            *final(self) == apply_key(*old(self), key),
            key == DebugConfigKey::LightIntensityIncrease || key == DebugConfigKey::LightIntensityDecrease
                ==> final(self).light_height == old(self).light_height,
            key == DebugConfigKey::LightHeightIncrease || key == DebugConfigKey::LightHeightDecrease
                ==> final(self).light_intensity == old(self).light_intensity,
            key == DebugConfigKey::LightIntensityIncrease ==> final(self).light_intensity.value == (
            if old(self).light_intensity.value + 1 <= old(self).light_intensity.max {
                old(self).light_intensity.value + 1
            } else {
                old(self).light_intensity.max as int
            }),
            key == DebugConfigKey::LightIntensityDecrease ==> final(self).light_intensity.value == (
            if old(self).light_intensity.value - 1 >= old(self).light_intensity.min {
                old(self).light_intensity.value - 1
            } else {
                old(self).light_intensity.min as int
            }),
            key == DebugConfigKey::LightHeightIncrease ==> final(self).light_height.value == (
            if old(self).light_height.value + 1 <= old(self).light_height.max {
                old(self).light_height.value + 1
            } else {
                old(self).light_height.max as int
            }),
            key == DebugConfigKey::LightHeightDecrease ==> final(self).light_height.value == (
            if old(self).light_height.value - 1 >= old(self).light_height.min {
                old(self).light_height.value - 1
            } else {
                old(self).light_height.min as int
            }),
    {
        proof {
            lemma_key_steps_its_own_setting(*old(self), key);
        }
        match key {
            DebugConfigKey::LightIntensityIncrease => {
                self.light_intensity.value = (self.light_intensity.value + 1).min(self.light_intensity.max);
            },
            DebugConfigKey::LightIntensityDecrease => {
                self.light_intensity.value = (self.light_intensity.value - 1).max(self.light_intensity.min);
            },
            DebugConfigKey::LightHeightIncrease => {
                self.light_height.value = (self.light_height.value + 1).min(self.light_height.max);
            },
            DebugConfigKey::LightHeightDecrease => {
                self.light_height.value = (self.light_height.value - 1).max(self.light_height.min);
            },
        }
    }
}

proof fn lemma_keys_fit_prefix(c: DebugConfig, keys: Seq<DebugConfigKey>, i: int)
    requires
        keys_fit(c, keys),
        0 <= i <= keys.len(),
    ensures
        keys_fit(c, keys.take(i)),
    decreases keys.len(),
{
    if i < keys.len() {
        assert(keys.take(i) =~= keys.drop_last().take(i));
        lemma_keys_fit_prefix(c, keys.drop_last(), i);
    } else {
        assert(keys.take(i) =~= keys);
    }
}

/// Applies the events' keys in order.
pub fn update_debug_config_system(
    update_debug_config_event: &Vec<UpdateDebugConfigEvent>,
    debug_config: &mut DebugConfig,
)
    requires
        keys_fit(*old(debug_config), event_keys(update_debug_config_event@)),
    ensures
        *final(debug_config) == apply_keys(*old(debug_config), event_keys(update_debug_config_event@)),
{
    let ghost start = *debug_config;
    let ghost keys = event_keys(update_debug_config_event@);
    let n = update_debug_config_event.len();
    let mut i: usize = 0;
    while i < n
        invariant
            n == update_debug_config_event.len(),
            keys == event_keys(update_debug_config_event@),
            keys_fit(start, keys),
            0 <= i <= n,
            *debug_config == apply_keys(start, keys.take(i as int)),
        decreases n - i,
    {
        proof {
            lemma_keys_fit_prefix(start, keys, i + 1);
            assert(keys.take(i + 1).drop_last() =~= keys.take(i as int));
        }
        debug_config.apply(update_debug_config_event[i].config_key);
        i = i + 1;
    }
    proof {
        assert(keys.take(n as int) =~= keys);
    }
}

/// A setting within its bounds stays within them, whichever key is applied.
pub proof fn lemma_setting_stays_in_bounds(c: DebugConfig, k: DebugConfigKey)
    requires
        c.light_height.min <= c.light_height.value <= c.light_height.max,
        c.light_intensity.min <= c.light_intensity.value <= c.light_intensity.max,
    ensures
        apply_key(c, k).light_height.min <= apply_key(c, k).light_height.value
            <= apply_key(c, k).light_height.max,
        apply_key(c, k).light_intensity.min <= apply_key(c, k).light_intensity.value
            <= apply_key(c, k).light_intensity.max,
{
}

/// The bounds of a setting never change.
pub proof fn lemma_bounds_unchanged(c: DebugConfig, keys: Seq<DebugConfigKey>)
    ensures
        apply_keys(c, keys).light_height.min == c.light_height.min,
        apply_keys(c, keys).light_height.max == c.light_height.max,
        apply_keys(c, keys).light_intensity.min == c.light_intensity.min,
        apply_keys(c, keys).light_intensity.max == c.light_intensity.max,
    decreases keys.len(),
{
    if keys.len() > 0 {
        lemma_bounds_unchanged(c, keys.drop_last());
    }
}

/// Each key changes its own setting only, by one step towards its bound:
/// up to `value + 1` but not above `max`, down to `value - 1` but not below
/// `min`. The other setting and every bound stay as they were.
pub proof fn lemma_key_steps_its_own_setting(c: DebugConfig, k: DebugConfigKey)
    ensures
        k == DebugConfigKey::LightIntensityIncrease || k == DebugConfigKey::LightIntensityDecrease
            ==> apply_key(c, k).light_height == c.light_height,
        k == DebugConfigKey::LightHeightIncrease || k == DebugConfigKey::LightHeightDecrease
            ==> apply_key(c, k).light_intensity == c.light_intensity,
        k == DebugConfigKey::LightIntensityIncrease ==> apply_key(c, k).light_intensity.value == (
        if c.light_intensity.value + 1 <= c.light_intensity.max {
            c.light_intensity.value + 1
        } else {
            c.light_intensity.max as int
        }),
        k == DebugConfigKey::LightIntensityDecrease ==> apply_key(c, k).light_intensity.value == (
        if c.light_intensity.value - 1 >= c.light_intensity.min {
            c.light_intensity.value - 1
        } else {
            c.light_intensity.min as int
        }),
        k == DebugConfigKey::LightHeightIncrease ==> apply_key(c, k).light_height.value == (
        if c.light_height.value + 1 <= c.light_height.max {
            c.light_height.value + 1
        } else {
            c.light_height.max as int
        }),
        k == DebugConfigKey::LightHeightDecrease ==> apply_key(c, k).light_height.value == (
        if c.light_height.value - 1 >= c.light_height.min {
            c.light_height.value - 1
        } else {
            c.light_height.min as int
        }),
        apply_key(c, k).light_intensity.min == c.light_intensity.min,
        apply_key(c, k).light_intensity.max == c.light_intensity.max,
        apply_key(c, k).light_height.min == c.light_height.min,
        apply_key(c, k).light_height.max == c.light_height.max,
{
}

/// Strictly inside its bounds, a step up and a step down cancel out, in
/// either order.
pub proof fn lemma_step_up_and_down_cancel(v: DebugConfigValue)
    requires
        v.min < v.value < v.max,
    ensures
        decreased(increased(v)) == v,
        increased(decreased(v)) == v,
{
}

} // verus!
