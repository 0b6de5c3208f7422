//! Render parameters and the bounds that the settings panel enforces.
//!
//! Luminosity is kept in thousandths, so that the displayed range `[0, 1]`
//! is the integer range `[0, LUMINOSITY_SCALE]`.

use vstd::prelude::*;

verus! {

/// One unit of displayed luminosity, in thousandths.
pub const LUMINOSITY_SCALE: u16 = 1000;

/// Luminosity at startup: two tenths of the full scale.
pub const DEFAULT_LUMINOSITY: u16 = 200;

/// Fewest layers the layer slider allows.
pub const MIN_LAYERS: u8 = 1;

/// Most layers the layer slider allows.
pub const MAX_LAYERS: u8 = 10;

/// Layer count at startup.
pub const DEFAULT_LAYERS: u8 = 3;

/// The three numeric render parameters, owned by the application shell and
/// edited through the settings panel.
#[derive(Clone, Copy, Debug, PartialEq, Eq, Structural)]
pub struct State {
    /// Luminosity in thousandths of the displayed `[0, 1]` range.
    pub luminosity: u16,
    /// How many noise layers the shader composes.
    pub layers: u8,
    /// Seed fed to the shader; any value is accepted.
    pub seed: i32,
}

impl State {
    /// The bounds the settings panel keeps: luminosity within its scale and
    /// the layer count within the slider's range. The render pipeline itself
    /// does not demand them.
    pub open spec fn valid(self) -> bool {
        &&& self.luminosity <= LUMINOSITY_SCALE
        &&& MIN_LAYERS <= self.layers <= MAX_LAYERS
    }

    /// The parameters at process start: default luminosity and layer count,
    /// and whatever seed the caller derived from the clock.
    pub fn initial(seed: i32) -> (s: State)
        ensures
            s.luminosity == DEFAULT_LUMINOSITY,
            s.layers == DEFAULT_LAYERS,
            s.seed == seed,
            s.valid(),
    {
        State { luminosity: DEFAULT_LUMINOSITY, layers: DEFAULT_LAYERS, seed }
    }
}

/// What the luminosity slider stores for a requested value: the value itself
/// inside `[0, LUMINOSITY_SCALE]`, the nearer bound outside it.
pub open spec fn clamped_luminosity(v: int) -> int {
    if v < 0 {
        0
    } else if v > LUMINOSITY_SCALE as int {
        LUMINOSITY_SCALE as int
    } else {
        v
    }
}

/// What the layer slider stores for a requested value: the value itself
/// inside `[MIN_LAYERS, MAX_LAYERS]`, the nearer bound outside it.
pub open spec fn clamped_layers(v: int) -> int {
    if v < MIN_LAYERS as int {
        MIN_LAYERS as int
    } else if v > MAX_LAYERS as int {
        MAX_LAYERS as int
    } else {
        v
    }
}

/// The luminosity slider's clamp: values outside `[0, LUMINOSITY_SCALE]` are
/// pulled to the nearer bound, values inside pass unchanged.
pub fn clamp_luminosity(v: i64) -> (r: u16)
    ensures
        r as int == clamped_luminosity(v as int),
        r <= LUMINOSITY_SCALE,
{
    if v < 0 {
        0
    } else if v > LUMINOSITY_SCALE as i64 {
        LUMINOSITY_SCALE
    } else {
        v as u16
    }
}

/// The layer slider's clamp: values outside `[MIN_LAYERS, MAX_LAYERS]` are
/// pulled to the nearer bound, values inside pass unchanged.
pub fn clamp_layers(v: i64) -> (r: u8)
    ensures
        r as int == clamped_layers(v as int),
        MIN_LAYERS <= r <= MAX_LAYERS,
{
    if v < MIN_LAYERS as i64 {
        MIN_LAYERS
    } else if v > MAX_LAYERS as i64 {
        MAX_LAYERS
    } else {
        v as u8
    }
}

/// One pass of the settings panel over the parameters: both sliders clamp
/// what was requested, the seed field takes any value. The result always
/// satisfies the panel's bounds, whatever the parameters held before.
pub fn apply_settings(state: &mut State, luminosity: i64, layers: i64, seed: i32)
    ensures
        final(state).luminosity as int == clamped_luminosity(luminosity as int),
        final(state).layers as int == clamped_layers(layers as int),
        final(state).seed == seed,
        final(state).valid(),
{
    state.luminosity = clamp_luminosity(luminosity);
    state.layers = clamp_layers(layers);
    state.seed = seed;
}

} // verus!
