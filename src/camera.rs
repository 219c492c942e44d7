use vstd::prelude::*;

use crate::mode::ColorBlindnessMode;
use crate::percentages::ColorBlindnessPercentages;

verus! {

/// Per-camera simulation settings.
///
/// A camera that carries this component has its rendered frame passed through
/// the channel mix of [`ColorBlindnessCamera::effective_mode`].
#[derive(Clone, Copy, Debug, PartialEq, Eq, Structural)]
pub struct ColorBlindnessCamera {
    /// Selects the color blindness mode to use.
    ///
    /// Defaults to `ColorBlindnessMode::Normal`.
    pub mode: ColorBlindnessMode,
    /// Controls whether color blindness simulation is enabled.
    ///
    /// Defaults to `false`.
    pub enabled: bool,
}

impl ColorBlindnessCamera {
    /// The mode whose matrix is applied: the selected mode while enabled,
    /// `Normal` otherwise.
    pub open spec fn spec_effective_mode(self) -> ColorBlindnessMode {
        if self.enabled {
            self.mode
        } else {
            ColorBlindnessMode::Normal
        }
    }

    /// Returns the mode whose matrix is applied to this camera's frame.
    pub fn effective_mode(&self) -> (r: ColorBlindnessMode)
        ensures
            r == self.spec_effective_mode(),
            !self.enabled ==> r == ColorBlindnessMode::Normal,
    {
        if self.enabled {
            self.mode
        } else {
            ColorBlindnessMode::Normal
        }
    }
}

impl Default for ColorBlindnessCamera {
    /// `Normal` mode, disabled.
    fn default() -> (r: Self)
        ensures
            r.mode == ColorBlindnessMode::Normal,
            !r.enabled,
    {
        ColorBlindnessCamera { mode: ColorBlindnessMode::Normal, enabled: false }
    }
}

/// The channel mix handed to the rendering stage for one camera: a cached copy of
/// the matrix of that camera's effective mode.
#[derive(Clone, Copy, Debug, PartialEq, Eq, Structural)]
pub struct ColorBlindnessPostProcess {
    percentages: ColorBlindnessPercentages,
}

impl ColorBlindnessPostProcess {
    /// The matrix currently published.
    pub closed spec fn spec_percentages(self) -> ColorBlindnessPercentages {
        self.percentages
    }

    /// The published matrix is the one that `camera` asks for.
    pub open spec fn derived_from(self, camera: ColorBlindnessCamera) -> bool {
        self.spec_percentages() == camera.spec_effective_mode().spec_percentages()
    }

    /// The mix derived from `camera`.
    pub fn new(camera: &ColorBlindnessCamera) -> (r: Self)
        ensures
            r.derived_from(*camera),
    {
        ColorBlindnessPostProcess { percentages: camera.effective_mode().percentages() }
    }

    /// Returns the matrix currently published.
    pub fn percentages(&self) -> (r: ColorBlindnessPercentages)
        ensures
            r == self.spec_percentages(),
    {
        self.percentages
    }
}

impl Default for ColorBlindnessPostProcess {
    /// The identity mix of `Normal` vision.
    fn default() -> (r: Self)
        ensures
            r.spec_percentages() == ColorBlindnessMode::Normal.spec_percentages(),
    {
        ColorBlindnessPostProcess { percentages: ColorBlindnessMode::Normal.percentages() }
    }
}

/// Updates the percentages in `settings` from the values in `camera`: the matrix of
/// the selected mode while the simulation is enabled, that of `Normal` otherwise.
///
/// Meant to run whenever `camera` has changed since the last run.
pub fn update_percentages(settings: &mut ColorBlindnessPostProcess, camera: &ColorBlindnessCamera)
    ensures
        final(settings).derived_from(*camera),
        old(settings).derived_from(*camera) ==> *final(settings) == *old(settings),
{
    let mode = camera.effective_mode();
    settings.percentages = mode.percentages();
}

/// Updating twice from an unchanged camera publishes nothing new the second time:
/// once `settings` holds what `camera` asks for, any mix that an update from the
/// same camera leaves behind is `settings` itself.
pub proof fn lemma_update_idempotent(
    camera: ColorBlindnessCamera,
    settings: ColorBlindnessPostProcess,
    again: ColorBlindnessPostProcess,
)
    requires
        settings.derived_from(camera),
        again.derived_from(camera),
    ensures
        again == settings,
{
}

} // verus!
