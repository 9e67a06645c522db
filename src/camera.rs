use vstd::prelude::*;

verus! {

/// Fixed-point scale of the orbit radius and of scroll amounts: this many
/// units make one world unit (or one scroll line).
pub const RADIUS_SCALE: u64 = 10_000;

/// Radius floor, 0.05 world units: zooming never brings the camera closer
/// to its focus point.
pub const MIN_RADIUS: u64 = 500;

/// Radius ceiling, 10^11 world units, far past anything a scene shows; it
/// keeps the fixed-point arithmetic in range.
pub const MAX_RADIUS: u64 = 1_000_000_000_000_000;

/// Radius of a fresh rig, 5 world units.
pub const DEFAULT_RADIUS: u64 = 50_000;

/// Zoom sensitivity, 0.2: one scroll line shortens the radius by a fifth.
pub const ZOOM_SENSITIVITY_NUM: u64 = 2;

pub const ZOOM_SENSITIVITY_DEN: u64 = 10;

/// What the rig does in a frame. At most one mode acts per frame, orbit
/// before pan before zoom.
#[derive(PartialEq, Eq, Structural, Clone, Copy, Debug)]
pub enum CameraMode {
    Orbit,
    Pan,
    Zoom,
    Idle,
}

/// The aggregated mouse input of one frame, as the host measured it.
pub struct CameraInput {
    /// The orbit (secondary) button is held.
    pub orbit_pressed: bool,
    /// The pan (middle) button is held.
    pub pan_pressed: bool,
    /// The orbit button was pressed or released this frame.
    pub orbit_toggled: bool,
    /// The mouse moved this frame (its accumulated motion is not zero).
    pub motion_nonzero: bool,
    /// Accumulated vertical scroll, in units of `RADIUS_SCALE` per line.
    pub scroll: i64,
    /// The camera's local up vector points at or below the horizon.
    pub camera_flipped: bool,
}

/// Per-rig orbit state: the focus point (`V`, the host's 3-vector), the
/// orbit radius in fixed point, and whether the camera is upside down.
pub struct PanOrbitCamera<V> {
    focus: V,
    radius: u64,
    upside_down: bool,
}

/// Marker for the host plugin that spawns the camera rig and drives it from
/// mouse input every frame.
pub struct EditorCameraPlugin;

/// The mode of a frame with input `input`.
pub open spec fn mode_of(input: CameraInput) -> CameraMode {
    if input.orbit_pressed && input.motion_nonzero {
        CameraMode::Orbit
    } else if !input.orbit_pressed && input.pan_pressed && input.motion_nonzero {
        CameraMode::Pan
    } else if input.scroll != 0 {
        CameraMode::Zoom
    } else {
        CameraMode::Idle
    }
}

/// `r` clamped into the radius bounds.
pub open spec fn clamped_radius(r: int) -> int {
    if r < MIN_RADIUS {
        MIN_RADIUS as int
    } else if r > MAX_RADIUS {
        MAX_RADIUS as int
    } else {
        r
    }
}

/// The radius after zooming by `scroll` from `r`, both in fixed point:
/// `r - scroll * r * sensitivity`, rounded down and clamped into the bounds.
pub open spec fn zoomed_radius(r: int, scroll: int) -> int {
    let den = RADIUS_SCALE * ZOOM_SENSITIVITY_DEN;
    let scaled = r * den - scroll * r * ZOOM_SENSITIVITY_NUM;
    if scaled < MIN_RADIUS * den {
        MIN_RADIUS as int
    } else {
        clamped_radius(scaled / den as int)
    }
}

/// The radius after the zoom steps `scrolls`, in order.
pub open spec fn zoomed_radius_all(r: int, scrolls: Seq<i64>) -> int
    decreases scrolls.len(),
{
    if scrolls.len() == 0 {
        r
    } else {
        zoomed_radius(zoomed_radius_all(r, scrolls.drop_last()), scrolls.last() as int)
    }
}

/// Picks the mode of a frame: orbit while the orbit button is held and the
/// mouse moved; else pan while only the pan button is held and the mouse
/// moved; else zoom when there was scrolling.
pub fn classify_mode(input: &CameraInput) -> (r: CameraMode)
    ensures
        r == mode_of(*input),
{
    if input.orbit_pressed && input.motion_nonzero {
        CameraMode::Orbit
    } else if !input.orbit_pressed && input.pan_pressed && input.motion_nonzero {
        CameraMode::Pan
    } else if input.scroll != 0 {
        CameraMode::Zoom
    } else {
        CameraMode::Idle
    }
}

/// Zooms a radius by a scroll amount (see `zoomed_radius`).
pub fn zoom_radius(radius: u64, scroll: i64) -> (r: u64)
    requires
        MIN_RADIUS <= radius <= MAX_RADIUS,
    ensures
        r == zoomed_radius(radius as int, scroll as int),
        MIN_RADIUS <= r <= MAX_RADIUS,
{
    let den: i128 = (RADIUS_SCALE * ZOOM_SENSITIVITY_DEN) as i128;
    let r: i128 = radius as i128;
    let s: i128 = scroll as i128;
    assert(r * den <= 1_000_000_000_000_000 * 100_000) by (nonlinear_arith)
        requires
            0 <= r <= 1_000_000_000_000_000,
            den == 100_000,
    ;
    assert(-0x8000_0000_0000_0000 * 1_000_000_000_000_000 * 2 <= s * r * 2
        <= 0x8000_0000_0000_0000 * 1_000_000_000_000_000 * 2) by (nonlinear_arith)
        requires
            0 <= r <= 1_000_000_000_000_000,
            -0x8000_0000_0000_0000 <= s <= 0x8000_0000_0000_0000,
    ;
    let sr: i128 = s * r;
    let scaled: i128 = r * den - sr * (ZOOM_SENSITIVITY_NUM as i128);
    if scaled < (MIN_RADIUS as i128) * den {
        MIN_RADIUS
    } else {
        let q: u128 = (scaled as u128) / (den as u128);
        if q > MAX_RADIUS as u128 {
            MAX_RADIUS
        } else {
            q as u64
        }
    }
}

impl<V> PanOrbitCamera<V> {
    /// The radius in fixed point.
    pub closed spec fn radius_units(&self) -> int {
        self.radius as int
    }

    pub closed spec fn is_upside_down(&self) -> bool {
        self.upside_down
    }

    /// The point the camera orbits around.
    pub closed spec fn focus_point(&self) -> V {
        self.focus
    }

    /// The radius stays within its bounds.
    pub open spec fn wf(&self) -> bool {
        MIN_RADIUS <= self.radius_units() <= MAX_RADIUS
    }

    /// A rig around `focus` at `radius` (fixed point), clamped into the
    /// radius bounds, not upside down.
    pub fn new(focus: V, radius: u64) -> (r: Self)
        ensures
            r.wf(),
            r.focus_point() == focus,
            r.radius_units() == clamped_radius(radius as int),
            !r.is_upside_down(),
    {
        let radius = if radius < MIN_RADIUS {
            MIN_RADIUS
        } else if radius > MAX_RADIUS {
            MAX_RADIUS
        } else {
            radius
        };
        PanOrbitCamera { focus, radius, upside_down: false }
    }

    /// A rig around `focus` at the default radius.
    pub fn with_focus(focus: V) -> (r: Self)
        ensures
            r.wf(),
            r.focus_point() == focus,
            r.radius_units() == DEFAULT_RADIUS,
            !r.is_upside_down(),
    {
        PanOrbitCamera { focus, radius: DEFAULT_RADIUS, upside_down: false }
    }

    pub fn radius(&self) -> (r: u64)
        ensures
            r == self.radius_units(),
    {
        self.radius
    }

    pub fn upside_down(&self) -> (r: bool)
        ensures
            r == self.is_upside_down(),
    {
        self.upside_down
    }

    pub fn focus(&self) -> (r: &V)
        ensures
            *r == self.focus_point(),
    {
        &self.focus
    }

    /// Moves the focus point (after a pan); radius and flag stay.
    pub fn set_focus(&mut self, focus: V)
        ensures
            final(self).focus_point() == focus,
            final(self).radius_units() == old(self).radius_units(),
            final(self).is_upside_down() == old(self).is_upside_down(),
    {
        self.focus = focus;
    }
}

/// The upside-down flag after a frame with input `input`: recomputed from
/// the camera on an orbit-button edge, kept otherwise.
pub open spec fn flipped_after(upside_down: bool, input: CameraInput) -> bool {
    if input.orbit_toggled {
        input.camera_flipped
    } else {
        upside_down
    }
}

/// The radius after a frame with input `input`: only a zoom frame moves it.
pub open spec fn radius_after(radius: int, input: CameraInput) -> int {
    if mode_of(input) == CameraMode::Zoom {
        zoomed_radius(radius, input.scroll as int)
    } else {
        radius
    }
}

/// The upside-down flag after the frames `inputs`, in order.
pub open spec fn flipped_after_all(upside_down: bool, inputs: Seq<CameraInput>) -> bool
    decreases inputs.len(),
{
    if inputs.len() == 0 {
        upside_down
    } else {
        flipped_after(flipped_after_all(upside_down, inputs.drop_last()), inputs.last())
    }
}

/// The radius after the frames `inputs`, in order.
pub open spec fn radius_after_all(radius: int, inputs: Seq<CameraInput>) -> int
    decreases inputs.len(),
{
    if inputs.len() == 0 {
        radius
    } else {
        radius_after(radius_after_all(radius, inputs.drop_last()), inputs.last())
    }
}

impl<V> PanOrbitCamera<V> {
    /// Applies one frame of input to the rig's state and returns the mode of
    /// the frame. The orbit rotation and the pan translation of the focus
    /// are the host's to apply for the returned mode; after any mode other
    /// than `Idle` the host rebuilds the camera transform from the focus,
    /// orientation and radius.
    pub fn pan_orbit_camera(&mut self, input: &CameraInput) -> (mode: CameraMode)
        requires
            old(self).wf(),
        ensures
            final(self).wf(),
            mode == mode_of(*input),
            final(self).focus_point() == old(self).focus_point(),
            final(self).is_upside_down() == flipped_after(old(self).is_upside_down(), *input),
            final(self).radius_units() == radius_after(old(self).radius_units(), *input),
    {
        if input.orbit_toggled {
            self.upside_down = input.camera_flipped;
        }
        let mode = classify_mode(input);
        if mode == CameraMode::Zoom {
            self.radius = zoom_radius(self.radius, input.scroll);
        }
        mode
    }
}

/// Any sequence of frames, zooms included, leaves the radius within its
/// bounds: never below the floor, so never zero or negative.
pub proof fn lemma_radius_stays_above_floor(radius: int, inputs: Seq<CameraInput>)
    requires
        MIN_RADIUS <= radius <= MAX_RADIUS,
    ensures
        MIN_RADIUS <= radius_after_all(radius, inputs) <= MAX_RADIUS,
        radius_after_all(radius, inputs) > 0,
    decreases inputs.len(),
{
    if inputs.len() > 0 {
        lemma_radius_stays_above_floor(radius, inputs.drop_last());
    }
}

/// A frame without mouse motion neither orbits nor pans, so it leaves the
/// orientation and the focus point as they were.
pub proof fn lemma_still_mouse_neither_orbits_nor_pans(input: CameraInput)
    requires
        !input.motion_nonzero,
    ensures
        mode_of(input) != CameraMode::Orbit,
        mode_of(input) != CameraMode::Pan,
{
}

/// The upside-down flag changes only on orbit-button edges: over frames
/// without an edge it keeps its value, however the camera turns.
pub proof fn lemma_flip_only_on_edges(upside_down: bool, inputs: Seq<CameraInput>)
    requires
        forall|i: int| 0 <= i < inputs.len() ==> !(#[trigger] inputs[i]).orbit_toggled,
    ensures
        flipped_after_all(upside_down, inputs) == upside_down,
    decreases inputs.len(),
{
    if inputs.len() > 0 {
        let prefix = inputs.drop_last();
        assert forall|i: int| 0 <= i < prefix.len() implies !(#[trigger] prefix[i]).orbit_toggled by {
            assert(prefix[i] == inputs[i]);
        }
        lemma_flip_only_on_edges(upside_down, prefix);
        assert(!inputs[inputs.len() - 1].orbit_toggled);
    }
}

} // verus!
