//! Pan/orbit/zoom navigation policy.
//!
//! `PanOrbitZoomControl` holds only the configured zoom bounds. Each call it
//! derives, from the live camera pose, a sensitivity that grows with the
//! camera's distance from its target, and maps every classified input event
//! of the tick to a camera action: primary drags orbit around the world
//! origin, secondary drags pan, and vertical scrolls zoom toward the current
//! target, clamped to the bounds. The actions are handed to the rendering
//! engine, which performs the actual matrix updates; the zoomed distance
//! itself is also computed here, exactly, so the clamping is part of the
//! verified policy.
//!
//! All scalars are fixed-point milliunits: the sensitivity rule
//! `0.01 * distance + 0.001` becomes `distance / 100 + 1`.

use vstd::prelude::*;
use crate::geometry::{Vec3Milli, dist_sq, sqrt_floor, DIST_LIMIT, distance_milli};
use vstd::arithmetic::div_mod::lemma_div_is_ordered;

verus! {

/// Largest raw gesture magnitude (drag delta or scroll amount, in
/// milliunits) the zoom arithmetic supports without overflow.
pub const DELTA_LIMIT: i64 = 1_000_000_000;

/// One input event of a render tick, already classified by gesture category.
/// Deltas are in milliunits of the engine's raw gesture measure.
#[derive(Clone, Copy, PartialEq, Eq, Structural, Debug)]
pub enum InputEvent {
    /// Drag with the primary button held: orbits the camera.
    PrimaryDrag { dx: i64, dy: i64 },
    /// Drag with the secondary button held: pans the camera.
    SecondaryDrag { dx: i64, dy: i64 },
    /// Vertical scroll: zooms the camera.
    Scroll { delta: i64 },
    /// Any gesture the policy does not map; it must be ignored.
    Other,
}

/// A camera mutation the rendering engine knows how to perform.
#[derive(Clone, Copy, PartialEq, Eq, Structural, Debug)]
pub enum CameraAction {
    /// Rotate the camera position left/right around `target`.
    OrbitLeft { target: Vec3Milli, speed: i64 },
    /// Rotate the camera position up/down around `target`.
    OrbitUp { target: Vec3Milli, speed: i64 },
    /// Translate camera and target together along the camera's right axis.
    Left { speed: i64 },
    /// Translate camera and target together along the camera's up axis.
    Up { speed: i64 },
    /// Move the camera along the view ray toward `target`, keeping the
    /// distance within `[min, max]`.
    Zoom { min: i64, max: i64, speed: i64, target: Vec3Milli },
}

/// The declarative gesture-to-action table built for one tick.
#[derive(Clone, Copy, PartialEq, Eq, Structural, Debug)]
pub struct CameraControlMap {
    pub primary_drag_horizontal: CameraAction,
    pub primary_drag_vertical: CameraAction,
    pub secondary_drag_horizontal: CameraAction,
    pub secondary_drag_vertical: CameraAction,
    pub scroll_vertical: CameraAction,
}

/// One action to perform, together with the raw gesture magnitude that
/// drives it.
#[derive(Clone, Copy, PartialEq, Eq, Structural, Debug)]
pub struct CameraMove {
    pub action: CameraAction,
    pub amount: i64,
}

/// What the policy reads of the engine's camera: where it stands and where
/// it looks.
#[derive(Clone, Copy, PartialEq, Eq, Structural, Debug)]
pub struct CameraPose {
    pub position: Vec3Milli,
    pub target: Vec3Milli,
}

impl CameraPose {
    pub open spec fn in_bounds(self) -> bool {
        self.position.in_bounds() && self.target.in_bounds()
    }

    /// Distance from camera to target, rounded down to a milliunit.
    pub open spec fn distance_spec(self) -> int {
        sqrt_floor(dist_sq(self.target, self.position))
    }
}

/// The navigation sensitivity at a given camera distance, in milliunits:
/// the fixed-point form of `0.01 * distance + 0.001`.
pub open spec fn speed_of(distance: int) -> int {
    distance / 100 + 1
}

/// The world-space origin, the fixed orbit pivot of this viewer.
pub open spec fn origin_spec() -> Vec3Milli {
    Vec3Milli { x: 0, y: 0, z: 0 }
}

/// Sensitivity never decreases as the camera moves away from its target.
pub proof fn lemma_speed_monotone(d1: int, d2: int)
    requires
        0 <= d1 <= d2,
    ensures
        speed_of(d1) <= speed_of(d2),
{
    lemma_div_is_ordered(d1, d2, 100);
}

/// The error a viewer gets for configuring impossible zoom bounds.
#[derive(Clone, Copy, PartialEq, Eq, Structural, Debug)]
pub enum ConfigError {
    /// The bounds do not satisfy `0 < min_distance < max_distance`.
    InvalidBounds,
}

/// The navigation controller: nothing but the configured zoom bounds.
#[derive(Clone, Copy, PartialEq, Eq, Structural, Debug)]
pub struct PanOrbitZoomControl {
    pub min_distance: i64,
    pub max_distance: i64,
}

/// How far one scroll of `delta` moves the camera along the view ray, before
/// clamping: `delta * speed / 1000`, rounded toward zero so that zooming in
/// and zooming out by the same amount are symmetric.
pub open spec fn zoom_step(distance: int, delta: int) -> int {
    if delta >= 0 {
        delta * speed_of(distance) / 1000
    } else {
        -((-delta) * speed_of(distance) / 1000)
    }
}

pub open spec fn clamp_spec(v: int, lo: int, hi: int) -> int {
    if v < lo {
        lo
    } else if v > hi {
        hi
    } else {
        v
    }
}

/// The camera distance after one scroll event, clamped to the bounds.
pub open spec fn zoomed_spec(ctl: PanOrbitZoomControl, distance: int, delta: int) -> int {
    clamp_spec(
        distance - zoom_step(distance, delta),
        ctl.min_distance as int,
        ctl.max_distance as int,
    )
}

/// The camera distance after a whole sequence of scroll events.
pub open spec fn zoomed_seq_spec(ctl: PanOrbitZoomControl, distance: int, deltas: Seq<i64>) -> int
    decreases deltas.len(),
{
    if deltas.len() == 0 {
        distance
    } else {
        zoomed_spec(ctl, zoomed_seq_spec(ctl, distance, deltas.drop_last()), deltas.last() as int)
    }
}

/// The moves one event produces under a gesture-to-action table: a drag
/// drives the table's horizontal action with `dx` and its vertical action
/// with `dy`, a scroll drives the zoom action with its amount, and an
/// unmapped gesture produces nothing.
pub open spec fn moves_of(m: CameraControlMap, e: InputEvent) -> Seq<CameraMove> {
    match e {
        InputEvent::PrimaryDrag { dx, dy } => seq![
            (CameraMove { action: m.primary_drag_horizontal, amount: dx }),
            (CameraMove { action: m.primary_drag_vertical, amount: dy }),
        ],
        InputEvent::SecondaryDrag { dx, dy } => seq![
            (CameraMove { action: m.secondary_drag_horizontal, amount: dx }),
            (CameraMove { action: m.secondary_drag_vertical, amount: dy }),
        ],
        InputEvent::Scroll { delta } => seq![
            (CameraMove { action: m.scroll_vertical, amount: delta }),
        ],
        InputEvent::Other => Seq::empty(),
    }
}

/// The moves a whole batch of events produces, in order.
pub open spec fn plan_spec(m: CameraControlMap, events: Seq<InputEvent>) -> Seq<CameraMove>
    decreases events.len(),
{
    if events.len() == 0 {
        Seq::empty()
    } else {
        plan_spec(m, events.drop_last()) + moves_of(m, events.last())
    }
}

impl PanOrbitZoomControl {
    /// The configuration invariant: positive bounds in the right order.
    pub open spec fn wf(self) -> bool {
        0 < self.min_distance < self.max_distance
    }

    /// The gesture-to-action table this controller builds for a camera pose:
    /// orbits pivot on the world origin, zoom targets the camera's current
    /// target, and every action moves at the pose's distance-derived speed.
    pub open spec fn map_spec(self, pose: CameraPose) -> CameraControlMap {
        let speed = speed_of(pose.distance_spec()) as i64;
        CameraControlMap {
            primary_drag_horizontal: CameraAction::OrbitLeft { target: origin_spec(), speed },
            primary_drag_vertical: CameraAction::OrbitUp { target: origin_spec(), speed },
            secondary_drag_horizontal: CameraAction::Left { speed },
            secondary_drag_vertical: CameraAction::Up { speed },
            scroll_vertical: CameraAction::Zoom {
                min: self.min_distance,
                max: self.max_distance,
                speed,
                target: pose.target,
            },
        }
    }

    /// Creates a controller with the given zoom bounds, in milliunits.
    /// Succeeds exactly when `0 < min_distance < max_distance`.
    pub fn new(min_distance: i64, max_distance: i64) -> (r: Result<Self, ConfigError>)
        ensures
            r is Ok <==> 0 < min_distance < max_distance,
            r matches Ok(c) ==> c == (PanOrbitZoomControl { min_distance, max_distance }) && c.wf(),
            r matches Err(e) ==> e == ConfigError::InvalidBounds,
    {
        if 0 < min_distance && min_distance < max_distance {
            Ok(PanOrbitZoomControl { min_distance, max_distance })
        } else {
            Err(ConfigError::InvalidBounds)
        }
    }

    /// The navigation sensitivity at `distance`, in milliunits.
    pub fn speed(distance: i64) -> (r: i64)
        requires
            0 <= distance,
        ensures
            r as int == speed_of(distance as int),
            1 <= r,
    {
        distance / 100 + 1
    }

    /// Builds this tick's gesture-to-action table from the live camera pose.
    pub fn control_map(&self, pose: &CameraPose) -> (m: CameraControlMap)
        requires
            pose.in_bounds(),
        ensures
            m == self.map_spec(*pose),
    {
        let distance: i64 = distance_milli(&pose.target, &pose.position);
        let speed: i64 = Self::speed(distance);
        let origin = Vec3Milli { x: 0, y: 0, z: 0 };
        CameraControlMap {
            primary_drag_horizontal: CameraAction::OrbitLeft { target: origin, speed },
            primary_drag_vertical: CameraAction::OrbitUp { target: origin, speed },
            secondary_drag_horizontal: CameraAction::Left { speed },
            secondary_drag_vertical: CameraAction::Up { speed },
            scroll_vertical: CameraAction::Zoom {
                min: self.min_distance,
                max: self.max_distance,
                speed,
                target: pose.target,
            },
        }
    }

    /// The camera distance after one scroll of `delta` at the sensitivity of
    /// the current `distance`: positive `delta` zooms in, negative zooms
    /// out, and the result never leaves `[min_distance, max_distance]`.
    pub fn zoomed_distance(&self, distance: i64, delta: i64) -> (r: i64)
        requires
            self.wf(),
            0 <= distance <= DIST_LIMIT,
            -DELTA_LIMIT <= delta <= DELTA_LIMIT,
        ensures
            r as int == zoomed_spec(*self, distance as int, delta as int),
            self.min_distance <= r <= self.max_distance,
    {
        let speed: i64 = Self::speed(distance);
        assert(speed <= 40_000_001);
        let magnitude: i64 = if delta >= 0 {
            delta
        } else {
            -delta
        };
        assert(magnitude * speed <= 1_000_000_000i64 * 40_000_001i64) by (nonlinear_arith)
            requires
                0 <= magnitude <= 1_000_000_000i64,
                0 <= speed <= 40_000_001i64,
        ;
        assert(magnitude * speed >= 0) by (nonlinear_arith)
            requires
                0 <= magnitude,
                0 <= speed,
        ;
        let step: i64 = magnitude * speed / 1000;
        let moved: i64 = if delta >= 0 {
            distance - step
        } else {
            distance + step
        };
        if moved < self.min_distance {
            self.min_distance
        } else if moved > self.max_distance {
            self.max_distance
        } else {
            moved
        }
    }

    /// The camera distance after a whole sequence of scroll events, each one
    /// applied at the sensitivity of the distance it starts from. After any
    /// scroll at all the result is within the bounds.
    pub fn zoomed_distance_seq(&self, distance: i64, deltas: &Vec<i64>) -> (r: i64)
        requires
            self.wf(),
            self.max_distance <= DIST_LIMIT,
            0 <= distance <= DIST_LIMIT,
            forall|i: int| 0 <= i < deltas@.len() ==> -DELTA_LIMIT <= #[trigger] deltas@[i] <= DELTA_LIMIT,
        ensures
            r as int == zoomed_seq_spec(*self, distance as int, deltas@),
            deltas@.len() > 0 ==> self.min_distance <= r <= self.max_distance,
    {
        let mut current: i64 = distance;
        let mut i: usize = 0;
        while i < deltas.len()
            invariant
                i <= deltas.len(),
                self.wf(),
                self.max_distance <= DIST_LIMIT,
                0 <= current <= DIST_LIMIT,
                forall|j: int| 0 <= j < deltas@.len() ==> -DELTA_LIMIT <= #[trigger] deltas@[j] <= DELTA_LIMIT,
                current as int == zoomed_seq_spec(*self, distance as int, deltas@.take(i as int)),
                i > 0 ==> self.min_distance <= current <= self.max_distance,
            decreases deltas.len() - i,
        {
            let next: i64 = self.zoomed_distance(current, deltas[i]);
            proof {
                assert(deltas@.take(i as int + 1).drop_last() =~= deltas@.take(i as int));
                assert(deltas@.take(i as int + 1).last() == deltas@[i as int]);
            }
            current = next;
            i = i + 1;
        }
        proof {
            assert(deltas@.take(deltas@.len() as int) =~= deltas@);
        }
        current
    }

    /// Maps this tick's events to camera moves and reports whether any event
    /// was handled at all (so the caller knows whether to re-render). The
    /// moves are exactly the batch's plan under this pose's action table.
    pub fn handle_events(&self, camera: &CameraPose, events: &Vec<InputEvent>) -> (r: (Vec<
        CameraMove,
    >, bool))
        requires
            camera.in_bounds(),
        ensures
            r.0@ == plan_spec(self.map_spec(*camera), events@),
            r.1 <==> plan_spec(self.map_spec(*camera), events@).len() > 0,
    {
        let m = self.control_map(camera);
        let mut moves: Vec<CameraMove> = Vec::new();
        let mut i: usize = 0;
        while i < events.len()
            invariant
                i <= events.len(),
                m == self.map_spec(*camera),
                moves@ == plan_spec(m, events@.take(i as int)),
            decreases events.len() - i,
        {
            let e = events[i];
            match e {
                InputEvent::PrimaryDrag { dx, dy } => {
                    moves.push(CameraMove { action: m.primary_drag_horizontal, amount: dx });
                    moves.push(CameraMove { action: m.primary_drag_vertical, amount: dy });
                },
                InputEvent::SecondaryDrag { dx, dy } => {
                    moves.push(CameraMove { action: m.secondary_drag_horizontal, amount: dx });
                    moves.push(CameraMove { action: m.secondary_drag_vertical, amount: dy });
                },
                InputEvent::Scroll { delta } => {
                    moves.push(CameraMove { action: m.scroll_vertical, amount: delta });
                },
                InputEvent::Other => {},
            }
            proof {
                assert(events@.take(i as int + 1).drop_last() =~= events@.take(i as int));
                assert(events@.take(i as int + 1).last() == events@[i as int]);
                assert(moves@ =~= plan_spec(m, events@.take(i as int + 1)));
            }
            i = i + 1;
        }
        proof {
            assert(events@.take(events@.len() as int) =~= events@);
        }
        let changed: bool = moves.len() > 0;
        (moves, changed)
    }
}

/// Zoom clamping law: whatever the current distance and whatever the scroll
/// amount, the post-event distance a well-formed controller computes lies
/// within `[min_distance, max_distance]`.
pub proof fn lemma_zoom_within_bounds(ctl: PanOrbitZoomControl, distance: int, delta: int)
    requires
        ctl.wf(),
    ensures
        ctl.min_distance <= zoomed_spec(ctl, distance, delta) <= ctl.max_distance,
{
}

/// Zoom clamping law over sequences: after any non-empty sequence of scroll
/// events the distance lies within `[min_distance, max_distance]`, even if a
/// single step would have overshot a bound.
pub proof fn lemma_zoom_seq_within_bounds(ctl: PanOrbitZoomControl, distance: int, deltas: Seq<i64>)
    requires
        ctl.wf(),
        deltas.len() > 0,
    ensures
        ctl.min_distance <= zoomed_seq_spec(ctl, distance, deltas) <= ctl.max_distance,
{
}

} // verus!
