use vstd::prelude::*;

verus! {

/// One step of the view transform, applied in the order the steps are listed.
#[derive(Clone, Copy, Debug, PartialEq, Eq, Structural)]
pub enum ProjStep {
    /// Translate by the given pixel offsets.
    Shift { x: i64, y: i64, z: i64 },
    /// Rotate about the vertical axis by the yaw angle.
    RotateYaw,
    /// Rotate about the horizontal axis by the pitch angle.
    RotatePitch,
    /// Zoom out by the fixed margin factor.
    Scale,
}

/// Integer division that rounds toward zero, as machine division does.
pub open spec fn trunc_div(a: int, d: int) -> int {
    if a >= 0 {
        a / d
    } else {
        -((-a) / d)
    }
}

pub open spec fn min_int(a: int, b: int) -> int {
    if a <= b { a } else { b }
}

/// The scene radius for a viewport of `width` by `height` pixels: the smaller side,
/// less a fifth for the margin, halved.
pub open spec fn viewport_radius(width: int, height: int) -> int {
    trunc_div(trunc_div(min_int(width, height) * 4, 5), 2)
}

/// The rotation steps: yaw first, then pitch, each only where it is active.
pub open spec fn rotation_steps(yaw_active: bool, pitch_active: bool) -> Seq<ProjStep> {
    (if yaw_active { seq![ProjStep::RotateYaw] } else { Seq::empty() }) + (if pitch_active {
        seq![ProjStep::RotatePitch]
    } else {
        Seq::empty()
    })
}

/// The view transform for the viewport spanning pixels `x_start .. x_end` by
/// `y_start .. y_end`: recenter by the radius (skipped for a zero radius), the
/// active rotations, the zoom-out, and a move to the viewport's center (skipped
/// where the center is the origin).
pub open spec fn projection_plan(
    x_start: int,
    x_end: int,
    y_start: int,
    y_end: int,
    yaw_active: bool,
    pitch_active: bool,
) -> Seq<ProjStep> {
    let v = viewport_radius(x_end - x_start, y_end - y_start);
    let cx = trunc_div(x_start + x_end, 2);
    let cy = trunc_div(y_start + y_end, 2);
    let recenter = if v == 0 {
        Seq::empty()
    } else {
        seq![ProjStep::Shift { x: -v as i64, y: -v as i64, z: -v as i64 }]
    };
    let reposition = if cx == 0 && cy == 0 {
        Seq::empty()
    } else {
        seq![ProjStep::Shift { x: cx as i64, y: cy as i64, z: 0 }]
    };
    recenter + rotation_steps(yaw_active, pitch_active) + seq![ProjStep::Scale] + reposition
}

/// Division by a positive divisor, rounding toward zero.
fn div_toward_zero(a: i64, d: i64) -> (r: i64)
    requires
        d > 0,
        a > i64::MIN,
    ensures
        r == trunc_div(a as int, d as int),
{
    if a >= 0 {
        a / d
    } else {
        -((-a) / d)
    }
}

/// The steps of the view transform for one frame, for the viewport spanning pixels
/// `x_start .. x_end` by `y_start .. y_end`; `yaw_active` and `pitch_active` say
/// whether each rotation is large enough to apply.
pub fn build_projection(
    x_start: i32,
    x_end: i32,
    y_start: i32,
    y_end: i32,
    yaw_active: bool,
    pitch_active: bool,
) -> (r: Vec<ProjStep>)
    ensures
        r@ == projection_plan(
            x_start as int,
            x_end as int,
            y_start as int,
            y_end as int,
            yaw_active,
            pitch_active,
        ),
{
    let width: i64 = x_end as i64 - x_start as i64;
    let height: i64 = y_end as i64 - y_start as i64;
    let side: i64 = if width <= height { width } else { height };
    let v: i64 = div_toward_zero(div_toward_zero(side * 4, 5), 2);
    let cx: i64 = div_toward_zero(x_start as i64 + x_end as i64, 2);
    let cy: i64 = div_toward_zero(y_start as i64 + y_end as i64, 2);
    let mut steps: Vec<ProjStep> = Vec::new();
    if v != 0 {
        steps.push(ProjStep::Shift { x: -v, y: -v, z: -v });
    }
    if yaw_active {
        steps.push(ProjStep::RotateYaw);
    }
    if pitch_active {
        steps.push(ProjStep::RotatePitch);
    }
    steps.push(ProjStep::Scale);
    if cx != 0 || cy != 0 {
        steps.push(ProjStep::Shift { x: cx, y: cy, z: 0 });
    }
    proof {
        let plan = projection_plan(
            x_start as int,
            x_end as int,
            y_start as int,
            y_end as int,
            yaw_active,
            pitch_active,
        );
        assert(steps@ =~= plan);
    }
    steps
}

/// With the degenerate viewport from pixel `(0, 0)` to pixel `(0, 0)` the transform
/// has no recentering shift and no final move: it is the active rotations, then the
/// zoom-out.
pub proof fn lemma_degenerate_viewport(yaw_active: bool, pitch_active: bool)
    ensures
        projection_plan(0, 0, 0, 0, yaw_active, pitch_active) == rotation_steps(
            yaw_active,
            pitch_active,
        ).push(ProjStep::Scale),
        projection_plan(0, 0, 0, 0, yaw_active, pitch_active).contains(ProjStep::Scale),
        projection_plan(0, 0, 0, 0, yaw_active, pitch_active).contains(ProjStep::RotateYaw)
            == yaw_active,
        projection_plan(0, 0, 0, 0, yaw_active, pitch_active).contains(ProjStep::RotatePitch)
            == pitch_active,
        forall|i: int|
            0 <= i < projection_plan(0, 0, 0, 0, yaw_active, pitch_active).len() ==> !(
            #[trigger] projection_plan(0, 0, 0, 0, yaw_active, pitch_active)[i] is Shift),
{
    let plan = projection_plan(0, 0, 0, 0, yaw_active, pitch_active);
    let rot = rotation_steps(yaw_active, pitch_active);
    assert(viewport_radius(0, 0) == 0);
    assert(plan =~= rot.push(ProjStep::Scale));
    assert(plan[plan.len() - 1] == ProjStep::Scale);
    if yaw_active {
        assert(plan[0] == ProjStep::RotateYaw);
    }
    if pitch_active {
        assert(plan[plan.len() - 2] == ProjStep::RotatePitch);
    }
}

/// Without active rotations the transform holds no rotation step; with both active
/// it holds each once, the yaw rotation strictly before the pitch rotation.
pub proof fn lemma_rotation_order(
    x_start: int,
    x_end: int,
    y_start: int,
    y_end: int,
    yaw_active: bool,
    pitch_active: bool,
)
    ensures
        ({
            let plan = projection_plan(x_start, x_end, y_start, y_end, yaw_active, pitch_active);
            &&& !yaw_active && !pitch_active ==> !plan.contains(ProjStep::RotateYaw)
                && !plan.contains(ProjStep::RotatePitch)
            &&& yaw_active && pitch_active ==> plan.contains(ProjStep::RotateYaw)
                && plan.contains(ProjStep::RotatePitch)
            &&& forall|i: int, j: int|
                0 <= i < plan.len() && 0 <= j < plan.len() && #[trigger] plan[i]
                    == ProjStep::RotateYaw && #[trigger] plan[j] == ProjStep::RotatePitch ==> i < j
            &&& forall|i: int, j: int|
                0 <= i < plan.len() && 0 <= j < plan.len() && #[trigger] plan[i]
                    == ProjStep::RotateYaw && #[trigger] plan[j] == ProjStep::RotateYaw ==> i == j
            &&& forall|i: int, j: int|
                0 <= i < plan.len() && 0 <= j < plan.len() && #[trigger] plan[i]
                    == ProjStep::RotatePitch && #[trigger] plan[j] == ProjStep::RotatePitch ==> i
                    == j
        }),
{
    let plan = projection_plan(x_start, x_end, y_start, y_end, yaw_active, pitch_active);
    let v = viewport_radius(x_end - x_start, y_end - y_start);
    let cx = trunc_div(x_start + x_end, 2);
    let cy = trunc_div(y_start + y_end, 2);
    let recenter: Seq<ProjStep> = if v == 0 {
        Seq::empty()
    } else {
        seq![ProjStep::Shift { x: -v as i64, y: -v as i64, z: -v as i64 }]
    };
    let reposition: Seq<ProjStep> = if cx == 0 && cy == 0 {
        Seq::empty()
    } else {
        seq![ProjStep::Shift { x: cx as i64, y: cy as i64, z: 0 }]
    };
    let rot = rotation_steps(yaw_active, pitch_active);
    let n: int = recenter.len() as int;
    assert(plan =~= recenter + rot + seq![ProjStep::Scale] + reposition);
    // Every step outside the rotation block is a shift or the zoom-out.
    assert forall|i: int| 0 <= i < plan.len() && !(n <= i < n + rot.len()) implies !(
    #[trigger] plan[i] is RotateYaw) && !(plan[i] is RotatePitch) by {
        if i < n {
            assert(plan[i] == recenter[i]);
        } else if i == n + rot.len() {
            assert(plan[i] == ProjStep::Scale);
        } else {
            assert(plan[i] == reposition[i - n - rot.len() - 1]);
        }
    }
    assert forall|i: int| n <= i < n + rot.len() implies #[trigger] plan[i] == rot[i - n] by {}
    if yaw_active {
        assert(plan[n] == ProjStep::RotateYaw);
    }
    if pitch_active {
        assert(plan[n + rot.len() - 1] == ProjStep::RotatePitch);
    }
}

} // verus!
