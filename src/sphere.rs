use vstd::prelude::*;

verus! {

/// `t` lies strictly inside the parameter window `(t_min, t_max)`. Parameters
/// are compared through order keys that rank them as the parameters do.
pub open spec fn in_window(t_min: u64, t: u64, t_max: u64) -> bool {
    t_min < t && t < t_max
}

/// The root a sphere reports: the near root if it lies in the window, else
/// the far root if it does, else none.
pub open spec fn chosen_root(t_min: u64, near: u64, far: u64, t_max: u64) -> Option<u64> {
    if in_window(t_min, near, t_max) {
        Some(near)
    } else if in_window(t_min, far, t_max) {
        Some(far)
    } else {
        None
    }
}

/// Picks which of the two roots of a ray-sphere quadratic is the hit.
pub fn select_root(t_min: u64, near: u64, far: u64, t_max: u64) -> (r: Option<u64>)
    ensures
        r == chosen_root(t_min, near, far, t_max),
{
    if t_min < near && near < t_max {
        Some(near)
    } else if t_min < far && far < t_max {
        Some(far)
    } else {
        None
    }
}

/// With the roots in order, the chosen root is the smallest root inside the
/// window, and there is one exactly when some root lies inside it.
pub proof fn lemma_chosen_root_is_first_in_window(t_min: u64, near: u64, far: u64, t_max: u64)
    requires
        near <= far,
    ensures
        chosen_root(t_min, near, far, t_max) is Some <==> (in_window(t_min, near, t_max)
            || in_window(t_min, far, t_max)),
        chosen_root(t_min, near, far, t_max) matches Some(t) ==> {
            &&& in_window(t_min, t, t_max)
            &&& (t == near || t == far)
            &&& in_window(t_min, near, t_max) ==> t <= near
        },
{
}

} // verus!
