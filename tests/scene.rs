use raytracer::scene::{closest_hit, HittableList};
use raytracer::sphere::select_root;

fn key(t: f64) -> u64 {
    t.to_bits()
}

#[test]
fn add_appends_in_order() {
    let mut s: HittableList<u8> = HittableList::new();
    assert!(s.list.is_empty());
    s.add(3);
    s.add(1);
    assert_eq!(s.list, vec![3, 1]);
}

#[test]
fn closest_hit_of_two_overlapping_spheres() {
    // the far sphere is listed first; the near one must win
    let hits = vec![Some(key(2.5)), Some(key(1.5))];
    assert_eq!(closest_hit(&hits), Some(1));
    let hits = vec![Some(key(1.5)), Some(key(2.5))];
    assert_eq!(closest_hit(&hits), Some(0));
}

#[test]
fn closest_hit_skips_misses() {
    let hits = vec![None, Some(key(4.0)), None, Some(key(3.0)), None];
    assert_eq!(closest_hit(&hits), Some(3));
}

#[test]
fn closest_hit_none_when_all_miss() {
    assert_eq!(closest_hit(&vec![None, None]), None);
    assert_eq!(closest_hit(&Vec::new()), None);
}

#[test]
fn closest_hit_ties_go_to_first() {
    let hits = vec![None, Some(key(1.0)), Some(key(1.0))];
    assert_eq!(closest_hit(&hits), Some(1));
}

#[test]
fn select_root_prefers_near_root() {
    assert_eq!(select_root(1, 5, 9, 100), Some(5));
}

#[test]
fn select_root_falls_back_to_far_root() {
    // the near root lies behind the window's start: the ray starts inside
    assert_eq!(select_root(10, 5, 20, 100), Some(20));
}

#[test]
fn select_root_none_outside_window() {
    assert_eq!(select_root(10, 2, 5, 100), None);
    assert_eq!(select_root(10, 200, 300, 100), None);
    // the window is open at both ends
    assert_eq!(select_root(10, 10, 100, 100), None);
}
