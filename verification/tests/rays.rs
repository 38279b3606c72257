use raytracer::camera::next_pixel;
use raytracer::ray::{hit_index, sort_order};

#[test]
fn hit_smallest_non_negative_key() {
    // t-values 5, 7, -3, 2 as keys: the hit is the entry with t = 2
    let keys: Vec<i64> = vec![5, 7, -3, 2];
    assert_eq!(hit_index(&keys), Some(3));
}

#[test]
fn hit_all_positive_keys() {
    let keys: Vec<i64> = vec![1, 2];
    assert_eq!(hit_index(&keys), Some(0));
}

#[test]
fn hit_ignores_negative_keys() {
    let keys: Vec<i64> = vec![1, -1];
    assert_eq!(hit_index(&keys), Some(0));
}

#[test]
fn hit_none_when_all_keys_negative() {
    let keys: Vec<i64> = vec![-2, -1];
    assert_eq!(hit_index(&keys), None);
    assert_eq!(hit_index(&Vec::new()), None);
}

#[test]
fn sort_order_is_ascending() {
    let keys: Vec<i64> = vec![9, 2, 7, -5];
    assert_eq!(sort_order(&keys), vec![3, 1, 2, 0]);
}

#[test]
fn sort_order_is_stable_on_ties() {
    let keys: Vec<i64> = vec![9, 2, 7, 2];
    assert_eq!(sort_order(&keys), vec![1, 3, 2, 0]);
}

#[test]
fn sort_order_of_trivial_lists() {
    assert_eq!(sort_order(&Vec::new()), Vec::<usize>::new());
    assert_eq!(sort_order(&vec![42]), vec![0]);
}

#[test]
fn next_pixel_sweeps_row_major() {
    let mut seen: Vec<(i64, i64)> = vec![(0, 0)];
    let (mut x, mut y) = (0i64, 0i64);
    while let Some((nx, ny)) = next_pixel(x, y, 3, 2) {
        seen.push((nx, ny));
        x = nx;
        y = ny;
    }
    assert_eq!(seen, vec![(0, 0), (1, 0), (2, 0), (0, 1), (1, 1), (2, 1)]);
}

#[test]
fn next_pixel_ends_after_single_pixel() {
    assert_eq!(next_pixel(0, 0, 1, 1), None);
}
