use raytracer::trace::{exhausted, step, Event, Step};

#[test]
fn zero_depth_is_black_whatever_the_event() {
    assert_eq!(step(0, Event::Missed), Step::Black);
    assert_eq!(step(0, Event::Absorbed), Step::Black);
    assert_eq!(step(0, Event::Scattered), Step::Black);
}

#[test]
fn zero_depth_is_exhausted() {
    assert!(exhausted(0));
    assert!(!exhausted(1));
    assert!(!exhausted(100));
}

#[test]
fn miss_shows_sky() {
    assert_eq!(step(3, Event::Missed), Step::Sky);
}

#[test]
fn absorption_is_black() {
    assert_eq!(step(3, Event::Absorbed), Step::Black);
}

#[test]
fn scatter_spends_one_bounce() {
    assert_eq!(step(3, Event::Scattered), Step::Bounce(2));
    assert_eq!(step(1, Event::Scattered), Step::Bounce(0));
}

#[test]
fn scattering_path_ends_within_budget() {
    let mut depth = 100usize;
    let mut bounces = 0usize;
    while let Step::Bounce(next) = step(depth, Event::Scattered) {
        depth = next;
        bounces += 1;
    }
    assert_eq!(bounces, 100);
    assert_eq!(depth, 0);
}
