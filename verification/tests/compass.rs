use dmz::compass::{Compass, Direction};

#[test]
fn directions_of_headings() {
    assert_eq!(Direction::from_heading(0), Direction::N);
    assert_eq!(Direction::from_heading(22), Direction::N);
    assert_eq!(Direction::from_heading(23), Direction::NE);
    assert_eq!(Direction::from_heading(90), Direction::E);
    assert_eq!(Direction::from_heading(135), Direction::SE);
    assert_eq!(Direction::from_heading(180), Direction::S);
    assert_eq!(Direction::from_heading(225), Direction::SW);
    assert_eq!(Direction::from_heading(270), Direction::W);
    assert_eq!(Direction::from_heading(315), Direction::NW);
    assert_eq!(Direction::from_heading(338), Direction::N);
    assert_eq!(Direction::from_heading(450), Direction::E);
    assert_eq!(Direction::from_heading(-90), Direction::N);
}

#[test]
fn compass_follows_view_angle() {
    let mut c = Compass::new();
    c.update(-90);
    assert_eq!(c.heading, 270);
    assert_eq!(c.direction, Direction::W);
    assert_eq!(c.label(), "W 270");
    c.update(45);
    assert_eq!(c.heading, 45);
    assert_eq!(c.direction.name(), "NE");
    assert_eq!(c.label(), "NE 45");
}
