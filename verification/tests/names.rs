use catacomb::geometry::{Point, Size};
use catacomb::gesture::GestureSector;
use catacomb::orientation::{Orientation, Transform};

#[test]
fn orientation_names_ignore_case() {
    assert_eq!(Orientation::from_str("portrait").unwrap(), Orientation::Portrait);
    assert_eq!(Orientation::from_str("PORTRAIT").unwrap(), Orientation::Portrait);
    assert_eq!(Orientation::from_str("Inverse-Portrait").unwrap(), Orientation::InversePortrait);
    assert_eq!(Orientation::from_str("landscape").unwrap(), Orientation::Landscape);
    assert_eq!(Orientation::from_str("inverse-LANDSCAPE").unwrap(), Orientation::InverseLandscape);
    assert_eq!("Landscape".parse::<Orientation>().unwrap(), Orientation::Landscape);
}

#[test]
fn orientation_names_are_taken_whole() {
    assert_eq!(Orientation::from_str("sideways").unwrap_err().got, "sideways");
    assert!(Orientation::from_str("").is_err());
    assert!(Orientation::from_str(" portrait").is_err());
    assert!(Orientation::from_str("inverse_portrait").is_err());
    assert_eq!(Orientation::from_name("PORTRAIT"), None);
    assert_eq!(Orientation::from_name("landscape"), Some(Orientation::Landscape));
}

#[test]
fn orientation_defaults_to_portrait() {
    assert_eq!(Orientation::default(), Orientation::Portrait);
    assert!(!Orientation::Portrait.is_landscape());
    assert!(Orientation::InverseLandscape.is_landscape());
}

#[test]
fn transforms_follow_the_orientation() {
    assert_eq!(Orientation::Portrait.output_transform(), Transform::Normal);
    assert_eq!(Orientation::InversePortrait.output_transform(), Transform::Rotate180);
    assert_eq!(Orientation::Landscape.output_transform(), Transform::Rotate90);
    assert_eq!(Orientation::InverseLandscape.output_transform(), Transform::Rotate270);
    assert_eq!(Orientation::Portrait.surface_transform(), Transform::Normal);
    assert_eq!(Orientation::InversePortrait.surface_transform(), Transform::Rotate180);
    assert_eq!(Orientation::Landscape.surface_transform(), Transform::Rotate270);
    assert_eq!(Orientation::InverseLandscape.surface_transform(), Transform::Rotate90);
}

#[test]
fn sector_names_come_in_full_and_in_short() {
    let names = [
        ("topleft", "tl", GestureSector::TopLeft),
        ("topcenter", "tc", GestureSector::TopCenter),
        ("topright", "tr", GestureSector::TopRight),
        ("middleleft", "ml", GestureSector::MiddleLeft),
        ("middlecenter", "mc", GestureSector::MiddleCenter),
        ("middleright", "mr", GestureSector::MiddleRight),
        ("bottomleft", "bl", GestureSector::BottomLeft),
        ("bottomcenter", "bc", GestureSector::BottomCenter),
        ("bottomright", "br", GestureSector::BottomRight),
    ];
    for (full, short, sector) in names {
        assert_eq!(GestureSector::from_str(full).unwrap(), sector);
        assert_eq!(GestureSector::from_str(short).unwrap(), sector);
        assert_eq!(GestureSector::from_str(&full.to_uppercase()).unwrap(), sector);
        assert_eq!(short.to_uppercase().parse::<GestureSector>().unwrap(), sector);
    }
    assert_eq!(GestureSector::from_str("top-left").unwrap_err().got, "top-left");
    assert_eq!(GestureSector::from_name("TL"), None);
}

#[test]
fn sectors_divide_the_output_in_thirds() {
    let size = Size::new(300, 600);
    assert_eq!(GestureSector::from_point(size, Point::new(0, 0)), GestureSector::TopLeft);
    assert_eq!(GestureSector::from_point(size, Point::new(99, 199)), GestureSector::TopLeft);
    assert_eq!(GestureSector::from_point(size, Point::new(100, 199)), GestureSector::TopCenter);
    assert_eq!(GestureSector::from_point(size, Point::new(200, 0)), GestureSector::TopRight);
    assert_eq!(GestureSector::from_point(size, Point::new(0, 200)), GestureSector::MiddleLeft);
    assert_eq!(GestureSector::from_point(size, Point::new(150, 300)), GestureSector::MiddleCenter);
    assert_eq!(GestureSector::from_point(size, Point::new(299, 399)), GestureSector::MiddleRight);
    assert_eq!(GestureSector::from_point(size, Point::new(50, 400)), GestureSector::BottomLeft);
    assert_eq!(GestureSector::from_point(size, Point::new(150, 599)), GestureSector::BottomCenter);
    assert_eq!(GestureSector::from_point(size, Point::new(299, 599)), GestureSector::BottomRight);
}

#[test]
fn points_off_the_output_count_for_the_nearest_sector() {
    let size = Size::new(300, 600);
    assert_eq!(GestureSector::from_point(size, Point::new(-5, -5)), GestureSector::TopLeft);
    assert_eq!(GestureSector::from_point(size, Point::new(5000, 5000)), GestureSector::BottomRight);
    assert_eq!(GestureSector::from_point(size, Point::new(-1, 5000)), GestureSector::BottomLeft);
    let flat = Size::new(0, 0);
    assert_eq!(GestureSector::from_point(flat, Point::new(1, 0)), GestureSector::TopRight);
}
