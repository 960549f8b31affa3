use qurop::errors::Error;
use qurop::geometry::{compute_layout, parse_dimension, try_layout, Dimension, WindowGeometry};

#[test]
fn percentage_width_scales_and_rounds() {
    let geometry = WindowGeometry { width: "66%".to_owned(), height: "50%".to_owned() };
    let (width, height) = geometry.get_dimensions(1920, 1080);
    assert_eq!(width, 1267);
    assert_eq!(height, 540);
}

#[test]
fn absolute_dimensions_pass_through() {
    let geometry = WindowGeometry { width: "800".to_owned(), height: "600".to_owned() };
    let (width, height) = geometry.get_dimensions(1920, 1080);
    assert_eq!(width, 800);
    assert_eq!(height, 600);
}

#[test]
fn mixed_dimensions() {
    let geometry = WindowGeometry { width: "100%".to_owned(), height: "480".to_owned() };
    let (width, height) = geometry.get_dimensions(1280, 1024);
    assert_eq!(width, 1280);
    assert_eq!(height, 480);
}

#[test]
fn rounding_is_to_nearest() {
    // 1921 * 50 / 100 = 960.5, which rounds up.
    let geometry = WindowGeometry { width: "50%".to_owned(), height: "25%".to_owned() };
    let (width, height) = geometry.get_dimensions(1921, 999);
    assert_eq!(width, 961);
    // 999 * 25 / 100 = 249.75, which rounds up.
    assert_eq!(height, 250);
}

#[test]
fn parse_dimension_grammar() {
    assert_eq!(parse_dimension("66%"), Some(Dimension::Percent(66)));
    assert_eq!(parse_dimension("800"), Some(Dimension::Absolute(800)));
    assert_eq!(parse_dimension("0"), Some(Dimension::Absolute(0)));
    assert_eq!(parse_dimension("4294967295"), Some(Dimension::Absolute(u32::MAX)));
    assert_eq!(parse_dimension(""), None);
    assert_eq!(parse_dimension("%"), None);
    assert_eq!(parse_dimension("12a"), None);
    assert_eq!(parse_dimension("-5"), None);
    assert_eq!(parse_dimension("4294967296"), None);
    assert_eq!(parse_dimension("66%%"), None);
}

#[test]
fn layout_centers_horizontally_and_anchors_top() {
    let geometry = WindowGeometry { width: "66%".to_owned(), height: "50%".to_owned() };
    let layout = compute_layout(&geometry, 1920, 1080);
    assert_eq!(layout.width, 1267);
    assert_eq!(layout.height, 540);
    assert_eq!(layout.x, (1920 - 1267) / 2);
    assert_eq!(layout.y, 0);
    assert_eq!(layout.border_width, 0);
}

#[test]
fn layout_pins_oversized_window_to_left_edge() {
    let geometry = WindowGeometry { width: "150%".to_owned(), height: "50%".to_owned() };
    let layout = compute_layout(&geometry, 1000, 1000);
    assert_eq!(layout.width, 1500);
    assert_eq!(layout.x, 0);
}

#[test]
fn invalid_geometry_is_rejected() {
    let geometry = WindowGeometry { width: "wide".to_owned(), height: "50%".to_owned() };
    assert_eq!(try_layout(&geometry, 1920, 1080), Err(Error::InvalidGeometry));
    let geometry = WindowGeometry { width: "66%".to_owned(), height: "".to_owned() };
    assert_eq!(try_layout(&geometry, 1920, 1080), Err(Error::InvalidGeometry));
}

#[test]
fn try_layout_agrees_with_compute_layout() {
    let geometry = WindowGeometry { width: "66%".to_owned(), height: "50%".to_owned() };
    assert_eq!(try_layout(&geometry, 1920, 1080), Ok(compute_layout(&geometry, 1920, 1080)));
}
