use revere::config::{
    hex_to_rgb, Config, Placement, Rgb, WindowPlacement, ANCHOR_BOTTOM, ANCHOR_LEFT, ANCHOR_RIGHT,
    ANCHOR_TOP,
};
use revere::error::{Capability, RevereError};
use smithay_client_toolkit::reexports::protocols::wlr::unstable::layer_shell::v1::client::zwlr_layer_surface_v1::Anchor;

fn unit(c: u8) -> f64 {
    c as f64 / 255.0
}

#[test]
fn hex_white_is_all_ones() {
    let c = hex_to_rgb("#FFFFFF").unwrap();
    assert_eq!(c, Rgb { red: 255, green: 255, blue: 255 });
    assert_eq!((unit(c.red), unit(c.green), unit(c.blue)), (1.0, 1.0, 1.0));
}

#[test]
fn hex_black_is_all_zeros() {
    let c = hex_to_rgb("#000000").unwrap();
    assert_eq!(c, Rgb { red: 0, green: 0, blue: 0 });
    assert_eq!((unit(c.red), unit(c.green), unit(c.blue)), (0.0, 0.0, 0.0));
}

#[test]
fn hex_orange_within_tolerance() {
    let c = hex_to_rgb("#FF8000").unwrap();
    assert_eq!(c, Rgb { red: 255, green: 128, blue: 0 });
    assert!((unit(c.red) - 1.0).abs() < 1e-3);
    assert!((unit(c.green) - 0.502).abs() < 1e-3);
    assert!((unit(c.blue) - 0.0).abs() < 1e-3);
}

#[test]
fn hex_lower_case_digits() {
    assert_eq!(hex_to_rgb("#0a1b2c"), Ok(Rgb { red: 0x0a, green: 0x1b, blue: 0x2c }));
}

#[test]
fn hex_rejects_malformed() {
    assert_eq!(hex_to_rgb(""), Err(RevereError::InvalidColor));
    assert_eq!(hex_to_rgb("FFFFFF"), Err(RevereError::InvalidColor));
    assert_eq!(hex_to_rgb("#FFFFF"), Err(RevereError::InvalidColor));
    assert_eq!(hex_to_rgb("#FFFFFFF"), Err(RevereError::InvalidColor));
    assert_eq!(hex_to_rgb("#GG0000"), Err(RevereError::InvalidColor));
    assert_eq!(hex_to_rgb("#12345é"), Err(RevereError::InvalidColor));
}

#[test]
fn anchor_constants_match_protocol() {
    assert_eq!(Anchor::Top.bits(), ANCHOR_TOP);
    assert_eq!(Anchor::Bottom.bits(), ANCHOR_BOTTOM);
    assert_eq!(Anchor::Left.bits(), ANCHOR_LEFT);
    assert_eq!(Anchor::Right.bits(), ANCHOR_RIGHT);
}

#[test]
fn single_placement_anchor() {
    assert_eq!(Placement::Left.as_anchor(), Anchor::Left);
    assert_eq!(Placement::Right.as_anchor(), Anchor::Right);
    assert_eq!(Placement::Top.as_anchor(), Anchor::Top);
    assert_eq!(Placement::Bottom.as_anchor(), Anchor::Bottom);
}

#[test]
fn right_top_combines_to_union() {
    let p = WindowPlacement { x: Placement::Right, y: Placement::Top };
    let q = WindowPlacement { x: Placement::Top, y: Placement::Right };
    assert_eq!(p.anchor_mask(), ANCHOR_RIGHT | ANCHOR_TOP);
    assert_eq!(q.anchor_mask(), ANCHOR_RIGHT | ANCHOR_TOP);
    assert_eq!(p.as_anchor(), Anchor::Right | Anchor::Top);
    assert_eq!(q.as_anchor(), Anchor::Right | Anchor::Top);
}

#[test]
fn bottom_left_combines_to_union() {
    let p = WindowPlacement { x: Placement::Left, y: Placement::Bottom };
    assert_eq!(p.anchor_mask(), 6);
    assert_eq!(p.as_anchor(), Anchor::Left | Anchor::Bottom);
}

#[test]
fn default_config_values() {
    let c = Config::default();
    assert_eq!(c.window.size.width, 200);
    assert_eq!(c.window.size.height, 100);
    assert_eq!(c.window.margin.top, 10);
    assert_eq!(c.window.margin.right, 10);
    assert_eq!(c.window.color.bg, Rgb { red: 255, green: 255, blue: 255 });
    assert_eq!(c.window.color.fg, Rgb { red: 0, green: 0, blue: 0 });
    assert_eq!(c.window.font_size, 15);
    assert_eq!(c.window.duration, 3);
    assert_eq!(c.window.placement.anchor_mask(), ANCHOR_RIGHT | ANCHOR_TOP);
}

#[test]
fn error_messages() {
    assert_eq!(RevereError::DisplayFlushError.message(), "Error: flushing display");
    assert_eq!(RevereError::DBusCnxError.message(), "Error: connecting to D-Bus");
    assert_eq!(
        RevereError::WaylandGlobalError(Capability::LayerShell).message(),
        "Error: issue with a wayland client global binding (zwlr_layer_shell_v1)"
    );
}
