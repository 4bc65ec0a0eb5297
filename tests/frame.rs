use vdrm_emu::frame::{frame_layers, layer_opacity_percent, legend_label, Layer};
use vdrm_emu::geometry::{mirror_corner_signs, screen_corners, SCREEN_COUNT};

#[test]
fn frame_without_selection_draws_aggregates() {
    assert_eq!(
        frame_layers(false),
        vec![
            Layer::Clear,
            Layer::Axes,
            Layer::AxisLabels,
            Layer::Screens,
            Layer::Real,
            Layer::Emulator,
            Layer::Led,
            Layer::LegendBox,
        ]
    );
}

#[test]
fn frame_with_selection_draws_the_mirror() {
    assert_eq!(
        frame_layers(true),
        vec![
            Layer::Clear,
            Layer::Axes,
            Layer::AxisLabels,
            Layer::Screens,
            Layer::Real,
            Layer::Mirror,
            Layer::Emulator,
            Layer::Led,
            Layer::LegendBox,
        ]
    );
}

#[test]
fn emulator_is_fainter_than_led() {
    assert_eq!(layer_opacity_percent(Layer::Emulator), 30);
    assert_eq!(layer_opacity_percent(Layer::Led), 80);
    assert_eq!(layer_opacity_percent(Layer::Real), 20);
    assert_eq!(layer_opacity_percent(Layer::Screens), 80);
    assert_eq!(layer_opacity_percent(Layer::Mirror), 20);
    assert_eq!(layer_opacity_percent(Layer::Axes), 100);
}

#[test]
fn legend_entries() {
    assert_eq!(legend_label(Layer::Screens), Some("SCREEN"));
    assert_eq!(legend_label(Layer::Real), Some("REAL"));
    assert_eq!(legend_label(Layer::Mirror), Some("MIRROR"));
    assert_eq!(legend_label(Layer::Emulator), Some("EMULATOR"));
    assert_eq!(legend_label(Layer::Led), None);
    assert_eq!(legend_label(Layer::LegendBox), None);
}

#[test]
fn mirror_and_screen_corners() {
    assert_eq!(mirror_corner_signs(), [(1, 1, -1), (-1, 1, 1), (-1, -1, 1), (1, -1, -1)]);
    assert_eq!(screen_corners(), [(0, -1), (0, 1), (1, 1), (1, -1)]);
    assert_eq!(SCREEN_COUNT, 3);
}
