use base_retro::canvas::{CanvasConfig, CanvasScale, ClearColor, Ratio};
use base_retro::compositor::{CanvasHandle, Compositor, SurfaceSize};
use base_retro::transform::{CanvasPos, SurfacePos};

fn config(width: u32, height: u32, scale: CanvasScale) -> CanvasConfig {
    CanvasConfig { width, height, scale, lock_cursor: false, clear_color: ClearColor::Default }
}

fn pixel_perfect() -> CanvasScale {
    CanvasScale::AutoFit { pixel_perfect: true }
}

#[test]
fn pixel_perfect_exact_power_of_two_fit() {
    let c = config(480, 270, pixel_perfect());
    assert_eq!(c.resolve_scale(1920, 1080), Ratio { num: 1, den: 4 });
}

#[test]
fn pixel_perfect_narrow_surface_fits_by_width() {
    let c = config(480, 270, pixel_perfect());
    assert_eq!(c.resolve_scale(1000, 1080), Ratio { num: 1, den: 2 });
}

#[test]
fn pixel_perfect_ratio_below_two_uses_one() {
    let c = config(480, 270, pixel_perfect());
    assert_eq!(c.resolve_scale(700, 1080), Ratio { num: 1, den: 1 });
}

#[test]
fn continuous_fit_is_unquantized() {
    let c = config(480, 270, CanvasScale::AutoFit { pixel_perfect: false });
    let r = c.resolve_scale(700, 1080);
    assert_eq!(r, Ratio { num: 480, den: 700 });
    let zoom = r.num as f64 / r.den as f64;
    assert!((zoom - 0.686).abs() < 0.001);
}

#[test]
fn pixel_perfect_non_power_of_two_drops_an_octave() {
    let c = config(480, 270, pixel_perfect());
    // 810 / 270 = 3: the next power of two is 4, so half of it is used.
    assert_eq!(c.resolve_scale(1440, 810), Ratio { num: 1, den: 2 });
    // 1890 / 270 = 7 gives 4; 2160 / 270 = 8 gives 8.
    assert_eq!(c.resolve_scale(3360, 1890), Ratio { num: 1, den: 4 });
    assert_eq!(c.resolve_scale(3840, 2160), Ratio { num: 1, den: 8 });
}

#[test]
fn pixel_perfect_small_surface_clamps_to_one() {
    let c = config(480, 270, pixel_perfect());
    assert_eq!(c.resolve_scale(100, 100), Ratio { num: 1, den: 1 });
    assert_eq!(c.resolve_scale(0, 0), Ratio { num: 1, den: 1 });
}

#[test]
fn square_surface_fits_by_height() {
    let c = config(100, 50, CanvasScale::AutoFit { pixel_perfect: false });
    assert_eq!(c.resolve_scale(300, 300), Ratio { num: 50, den: 300 });
}

#[test]
fn manual_scale_is_returned_unchanged() {
    let f = Ratio { num: 3, den: 7 };
    let c = config(480, 270, CanvasScale::Manual(f));
    assert_eq!(c.resolve_scale(1920, 1080), f);
    assert_eq!(c.resolve_scale(1, 1), f);
}

#[test]
fn zoom_is_positive_on_many_surfaces() {
    let modes = [
        pixel_perfect(),
        CanvasScale::AutoFit { pixel_perfect: false },
        CanvasScale::Manual(Ratio { num: 2, den: 1 }),
    ];
    for mode in modes {
        let c = config(160, 144, mode);
        for (w, h) in [(0, 0), (1, 1), (159, 2000), (2000, 143), (4096, 4096), (u32::MAX, u32::MAX)] {
            assert!(c.resolve_scale(w, h).num > 0);
        }
    }
}

#[test]
fn default_scale_is_continuous_fit() {
    assert_eq!(CanvasScale::default(), CanvasScale::AutoFit { pixel_perfect: false });
}

#[test]
fn render_target_matches_resolution() {
    let c = config(480, 270, pixel_perfect());
    assert_eq!(CanvasHandle::from_config(&c), CanvasHandle { width: 480, height: 270 });
}

#[test]
fn setup_sizes_target_and_display_camera() {
    let mut c = config(480, 270, pixel_perfect());
    c.clear_color = ClearColor::Custom { r: 0, g: 0, b: 0, a: 255 };
    let comp = Compositor::setup_canvas(&c, 1920, 1080);
    assert_eq!(comp.target, CanvasHandle { width: 480, height: 270 });
    assert_eq!(comp.window_camera.scale, Ratio { num: 1, den: 4 });
    assert_eq!(comp.canvas_camera.clear_color, ClearColor::Custom { r: 0, g: 0, b: 0, a: 255 });
}

#[test]
fn resolution_change_reaches_target_next_frame() {
    let c = config(480, 270, pixel_perfect());
    let mut comp = Compositor::setup_canvas(&c, 1920, 1080);
    let c2 = config(320, 180, pixel_perfect());
    // Within the frame, nothing moves until the frame runs.
    comp.fit_to_window(&c2, &Vec::new());
    assert_eq!(comp.target, CanvasHandle { width: 480, height: 270 });
    comp.run_frame(&c2, true, &Vec::new());
    assert_eq!(comp.target, CanvasHandle { width: 320, height: 180 });
    // 1080 / 180 = 6, snapped to 4.
    assert_eq!(comp.window_camera.scale, Ratio { num: 1, den: 4 });
}

#[test]
fn unchanged_config_leaves_target_alone() {
    let c = config(480, 270, pixel_perfect());
    let mut comp = Compositor::setup_canvas(&c, 1920, 1080);
    let before = comp;
    comp.apply_config(&config(64, 64, pixel_perfect()), false);
    assert_eq!(comp, before);
}

#[test]
fn resize_refits_display_camera() {
    let c = config(480, 270, pixel_perfect());
    let mut comp = Compositor::setup_canvas(&c, 1920, 1080);
    let resizes = vec![
        SurfaceSize { width: 700, height: 1080 },
        SurfaceSize { width: 1000, height: 1080 },
    ];
    comp.run_frame(&c, false, &resizes);
    assert_eq!(comp.window_camera.scale, Ratio { num: 1, den: 2 });
    assert_eq!((comp.surface_w, comp.surface_h), (1000, 1080));
    assert_eq!(comp.target, CanvasHandle { width: 480, height: 270 });
}

#[test]
fn resize_and_config_change_in_one_frame() {
    let c = config(480, 270, pixel_perfect());
    let mut comp = Compositor::setup_canvas(&c, 1920, 1080);
    let c2 = config(240, 135, pixel_perfect());
    comp.run_frame(&c2, true, &vec![SurfaceSize { width: 1000, height: 1080 }]);
    assert_eq!(comp.target, CanvasHandle { width: 240, height: 135 });
    // 1000 / 240 = 4.
    assert_eq!(comp.window_camera.scale, Ratio { num: 1, den: 4 });
}

#[test]
fn surface_centre_maps_to_canvas_centre() {
    let comp = Compositor::setup_canvas(&config(480, 270, pixel_perfect()), 1920, 1080);
    assert_eq!(comp.viewport_to_canvas(960, 540), Some(CanvasPos { x: 1920, y: 1080, den: 8 }));
    assert_eq!(comp.viewport_to_canvas(0, 0), Some(CanvasPos { x: 0, y: 0, den: 8 }));
}

#[test]
fn points_outside_surface_or_canvas_are_dropped() {
    let comp = Compositor::setup_canvas(&config(480, 270, pixel_perfect()), 2000, 1080);
    // Outside the surface.
    assert_eq!(comp.viewport_to_canvas(-1, 10), None);
    assert_eq!(comp.viewport_to_canvas(2001, 10), None);
    assert_eq!(comp.viewport_to_canvas(10, 1081), None);
    // In the letterbox band left of the canvas (it starts at x = 40).
    assert_eq!(comp.viewport_to_canvas(20, 540), None);
    assert_eq!(comp.viewport_to_canvas(40, 540), Some(CanvasPos { x: 0, y: 1080, den: 8 }));
}

#[test]
fn round_trip_returns_the_surface_point() {
    let comp = Compositor::setup_canvas(
        &config(480, 270, CanvasScale::AutoFit { pixel_perfect: false }),
        1337,
        911,
    );
    for (x, y) in [(700, 400), (100, 20), (1300, 900), (668, 455)] {
        let pos = comp.viewport_to_canvas(x, y).expect("inside the canvas");
        let back: SurfacePos = comp.canvas_to_viewport(&pos);
        assert_eq!(back.x, x as i128 * back.den as i128);
        assert_eq!(back.y, y as i128 * back.den as i128);
    }
}

#[test]
fn canvas_edge_projects_to_letterbox_edge() {
    let comp = Compositor::setup_canvas(&config(480, 270, pixel_perfect()), 2000, 1080);
    let back = comp.canvas_to_viewport(&CanvasPos { x: 0, y: 0, den: 8 });
    assert_eq!(back, SurfacePos { x: 640, y: 0, den: 16 });
}

#[test]
fn cursor_lock_clamps_into_visible_canvas() {
    let mut c = config(480, 270, pixel_perfect());
    c.lock_cursor = true;
    let comp = Compositor::setup_canvas(&c, 2000, 1080);
    // The canvas spans x in [40, 1960].
    assert_eq!(comp.lock_cursor(&c, 10, 500), Some(SurfacePos { x: 80, y: 1000, den: 2 }));
    assert_eq!(comp.lock_cursor(&c, 1990, 500), Some(SurfacePos { x: 3920, y: 1000, den: 2 }));
    assert_eq!(comp.lock_cursor(&c, 100, 500), None);
    c.lock_cursor = false;
    assert_eq!(comp.lock_cursor(&c, 10, 500), None);
}

#[test]
fn degenerate_scale_maps_nothing() {
    let c = config(480, 270, CanvasScale::AutoFit { pixel_perfect: false });
    let comp = Compositor::setup_canvas(&c, 0, 0);
    assert_eq!(comp.window_camera.scale, Ratio { num: 270, den: 0 });
    assert_eq!(comp.viewport_to_canvas(0, 0), None);
}
