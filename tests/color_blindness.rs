use bevy_color_blindness::{
    update_percentages, ColorBlindnessCamera, ColorBlindnessMode, ColorBlindnessPercentages,
    ColorBlindnessPostProcess, MixRow, MIX_SCALE, MODE_COUNT,
};

const ALL_MODES: [ColorBlindnessMode; 9] = [
    ColorBlindnessMode::Normal,
    ColorBlindnessMode::Protanopia,
    ColorBlindnessMode::Protanomaly,
    ColorBlindnessMode::Deuteranopia,
    ColorBlindnessMode::Deuteranomaly,
    ColorBlindnessMode::Tritanopia,
    ColorBlindnessMode::Tritanomaly,
    ColorBlindnessMode::Achromatopsia,
    ColorBlindnessMode::Achromatomaly,
];

fn rows(
    red: (u32, u32, u32),
    green: (u32, u32, u32),
    blue: (u32, u32, u32),
) -> ColorBlindnessPercentages {
    ColorBlindnessPercentages {
        red: MixRow::new(red.0, red.1, red.2),
        green: MixRow::new(green.0, green.1, green.2),
        blue: MixRow::new(blue.0, blue.1, blue.2),
    }
}

fn sum(r: &MixRow) -> u32 {
    r.red + r.green + r.blue
}

fn as_fractions(r: &MixRow) -> [f64; 3] {
    let scale = MIX_SCALE as f64;
    [r.red as f64 / scale, r.green as f64 / scale, r.blue as f64 / scale]
}

#[test]
fn normal_percentages() {
    assert_eq!(
        ColorBlindnessMode::Normal.percentages(),
        rows((100_000, 0, 0), (0, 100_000, 0), (0, 0, 100_000))
    );
}

#[test]
fn protanopia_percentages() {
    assert_eq!(
        ColorBlindnessMode::Protanopia.percentages(),
        rows((56_667, 43_333, 0), (55_833, 44_167, 0), (0, 24_167, 75_833))
    );
}

#[test]
fn protanomaly_percentages() {
    assert_eq!(
        ColorBlindnessMode::Protanomaly.percentages(),
        rows((81_667, 18_333, 0), (33_333, 66_667, 0), (0, 12_500, 87_500))
    );
}

#[test]
fn deuteranopia_percentages() {
    assert_eq!(
        ColorBlindnessMode::Deuteranopia.percentages(),
        rows((62_500, 37_500, 0), (70_000, 30_000, 0), (0, 30_000, 70_000))
    );
}

#[test]
fn deuteranomaly_percentages() {
    assert_eq!(
        ColorBlindnessMode::Deuteranomaly.percentages(),
        rows((80_000, 20_000, 0), (25_833, 74_167, 0), (0, 14_167, 85_833))
    );
}

#[test]
fn tritanopia_percentages() {
    assert_eq!(
        ColorBlindnessMode::Tritanopia.percentages(),
        rows((95_000, 50_000, 0), (0, 43_333, 56_667), (0, 47_500, 52_500))
    );
}

#[test]
fn tritanomaly_percentages() {
    assert_eq!(
        ColorBlindnessMode::Tritanomaly.percentages(),
        rows((96_667, 33_330, 0), (0, 73_333, 26_667), (0, 18_333, 81_667))
    );
}

#[test]
fn achromatopsia_percentages() {
    assert_eq!(
        ColorBlindnessMode::Achromatopsia.percentages(),
        rows((29_900, 58_700, 11_400), (29_900, 58_700, 11_400), (29_900, 58_700, 11_400))
    );
}

#[test]
fn achromatomaly_percentages() {
    assert_eq!(
        ColorBlindnessMode::Achromatomaly.percentages(),
        rows((61_800, 32_000, 62_000), (16_300, 77_500, 62_000), (16_300, 32_000, 51_600))
    );
}

#[test]
fn coefficients_read_as_decimal_fractions() {
    let p = ColorBlindnessMode::Protanopia.percentages();
    assert_eq!(as_fractions(&p.red), [0.56667, 0.43333, 0.0]);
    let p = ColorBlindnessMode::Achromatopsia.percentages();
    assert_eq!(as_fractions(&p.blue), [0.299, 0.587, 0.114]);
}

#[test]
fn cycle_order() {
    let mut mode = ColorBlindnessMode::Normal;
    for expected in ALL_MODES.iter().skip(1) {
        mode.cycle();
        assert_eq!(mode, *expected);
    }
    mode.cycle();
    assert_eq!(mode, ColorBlindnessMode::Normal);
}

#[test]
fn cycle_returns_after_nine_steps() {
    assert_eq!(MODE_COUNT, 9);
    for start in ALL_MODES {
        let mut mode = start;
        for step in 1..MODE_COUNT {
            mode.cycle();
            assert_ne!(mode, start, "back at {:?} after {} steps", start, step);
        }
        mode.cycle();
        assert_eq!(mode, start);
    }
}

#[test]
fn achromatomaly_cycles_to_normal() {
    let mut mode = ColorBlindnessMode::Achromatomaly;
    mode.cycle();
    assert_eq!(mode, ColorBlindnessMode::Normal);
}

#[test]
fn defaults() {
    assert_eq!(ColorBlindnessMode::default(), ColorBlindnessMode::Normal);
    let camera = ColorBlindnessCamera::default();
    assert_eq!(camera.mode, ColorBlindnessMode::Normal);
    assert!(!camera.enabled);
    assert_eq!(
        ColorBlindnessPostProcess::default().percentages(),
        ColorBlindnessMode::Normal.percentages()
    );
}

#[test]
fn disabled_camera_uses_normal() {
    for mode in ALL_MODES {
        let camera = ColorBlindnessCamera { mode, enabled: false };
        assert_eq!(camera.effective_mode(), ColorBlindnessMode::Normal);
    }
}

#[test]
fn enabled_camera_uses_its_mode() {
    for mode in ALL_MODES {
        let camera = ColorBlindnessCamera { mode, enabled: true };
        assert_eq!(camera.effective_mode(), mode);
    }
}

#[test]
fn enabled_deuteranomaly_publishes_its_matrix() {
    let camera = ColorBlindnessCamera { mode: ColorBlindnessMode::Deuteranomaly, enabled: true };
    let mut settings = ColorBlindnessPostProcess::default();
    update_percentages(&mut settings, &camera);
    assert_eq!(
        settings.percentages(),
        rows((80_000, 20_000, 0), (25_833, 74_167, 0), (0, 14_167, 85_833))
    );
}

#[test]
fn disabled_tritanopia_publishes_identity() {
    let camera = ColorBlindnessCamera { mode: ColorBlindnessMode::Tritanopia, enabled: false };
    let mut settings = ColorBlindnessPostProcess::new(&ColorBlindnessCamera {
        mode: ColorBlindnessMode::Achromatopsia,
        enabled: true,
    });
    update_percentages(&mut settings, &camera);
    assert_eq!(
        settings.percentages(),
        rows((100_000, 0, 0), (0, 100_000, 0), (0, 0, 100_000))
    );
}

#[test]
fn second_update_changes_nothing() {
    for mode in ALL_MODES {
        for enabled in [false, true] {
            let camera = ColorBlindnessCamera { mode, enabled };
            let mut settings = ColorBlindnessPostProcess::default();
            update_percentages(&mut settings, &camera);
            let once = settings;
            update_percentages(&mut settings, &camera);
            assert_eq!(settings, once);
        }
    }
}

#[test]
fn update_follows_camera_changes() {
    let mut camera = ColorBlindnessCamera::default();
    let mut settings = ColorBlindnessPostProcess::new(&camera);
    camera.enabled = true;
    camera.mode.cycle();
    update_percentages(&mut settings, &camera);
    assert_eq!(settings.percentages(), ColorBlindnessMode::Protanopia.percentages());
    camera.enabled = false;
    update_percentages(&mut settings, &camera);
    assert_eq!(settings.percentages(), ColorBlindnessMode::Normal.percentages());
}

#[test]
fn weights_within_unit() {
    for mode in ALL_MODES {
        let p = mode.percentages();
        for row in [p.red, p.green, p.blue] {
            assert!(row.red <= MIX_SCALE && row.green <= MIX_SCALE && row.blue <= MIX_SCALE);
        }
    }
}

#[test]
fn row_sums_and_known_deviations() {
    for mode in ALL_MODES {
        let p = mode.percentages();
        match mode {
            ColorBlindnessMode::Tritanopia | ColorBlindnessMode::Tritanomaly => {
                assert!(sum(&p.red) > MIX_SCALE);
                assert_eq!(sum(&p.green), MIX_SCALE);
                assert_eq!(sum(&p.blue), MIX_SCALE);
            }
            ColorBlindnessMode::Achromatomaly => {
                assert!(sum(&p.red) > MIX_SCALE);
                assert!(sum(&p.green) > MIX_SCALE);
                assert!(sum(&p.blue) < MIX_SCALE);
            }
            _ => {
                assert_eq!(sum(&p.red), MIX_SCALE);
                assert_eq!(sum(&p.green), MIX_SCALE);
                assert_eq!(sum(&p.blue), MIX_SCALE);
            }
        }
    }
    assert_eq!(sum(&ColorBlindnessMode::Tritanopia.percentages().red), 145_000);
    assert_eq!(sum(&ColorBlindnessMode::Tritanomaly.percentages().red), 129_997);
}
