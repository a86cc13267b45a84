use cube_render::surface::{
    build_config, choose_alpha_mode, choose_format, choose_present_mode, AlphaMode, PresentMode,
    SurfaceConfig, SurfaceFormat,
};

fn sample_config() -> SurfaceConfig {
    SurfaceConfig {
        format: SurfaceFormat { code: 7, srgb: true },
        width: 640,
        height: 480,
        present_mode: PresentMode::Fifo,
        alpha_mode: AlphaMode::Opaque,
    }
}

#[test]
fn resize_updates_dimensions_exactly() {
    let mut c = sample_config();
    let reconfigure = c.resize(800, 600);
    assert!(reconfigure);
    assert_eq!(c.width, 800);
    assert_eq!(c.height, 600);
    assert_eq!(c.format, SurfaceFormat { code: 7, srgb: true });
    assert_eq!(c.present_mode, PresentMode::Fifo);
    assert_eq!(c.alpha_mode, AlphaMode::Opaque);
}

#[test]
fn no_stale_dimensions_survive_a_second_resize() {
    let mut c = sample_config();
    assert!(c.resize(800, 600));
    assert!(c.resize(1024, 768));
    assert_eq!((c.width, c.height), (1024, 768));
}

#[test]
fn resize_with_zero_width_is_a_no_op() {
    let mut c = sample_config();
    let reconfigure = c.resize(0, 600);
    assert!(!reconfigure);
    assert_eq!(c, sample_config());
}

#[test]
fn resize_with_zero_height_is_a_no_op() {
    let mut c = sample_config();
    let reconfigure = c.resize(800, 0);
    assert!(!reconfigure);
    assert_eq!(c, sample_config());
}

#[test]
fn format_choice_takes_first_srgb() {
    let formats = vec![
        SurfaceFormat { code: 1, srgb: false },
        SurfaceFormat { code: 2, srgb: true },
        SurfaceFormat { code: 3, srgb: true },
    ];
    assert_eq!(choose_format(&formats), Some(SurfaceFormat { code: 2, srgb: true }));
}

#[test]
fn format_choice_falls_back_to_first_reported() {
    let formats = vec![
        SurfaceFormat { code: 4, srgb: false },
        SurfaceFormat { code: 5, srgb: false },
    ];
    assert_eq!(choose_format(&formats), Some(SurfaceFormat { code: 4, srgb: false }));
}

#[test]
fn format_choice_on_empty_list_is_none() {
    assert_eq!(choose_format(&Vec::new()), None);
}

#[test]
fn present_mode_choice_prefers_mailbox() {
    let modes = vec![PresentMode::Fifo, PresentMode::Mailbox, PresentMode::Immediate];
    assert_eq!(choose_present_mode(&modes), Some(PresentMode::Mailbox));
}

#[test]
fn present_mode_choice_falls_back_to_first_reported() {
    let modes = vec![PresentMode::Fifo, PresentMode::Immediate];
    assert_eq!(choose_present_mode(&modes), Some(PresentMode::Fifo));
}

#[test]
fn present_mode_choice_on_empty_list_is_none() {
    assert_eq!(choose_present_mode(&Vec::new()), None);
}

#[test]
fn alpha_mode_choice_takes_first_reported() {
    let modes = vec![AlphaMode::Opaque, AlphaMode::PostMultiplied];
    assert_eq!(choose_alpha_mode(&modes), Some(AlphaMode::Opaque));
}

#[test]
fn built_config_combines_the_three_choices() {
    let formats = vec![
        SurfaceFormat { code: 1, srgb: false },
        SurfaceFormat { code: 2, srgb: true },
    ];
    let modes = vec![PresentMode::Fifo, PresentMode::Mailbox];
    let alphas = vec![AlphaMode::Opaque, AlphaMode::Inherit];
    let c = build_config(&formats, &modes, &alphas, 320, 240).unwrap();
    assert_eq!(
        c,
        SurfaceConfig {
            format: SurfaceFormat { code: 2, srgb: true },
            width: 320,
            height: 240,
            present_mode: PresentMode::Mailbox,
            alpha_mode: AlphaMode::Opaque,
        }
    );
}

#[test]
fn built_config_without_formats_is_none() {
    let modes = vec![PresentMode::Fifo];
    let alphas = vec![AlphaMode::Opaque];
    assert_eq!(build_config(&Vec::new(), &modes, &alphas, 320, 240), None);
}
