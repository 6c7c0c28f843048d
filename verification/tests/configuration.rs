use render_context::surface::{select_format, Dimension, SurfaceConfiguration, RENDER_ATTACHMENT};
use wgpu::{CompositeAlphaMode, PresentMode, TextureFormat, TextureUsages};

#[test]
fn window_of_800_by_600_gives_a_surface_of_800_by_600() {
    let formats = vec![TextureFormat::Bgra8UnormSrgb, TextureFormat::Rgba8Unorm];
    let format = select_format(&formats).unwrap();
    let size = Dimension { horizontal: 800, vertical: 600 };
    let configuration =
        SurfaceConfiguration::new(format, size, PresentMode::Fifo, CompositeAlphaMode::Opaque);
    assert_eq!(
        configuration,
        SurfaceConfiguration {
            usage: 16,
            format: TextureFormat::Bgra8UnormSrgb,
            width: 800,
            height: 600,
            present_mode: PresentMode::Fifo,
            alpha_mode: CompositeAlphaMode::Opaque,
        }
    );
    assert!(configuration.is_well_formed());
}

#[test]
fn surface_is_as_large_as_the_window() {
    let sizes = [(1, 1), (640, 480), (1920, 1080), (3840, 2160), (u32::MAX, 1), (7, u32::MAX)];
    for (horizontal, vertical) in sizes {
        let configuration = SurfaceConfiguration::new(
            TextureFormat::Rgba8Unorm,
            Dimension { horizontal, vertical },
            PresentMode::Mailbox,
            CompositeAlphaMode::Auto,
        );
        assert_eq!(configuration.width, horizontal);
        assert_eq!(configuration.height, vertical);
        assert_eq!(configuration.dimension(), Dimension { horizontal, vertical });
    }
}

#[test]
fn width_and_height_are_not_exchanged() {
    let configuration = SurfaceConfiguration::new(
        TextureFormat::Rgba8Unorm,
        Dimension { horizontal: 1024, vertical: 768 },
        PresentMode::Fifo,
        CompositeAlphaMode::Opaque,
    );
    assert_eq!(configuration.width, 1024);
    assert_eq!(configuration.height, 768);
}

#[test]
fn requested_modes_are_kept() {
    let present_modes = [
        PresentMode::AutoVsync,
        PresentMode::AutoNoVsync,
        PresentMode::Fifo,
        PresentMode::FifoRelaxed,
        PresentMode::Immediate,
        PresentMode::Mailbox,
    ];
    let alpha_modes = [
        CompositeAlphaMode::Auto,
        CompositeAlphaMode::Opaque,
        CompositeAlphaMode::PreMultiplied,
        CompositeAlphaMode::PostMultiplied,
        CompositeAlphaMode::Inherit,
    ];
    for present_mode in present_modes {
        for alpha_mode in alpha_modes {
            let configuration = SurfaceConfiguration::new(
                TextureFormat::Bgra8Unorm,
                Dimension { horizontal: 320, vertical: 200 },
                present_mode,
                alpha_mode,
            );
            assert_eq!(configuration.present_mode, present_mode);
            assert_eq!(configuration.alpha_mode, alpha_mode);
            assert_eq!(configuration.format, TextureFormat::Bgra8Unorm);
        }
    }
}

#[test]
fn usage_is_render_attachment() {
    let configuration = SurfaceConfiguration::new(
        TextureFormat::Bgra8Unorm,
        Dimension { horizontal: 320, vertical: 200 },
        PresentMode::Fifo,
        CompositeAlphaMode::Opaque,
    );
    assert_eq!(configuration.usage, RENDER_ATTACHMENT);
    assert_eq!(TextureUsages::from_bits(configuration.usage), Some(TextureUsages::RENDER_ATTACHMENT));
}

#[test]
fn render_attachment_is_the_bit_that_wgpu_names_so() {
    assert_eq!(RENDER_ATTACHMENT, 16);
    assert_eq!(RENDER_ATTACHMENT, TextureUsages::RENDER_ATTACHMENT.bits());
}

#[test]
fn same_request_gives_the_same_configuration() {
    let formats = vec![TextureFormat::Rgba8UnormSrgb, TextureFormat::Bgra8UnormSrgb];
    let size = Dimension { horizontal: 1280, vertical: 720 };
    let first = SurfaceConfiguration::new(
        select_format(&formats).unwrap(),
        size,
        PresentMode::Immediate,
        CompositeAlphaMode::PreMultiplied,
    );
    let second = SurfaceConfiguration::new(
        select_format(&formats).unwrap(),
        size,
        PresentMode::Immediate,
        CompositeAlphaMode::PreMultiplied,
    );
    assert_eq!(first, second);
}

#[test]
fn resized_window_changes_the_size_only() {
    let formats = vec![TextureFormat::Rgba8UnormSrgb, TextureFormat::Bgra8UnormSrgb];
    let first = SurfaceConfiguration::new(
        select_format(&formats).unwrap(),
        Dimension { horizontal: 1280, vertical: 720 },
        PresentMode::Fifo,
        CompositeAlphaMode::Opaque,
    );
    let second = SurfaceConfiguration::new(
        select_format(&formats).unwrap(),
        Dimension { horizontal: 300, vertical: 200 },
        PresentMode::Fifo,
        CompositeAlphaMode::Opaque,
    );
    assert_eq!(first.format, second.format);
    assert_eq!(first.present_mode, second.present_mode);
    assert_eq!(first.alpha_mode, second.alpha_mode);
    assert_eq!(first.usage, second.usage);
    assert_ne!(first, second);
    assert_eq!((second.width, second.height), (300, 200));
}

#[test]
fn window_without_area_gives_no_well_formed_configuration() {
    for (horizontal, vertical) in [(0, 0), (0, 600), (800, 0)] {
        let size = Dimension { horizontal, vertical };
        assert!(!size.has_area());
        let configuration = SurfaceConfiguration::new(
            TextureFormat::Bgra8Unorm,
            size,
            PresentMode::Fifo,
            CompositeAlphaMode::Opaque,
        );
        assert!(!configuration.is_well_formed());
        assert_eq!(configuration.dimension(), size);
    }
}

#[test]
fn window_of_one_pixel_has_an_area() {
    let size = Dimension { horizontal: 1, vertical: 1 };
    assert!(size.has_area());
    let configuration = SurfaceConfiguration::new(
        TextureFormat::Bgra8Unorm,
        size,
        PresentMode::Fifo,
        CompositeAlphaMode::Opaque,
    );
    assert!(configuration.is_well_formed());
}

#[test]
fn other_usage_is_not_well_formed() {
    let configuration = SurfaceConfiguration {
        usage: 1,
        format: TextureFormat::Bgra8Unorm,
        width: 800,
        height: 600,
        present_mode: PresentMode::Fifo,
        alpha_mode: CompositeAlphaMode::Opaque,
    };
    assert!(!configuration.is_well_formed());
}
