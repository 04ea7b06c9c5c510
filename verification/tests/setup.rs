use pbr_viewer::setup::{
    plan_swapchain, select_queue_family, window_size_dependent_setup, AlphaSupport,
    CompositeAlpha, Extent, QueueFamily, SetupError, SizeDependentPlan, SurfaceCaps,
    SwapchainPlan,
};

fn family(graphics: bool, surface: Option<bool>) -> QueueFamily {
    QueueFamily {
        supports_graphics: graphics,
        supports_surface: surface,
    }
}

const NO_ALPHA: AlphaSupport = AlphaSupport {
    opaque: false,
    pre_multiplied: false,
    post_multiplied: false,
    inherit: false,
};

#[test]
fn first_family_that_draws_and_presents_is_chosen() {
    let families = [
        family(false, Some(true)),
        family(true, Some(false)),
        family(true, None),
        family(true, Some(true)),
        family(true, Some(true)),
    ];
    assert_eq!(select_queue_family(&families), Ok(3));
}

#[test]
fn no_family_is_an_error() {
    assert_eq!(select_queue_family(&[]), Err(SetupError::NoQueueFamily));
    let families = [family(false, Some(true)), family(true, None)];
    assert_eq!(
        select_queue_family(&families),
        Err(SetupError::NoQueueFamily)
    );
}

#[test]
fn family_usability() {
    assert!(family(true, Some(true)).is_usable());
    assert!(!family(true, Some(false)).is_usable());
    assert!(!family(true, None).is_usable());
    assert!(!family(false, Some(true)).is_usable());
}

#[test]
fn composite_alpha_preference() {
    let all = AlphaSupport {
        opaque: true,
        pre_multiplied: true,
        post_multiplied: true,
        inherit: true,
    };
    assert_eq!(all.first(), Some(CompositeAlpha::Opaque));
    assert_eq!(
        AlphaSupport { opaque: false, ..all }.first(),
        Some(CompositeAlpha::PreMultiplied)
    );
    assert_eq!(
        AlphaSupport {
            post_multiplied: true,
            inherit: true,
            ..NO_ALPHA
        }
        .first(),
        Some(CompositeAlpha::PostMultiplied)
    );
    assert_eq!(
        AlphaSupport {
            inherit: true,
            ..NO_ALPHA
        }
        .first(),
        Some(CompositeAlpha::Inherit)
    );
    assert_eq!(NO_ALPHA.first(), None);
}

#[test]
fn swapchain_takes_the_fewest_images_and_the_first_format() {
    let caps = SurfaceCaps {
        min_image_count: 2,
        format_count: 4,
        alpha: AlphaSupport {
            inherit: true,
            ..NO_ALPHA
        },
    };
    let window = Extent {
        width: 1280,
        height: 720,
    };
    assert_eq!(
        plan_swapchain(caps, window),
        Ok(SwapchainPlan {
            image_count: 2,
            format_index: 0,
            composite_alpha: CompositeAlpha::Inherit,
            extent: window,
        })
    );
}

#[test]
fn swapchain_needs_a_format_and_an_alpha_mode() {
    let window = Extent {
        width: 1,
        height: 1,
    };
    let caps = SurfaceCaps {
        min_image_count: 2,
        format_count: 0,
        alpha: NO_ALPHA,
    };
    assert_eq!(
        plan_swapchain(caps, window),
        Err(SetupError::NoSurfaceFormat)
    );
    let caps = SurfaceCaps {
        format_count: 1,
        ..caps
    };
    assert_eq!(
        plan_swapchain(caps, window),
        Err(SetupError::NoCompositeAlpha)
    );
}

#[test]
fn extent_without_area_is_degenerate() {
    assert!(Extent { width: 0, height: 5 }.is_degenerate());
    assert!(Extent { width: 5, height: 0 }.is_degenerate());
    assert!(Extent { width: 0, height: 0 }.is_degenerate());
    assert!(!Extent { width: 1, height: 1 }.is_degenerate());
}

#[test]
fn size_dependent_setup_follows_the_first_image() {
    let images = [
        Extent {
            width: 800,
            height: 600,
        },
        Extent {
            width: 800,
            height: 600,
        },
        Extent {
            width: 640,
            height: 480,
        },
    ];
    assert_eq!(
        window_size_dependent_setup(&images),
        Some(SizeDependentPlan {
            extent: Extent {
                width: 800,
                height: 600
            },
            framebuffer_count: 3,
        })
    );
    assert_eq!(window_size_dependent_setup(&[]), None);
}
