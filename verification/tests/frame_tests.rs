use renderer::bundle::BundleRef;
use renderer::bundle::SurfaceImage;
use renderer::display::DisplayFilter;
use renderer::error::RenderError;
use renderer::frame::Frame;
use renderer::frame::PassTarget;

#[test]
fn acquire_gives_empty_lists() {
    let frame = Frame::new(Some(SurfaceImage { id: 9 })).unwrap();
    assert_eq!(frame.geom.len(), 0);
    assert_eq!(frame.lights.len(), 0);
    assert_eq!(frame.filters.len(), 0);
    assert_eq!(frame.surface, SurfaceImage { id: 9 });
}

#[test]
fn acquire_fails_without_surface() {
    let r = Frame::new(None);
    assert!(matches!(r, Err(RenderError::SurfaceUnavailable)));
}

#[test]
fn scenario_geometry_light_default_filter() {
    let mut frame = Frame::new(Some(SurfaceImage { id: 1 })).unwrap();
    let g1 = BundleRef::External { slot: 10 };
    let l1 = BundleRef::External { slot: 20 };
    frame.draw_geom(g1);
    frame.draw_light(l1);
    let plan = frame.present();

    // One plan: one command buffer submitted, one present, of the image the
    // frame was built for.
    assert_eq!(plan.surface, SurfaceImage { id: 1 });
    assert_eq!(plan.passes.len(), 3);

    assert_eq!(plan.passes[0].target, PassTarget::GBufferColor);
    assert_eq!(plan.passes[0].bundles, vec![g1]);
    assert_eq!(plan.passes[1].target, PassTarget::HdrAccumulation);
    assert_eq!(plan.passes[1].bundles, vec![l1]);
    assert_eq!(plan.passes[2].target, PassTarget::SurfaceView);
    assert_eq!(plan.passes[2].bundles, vec![BundleRef::PassThrough]);
}

#[test]
fn scenario_explicit_filters_in_order() {
    let mut frame = Frame::new(Some(SurfaceImage { id: 2 })).unwrap();
    let x = BundleRef::External { slot: 100 };
    let y = BundleRef::External { slot: 101 };
    frame.draw_filter(x);
    frame.draw_filter(y);
    let plan = frame.present();

    assert_eq!(plan.passes[2].bundles, vec![x, y]);
    // The default pass-through filter is never constructed.
    assert!(!plan.passes[2].bundles.contains(&BundleRef::PassThrough));
}

#[test]
fn interleaved_submissions_keep_per_list_order() {
    let mut frame = Frame::new(Some(SurfaceImage { id: 3 })).unwrap();
    let g1 = BundleRef::External { slot: 1 };
    let g2 = BundleRef::External { slot: 2 };
    let l1 = BundleRef::External { slot: 3 };
    let l2 = BundleRef::External { slot: 4 };
    let f1 = BundleRef::External { slot: 5 };
    let f2 = BundleRef::External { slot: 6 };
    frame.draw_light(l1);
    frame.draw_geom(g1);
    frame.draw_filter(f1);
    frame.draw_geom(g2);
    frame.draw_filter(f2);
    frame.draw_light(l2);
    let plan = frame.present();

    assert_eq!(plan.passes[0].bundles, vec![g1, g2]);
    assert_eq!(plan.passes[1].bundles, vec![l1, l2]);
    assert_eq!(plan.passes[2].bundles, vec![f1, f2]);
}

#[test]
fn every_pass_clears_to_black_and_stores() {
    let mut frame = Frame::new(Some(SurfaceImage { id: 4 })).unwrap();
    frame.draw_geom(BundleRef::External { slot: 0 });
    let plan = frame.present();
    for pass in &plan.passes {
        assert!(pass.ops.clear_to_black);
        assert!(pass.ops.store);
    }
}

#[test]
fn empty_frame_still_plans_three_passes() {
    let frame = Frame::new(Some(SurfaceImage { id: 5 })).unwrap();
    let plan = frame.present();
    assert_eq!(plan.passes.len(), 3);
    assert_eq!(plan.passes[0].bundles, Vec::<BundleRef>::new());
    assert_eq!(plan.passes[1].bundles, Vec::<BundleRef>::new());
    assert_eq!(plan.passes[2].bundles, vec![BundleRef::PassThrough]);
}

#[test]
fn default_filters_are_identical() {
    let a = DisplayFilter::default();
    let b = DisplayFilter::default();
    assert_eq!(a, b);
    assert_eq!(a.bundle(), b.bundle());
    assert_eq!(a.bundle(), BundleRef::PassThrough);
}
