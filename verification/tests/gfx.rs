use ctru::gfx::DisplaySlot;
use ctru::gfx::Error;
use ctru::gfx::Gfx;
use ctru::gfx::GfxState;
use ctru::gfx::RawFramebuffer;
use ctru::gfx::Screen;
use ctru::gfx::ScreenConfig;
use ctru::gfx::Side;
use ctru::gfx::DEFAULT_FORMAT;
use ctru::raw::Request;
use ctru::services::gspgpu::FramebufferFormat;

fn service(slot: &mut DisplaySlot) -> Gfx {
    let (gfx, _) = Gfx::default(slot).unwrap();
    gfx
}

#[test]
fn screen_and_side_codes_are_the_driver_codes() {
    assert_eq!(u32::from(Screen::Top), 0);
    assert_eq!(u32::from(Screen::Bottom), 1);
    assert_eq!(u32::from(Side::Left), 0);
    assert_eq!(u32::from(Side::Right), 1);
}

#[test]
fn new_hands_formats_and_vram_flag_to_the_driver() {
    let mut slot = DisplaySlot::new();
    let (gfx, request) =
        Gfx::new(&mut slot, FramebufferFormat::Rgba8, FramebufferFormat::Rgb565, true).unwrap();
    assert_eq!(
        request,
        Request::GfxInit { top_format: 0, bottom_format: 2, vram_buffers: true }
    );
    assert_eq!(gfx.get_framebuffer_format(Screen::Top), FramebufferFormat::Rgba8);
    assert_eq!(gfx.get_framebuffer_format(Screen::Bottom), FramebufferFormat::Rgb565);
    assert!(slot.is_occupied());
}

#[test]
fn new_starts_double_buffered_without_stereo() {
    let mut slot = DisplaySlot::new();
    let (gfx, _) =
        Gfx::new(&mut slot, FramebufferFormat::Rgba4, FramebufferFormat::Rgb5A1, false).unwrap();
    assert_eq!(
        gfx.state(),
        GfxState {
            top: ScreenConfig {
                format: FramebufferFormat::Rgba4,
                double_buffering: true,
                generation: 0
            },
            bottom: ScreenConfig {
                format: FramebufferFormat::Rgb5A1,
                double_buffering: true,
                generation: 0
            },
            stereo: false,
        }
    );
}

#[test]
fn default_uses_the_built_in_configuration() {
    let mut slot = DisplaySlot::new();
    let (gfx, request) = Gfx::default(&mut slot).unwrap();
    assert_eq!(request, Request::GfxInitDefault);
    assert_eq!(DEFAULT_FORMAT, FramebufferFormat::Bgr8);
    assert_eq!(gfx.get_framebuffer_format(Screen::Top), FramebufferFormat::Bgr8);
    assert_eq!(gfx.get_framebuffer_format(Screen::Bottom), FramebufferFormat::Bgr8);
    assert!(gfx.state().top.double_buffering);
    assert!(gfx.state().bottom.double_buffering);
    assert!(!gfx.state().stereo);
    assert!(slot.is_occupied());
}

#[test]
fn fresh_slot_is_free() {
    assert!(!DisplaySlot::new().is_occupied());
}

#[test]
fn second_service_is_rejected_on_every_path() {
    let mut slot = DisplaySlot::new();
    let first = service(&mut slot);
    assert_eq!(Gfx::default(&mut slot).unwrap_err(), Error::ServiceAlreadyActive);
    assert_eq!(
        Gfx::new(&mut slot, FramebufferFormat::Rgba8, FramebufferFormat::Rgba8, false)
            .unwrap_err(),
        Error::ServiceAlreadyActive
    );
    assert!(slot.is_occupied());
    assert_eq!(first.get_framebuffer_format(Screen::Top), FramebufferFormat::Bgr8);

    let mut other = DisplaySlot::new();
    let (_second, _) =
        Gfx::new(&mut other, FramebufferFormat::Rgba8, FramebufferFormat::Rgba8, false).unwrap();
    assert!(Gfx::new(&mut other, FramebufferFormat::Bgr8, FramebufferFormat::Bgr8, true).is_err());
    assert!(Gfx::default(&mut other).is_err());
}

#[test]
fn service_can_be_created_again_after_teardown() {
    let mut slot = DisplaySlot::new();
    let gfx = service(&mut slot);
    assert_eq!(gfx.drop(&mut slot), Request::GfxExit);
    assert!(!slot.is_occupied());
    let (again, request) =
        Gfx::new(&mut slot, FramebufferFormat::Rgb565, FramebufferFormat::Rgb565, false).unwrap();
    assert_eq!(
        request,
        Request::GfxInit { top_format: 2, bottom_format: 2, vram_buffers: false }
    );
    assert_eq!(again.get_framebuffer_format(Screen::Bottom), FramebufferFormat::Rgb565);
    assert!(Gfx::default(&mut slot).is_err());
}

#[test]
fn stereo_toggles() {
    let mut slot = DisplaySlot::new();
    let mut gfx = service(&mut slot);
    let before = gfx.state();
    assert_eq!(gfx.set_3d_enabled(true), Request::GfxSet3D { enable: true });
    assert_eq!(gfx.state(), GfxState { stereo: true, ..before });
    assert_eq!(gfx.set_3d_enabled(false), Request::GfxSet3D { enable: false });
    assert_eq!(gfx.state(), before);
}

#[test]
fn double_buffering_is_per_screen() {
    let mut slot = DisplaySlot::new();
    let mut gfx = service(&mut slot);
    assert_eq!(
        gfx.set_double_buffering(Screen::Bottom, false),
        Request::GfxSetDoubleBuffering { screen: 1, enable: false }
    );
    assert!(gfx.state().top.double_buffering);
    assert!(!gfx.state().bottom.double_buffering);
    assert_eq!(
        gfx.set_double_buffering(Screen::Top, false),
        Request::GfxSetDoubleBuffering { screen: 0, enable: false }
    );
    assert!(!gfx.state().top.double_buffering);
    assert_eq!(
        gfx.set_double_buffering(Screen::Bottom, true),
        Request::GfxSetDoubleBuffering { screen: 1, enable: true }
    );
    assert!(!gfx.state().top.double_buffering);
    assert!(gfx.state().bottom.double_buffering);
    assert_eq!(gfx.get_framebuffer_format(Screen::Top), FramebufferFormat::Bgr8);
}

#[test]
fn format_is_read_back_per_screen() {
    let mut slot = DisplaySlot::new();
    let mut gfx = service(&mut slot);
    assert_eq!(
        gfx.set_framebuffer_format(Screen::Top, FramebufferFormat::Rgba8),
        Request::GfxSetScreenFormat { screen: 0, format: 0 }
    );
    assert_eq!(gfx.get_framebuffer_format(Screen::Top), FramebufferFormat::Rgba8);
    assert_eq!(gfx.get_framebuffer_format(Screen::Bottom), FramebufferFormat::Bgr8);
    assert_eq!(
        gfx.set_framebuffer_format(Screen::Bottom, FramebufferFormat::Rgb5A1),
        Request::GfxSetScreenFormat { screen: 1, format: 3 }
    );
    assert_eq!(gfx.get_framebuffer_format(Screen::Top), FramebufferFormat::Rgba8);
    assert_eq!(gfx.get_framebuffer_format(Screen::Bottom), FramebufferFormat::Rgb5A1);
    assert!(gfx.state().top.double_buffering);
    assert_eq!(gfx.state().top.generation, 0);
}

#[test]
fn frame_loop_requests() {
    let mut slot = DisplaySlot::new();
    let mut gfx = service(&mut slot);
    assert_eq!(gfx.flush_buffers(), Request::GfxFlushBuffers);
    assert_eq!(gfx.swap_buffers(), Request::GfxSwapBuffers);
    assert_eq!(
        gfx.wait_for_vblank(),
        Request::GspWaitForEvent { event: 2, discard_current: true }
    );
    assert_eq!(gfx.swap_buffers_gpu(), Request::GfxSwapBuffersGpu);
}

#[test]
fn flush_and_wait_change_nothing() {
    let mut slot = DisplaySlot::new();
    let mut gfx = service(&mut slot);
    let _ = gfx.set_3d_enabled(true);
    let before = gfx.state();
    let _ = gfx.flush_buffers();
    let _ = gfx.wait_for_vblank();
    let _ = gfx.get_raw_framebuffer(Screen::Top, Side::Right);
    assert_eq!(gfx.state(), before);
}

#[test]
fn raw_framebuffer_query_names_screen_and_side() {
    let mut slot = DisplaySlot::new();
    let gfx = service(&mut slot);
    assert_eq!(
        gfx.get_raw_framebuffer(Screen::Top, Side::Left),
        Request::GfxGetFramebuffer { screen: 0, side: 0 }
    );
    assert_eq!(
        gfx.get_raw_framebuffer(Screen::Top, Side::Right),
        Request::GfxGetFramebuffer { screen: 0, side: 1 }
    );
    assert_eq!(
        gfx.get_raw_framebuffer(Screen::Bottom, Side::Left),
        Request::GfxGetFramebuffer { screen: 1, side: 0 }
    );
    assert_eq!(
        gfx.get_raw_framebuffer(Screen::Bottom, Side::Right),
        Request::GfxGetFramebuffer { screen: 1, side: 1 }
    );
}

#[test]
fn raw_framebuffer_keeps_the_driver_answer() {
    let mut slot = DisplaySlot::new();
    let gfx = service(&mut slot);
    let framebuffer = gfx.raw_framebuffer(Screen::Top, Side::Right, 0x1f00_0000, 240, 400);
    assert_eq!(
        framebuffer,
        RawFramebuffer {
            address: 0x1f00_0000,
            width: 240,
            height: 400,
            screen: Screen::Top,
            side: Side::Right,
            generation: 0,
        }
    );
    assert!(gfx.targets(&framebuffer));
}

#[test]
fn swap_makes_the_framebuffer_stale() {
    let mut slot = DisplaySlot::new();
    let mut gfx = service(&mut slot);
    let top = gfx.raw_framebuffer(Screen::Top, Side::Left, 0x1000, 240, 400);
    let bottom = gfx.raw_framebuffer(Screen::Bottom, Side::Left, 0x2000, 240, 320);
    let _ = gfx.swap_buffers();
    assert!(!gfx.targets(&top));
    assert!(!gfx.targets(&bottom));
    assert_eq!(gfx.state().top.generation, 1);
    assert_eq!(gfx.state().bottom.generation, 1);
    let again = gfx.raw_framebuffer(Screen::Top, Side::Left, 0x3000, 240, 400);
    assert_eq!(again.generation, 1);
    assert!(gfx.targets(&again));
    let _ = gfx.swap_buffers_gpu();
    assert!(!gfx.targets(&again));
    assert!(!gfx.targets(&top));
    assert_eq!(gfx.state().top.generation, 2);
}

#[test]
fn swap_keeps_the_framebuffer_of_a_single_buffered_screen() {
    let mut slot = DisplaySlot::new();
    let mut gfx = service(&mut slot);
    let _ = gfx.set_double_buffering(Screen::Bottom, false);
    let top = gfx.raw_framebuffer(Screen::Top, Side::Left, 0x1000, 240, 400);
    let bottom = gfx.raw_framebuffer(Screen::Bottom, Side::Left, 0x2000, 240, 320);
    assert_eq!(gfx.swap_buffers(), Request::GfxSwapBuffers);
    assert!(!gfx.targets(&top));
    assert!(gfx.targets(&bottom));
    assert_eq!(gfx.state().top.generation, 1);
    assert_eq!(gfx.state().bottom.generation, 0);
    assert_eq!(gfx.swap_buffers_gpu(), Request::GfxSwapBuffersGpu);
    assert!(gfx.targets(&bottom));
    assert_eq!(gfx.state().top.generation, 2);
    assert_eq!(gfx.state().bottom.generation, 0);
}

#[test]
fn settings_keep_the_framebuffer_current() {
    let mut slot = DisplaySlot::new();
    let mut gfx = service(&mut slot);
    let top = gfx.raw_framebuffer(Screen::Top, Side::Left, 0x1000, 240, 400);
    let _ = gfx.set_3d_enabled(true);
    let _ = gfx.set_double_buffering(Screen::Top, false);
    let _ = gfx.set_framebuffer_format(Screen::Top, FramebufferFormat::Rgb565);
    let _ = gfx.flush_buffers();
    let _ = gfx.wait_for_vblank();
    assert!(gfx.targets(&top));
}
