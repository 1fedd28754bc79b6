use agentos::host::capture::picture;
use agentos::host::display::{
    surface_properties, DisplayState, FinishedFrame, FrameStep, ScanoutStep, SetupStep, SurfaceSetup,
};
use agentos::host::view::{contents_scale, FramebufferView};

fn install(display: &mut DisplayState, surfaces: [usize; 4]) -> Vec<usize> {
    let mut setup = SurfaceSetup::new();
    for surface in surfaces {
        match display.surface_created(setup, surface) {
            SetupStep::CreateNext(next) => setup = next,
            SetupStep::Installed { status, release } => {
                assert_eq!(status, 0);
                return release;
            }
            other => panic!("setup: {:?}", other),
        }
    }
    panic!("setup is not complete")
}

fn drawing(surface: usize) -> FrameStep {
    FrameStep::Draw { surface, status: 1 }
}

fn finished(surface: usize) -> FinishedFrame {
    FinishedFrame { surface, status: 0 }
}

fn screen() -> DisplayState {
    let mut display = DisplayState::new();
    assert_eq!(
        display.configure_scanout(2, 2),
        ScanoutStep::CreateSurfaces(surface_properties(2, 2))
    );
    assert_eq!(install(&mut display, [10, 20, 30, 40]), Vec::<usize>::new());
    display
}

#[test]
fn blank_display_shows_nothing() {
    let mut display = DisplayState::new();
    assert_eq!((display.vm_width(), display.vm_height()), (0, 0));
    assert_eq!(display.get_front_surface(), None);
    assert_eq!(display.alloc_frame(), FrameStep::NoSurface { status: -1 });
    assert_eq!(display.capture_surface(), None);
}

#[test]
fn surfaces_fit_the_screen() {
    let properties = surface_properties(640, 480);
    assert_eq!((properties.width, properties.height), (640, 480));
    assert_eq!(properties.bytes_per_row, 2560);
    assert_eq!(properties.bytes_per_element, 4);
    assert_eq!(properties.pixel_format, u32::from_be_bytes(*b"BGRA"));
}

#[test]
fn same_size_needs_no_surfaces() {
    let mut display = screen();
    assert_eq!(display.configure_scanout(2, 2), ScanoutStep::Unchanged { status: 0 });
    assert_eq!(
        display.configure_scanout(3, 2),
        ScanoutStep::CreateSurfaces(surface_properties(3, 2))
    );
    assert_eq!((display.vm_width(), display.vm_height()), (3, 2));
    assert_eq!(display.alloc_frame(), drawing(10));
    assert_eq!(install(&mut display, [1, 2, 3, 4]), vec![10, 20, 30, 40]);
    assert_eq!(display.alloc_frame(), drawing(1));
}

#[test]
fn failed_setup_gives_up_what_was_made() {
    let mut display = screen();
    let SetupStep::CreateNext(setup) = display.surface_created(SurfaceSetup::new(), 5) else {
        panic!("more to make")
    };
    let SetupStep::CreateNext(setup) = display.surface_created(setup, 6) else {
        panic!("more to make")
    };
    assert_eq!(
        display.surface_created(setup, 0),
        SetupStep::Failed { status: -1, release: vec![5, 6] }
    );
    assert_eq!(display.alloc_frame(), drawing(10));
}

#[test]
fn frames_go_round() {
    let mut display = screen();
    assert_eq!(display.alloc_frame(), drawing(10));
    assert_eq!(display.present_frame(), finished(10));
    assert_eq!(display.alloc_frame(), drawing(20));
    assert_eq!(display.get_front_surface(), Some(10));
    assert_eq!(display.get_front_surface(), None);
    assert_eq!(display.present_frame(), finished(20));
    assert_eq!(display.alloc_frame(), drawing(30));
    assert_eq!(display.get_front_surface(), Some(20));
    assert_eq!(display.present_frame(), finished(30));
    assert_eq!(display.alloc_frame(), drawing(40));
    assert_eq!(display.present_frame(), finished(40));
    assert_eq!(display.alloc_frame(), drawing(30));
    assert_eq!(display.get_front_surface(), Some(40));
    assert_eq!(display.present_frame(), finished(30));
    assert_eq!(display.alloc_frame(), drawing(10));
}

#[test]
fn drawing_never_meets_what_is_seen() {
    let mut display = screen();
    let mut seen: Vec<usize> = Vec::new();
    for turn in 0..50 {
        let FrameStep::Draw { surface: drawn, .. } = display.alloc_frame() else {
            panic!("nothing to draw to")
        };
        assert!(!seen.contains(&drawn));
        assert_eq!(display.present_frame(), finished(drawn));
        if turn % 3 != 1 {
            let front = display.get_front_surface().unwrap();
            assert_eq!(front, drawn);
            seen.push(front);
            if seen.len() > 2 {
                seen.remove(0);
            }
        }
    }
}

#[test]
fn new_surfaces_are_blank() {
    let mut display = screen();
    display.present_frame();
    install(&mut display, [1, 2, 3, 4]);
    assert_eq!(display.get_front_surface(), None);
    assert_eq!(display.capture_surface(), None);
    display.present_frame();
    assert_eq!(display.get_front_surface(), Some(1));
}

#[test]
fn shown_frame_is_captured() {
    let mut display = screen();
    assert_eq!(display.capture_surface(), None);
    display.present_frame();
    assert_eq!(display.capture_surface(), Some(10));
    display.get_front_surface();
    display.present_frame();
    assert_eq!(display.capture_surface(), Some(10));
}

#[test]
fn pictures_have_red_first() {
    let surface: Vec<u8> = (0..24).collect();
    let capture = picture(&surface, 12, 2, 2);
    assert_eq!((capture.width, capture.height), (2, 2));
    assert_eq!(
        capture.pixels_rgba,
        vec![2, 1, 0, 3, 6, 5, 4, 7, 14, 13, 12, 15, 18, 17, 16, 19]
    );
    assert_eq!(picture(&[], 8, 2, 0).pixels_rgba, Vec::<u8>::new());
}

#[test]
fn capture_needs_a_wide_enough_surface() {
    let mut display = screen();
    let surface: Vec<u8> = (0..16).collect();
    assert_eq!(display.capture_framebuffer(8, Some(&surface)), None);
    display.present_frame();
    assert!(display.stride_suffices(8));
    assert!(!display.stride_suffices(7));
    assert_eq!(display.capture_framebuffer(7, Some(&surface)), None);
    assert_eq!(display.capture_framebuffer(8, None), None);
    let capture = display.capture_framebuffer(8, Some(&surface)).unwrap();
    assert_eq!(
        capture.pixels_rgba,
        vec![2, 1, 0, 3, 6, 5, 4, 7, 10, 9, 8, 11, 14, 13, 12, 15]
    );
}

#[test]
fn view_shows_each_surface_once() {
    let mut display = screen();
    let mut view = FramebufferView::new();
    assert_eq!(view.update_framebuffer(&mut display), None);
    display.present_frame();
    assert_eq!(view.update_framebuffer(&mut display), Some(10));
    assert_eq!(view.update_framebuffer(&mut display), None);
    install(&mut display, [10, 11, 12, 13]);
    display.present_frame();
    assert_eq!(view.update_framebuffer(&mut display), None);
    display.present_frame();
    assert_eq!(view.update_framebuffer(&mut display), Some(11));
}

#[test]
fn scale_is_at_least_one() {
    assert_eq!(contents_scale(0), 1);
    assert_eq!(contents_scale(1), 1);
    assert_eq!(contents_scale(2), 2);
}

#[test]
fn last_of_many_frames_is_shown() {
    for count in 1..9 {
        let mut display = screen();
        let mut last = 0;
        for _ in 0..count {
            last = display.present_frame().surface;
        }
        assert_eq!(display.get_front_surface(), Some(last));
        assert_eq!(display.get_front_surface(), None);
    }
}
