use winit_toyos::window::{initial_surface_size, PlatformSpecificWindowAttributes};
use winit_toyos::PlatformSpecificEventLoopAttributes;

#[test]
fn default_surface_size() {
    assert_eq!(initial_surface_size(None), (1024, 768));
}

#[test]
fn requested_surface_size() {
    assert_eq!(initial_surface_size(Some((640, 480))), (640, 480));
    assert_eq!(initial_surface_size(Some((0, 0))), (0, 0));
}

#[test]
fn attributes_are_empty() {
    assert_eq!(PlatformSpecificWindowAttributes::default(), PlatformSpecificWindowAttributes);
    assert_eq!(PlatformSpecificEventLoopAttributes::default(), PlatformSpecificEventLoopAttributes {});
}
