use pixel_render::platform::{platform_info, DisplayServer, HostOs, PlatformInfo};

#[test]
fn linux_uses_x11() {
    let p = platform_info(HostOs::Linux);
    assert_eq!(p.display_server, DisplayServer::X11);
    assert!(p.is_x11());
    assert!(!p.is_windows());
    assert!(p.supports_transparency && p.supports_positioning && p.supports_direct_rendering);
}

#[test]
fn windows_platform() {
    let p = PlatformInfo::detect(HostOs::Windows);
    assert!(p.is_windows());
    assert!(!p.is_x11());
    assert!(p.supports_transparency);
}

#[test]
fn macos_and_other_platforms() {
    let mac = platform_info(HostOs::MacOs);
    assert_eq!(mac.display_server, DisplayServer::Unknown);
    assert!(mac.supports_transparency);
    let other = platform_info(HostOs::Other);
    assert_eq!(other.display_server, DisplayServer::Unknown);
    assert!(!other.supports_transparency);
    assert!(other.supports_positioning && other.supports_direct_rendering);
}
