use vstd::prelude::*;

verus! {

/// The display server that windows are shown through.
#[derive(Debug, Clone, Copy, PartialEq, Eq, Structural)]
pub enum DisplayServer {
    /// X11 (Linux).
    X11,
    /// Win32 / Desktop Window Manager.
    Windows,
    /// Any other display server (pure Wayland, Cocoa on macOS, ...).
    Unknown,
}

/// The operating system family the library was built for.
#[derive(Debug, Clone, Copy, PartialEq, Eq, Structural)]
pub enum HostOs {
    Linux,
    Windows,
    MacOs,
    Other,
}

/// What the platform offers to windows and to pixel rendering.
#[derive(Debug, Clone, Copy, PartialEq, Eq, Structural)]
pub struct PlatformInfo {
    /// The display server type.
    pub display_server: DisplayServer,
    /// Whether windows can be transparent.
    pub supports_transparency: bool,
    /// Whether windows can be positioned absolutely.
    pub supports_positioning: bool,
    /// Whether pixel buffers can be presented directly.
    pub supports_direct_rendering: bool,
}

/// The display server used on each operating system: X11 is forced on Linux.
pub open spec fn display_server_of(os: HostOs) -> DisplayServer {
    match os {
        HostOs::Linux => DisplayServer::X11,
        HostOs::Windows => DisplayServer::Windows,
        _ => DisplayServer::Unknown,
    }
}

/// The platform description for each operating system.
pub open spec fn platform_of(os: HostOs) -> PlatformInfo {
    PlatformInfo {
        display_server: display_server_of(os),
        supports_transparency: os != HostOs::Other,
        supports_positioning: true,
        supports_direct_rendering: true,
    }
}

impl PlatformInfo {
    /// Describes the platform of the given operating system.
    pub fn detect(os: HostOs) -> (r: PlatformInfo)
        ensures
            r == platform_of(os),
    {
        match os {
            HostOs::Linux => PlatformInfo {
                display_server: DisplayServer::X11,
                supports_transparency: true,
                supports_positioning: true,
                supports_direct_rendering: true,
            },
            HostOs::Windows => PlatformInfo {
                display_server: DisplayServer::Windows,
                supports_transparency: true,
                supports_positioning: true,
                supports_direct_rendering: true,
            },
            HostOs::MacOs => PlatformInfo {
                display_server: DisplayServer::Unknown,
                supports_transparency: true,
                supports_positioning: true,
                supports_direct_rendering: true,
            },
            HostOs::Other => PlatformInfo {
                display_server: DisplayServer::Unknown,
                supports_transparency: false,
                supports_positioning: true,
                supports_direct_rendering: true,
            },
        }
    }

    /// Returns true if running on X11.
    pub fn is_x11(&self) -> (r: bool)
        ensures
            r == (self.display_server == DisplayServer::X11),
    {
        self.display_server == DisplayServer::X11
    }

    /// Returns true if running on Windows.
    pub fn is_windows(&self) -> (r: bool)
        ensures
            r == (self.display_server == DisplayServer::Windows),
    {
        self.display_server == DisplayServer::Windows
    }
}

/// The platform information for the given operating system.
pub fn platform_info(os: HostOs) -> (r: PlatformInfo)
    ensures
        r == platform_of(os),
{
    PlatformInfo::detect(os)
}

} // verus!
