//! Errors of the notification daemon.
use vstd::prelude::*;
use vstd::string::StringExecFns;

verus! {

/// A global (protocol capability) that a notification surface needs from the compositor.
#[derive(Clone, Copy, Debug, PartialEq, Eq, Structural)]
pub enum Capability {
    /// `wl_compositor`: allocates surfaces.
    Compositor,
    /// `wl_shm`: shared-memory pixel buffers.
    Shm,
    /// `zwlr_layer_shell_v1`: positioned overlay surfaces.
    LayerShell,
}

/// What can go wrong while receiving or showing a notification.
#[derive(Clone, Copy, Debug, PartialEq, Eq, Structural)]
pub enum RevereError {
    /// Standard input or output failed.
    StdIoError,
    /// The session bus could not be reached.
    DBusCnxError,
    /// A session bus method call failed.
    DBusMethodError,
    /// No display server could be reached.
    WaylandCnxError,
    /// The display server lacks a required global.
    WaylandGlobalError(Capability),
    /// A drawing surface could not be made or painted.
    CairoSurfaceError,
    /// The pixels of a drawing surface could not be borrowed.
    CairoBorrowError,
    /// The outgoing requests could not all be written to the display server.
    DisplayFlushError,
    /// A color was not written `#RRGGBB`.
    InvalidColor,
    /// The window's pixel buffer does not fit what the display protocol can describe.
    BufferTooLarge,
}

impl RevereError {
    /// The message that describes this error.
    pub open spec fn message_spec(self) -> Seq<char> {
        match self {
            RevereError::StdIoError => "Error: standard output"@,
            RevereError::DBusCnxError => "Error: connecting to D-Bus"@,
            RevereError::DBusMethodError => "Error: issue with D-Bus method"@,
            RevereError::WaylandCnxError => "Error: issue connecting to wayland client"@,
            RevereError::WaylandGlobalError(Capability::Compositor) =>
                "Error: issue with a wayland client global binding (wl_compositor)"@,
            RevereError::WaylandGlobalError(Capability::Shm) =>
                "Error: issue with a wayland client global binding (wl_shm)"@,
            RevereError::WaylandGlobalError(Capability::LayerShell) =>
                "Error: issue with a wayland client global binding (zwlr_layer_shell_v1)"@,
            RevereError::CairoSurfaceError => "Error: issue with cairo surface"@,
            RevereError::CairoBorrowError => "Error: issue with cairo surface data ownership"@,
            RevereError::DisplayFlushError => "Error: flushing display"@,
            RevereError::InvalidColor => "Error: a color is not written #RRGGBB"@,
            RevereError::BufferTooLarge => "Error: window too large for a wayland buffer"@,
        }
    }

    /// The message that describes this error.
    pub fn message(&self) -> (r: String)
        ensures
            r@ == self.message_spec(),
    {
        let text = match self {
            RevereError::StdIoError => "Error: standard output",
            RevereError::DBusCnxError => "Error: connecting to D-Bus",
            RevereError::DBusMethodError => "Error: issue with D-Bus method",
            RevereError::WaylandCnxError => "Error: issue connecting to wayland client",
            RevereError::WaylandGlobalError(Capability::Compositor) =>
                "Error: issue with a wayland client global binding (wl_compositor)",
            RevereError::WaylandGlobalError(Capability::Shm) =>
                "Error: issue with a wayland client global binding (wl_shm)",
            RevereError::WaylandGlobalError(Capability::LayerShell) =>
                "Error: issue with a wayland client global binding (zwlr_layer_shell_v1)",
            RevereError::CairoSurfaceError => "Error: issue with cairo surface",
            RevereError::CairoBorrowError => "Error: issue with cairo surface data ownership",
            RevereError::DisplayFlushError => "Error: flushing display",
            RevereError::InvalidColor => "Error: a color is not written #RRGGBB",
            RevereError::BufferTooLarge => "Error: window too large for a wayland buffer",
        };
        String::from_str(text)
    }
}

} // verus!
