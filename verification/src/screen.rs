//! Screen identities and configuration.
//!
//! A screen is a logical window together with its presentation context. The
//! host sees a logical `ScreenId`; the windowing system has its own identity
//! for the window, held here as a plain `NativeWindowId` value.

use crate::abi::Opt;
use crate::texture_format::TextureFormat;
use vstd::prelude::*;
use vstd::utf8::{encode_utf8, encode_utf8_decode_utf8};

verus! {

/// Host-visible logical identifier of a screen, distinct from the native
/// window identity.
#[derive(Clone, Copy, Debug, PartialEq, Eq, Hash, Structural)]
pub struct ScreenId(pub usize);

/// The windowing system's own identity for a window.
#[derive(Clone, Copy, Debug, PartialEq, Eq, Hash, Structural)]
pub struct NativeWindowId(pub u64);

/// How the window is decorated and sized.
#[derive(Clone, Copy, Debug, PartialEq, Eq, Structural)]
pub enum WindowStyle {
    Default,
    Fixed,
    Fullscreen,
}

/// An input that named no window style.
#[derive(Debug)]
pub struct ParseEnumError {
    pub string: String,
}

/// Whether two byte slices hold the same bytes.
fn bytes_eq(a: &[u8], b: &[u8]) -> (r: bool)
    ensures
        r <==> a@ == b@,
{
    if a.len() != b.len() {
        proof {
            assert(a@.len() != b@.len());
        }
        return false;
    }
    let mut i: usize = 0;
    while i < a.len()
        invariant
            0 <= i <= a@.len(),
            a@.len() == b@.len(),
            forall|k: int| 0 <= k < i ==> a@[k] == b@[k],
        decreases a@.len() - i,
    {
        if a[i] != b[i] {
            return false;
        }
        i = i + 1;
    }
    proof {
        assert(a@ =~= b@);
    }
    true
}

/// Whether two string slices hold the same text.
fn str_eq(a: &str, b: &str) -> (r: bool)
    ensures
        r <==> a@ == b@,
{
    let r = bytes_eq(a.as_bytes(), b.as_bytes());
    proof {
        if encode_utf8(a@) == encode_utf8(b@) {
            encode_utf8_decode_utf8(a@);
            encode_utf8_decode_utf8(b@);
        }
    }
    r
}

impl WindowStyle {
    /// Parse a style from its name; any other input is returned in the error.
    pub fn from_str(s: &str) -> (r: Result<WindowStyle, ParseEnumError>)
        ensures
            s@ == "Default"@ ==> r == Ok::<WindowStyle, ParseEnumError>(WindowStyle::Default),
            s@ == "Fixed"@ ==> r == Ok::<WindowStyle, ParseEnumError>(WindowStyle::Fixed),
            s@ == "Fullscreen"@ ==> r == Ok::<WindowStyle, ParseEnumError>(WindowStyle::Fullscreen),
            r is Err <==> s@ != "Default"@ && s@ != "Fixed"@ && s@ != "Fullscreen"@,
            r matches Err(e) ==> e.string@ == s@,
    {
        proof {
            // The three names have different lengths, so a match on one of
            // them rules the other two out.
            reveal_strlit("Default");
            reveal_strlit("Fixed");
            reveal_strlit("Fullscreen");
            assert("Default"@.len() == 7);
            assert("Fixed"@.len() == 5);
            assert("Fullscreen"@.len() == 10);
        }
        if str_eq(s, "Default") {
            Ok(WindowStyle::Default)
        } else if str_eq(s, "Fixed") {
            Ok(WindowStyle::Fixed)
        } else if str_eq(s, "Fullscreen") {
            Ok(WindowStyle::Fullscreen)
        } else {
            Err(ParseEnumError { string: s.to_owned() })
        }
    }
}

/// When a finished frame is presented to the surface.
#[derive(Clone, Copy, Debug, PartialEq, Eq, Structural)]
pub enum PresentMode {
    AutoVsync,
    AutoNoVsync,
    Fifo,
    FifoRelaxed,
    Immediate,
    Mailbox,
}

/// A width and height in physical pixels.
#[derive(Clone, Copy, Debug, PartialEq, Eq, Structural)]
pub struct SizeU32 {
    pub width: u32,
    pub height: u32,
}

impl Default for SizeU32 {
    fn default() -> (s: Self)
        ensures
            s.width == 0,
            s.height == 0,
    {
        Self { width: 0, height: 0 }
    }
}

impl From<(u32, u32)> for SizeU32 {
    fn from(value: (u32, u32)) -> (s: Self)
        ensures
            s.width == value.0,
            s.height == value.1,
    {
        Self { width: value.0, height: value.1 }
    }
}

impl vstd::std_specs::convert::FromSpecImpl<(u32, u32)> for SizeU32 {
    open spec fn obeys_from_spec() -> bool {
        true
    }

    open spec fn from_spec(value: (u32, u32)) -> Self {
        SizeU32 { width: value.0, height: value.1 }
    }
}

/// The graphics backend that ended up driving a screen's presentation.
#[derive(Clone, Copy, Debug, PartialEq, Eq, Structural)]
pub enum GraphicsBackend {
    Empty,
    Vulkan,
    Metal,
    Dx12,
    Dx11,
    Gl,
    BrowserWebGpu,
}

/// What the host learns about a screen as it takes ownership of it: the
/// backend that drives it and, when one was negotiated, the format of its
/// presentation surface.
pub struct ScreenInfo {
    pub backend: GraphicsBackend,
    pub surface_format: Opt<TextureFormat>,
}

impl ScreenInfo {
    pub fn new(backend: GraphicsBackend, surface_format: Opt<TextureFormat>) -> (info: Self)
        ensures
            info.backend == backend,
            info.surface_format@ == surface_format@,
    {
        Self { backend, surface_format }
    }
}

/// What a screen is created with: the window's style and size, the graphics
/// backends the surface may use (a bit set, held as a plain value), and the
/// presentation mode.
#[derive(Clone, Copy, Debug, PartialEq, Eq, Structural)]
pub struct ScreenConfig {
    pub style: WindowStyle,
    pub width: u32,
    pub height: u32,
    pub backend: u32,
    pub present_mode: PresentMode,
}

} // verus!
