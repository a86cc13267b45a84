//! Presentation-surface configuration: the negotiated pixel format,
//! presentation mode and alpha-compositing mode, the swap-chain dimensions,
//! and the resize rule.

use vstd::prelude::*;

verus! {

/// One pixel format reported by the adapter for a surface. `code` identifies
/// the format to the caller that produced the list; `srgb` says whether the
/// format is color-space corrected (gamma/sRGB).
#[derive(Clone, Copy, Debug, PartialEq, Eq, Structural)]
pub struct SurfaceFormat {
    pub code: u32,
    pub srgb: bool,
}

/// How acquired images are presented to the screen.
#[derive(Clone, Copy, Debug, PartialEq, Eq, Structural)]
pub enum PresentMode {
    /// Blocking, vsync-like queue; always available.
    Fifo,
    /// Fifo that tears when a frame is late.
    FifoRelaxed,
    /// No queue; presents immediately, may tear.
    Immediate,
    /// Newest-frame-wins queue; low latency, no tearing.
    Mailbox,
}

/// How the surface's alpha channel is composited with the desktop.
#[derive(Clone, Copy, Debug, PartialEq, Eq, Structural)]
pub enum AlphaMode {
    Auto,
    Opaque,
    PreMultiplied,
    PostMultiplied,
    Inherit,
}

/// The swap-chain configuration owned by the rendering context. Only
/// `width` and `height` ever change after construction (on resize).
#[derive(Clone, Copy, Debug, PartialEq, Eq, Structural)]
pub struct SurfaceConfig {
    pub format: SurfaceFormat,
    pub width: u32,
    pub height: u32,
    pub present_mode: PresentMode,
    pub alpha_mode: AlphaMode,
}

impl SurfaceConfig {
    /// A surface can present only with a non-empty pixel area; a zero-sized
    /// configuration is valid but inactive (presentation is skipped).
    pub open spec fn active(self) -> bool {
        self.width > 0 && self.height > 0
    }

    /// Applies a window-size change. A request with a zero dimension is
    /// ignored; a fully positive request updates the dimensions and nothing
    /// else. Returns whether the surface must now be reconfigured.
    pub fn resize(&mut self, new_width: u32, new_height: u32) -> (reconfigure: bool)
        ensures
            new_width > 0 && new_height > 0 ==> {
                &&& final(self).width == new_width
                &&& final(self).height == new_height
                &&& final(self).format == old(self).format
                &&& final(self).present_mode == old(self).present_mode
                &&& final(self).alpha_mode == old(self).alpha_mode
                &&& reconfigure
            },
            new_width == 0 || new_height == 0 ==> {
                &&& *final(self) == *old(self)
                &&& !reconfigure
            },
    {
        if new_width > 0 && new_height > 0 {
            self.width = new_width;
            self.height = new_height;
            true
        } else {
            false
        }
    }
}

/// Some reported format is color-space corrected.
pub open spec fn has_srgb(formats: Seq<SurfaceFormat>) -> bool {
    exists|i: int| 0 <= i < formats.len() && (#[trigger] formats[i]).srgb
}

/// The presentation mode this renderer prefers: newest-frame-wins, for low
/// latency; the adapter need not offer it.
pub open spec fn preferred_present_mode() -> PresentMode {
    PresentMode::Mailbox
}

/// A mode occurs in the reported list.
pub open spec fn has_mode(modes: Seq<PresentMode>, m: PresentMode) -> bool {
    exists|i: int| 0 <= i < modes.len() && (#[trigger] modes[i]) == m
}

/// Picks the surface format: the first format reported as sRGB, and the
/// first reported format when none is. Empty-handed only on an empty list.
pub fn choose_format(formats: &Vec<SurfaceFormat>) -> (r: Option<SurfaceFormat>)
    ensures
        r is Some <==> formats@.len() > 0,
        has_srgb(formats@) ==> exists|i: int|
            {
                &&& 0 <= i < formats@.len()
                &&& r == Some(#[trigger] formats@[i])
                &&& formats@[i].srgb
                &&& forall|j: int| 0 <= j < i ==> !(#[trigger] formats@[j]).srgb
            },
        formats@.len() > 0 && !has_srgb(formats@) ==> r == Some(formats@[0]),
{
    let mut k: usize = 0;
    while k < formats.len()
        invariant
            k <= formats@.len(),
            forall|j: int| 0 <= j < k ==> !(#[trigger] formats@[j]).srgb,
        decreases formats@.len() - k,
    {
        if formats[k].srgb {
            return Some(formats[k]);
        }
        k = k + 1;
    }
    if formats.len() > 0 {
        Some(formats[0])
    } else {
        None
    }
}

/// Picks the presentation mode: the preferred newest-frame-wins mode when
/// the adapter reports it, and the first reported mode — the always-
/// supported blocking one — when it does not.
pub fn choose_present_mode(modes: &Vec<PresentMode>) -> (r: Option<PresentMode>)
    ensures
        r is Some <==> modes@.len() > 0,
        has_mode(modes@, preferred_present_mode()) ==> r == Some(preferred_present_mode()),
        modes@.len() > 0 && !has_mode(modes@, preferred_present_mode()) ==> r == Some(modes@[0]),
{
    let mut k: usize = 0;
    while k < modes.len()
        invariant
            k <= modes@.len(),
            forall|j: int| 0 <= j < k ==> (#[trigger] modes@[j]) != preferred_present_mode(),
        decreases modes@.len() - k,
    {
        match modes[k] {
            PresentMode::Mailbox => {
                return Some(PresentMode::Mailbox);
            },
            _ => {},
        }
        k = k + 1;
    }
    if modes.len() > 0 {
        Some(modes[0])
    } else {
        None
    }
}

/// Picks the alpha-compositing mode: the first reported one.
pub fn choose_alpha_mode(modes: &Vec<AlphaMode>) -> (r: Option<AlphaMode>)
    ensures
        r is Some <==> modes@.len() > 0,
        modes@.len() > 0 ==> r == Some(modes@[0]),
{
    if modes.len() > 0 {
        Some(modes[0])
    } else {
        None
    }
}

/// Negotiates the whole surface configuration from what the adapter
/// reports and the window's current size: the format, presentation and
/// alpha choices above, with the given dimensions. Empty-handed exactly
/// when some reported list is empty, which no usable adapter produces.
pub fn build_config(
    formats: &Vec<SurfaceFormat>,
    present_modes: &Vec<PresentMode>,
    alpha_modes: &Vec<AlphaMode>,
    width: u32,
    height: u32,
) -> (r: Option<SurfaceConfig>)
    ensures
        r is Some <==> formats@.len() > 0 && present_modes@.len() > 0 && alpha_modes@.len() > 0,
        r matches Some(c) ==> {
            &&& c.width == width
            &&& c.height == height
            &&& has_srgb(formats@) ==> exists|i: int|
                {
                    &&& 0 <= i < formats@.len()
                    &&& c.format == #[trigger] formats@[i]
                    &&& formats@[i].srgb
                    &&& forall|j: int| 0 <= j < i ==> !(#[trigger] formats@[j]).srgb
                }
            &&& !has_srgb(formats@) ==> c.format == formats@[0]
            &&& has_mode(present_modes@, preferred_present_mode()) ==> c.present_mode
                == preferred_present_mode()
            &&& !has_mode(present_modes@, preferred_present_mode()) ==> c.present_mode
                == present_modes@[0]
            &&& c.alpha_mode == alpha_modes@[0]
        },
{
    let format = match choose_format(formats) {
        Some(f) => f,
        None => {
            return None;
        },
    };
    let present_mode = match choose_present_mode(present_modes) {
        Some(m) => m,
        None => {
            return None;
        },
    };
    let alpha_mode = match choose_alpha_mode(alpha_modes) {
        Some(m) => m,
        None => {
            return None;
        },
    };
    Some(SurfaceConfig { format, width, height, present_mode, alpha_mode })
}

/// An active configuration stays active through any resize: a zero-area
/// request is dropped, and a positive one keeps both dimensions positive.
pub proof fn lemma_resize_preserves_active(
    before: SurfaceConfig,
    after: SurfaceConfig,
    w: u32,
    h: u32,
)
    requires
        before.active(),
        w > 0 && h > 0 ==> after == (SurfaceConfig { width: w, height: h, ..before }),
        (w == 0 || h == 0) ==> after == before,
    ensures
        after.active(),
{
}

} // verus!
