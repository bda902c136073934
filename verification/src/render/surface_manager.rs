//! The configuration of the window's drawing surface.
//!
//! The surface is configured from what the window and the GPU report: the
//! window's size, which of the supported texture formats are sRGB, and how many
//! alpha modes are supported. The library decides the size, which format and
//! which alpha mode are used, and when a resize must reconfigure the surface.
//! Formats and alpha modes are chosen by their index in the lists the GPU
//! reported.

use vstd::prelude::*;

verus! {

/// Frames the presentation engine may queue ahead of the GPU.
pub const DESIRED_MAXIMUM_FRAME_LATENCY: u32 = 2;

/// How presented frames are paced against the display.
#[derive(Clone, Copy, Debug, PartialEq, Eq)]
pub enum PresentChoice {
    AutoVsync,
    AutoNoVsync,
    /// Frames wait for the display's vertical blank: synchronised with the
    /// screen.
    Fifo,
    FifoRelaxed,
    Immediate,
    Mailbox,
}

/// The colour space the surface's frames are presented in.
#[derive(Clone, Copy, Debug, PartialEq, Eq)]
pub enum ColorSpaceChoice {
    /// The GPU library picks the colour space from the format.
    Auto,
    Srgb,
    ExtendedSrgbLinear,
    DisplayP3,
    Bt2100Pq,
    Bt2100Hlg,
    ExtendedSrgb,
    ExtendedDisplayP3,
}

/// What the surface's textures are used for.
#[derive(Clone, Copy, Debug, PartialEq, Eq)]
pub enum SurfaceUsage {
    /// Only as the colour target of render passes.
    RenderAttachment,
}

/// The surface configuration: every choice the surface is configured with.
pub struct SurfaceSettings {
    width: u32,
    height: u32,
    format_index: usize,
    alpha_mode_index: usize,
    frame_latency: u32,
    present_mode: PresentChoice,
    color_space: ColorSpaceChoice,
    usage: SurfaceUsage,
    view_format_indices: Vec<usize>,
}

/// What a `SurfaceSettings` holds.
pub struct SurfaceSettingsView {
    pub width: u32,
    pub height: u32,
    /// Index of the format in the formats the GPU reported.
    pub format_index: usize,
    /// Index of the alpha mode in the alpha modes the GPU reported.
    pub alpha_mode_index: usize,
    pub frame_latency: u32,
    pub present_mode: PresentChoice,
    pub color_space: ColorSpaceChoice,
    pub usage: SurfaceUsage,
    /// Indices, in the formats the GPU reported, of the extra formats views
    /// of the surface's textures may take.
    pub view_format_indices: Seq<usize>,
}

impl View for SurfaceSettings {
    type V = SurfaceSettingsView;

    closed spec fn view(&self) -> SurfaceSettingsView {
        SurfaceSettingsView {
            width: self.width,
            height: self.height,
            format_index: self.format_index,
            alpha_mode_index: self.alpha_mode_index,
            frame_latency: self.frame_latency,
            present_mode: self.present_mode,
            color_space: self.color_space,
            usage: self.usage,
            view_format_indices: self.view_format_indices@,
        }
    }
}

impl SurfaceSettings {
    /// The surface is never configured with a zero side.
    #[verifier::type_invariant]
    spec fn sides_positive(self) -> bool {
        self.width >= 1 && self.height >= 1
    }
}

/// The index of the format the surface uses, given which supported formats
/// are sRGB: the first sRGB format, or the first format when none is sRGB.
pub open spec fn is_chosen_format(srgb: Seq<bool>, i: int) -> bool {
    &&& 0 <= i < srgb.len()
    &&& if exists|j: int| 0 <= j < srgb.len() && srgb[j] {
        srgb[i] && forall|k: int| 0 <= k < i ==> !srgb[k]
    } else {
        i == 0
    }
}

/// The larger of a reported side and one.
pub open spec fn at_least_one(side: u32) -> u32 {
    if side == 0 {
        1
    } else {
        side
    }
}

/// Whether a resize to `width` x `height` is applied: only when both sides are
/// non-zero (a minimised window reports a zero size).
pub open spec fn resize_applies(width: u32, height: u32) -> bool {
    width > 0 && height > 0
}

/// The settings after a resize to `width` x `height`.
pub open spec fn after_resize(s: SurfaceSettingsView, width: u32, height: u32) -> SurfaceSettingsView {
    if resize_applies(width, height) {
        SurfaceSettingsView { width, height, ..s }
    } else {
        s
    }
}

/// Picks the surface format: the first sRGB one, else the first one.
pub fn choose_format_index(srgb: &Vec<bool>) -> (i: usize)
    requires
        srgb.len() > 0,
    ensures
        is_chosen_format(srgb@, i as int),
{
    let mut k: usize = 0;
    while k < srgb.len()
        invariant
            0 <= k <= srgb.len(),
            forall|j: int| 0 <= j < k ==> !srgb@[j],
        decreases srgb.len() - k,
    {
        if srgb[k] {
            return k;
        }
        k = k + 1;
    }
    0
}

impl SurfaceSettings {
    /// Settings for a window of `window_width` x `window_height` whose
    /// supported formats are sRGB as `srgb` says and which supports
    /// `alpha_mode_count` alpha modes: each side at least one, the format that
    /// `choose_format_index` picks, the first alpha mode, a frame latency of
    /// `DESIRED_MAXIMUM_FRAME_LATENCY`, frames synchronised with the display
    /// (`Fifo`), the colour space left to the GPU library, textures used only as
    /// render targets, and no extra view formats.
    pub fn new(window_width: u32, window_height: u32, srgb: &Vec<bool>, alpha_mode_count: usize) -> (s: SurfaceSettings)
        requires
            srgb.len() > 0,
            alpha_mode_count > 0,
        ensures
            s@.width == at_least_one(window_width),
            s@.height == at_least_one(window_height),
            window_width >= 1 ==> s@.width == window_width,
            window_width == 0 ==> s@.width == 1,
            window_height >= 1 ==> s@.height == window_height,
            window_height == 0 ==> s@.height == 1,
            is_chosen_format(srgb@, s@.format_index as int),
            s@.alpha_mode_index == 0,
            s@.frame_latency == DESIRED_MAXIMUM_FRAME_LATENCY,
            s@.present_mode == PresentChoice::Fifo,
            s@.color_space == ColorSpaceChoice::Auto,
            s@.usage == SurfaceUsage::RenderAttachment,
            s@.view_format_indices.len() == 0,
    {
        let format_index = choose_format_index(srgb);
        let width = if window_width > 1 { window_width } else { 1 };
        let height = if window_height > 1 { window_height } else { 1 };
        SurfaceSettings {
            width,
            height,
            format_index,
            alpha_mode_index: 0,
            frame_latency: DESIRED_MAXIMUM_FRAME_LATENCY,
            present_mode: PresentChoice::Fifo,
            color_space: ColorSpaceChoice::Auto,
            usage: SurfaceUsage::RenderAttachment,
            view_format_indices: Vec::new(),
        }
    }

    /// Takes a new window size. Returns whether the surface must be
    /// reconfigured: only when both sides are non-zero, and then the settings
    /// take the new size; otherwise they stay as they were.
    pub fn resize(&mut self, width: u32, height: u32) -> (reconfigure: bool)
        ensures
            reconfigure == resize_applies(width, height),
            final(self)@ == after_resize(old(self)@, width, height),
            (width == 0 || height == 0) ==> final(self)@ == old(self)@,
            (width > 0 && height > 0) ==> final(self)@ == (SurfaceSettingsView {
                width,
                height,
                ..old(self)@
            }),
    {
        proof {
            use_type_invariant(&*self);
        }
        if width > 0 && height > 0 {
            self.width = width;
            self.height = height;
            true
        } else {
            false
        }
    }

    /// Width of the surface, never zero.
    pub fn width(&self) -> (w: u32)
        ensures
            w == self@.width,
            w >= 1,
    {
        proof {
            use_type_invariant(self);
        }
        self.width
    }

    /// Height of the surface, never zero.
    pub fn height(&self) -> (h: u32)
        ensures
            h == self@.height,
            h >= 1,
    {
        proof {
            use_type_invariant(self);
        }
        self.height
    }

    /// Index, in the formats the GPU reported, of the format in use.
    pub fn format_index(&self) -> (i: usize)
        ensures
            i == self@.format_index,
    {
        self.format_index
    }

    /// Index, in the alpha modes the GPU reported, of the alpha mode in use.
    pub fn alpha_mode_index(&self) -> (i: usize)
        ensures
            i == self@.alpha_mode_index,
    {
        self.alpha_mode_index
    }

    /// How presented frames are paced.
    pub fn present_mode(&self) -> (m: PresentChoice)
        ensures
            m == self@.present_mode,
    {
        self.present_mode
    }

    /// The colour space frames are presented in.
    pub fn color_space(&self) -> (c: ColorSpaceChoice)
        ensures
            c == self@.color_space,
    {
        self.color_space
    }

    /// What the surface's textures are used for.
    pub fn usage(&self) -> (u: SurfaceUsage)
        ensures
            u == self@.usage,
    {
        self.usage
    }

    /// Indices, in the formats the GPU reported, of the extra view formats.
    pub fn view_format_indices(&self) -> (v: &Vec<usize>)
        ensures
            v@ == self@.view_format_indices,
    {
        &self.view_format_indices
    }

    /// Frames the presentation engine may queue ahead.
    pub fn frame_latency(&self) -> (n: u32)
        ensures
            n == self@.frame_latency,
    {
        self.frame_latency
    }
}

/// A side is at least one pixel: a non-zero side is kept exactly as the
/// window reports it, a zero side becomes one.
pub proof fn lemma_at_least_one_keeps_nonzero_sides(side: u32)
    ensures
        side >= 1 ==> at_least_one(side) == side,
        side == 0 ==> at_least_one(side) == 1,
        at_least_one(side) >= 1,
        at_least_one(side) >= side,
{
}

/// A resize with a zero side leaves the settings exactly as they were; a
/// resize with both sides non-zero sets exactly that size and nothing else.
pub proof fn lemma_resize_exact(s: SurfaceSettingsView, width: u32, height: u32)
    ensures
        (width == 0 || height == 0) ==> after_resize(s, width, height) == s,
        (width == 0 || height == 0) ==> !resize_applies(width, height),
        (width > 0 && height > 0) ==> resize_applies(width, height),
        (width > 0 && height > 0) ==> after_resize(s, width, height) == (SurfaceSettingsView {
            width,
            height,
            ..s
        }),
{
}

/// Resizing twice to the same size is the same as resizing once.
pub proof fn lemma_resize_idempotent(s: SurfaceSettingsView, width: u32, height: u32)
    ensures
        after_resize(after_resize(s, width, height), width, height) == after_resize(s, width, height),
{
}

/// The latest applied resize decides the size: an applied resize to
/// `w2` x `h2` gives the same settings whatever resize came before it.
pub proof fn lemma_last_resize_wins(s: SurfaceSettingsView, w1: u32, h1: u32, w2: u32, h2: u32)
    requires
        resize_applies(w2, h2),
    ensures
        after_resize(after_resize(s, w1, h1), w2, h2) == after_resize(s, w2, h2),
        after_resize(after_resize(s, w1, h1), w2, h2).width == w2,
        after_resize(after_resize(s, w1, h1), w2, h2).height == h2,
{
}

/// A resize never changes anything but the size: format, alpha mode, frame
/// latency, present mode, colour space, usage and view formats stay; and it
/// never gives a zero side to settings that had none.
pub proof fn lemma_resize_keeps_choices(s: SurfaceSettingsView, width: u32, height: u32)
    requires
        s.width >= 1,
        s.height >= 1,
    ensures
        after_resize(s, width, height).format_index == s.format_index,
        after_resize(s, width, height).alpha_mode_index == s.alpha_mode_index,
        after_resize(s, width, height).frame_latency == s.frame_latency,
        after_resize(s, width, height).present_mode == s.present_mode,
        after_resize(s, width, height).color_space == s.color_space,
        after_resize(s, width, height).usage == s.usage,
        after_resize(s, width, height).view_format_indices == s.view_format_indices,
        after_resize(s, width, height).width >= 1,
        after_resize(s, width, height).height >= 1,
{
}

/// The format choice prefers sRGB: when some supported format is sRGB, the
/// chosen one is, and no sRGB format comes before it.
pub proof fn lemma_format_prefers_srgb(srgb: Seq<bool>, i: int, j: int)
    requires
        is_chosen_format(srgb, i),
        0 <= j < srgb.len(),
        srgb[j],
    ensures
        srgb[i],
        i <= j,
{
}

/// What the GPU answered when asked for the next surface texture.
#[derive(Clone, Copy, Debug, PartialEq, Eq)]
pub enum SurfaceAcquire {
    Success,
    Suboptimal,
    Timeout,
    Occluded,
    Outdated,
    Lost,
    Validation,
}

/// Whether a frame can be drawn on the texture obtained: it can when the
/// texture was obtained, optimal or not; any other answer fails the frame.
pub fn texture_acquired(status: SurfaceAcquire) -> (ok: bool)
    ensures
        ok == (status == SurfaceAcquire::Success || status == SurfaceAcquire::Suboptimal),
{
    match status {
        SurfaceAcquire::Success | SurfaceAcquire::Suboptimal => true,
        _ => false,
    }
}

} // verus!
