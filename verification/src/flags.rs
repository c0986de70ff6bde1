//! Window flags and the Win32 window styles they stand for.
//!
//! A [`WindowFlags`] value is a bit pattern. Each flag is one bit of it, given
//! as a `u32` mask; the three `*_AND_MASK` constants are masks of many bits,
//! meant to be intersected with a pattern. [`WindowFlags::to_window_styles`]
//! turns the nine flags that have a meaning for the window manager into the
//! `dwStyle` and `dwExStyle` words of `CreateWindowExW`.

use vstd::prelude::*;

verus! {

pub const WS_CHILD: u32 = 0x4000_0000;

pub const WS_VISIBLE: u32 = 0x1000_0000;

pub const WS_CLIPSIBLINGS: u32 = 0x0400_0000;

pub const WS_CLIPCHILDREN: u32 = 0x0200_0000;

pub const WS_MAXIMIZE: u32 = 0x0100_0000;

pub const WS_CAPTION: u32 = 0x00C0_0000;

pub const WS_BORDER: u32 = 0x0080_0000;

pub const WS_SYSMENU: u32 = 0x0008_0000;

pub const WS_SIZEBOX: u32 = 0x0004_0000;

pub const WS_MINIMIZEBOX: u32 = 0x0002_0000;

pub const WS_MAXIMIZEBOX: u32 = 0x0001_0000;

pub const WS_EX_TOPMOST: u32 = 0x0000_0008;

pub const WS_EX_ACCEPTFILES: u32 = 0x0000_0010;

pub const WS_EX_WINDOWEDGE: u32 = 0x0000_0100;

pub const WS_EX_APPWINDOW: u32 = 0x0004_0000;

pub const WS_EX_LAYERED: u32 = 0x0008_0000;

pub const WS_EX_NOREDIRECTIONBITMAP: u32 = 0x0020_0000;

/// The style bits that every window gets, whatever its flags.
pub const BASE_STYLE: u32 = WS_CLIPSIBLINGS | WS_CLIPCHILDREN | WS_SYSMENU;

/// The extended style bits that every window gets, whatever its flags.
pub const BASE_EX_STYLE: u32 = WS_EX_ACCEPTFILES;

/// The nine flags that [`WindowFlags::to_window_styles`] reads.
pub const STYLE_FLAGS: u32 = 0x01FF;

/// A set of window flags, held as a bit pattern.
///
/// Every pattern of 32 bits is a value of this type: the masks among the
/// constants cover the bits that no single flag names.
#[derive(Clone, Copy, Debug, PartialEq, Eq, Structural)]
pub struct WindowFlags {
    bits: u32,
}

/// True if `bits` holds every bit of `mask`.
pub open spec fn holds(bits: u32, mask: u32) -> bool {
    bits & mask == mask
}

/// What a flag adds to a style word: `style` if `bits` holds `flag`, else nothing.
pub open spec fn contribution(bits: u32, flag: u32, style: u32) -> u32 {
    if holds(bits, flag) {
        style
    } else {
        0
    }
}

/// The `dwStyle` word for a pattern of flags.
pub open spec fn style_of(bits: u32) -> u32 {
    contribution(bits, WindowFlags::RESIZABLE, WS_SIZEBOX | WS_MAXIMIZEBOX)
        | contribution(bits, WindowFlags::DECORATIONS, WS_CAPTION | WS_MINIMIZEBOX | WS_BORDER)
        | contribution(bits, WindowFlags::VISIBLE, WS_VISIBLE)
        | contribution(bits, WindowFlags::CHILD, WS_CHILD)
        | contribution(bits, WindowFlags::MAXIMIZED, WS_MAXIMIZE)
        | BASE_STYLE
}

/// The `dwExStyle` word for a pattern of flags.
pub open spec fn ex_style_of(bits: u32) -> u32 {
    contribution(bits, WindowFlags::DECORATIONS, WS_EX_WINDOWEDGE)
        | contribution(bits, WindowFlags::ON_TASKBAR, WS_EX_APPWINDOW)
        | contribution(bits, WindowFlags::ALWAYS_ON_TOP, WS_EX_TOPMOST)
        | contribution(bits, WindowFlags::NO_BACK_BUFFER, WS_EX_NOREDIRECTIONBITMAP)
        | contribution(bits, WindowFlags::TRANSPARENT, WS_EX_LAYERED)
        | BASE_EX_STYLE
}

/// The pattern after `mask` was switched on (`value`) or off in `bits`.
pub open spec fn with_flag(bits: u32, mask: u32, value: bool) -> u32 {
    if value {
        bits | mask
    } else {
        bits & !mask
    }
}

impl WindowFlags {
    pub const RESIZABLE: u32 = 0x0001;

    pub const DECORATIONS: u32 = 0x0002;

    pub const VISIBLE: u32 = 0x0004;

    pub const ON_TASKBAR: u32 = 0x0008;

    pub const ALWAYS_ON_TOP: u32 = 0x0010;

    pub const NO_BACK_BUFFER: u32 = 0x0020;

    pub const TRANSPARENT: u32 = 0x0040;

    pub const CHILD: u32 = 0x0080;

    pub const MAXIMIZED: u32 = 0x0100;

    /// Marker flag for fullscreen, kept among the flags to make masking easier.
    pub const MARKER_FULLSCREEN: u32 = 0x0200;

    /// Marker flag: a resize message must not change the stored flags.
    pub const MARKER_RETAIN_STATE_ON_SIZE: u32 = 0x0400;

    /// Everything but `DECORATIONS`, `RESIZABLE` and `MAXIMIZED`.
    pub const FULLSCREEN_AND_MASK: u32 = 0xFFFF_FEFC;

    /// Everything but `RESIZABLE`.
    pub const NO_DECORATIONS_AND_MASK: u32 = 0xFFFF_FFFE;

    /// Everything but `MAXIMIZED`.
    pub const INVISIBLE_AND_MASK: u32 = 0xFFFF_FEFF;

    /// The bit pattern of the flags.
    pub closed spec fn view(self) -> u32 {
        self.bits
    }

    /// No flag at all.
    pub fn empty() -> (flags: WindowFlags)
        ensures
            flags@ == 0,
    {
        WindowFlags { bits: 0 }
    }

    /// The flags with exactly the bits of `bits`.
    pub fn from_bits_truncate(bits: u32) -> (flags: WindowFlags)
        ensures
            flags@ == bits,
    {
        WindowFlags { bits }
    }

    /// The bit pattern.
    pub fn bits(&self) -> (bits: u32)
        ensures
            bits == self@,
    {
        self.bits
    }

    /// True if every bit of `mask` is held.
    pub fn contains(&self, mask: u32) -> (held: bool)
        ensures
            held == holds(self@, mask),
    {
        self.bits & mask == mask
    }

    /// Switches the bits of `mask` on.
    pub fn insert(&mut self, mask: u32)
        ensures
            final(self)@ == old(self)@ | mask,
    {
        self.bits = self.bits | mask;
    }

    /// Switches the bits of `mask` off.
    pub fn remove(&mut self, mask: u32)
        ensures
            final(self)@ == old(self)@ & !mask,
    {
        self.bits = self.bits & !mask;
    }

    /// Switches the bits of `mask` on if `value` is true, off if not.
    pub fn set(&mut self, mask: u32, value: bool)
        ensures
            final(self)@ == with_flag(old(self)@, mask, value),
    {
        if value {
            self.insert(mask);
        } else {
            self.remove(mask);
        }
    }

    /// The window style and the extended window style for these flags.
    ///
    /// Each flag held adds its own bits to one or both words; the base styles
    /// are always there; the two marker flags and the bits above them add
    /// nothing.
    pub fn to_window_styles(self) -> (styles: (u32, u32))
        ensures
            styles.0 == style_of(self@),
            styles.1 == ex_style_of(self@),
    {
        let resizable: u32 = if self.contains(WindowFlags::RESIZABLE) {
            WS_SIZEBOX | WS_MAXIMIZEBOX
        } else {
            0
        };
        let decorations: u32 = if self.contains(WindowFlags::DECORATIONS) {
            WS_CAPTION | WS_MINIMIZEBOX | WS_BORDER
        } else {
            0
        };
        let window_edge: u32 = if self.contains(WindowFlags::DECORATIONS) {
            WS_EX_WINDOWEDGE
        } else {
            0
        };
        let visible: u32 = if self.contains(WindowFlags::VISIBLE) {
            WS_VISIBLE
        } else {
            0
        };
        let on_taskbar: u32 = if self.contains(WindowFlags::ON_TASKBAR) {
            WS_EX_APPWINDOW
        } else {
            0
        };
        let always_on_top: u32 = if self.contains(WindowFlags::ALWAYS_ON_TOP) {
            WS_EX_TOPMOST
        } else {
            0
        };
        let no_back_buffer: u32 = if self.contains(WindowFlags::NO_BACK_BUFFER) {
            WS_EX_NOREDIRECTIONBITMAP
        } else {
            0
        };
        let transparent: u32 = if self.contains(WindowFlags::TRANSPARENT) {
            WS_EX_LAYERED
        } else {
            0
        };
        let child: u32 = if self.contains(WindowFlags::CHILD) {
            WS_CHILD
        } else {
            0
        };
        let maximized: u32 = if self.contains(WindowFlags::MAXIMIZED) {
            WS_MAXIMIZE
        } else {
            0
        };
        let style = resizable | decorations | visible | child | maximized | BASE_STYLE;
        let style_ex = window_edge | on_taskbar | always_on_top | no_back_buffer | transparent
            | BASE_EX_STYLE;
        (style, style_ex)
    }
}

/// The three masks are the complements of the flags that they leave out.
pub proof fn lemma_masks_are_complements()
    by (bit_vector)
    ensures
        WindowFlags::FULLSCREEN_AND_MASK == !(WindowFlags::DECORATIONS | WindowFlags::RESIZABLE
            | WindowFlags::MAXIMIZED),
        WindowFlags::NO_DECORATIONS_AND_MASK == !WindowFlags::RESIZABLE,
        WindowFlags::INVISIBLE_AND_MASK == !WindowFlags::MAXIMIZED,
{
}

/// Switching a mask on or off and then asking for it gives back the switch,
/// for every mask that has a bit at all.
pub proof fn lemma_set_then_contains(bits: u32, mask: u32, value: bool)
    by (bit_vector)
    requires
        mask != 0,
    ensures
        holds(with_flag(bits, mask, value), mask) == value,
{
}

/// Switching a mask leaves every flag alone that shares no bit with it.
pub proof fn lemma_set_keeps_others(bits: u32, mask: u32, value: bool, other: u32)
    by (bit_vector)
    requires
        mask & other == 0,
    ensures
        holds(with_flag(bits, mask, value), other) == holds(bits, other),
{
}

/// The styles read the nine style flags and nothing else.
pub proof fn lemma_styles_read_style_flags(bits: u32)
    by (bit_vector)
    ensures
        style_of(bits) == style_of(bits & STYLE_FLAGS),
        ex_style_of(bits) == ex_style_of(bits & STYLE_FLAGS),
{
}

/// Which flag is held can be read off the two style words: the bits that a
/// flag adds are all there if the flag is held, and none of them is there if
/// it is not. The base styles are there always.
pub proof fn lemma_styles_show_flags(bits: u32)
    by (bit_vector)
    ensures
        holds(style_of(bits), BASE_STYLE),
        holds(ex_style_of(bits), BASE_EX_STYLE),
        holds(bits, WindowFlags::RESIZABLE) <==> holds(style_of(bits), WS_SIZEBOX | WS_MAXIMIZEBOX),
        holds(bits, WindowFlags::RESIZABLE) <==> style_of(bits) & (WS_SIZEBOX | WS_MAXIMIZEBOX)
            != 0,
        holds(bits, WindowFlags::DECORATIONS) <==> holds(
            style_of(bits),
            WS_CAPTION | WS_MINIMIZEBOX | WS_BORDER,
        ),
        holds(bits, WindowFlags::DECORATIONS) <==> style_of(bits) & (WS_CAPTION | WS_MINIMIZEBOX
            | WS_BORDER) != 0,
        holds(bits, WindowFlags::DECORATIONS) <==> holds(ex_style_of(bits), WS_EX_WINDOWEDGE),
        holds(bits, WindowFlags::VISIBLE) <==> holds(style_of(bits), WS_VISIBLE),
        holds(bits, WindowFlags::CHILD) <==> holds(style_of(bits), WS_CHILD),
        holds(bits, WindowFlags::MAXIMIZED) <==> holds(style_of(bits), WS_MAXIMIZE),
        holds(bits, WindowFlags::ON_TASKBAR) <==> holds(ex_style_of(bits), WS_EX_APPWINDOW),
        holds(bits, WindowFlags::ALWAYS_ON_TOP) <==> holds(ex_style_of(bits), WS_EX_TOPMOST),
        holds(bits, WindowFlags::NO_BACK_BUFFER) <==> holds(
            ex_style_of(bits),
            WS_EX_NOREDIRECTIONBITMAP,
        ),
        holds(bits, WindowFlags::TRANSPARENT) <==> holds(ex_style_of(bits), WS_EX_LAYERED),
{
}

/// Two patterns get the same pair of style words exactly when they agree on the
/// nine style flags.
pub proof fn lemma_styles_tell_style_flags_apart(a: u32, b: u32)
    by (bit_vector)
    ensures
        (style_of(a) == style_of(b) && ex_style_of(a) == ex_style_of(b)) <==> (a & STYLE_FLAGS == b
            & STYLE_FLAGS),
{
}

/// The styles hold no bit but those that some flag adds and the base styles.
pub proof fn lemma_styles_hold_nothing_else(bits: u32)
    by (bit_vector)
    ensures
        style_of(bits) & !(WS_SIZEBOX | WS_MAXIMIZEBOX | WS_CAPTION | WS_MINIMIZEBOX | WS_BORDER
            | WS_VISIBLE | WS_CHILD | WS_MAXIMIZE | BASE_STYLE) == 0,
        ex_style_of(bits) & !(WS_EX_WINDOWEDGE | WS_EX_APPWINDOW | WS_EX_TOPMOST
            | WS_EX_NOREDIRECTIONBITMAP | WS_EX_LAYERED | BASE_EX_STYLE) == 0,
{
}

} // verus!
