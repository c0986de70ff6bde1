//! The attributes that a window is asked for, and what `CreateWindowExW` is
//! given for them.

use vstd::prelude::*;
use vstd::string::StringExecFns;
use crate::flags::ex_style_of;
use crate::flags::holds;
use crate::flags::STYLE_FLAGS;
use crate::flags::style_of;
use crate::flags::with_flag;
use crate::flags::WindowFlags;
use crate::icon::Icon;
use crate::wide::encode_wide_null;
use crate::wide::utf16_of;

verus! {

/// Attributes to use when creating a window. Sizes are of type `S`: they are
/// carried along and never looked into.
#[derive(Debug, Clone)]
pub struct WindowAttributes<S> {
    /// The dimensions of the window. If this is `None`, some
    /// platform-specific dimensions will be used.
    ///
    /// The default is `None`.
    pub dimensions: Option<S>,
    /// The minimum dimensions a window can be. If this is `None`, the window
    /// will have no minimum dimensions.
    ///
    /// The default is `None`.
    pub min_dimensions: Option<S>,
    /// The maximum dimensions a window can be. If this is `None`, the window
    /// will have no maximum, or the platform will set one.
    ///
    /// The default is `None`.
    pub max_dimensions: Option<S>,
    /// Whether the window is resizable or not.
    ///
    /// The default is `true`.
    pub resizable: bool,
    /// The title of the window in the title bar.
    ///
    /// The default is `"winit window"`.
    pub title: String,
    /// Whether the window should be maximized upon creation.
    ///
    /// The default is `false`.
    pub maximized: bool,
    /// Whether the window should be immediately visible upon creation.
    ///
    /// The default is `true`.
    pub visible: bool,
    /// Whether the window should be transparent.
    ///
    /// The default is `false`.
    pub transparent: bool,
    /// Whether the window should have borders and bars.
    ///
    /// The default is `true`.
    pub decorations: bool,
    /// Whether the window should always be on top of other windows.
    ///
    /// The default is `false`.
    pub always_on_top: bool,
    /// The window icon.
    ///
    /// The default is `None`.
    pub window_icon: Option<Icon>,
}

impl<S> Default for WindowAttributes<S> {
    fn default() -> (attributes: WindowAttributes<S>)
        ensures
            attributes.dimensions is None,
            attributes.min_dimensions is None,
            attributes.max_dimensions is None,
            attributes.resizable,
            attributes.title@ == "winit window"@,
            !attributes.maximized,
            attributes.visible,
            !attributes.transparent,
            attributes.decorations,
            !attributes.always_on_top,
            attributes.window_icon is None,
    {
        WindowAttributes {
            dimensions: None,
            min_dimensions: None,
            max_dimensions: None,
            resizable: true,
            title: String::from_str("winit window"),
            maximized: false,
            visible: true,
            transparent: false,
            decorations: true,
            always_on_top: false,
            window_icon: None,
        }
    }
}

/// The attributes of a window that only Windows knows.
#[derive(Debug, Clone)]
pub struct PlatformSpecificWindowBuilderAttributes {
    /// The handle of the window that the new one is a child of.
    pub parent: Option<isize>,
    pub taskbar_icon: Option<Icon>,
    pub no_redirection_bitmap: bool,
}

impl Default for PlatformSpecificWindowBuilderAttributes {
    fn default() -> (attributes: PlatformSpecificWindowBuilderAttributes)
        ensures
            attributes.parent is None,
            attributes.taskbar_icon is None,
            !attributes.no_redirection_bitmap,
    {
        PlatformSpecificWindowBuilderAttributes {
            parent: None,
            taskbar_icon: None,
            no_redirection_bitmap: false,
        }
    }
}

/// The name of the window class that every window is made of.
pub open spec fn class_name_text() -> Seq<char> {
    "Window Class"@
}

/// The bits of `flag` if `wanted`, no bit if not.
pub open spec fn flag_if(wanted: bool, flag: u32) -> u32 {
    if wanted {
        flag
    } else {
        0
    }
}

/// The flags that a window is created with: one for each of the attributes
/// that has a flag, and `ON_TASKBAR` always. `VISIBLE` and `MAXIMIZED` are not
/// among them, whatever the attributes say: a window is shown and maximized
/// after it was made.
pub open spec fn creation_flags<S>(
    w_attr: WindowAttributes<S>,
    pl_attr: PlatformSpecificWindowBuilderAttributes,
) -> u32 {
    flags_for(
        w_attr.decorations,
        w_attr.always_on_top,
        pl_attr.no_redirection_bitmap,
        w_attr.transparent,
        w_attr.resizable,
        pl_attr.parent is Some,
    )
}

/// The creation flags for the six attributes that have a flag.
pub open spec fn flags_for(
    decorations: bool,
    always_on_top: bool,
    no_back_buffer: bool,
    transparent: bool,
    resizable: bool,
    child: bool,
) -> u32 {
    flag_if(decorations, WindowFlags::DECORATIONS) | flag_if(
        always_on_top,
        WindowFlags::ALWAYS_ON_TOP,
    ) | flag_if(no_back_buffer, WindowFlags::NO_BACK_BUFFER) | flag_if(
        transparent,
        WindowFlags::TRANSPARENT,
    ) | flag_if(resizable, WindowFlags::RESIZABLE) | flag_if(child, WindowFlags::CHILD)
        | WindowFlags::ON_TASKBAR
}

/// The flags that a window is created with.
pub fn window_flags<S>(
    w_attr: &WindowAttributes<S>,
    pl_attr: &PlatformSpecificWindowBuilderAttributes,
) -> (flags: WindowFlags)
    ensures
        flags@ == creation_flags(*w_attr, *pl_attr),
{
    let mut window_flags = WindowFlags::empty();
    window_flags.set(WindowFlags::DECORATIONS, w_attr.decorations);
    window_flags.set(WindowFlags::ALWAYS_ON_TOP, w_attr.always_on_top);
    window_flags.set(WindowFlags::NO_BACK_BUFFER, pl_attr.no_redirection_bitmap);
    window_flags.set(WindowFlags::TRANSPARENT, w_attr.transparent);
    window_flags.set(WindowFlags::RESIZABLE, w_attr.resizable);
    window_flags.set(WindowFlags::CHILD, pl_attr.parent.is_some());
    window_flags.set(WindowFlags::ON_TASKBAR, true);
    proof {
        lemma_flags_set_one_by_one(
            w_attr.decorations,
            w_attr.always_on_top,
            pl_attr.no_redirection_bitmap,
            w_attr.transparent,
            w_attr.resizable,
            pl_attr.parent is Some,
        );
    }
    window_flags
}

/// Setting the seven flags one after the other, from no flag at all, gives
/// the creation flags.
proof fn lemma_flags_set_one_by_one(
    decorations: bool,
    always_on_top: bool,
    no_back_buffer: bool,
    transparent: bool,
    resizable: bool,
    child: bool,
)
    by (bit_vector)
    ensures
        with_flag(
            with_flag(
                with_flag(
                    with_flag(
                        with_flag(
                            with_flag(
                                with_flag(0, WindowFlags::DECORATIONS, decorations),
                                WindowFlags::ALWAYS_ON_TOP,
                                always_on_top,
                            ),
                            WindowFlags::NO_BACK_BUFFER,
                            no_back_buffer,
                        ),
                        WindowFlags::TRANSPARENT,
                        transparent,
                    ),
                    WindowFlags::RESIZABLE,
                    resizable,
                ),
                WindowFlags::CHILD,
                child,
            ),
            WindowFlags::ON_TASKBAR,
            true,
        ) == flags_for(decorations, always_on_top, no_back_buffer, transparent, resizable, child),
{
}

/// Each of the six attributes can be read off the creation flags; the task
/// bar flag is always among them, and the flags for a visible and for a
/// maximized window and the two markers never are.
pub proof fn lemma_creation_flags_show_attributes(
    decorations: bool,
    always_on_top: bool,
    no_back_buffer: bool,
    transparent: bool,
    resizable: bool,
    child: bool,
)
    by (bit_vector)
    ensures
        ({
            let bits = flags_for(
                decorations,
                always_on_top,
                no_back_buffer,
                transparent,
                resizable,
                child,
            );
            &&& holds(bits, WindowFlags::DECORATIONS) == decorations
            &&& holds(bits, WindowFlags::ALWAYS_ON_TOP) == always_on_top
            &&& holds(bits, WindowFlags::NO_BACK_BUFFER) == no_back_buffer
            &&& holds(bits, WindowFlags::TRANSPARENT) == transparent
            &&& holds(bits, WindowFlags::RESIZABLE) == resizable
            &&& holds(bits, WindowFlags::CHILD) == child
            &&& holds(bits, WindowFlags::ON_TASKBAR)
            &&& !holds(bits, WindowFlags::VISIBLE)
            &&& !holds(bits, WindowFlags::MAXIMIZED)
            &&& !holds(bits, WindowFlags::MARKER_FULLSCREEN)
            &&& !holds(bits, WindowFlags::MARKER_RETAIN_STATE_ON_SIZE)
            &&& bits & STYLE_FLAGS == bits
        }),
{
}

/// What `CreateWindowExW` is given for a window, but for the position and
/// the size, which are left to the system.
#[derive(Debug, Clone)]
pub struct WindowParams {
    pub ex_style: u32,
    /// The name of the window class, with its terminating 0.
    pub class_name: Vec<u16>,
    /// The title, with its terminating 0.
    pub title: Vec<u16>,
    pub style: u32,
    /// The handle of the parent window, 0 where there is none.
    pub parent: isize,
}

/// The name of the window class as a wide string with its terminating 0.
pub fn class_name() -> (name: Vec<u16>)
    ensures
        name@ == utf16_of(class_name_text()).push(0),
{
    encode_wide_null("Window Class")
}

impl WindowParams {
    /// The parameters for a window with the given attributes: the styles of
    /// its creation flags, the class name and the title as wide strings, and
    /// the parent's handle.
    pub fn new<S>(
        w_attr: &WindowAttributes<S>,
        pl_attr: &PlatformSpecificWindowBuilderAttributes,
    ) -> (params: WindowParams)
        ensures
            params.style == style_of(creation_flags(*w_attr, *pl_attr)),
            params.ex_style == ex_style_of(creation_flags(*w_attr, *pl_attr)),
            params.class_name@ == utf16_of(class_name_text()).push(0),
            params.title@ == utf16_of(w_attr.title@).push(0),
            params.parent == match pl_attr.parent {
                Some(handle) => handle,
                None => 0,
            },
    {
        let (style, ex_style) = window_flags(w_attr, pl_attr).to_window_styles();
        let parent = match pl_attr.parent {
            Some(handle) => handle,
            None => 0,
        };
        WindowParams {
            ex_style,
            class_name: class_name(),
            title: encode_wide_null(w_attr.title.as_str()),
            style,
            parent,
        }
    }
}

} // verus!
