use winshape::flags::WindowFlags;
use winshape::flags::{
    BASE_EX_STYLE, BASE_STYLE, STYLE_FLAGS, WS_BORDER, WS_CAPTION, WS_CHILD, WS_CLIPCHILDREN,
    WS_CLIPSIBLINGS, WS_EX_ACCEPTFILES, WS_EX_APPWINDOW, WS_EX_LAYERED,
    WS_EX_NOREDIRECTIONBITMAP, WS_EX_TOPMOST, WS_EX_WINDOWEDGE, WS_MAXIMIZE, WS_MAXIMIZEBOX,
    WS_MINIMIZEBOX, WS_SIZEBOX, WS_SYSMENU, WS_VISIBLE,
};

fn styles_of(bits: u32) -> (u32, u32) {
    WindowFlags::from_bits_truncate(bits).to_window_styles()
}

#[test]
fn style_constants_have_their_win32_values() {
    assert_eq!(WS_CHILD, 0x4000_0000);
    assert_eq!(WS_VISIBLE, 0x1000_0000);
    assert_eq!(WS_CLIPSIBLINGS, 0x0400_0000);
    assert_eq!(WS_CLIPCHILDREN, 0x0200_0000);
    assert_eq!(WS_MAXIMIZE, 0x0100_0000);
    assert_eq!(WS_CAPTION, 0x00C0_0000);
    assert_eq!(WS_BORDER, 0x0080_0000);
    assert_eq!(WS_SYSMENU, 0x0008_0000);
    assert_eq!(WS_SIZEBOX, 0x0004_0000);
    assert_eq!(WS_MINIMIZEBOX, 0x0002_0000);
    assert_eq!(WS_MAXIMIZEBOX, 0x0001_0000);
    assert_eq!(WS_EX_TOPMOST, 0x0000_0008);
    assert_eq!(WS_EX_ACCEPTFILES, 0x0000_0010);
    assert_eq!(WS_EX_WINDOWEDGE, 0x0000_0100);
    assert_eq!(WS_EX_APPWINDOW, 0x0004_0000);
    assert_eq!(WS_EX_LAYERED, 0x0008_0000);
    assert_eq!(WS_EX_NOREDIRECTIONBITMAP, 0x0020_0000);
    assert_eq!(BASE_STYLE, 0x0608_0000);
    assert_eq!(BASE_EX_STYLE, 0x0000_0010);
    assert_eq!(STYLE_FLAGS, 0x01FF);
}

#[test]
fn flag_constants_are_single_bits_in_order() {
    let flags = [
        WindowFlags::RESIZABLE,
        WindowFlags::DECORATIONS,
        WindowFlags::VISIBLE,
        WindowFlags::ON_TASKBAR,
        WindowFlags::ALWAYS_ON_TOP,
        WindowFlags::NO_BACK_BUFFER,
        WindowFlags::TRANSPARENT,
        WindowFlags::CHILD,
        WindowFlags::MAXIMIZED,
        WindowFlags::MARKER_FULLSCREEN,
        WindowFlags::MARKER_RETAIN_STATE_ON_SIZE,
    ];
    for (place, flag) in flags.iter().enumerate() {
        assert_eq!(*flag, 1u32 << place);
    }
}

#[test]
fn masks_are_complements_of_the_flags_they_leave_out() {
    assert_eq!(
        WindowFlags::FULLSCREEN_AND_MASK,
        !(WindowFlags::DECORATIONS | WindowFlags::RESIZABLE | WindowFlags::MAXIMIZED)
    );
    assert_eq!(WindowFlags::NO_DECORATIONS_AND_MASK, !WindowFlags::RESIZABLE);
    assert_eq!(WindowFlags::INVISIBLE_AND_MASK, !WindowFlags::MAXIMIZED);
}

#[test]
fn empty_flags_give_base_styles() {
    let empty = WindowFlags::empty();
    assert_eq!(empty.bits(), 0);
    let (style, style_ex) = empty.to_window_styles();
    assert_eq!(style, WS_CLIPSIBLINGS | WS_CLIPCHILDREN | WS_SYSMENU);
    assert_eq!(style_ex, WS_EX_ACCEPTFILES);
}

#[test]
fn each_flag_adds_its_own_styles() {
    let base = BASE_STYLE;
    let base_ex = BASE_EX_STYLE;
    assert_eq!(
        styles_of(WindowFlags::RESIZABLE),
        (base | WS_SIZEBOX | WS_MAXIMIZEBOX, base_ex)
    );
    assert_eq!(
        styles_of(WindowFlags::DECORATIONS),
        (base | WS_CAPTION | WS_MINIMIZEBOX | WS_BORDER, base_ex | WS_EX_WINDOWEDGE)
    );
    assert_eq!(styles_of(WindowFlags::VISIBLE), (base | WS_VISIBLE, base_ex));
    assert_eq!(styles_of(WindowFlags::ON_TASKBAR), (base, base_ex | WS_EX_APPWINDOW));
    assert_eq!(styles_of(WindowFlags::ALWAYS_ON_TOP), (base, base_ex | WS_EX_TOPMOST));
    assert_eq!(
        styles_of(WindowFlags::NO_BACK_BUFFER),
        (base, base_ex | WS_EX_NOREDIRECTIONBITMAP)
    );
    assert_eq!(styles_of(WindowFlags::TRANSPARENT), (base, base_ex | WS_EX_LAYERED));
    assert_eq!(styles_of(WindowFlags::CHILD), (base | WS_CHILD, base_ex));
    assert_eq!(styles_of(WindowFlags::MAXIMIZED), (base | WS_MAXIMIZE, base_ex));
}

#[test]
fn decorated_resizable_window_on_the_taskbar() {
    let bits = WindowFlags::DECORATIONS | WindowFlags::RESIZABLE | WindowFlags::ON_TASKBAR;
    assert_eq!(styles_of(bits), (0x06CF_0000, 0x0004_0110));
}

#[test]
fn all_style_flags_give_all_styles() {
    assert_eq!(styles_of(STYLE_FLAGS), (0x57CF_0000, 0x002C_0118));
    assert_eq!(styles_of(0xFFFF_FFFF), (0x57CF_0000, 0x002C_0118));
}

#[test]
fn markers_and_higher_bits_add_nothing() {
    let none = (BASE_STYLE, BASE_EX_STYLE);
    assert_eq!(styles_of(WindowFlags::MARKER_FULLSCREEN), none);
    assert_eq!(styles_of(WindowFlags::MARKER_RETAIN_STATE_ON_SIZE), none);
    assert_eq!(styles_of(0xFFFF_FE00), none);
}

#[test]
fn styles_tell_every_pattern_of_style_flags_apart() {
    let mut seen = std::collections::HashSet::new();
    for bits in 0..=STYLE_FLAGS {
        assert!(seen.insert(styles_of(bits)));
        assert_eq!(styles_of(bits), styles_of(bits | 0xABCD_0600));
    }
    assert_eq!(seen.len(), 512);
}

#[test]
fn insert_remove_and_set_change_the_bits_of_the_mask_only() {
    let mut flags = WindowFlags::from_bits_truncate(0x0F0F_0F0F);
    assert_eq!(flags.bits(), 0x0F0F_0F0F);
    flags.insert(0x0000_00F0);
    assert_eq!(flags.bits(), 0x0F0F_0FFF);
    flags.remove(0x0F00_000F);
    assert_eq!(flags.bits(), 0x000F_0FF0);
    flags.set(WindowFlags::RESIZABLE, true);
    assert_eq!(flags.bits(), 0x000F_0FF1);
    flags.set(WindowFlags::RESIZABLE, true);
    assert_eq!(flags.bits(), 0x000F_0FF1);
    flags.set(WindowFlags::RESIZABLE, false);
    assert_eq!(flags.bits(), 0x000F_0FF0);
    flags.set(WindowFlags::RESIZABLE, false);
    assert_eq!(flags.bits(), 0x000F_0FF0);
}

#[test]
fn contains_asks_for_every_bit_of_the_mask() {
    let flags = WindowFlags::from_bits_truncate(WindowFlags::VISIBLE | WindowFlags::CHILD);
    assert!(flags.contains(WindowFlags::VISIBLE));
    assert!(flags.contains(WindowFlags::CHILD));
    assert!(flags.contains(WindowFlags::VISIBLE | WindowFlags::CHILD));
    assert!(!flags.contains(WindowFlags::VISIBLE | WindowFlags::MAXIMIZED));
    assert!(!flags.contains(WindowFlags::RESIZABLE));
    assert!(flags.contains(0));
    assert!(WindowFlags::empty().contains(0));
    assert!(!WindowFlags::empty().contains(WindowFlags::VISIBLE));
}

#[test]
fn set_then_contains_gives_the_switch_back() {
    for start in [0u32, 0x01FF, 0xFFFF_FFFF, 0x0000_0155] {
        for place in 0..11 {
            let mask = 1u32 << place;
            for value in [true, false] {
                let mut flags = WindowFlags::from_bits_truncate(start);
                flags.set(mask, value);
                assert_eq!(flags.contains(mask), value);
                assert_eq!(flags.bits() & !mask, start & !mask);
            }
        }
    }
}
