use kursor::cli::{click, parse_button, UnknownButton};
use kursor::config::{
    action_key, btn_code, cell_label, cursor_speed, hid_button_code, l1_key, l1_key_pos, l2_key,
    l2_key_pos, l3_key, l3_key_pos, MouseButton, BTN_LEFT, BTN_MIDDLE, BTN_RIGHT, DEV_ABS, DEV_KBD,
    DEV_PTR, DEV_REL, SERVICE,
};
use kursor::debug::clone_monitors;
use kursor::device::linux::abi::{
    abs_axis_setup, device_event_types, device_rel_codes, release_all_events, uinput_name, RawEvent, ABS_X, EV_KEY, EV_REL, EV_SYN, SYN_REPORT,
};
use kursor::device::linux::input::{
    contains_name, count_keys, eviocgbit, eviocgname, has_key, is_keyboard, is_own_name,
    is_suitable,
    rescan_keep,
};
use kursor::device::pointer::{
    button_events, click_step, move_rel_events, scroll_events, side_events, KbdOut, PointerAction, ScrollAxis,
    SideButton,
};
use kursor::device::windows::keyboard::{letter_key, vk_to_evdev};
use kursor::keymap::{
    key_map, ModState, KEY_0, KEY_1, KEY_A, KEY_APOSTROPHE, KEY_BACKSPACE, KEY_CAPSLOCK, KEY_D, KEY_ENTER, KEY_ESC,
    KEY_H, KEY_J, KEY_K, KEY_KP5, KEY_KP7, KEY_KP8, KEY_KPASTERISK, KEY_KPENTER, KEY_KPPLUS,
    KEY_L, KEY_LEFTALT, KEY_LEFTMETA, KEY_LEFTSHIFT, KEY_N, KEY_NUMLOCK, KEY_P, KEY_Q,
    KEY_RIGHTMETA, KEY_RIGHTSHIFT, KEY_SPACE, KEY_TAB, KEY_U, KEY_W, KEY_Z,
};
use kursor::kpnav::{KpNav, Kpd};
use kursor::overlay::kde::{parse_coords, parse_script_id};
use kursor::overlay::windows::encode_wide;
use kursor::overlay::wlr::{rgba_to_bgra, shm_layout};
use kursor::overlay::x11::rgba_to_x11_pixels;
use kursor::overlay::{monitor_at, mouse_extent, screen_size, Monitor};
use kursor::render::{blend, block_coverage};
use kursor::service::dir::{direction_tick, update_dir, Dir, DIR_LEFT, DIR_UP, DIR_UP_LEFT};
use kursor::service::glide_alpha::{release_keys, GlideAlpha};
use kursor::service::glide_num::GlideNum;
use kursor::service::grid::{
    next_monitor, nav_key, region_parts, select_key, GridCtx, GridFilter, GridStep, NavKey,
    SelectKey,
};
use kursor::service::windows::{HookState, HookVerdict, Probe};
use kursor::service::{is_grid_key, Service, Step};

fn no_mods() -> ModState {
    ModState { shift: false, ctrl: false, meta: false, alt: false }
}

fn shift() -> ModState {
    ModState { shift: true, ctrl: false, meta: false, alt: false }
}

fn mon(name: &str, x: i32, y: i32, w: u16, h: u16) -> Monitor {
    Monitor { name: name.to_string(), x, y, w, h }
}

// ── config ───────────────────────────────────────────────────────────

#[test]
fn layer_key_positions() {
    assert_eq!(l1_key_pos('q'), Some((0, 0)));
    assert_eq!(l1_key_pos('h'), Some((1, 5)));
    assert_eq!(l1_key_pos('.'), Some((2, 8)));
    assert_eq!(l1_key_pos('p'), None);
    assert_eq!(l2_key_pos('z'), Some((0, 0)));
    assert_eq!(l2_key_pos('g'), Some((4, 1)));
    assert_eq!(l2_key_pos('o'), Some((8, 2)));
    assert_eq!(l2_key_pos(';'), None);
    assert_eq!(l3_key_pos('d'), Some((1, 2)));
    assert_eq!(l3_key_pos('b'), Some((2, 4)));
    assert_eq!(l3_key_pos('y'), None);
}

#[test]
fn layer_keys_and_positions_agree() {
    for r in 0..3 {
        for c in 0..9 {
            assert_eq!(l1_key_pos(l1_key(r, c)), Some((r, c)));
        }
    }
    for r in 0..9 {
        for c in 0..3 {
            assert_eq!(l2_key_pos(l2_key(r, c)), Some((r, c)));
        }
    }
    for r in 0..3 {
        for c in 0..5 {
            assert_eq!(l3_key_pos(l3_key(r, c)), Some((r, c)));
        }
    }
}

#[test]
fn cell_labels() {
    assert_eq!(cell_label(0, 0), "qz");
    assert_eq!(cell_label(10, 4), "ss");
    assert_eq!(cell_label(26, 26), ".o");
    assert_eq!(cell_label(8, 2), "qo");
}

#[test]
fn cell_labels_are_distinct() {
    let mut seen = std::collections::HashSet::new();
    for r in 0..27 {
        for c in 0..27 {
            assert!(seen.insert(cell_label(r, c)));
        }
    }
    assert_eq!(seen.len(), 729);
}

#[test]
fn cursor_speed_accelerates_and_caps() {
    assert_eq!(cursor_speed(0), 3);
    assert_eq!(cursor_speed(4), 3);
    assert_eq!(cursor_speed(5), 6);
    assert_eq!(cursor_speed(10), 12);
    assert_eq!(cursor_speed(15), 24);
    assert_eq!(cursor_speed(20), 48);
    assert_eq!(cursor_speed(25), 50);
    assert_eq!(cursor_speed(1000), 50);
    assert_eq!(cursor_speed(u32::MAX), 50);
    let mut last = 0;
    for n in 0..200 {
        let s = cursor_speed(n);
        assert!(s >= last);
        last = s;
    }
}

#[test]
fn click_keys() {
    assert_eq!(action_key('j'), Some(1));
    assert_eq!(action_key('k'), Some(2));
    assert_eq!(action_key('l'), Some(3));
    assert_eq!(action_key('u'), None);
}

#[test]
fn button_codes() {
    assert_eq!(btn_code(1), BTN_LEFT);
    assert_eq!(btn_code(2), BTN_MIDDLE);
    assert_eq!(btn_code(3), BTN_RIGHT);
    assert_eq!(btn_code(9), BTN_RIGHT);
    assert_eq!(hid_button_code(MouseButton::Left), 0x110);
    assert_eq!(hid_button_code(MouseButton::Middle), 0x112);
    assert_eq!(hid_button_code(MouseButton::Right), 0x111);
    for n in 1..=3u8 {
        assert_eq!(MouseButton::from_u8(n).map(|b| b.as_u8()), Some(n));
    }
    assert!(MouseButton::from_u8(0).is_none());
    assert_eq!(SERVICE, "kursord");
}

// ── cli ──────────────────────────────────────────────────────────────

#[test]
fn parse_button_names() {
    assert!(matches!(parse_button("L"), Ok(MouseButton::Left)));
    assert!(matches!(parse_button("left"), Ok(MouseButton::Left)));
    assert!(matches!(parse_button("2"), Ok(MouseButton::Middle)));
    assert!(matches!(parse_button("m"), Ok(MouseButton::Middle)));
    assert!(matches!(parse_button("right"), Ok(MouseButton::Right)));
    assert!(matches!(parse_button("3"), Ok(MouseButton::Right)));
}

#[test]
fn parse_button_unknown() {
    match parse_button("x") {
        Err(UnknownButton { name }) => assert_eq!(name, "x"),
        Ok(_) => panic!("x is no button"),
    }
    match parse_button("Left") {
        Err(e) => assert_eq!(e.message(), "unknown button: Left (use L|M|R)"),
        Ok(_) => panic!("Left is no button"),
    }
}

// ── keymap ───────────────────────────────────────────────────────────

#[test]
fn key_map_letters_digits_controls() {
    assert_eq!(key_map(KEY_Q, &no_mods()), Some(b'q'));
    assert_eq!(key_map(KEY_Q, &shift()), Some(b'Q'));
    assert_eq!(key_map(KEY_P, &no_mods()), Some(b'p'));
    assert_eq!(key_map(KEY_Z, &shift()), Some(b'Z'));
    assert_eq!(key_map(KEY_1, &no_mods()), Some(b'1'));
    assert_eq!(key_map(KEY_1, &shift()), Some(b'!'));
    assert_eq!(key_map(KEY_0, &no_mods()), Some(b'0'));
    assert_eq!(key_map(KEY_0, &shift()), Some(b')'));
    assert_eq!(key_map(KEY_ENTER, &no_mods()), Some(b'\n'));
    assert_eq!(key_map(KEY_BACKSPACE, &no_mods()), Some(0x7f));
    assert_eq!(key_map(KEY_ESC, &no_mods()), Some(0x1b));
    assert_eq!(key_map(KEY_TAB, &no_mods()), None);
    assert_eq!(key_map(KEY_SPACE, &no_mods()), Some(b' '));
    assert_eq!(key_map(KEY_SPACE, &shift()), Some(b' '));
    assert_eq!(key_map(KEY_APOSTROPHE, &no_mods()), None);
}

#[test]
fn modifier_press_release_restores() {
    let mut m = ModState::default();
    m.update(KEY_LEFTSHIFT, true);
    assert!(m.shift);
    m.update(KEY_LEFTALT, true);
    assert!(m.alt);
    m.update(KEY_LEFTALT, false);
    m.update(KEY_LEFTSHIFT, false);
    assert!(!m.shift && !m.alt && !m.ctrl && !m.meta);
    m.update(KEY_A, true);
    assert!(!m.shift && !m.alt && !m.ctrl && !m.meta);
}

// ── devices ──────────────────────────────────────────────────────────

#[test]
fn windows_virtual_keys() {
    assert_eq!(vk_to_evdev(0x41, 0, false), Some(KEY_A));
    assert_eq!(vk_to_evdev(0x5A, 0, false), Some(KEY_Z));
    assert_eq!(vk_to_evdev(0x0D, 0x1C, false), Some(KEY_ENTER));
    assert_eq!(vk_to_evdev(0x0D, 0x1C, true), Some(KEY_KPENTER));
    assert_eq!(vk_to_evdev(0x0D, 0xE01C, false), Some(KEY_KPENTER));
    assert_eq!(vk_to_evdev(0x10, 0x36, false), Some(KEY_RIGHTSHIFT));
    assert_eq!(vk_to_evdev(0x10, 0x2A, false), Some(KEY_LEFTSHIFT));
    assert_eq!(vk_to_evdev(0x30, 0, false), Some(KEY_0));
    assert_eq!(vk_to_evdev(0x31, 0, false), Some(KEY_1));
    assert_eq!(vk_to_evdev(0x39, 0, false), Some(10));
    assert_eq!(vk_to_evdev(0x60, 0, false), Some(82));
    assert_eq!(vk_to_evdev(0x6C, 0, false), None);
    assert_eq!(vk_to_evdev(0x5B, 0, false), Some(KEY_LEFTMETA));
    assert_eq!(letter_key(0x41), Some(KEY_A));
    assert_eq!(letter_key(0x5B), None);
}

#[test]
fn key_capability_bits() {
    let mut bits = [0u8; 96];
    bits[1] = 0b0000_0100;
    assert!(has_key(&bits, 10));
    assert!(!has_key(&bits, 9));
    assert_eq!(count_keys(&bits), 1);
    bits[95] = 0xff;
    assert_eq!(count_keys(&bits), 9);
    assert!(!is_suitable(&bits));
}

#[test]
fn suitable_keyboards() {
    let grid: [u16; 40] = [
        1, 14, 28, 57, 2, 3, 4, 5, 6, 7, 8, 9, 10, 11, 16, 17, 18, 19, 20, 21, 22, 23, 24, 25, 30,
        31, 32, 33, 34, 35, 36, 37, 38, 44, 45, 46, 47, 48, 49, 50,
    ];
    let mut bits = [0u8; 96];
    for &k in &grid {
        bits[(k / 8) as usize] |= 1 << (k % 8);
    }
    assert_eq!(count_keys(&bits), 40);
    assert!(is_suitable(&bits));
    bits[0] &= !(1 << 1);
    assert!(!is_suitable(&bits));

    let pad: [u16; 17] = [55, 69, 71, 72, 73, 74, 75, 76, 77, 78, 79, 80, 81, 82, 83, 96, 98];
    let mut bits = [0u8; 96];
    for &k in &pad {
        bits[(k / 8) as usize] |= 1 << (k % 8);
    }
    assert!(is_suitable(&bits));
}

#[test]
fn own_device_names() {
    assert!(is_own_name(b"kursor-kbd"));
    assert!(is_own_name(b"kursor"));
    assert!(!is_own_name(b"kurso"));
    assert!(!is_own_name(b"xkursor"));
}

#[test]
fn ioctl_requests() {
    assert_eq!(eviocgname(256), 0x8100_4506);
    assert_eq!(eviocgbit(u32::from(EV_KEY), 96), 0x8060_4521);
    assert_eq!(eviocgbit(0, 4), 0x8004_4520);
}

#[test]
fn uinput_setup_fields() {
    let f = uinput_name("kursor-ptr");
    assert_eq!(f.len(), 80);
    assert_eq!(&f[..10], b"kursor-ptr");
    assert!(f[10..].iter().all(|&b| b == 0));
    let long = "x".repeat(100);
    let f = uinput_name(&long);
    assert_eq!(f.len(), 80);
    assert!(f.iter().all(|&b| b == b'x'));
    let s = abs_axis_setup(ABS_X);
    assert_eq!(s.code, ABS_X);
    assert_eq!(s.absinfo.maximum, 0x7fff);
    assert_eq!(s.absinfo.minimum, 0);
}

#[test]
fn pointer_event_batches() {
    let e = move_rel_events(3, -2);
    assert_eq!(
        e,
        vec![
            RawEvent { type_: EV_REL, code: 0, value: 3 },
            RawEvent { type_: EV_REL, code: 1, value: -2 },
            RawEvent { type_: 0, code: 0, value: 0 },
        ]
    );
    let e = button_events(MouseButton::Right, true);
    assert_eq!(e[0], RawEvent { type_: EV_KEY, code: 0x111, value: 1 });
    assert_eq!(e.len(), 2);
    let e = scroll_events(ScrollAxis::Horizontal, -1);
    assert_eq!(e[0], RawEvent { type_: EV_REL, code: 6, value: -1 });
    let e = side_events(SideButton::Forward);
    assert_eq!(e.len(), 4);
    assert_eq!(e[0], RawEvent { type_: EV_KEY, code: 0x114, value: 1 });
    assert_eq!(e[2], RawEvent { type_: EV_KEY, code: 0x114, value: 0 });
}

// ── directions ───────────────────────────────────────────────────────

#[test]
fn directions_and_vectors() {
    assert_eq!(Dir::from_numpad(KEY_KP7).map(|d| d.bits), Some(DIR_UP_LEFT));
    assert_eq!(Dir::from_keypad(KEY_KP8).map(|d| d.bits), Some(DIR_UP));
    assert_eq!(Dir::from_numpad(KEY_KP5).map(|d| d.bits), None);
    assert_eq!(Dir::from_alpha(KEY_H).map(|d| d.bits), Some(DIR_LEFT));
    assert_eq!(Dir::from_alpha(KEY_W).map(|d| d.bits), None);
    assert_eq!(Dir { bits: DIR_UP_LEFT }.to_vector(), (-1, -1));
    assert_eq!(Dir { bits: DIR_UP | DIR_LEFT }.to_vector(), (0, 0));
}

#[test]
fn direction_press_release_restores() {
    let mut held = 0u8;
    let mut mask = Dir::empty();
    let mut count = 7u32;
    update_dir(&mut held, &mut mask, &mut count, Dir { bits: DIR_UP }, 1);
    assert_eq!((held, mask.bits, count), (1, DIR_UP, 7));
    update_dir(&mut held, &mut mask, &mut count, Dir { bits: DIR_UP }, 2);
    assert_eq!((held, mask.bits, count), (1, DIR_UP, 7));
    update_dir(&mut held, &mut mask, &mut count, Dir { bits: DIR_UP }, 0);
    assert_eq!((held, mask.bits, count), (0, 0, 0));
}

#[test]
fn direction_ticks_accelerate() {
    let mut count = 0u32;
    assert_eq!(direction_tick(0, Dir { bits: DIR_UP }, &mut count), None);
    assert_eq!(count, 0);
    assert_eq!(
        direction_tick(1, Dir { bits: DIR_UP }, &mut count),
        Some(PointerAction::MoveRel { dx: 0, dy: -3 })
    );
    count = 4;
    assert_eq!(
        direction_tick(1, Dir { bits: DIR_LEFT }, &mut count),
        Some(PointerAction::MoveRel { dx: -6, dy: 0 })
    );
    assert_eq!(direction_tick(2, Dir { bits: DIR_LEFT }, &mut count), None);
}

// ── glide-num ────────────────────────────────────────────────────────

#[test]
fn glide_num_buttons() {
    let mut g = GlideNum::new();
    g.toggle();
    assert!(g.active());
    assert_eq!(
        g.handle_event(KEY_KP5, 1, true),
        (true, Some(PointerAction::Button { button: MouseButton::Left, press: true }))
    );
    assert_eq!(
        g.handle_event(KEY_KP5, 0, false),
        (true, Some(PointerAction::Button { button: MouseButton::Left, press: false }))
    );
    assert_eq!(g.handle_event(KEY_KPASTERISK, 1, true), (true, None));
    assert_eq!(g.btn_code(), 0x112);
    assert_eq!(
        g.handle_event(KEY_KPPLUS, 1, true),
        (true, Some(PointerAction::Click { button: MouseButton::Middle, count: 2 }))
    );
    assert_eq!(g.handle_event(KEY_A, 1, true), (false, None));
    g.toggle();
    assert!(!g.active());
}

#[test]
fn glide_num_numlock_layer() {
    let mut g = GlideNum::new();
    g.set_numlock(true);
    assert!(g.numlock_held());
    assert_eq!(
        g.handle_event(KEY_KP8, 1, true),
        (true, Some(PointerAction::Scroll { axis: ScrollAxis::Vertical, dir: -1 }))
    );
    assert_eq!(
        g.handle_event(KEY_KPASTERISK, 1, true),
        (true, Some(PointerAction::Side { side: SideButton::Back }))
    );
    assert_eq!(g.btn_code(), 0x110);
}

#[test]
fn glide_num_moves() {
    let mut g = GlideNum::new();
    assert_eq!(g.handle_event(KEY_KP7, 1, true), (true, None));
    assert_eq!(g.direction_tick(), Some(PointerAction::MoveRel { dx: -3, dy: -3 }));
    assert_eq!(g.handle_event(KEY_KP8, 1, true), (true, None));
    assert_eq!(g.direction_tick(), None);
}

#[test]
fn keypad_navigator() {
    let mut k = Kpd::new();
    assert!(!k.active());
    assert_eq!(k.btn_code(), 0x110);
    assert_eq!(
        k.handle_key_event(KEY_KP5, 1, true),
        (true, Some(PointerAction::Button { button: MouseButton::Left, press: true }))
    );
    assert_eq!(k.handle_key_event(KEY_KP8, 1, true), (true, None));
    assert_eq!(k.direction_tick(), Some(PointerAction::MoveRel { dx: 0, dy: -3 }));
}

// ── glide-alpha ──────────────────────────────────────────────────────

#[test]
fn glide_alpha_keys() {
    let mut a = GlideAlpha::new();
    let mods = ModState { shift: true, ctrl: false, meta: true, alt: false };
    let (consumed, out) = a.toggle(KEY_CAPSLOCK, 1, true, &mods);
    assert!(consumed && a.active());
    assert_eq!(out.len(), 6);
    assert_eq!(out[5], KbdOut::Sync);
    assert_eq!(a.handle_event(KEY_H, 1, true), (false, None));
    assert_eq!(a.handle_event(KEY_CAPSLOCK, 1, true), (true, None));
    assert_eq!(a.handle_event(KEY_H, 1, true), (true, None));
    assert_eq!(a.direction_tick(), Some(PointerAction::MoveRel { dx: -3, dy: 0 }));
    assert_eq!(a.handle_event(KEY_H, 0, false), (true, None));
    assert_eq!(a.direction_tick(), None);
    assert_eq!(
        a.handle_event(KEY_W, 1, true),
        (true, Some(PointerAction::Scroll { axis: ScrollAxis::Vertical, dir: 1 }))
    );
    assert_eq!(
        a.handle_event(KEY_U, 1, true),
        (true, Some(PointerAction::Button { button: MouseButton::Left, press: true }))
    );
    assert_eq!(
        a.handle_event(KEY_U, 0, false),
        (true, Some(PointerAction::Button { button: MouseButton::Left, press: false }))
    );
    assert_eq!(
        a.handle_event(KEY_N, 1, true),
        (true, Some(PointerAction::Side { side: SideButton::Back }))
    );
    assert_eq!(a.handle_event(KEY_RIGHTSHIFT, 1, true), (false, None));
    assert_eq!(a.handle_event(KEY_D, 1, true), (false, None));
}

#[test]
fn glide_alpha_toggle_needs_chord() {
    let mut a = GlideAlpha::new();
    let (consumed, out) = a.toggle(KEY_CAPSLOCK, 1, true, &shift());
    assert!(!consumed && out.is_empty() && !a.active());
    let mods = ModState { shift: true, ctrl: true, meta: true, alt: false };
    let (consumed, _) = a.toggle(KEY_CAPSLOCK, 1, true, &mods);
    assert!(!consumed);
    let mods = ModState { shift: true, ctrl: false, meta: true, alt: true };
    let (consumed, out) = a.toggle(KEY_CAPSLOCK, 1, true, &mods);
    assert!(!consumed && out.is_empty() && !a.active());
    let out = release_keys(&[KEY_LEFTMETA, KEY_CAPSLOCK]);
    assert_eq!(
        out,
        vec![
            KbdOut::Key { code: KEY_LEFTMETA, value: 0 },
            KbdOut::Key { code: KEY_CAPSLOCK, value: 0 },
            KbdOut::Sync
        ]
    );
}

// ── grid ─────────────────────────────────────────────────────────────

#[test]
fn grid_filter_edits() {
    let mut f = GridFilter::new();
    assert!(f.is_empty());
    f.push('q');
    f.push('a');
    assert_eq!(f.input(), "qa");
    assert_eq!(f.len(), 2);
    assert!(f.matches("qaz"));
    assert!(!f.matches("q"));
    assert!(!f.matches("qz"));
    f.pop();
    assert_eq!(f.input(), "q");
    f.clear();
    assert!(f.is_empty());
    f.pop();
    assert!(f.is_empty());
}

fn feed(ctx: &mut GridCtx, bytes: &[u8]) -> Vec<GridStep> {
    bytes.iter().map(|&b| ctx.process_byte(b)).collect()
}

#[test]
fn grid_selection_and_click() {
    let mut ctx = GridCtx::new();
    let steps = feed(&mut ctx, b"qa");
    assert!(steps.iter().all(|s| matches!(s, GridStep::Redraw)));
    assert_eq!(ctx.filter.input(), "qa");
    match ctx.process_byte(b'j') {
        GridStep::Click { region, button, count, dx, dy } => {
            assert_eq!(region, "qa");
            assert_eq!(button, MouseButton::Left);
            assert_eq!((count, dx, dy), (1, 0, 0));
        }
        _ => panic!("j clicks"),
    }
    assert!(ctx.filter.is_empty());
}

#[test]
fn grid_repeat_count() {
    let mut ctx = GridCtx::new();
    feed(&mut ctx, b"qa");
    assert!(matches!(ctx.process_byte(b'1'), GridStep::Nothing));
    assert!(matches!(ctx.process_byte(b'2'), GridStep::Nothing));
    assert_eq!(ctx.repeat, 12);
    match ctx.process_byte(b'l') {
        GridStep::Click { button, count, .. } => {
            assert_eq!(button, MouseButton::Right);
            assert_eq!(count, 12);
        }
        _ => panic!("l clicks"),
    }
    assert_eq!(ctx.repeat, 0);
}

#[test]
fn grid_digit_without_selection_ignored() {
    let mut ctx = GridCtx::new();
    assert!(matches!(ctx.process_byte(b'1'), GridStep::Nothing));
    assert!(ctx.filter.is_empty());
    assert!(matches!(ctx.process_byte(b'y'), GridStep::Redraw));
    assert!(matches!(ctx.process_byte(b'y'), GridStep::Redraw));
    assert!(matches!(ctx.process_byte(b'y'), GridStep::Nothing));
    assert_eq!(ctx.filter.input(), "yy");
}

#[test]
fn grid_layer_three_and_nudge() {
    let mut ctx = GridCtx::new();
    feed(&mut ctx, b"qad");
    assert_eq!(ctx.filter.input(), "qad");
    assert!(matches!(ctx.process_byte(b'f'), GridStep::Redraw));
    assert_eq!(ctx.filter.input(), "qaf");
    for _ in 0..5 {
        assert!(ctx.nudge(KEY_H));
    }
    assert_eq!((ctx.l4_dx, ctx.l4_dy), (-3, 0));
    assert!(ctx.nudge(KEY_J));
    assert_eq!((ctx.l4_dx, ctx.l4_dy), (-3, 1));
    match ctx.process_byte(b';') {
        GridStep::Warp { region, dx, dy } => {
            assert_eq!(region, "qaf");
            assert_eq!((dx, dy), (-3, 1));
        }
        _ => panic!("; warps"),
    }
    assert!(ctx.filter.is_empty());
    assert_eq!((ctx.l4_dx, ctx.l4_dy), (0, 0));
    assert!(!ctx.nudge(KEY_L));
}

#[test]
fn grid_step_back() {
    let mut ctx = GridCtx::new();
    feed(&mut ctx, b"qad");
    assert!(matches!(ctx.process_byte(b'p'), GridStep::Redraw));
    assert_eq!(ctx.filter.input(), "q");
    assert!(matches!(ctx.process_byte(b'p'), GridStep::Redraw));
    assert!(ctx.filter.is_empty());
    assert!(matches!(ctx.process_byte(b'p'), GridStep::Redraw));
    assert!(ctx.filter.is_empty());
}

#[test]
fn grid_regions() {
    assert!(region_parts("").is_none());
    assert!(region_parts("q").is_none());
    let (label, sub) = region_parts("qa").unwrap();
    assert_eq!(label, "qa");
    assert_eq!(sub, None);
    let (label, sub) = region_parts("qad").unwrap();
    assert_eq!(label, "qa");
    assert_eq!(sub, Some((1, 2)));
    assert!(region_parts("qay").is_none());
    let (label, sub) = region_parts("qadz").unwrap();
    assert_eq!(label, "qa");
    assert_eq!(sub, Some((1, 2)));
}

#[test]
fn grid_keys_while_navigating_and_selecting() {
    assert_eq!(nav_key(KEY_H, &shift(), 1), NavKey::Nudge { code: KEY_H });
    assert_eq!(nav_key(KEY_H, &no_mods(), 1), NavKey::Byte { byte: b'h' });
    assert_eq!(nav_key(KEY_TAB, &no_mods(), 2), NavKey::NextMonitor);
    assert_eq!(nav_key(KEY_TAB, &no_mods(), 1), NavKey::Ignore);
    assert_eq!(select_key(KEY_A, &no_mods(), 2), SelectKey::Select { idx: 0 });
    assert_eq!(select_key(KEY_D, &no_mods(), 2), SelectKey::Hint { ch: 'd' });
    assert_eq!(select_key(KEY_1, &no_mods(), 2), SelectKey::Ignore);
    assert_eq!(select_key(KEY_A, &shift(), 2), SelectKey::Ignore);
    assert_eq!(next_monitor(0, 2), 1);
    assert_eq!(next_monitor(1, 2), 0);
}

// ── service ──────────────────────────────────────────────────────────

fn press(s: &mut Service, code: u16, grid: bool) -> Vec<Step> {
    s.dispatch(EV_KEY, code, 1, grid)
}

fn release(s: &mut Service, code: u16, grid: bool) -> Vec<Step> {
    s.dispatch(EV_KEY, code, 0, grid)
}

#[test]
fn service_forwards_plain_keys() {
    let mut s = Service::new();
    assert_eq!(press(&mut s, KEY_A, false), vec![Step::Forward]);
    assert_eq!(release(&mut s, KEY_A, false), vec![Step::Forward]);
    assert_eq!(s.dispatch(EV_REL, 0, 5, false), vec![Step::Forward]);
}

#[test]
fn service_numlock_kpenter_toggles_glide_num() {
    let mut s = Service::new();
    assert_eq!(press(&mut s, KEY_NUMLOCK, false), vec![]);
    assert_eq!(press(&mut s, KEY_KPENTER, false), vec![]);
    assert!(s.glide_num.active());
    assert_eq!(release(&mut s, KEY_KPENTER, false), vec![Step::Forward]);
    assert_eq!(release(&mut s, KEY_NUMLOCK, false), vec![Step::Forward]);
    assert_eq!(press(&mut s, KEY_KP8, false), vec![]);
    assert_eq!(s.direction_tick(), vec![PointerAction::MoveRel { dx: 0, dy: -3 }]);
    assert_eq!(release(&mut s, KEY_KP8, false), vec![]);
    assert_eq!(s.direction_tick(), vec![]);
}

#[test]
fn service_meta_capslock_toggles_grid() {
    let mut s = Service::new();
    assert_eq!(press(&mut s, KEY_LEFTMETA, false), vec![]);
    assert_eq!(
        press(&mut s, KEY_CAPSLOCK, false),
        vec![
            Step::ToggleGrid,
            Step::Kbd(KbdOut::Key { code: KEY_LEFTMETA, value: 0 }),
            Step::Kbd(KbdOut::Key { code: KEY_RIGHTMETA, value: 0 }),
            Step::Kbd(KbdOut::Key { code: KEY_CAPSLOCK, value: 0 }),
            Step::Kbd(KbdOut::Sync),
        ]
    );
    assert_eq!(s.pending, None);
}

#[test]
fn service_replays_held_meta() {
    let mut s = Service::new();
    assert_eq!(press(&mut s, KEY_LEFTMETA, false), vec![]);
    assert_eq!(s.pending, Some(KEY_LEFTMETA));
    assert_eq!(
        press(&mut s, KEY_A, false),
        vec![
            Step::Kbd(KbdOut::Key { code: KEY_LEFTMETA, value: 1 }),
            Step::Kbd(KbdOut::Sync),
            Step::Forward,
        ]
    );
    assert_eq!(s.pending, None);
}

#[test]
fn service_meta_shift_capslock_toggles_glide_alpha() {
    let mut s = Service::new();
    assert_eq!(press(&mut s, KEY_LEFTSHIFT, false), vec![Step::Forward]);
    assert_eq!(press(&mut s, KEY_LEFTMETA, false), vec![]);
    let steps = press(&mut s, KEY_CAPSLOCK, false);
    assert_eq!(steps.len(), 6);
    assert_eq!(steps[0], Step::Kbd(KbdOut::Key { code: KEY_LEFTMETA, value: 0 }));
    assert_eq!(steps[5], Step::Kbd(KbdOut::Sync));
    assert!(s.glide_alpha.active());
}

#[test]
fn service_grid_keys() {
    let mut s = Service::new();
    assert_eq!(press(&mut s, KEY_Q, true), vec![Step::GridKey { code: KEY_Q }]);
    assert_eq!(release(&mut s, KEY_Q, true), vec![Step::Forward]);
    assert_eq!(press(&mut s, KEY_TAB, true), vec![Step::GridKey { code: KEY_TAB }]);
    assert_eq!(press(&mut s, KEY_APOSTROPHE, true), vec![Step::Forward]);
    assert_eq!(press(&mut s, KEY_SPACE, true), vec![Step::GridKey { code: KEY_SPACE }]);
    assert!(is_grid_key(KEY_TAB));
    assert!(is_grid_key(KEY_Q));
    assert!(is_grid_key(KEY_SPACE));
    assert!(!is_grid_key(KEY_APOSTROPHE));
}

// ── Windows hook ─────────────────────────────────────────────────────

#[test]
fn hook_suppresses_repeats() {
    let mut h = HookState::new();
    assert_eq!(h.on_key(0x41, true), HookVerdict::Dispatch);
    assert_eq!(h.on_key(0x41, true), HookVerdict::PassRepeat);
    h.record(0x41, true);
    assert_eq!(h.on_key(0x41, true), HookVerdict::SwallowRepeat);
    assert_eq!(h.on_key(0x41, false), HookVerdict::Dispatch);
    assert_eq!(h.on_key(0x41, true), HookVerdict::Dispatch);
}

#[test]
fn probe_detects_stall_once() {
    let mut p = Probe::new(1000);
    assert!(!p.due(1050));
    assert!(p.due(1100));
    p.arm(1100);
    assert!(!p.due(1300));
    assert!(!p.check(1150, false));
    assert!(p.check(1200, false));
    assert!(!p.check(1300, false));
    p.arm(1300);
    assert!(!p.check(1400, true));
}

// ── overlay ──────────────────────────────────────────────────────────

#[test]
fn monitor_bounding_box() {
    let ms = vec![mon("a", 0, 0, 1920, 1080), mon("b", 1920, -200, 1280, 1024)];
    assert_eq!(Monitor::bbox(&ms), (0, -200, 3200, 1280));
    assert_eq!(screen_size(&ms), Some((3200, 1280)));
    assert_eq!(mouse_extent(&ms), (3200, 1080));
    assert_eq!(Monitor::bbox(&[]), (0, 0, 0, 0));
    assert_eq!(screen_size(&[]), None);
    assert_eq!(mouse_extent(&[]), (1920, 1080));
}

#[test]
fn debug_monitor_clones() {
    let one = vec![mon("a", 0, 0, 800, 600)];
    let c = clone_monitors(&one, 3);
    assert_eq!(c.len(), 3);
    assert!(c.iter().all(|m| *m == one[0]));
    assert_eq!(clone_monitors(&one, 1), one);
    let two = vec![mon("a", 0, 0, 800, 600), mon("b", 800, 0, 800, 600)];
    assert_eq!(clone_monitors(&two, 3), two);
    assert_eq!(one[0].duplicate(), one[0]);
}

#[test]
fn pixel_formats() {
    assert_eq!(rgba_to_x11_pixels(&[1, 2, 3, 4, 9]), vec![0x0401_0203]);
    assert_eq!(rgba_to_bgra(&[1, 2, 3, 4, 5, 6, 7, 8]), vec![3, 2, 1, 4, 7, 6, 5, 8]);
    assert_eq!(rgba_to_bgra(&rgba_to_bgra(&[10, 20, 30, 40])), vec![10, 20, 30, 40]);
}

#[test]
fn wide_strings() {
    assert_eq!(encode_wide("ab"), vec![97, 98, 0]);
    assert_eq!(encode_wide(""), vec![0]);
    assert_eq!(encode_wide("é𝄞"), vec![0xe9, 0xd834, 0xdd1e, 0]);
}

#[test]
fn kwin_script_id() {
    let reply = "method return time=1 sender=:1.2 -> destination=:1.3 serial=4 reply_serial=2\n   int32 7\n";
    assert_eq!(parse_script_id(reply), Some(7));
    assert_eq!(parse_script_id("  int32 -12\r\n"), Some(-12));
    assert_eq!(parse_script_id("int32\nint32 5\n"), None);
    assert_eq!(parse_script_id("no reply\n"), None);
    assert_eq!(parse_script_id("int32 99999999999 3"), Some(3));
    assert_eq!(parse_script_id(""), None);
}

#[test]
fn kwin_cursor_coords() {
    let log = "foo\n*{ \"x\":100, \"y\":200 }\n*{ \"x\":5, \"y\":-6 }\r\nbar\n";
    assert_eq!(parse_coords(log), Some((5, -6)));
    assert_eq!(parse_coords("*{ \"x\":1, \"y\":2 }\n*{ \"x\":oops, \"y\":3 }"), Some((1, 2)));
    assert_eq!(parse_coords("*{ \"x\": +12 , \"y\": 34 }}  "), Some((12, 34)));
    assert_eq!(parse_coords("nothing here"), None);
    assert_eq!(parse_coords(""), None);
}

#[test]
fn monitor_under_point() {
    let ms = vec![mon("a", 0, 0, 1920, 1080), mon("b", 1920, -200, 1280, 1024)];
    assert_eq!(monitor_at(&ms, 100, 100), Some(0));
    assert_eq!(monitor_at(&ms, 1919, 1079), Some(0));
    assert_eq!(monitor_at(&ms, 1920, 0), Some(1));
    assert_eq!(monitor_at(&ms, 1920, 900), None);
    assert_eq!(monitor_at(&ms, -1, 0), None);
    assert_eq!(monitor_at(&[], 0, 0), None);
}

#[test]
fn hotplug_rescan() {
    let held = vec!["event1".to_string(), "event3".to_string(), "event5".to_string()];
    let current = vec!["event3".to_string(), "event4".to_string()];
    assert_eq!(rescan_keep(&held, &current), vec![false, true, false]);
    assert!(contains_name(&held, "event3"));
    assert!(!contains_name(&held, "event2"));
    assert!(!contains_name(&[], "event2"));
}

#[test]
fn shared_memory_layout() {
    let (offsets, size) = shm_layout(&[(100, 50), (200, 10)]);
    assert_eq!(offsets, vec![0, 20000]);
    assert_eq!(size, 48000);
    assert!(offsets[1] + 200 * 10 * 4 <= size as usize);
    assert_eq!(shm_layout(&[]), (vec![], 1));
    assert_eq!(shm_layout(&[(0, 0)]), (vec![0], 1));
}

#[test]
fn glyph_pixel_compositing() {
    assert_eq!(blend([0, 0, 0, 0], 255, [10, 20, 30, 255]), [10, 20, 30, 255]);
    assert_eq!(blend([5, 6, 7, 8], 0, [10, 20, 30, 255]), [5, 6, 7, 8]);
    assert_eq!(blend([0, 0, 0, 144], 128, [192, 255, 192, 192]), [72, 96, 72, 185]);
    for cov in [0u8, 1, 77, 200, 255] {
        let p = blend([10, 20, 30, 40], cov, [255, 0, 128, 99]);
        assert!(p[0] <= p[3] && p[1] <= p[3] && p[2] <= p[3]);
    }
}

#[test]
fn supersampled_coverage() {
    let bmp = [10u8, 20, 30, 40, 50, 60, 70, 80, 90];
    assert_eq!(block_coverage(&bmp, 3, 3, 0, 0, 2), 30);
    assert_eq!(block_coverage(&bmp, 3, 3, 2, 2, 2), 90);
    assert_eq!(block_coverage(&bmp, 3, 3, 0, 2, 2), 45);
    assert_eq!(block_coverage(&bmp, 3, 3, 1, 1, 1), 50);
    assert_eq!(block_coverage(&[255u8; 16], 4, 4, 0, 0, 4), 255);
}

#[test]
fn service_idle_forwards_everything() {
    let mut s = Service::new();
    for code in [KEY_A, KEY_Q, KEY_CAPSLOCK, KEY_KPENTER, KEY_KP8, KEY_LEFTSHIFT] {
        assert_eq!(press(&mut s, code, false), vec![Step::Forward]);
        assert_eq!(release(&mut s, code, false), vec![Step::Forward]);
    }
    assert_eq!(press(&mut s, KEY_RIGHTMETA, false), vec![]);
    assert_eq!(
        release(&mut s, KEY_RIGHTMETA, false),
        vec![
            Step::Kbd(KbdOut::Key { code: KEY_RIGHTMETA, value: 1 }),
            Step::Kbd(KbdOut::Sync),
            Step::Forward,
        ]
    );
}

#[test]
fn keypad_navigator_service() {
    let mut s = KpNav::new();
    assert_eq!(s.dispatch(EV_KEY, KEY_A, 1, false), vec![Step::Forward]);
    assert_eq!(s.dispatch(EV_KEY, KEY_NUMLOCK, 1, false), vec![Step::Forward]);
    assert_eq!(s.dispatch(EV_KEY, KEY_KPENTER, 1, false), vec![]);
    assert!(s.kpd.active());
    assert_eq!(
        s.dispatch(EV_KEY, KEY_KP8, 1, false),
        vec![Step::Pointer(PointerAction::Scroll { axis: ScrollAxis::Vertical, dir: -1 })]
    );
    assert_eq!(s.dispatch(EV_KEY, KEY_NUMLOCK, 0, false), vec![Step::Forward]);
    assert_eq!(s.dispatch(EV_KEY, KEY_KP8, 1, false), vec![]);
    assert_eq!(s.kpd.direction_tick(), Some(PointerAction::MoveRel { dx: 0, dy: -3 }));
    assert_eq!(s.dispatch(EV_KEY, KEY_LEFTMETA, 1, false), vec![Step::Forward]);
    let steps = s.dispatch(EV_KEY, KEY_CAPSLOCK, 1, false);
    assert_eq!(steps[0], Step::ToggleGrid);
    assert_eq!(steps.len(), 5);
    assert_eq!(s.dispatch(EV_KEY, KEY_Q, 1, true), vec![Step::GridKey { code: KEY_Q }]);
    assert_eq!(s.dispatch(EV_KEY, KEY_Q, 0, true), vec![]);
    assert_eq!(s.dispatch(EV_REL, 0, 3, true), vec![]);
}

#[test]
fn click_command() {
    assert_eq!(
        click::run(3, "M".to_string()).ok(),
        Some(PointerAction::Click { button: MouseButton::Middle, count: 3 })
    );
    assert_eq!(
        click::run(1, "left".to_string()).ok(),
        Some(PointerAction::Click { button: MouseButton::Left, count: 1 })
    );
    match click::run(2, "X".to_string()) {
        Err(e) => assert_eq!(e.name, "X"),
        Ok(_) => panic!("X is no button"),
    }
}

#[test]
fn own_devices_recognized() {
    for name in [DEV_ABS, DEV_REL, DEV_KBD, DEV_PTR] {
        assert!(is_own_name(&uinput_name(name)));
    }
    assert!(!is_own_name(&uinput_name("AT Translated Set 2 keyboard")));
}

#[test]
fn kwin_journal_reads_back() {
    for (x, y) in [(0, 0), (-12, 34), (1919, -1080), (i32::MIN, i32::MAX)] {
        let line = format!("*{{ \"x\":{x}, \"y\":{y} }}");
        assert_eq!(parse_coords(&format!("{line}\n")), Some((x, y)));
        assert_eq!(parse_coords(&format!("kwin_wayland: started\nnoise \"x\":\n{line}\n")), Some((x, y)));
    }
}

#[test]
fn dbus_reply_reads_back() {
    for id in [0, 7, -3, i32::MAX] {
        let reply = format!("method return time=1.0 sender=:1.8 -> destination=:1.99 serial=12 reply_serial=2\n   int32 {id}\n");
        assert_eq!(parse_script_id(&reply), Some(id));
    }
}

#[test]
fn loose_keyboard_test() {
    let mut bits = [0u8; 96];
    assert!(!is_keyboard(&bits));
    bits[103 / 8] |= 1 << (103 % 8);
    assert!(is_keyboard(&bits));
    let mut bits = [0u8; 96];
    bits[30 / 8] |= 1 << (30 % 8);
    assert!(is_keyboard(&bits));
}

#[test]
fn release_all_events_releases_every_key_then_reports() {
    let evs = release_all_events(255);
    assert_eq!(evs.len(), 256);
    assert_eq!(evs[0], RawEvent { type_: EV_KEY, code: 1, value: 0 });
    assert_eq!(evs[254], RawEvent { type_: EV_KEY, code: 255, value: 0 });
    assert_eq!(evs[255], RawEvent { type_: EV_SYN, code: SYN_REPORT, value: 0 });
    assert_eq!(release_all_events(0), vec![RawEvent { type_: EV_SYN, code: SYN_REPORT, value: 0 }]);
}

#[test]
fn service_alt_blocks_grid_toggle() {
    let mut s = Service::new();
    assert_eq!(press(&mut s, KEY_LEFTALT, false), vec![Step::Forward]);
    assert_eq!(press(&mut s, KEY_LEFTMETA, false), vec![]);
    let steps = press(&mut s, KEY_CAPSLOCK, false);
    assert_eq!(
        steps,
        vec![
            Step::Kbd(KbdOut::Key { code: KEY_LEFTMETA, value: 1 }),
            Step::Kbd(KbdOut::Sync),
            Step::Forward,
        ]
    );
}

#[test]
fn service_alt_blocks_glide_alpha_toggle() {
    let mut s = Service::new();
    assert_eq!(press(&mut s, KEY_LEFTALT, false), vec![Step::Forward]);
    assert_eq!(press(&mut s, KEY_LEFTSHIFT, false), vec![Step::Forward]);
    assert_eq!(press(&mut s, KEY_LEFTMETA, false), vec![]);
    let steps = press(&mut s, KEY_CAPSLOCK, false);
    assert!(!steps.contains(&Step::ToggleGrid));
    assert_eq!(steps.last(), Some(&Step::Forward));
    assert!(!s.glide_alpha.active());
}

#[test]
fn click_steps_alternate_press_and_release() {
    assert_eq!(click_step(MouseButton::Left, 0), PointerAction::Button { button: MouseButton::Left, press: true });
    assert_eq!(click_step(MouseButton::Left, 1), PointerAction::Button { button: MouseButton::Left, press: false });
    assert_eq!(click_step(MouseButton::Right, 4), PointerAction::Button { button: MouseButton::Right, press: true });
}

#[test]
fn virtual_device_capabilities() {
    assert_eq!(device_event_types(false), vec![EV_KEY, EV_SYN]);
    assert_eq!(device_event_types(true), vec![EV_KEY, EV_SYN, EV_REL]);
    assert!(device_rel_codes(false).is_empty());
    assert_eq!(device_rel_codes(true), vec![0, 1, 6, 8]);
}
