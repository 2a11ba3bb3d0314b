use keyboard_types::{Key, Modifiers};
use screen_grabber::{
    apply_locks, matches_shortcut, note_lock_key, AppState, AreaAction, AreaController, AreaEvent,
    CaptureStep, CursorData, CursorKind, Direction, Enter, KeyInput, ShortcutController, Timer,
    NO_TIMER, NameSearch, PointerPlace, handle_under,
    ALL_MODIFIERS, ALT, CAPS_LOCK, FN_LOCK, LOCK_MASK, NUM_LOCK, SCROLL_LOCK, SYMBOL_LOCK,
};

#[test]
fn modifier_bits_are_those_of_keyboard_types() {
    assert_eq!(ALT, Modifiers::ALT.bits());
    assert_eq!(CAPS_LOCK, Modifiers::CAPS_LOCK.bits());
    assert_eq!(FN_LOCK, Modifiers::FN_LOCK.bits());
    assert_eq!(NUM_LOCK, Modifiers::NUM_LOCK.bits());
    assert_eq!(SCROLL_LOCK, Modifiers::SCROLL_LOCK.bits());
    assert_eq!(SYMBOL_LOCK, Modifiers::SYMBOL_LOCK.bits());
    assert_eq!(ALL_MODIFIERS, Modifiers::all().bits());
    assert_eq!(
        LOCK_MASK,
        (Modifiers::CAPS_LOCK | Modifiers::FN_LOCK | Modifiers::NUM_LOCK | Modifiers::SCROLL_LOCK
            | Modifiers::SYMBOL_LOCK)
            .bits()
    );
}

#[test]
fn charcode_agrees_with_keyboard_types() {
    for text in ["s", "S", "é", "ab", "", "€x"] {
        let ours = KeyInput::Character(text.to_string()).legacy_charcode();
        let theirs = Key::Character(text.to_string()).legacy_charcode();
        assert_eq!(ours, theirs);
    }
    assert_eq!(KeyInput::CapsLock.legacy_charcode(), Key::CapsLock.legacy_charcode());
    assert_eq!(KeyInput::Other.legacy_charcode(), Key::Enter.legacy_charcode());
    assert_eq!(KeyInput::Character("s".to_string()).legacy_charcode(), 115);
}

#[test]
fn lock_keys_and_their_slots() {
    assert_eq!(KeyInput::CapsLock.lock_index(), Some(0));
    assert_eq!(KeyInput::FnLock.lock_index(), Some(1));
    assert_eq!(KeyInput::NumLock.lock_index(), Some(2));
    assert_eq!(KeyInput::ScrollLock.lock_index(), Some(3));
    assert_eq!(KeyInput::SymbolLock.lock_index(), Some(4));
    assert_eq!(KeyInput::Other.lock_index(), None);
    assert_eq!(KeyInput::Character("a".to_string()).lock_index(), None);
    let mut locks = [false; 5];
    note_lock_key(&mut locks, &KeyInput::NumLock);
    assert_eq!(locks, [false, false, true, false, false]);
    note_lock_key(&mut locks, &KeyInput::Character("q".to_string()));
    assert_eq!(locks, [false, false, true, false, false]);
}

#[test]
fn applying_locks_matches_keyboard_types() {
    let samples = [0u32, 0x1, 0x4, 0x9a4, 0x3fff, 0x200 | 0x8, 0x800];
    let patterns = [
        [false; 5],
        [true; 5],
        [true, false, true, false, true],
        [false, true, false, true, false],
    ];
    let flags = [
        Modifiers::CAPS_LOCK,
        Modifiers::FN_LOCK,
        Modifiers::NUM_LOCK,
        Modifiers::SCROLL_LOCK,
        Modifiers::SYMBOL_LOCK,
    ];
    for bits in samples {
        for locks in patterns.iter() {
            let mut m = Modifiers::from_bits(bits).unwrap();
            for (i, on) in locks.iter().enumerate() {
                if *on {
                    m.insert(flags[i]);
                } else {
                    m.remove(flags[i]);
                }
            }
            let ours = apply_locks(bits, locks);
            assert_eq!(ours, m.bits());
            assert_eq!(apply_locks(ours, locks), ours);
            assert_eq!(ours & !LOCK_MASK, bits & !LOCK_MASK);
        }
    }
}

#[test]
fn shortcut_window_records_press() {
    let mut sc = ShortcutController { locks: [false; 5] };
    let mut data = AppState::new();
    sc.key_down(&mut data, &KeyInput::CapsLock, 0);
    assert_eq!(sc.locks, [true, false, false, false, false]);
    assert_eq!(data.mods, CAPS_LOCK);
    assert_eq!(data.key, 0);
    sc.key_down(&mut data, &KeyInput::Character("k".to_string()), 0x8 | CAPS_LOCK | NUM_LOCK);
    assert_eq!(data.mods, 0x8 | CAPS_LOCK);
    assert_eq!(data.key, 'k' as u32);
    assert_eq!(data.name, "");
}

#[test]
fn shortcut_matching_in_both_cases() {
    let s = KeyInput::Character("s".to_string());
    let upper = KeyInput::Character("S".to_string());
    assert!(matches_shortcut(ALT, &s, ALT, 's' as u32));
    assert!(matches_shortcut(ALT, &upper, ALT, 's' as u32));
    assert!(matches_shortcut(ALT, &s, ALT, 'S' as u32));
    assert!(!matches_shortcut(0, &s, ALT, 's' as u32));
    assert!(!matches_shortcut(ALT, &KeyInput::Character("a".to_string()), ALT, 's' as u32));
    assert!(!matches_shortcut(ALT, &KeyInput::Other, ALT, 's' as u32));
    assert!(!matches_shortcut(ALT, &KeyInput::Character("ss".to_string()), ALT, 's' as u32));
}

#[test]
fn recorded_shortcut_fires_capture() {
    let mut sc = ShortcutController { locks: [false; 5] };
    let mut data = AppState::new();
    let key = KeyInput::Character("p".to_string());
    let mods = 0x8 | 0x200;
    sc.key_down(&mut data, &key, mods);
    let mut enter = Enter::new();
    let fire = enter.key_down(&mut data, &key, mods);
    assert!(fire);
    assert!(data.is_full_screen);
    assert_eq!(enter.locks(), [false; 5]);
    assert_eq!(enter.countdown_token(), NO_TIMER);
    assert_eq!(enter.pause_token(), NO_TIMER);
}

#[test]
fn default_shortcut_is_alt_s() {
    let mut data = AppState::new();
    let mut enter = Enter::new();
    assert!(!enter.key_down(&mut data, &KeyInput::Character("s".to_string()), 0));
    assert!(!data.is_full_screen);
    assert!(!enter.key_down(&mut data, &KeyInput::NumLock, ALT));
    assert_eq!(enter.locks(), [false, false, true, false, false]);
    assert!(!enter.key_down(&mut data, &KeyInput::Character("s".to_string()), ALT));
    let mut fresh = Enter::new();
    assert!(fresh.key_down(&mut data, &KeyInput::Character("S".to_string()), ALT));
    assert!(data.is_full_screen);
}

#[test]
fn capture_timers() {
    let mut data = AppState::new();
    let mut enter = Enter::new();
    assert_eq!(enter.on_timer(10), CaptureStep::Unrelated);
    assert!(enter.key_down(&mut data, &KeyInput::Character("s".to_string()), ALT));
    enter.arm(10);
    assert_eq!(enter.countdown_token(), 10);
    assert_eq!(enter.on_timer(10), CaptureStep::FollowUp);
    enter.start_pause(10, 20, 21);
    assert_eq!((enter.countdown_token(), enter.pause_token()), (21, 20));
    assert_eq!(enter.on_timer(10), CaptureStep::Unrelated);
    assert_eq!(enter.on_timer(20), CaptureStep::Capture);
    assert_eq!(enter.on_timer(30), CaptureStep::Unrelated);
    let mut area = AreaController { id_t: 0, id_t2: 0, flag: true };
    area.arm(7);
    assert_eq!(area.id_t, 7);
    let mut data2 = AppState::new();
    assert_eq!(area.on_event(&mut data2, AreaEvent::Timer(7)), AreaAction::FollowUp);
    area.start_pause(7, 8, 9);
    assert_eq!((area.id_t, area.id_t2, area.flag), (9, 8, true));
    assert_eq!(area.on_event(&mut data2, AreaEvent::Timer(8)), AreaAction::Capture);
    assert_eq!(area.on_event(&mut data2, AreaEvent::Timer(7)), AreaAction::Unrelated);
}

#[test]
fn area_window_selects() {
    let area = AreaController { id_t: 1, id_t2: 2, flag: false };
    let mut data = AppState::new();
    data.is_full_screen = true;
    data.delay = Timer::FiveSeconds;
    assert_eq!(area.on_event(&mut data, AreaEvent::MouseDown), AreaAction::BeginSelection);
    assert!(!data.is_full_screen);
    assert_eq!(area.on_event(&mut data, AreaEvent::MouseMove), AreaAction::ExtendSelection);
    assert_eq!(area.on_event(&mut data, AreaEvent::MouseUp), AreaAction::EndSelection(5000));
    assert_eq!(area.on_event(&mut data, AreaEvent::Timer(1)), AreaAction::FollowUp);
    assert_eq!(area.on_event(&mut data, AreaEvent::Timer(2)), AreaAction::Capture);
    assert_eq!(area.on_event(&mut data, AreaEvent::Timer(3)), AreaAction::Unrelated);
    assert_eq!(area.on_event(&mut data, AreaEvent::Other), AreaAction::Forward);
    assert!(!data.is_full_screen);
}

#[test]
fn full_screen_window_counts_down() {
    let area = AreaController { id_t: 1, id_t2: 2, flag: true };
    let mut data = AppState::new();
    assert_eq!(area.on_event(&mut data, AreaEvent::Timer(9)), AreaAction::Unrelated);
    assert!(!data.is_full_screen);
    assert_eq!(area.on_event(&mut data, AreaEvent::MouseDown), AreaAction::StartCountdown(100));
    assert!(data.is_full_screen);
    assert_eq!(area.on_event(&mut data, AreaEvent::Timer(2)), AreaAction::Capture);
    assert!(data.is_full_screen);
    data.delay = Timer::TenSeconds;
    assert_eq!(area.on_event(&mut data, AreaEvent::Other), AreaAction::StartCountdown(10000));
}

#[test]
fn cursor_handles() {
    let mut c = CursorData::new(CursorKind::Arrow, None, false);
    assert!(!c.press());
    assert!(!c.down);
    c.hover(Some(Direction::UpLeft));
    assert_eq!(c.typ, CursorKind::Crosshair);
    c.hover(Some(Direction::Left));
    assert_eq!(c.typ, CursorKind::ResizeLeftRight);
    c.hover(Some(Direction::Down));
    assert_eq!(c.typ, CursorKind::ResizeUpDown);
    c.hover(Some(Direction::All));
    assert_eq!(c.typ, CursorKind::Crosshair);
    assert!(c.press());
    assert!(c.down);
    c.release();
    assert!(!c.down);
    assert_eq!(c.over, Some(Direction::All));
    c.press();
    c.leave();
    assert_eq!(c, CursorData { typ: CursorKind::Crosshair, over: None, down: false });
    c.hover(None);
    assert_eq!(c.typ, CursorKind::Arrow);
}

#[test]
fn ascii_shortcut_ignores_case_of_saved_key() {
    for saved in ['q', 'Q', '7', '-'] {
        let lower = saved.to_ascii_lowercase().to_string();
        let upper = saved.to_ascii_uppercase().to_string();
        assert!(matches_shortcut(ALT, &KeyInput::Character(lower), ALT, saved as u32));
        assert!(matches_shortcut(ALT, &KeyInput::Character(upper), ALT, saved as u32));
    }
    assert!(!matches_shortcut(ALT, &KeyInput::Character("1".to_string()), ALT, '!' as u32));
}

#[test]
fn name_search_stops_at_first_free() {
    let taken = [true, true, false, true];
    let mut search = NameSearch::start();
    let mut probed = Vec::new();
    while let Some(i) = search.pending() {
        probed.push(i);
        search.record(taken[i as usize]);
    }
    assert_eq!(probed, vec![0, 1, 2]);
    assert_eq!(search.found, Some(2));
    let mut first = NameSearch::start();
    first.record(false);
    assert_eq!(first.found, Some(0));
    assert_eq!(first.pending(), None);
}

#[test]
fn name_search_names_the_screenshot() {
    let mut data = AppState::new();
    let existing = [data.candidate_path(0), data.candidate_path(1)];
    let mut search = NameSearch::start();
    while let Some(i) = search.pending() {
        let location = data.candidate_path(i);
        search.record(existing.contains(&location));
    }
    let found = search.found.unwrap();
    data.set_default_name(found);
    assert_eq!(data.name, "screenshot2");
    assert_eq!(data.save_target(), ".\\screenshot2.jpeg");
}

fn place(l: bool, r: bool, t: bool, b: bool, lr: bool, tb: bool, m: bool) -> PointerPlace {
    PointerPlace {
        near_left: l,
        near_right: r,
        near_top: t,
        near_bottom: b,
        between_left_right: lr,
        between_top_bottom: tb,
        in_middle: m,
    }
}

#[test]
fn handle_hit_test() {
    assert_eq!(handle_under(place(true, false, true, false, false, false, false)), Some(Some(Direction::UpLeft)));
    assert_eq!(handle_under(place(false, true, false, true, false, false, false)), Some(Some(Direction::DownRight)));
    assert_eq!(handle_under(place(true, false, false, true, false, false, false)), Some(Some(Direction::DownLeft)));
    assert_eq!(handle_under(place(false, true, true, false, false, false, false)), Some(Some(Direction::UpRight)));
    assert_eq!(handle_under(place(true, false, false, false, false, true, false)), Some(Some(Direction::Left)));
    assert_eq!(handle_under(place(true, false, false, false, false, false, false)), None);
    assert_eq!(handle_under(place(false, true, false, false, false, true, false)), Some(Some(Direction::Right)));
    assert_eq!(handle_under(place(false, false, false, true, true, false, false)), Some(Some(Direction::Down)));
    assert_eq!(handle_under(place(false, false, true, false, true, false, false)), Some(Some(Direction::Up)));
    assert_eq!(handle_under(place(false, false, true, false, false, false, false)), None);
    assert_eq!(handle_under(place(false, false, false, false, true, true, true)), Some(Some(Direction::All)));
    assert_eq!(handle_under(place(false, false, false, false, true, true, false)), Some(None));
}

#[test]
fn name_search_probes_at_most_one_more_than_existing() {
    let data = AppState::new();
    let existing: Vec<String> = [0u64, 1, 2, 5].iter().map(|i| data.candidate_path(*i)).collect();
    let mut search = NameSearch::start();
    let mut probes = 0;
    while let Some(i) = search.pending() {
        probes += 1;
        search.record(existing.contains(&data.candidate_path(i)));
    }
    assert!(search.next as usize <= existing.len());
    assert!(probes <= existing.len() + 1);
    assert_eq!(search.found, Some(3));
}
