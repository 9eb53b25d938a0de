use rusty_hangulclock::global::RotaryEvent;
use rusty_hangulclock::menu::{
    render, LastText, Menu, MenuAction, MenuInput, MenuMode, MenuOption, Screen, Settings, MENU_LEN,
};
use rusty_hangulclock::net::{NetCommand, NetResult};
use rusty_hangulclock::panel::Hsv;

fn settings() -> Settings {
    Settings { hue: 0, sat: 255, val: 255, utc_offset: 9 }
}

fn input(now: u128, knob: Option<RotaryEvent>, pressed: bool) -> MenuInput {
    MenuInput {
        now,
        knob,
        pressed,
        clock_h: 7,
        clock_m: 5,
        settings: settings(),
        net_result: Some(NetResult::Pending),
    }
}

#[test]
fn menu_option_order_and_names() {
    let all = MenuOption::all();
    assert_eq!(all.len(), MENU_LEN);
    let names: Vec<&str> = all.iter().map(|o| o.as_str()).collect();
    assert_eq!(names, vec!["WPS", "NTP", "LED HUE", "LED SAT", "LED VAL", "UTC OFFSET", "EXIT"]);
    for (i, o) in all.iter().enumerate() {
        assert_eq!(o.index(), i);
        assert_eq!(o.next(), all[(i + 1) % 7]);
        assert_eq!(o.prev(), all[(i + 6) % 7]);
        assert_eq!(o.next().prev(), *o);
    }
    let mut o = MenuOption::LedSat;
    for _ in 0..7 {
        o = o.next();
    }
    assert_eq!(o, MenuOption::LedSat);
}

#[test]
fn screens_render_as_on_the_display() {
    assert_eq!(render(&Screen::Clock { h: 7, m: 5 }), "Rusty HangulClock\n07:05\nrotate knob to\nenter menu");
    assert_eq!(render(&Screen::Clock { h: 23, m: 59 }), "Rusty HangulClock\n23:59\nrotate knob to\nenter menu");
    assert_eq!(render(&Screen::Menu { option: MenuOption::LedHue }), "= MENU 3/7 =\nLED HUE\npress to\ndecide");
    assert_eq!(
        render(&Screen::Adjust { option: MenuOption::UtcOffset, value: -12 }),
        "= UTC OFFSET =\n-12\npress to\ndecide"
    );
    assert_eq!(render(&Screen::Adjust { option: MenuOption::LedVal, value: 255 }), "= LED VAL =\n255\npress to\ndecide");
    assert_eq!(render(&Screen::Adjust { option: MenuOption::LedVal, value: 0 }), "= LED VAL =\n0\npress to\ndecide");
    assert_eq!(
        render(&Screen::NetWait { option: MenuOption::Wps, cmd: NetCommand::Wps }),
        "MENU 1/7\n**WPS**\nwait a moment"
    );
    assert_eq!(
        render(&Screen::NetDone { option: MenuOption::Ntp, cmd: NetCommand::Ntp, ok: false }),
        "MENU 2/7\nNTP\n**NG**"
    );
    assert_eq!(
        render(&Screen::NetDone { option: MenuOption::Wps, cmd: NetCommand::Wps, ok: true }),
        "MENU 1/7\nWPS\n**OK**"
    );
    assert_eq!(render(&Screen::Exit { option: MenuOption::Exit }), "MENU 7/7\n**EXIT**");
}

#[test]
fn idle_shows_clock_and_opens_on_a_turn() {
    let mut menu = Menu::new(0);
    assert_eq!(menu.pause_ms(), 50);
    let a = menu.step(&input(100, Some(RotaryEvent::NoTurn), false));
    assert_eq!(a, vec![MenuAction::Draw(Screen::Clock { h: 7, m: 5 })]);
    assert_eq!(menu.mode, MenuMode::Idle);
    let a = menu.step(&input(200, None, true));
    assert_eq!(a, vec![MenuAction::Draw(Screen::Clock { h: 7, m: 5 })]);
    assert_eq!(menu.mode, MenuMode::Idle);
    let a = menu.step(&input(300, Some(RotaryEvent::CounterClockwise), false));
    assert_eq!(a, vec![MenuAction::Draw(Screen::Clock { h: 7, m: 5 }), MenuAction::ClearRotary]);
    assert_eq!(menu, Menu { mode: MenuMode::Browse, current: MenuOption::Wps, enter_ts: 300 });
}

#[test]
fn browsing_moves_and_times_out() {
    let mut menu = Menu { mode: MenuMode::Browse, current: MenuOption::Wps, enter_ts: 1000 };
    let a = menu.step(&input(1100, Some(RotaryEvent::CounterClockwise), false));
    assert_eq!(a, vec![MenuAction::Draw(Screen::Menu { option: MenuOption::Wps }), MenuAction::ClearRotary]);
    assert_eq!(menu.current, MenuOption::Exit);
    assert_eq!(menu.enter_ts, 1100);
    let a = menu.step(&input(1200, Some(RotaryEvent::Clockwise), false));
    assert_eq!(a.len(), 2);
    assert_eq!(menu.current, MenuOption::Wps);
    // Nothing for a minute: still open at exactly 60 s, closed after.
    let a = menu.step(&input(1200 + 60000, Some(RotaryEvent::NoTurn), false));
    assert_eq!(a, vec![MenuAction::Draw(Screen::Menu { option: MenuOption::Wps })]);
    let a = menu.step(&input(1201 + 60000, Some(RotaryEvent::NoTurn), false));
    assert!(a.is_empty());
    assert_eq!(menu.mode, MenuMode::Idle);
}

#[test]
fn exit_entry_leaves_the_menu() {
    let mut menu = Menu { mode: MenuMode::Browse, current: MenuOption::Exit, enter_ts: 0 };
    let a = menu.step(&input(10, Some(RotaryEvent::NoTurn), true));
    assert_eq!(
        a,
        vec![
            MenuAction::Draw(Screen::Menu { option: MenuOption::Exit }),
            MenuAction::Draw(Screen::Exit { option: MenuOption::Exit }),
            MenuAction::Sleep(1000),
            MenuAction::ClearRotary,
        ]
    );
    assert_eq!(menu.mode, MenuMode::Idle);
}

#[test]
fn press_without_knob_access_does_nothing_in_browse() {
    let mut menu = Menu { mode: MenuMode::Browse, current: MenuOption::Exit, enter_ts: 0 };
    let a = menu.step(&input(10, None, true));
    assert_eq!(a, vec![MenuAction::Draw(Screen::Menu { option: MenuOption::Exit })]);
    assert_eq!(menu.mode, MenuMode::Browse);
}

#[test]
fn wps_command_round_trip() {
    let mut menu = Menu { mode: MenuMode::Browse, current: MenuOption::Wps, enter_ts: 0 };
    let a = menu.step(&input(10, Some(RotaryEvent::NoTurn), true));
    assert_eq!(
        a,
        vec![MenuAction::Draw(Screen::Menu { option: MenuOption::Wps }), MenuAction::SendNet(NetCommand::Wps)]
    );
    assert_eq!(menu.mode, MenuMode::Sending(NetCommand::Wps));
    let a = menu.net_sent(true);
    assert_eq!(a, vec![MenuAction::Draw(Screen::NetWait { option: MenuOption::Wps, cmd: NetCommand::Wps })]);
    assert_eq!(menu.mode, MenuMode::Awaiting(NetCommand::Wps));
    assert_eq!(menu.pause_ms(), 1000);
    // Still pending, or the report is busy: keep waiting, even past the timeout.
    assert!(menu.step(&input(100000, Some(RotaryEvent::Clockwise), false)).is_empty());
    let mut busy = input(200000, None, false);
    busy.net_result = None;
    assert!(menu.step(&busy).is_empty());
    let mut done = input(300000, None, false);
    done.net_result = Some(NetResult::Succeeded);
    let a = menu.step(&done);
    assert_eq!(
        a,
        vec![
            MenuAction::Draw(Screen::NetDone { option: MenuOption::Wps, cmd: NetCommand::Wps, ok: true }),
            MenuAction::Sleep(1000),
            MenuAction::ClearNetResult,
            MenuAction::ClearRotary,
        ]
    );
    assert_eq!(menu.mode, MenuMode::Idle);
}

#[test]
fn busy_command_line_returns_to_browsing() {
    let mut menu = Menu { mode: MenuMode::Browse, current: MenuOption::Ntp, enter_ts: 0 };
    let a = menu.step(&input(10, Some(RotaryEvent::NoTurn), true));
    assert_eq!(a[1], MenuAction::SendNet(NetCommand::Ntp));
    let a = menu.net_sent(false);
    assert!(a.is_empty());
    assert_eq!(menu, Menu { mode: MenuMode::Browse, current: MenuOption::Ntp, enter_ts: 10 });
}

#[test]
fn adjusting_hue_steps_by_five_and_clamps() {
    let mut menu = Menu { mode: MenuMode::Browse, current: MenuOption::LedHue, enter_ts: 0 };
    let a = menu.step(&input(10, Some(RotaryEvent::NoTurn), true));
    assert_eq!(
        a,
        vec![
            MenuAction::Draw(Screen::Menu { option: MenuOption::LedHue }),
            MenuAction::Sleep(200),
            MenuAction::ClearRotary,
        ]
    );
    assert_eq!(menu.mode, MenuMode::Adjust);
    let mut i = input(20, Some(RotaryEvent::Clockwise), false);
    i.settings.hue = 252;
    let a = menu.step(&i);
    let stored = Settings { hue: 255, ..settings() };
    assert_eq!(
        a,
        vec![
            MenuAction::Draw(Screen::Adjust { option: MenuOption::LedHue, value: 252 }),
            MenuAction::ClearRotary,
            MenuAction::StoreSettings(stored),
        ]
    );
    assert_eq!(menu.enter_ts, 20);
    let mut i = input(30, Some(RotaryEvent::CounterClockwise), true);
    i.settings.hue = 3;
    let a = menu.step(&i);
    let stored = Settings { hue: 0, ..settings() };
    assert_eq!(
        a,
        vec![
            MenuAction::Draw(Screen::Adjust { option: MenuOption::LedHue, value: 3 }),
            MenuAction::ClearRotary,
            MenuAction::StoreSettings(stored),
            MenuAction::Sleep(200),
            MenuAction::SaveHsv(Hsv { hue: 0, sat: 255, val: 255 }),
        ]
    );
    assert_eq!(menu.mode, MenuMode::Browse);
}

#[test]
fn adjusting_utc_offset_stays_within_twelve_hours() {
    let mut menu = Menu { mode: MenuMode::Adjust, current: MenuOption::UtcOffset, enter_ts: 0 };
    let mut i = input(5, Some(RotaryEvent::Clockwise), false);
    i.settings.utc_offset = 12;
    let a = menu.step(&i);
    assert_eq!(a[2], MenuAction::StoreSettings(Settings { utc_offset: 12, ..settings() }));
    let mut i = input(6, Some(RotaryEvent::CounterClockwise), true);
    i.settings.utc_offset = -12;
    let a = menu.step(&i);
    assert_eq!(a[0], MenuAction::Draw(Screen::Adjust { option: MenuOption::UtcOffset, value: -12 }));
    assert_eq!(a[2], MenuAction::StoreSettings(Settings { utc_offset: -12, ..settings() }));
    assert_eq!(a[4], MenuAction::SaveUtcOffset(-12));
    // No knob access: the value is neither changed nor written, but a press still saves.
    let mut menu = Menu { mode: MenuMode::Adjust, current: MenuOption::UtcOffset, enter_ts: 0 };
    let a = menu.step(&input(7, None, true));
    assert_eq!(
        a,
        vec![
            MenuAction::Draw(Screen::Adjust { option: MenuOption::UtcOffset, value: 9 }),
            MenuAction::Sleep(200),
            MenuAction::SaveUtcOffset(9),
        ]
    );
    assert_eq!(menu.enter_ts, 0);
}

#[test]
fn last_text_tells_when_to_redraw() {
    let mut last = LastText::new();
    assert!(last.replace("a"));
    assert!(!last.replace("a"));
    assert!(last.replace("b"));
    assert!(last.replace(""));
    assert!(!last.replace(""));
}
