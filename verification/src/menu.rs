//! The settings menu on the small display, driven by the rotary knob and its
//! push button: the menu entries, the screens shown, and the decisions taken
//! on each round of the menu task.
use vstd::prelude::*;
use vstd::string::StringExecFns;

use crate::global::RotaryEvent;
use crate::net::{command_text, NetCommand, NetResult};
use crate::panel::Hsv;
use crate::text::{
    decimal, digits_value, lemma_decimal_reads_back, push_decimal, push_signed, push_two_digits,
    signed_decimal, two_digits,
};

verus! {

/// An entry of the menu.
#[derive(Debug, Clone, Copy, PartialEq, Eq, Structural)]
pub enum MenuOption {
    Wps,
    Ntp,
    LedHue,
    LedSat,
    LedVal,
    UtcOffset,
    Exit,
}

/// Number of menu entries.
pub const MENU_LEN: usize = 7;

impl MenuOption {
    /// Place of the entry in the menu, from 0.
    pub open spec fn position(self) -> int {
        match self {
            MenuOption::Wps => 0,
            MenuOption::Ntp => 1,
            MenuOption::LedHue => 2,
            MenuOption::LedSat => 3,
            MenuOption::LedVal => 4,
            MenuOption::UtcOffset => 5,
            MenuOption::Exit => 6,
        }
    }

    /// The name shown for the entry.
    pub open spec fn label(self) -> Seq<char> {
        match self {
            MenuOption::Wps => "WPS"@,
            MenuOption::Ntp => "NTP"@,
            MenuOption::LedHue => "LED HUE"@,
            MenuOption::LedSat => "LED SAT"@,
            MenuOption::LedVal => "LED VAL"@,
            MenuOption::UtcOffset => "UTC OFFSET"@,
            MenuOption::Exit => "EXIT"@,
        }
    }

    /// The entries that open a value to adjust with the knob.
    pub open spec fn is_setting(self) -> bool {
        self is LedHue || self is LedSat || self is LedVal || self is UtcOffset
    }

    /// The entries for the LED colour.
    pub open spec fn is_color(self) -> bool {
        self is LedHue || self is LedSat || self is LedVal
    }

    /// The name shown for the entry.
    pub fn as_str(&self) -> (s: &'static str)
        ensures
            s@ == self.label(),
    {
        match self {
            MenuOption::Wps => "WPS",
            MenuOption::Ntp => "NTP",
            MenuOption::LedHue => "LED HUE",
            MenuOption::LedSat => "LED SAT",
            MenuOption::LedVal => "LED VAL",
            MenuOption::UtcOffset => "UTC OFFSET",
            MenuOption::Exit => "EXIT",
        }
    }

    /// The entry after this one, wrapping from the last to the first.
    pub fn next(&self) -> (r: Self)
        ensures
            r.position() == (self.position() + 1) % (MENU_LEN as int),
    {
        match self {
            MenuOption::Wps => MenuOption::Ntp,
            MenuOption::Ntp => MenuOption::LedHue,
            MenuOption::LedHue => MenuOption::LedSat,
            MenuOption::LedSat => MenuOption::LedVal,
            MenuOption::LedVal => MenuOption::UtcOffset,
            MenuOption::UtcOffset => MenuOption::Exit,
            MenuOption::Exit => MenuOption::Wps,
        }
    }

    /// The entry before this one, wrapping from the first to the last.
    pub fn prev(&self) -> (r: Self)
        ensures
            r.position() == (self.position() + MENU_LEN - 1) % (MENU_LEN as int),
    {
        match self {
            MenuOption::Wps => MenuOption::Exit,
            MenuOption::Ntp => MenuOption::Wps,
            MenuOption::LedHue => MenuOption::Ntp,
            MenuOption::LedSat => MenuOption::LedHue,
            MenuOption::LedVal => MenuOption::LedSat,
            MenuOption::UtcOffset => MenuOption::LedVal,
            MenuOption::Exit => MenuOption::UtcOffset,
        }
    }

    /// All entries, in menu order.
    pub fn all() -> (r: [Self; 7])
        ensures
            forall|i: int| 0 <= i < MENU_LEN ==> #[trigger] r@[i].position() == i,
    {
        [
            MenuOption::Wps,
            MenuOption::Ntp,
            MenuOption::LedHue,
            MenuOption::LedSat,
            MenuOption::LedVal,
            MenuOption::UtcOffset,
            MenuOption::Exit,
        ]
    }

    /// Place of the entry in the menu, from 0.
    pub fn index(&self) -> (i: usize)
        ensures
            i == self.position(),
    {
        match self {
            MenuOption::Wps => 0,
            MenuOption::Ntp => 1,
            MenuOption::LedHue => 2,
            MenuOption::LedSat => 3,
            MenuOption::LedVal => 4,
            MenuOption::UtcOffset => 5,
            MenuOption::Exit => 6,
        }
    }
}

/// The successor in menu order, as a spec.
pub open spec fn option_after(o: MenuOption) -> MenuOption {
    match o {
        MenuOption::Wps => MenuOption::Ntp,
        MenuOption::Ntp => MenuOption::LedHue,
        MenuOption::LedHue => MenuOption::LedSat,
        MenuOption::LedSat => MenuOption::LedVal,
        MenuOption::LedVal => MenuOption::UtcOffset,
        MenuOption::UtcOffset => MenuOption::Exit,
        MenuOption::Exit => MenuOption::Wps,
    }
}

/// The predecessor in menu order, as a spec.
pub open spec fn option_before(o: MenuOption) -> MenuOption {
    match o {
        MenuOption::Wps => MenuOption::Exit,
        MenuOption::Ntp => MenuOption::Wps,
        MenuOption::LedHue => MenuOption::Ntp,
        MenuOption::LedSat => MenuOption::LedHue,
        MenuOption::LedVal => MenuOption::LedSat,
        MenuOption::UtcOffset => MenuOption::LedVal,
        MenuOption::Exit => MenuOption::UtcOffset,
    }
}

/// Entries are told apart by their place, and `option_after` and
/// `option_before` are the steps by one place forwards and backwards.
pub proof fn lemma_menu_order(a: MenuOption, b: MenuOption)
    ensures
        a.position() == b.position() ==> a == b,
        0 <= a.position() < MENU_LEN,
        option_after(a).position() == (a.position() + 1) % (MENU_LEN as int),
        option_before(a).position() == (a.position() + MENU_LEN - 1) % (MENU_LEN as int),
{
}

/// Turning the knob one step and back returns to the same entry, and seven
/// steps the same way go once round the whole menu.
pub proof fn lemma_menu_cycle(o: MenuOption)
    ensures
        option_before(option_after(o)) == o,
        option_after(option_before(o)) == o,
        option_after(option_after(option_after(option_after(option_after(option_after(option_after(o)))))))
            == o,
{
}

/// The LED colour and time-zone settings that the menu adjusts.
#[derive(Debug, Clone, Copy, PartialEq, Eq, Structural)]
pub struct Settings {
    pub hue: u8,
    pub sat: u8,
    pub val: u8,
    /// Hours east of UTC.
    pub utc_offset: i8,
}

/// A screen of the display.
#[derive(Debug, Clone, Copy, PartialEq, Eq, Structural)]
pub enum Screen {
    /// Outside the menu: the time and how to enter the menu.
    Clock { h: u8, m: u8 },
    /// Browsing the menu, on `option`.
    Menu { option: MenuOption },
    /// Adjusting the value of a setting.
    Adjust { option: MenuOption, value: i16 },
    /// A network command has been sent and is awaited.
    NetWait { option: MenuOption, cmd: NetCommand },
    /// A network command has finished.
    NetDone { option: MenuOption, cmd: NetCommand, ok: bool },
    /// Leaving the menu.
    Exit { option: MenuOption },
}

/// "MENU i/7" for an entry.
pub open spec fn menu_counter(o: MenuOption) -> Seq<char> {
    "MENU "@ + decimal((o.position() + 1) as nat) + "/"@ + decimal(MENU_LEN as nat)
}

/// The text shown for a screen, lines separated by newlines.
pub open spec fn screen_text(s: Screen) -> Seq<char> {
    match s {
        Screen::Clock { h, m } => "Rusty HangulClock\n"@ + two_digits(h as nat) + ":"@ + two_digits(
            m as nat,
        ) + "\nrotate knob to\nenter menu"@,
        Screen::Menu { option } => "= "@ + menu_counter(option) + " =\n"@ + option.label()
            + "\npress to\ndecide"@,
        Screen::Adjust { option, value } => "= "@ + option.label() + " =\n"@ + signed_decimal(
            value as int,
        ) + "\npress to\ndecide"@,
        Screen::NetWait { option, cmd } => menu_counter(option) + "\n**"@ + command_text(cmd)
            + "**\nwait a moment"@,
        Screen::NetDone { option, cmd, ok } => menu_counter(option) + "\n"@ + command_text(cmd)
            + "\n**"@ + (if ok { "OK"@ } else { "NG"@ }) + "**"@,
        Screen::Exit { option } => menu_counter(option) + "\n**EXIT**"@,
    }
}

/// Appends "MENU i/7" for an entry.
fn push_menu_counter(s: &mut String, o: MenuOption)
    ensures
        final(s)@ == old(s)@ + menu_counter(o),
{
    s.append("MENU ");
    push_decimal(s, (o.index() + 1) as u32);
    s.append("/");
    push_decimal(s, MENU_LEN as u32);
    assert(final(s)@ =~= old(s)@ + menu_counter(o));
}

/// The text of a screen.
pub fn render(screen: &Screen) -> (text: String)
    ensures
        text@ == screen_text(*screen),
{
    let mut s = String::new();
    match screen {
        Screen::Clock { h, m } => {
            s.append("Rusty HangulClock\n");
            push_two_digits(&mut s, *h as u32);
            s.append(":");
            push_two_digits(&mut s, *m as u32);
            s.append("\nrotate knob to\nenter menu");
        },
        Screen::Menu { option } => {
            s.append("= ");
            push_menu_counter(&mut s, *option);
            s.append(" =\n");
            s.append(option.as_str());
            s.append("\npress to\ndecide");
        },
        Screen::Adjust { option, value } => {
            s.append("= ");
            s.append(option.as_str());
            s.append(" =\n");
            push_signed(&mut s, *value as i32);
            s.append("\npress to\ndecide");
        },
        Screen::NetWait { option, cmd } => {
            push_menu_counter(&mut s, *option);
            s.append("\n**");
            s.append(cmd.as_str());
            s.append("**\nwait a moment");
        },
        Screen::NetDone { option, cmd, ok } => {
            push_menu_counter(&mut s, *option);
            s.append("\n");
            s.append(cmd.as_str());
            s.append("\n**");
            if *ok {
                s.append("OK");
            } else {
                s.append("NG");
            }
            s.append("**");
        },
        Screen::Exit { option } => {
            push_menu_counter(&mut s, *option);
            s.append("\n**EXIT**");
        },
    }
    assert(s@ =~= screen_text(*screen));
    s
}

/// Remembers the text last drawn, so that an unchanged screen is not redrawn.
pub struct LastText {
    text: String,
}

impl View for LastText {
    type V = Seq<char>;

    closed spec fn view(&self) -> Seq<char> {
        self.text@
    }
}

impl LastText {
    /// Nothing drawn yet.
    pub fn new() -> (r: Self)
        ensures
            r@ == Seq::<char>::empty(),
    {
        LastText { text: String::new() }
    }

    /// Records `text` as drawn; tells whether it differs from the text
    /// drawn before, that is, whether the display must be redrawn.
    pub fn replace(&mut self, text: &str) -> (changed: bool)
        ensures
            changed == (old(self)@ != text@),
            final(self)@ == text@,
    {
        let t = String::from_str(text);
        if self.text == t {
            false
        } else {
            self.text = t;
            true
        }
    }
}

/// Milliseconds without a knob step after which the menu closes by itself.
pub const MENU_TIMEOUT_MS: u128 = 60000;

/// What the menu is doing.
#[derive(Debug, Clone, Copy, PartialEq, Eq, Structural)]
pub enum MenuMode {
    /// Not in the menu: the clock screen is shown.
    Idle,
    /// Browsing the entries.
    Browse,
    /// Adjusting the value of the current entry.
    Adjust,
    /// About to hand a command to the network task (see `Menu::net_sent`).
    Sending(NetCommand),
    /// Waiting for the network task to report on a command.
    Awaiting(NetCommand),
}

/// The state of the menu.
#[derive(Debug, Clone, Copy, PartialEq, Eq, Structural)]
pub struct Menu {
    pub mode: MenuMode,
    /// The entry the menu is on.
    pub current: MenuOption,
    /// Time (ms) of the last knob step or press, for the inactivity timeout.
    pub enter_ts: u128,
}

/// What the menu task sees on one round.
#[derive(Debug, Clone, Copy, PartialEq, Eq, Structural)]
pub struct MenuInput {
    /// Current time in milliseconds.
    pub now: u128,
    /// The pending knob event, or `None` when it could not be taken (busy).
    pub knob: Option<RotaryEvent>,
    /// Whether the push button is held down.
    pub pressed: bool,
    /// The time on the panel.
    pub clock_h: u8,
    pub clock_m: u8,
    /// The shared settings.
    pub settings: Settings,
    /// What the network task reports, or `None` when the report is busy.
    pub net_result: Option<NetResult>,
}

/// Something for the menu task to do, in order.
#[derive(Debug, Clone, Copy, PartialEq, Eq, Structural)]
pub enum MenuAction {
    /// Show a screen.
    Draw(Screen),
    /// Wait this many milliseconds.
    Sleep(u64),
    /// Take the pending knob event, leaving none. Knob events arriving while
    /// the menu was busy with a decision are dropped this way.
    ClearRotary,
    /// Write the shared settings.
    StoreSettings(Settings),
    /// Store the LED colour in flash.
    SaveHsv(Hsv),
    /// Store the UTC offset (hours) in flash.
    SaveUtcOffset(i32),
    /// Hand a command to the network task if its command line is free, and
    /// report with `Menu::net_sent`.
    SendNet(NetCommand),
    /// Clear the report of the network task.
    ClearNetResult,
}

/// The value of the setting that an entry adjusts (0 for other entries).
pub open spec fn setting_value(o: MenuOption, s: Settings) -> int {
    match o {
        MenuOption::LedHue => s.hue as int,
        MenuOption::LedSat => s.sat as int,
        MenuOption::LedVal => s.val as int,
        MenuOption::UtcOffset => s.utc_offset as int,
        _ => 0,
    }
}

/// A value after one knob event: colour levels move by 5 within 0..=255,
/// the UTC offset by 1 within -12..=12.
pub open spec fn adjusted(o: MenuOption, v: int, ev: RotaryEvent) -> int {
    match ev {
        RotaryEvent::Clockwise => {
            if o.is_color() {
                if v + 5 > 255 { 255 } else { v + 5 }
            } else if o is UtcOffset {
                if v + 1 > 12 { 12 } else { v + 1 }
            } else {
                v
            }
        },
        RotaryEvent::CounterClockwise => {
            if o.is_color() {
                if v - 5 < 0 { 0 } else { v - 5 }
            } else if o is UtcOffset {
                if v - 1 < -12 { -12 } else { v - 1 }
            } else {
                v
            }
        },
        RotaryEvent::NoTurn => v,
    }
}

/// The settings with the value of entry `o` replaced by `v`.
pub open spec fn with_setting(s: Settings, o: MenuOption, v: int) -> Settings {
    match o {
        MenuOption::LedHue => Settings { hue: v as u8, sat: s.sat, val: s.val, utc_offset: s.utc_offset },
        MenuOption::LedSat => Settings { hue: s.hue, sat: v as u8, val: s.val, utc_offset: s.utc_offset },
        MenuOption::LedVal => Settings { hue: s.hue, sat: s.sat, val: v as u8, utc_offset: s.utc_offset },
        MenuOption::UtcOffset => Settings { hue: s.hue, sat: s.sat, val: s.val, utc_offset: v as i8 },
        _ => s,
    }
}

/// The colour of the settings.
pub open spec fn settings_color(s: Settings) -> Hsv {
    Hsv { hue: s.hue, sat: s.sat, val: s.val }
}

/// What adjusting does on one round: the new inactivity time, the actions
/// taken on the knob event and the settings after it.
pub open spec fn adjust_knob(s: Menu, i: MenuInput) -> (u128, Seq<MenuAction>, Settings) {
    match i.knob {
        Some(ev) => {
            let nv = adjusted(s.current, setting_value(s.current, i.settings), ev);
            let set2 = with_setting(i.settings, s.current, nv);
            let ts = if ev is NoTurn { s.enter_ts } else { i.now };
            let clear: Seq<MenuAction> = if ev is NoTurn { seq![] } else { seq![MenuAction::ClearRotary] };
            let store: Seq<MenuAction> = if s.current.is_setting() {
                seq![MenuAction::StoreSettings(set2)]
            } else {
                seq![]
            };
            (ts, clear + store, set2)
        },
        None => (s.enter_ts, seq![], i.settings),
    }
}

/// One round while adjusting a value.
pub open spec fn adjust_transition(s: Menu, i: MenuInput) -> (Menu, Seq<MenuAction>) {
    let v = setting_value(s.current, i.settings);
    let draw = seq![MenuAction::Draw(Screen::Adjust { option: s.current, value: v as i16 })];
    let (ts, knob_actions, set2) = adjust_knob(s, i);
    if i.pressed {
        let save: Seq<MenuAction> = if s.current.is_color() {
            seq![MenuAction::SaveHsv(settings_color(set2))]
        } else if s.current is UtcOffset {
            seq![MenuAction::SaveUtcOffset(set2.utc_offset as i32)]
        } else {
            seq![]
        };
        (
            Menu { mode: MenuMode::Browse, current: s.current, enter_ts: ts },
            draw + knob_actions + seq![MenuAction::Sleep(200)] + save,
        )
    } else {
        (Menu { mode: MenuMode::Adjust, current: s.current, enter_ts: ts }, draw + knob_actions)
    }
}

/// One round while browsing the entries.
pub open spec fn browse_transition(s: Menu, i: MenuInput) -> (Menu, Seq<MenuAction>) {
    let cur = s.current;
    let draw = seq![MenuAction::Draw(Screen::Menu { option: cur })];
    match i.knob {
        Some(RotaryEvent::Clockwise) => (
            Menu { mode: MenuMode::Browse, current: option_after(cur), enter_ts: i.now },
            draw.push(MenuAction::ClearRotary),
        ),
        Some(RotaryEvent::CounterClockwise) => (
            Menu { mode: MenuMode::Browse, current: option_before(cur), enter_ts: i.now },
            draw.push(MenuAction::ClearRotary),
        ),
        Some(RotaryEvent::NoTurn) => {
            if i.pressed {
                match cur {
                    MenuOption::Wps => (
                        Menu { mode: MenuMode::Sending(NetCommand::Wps), current: cur, enter_ts: i.now },
                        draw.push(MenuAction::SendNet(NetCommand::Wps)),
                    ),
                    MenuOption::Ntp => (
                        Menu { mode: MenuMode::Sending(NetCommand::Ntp), current: cur, enter_ts: i.now },
                        draw.push(MenuAction::SendNet(NetCommand::Ntp)),
                    ),
                    MenuOption::Exit => (
                        Menu { mode: MenuMode::Idle, current: cur, enter_ts: i.now },
                        draw + seq![
                            MenuAction::Draw(Screen::Exit { option: cur }),
                            MenuAction::Sleep(1000),
                            MenuAction::ClearRotary,
                        ],
                    ),
                    _ => (
                        Menu { mode: MenuMode::Adjust, current: cur, enter_ts: i.now },
                        draw + seq![MenuAction::Sleep(200), MenuAction::ClearRotary],
                    ),
                }
            } else {
                (s, draw)
            }
        },
        None => (s, draw),
    }
}

/// The end of a network command: show how it went and leave the menu.
pub open spec fn net_done(s: Menu, cmd: NetCommand, ok: bool) -> (Menu, Seq<MenuAction>) {
    (
        Menu { mode: MenuMode::Idle, current: s.current, enter_ts: s.enter_ts },
        seq![
            MenuAction::Draw(Screen::NetDone { option: s.current, cmd, ok }),
            MenuAction::Sleep(1000),
            MenuAction::ClearNetResult,
            MenuAction::ClearRotary,
        ],
    )
}

/// One round of the menu task: the next state and what to do, in order.
pub open spec fn menu_transition(s: Menu, i: MenuInput) -> (Menu, Seq<MenuAction>) {
    match s.mode {
        MenuMode::Idle => {
            let draw = seq![MenuAction::Draw(Screen::Clock { h: i.clock_h, m: i.clock_m })];
            if i.knob == Some(RotaryEvent::Clockwise) || i.knob == Some(RotaryEvent::CounterClockwise) {
                (
                    Menu { mode: MenuMode::Browse, current: MenuOption::Wps, enter_ts: i.now },
                    draw.push(MenuAction::ClearRotary),
                )
            } else {
                (s, draw)
            }
        },
        MenuMode::Browse | MenuMode::Adjust => {
            if i.now - s.enter_ts > MENU_TIMEOUT_MS {
                (Menu { mode: MenuMode::Idle, current: s.current, enter_ts: s.enter_ts }, seq![])
            } else if s.mode is Adjust {
                adjust_transition(s, i)
            } else {
                browse_transition(s, i)
            }
        },
        MenuMode::Sending(_) => (s, seq![]),
        MenuMode::Awaiting(cmd) => match i.net_result {
            Some(NetResult::Succeeded) => net_done(s, cmd, true),
            Some(NetResult::Failed) => net_done(s, cmd, false),
            _ => (s, seq![]),
        },
    }
}

/// What follows an attempt to hand a command to the network task.
pub open spec fn sent_transition(s: Menu, accepted: bool) -> (Menu, Seq<MenuAction>) {
    match s.mode {
        MenuMode::Sending(cmd) => {
            if accepted {
                (
                    Menu { mode: MenuMode::Awaiting(cmd), current: s.current, enter_ts: s.enter_ts },
                    seq![MenuAction::Draw(Screen::NetWait { option: s.current, cmd })],
                )
            } else {
                (Menu { mode: MenuMode::Browse, current: s.current, enter_ts: s.enter_ts }, seq![])
            }
        },
        _ => (s, seq![]),
    }
}

/// The menu entry that issues a network command.
pub open spec fn command_option(c: NetCommand) -> MenuOption {
    match c {
        NetCommand::Wps => MenuOption::Wps,
        NetCommand::Ntp => MenuOption::Ntp,
    }
}

/// The menu state is consistent: a value is adjusted only for a setting
/// entry, and a network command is pending only from its own entry.
pub open spec fn menu_wf(s: Menu) -> bool {
    &&& s.mode is Adjust ==> s.current.is_setting()
    &&& s.mode matches MenuMode::Sending(c) ==> s.current == command_option(c)
    &&& s.mode matches MenuMode::Awaiting(c) ==> s.current == command_option(c)
}

impl Menu {
    /// The menu as it starts: closed, on the first entry.
    pub fn new(now: u128) -> (m: Self)
        ensures
            m == (Menu { mode: MenuMode::Idle, current: MenuOption::Wps, enter_ts: now }),
            menu_wf(m),
    {
        Menu { mode: MenuMode::Idle, current: MenuOption::Wps, enter_ts: now }
    }

    /// Milliseconds to wait before the next round: a second while a network
    /// command is awaited, 50 otherwise.
    pub fn pause_ms(&self) -> (ms: u64)
        ensures
            ms == if self.mode is Awaiting { 1000u64 } else { 50u64 },
    {
        match self.mode {
            MenuMode::Awaiting(_) => 1000,
            _ => 50,
        }
    }
}

/// The value of the setting that an entry adjusts.
fn setting_of(o: MenuOption, s: &Settings) -> (v: i16)
    ensures
        v == setting_value(o, *s),
        -128 <= v <= 255,
{
    match o {
        MenuOption::LedHue => s.hue as i16,
        MenuOption::LedSat => s.sat as i16,
        MenuOption::LedVal => s.val as i16,
        MenuOption::UtcOffset => s.utc_offset as i16,
        _ => 0,
    }
}

/// A value after one knob event.
fn adjust_value(o: MenuOption, v: i16, ev: RotaryEvent) -> (r: i16)
    requires
        -128 <= v <= 255,
    ensures
        r == adjusted(o, v as int, ev),
{
    let mut value = v;
    match ev {
        RotaryEvent::Clockwise => {
            match o {
                MenuOption::LedHue | MenuOption::LedSat | MenuOption::LedVal => {
                    value += 5;
                    if value > 255 {
                        value = 255;
                    }
                },
                MenuOption::UtcOffset => {
                    value += 1;
                    if value > 12 {
                        value = 12;
                    }
                },
                _ => {},
            }
        },
        RotaryEvent::CounterClockwise => {
            match o {
                MenuOption::LedHue | MenuOption::LedSat | MenuOption::LedVal => {
                    value -= 5;
                    if value < 0 {
                        value = 0;
                    }
                },
                MenuOption::UtcOffset => {
                    value -= 1;
                    if value < -12 {
                        value = -12;
                    }
                },
                _ => {},
            }
        },
        RotaryEvent::NoTurn => {},
    }
    value
}

/// A value from `setting_value` stays in the range of its setting after a
/// knob event.
proof fn lemma_adjusted_in_range(o: MenuOption, s: Settings, ev: RotaryEvent)
    ensures
        o.is_color() ==> 0 <= adjusted(o, setting_value(o, s), ev) <= 255,
        o is UtcOffset ==> -128 <= adjusted(o, setting_value(o, s), ev) <= 127,
        !o.is_setting() ==> adjusted(o, setting_value(o, s), ev) == 0,
{
}

/// The settings with the value of entry `o` replaced by `v`.
fn set_setting(s: Settings, o: MenuOption, v: i16) -> (r: Settings)
    requires
        o.is_color() ==> 0 <= v <= 255,
        o is UtcOffset ==> -128 <= v <= 127,
    ensures
        r == with_setting(s, o, v as int),
{
    match o {
        MenuOption::LedHue => Settings { hue: v as u8, sat: s.sat, val: s.val, utc_offset: s.utc_offset },
        MenuOption::LedSat => Settings { hue: s.hue, sat: v as u8, val: s.val, utc_offset: s.utc_offset },
        MenuOption::LedVal => Settings { hue: s.hue, sat: s.sat, val: v as u8, utc_offset: s.utc_offset },
        MenuOption::UtcOffset => Settings { hue: s.hue, sat: s.sat, val: s.val, utc_offset: v as i8 },
        _ => s,
    }
}

impl Menu {
    /// One round while adjusting a value.
    fn adjust_round(&self, input: &MenuInput) -> (res: (Menu, Vec<MenuAction>))
        ensures
            (res.0, res.1@) == adjust_transition(*self, *input),
    {
        let cur = self.current;
        let value = setting_of(cur, &input.settings);
        let mut actions: Vec<MenuAction> = Vec::new();
        actions.push(MenuAction::Draw(Screen::Adjust { option: cur, value }));
        let mut ts = self.enter_ts;
        let mut settings = input.settings;
        match input.knob {
            Some(ev) => {
                let nv = adjust_value(cur, value, ev);
                proof {
                    lemma_adjusted_in_range(cur, input.settings, ev);
                }
                match ev {
                    RotaryEvent::NoTurn => {},
                    _ => {
                        ts = input.now;
                        actions.push(MenuAction::ClearRotary);
                    },
                }
                settings = set_setting(input.settings, cur, nv);
                match cur {
                    MenuOption::LedHue | MenuOption::LedSat | MenuOption::LedVal
                    | MenuOption::UtcOffset => {
                        actions.push(MenuAction::StoreSettings(settings));
                    },
                    _ => {},
                }
            },
            None => {},
        }
        let ghost knob_part = adjust_knob(*self, *input);
        assert(ts == knob_part.0 && settings == knob_part.2);
        assert(actions@ =~= seq![MenuAction::Draw(Screen::Adjust { option: cur, value })]
            + knob_part.1);
        if input.pressed {
            actions.push(MenuAction::Sleep(200));
            match cur {
                MenuOption::LedHue | MenuOption::LedSat | MenuOption::LedVal => {
                    actions.push(
                        MenuAction::SaveHsv(Hsv { hue: settings.hue, sat: settings.sat, val: settings.val }),
                    );
                },
                MenuOption::UtcOffset => {
                    actions.push(MenuAction::SaveUtcOffset(settings.utc_offset as i32));
                },
                _ => {},
            }
            let next = Menu { mode: MenuMode::Browse, current: cur, enter_ts: ts };
            assert(actions@ =~= adjust_transition(*self, *input).1);
            (next, actions)
        } else {
            let next = Menu { mode: MenuMode::Adjust, current: cur, enter_ts: ts };
            (next, actions)
        }
    }

    /// One round while browsing the entries.
    fn browse_round(&self, input: &MenuInput) -> (res: (Menu, Vec<MenuAction>))
        ensures
            (res.0, res.1@) == browse_transition(*self, *input),
    {
        let cur = self.current;
        let mut actions: Vec<MenuAction> = Vec::new();
        actions.push(MenuAction::Draw(Screen::Menu { option: cur }));
        match input.knob {
            Some(RotaryEvent::Clockwise) => {
                actions.push(MenuAction::ClearRotary);
                (Menu { mode: MenuMode::Browse, current: cur.next(), enter_ts: input.now }, actions)
            },
            Some(RotaryEvent::CounterClockwise) => {
                actions.push(MenuAction::ClearRotary);
                (Menu { mode: MenuMode::Browse, current: cur.prev(), enter_ts: input.now }, actions)
            },
            Some(RotaryEvent::NoTurn) => {
                if input.pressed {
                    match cur {
                        MenuOption::Wps => {
                            actions.push(MenuAction::SendNet(NetCommand::Wps));
                            (
                                Menu {
                                    mode: MenuMode::Sending(NetCommand::Wps),
                                    current: cur,
                                    enter_ts: input.now,
                                },
                                actions,
                            )
                        },
                        MenuOption::Ntp => {
                            actions.push(MenuAction::SendNet(NetCommand::Ntp));
                            (
                                Menu {
                                    mode: MenuMode::Sending(NetCommand::Ntp),
                                    current: cur,
                                    enter_ts: input.now,
                                },
                                actions,
                            )
                        },
                        MenuOption::Exit => {
                            actions.push(MenuAction::Draw(Screen::Exit { option: cur }));
                            actions.push(MenuAction::Sleep(1000));
                            actions.push(MenuAction::ClearRotary);
                            assert(actions@ =~= browse_transition(*self, *input).1);
                            (Menu { mode: MenuMode::Idle, current: cur, enter_ts: input.now }, actions)
                        },
                        _ => {
                            actions.push(MenuAction::Sleep(200));
                            actions.push(MenuAction::ClearRotary);
                            assert(actions@ =~= browse_transition(*self, *input).1);
                            (Menu { mode: MenuMode::Adjust, current: cur, enter_ts: input.now }, actions)
                        },
                    }
                } else {
                    (*self, actions)
                }
            },
            None => (*self, actions),
        }
    }

    /// One round of the menu task, after waiting `pause_ms`: updates the
    /// menu and gives what to do, in order. A `SendNet` action is reported
    /// back with `net_sent` before the next round.
    pub fn step(&mut self, input: &MenuInput) -> (actions: Vec<MenuAction>)
        requires
            !(old(self).mode is Sending),
            old(self).mode is Browse || old(self).mode is Adjust ==> input.now >= old(self).enter_ts,
        ensures
            (*final(self), actions@) == menu_transition(*old(self), *input),
    {
        match self.mode {
            MenuMode::Idle => {
                let mut actions: Vec<MenuAction> = Vec::new();
                actions.push(MenuAction::Draw(Screen::Clock { h: input.clock_h, m: input.clock_m }));
                match input.knob {
                    Some(RotaryEvent::Clockwise) | Some(RotaryEvent::CounterClockwise) => {
                        actions.push(MenuAction::ClearRotary);
                        *self = Menu { mode: MenuMode::Browse, current: MenuOption::Wps, enter_ts: input.now };
                    },
                    _ => {},
                }
                actions
            },
            MenuMode::Browse | MenuMode::Adjust => {
                if input.now - self.enter_ts > MENU_TIMEOUT_MS {
                    self.mode = MenuMode::Idle;
                    Vec::new()
                } else if self.mode == MenuMode::Adjust {
                    let (next, actions) = self.adjust_round(input);
                    *self = next;
                    actions
                } else {
                    let (next, actions) = self.browse_round(input);
                    *self = next;
                    actions
                }
            },
            MenuMode::Sending(_) => Vec::new(),
            MenuMode::Awaiting(cmd) => {
                let ok = match input.net_result {
                    Some(NetResult::Succeeded) => true,
                    Some(NetResult::Failed) => false,
                    _ => {
                        return Vec::new();
                    },
                };
                let mut actions: Vec<MenuAction> = Vec::new();
                actions.push(MenuAction::Draw(Screen::NetDone { option: self.current, cmd, ok }));
                actions.push(MenuAction::Sleep(1000));
                actions.push(MenuAction::ClearNetResult);
                actions.push(MenuAction::ClearRotary);
                self.mode = MenuMode::Idle;
                assert(actions@ =~= menu_transition(*old(self), *input).1);
                actions
            },
        }
    }

    /// Reports whether the command of a `SendNet` action was taken by the
    /// network task; gives what to do next.
    pub fn net_sent(&mut self, accepted: bool) -> (actions: Vec<MenuAction>)
        requires
            old(self).mode is Sending,
        ensures
            (*final(self), actions@) == sent_transition(*old(self), accepted),
    {
        let mut actions: Vec<MenuAction> = Vec::new();
        match self.mode {
            MenuMode::Sending(cmd) => {
                if accepted {
                    actions.push(MenuAction::Draw(Screen::NetWait { option: self.current, cmd }));
                    self.mode = MenuMode::Awaiting(cmd);
                } else {
                    self.mode = MenuMode::Browse;
                }
            },
            _ => {},
        }
        actions
    }
}

/// Every round and every report of a sent command keeps the menu state
/// consistent.
pub proof fn lemma_menu_wf_preserved(s: Menu, i: MenuInput, accepted: bool)
    requires
        menu_wf(s),
    ensures
        menu_wf(menu_transition(s, i).0),
        menu_wf(sent_transition(s, accepted).0),
{
}

/// The menu never leaves the UTC offset outside -12..=12 hours: when the
/// shared offset is within that range, every offset the menu writes or
/// stores is too.
pub proof fn lemma_utc_offset_bounded(s: Menu, i: MenuInput)
    requires
        -12 <= i.settings.utc_offset <= 12,
    ensures
        forall|k: int|
            0 <= k < menu_transition(s, i).1.len() ==> match #[trigger] menu_transition(s, i).1[k] {
                MenuAction::StoreSettings(set) => -12 <= set.utc_offset <= 12,
                MenuAction::SaveUtcOffset(off) => -12 <= off <= 12,
                _ => true,
            },
{
    if s.mode is Adjust && !(i.now - s.enter_ts > MENU_TIMEOUT_MS) {
        let (ts, ka, set2) = adjust_knob(s, i);
        assert(-12 <= set2.utc_offset <= 12);
    }
}

/// Inside the menu, a minute without a knob step or press closes it on the
/// next round, doing nothing else.
pub proof fn lemma_menu_timeout(s: Menu, i: MenuInput)
    requires
        s.mode is Browse || s.mode is Adjust,
        i.now - s.enter_ts > MENU_TIMEOUT_MS,
    ensures
        menu_transition(s, i).0.mode is Idle,
        menu_transition(s, i).1.len() == 0,
{
}

/// Outside the menu, any knob step opens it on its first entry.
pub proof fn lemma_menu_opens_on_turn(s: Menu, i: MenuInput)
    requires
        s.mode is Idle,
        i.knob == Some(RotaryEvent::Clockwise) || i.knob == Some(RotaryEvent::CounterClockwise),
    ensures
        menu_transition(s, i).0 == (Menu { mode: MenuMode::Browse, current: MenuOption::Wps, enter_ts: i.now }),
{
}

/// A knob step one way and one step back leaves a value unchanged, unless
/// the first step ran into the end of its range.
pub proof fn lemma_adjust_round_trip(o: MenuOption, v: int)
    requires
        o.is_color() ==> 0 <= v <= 250,
        o is UtcOffset ==> -12 <= v <= 11,
    ensures
        adjusted(o, adjusted(o, v, RotaryEvent::Clockwise), RotaryEvent::CounterClockwise) == v,
{
}

/// Writing a setting changes exactly the value its entry reads: the entry
/// reads back the value written, and every other entry reads what it read
/// before.
pub proof fn lemma_with_setting_changes_one(s: Settings, o: MenuOption, v: int, other: MenuOption)
    requires
        o.is_color() ==> 0 <= v <= 255,
        o is UtcOffset ==> -128 <= v <= 127,
    ensures
        o.is_setting() ==> setting_value(o, with_setting(s, o, v)) == v,
        other != o ==> setting_value(other, with_setting(s, o, v)) == setting_value(other, s),
        !o.is_setting() ==> with_setting(s, o, v) == s,
{
}

/// Entries read distinct fields of the settings: two settings that every
/// entry reads alike are the same.
pub proof fn lemma_settings_by_entries(a: Settings, b: Settings)
    requires
        forall|o: MenuOption| #[trigger] setting_value(o, a) == setting_value(o, b),
    ensures
        a == b,
{
    assert(setting_value(MenuOption::LedHue, a) == setting_value(MenuOption::LedHue, b));
    assert(setting_value(MenuOption::LedSat, a) == setting_value(MenuOption::LedSat, b));
    assert(setting_value(MenuOption::LedVal, a) == setting_value(MenuOption::LedVal, b));
    assert(setting_value(MenuOption::UtcOffset, a) == setting_value(MenuOption::UtcOffset, b));
}

/// A knob step moves a colour level by five (an offset by one hour) in the
/// direction of the turn, stopping at the ends of its range; no turn, or an
/// entry without a value, leaves it alone.
pub proof fn lemma_adjusted_steps(o: MenuOption, v: int, ev: RotaryEvent)
    ensures
        o.is_color() && 0 <= v <= 255 ==> {
            let r = adjusted(o, v, ev);
            &&& 0 <= r <= 255
            &&& ev is Clockwise ==> v <= r && (r == v + 5 || r == 255)
            &&& ev is CounterClockwise ==> r <= v && (r == v - 5 || r == 0)
        },
        o is UtcOffset && -12 <= v <= 12 ==> {
            let r = adjusted(o, v, ev);
            &&& -12 <= r <= 12
            &&& ev is Clockwise ==> v <= r && (r == v + 1 || r == 12)
            &&& ev is CounterClockwise ==> r <= v && (r == v - 1 || r == -12)
        },
        ev is NoTurn || !o.is_setting() ==> adjusted(o, v, ev) == v,
{
}

/// While adjusting, the settings written after a knob event differ from the
/// shared ones only in the current entry, whose value moves by the knob
/// step; every write and save in the round carries those settings.
pub proof fn lemma_adjust_writes_current_only(s: Menu, i: MenuInput, other: MenuOption)
    requires
        s.mode is Adjust,
        s.current.is_setting(),
        i.now - s.enter_ts <= MENU_TIMEOUT_MS,
        i.knob is Some,
    ensures
        ({
            let set2 = adjust_knob(s, i).2;
            let acts = menu_transition(s, i).1;
            &&& setting_value(s.current, set2) == adjusted(
                s.current,
                setting_value(s.current, i.settings),
                i.knob->0,
            )
            &&& other != s.current ==> setting_value(other, set2) == setting_value(other, i.settings)
            &&& forall|k: int|
                0 <= k < acts.len() ==> match #[trigger] acts[k] {
                    MenuAction::StoreSettings(w) => w == set2,
                    MenuAction::SaveHsv(c) => c == settings_color(set2),
                    MenuAction::SaveUtcOffset(off) => off == set2.utc_offset,
                    _ => true,
                }
        }),
{
    let v = setting_value(s.current, i.settings);
    let nv = adjusted(s.current, v, i.knob->0);
    lemma_adjusted_in_range(s.current, i.settings, i.knob->0);
    lemma_with_setting_changes_one(i.settings, s.current, nv, other);
}

/// While a network command is awaited, a final report ends the wait and the
/// screen shows that outcome: OK exactly when the report is a success, for
/// the command awaited; anything else keeps waiting and does nothing.
pub proof fn lemma_net_outcome_shown(s: Menu, i: MenuInput, c: NetCommand)
    requires
        s.mode == MenuMode::Awaiting(c),
    ensures
        i.net_result == Some(NetResult::Succeeded) || i.net_result == Some(NetResult::Failed) ==> {
            let (s2, acts) = menu_transition(s, i);
            &&& s2.mode is Idle
            &&& acts.len() > 0
            &&& acts[0] matches MenuAction::Draw(Screen::NetDone { option, cmd, ok }) && option == s.current
                && cmd == c && ok == (i.net_result == Some(NetResult::Succeeded))
        },
        !(i.net_result == Some(NetResult::Succeeded) || i.net_result == Some(NetResult::Failed))
            ==> menu_transition(s, i) == (s, Seq::<MenuAction>::empty()),
{
}

/// Handing a command over: when it is taken, the wait screen names that
/// very command, and the menu awaits that command; when the command line is
/// busy, the menu goes back to browsing without doing anything.
pub proof fn lemma_net_sent_names_command(s: Menu, c: NetCommand)
    requires
        s.mode == MenuMode::Sending(c),
    ensures
        ({
            let (s2, acts) = sent_transition(s, true);
            &&& s2.mode == MenuMode::Awaiting(c)
            &&& acts.len() == 1
            &&& acts[0] matches MenuAction::Draw(Screen::NetWait { option, cmd }) && cmd == c && option
                == s.current
        }),
        sent_transition(s, false).0.mode is Browse,
        sent_transition(s, false).1.len() == 0,
{
}

/// The counter "MENU i/7" shows the entry's place counted from 1 and the
/// number of entries, in decimal.
pub proof fn lemma_menu_counter_reads(o: MenuOption)
    ensures
        menu_counter(o) == "MENU "@ + decimal((o.position() + 1) as nat) + "/"@ + decimal(MENU_LEN as nat),
        digits_value(decimal((o.position() + 1) as nat)) == o.position() + 1,
        digits_value(decimal(MENU_LEN as nat)) == MENU_LEN,
{
    lemma_decimal_reads_back((o.position() + 1) as nat);
    lemma_decimal_reads_back(MENU_LEN as nat);
}

/// Entries have distinct names.
pub proof fn lemma_labels_distinct(a: MenuOption, b: MenuOption)
    requires
        a != b,
    ensures
        a.label() != b.label(),
{
    reveal_strlit("WPS");
    reveal_strlit("NTP");
    reveal_strlit("LED HUE");
    reveal_strlit("LED SAT");
    reveal_strlit("LED VAL");
    reveal_strlit("UTC OFFSET");
    reveal_strlit("EXIT");
    if a.label().len() == b.label().len() {
        if a.label().len() == 3 {
            assert(a.label()[0] != b.label()[0]);
        } else if a.label().len() == 7 {
            assert(a.label()[4] != b.label()[4]);
        }
    }
}

/// While browsing, a clockwise step moves to the next entry and a
/// counter-clockwise step to the one before, round the menu.
pub proof fn lemma_browse_turns(s: Menu, i: MenuInput)
    requires
        s.mode is Browse,
        i.now - s.enter_ts <= MENU_TIMEOUT_MS,
    ensures
        i.knob == Some(RotaryEvent::Clockwise) ==> menu_transition(s, i).0.current.position() == (
        s.current.position() + 1) % (MENU_LEN as int),
        i.knob == Some(RotaryEvent::CounterClockwise) ==> menu_transition(s, i).0.current.position()
            == (s.current.position() + MENU_LEN - 1) % (MENU_LEN as int),
{
    lemma_menu_order(s.current, s.current);
}

/// Inside the menu, within a minute of the last knob step or press, the
/// menu stays open, unless the exit entry is chosen; and every round inside
/// the menu first draws its screen: the entry, or the entry and its current
/// value while adjusting.
pub proof fn lemma_menu_stays_open(s: Menu, i: MenuInput)
    requires
        s.mode is Browse || s.mode is Adjust,
        i.now - s.enter_ts <= MENU_TIMEOUT_MS,
    ensures
        !(s.mode is Browse && s.current is Exit && i.knob == Some(RotaryEvent::NoTurn) && i.pressed)
            ==> !(menu_transition(s, i).0.mode is Idle),
        s.mode is Adjust ==> menu_transition(s, i).0.mode is Adjust || menu_transition(s, i).0.mode is Browse,
        menu_transition(s, i).1.len() > 0,
        s.mode is Browse ==> menu_transition(s, i).1[0] == MenuAction::Draw(Screen::Menu { option: s.current }),
        s.mode is Adjust ==> menu_transition(s, i).1[0] == MenuAction::Draw(
            Screen::Adjust { option: s.current, value: setting_value(s.current, i.settings) as i16 },
        ),
{
}

} // verus!
