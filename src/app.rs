use vstd::prelude::*;
use crate::clock::{ClockTime, now_utc};
use crate::effects::{Effect, EffectView, views, emit, append_str};
use crate::keys::{KeyCode, KeyEvent, encode, is_ctrl_a, is_prefix, key_bytes, lemma_encode_total};
use crate::options::{Commands, Options, ToggleOption, command_of, get_command};
use crate::status::StatusView;
use crate::text::{decode_lossy, lossy_text};
use crate::tui::{Tui, TuiView};

verus! {

/// Where the session stands in routing key presses.
#[derive(Clone, Copy, PartialEq, Eq, Debug, Structural)]
pub enum AppStates {
    /// Key presses go to the remote device.
    Receiving,
    /// The help menu is shown; the next key press closes it.
    MenuActive,
    /// The prefix key was pressed; the next key press is a command.
    CatchKey,
}

/// Whether the session goes on after an event.
#[derive(Clone, Copy, PartialEq, Eq, Debug, Structural)]
pub enum AppResults {
    Quit,
    Continue,
}

/// One event of the session's loop.
#[derive(Debug)]
pub enum Event {
    /// The periodic timer fired.
    Tick,
    /// Bytes came from the remote device.
    Serial(Vec<u8>),
    /// A key was pressed.
    Key(KeyEvent),
    /// The process was asked to terminate.
    Terminate,
}

/// The status shown once the prefix key is caught.
pub open spec fn prefix_status() -> Seq<char> {
    "CTRL-A Z for help"@
}

/// The line-feed byte.
pub const LINE_FEED: u8 = 0x0a;

/// The carriage-return byte.
pub const CARRIAGE_RETURN: u8 = 0x0d;

/// The greeting printed when a session starts.
pub open spec fn banner(name: Seq<char>, version: Seq<char>, device: Seq<char>, is_tty: bool) -> Seq<char> {
    "Welcome to "@ + name + " "@ + version + "\r\n\r\nPort "@ + device + "\r\n"@ + if is_tty {
        "Press CTRL-A Z for help on special keys\r\n\r\n"@
    } else {
        "TTY not detected, fancy menus are disabled (hint use CTRL-A Q to quit)\r\n\r\n"@
    }
}

/// An interactive session with a remote device.
pub struct App {
    state: AppStates,
    tui: Tui,
    options: Options,
}

/// The state of a session.
pub struct AppView {
    pub state: AppStates,
    pub tui: TuiView,
    pub options: Options,
}

impl AppView {
    /// The alternate screen is shown exactly while the menu is active, and
    /// the screen prints timestamps in the mode the options name.
    pub open spec fn wf(self) -> bool {
        &&& self.tui.wf()
        &&& self.tui.on_alternate_screen <==> self.state == AppStates::MenuActive
        &&& self.tui.prefix_timestamp == self.options.timestamp
    }

    /// The state a session starts in.
    pub open spec fn initial(is_tty: bool) -> AppView {
        AppView {
            state: AppStates::Receiving,
            tui: TuiView {
                is_tty,
                on_alternate_screen: false,
                on_newline: false,
                prefix_timestamp: crate::options::Timestamp::Off,
                queue: seq![],
                status: StatusView::hidden(),
            },
            options: Options::spec_initial(),
        }
    }

    /// A received text arrives at `now`.
    pub open spec fn incoming(self, text: Seq<char>, now: ClockTime) -> (AppView, Seq<EffectView>) {
        let (t, e) = self.tui.incoming(text, now, self.options);
        (AppView { tui: t, ..self }, e)
    }

    /// Bytes are written to the remote device at `now`, and shown as well
    /// when local echo is on.
    pub open spec fn sent(self, data: Seq<u8>, now: ClockTime) -> (AppView, Seq<EffectView>) {
        if self.options.local_echo {
            let (s, e) = self.incoming(lossy_text(data), now);
            (s, seq![EffectView::Send(data)] + e)
        } else {
            (self, seq![EffectView::Send(data)])
        }
    }

    /// A key press meant for the remote device: its encoding is written, and
    /// a line feed after a carriage return when line feeds are inserted.
    pub open spec fn typed(self, key: KeyEvent, now: ClockTime) -> (AppView, Seq<EffectView>) {
        match key_bytes(key) {
            None => (self, seq![]),
            Some(data) => {
                let (s1, e1) = self.sent(data, now);
                if self.options.add_line_feed && data[0] == CARRIAGE_RETURN {
                    let (s2, e2) = s1.sent(seq![LINE_FEED], now);
                    (s2, e1 + e2)
                } else {
                    (s1, e1)
                }
            },
        }
    }

    /// A command is carried out: the new state, the result, the effects, and
    /// whether the command put a fresh message on the status line.
    pub open spec fn commanded(self, cmd: Commands) -> (AppView, AppResults, Seq<EffectView>, bool) {
        match ToggleOption::spec_of_command(cmd) {
            Some(which) => {
                let o = self.options.toggled(which);
                let text = o.status_text(which);
                let tui = if which == ToggleOption::TimestampMode {
                    TuiView { prefix_timestamp: o.timestamp, ..self.tui }
                } else {
                    self.tui
                };
                (
                    AppView {
                        options: o,
                        tui: TuiView { status: StatusView::showing(text), ..tui },
                        ..self
                    },
                    AppResults::Continue,
                    seq![EffectView::ShowStatus(text)],
                    true,
                )
            },
            None => match cmd {
                Commands::Quit | Commands::Exit => (self, AppResults::Quit, seq![], false),
                Commands::ClearScreen => (self, AppResults::Continue, seq![EffectView::ClearScreen], false),
                Commands::ShowHelp => if self.tui.is_tty {
                    let (t, e) = self.tui.entered_alt();
                    (
                        AppView { tui: t, state: AppStates::MenuActive, ..self },
                        AppResults::Continue,
                        e.push(EffectView::DrawHelp),
                        false,
                    )
                } else {
                    (self, AppResults::Continue, seq![], false)
                },
                _ => (self, AppResults::Continue, seq![], false),
            },
        }
    }

    /// The key press that follows the prefix key, with the state back at
    /// receiving: the prefix again is written to the remote device, a command
    /// character runs its command, any other key is dropped.
    pub open spec fn caught(self, key: KeyEvent, now: ClockTime) -> (AppView, AppResults, Seq<EffectView>, bool) {
        if is_prefix(key) {
            match key_bytes(key) {
                Some(data) => {
                    let (s, e) = self.sent(data, now);
                    (s, AppResults::Continue, e, false)
                },
                None => (self, AppResults::Continue, seq![], false),
            }
        } else {
            match key.code {
                KeyCode::Char(c) => match command_of(c) {
                    Some(cmd) => self.commanded(cmd),
                    None => (self, AppResults::Continue, seq![], false),
                },
                _ => (self, AppResults::Continue, seq![], false),
            }
        }
    }

    /// A key press at `now`: the new state, the result and the effects.
    pub open spec fn key_step(self, key: KeyEvent, now: ClockTime) -> (AppView, AppResults, Seq<EffectView>) {
        match self.state {
            AppStates::Receiving => if is_prefix(key) {
                (
                    AppView {
                        state: AppStates::CatchKey,
                        tui: TuiView { status: StatusView::showing(prefix_status()), ..self.tui },
                        ..self
                    },
                    AppResults::Continue,
                    seq![EffectView::ShowStatus(prefix_status())],
                )
            } else {
                let (s, e) = self.typed(key, now);
                (s, AppResults::Continue, e)
            },
            AppStates::CatchKey => {
                let (s, r, e, fresh) = AppView { state: AppStates::Receiving, ..self }.caught(
                    key,
                    now,
                );
                if !fresh && s.tui.status.visible() {
                    (
                        AppView { tui: TuiView { status: StatusView::hidden(), ..s.tui }, ..s },
                        r,
                        e.push(EffectView::HideStatus),
                    )
                } else {
                    (s, r, e)
                }
            },
            AppStates::MenuActive => {
                let (t, e) = self.tui.left_alt(self.options);
                (AppView { tui: t, state: AppStates::Receiving, ..self }, AppResults::Continue, e)
            },
        }
    }

    /// One tick of the timer.
    pub open spec fn ticked(self) -> (AppView, Seq<EffectView>) {
        let (st, e) = self.tui.status.ticked();
        (AppView { tui: TuiView { status: st, ..self.tui }, ..self }, e)
    }
}

impl View for App {
    type V = AppView;

    closed spec fn view(&self) -> AppView {
        AppView {
            state: self.state,
            tui: self.tui@,
            options: self.options,
        }
    }
}

impl App {
    /// The invariant of a session.
    pub closed spec fn wf(&self) -> bool {
        self@.wf()
    }

    /// Starts a session on a screen that is a terminal or not, and greets the
    /// user: the screen of a terminal is cleared, then the banner names the
    /// program, its version and the device.
    pub fn init(
        is_tty: bool,
        name: &str,
        version: &str,
        device: &str,
        out: &mut Vec<Effect>,
    ) -> (r: App)
        ensures
            r.wf(),
            r@ == AppView::initial(is_tty),
            views(final(out)@) == views(old(out)@) + (if is_tty {
                seq![EffectView::ClearScreen]
            } else {
                seq![]
            }) + seq![EffectView::Print(banner(name@, version@, device@, is_tty))],
    {
        let app = App {
            state: AppStates::Receiving,
            tui: Tui::init(is_tty),
            options: Options::new(),
        };
        app.print_startup_stuff(name, version, device, out);
        app
    }

    fn print_startup_stuff(&self, name: &str, version: &str, device: &str, out: &mut Vec<Effect>)
        requires
            self.wf(),
            !self@.tui.on_alternate_screen,
        ensures
            views(final(out)@) == views(old(out)@) + (if self@.tui.is_tty {
                seq![EffectView::ClearScreen]
            } else {
                seq![]
            }) + seq![EffectView::Print(banner(name@, version@, device@, self@.tui.is_tty))],
    {
        let is_tty = self.tui.is_tty();
        if is_tty {
            self.tui.clear_screen(out);
        }
        let help = if is_tty {
            "Press CTRL-A Z for help on special keys\r\n\r\n"
        } else {
            "TTY not detected, fancy menus are disabled (hint use CTRL-A Q to quit)\r\n\r\n"
        };
        let mut text: Vec<char> = Vec::new();
        append_str(&mut text, "Welcome to ");
        append_str(&mut text, name);
        append_str(&mut text, " ");
        append_str(&mut text, version);
        append_str(&mut text, "\r\n\r\nPort ");
        append_str(&mut text, device);
        append_str(&mut text, "\r\n");
        append_str(&mut text, help);
        self.tui.print_to_screen(text, out);
        assert(views(out@) =~= views(old(out)@) + (if is_tty {
            seq![EffectView::ClearScreen]
        } else {
            seq![]
        }) + seq![EffectView::Print(banner(name@, version@, device@, is_tty))]);
    }

    /// Where the session stands in routing key presses.
    pub fn state(&self) -> (r: AppStates)
        ensures
            r == self@.state,
    {
        self.state
    }

    /// The current options.
    pub fn options(&self) -> (r: Options)
        ensures
            r == self@.options,
    {
        self.options
    }

    /// Whether a message is on the status line.
    pub fn status_visible(&self) -> (r: bool)
        ensures
            r == self@.tui.status.visible(),
    {
        self.tui.status_visible()
    }

    /// Counts one tick of the timer against the status message.
    pub fn tick(&mut self, out: &mut Vec<Effect>)
        requires
            old(self).wf(),
        ensures
            final(self).wf(),
            final(self)@ == old(self)@.ticked().0,
            views(final(out)@) == views(old(out)@) + old(self)@.ticked().1,
    {
        self.tui.tick_status(out);
    }

    /// Shows a received text that arrived at `now`, or keeps it back while
    /// the menu is shown.
    pub fn print_incoming(&mut self, text: Vec<char>, now: ClockTime, out: &mut Vec<Effect>)
        requires
            old(self).wf(),
            now.wf(),
        ensures
            final(self).wf(),
            final(self)@ == old(self)@.incoming(text@, now).0,
            views(final(out)@) == views(old(out)@) + old(self)@.incoming(text@, now).1,
    {
        self.tui.print_or_queue(text, now, &self.options, out);
    }

    /// Shows bytes received from the remote device, decoded as UTF-8 with
    /// invalid sequences replaced, at the time they are handled.
    pub fn handle_serial_event(&mut self, data: &[u8], out: &mut Vec<Effect>)
        requires
            old(self).wf(),
        ensures
            final(self).wf(),
            exists|now: ClockTime|
                {
                    &&& now.wf()
                    &&& final(self)@ == old(self)@.incoming(lossy_text(data@), now).0
                    &&& views(final(out)@) == views(old(out)@) + old(self)@.incoming(
                        lossy_text(data@),
                        now,
                    ).1
                },
    {
        let now = now_utc();
        let text = decode_lossy(data);
        self.print_incoming(text, now, out);
    }

    /// Writes bytes to the remote device, and shows them when local echo is
    /// on.
    fn send_serial_data(&mut self, data: Vec<u8>, now: ClockTime, out: &mut Vec<Effect>)
        requires
            old(self).wf(),
            now.wf(),
        ensures
            final(self).wf(),
            final(self)@ == old(self)@.sent(data@, now).0,
            views(final(out)@) == views(old(out)@) + old(self)@.sent(data@, now).1,
    {
        let ghost d = data@;
        if self.options.local_echo {
            let text = decode_lossy(data.as_slice());
            emit(out, Effect::Send(data));
            self.print_incoming(text, now, out);
            assert(views(out@) =~= views(old(out)@) + old(self)@.sent(d, now).1);
        } else {
            emit(out, Effect::Send(data));
            assert(views(out@) =~= views(old(out)@) + old(self)@.sent(d, now).1);
        }
    }

    /// Carries out a command; says whether it put a fresh message on the
    /// status line.
    fn handle_command(&mut self, cmd: Commands, out: &mut Vec<Effect>) -> (r: (AppResults, bool))
        requires
            old(self).wf(),
            old(self)@.state == AppStates::Receiving,
        ensures
            final(self).wf(),
            final(self)@ == old(self)@.commanded(cmd).0,
            r.0 == old(self)@.commanded(cmd).1,
            views(final(out)@) == views(old(out)@) + old(self)@.commanded(cmd).2,
            r.1 == old(self)@.commanded(cmd).3,
    {
        match ToggleOption::of_command(cmd) {
            Some(which) => {
                self.options.toggle(which);
                if which == ToggleOption::TimestampMode {
                    self.tui.set_prefix_timestamp(self.options.timestamp);
                }
                let label = which.label();
                let val = self.options.value_text(which);
                self.tui.set_status(label, val, out);
                assert(views(out@) =~= views(old(out)@) + old(self)@.commanded(cmd).2);
                (AppResults::Continue, true)
            },
            None => match cmd {
                Commands::Quit | Commands::Exit => {
                    assert(views(out@) =~= views(old(out)@) + old(self)@.commanded(cmd).2);
                    (AppResults::Quit, false)
                },
                Commands::ClearScreen => {
                    self.tui.clear_screen(out);
                    assert(views(out@) =~= views(old(out)@) + old(self)@.commanded(cmd).2);
                    (AppResults::Continue, false)
                },
                Commands::ShowHelp => {
                    self.show_help(out);
                    (AppResults::Continue, false)
                },
                _ => {
                    assert(views(out@) =~= views(old(out)@) + old(self)@.commanded(cmd).2);
                    (AppResults::Continue, false)
                },
            },
        }
    }

    /// Opens the help menu on the alternate screen of a terminal; does
    /// nothing elsewhere.
    fn show_help(&mut self, out: &mut Vec<Effect>)
        requires
            old(self).wf(),
            old(self)@.state == AppStates::Receiving,
        ensures
            final(self).wf(),
            final(self)@ == old(self)@.commanded(Commands::ShowHelp).0,
            views(final(out)@) == views(old(out)@) + old(self)@.commanded(Commands::ShowHelp).2,
    {
        if !self.tui.is_tty() {
            assert(views(out@) =~= views(old(out)@) + old(self)@.commanded(Commands::ShowHelp).2);
            return;
        }
        self.tui.enter_alt(out);
        self.state = AppStates::MenuActive;
        self.tui.draw_ui(out);
        assert(views(out@) =~= views(old(out)@) + old(self)@.commanded(Commands::ShowHelp).2);
    }

    /// Handles a key press at `now`. While receiving, the prefix key waits
    /// for a command and any other key goes to the remote device. After the
    /// prefix, the prefix again goes to the remote device, a command character
    /// runs its command and other keys are dropped; a status message that the
    /// key did not set is then hidden. While the menu is shown, any key closes
    /// it and prints what arrived meanwhile.
    pub fn handle_key_event_at(
        &mut self,
        key_event: KeyEvent,
        now: ClockTime,
        out: &mut Vec<Effect>,
    ) -> (r: AppResults)
        requires
            old(self).wf(),
            now.wf(),
        ensures
            final(self).wf(),
            final(self)@ == old(self)@.key_step(key_event, now).0,
            r == old(self)@.key_step(key_event, now).1,
            views(final(out)@) == views(old(out)@) + old(self)@.key_step(key_event, now).2,
    {
        proof {
            lemma_encode_total(key_event, key_event);
        }
        match self.state {
            AppStates::Receiving => {
                if is_ctrl_a(key_event) {
                    self.state = AppStates::CatchKey;
                    self.tui.set_status_msg("CTRL-A Z for help", out);
                } else {
                    match encode(key_event) {
                        Some(data) => {
                            let first = data[0];
                            self.send_serial_data(data, now, out);
                            if self.options.add_line_feed && first == CARRIAGE_RETURN {
                                let lf = vec![LINE_FEED];
                                assert(lf@ =~= seq![LINE_FEED]);
                                self.send_serial_data(lf, now, out);
                            }
                        },
                        None => {},
                    }
                }
                assert(views(out@) =~= views(old(out)@) + old(self)@.key_step(key_event, now).2);
                AppResults::Continue
            },
            AppStates::CatchKey => {
                self.state = AppStates::Receiving;
                let ghost s0 = self@;
                let mut result = AppResults::Continue;
                let mut fresh = false;
                if is_ctrl_a(key_event) {
                    match encode(key_event) {
                        Some(data) => self.send_serial_data(data, now, out),
                        None => {},
                    }
                } else {
                    match key_event.code {
                        KeyCode::Char(c) => match get_command(c) {
                            Some(cmd) => {
                                let (r, f) = self.handle_command(cmd, out);
                                result = r;
                                fresh = f;
                            },
                            None => {},
                        },
                        _ => {},
                    }
                }
                assert(views(out@) =~= views(old(out)@) + s0.caught(key_event, now).2);
                if !fresh && self.tui.status_visible() {
                    self.tui.hide_status(out);
                }
                assert(views(out@) =~= views(old(out)@) + old(self)@.key_step(key_event, now).2);
                result
            },
            AppStates::MenuActive => {
                self.tui.leave_alt(&self.options, out);
                self.state = AppStates::Receiving;
                AppResults::Continue
            },
        }
    }

    /// Handles a key press at the time it is handled.
    pub fn handle_key_event(&mut self, key_event: KeyEvent, out: &mut Vec<Effect>) -> (r: AppResults)
        requires
            old(self).wf(),
        ensures
            final(self).wf(),
            exists|now: ClockTime|
                {
                    &&& now.wf()
                    &&& final(self)@ == old(self)@.key_step(key_event, now).0
                    &&& r == old(self)@.key_step(key_event, now).1
                    &&& views(final(out)@) == views(old(out)@) + old(self)@.key_step(
                        key_event,
                        now,
                    ).2
                },
    {
        let now = now_utc();
        self.handle_key_event_at(key_event, now, out)
    }

    /// Handles one event of the session's loop: a tick goes to the status
    /// line, received bytes to the screen, a key press to the key handling,
    /// and a request to terminate ends the session.
    pub fn handle_event(&mut self, event: Event, out: &mut Vec<Effect>) -> (r: AppResults)
        requires
            old(self).wf(),
        ensures
            final(self).wf(),
            event is Tick ==> r == AppResults::Continue && final(self)@ == old(self)@.ticked().0
                && views(final(out)@) == views(old(out)@) + old(self)@.ticked().1,
            event is Terminate ==> r == AppResults::Quit && final(self)@ == old(self)@
                && final(out)@ == old(out)@,
            event matches Event::Serial(data) ==> r == AppResults::Continue && exists|now: ClockTime|
                {
                    &&& now.wf()
                    &&& final(self)@ == old(self)@.incoming(lossy_text(data@), now).0
                    &&& views(final(out)@) == views(old(out)@) + old(self)@.incoming(
                        lossy_text(data@),
                        now,
                    ).1
                },
            event matches Event::Key(k) ==> exists|now: ClockTime|
                {
                    &&& now.wf()
                    &&& final(self)@ == old(self)@.key_step(k, now).0
                    &&& r == old(self)@.key_step(k, now).1
                    &&& views(final(out)@) == views(old(out)@) + old(self)@.key_step(k, now).2
                },
    {
        match event {
            Event::Tick => {
                self.tick(out);
                AppResults::Continue
            },
            Event::Serial(data) => {
                self.handle_serial_event(data.as_slice(), out);
                AppResults::Continue
            },
            Event::Key(k) => self.handle_key_event(k, out),
            Event::Terminate => AppResults::Quit,
        }
    }

    /// Ends the session: leaves the menu, printing what arrived meanwhile, and
    /// restores the screen.
    pub fn cleanup(&mut self, out: &mut Vec<Effect>)
        requires
            old(self).wf(),
        ensures
            final(self).wf(),
            final(self)@ == (AppView {
                state: AppStates::Receiving,
                tui: old(self)@.tui.left_alt(old(self)@.options).0,
                ..old(self)@
            }),
            views(final(out)@) == views(old(out)@) + old(self)@.tui.left_alt(old(self)@.options).1
                + (if old(self)@.tui.is_tty {
                seq![EffectView::CursorToLastRow]
            } else {
                seq![]
            }) + seq![EffectView::Print(seq!['\r', '\n'])],
    {
        self.tui.cleanup(&self.options, out);
        self.state = AppStates::Receiving;
    }
}

} // verus!
