use vstd::prelude::*;
use std::collections::VecDeque;
use crate::clock::{ClockTime, format_prefix, timestamp_prefix};
use crate::effects::{Effect, EffectView, views, emit, append_chars, append_str};
use crate::options::{Options, Timestamp};
use crate::status::{StatusView, STATUS_DELAY_TICKS};
use crate::text::{normalize, normalize_line_endings};

verus! {

/// Whether the character at `i` of `t` starts a line, given whether the text
/// itself starts on a fresh line.
pub open spec fn starts_line(t: Seq<char>, i: int, at_start: bool) -> bool {
    if i == 0 {
        at_start
    } else {
        t[i - 1] == '\n'
    }
}

/// `t` with `prefix` before the first character of each line. The first
/// character of `t` gets it only if `at_start`, that is if the screen's
/// cursor stands at the start of a line.
pub open spec fn stamped(t: Seq<char>, at_start: bool, prefix: Seq<char>) -> Seq<char>
    decreases t.len(),
{
    if t.len() == 0 {
        seq![]
    } else {
        let i = t.len() - 1;
        stamped(t.drop_last(), at_start, prefix) + if starts_line(t, i, at_start) {
            prefix
        } else {
            seq![]
        } + seq![t[i]]
    }
}

/// Whether the cursor stands at the start of a line after printing `t`.
pub open spec fn ends_line(t: Seq<char>, on_newline: bool) -> bool {
    if t.len() == 0 {
        on_newline
    } else {
        t.last() == '\n'
    }
}

/// What printing a text at `time` shows: its lines, each prefixed by the
/// timestamp of the mode where it starts on a fresh line.
pub open spec fn render_text(on_newline: bool, mode: Timestamp, time: ClockTime, text: Seq<char>) -> Seq<char> {
    stamped(text, on_newline, timestamp_prefix(mode, time))
}

/// Printing queued texts in order, each with its own time and normalised
/// line endings: where the cursor ends, and the effects.
pub open spec fn print_all(
    on_newline: bool,
    mode: Timestamp,
    q: Seq<(ClockTime, Seq<char>)>,
    add_cr: bool,
    add_lf: bool,
) -> (bool, Seq<EffectView>)
    decreases q.len(),
{
    if q.len() == 0 {
        (on_newline, seq![])
    } else {
        let (nl, effs) = print_all(on_newline, mode, q.drop_last(), add_cr, add_lf);
        let text = normalize(q.last().1, add_cr, add_lf);
        (ends_line(text, nl), effs.push(EffectView::Print(render_text(nl, mode, q.last().0, text))))
    }
}

/// A received text kept back while the alternate screen is shown, with the
/// time it arrived.
pub struct PendingEntry {
    pub time: ClockTime,
    pub text: Vec<char>,
}

/// The screen as the session sees it.
pub struct Tui {
    is_tty: bool,
    on_alternate_screen: bool,
    on_newline: bool,
    prefix_timestamp: Timestamp,
    queue: VecDeque<PendingEntry>,
    status_msg: Vec<char>,
    status_delay: u64,
}

/// The state of the screen: whether it is a terminal, whether the alternate
/// screen is shown, whether the cursor is at the start of a line, the
/// timestamp mode, the texts kept back, oldest first, and the status line.
pub struct TuiView {
    pub is_tty: bool,
    pub on_alternate_screen: bool,
    pub on_newline: bool,
    pub prefix_timestamp: Timestamp,
    pub queue: Seq<(ClockTime, Seq<char>)>,
    pub status: StatusView,
}

impl TuiView {
    /// Texts are kept back only while the alternate screen is shown, and each
    /// has a valid time.
    pub open spec fn wf(self) -> bool {
        &&& !self.on_alternate_screen ==> self.queue.len() == 0
        &&& self.times_wf()
    }

    /// Each text kept back has a valid time.
    pub open spec fn times_wf(self) -> bool {
        forall|i: int| 0 <= i < self.queue.len() ==> (#[trigger] self.queue[i]).0.wf()
    }

    /// A received text arrives at `time`: kept back while the alternate
    /// screen is shown, printed otherwise with normalised line endings.
    pub open spec fn incoming(self, text: Seq<char>, time: ClockTime, opts: Options) -> (TuiView, Seq<EffectView>) {
        if self.on_alternate_screen {
            (TuiView { queue: self.queue.push((time, text)), ..self }, seq![])
        } else {
            let n = normalize(text, opts.add_carriage_return, opts.add_line_feed);
            (
                TuiView { on_newline: ends_line(n, self.on_newline), ..self },
                seq![EffectView::Print(render_text(self.on_newline, self.prefix_timestamp, time, n))],
            )
        }
    }

    /// Leaving the alternate screen, and printing what was kept back, in the
    /// order it came.
    pub open spec fn left_alt(self, opts: Options) -> (TuiView, Seq<EffectView>) {
        if !self.on_alternate_screen {
            (self, seq![])
        } else {
            let (nl, effs) = print_all(
                self.on_newline,
                self.prefix_timestamp,
                self.queue,
                opts.add_carriage_return,
                opts.add_line_feed,
            );
            (
                TuiView { on_alternate_screen: false, on_newline: nl, queue: seq![], ..self },
                seq![EffectView::LeaveAlternateScreen] + effs,
            )
        }
    }

    /// Switching to the alternate screen.
    pub open spec fn entered_alt(self) -> (TuiView, Seq<EffectView>) {
        if self.on_alternate_screen {
            (self, seq![])
        } else {
            (TuiView { on_alternate_screen: true, ..self }, seq![EffectView::EnterAlternateScreen])
        }
    }
}

impl View for Tui {
    type V = TuiView;

    closed spec fn view(&self) -> TuiView {
        TuiView {
            is_tty: self.is_tty,
            on_alternate_screen: self.on_alternate_screen,
            on_newline: self.on_newline,
            prefix_timestamp: self.prefix_timestamp,
            queue: self.queue@.map_values(|e: PendingEntry| (e.time, e.text@)),
            status: StatusView { text: self.status_msg@, ticks_left: self.status_delay as nat },
        }
    }
}

impl Tui {
    /// A screen in its initial state: main screen, cursor not at the start of
    /// a line, no timestamps, nothing kept back, nothing on the status line.
    pub fn init(is_tty: bool) -> (r: Tui)
        ensures
            r@ == (TuiView {
                is_tty,
                on_alternate_screen: false,
                on_newline: false,
                prefix_timestamp: Timestamp::Off,
                queue: seq![],
                status: StatusView::hidden(),
            }),
    {
        let r = Tui {
            is_tty,
            on_alternate_screen: false,
            on_newline: false,
            prefix_timestamp: Timestamp::Off,
            queue: VecDeque::new(),
            status_msg: Vec::new(),
            status_delay: 0,
        };
        assert(r@.queue =~= seq![]);
        assert(r@.status.text =~= seq![]);
        r
    }

    /// Whether the screen is a terminal, where menus can be shown.
    pub fn is_tty(&self) -> (r: bool)
        ensures
            r == self@.is_tty,
    {
        self.is_tty
    }

    /// Whether the alternate screen is shown.
    pub fn on_alternate_screen(&self) -> (r: bool)
        ensures
            r == self@.on_alternate_screen,
    {
        self.on_alternate_screen
    }

    /// Sets the timestamp mode of the lines printed from now on.
    pub fn set_prefix_timestamp(&mut self, timestamp: Timestamp)
        ensures
            final(self)@ == (TuiView { prefix_timestamp: timestamp, ..old(self)@ }),
    {
        self.prefix_timestamp = timestamp;
    }

    /// Prints text on the main screen as it is, without timestamps.
    pub fn print_to_screen(&self, text: Vec<char>, out: &mut Vec<Effect>)
        requires
            !self@.on_alternate_screen,
        ensures
            views(final(out)@) == views(old(out)@).push(EffectView::Print(text@)),
    {
        emit(out, Effect::Print(text));
    }

    /// Clears the main screen.
    pub fn clear_screen(&self, out: &mut Vec<Effect>)
        requires
            !self@.on_alternate_screen,
        ensures
            views(final(out)@) == views(old(out)@).push(EffectView::ClearScreen),
    {
        emit(out, Effect::ClearScreen);
    }

    /// Draws the help menu on the alternate screen.
    pub fn draw_ui(&self, out: &mut Vec<Effect>)
        requires
            self@.on_alternate_screen,
        ensures
            views(final(out)@) == views(old(out)@).push(EffectView::DrawHelp),
    {
        emit(out, Effect::DrawHelp);
    }

    /// Whether a message is on the status line.
    pub fn status_visible(&self) -> (r: bool)
        ensures
            r == self@.status.visible(),
    {
        self.status_delay > 0
    }

    /// Shows `prefix` followed by `val` on the status line for the full
    /// delay, replacing any message and what was left of its time.
    pub fn set_status(&mut self, prefix: &str, val: &str, out: &mut Vec<Effect>)
        ensures
            final(self)@ == (TuiView { status: StatusView::showing(prefix@ + val@), ..old(self)@ }),
            views(final(out)@) == views(old(out)@).push(
                EffectView::ShowStatus(prefix@ + val@),
            ),
    {
        let mut text: Vec<char> = Vec::new();
        append_str(&mut text, prefix);
        append_str(&mut text, val);
        let mut shown: Vec<char> = Vec::new();
        append_str(&mut shown, prefix);
        append_str(&mut shown, val);
        self.status_msg = text;
        self.status_delay = STATUS_DELAY_TICKS;
        emit(out, Effect::ShowStatus(shown));
    }

    /// Shows a message on the status line for the full delay, replacing any
    /// message and what was left of its time.
    pub fn set_status_msg(&mut self, msg: &str, out: &mut Vec<Effect>)
        ensures
            final(self)@ == (TuiView { status: StatusView::showing(msg@), ..old(self)@ }),
            views(final(out)@) == views(old(out)@).push(EffectView::ShowStatus(msg@)),
    {
        self.set_status(msg, "", out);
        assert(msg@ + ""@ =~= msg@) by {
            reveal_strlit("");
        }
    }

    /// Hides the status message at once, whatever time it had left.
    pub fn hide_status(&mut self, out: &mut Vec<Effect>)
        ensures
            final(self)@ == (TuiView { status: StatusView::hidden(), ..old(self)@ }),
            views(final(out)@) == views(old(out)@).push(EffectView::HideStatus),
    {
        self.status_msg = Vec::new();
        self.status_delay = 0;
        assert(self@.status.text =~= seq![]);
        emit(out, Effect::HideStatus);
    }

    /// Counts one tick of the timer against the status message.
    pub fn tick_status(&mut self, out: &mut Vec<Effect>)
        ensures
            final(self)@ == (TuiView { status: old(self)@.status.ticked().0, ..old(self)@ }),
            views(final(out)@) == views(old(out)@) + old(self)@.status.ticked().1,
    {
        if self.status_delay != 0 {
            self.status_delay = self.status_delay - 1;
            if self.status_delay == 0 {
                self.hide_status(out);
                return;
            }
        }
        assert(views(out@) =~= views(old(out)@) + old(self)@.status.ticked().1);
    }

    /// Prints a text on the main screen at `time`, prefixing each line that
    /// starts on a fresh line with the timestamp.
    fn print_line(&mut self, time: &ClockTime, text: &Vec<char>, out: &mut Vec<Effect>)
        requires
            time.wf(),
        ensures
            final(self)@ == (TuiView {
                on_newline: ends_line(text@, old(self)@.on_newline),
                ..old(self)@
            }),
            views(final(out)@) == views(old(out)@).push(
                EffectView::Print(
                    render_text(old(self)@.on_newline, old(self)@.prefix_timestamp, *time, text@),
                ),
            ),
    {
        let prefix = format_prefix(self.prefix_timestamp, time);
        let mut printed: Vec<char> = Vec::new();
        let mut at_start = self.on_newline;
        let mut i: usize = 0;
        while i < text.len()
            invariant
                i <= text@.len(),
                printed@ == stamped(text@.subrange(0, i as int), self.on_newline, prefix@),
                at_start == ends_line(text@.subrange(0, i as int), self.on_newline),
            decreases text@.len() - i,
        {
            let ghost before = text@.subrange(0, i as int);
            let ghost after = text@.subrange(0, i + 1);
            assert(after.drop_last() =~= before);
            if at_start {
                append_chars(&mut printed, &prefix);
            }
            printed.push(text[i]);
            at_start = text[i] == '\n';
            i = i + 1;
            assert(printed@ =~= stamped(after, self.on_newline, prefix@));
        }
        assert(text@.subrange(0, text@.len() as int) =~= text@);
        self.on_newline = at_start;
        emit(out, Effect::Print(printed));
    }

    /// Takes a received text that arrived at `time`: keeps it back while the
    /// alternate screen is shown, and prints it otherwise, with its line
    /// endings normalised.
    pub fn print_or_queue(
        &mut self,
        text: Vec<char>,
        time: ClockTime,
        opts: &Options,
        out: &mut Vec<Effect>,
    )
        requires
            old(self)@.wf(),
            time.wf(),
        ensures
            final(self)@.wf(),
            final(self)@ == old(self)@.incoming(text@, time, *opts).0,
            views(final(out)@) == views(old(out)@) + old(self)@.incoming(text@, time, *opts).1,
    {
        if self.on_alternate_screen {
            let ghost q = self@.queue;
            let ghost t = text@;
            self.queue.push_back(PendingEntry { time, text });
            assert(self@.queue =~= q.push((time, t)));
            assert forall|i: int| 0 <= i < self@.queue.len() implies (#[trigger] self@.queue[i]).0.wf() by {
                if i < q.len() {
                    assert(self@.queue[i] == q[i]);
                }
            }
            assert(views(out@) =~= views(old(out)@) + seq![]);
        } else {
            let normalized = normalize_line_endings(
                text,
                opts.add_carriage_return,
                opts.add_line_feed,
            );
            self.print_line(&time, &normalized, out);
            assert(views(out@) =~= views(old(out)@) + old(self)@.incoming(text@, time, *opts).1);
        }
    }

    /// Prints the texts kept back, oldest first, each at its own time.
    fn flush_print_queue(&mut self, opts: &Options, out: &mut Vec<Effect>)
        requires
            old(self)@.times_wf(),
        ensures
            final(self)@ == (TuiView {
                on_newline: print_all(
                    old(self)@.on_newline,
                    old(self)@.prefix_timestamp,
                    old(self)@.queue,
                    opts.add_carriage_return,
                    opts.add_line_feed,
                ).0,
                queue: seq![],
                ..old(self)@
            }),
            views(final(out)@) == views(old(out)@) + print_all(
                old(self)@.on_newline,
                old(self)@.prefix_timestamp,
                old(self)@.queue,
                opts.add_carriage_return,
                opts.add_line_feed,
            ).1,
    {
        let ghost q0 = self@.queue;
        let ghost n: int = q0.len() as int;
        let ghost start = self@;
        let ghost out0 = views(out@);
        let add_cr = opts.add_carriage_return;
        let add_lf = opts.add_line_feed;
        assert(q0.subrange(0, 0) =~= seq![]);
        assert(q0.subrange(0, n as int) =~= q0);
        while self.queue.len() > 0
            invariant
                0 <= n - self@.queue.len() <= n,
                n == q0.len(),
                self@.queue == q0.subrange(n - self@.queue.len(), n as int),
                forall|i: int| 0 <= i < q0.len() ==> (#[trigger] q0[i]).0.wf(),
                self@ == (TuiView {
                    on_newline: print_all(
                        start.on_newline,
                        start.prefix_timestamp,
                        q0.subrange(0, n - self@.queue.len()),
                        add_cr,
                        add_lf,
                    ).0,
                    queue: self@.queue,
                    ..start
                }),
                views(out@) == out0 + print_all(
                    start.on_newline,
                    start.prefix_timestamp,
                    q0.subrange(0, n - self@.queue.len()),
                    add_cr,
                    add_lf,
                ).1,
            decreases self@.queue.len(),
        {
            let ghost k = n - self@.queue.len();
            let ghost done = q0.subrange(0, k);
            let ghost next = q0.subrange(0, k + 1);
            let ghost rest = self@.queue;
            let ghost raw = self.queue@;
            assert(rest.len() > 0);
            assert(0 <= k < n);
            assert(rest[0] == (raw[0].time, raw[0].text@));
            assert(rest[0] == q0[k]);
            let item = self.queue.pop_front();
            match item {
                Some(entry) => {
                    assert(self@.queue =~= rest.subrange(1, rest.len() as int));
                    assert(self@.queue =~= q0.subrange(k + 1, n));
                    assert(next.drop_last() =~= done);
                    assert(next.last() == q0[k]);
                    assert(q0[k] == (entry.time, entry.text@));
                    let normalized = normalize_line_endings(entry.text, add_cr, add_lf);
                    self.print_line(&entry.time, &normalized, out);
                    assert(views(out@) =~= out0 + print_all(
                        start.on_newline,
                        start.prefix_timestamp,
                        next,
                        add_cr,
                        add_lf,
                    ).1);
                },
                None => {},
            }
        }
        assert(self@.queue =~= seq![]);
    }

    /// Switches to the alternate screen, if it is not shown already.
    pub fn enter_alt(&mut self, out: &mut Vec<Effect>)
        requires
            old(self)@.wf(),
        ensures
            final(self)@.wf(),
            final(self)@ == old(self)@.entered_alt().0,
            views(final(out)@) == views(old(out)@) + old(self)@.entered_alt().1,
    {
        if !self.on_alternate_screen {
            emit(out, Effect::EnterAlternateScreen);
            self.on_alternate_screen = true;
        }
        assert(views(out@) =~= views(old(out)@) + old(self)@.entered_alt().1);
    }

    /// Switches back to the main screen, if the alternate one is shown, and
    /// prints what was kept back meanwhile.
    pub fn leave_alt(&mut self, opts: &Options, out: &mut Vec<Effect>)
        requires
            old(self)@.wf(),
        ensures
            final(self)@.wf(),
            final(self)@ == old(self)@.left_alt(*opts).0,
            views(final(out)@) == views(old(out)@) + old(self)@.left_alt(*opts).1,
    {
        if self.on_alternate_screen {
            emit(out, Effect::LeaveAlternateScreen);
            self.on_alternate_screen = false;
            self.flush_print_queue(opts, out);
        }
        assert(views(out@) =~= views(old(out)@) + old(self)@.left_alt(*opts).1);
    }

    /// Restores the screen at the end of a session: leaves the alternate
    /// screen, printing what was kept back, and ends on a fresh line at the
    /// bottom of the terminal.
    pub fn cleanup(&mut self, opts: &Options, out: &mut Vec<Effect>)
        requires
            old(self)@.wf(),
        ensures
            final(self)@.wf(),
            final(self)@ == old(self)@.left_alt(*opts).0,
            views(final(out)@) == views(old(out)@) + old(self)@.left_alt(*opts).1 + (if old(
                self,
            )@.is_tty {
                seq![EffectView::CursorToLastRow]
            } else {
                seq![]
            }) + seq![EffectView::Print(seq!['\r', '\n'])],
    {
        self.leave_alt(opts, out);
        if self.is_tty {
            emit(out, Effect::CursorToLastRow);
        }
        let mut newline: Vec<char> = Vec::new();
        newline.push('\r');
        newline.push('\n');
        assert(newline@ =~= seq!['\r', '\n']);
        emit(out, Effect::Print(newline));
        assert(views(out@) =~= views(old(out)@) + old(self)@.left_alt(*opts).1 + (if old(
            self,
        )@.is_tty {
            seq![EffectView::CursorToLastRow]
        } else {
            seq![]
        }) + seq![EffectView::Print(seq!['\r', '\n'])]);
    }
}

} // verus!
