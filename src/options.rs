use vstd::prelude::*;

verus! {

/// How received lines are prefixed with the time of their arrival.
#[derive(Clone, Copy, PartialEq, Eq, Debug, Structural)]
pub enum Timestamp {
    Simple,
    Extend,
    Off,
}

impl Timestamp {
    /// The mode that follows `self`: Off, Simple, Extended and back to Off.
    pub open spec fn spec_next(self) -> Timestamp {
        match self {
            Timestamp::Off => Timestamp::Simple,
            Timestamp::Simple => Timestamp::Extend,
            Timestamp::Extend => Timestamp::Off,
        }
    }

    /// Advances to the next mode of the cycle Off, Simple, Extended.
    pub fn next(&self) -> (r: Self)
        ensures
            r == self.spec_next(),
    {
        match *self {
            Timestamp::Off => Timestamp::Simple,
            Timestamp::Simple => Timestamp::Extend,
            Timestamp::Extend => Timestamp::Off,
        }
    }

    /// The name of the mode.
    pub open spec fn spec_name(self) -> Seq<char> {
        match self {
            Timestamp::Simple => "Simple"@,
            Timestamp::Extend => "Extended"@,
            Timestamp::Off => "Off"@,
        }
    }

    /// The name of the mode, as the status line shows it.
    pub fn val_to_str(&self) -> (r: &'static str)
        ensures
            r@ == self.spec_name(),
    {
        match *self {
            Timestamp::Simple => "Simple",
            Timestamp::Extend => "Extended",
            Timestamp::Off => "Off",
        }
    }
}

/// The text of a switch's state.
pub open spec fn spec_on_off(b: bool) -> Seq<char> {
    if b {
        "On"@
    } else {
        "Off"@
    }
}

/// The text of a switch's state, as the status line shows it.
pub fn on_off(b: bool) -> (r: &'static str)
    ensures
        r@ == spec_on_off(b),
{
    if b {
        "On"
    } else {
        "Off"
    }
}

/// The local commands, each reached by the prefix key and one character.
#[derive(Clone, Copy, PartialEq, Eq, Debug, Structural)]
pub enum Commands {
    Quit,
    Exit,
    ToggleLocalEcho,
    ToggleLineFeed,
    ToggleCarriageReturn,
    ToggleTimestamp,
    ClearScreen,
    ShowHelp,
}

/// The command bound to a character, if any.
pub open spec fn command_of(c: char) -> Option<Commands> {
    match c {
        'q' => Some(Commands::Quit),
        'x' => Some(Commands::Exit),
        'e' => Some(Commands::ToggleLocalEcho),
        'a' => Some(Commands::ToggleLineFeed),
        'u' => Some(Commands::ToggleCarriageReturn),
        'n' => Some(Commands::ToggleTimestamp),
        'c' => Some(Commands::ClearScreen),
        'z' => Some(Commands::ShowHelp),
        _ => None,
    }
}

/// Looks up the command bound to a character.
pub fn get_command(cmd: char) -> (r: Option<Commands>)
    ensures
        r == command_of(cmd),
{
    match cmd {
        'q' => Some(Commands::Quit),
        'x' => Some(Commands::Exit),
        'e' => Some(Commands::ToggleLocalEcho),
        'a' => Some(Commands::ToggleLineFeed),
        'u' => Some(Commands::ToggleCarriageReturn),
        'n' => Some(Commands::ToggleTimestamp),
        'c' => Some(Commands::ClearScreen),
        'z' => Some(Commands::ShowHelp),
        _ => None,
    }
}

/// The options that the toggle commands switch.
#[derive(Clone, Copy, PartialEq, Eq, Debug, Structural)]
pub enum ToggleOption {
    LocalEcho,
    InsertLineFeed,
    InsertCarriageReturn,
    TimestampMode,
}

impl ToggleOption {
    /// The option that a command toggles, if it toggles one.
    pub open spec fn spec_of_command(cmd: Commands) -> Option<ToggleOption> {
        match cmd {
            Commands::ToggleLocalEcho => Some(ToggleOption::LocalEcho),
            Commands::ToggleLineFeed => Some(ToggleOption::InsertLineFeed),
            Commands::ToggleCarriageReturn => Some(ToggleOption::InsertCarriageReturn),
            Commands::ToggleTimestamp => Some(ToggleOption::TimestampMode),
            _ => None,
        }
    }

    /// The option that a command toggles, if it toggles one.
    pub fn of_command(cmd: Commands) -> (r: Option<ToggleOption>)
        ensures
            r == Self::spec_of_command(cmd),
    {
        match cmd {
            Commands::ToggleLocalEcho => Some(ToggleOption::LocalEcho),
            Commands::ToggleLineFeed => Some(ToggleOption::InsertLineFeed),
            Commands::ToggleCarriageReturn => Some(ToggleOption::InsertCarriageReturn),
            Commands::ToggleTimestamp => Some(ToggleOption::TimestampMode),
            _ => None,
        }
    }

    /// Whether the option is an on/off switch.
    pub open spec fn is_switch(self) -> bool {
        self != ToggleOption::TimestampMode
    }

    /// The label of the option followed by what joins it to its value.
    pub open spec fn spec_label(self) -> Seq<char> {
        match self {
            ToggleOption::LocalEcho => "Local echo is "@,
            ToggleOption::InsertLineFeed => "Insert line feed is "@,
            ToggleOption::InsertCarriageReturn => "Insert carriage return is "@,
            ToggleOption::TimestampMode => "Timestamp "@,
        }
    }

    /// The label of the option followed by what joins it to its value.
    pub fn label(&self) -> (r: &'static str)
        ensures
            r@ == self.spec_label(),
    {
        match *self {
            ToggleOption::LocalEcho => "Local echo is ",
            ToggleOption::InsertLineFeed => "Insert line feed is ",
            ToggleOption::InsertCarriageReturn => "Insert carriage return is ",
            ToggleOption::TimestampMode => "Timestamp ",
        }
    }
}

/// The settings of the session that the toggle commands change.
#[derive(Clone, Copy, PartialEq, Eq, Debug, Structural)]
pub struct Options {
    /// Received text and sent keys are both shown.
    pub local_echo: bool,
    /// A line feed follows each carriage return.
    pub add_line_feed: bool,
    /// A carriage return precedes each line feed.
    pub add_carriage_return: bool,
    /// How received lines are prefixed with the time.
    pub timestamp: Timestamp,
}

impl Options {
    /// The settings a session starts with: every switch off, no timestamps.
    pub open spec fn spec_initial() -> Options {
        Options {
            local_echo: false,
            add_line_feed: false,
            add_carriage_return: false,
            timestamp: Timestamp::Off,
        }
    }

    /// The settings a session starts with.
    pub fn new() -> (r: Options)
        ensures
            r == Options::spec_initial(),
    {
        Options {
            local_echo: false,
            add_line_feed: false,
            add_carriage_return: false,
            timestamp: Timestamp::Off,
        }
    }

    /// The settings after toggling one option: a switch flips, the timestamp
    /// mode moves on in its cycle.
    pub open spec fn toggled(self, which: ToggleOption) -> Options {
        match which {
            ToggleOption::LocalEcho => Options { local_echo: !self.local_echo, ..self },
            ToggleOption::InsertLineFeed => Options { add_line_feed: !self.add_line_feed, ..self },
            ToggleOption::InsertCarriageReturn => Options {
                add_carriage_return: !self.add_carriage_return,
                ..self
            },
            ToggleOption::TimestampMode => Options { timestamp: self.timestamp.spec_next(), ..self },
        }
    }

    /// Toggles one option.
    pub fn toggle(&mut self, which: ToggleOption)
        ensures
            *final(self) == old(self).toggled(which),
    {
        match which {
            ToggleOption::LocalEcho => self.local_echo = !self.local_echo,
            ToggleOption::InsertLineFeed => self.add_line_feed = !self.add_line_feed,
            ToggleOption::InsertCarriageReturn => self.add_carriage_return =
                !self.add_carriage_return,
            ToggleOption::TimestampMode => self.timestamp = self.timestamp.next(),
        }
    }

    /// The text of an option's current value.
    pub open spec fn spec_value_text(self, which: ToggleOption) -> Seq<char> {
        match which {
            ToggleOption::LocalEcho => spec_on_off(self.local_echo),
            ToggleOption::InsertLineFeed => spec_on_off(self.add_line_feed),
            ToggleOption::InsertCarriageReturn => spec_on_off(self.add_carriage_return),
            ToggleOption::TimestampMode => self.timestamp.spec_name(),
        }
    }

    /// The text of an option's current value.
    pub fn value_text(&self, which: ToggleOption) -> (r: &'static str)
        ensures
            r@ == self.spec_value_text(which),
    {
        match which {
            ToggleOption::LocalEcho => on_off(self.local_echo),
            ToggleOption::InsertLineFeed => on_off(self.add_line_feed),
            ToggleOption::InsertCarriageReturn => on_off(self.add_carriage_return),
            ToggleOption::TimestampMode => self.timestamp.val_to_str(),
        }
    }

    /// The status line that reports an option's current value:
    /// `<label> is On`, `<label> is Off`, or `Timestamp <mode>`.
    pub open spec fn status_text(self, which: ToggleOption) -> Seq<char> {
        which.spec_label() + self.spec_value_text(which)
    }
}

/// The timestamp modes come in the cycle Off, Simple, Extended, Off, and in no
/// other order: each mode has one successor, and three steps lead back.
pub proof fn lemma_timestamp_cycle(t: Timestamp)
    ensures
        Timestamp::Off.spec_next() == Timestamp::Simple,
        Timestamp::Simple.spec_next() == Timestamp::Extend,
        Timestamp::Extend.spec_next() == Timestamp::Off,
        t.spec_next() != t,
        t.spec_next().spec_next() != t,
        t.spec_next().spec_next().spec_next() == t,
{
}

/// Toggling a switch twice restores its value and the status line that
/// reports it.
pub proof fn lemma_toggle_twice(o: Options, which: ToggleOption)
    requires
        which.is_switch(),
    ensures
        o.toggled(which).toggled(which) == o,
        o.toggled(which).toggled(which).status_text(which) == o.status_text(which),
{
}

} // verus!
