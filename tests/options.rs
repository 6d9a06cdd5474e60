use serial_term::options::{get_command, on_off, Commands, Options, Timestamp, ToggleOption};

#[test]
fn timestamp_cycles_off_simple_extended() {
    assert_eq!(Timestamp::Off.next(), Timestamp::Simple);
    assert_eq!(Timestamp::Simple.next(), Timestamp::Extend);
    assert_eq!(Timestamp::Extend.next(), Timestamp::Off);
    let mut t = Timestamp::Simple;
    for _ in 0..3 {
        t = t.next();
    }
    assert_eq!(t, Timestamp::Simple);
}

#[test]
fn timestamp_names() {
    assert_eq!(Timestamp::Off.val_to_str(), "Off");
    assert_eq!(Timestamp::Simple.val_to_str(), "Simple");
    assert_eq!(Timestamp::Extend.val_to_str(), "Extended");
    assert_eq!(on_off(true), "On");
    assert_eq!(on_off(false), "Off");
}

#[test]
fn command_characters() {
    assert_eq!(get_command('q'), Some(Commands::Quit));
    assert_eq!(get_command('x'), Some(Commands::Exit));
    assert_eq!(get_command('e'), Some(Commands::ToggleLocalEcho));
    assert_eq!(get_command('a'), Some(Commands::ToggleLineFeed));
    assert_eq!(get_command('u'), Some(Commands::ToggleCarriageReturn));
    assert_eq!(get_command('n'), Some(Commands::ToggleTimestamp));
    assert_eq!(get_command('c'), Some(Commands::ClearScreen));
    assert_eq!(get_command('z'), Some(Commands::ShowHelp));
    assert_eq!(get_command('b'), None);
    assert_eq!(get_command('Q'), None);
}

fn status(o: &Options, which: ToggleOption) -> String {
    format!("{}{}", which.label(), o.value_text(which))
}

#[test]
fn toggling_a_switch_twice_restores_it() {
    for which in [ToggleOption::LocalEcho, ToggleOption::InsertLineFeed, ToggleOption::InsertCarriageReturn] {
        let start = Options::new();
        let mut o = start;
        let before = status(&o, which);
        o.toggle(which);
        assert_ne!(o, start);
        assert_ne!(status(&o, which), before);
        o.toggle(which);
        assert_eq!(o, start);
        assert_eq!(status(&o, which), before);
    }
}

#[test]
fn status_texts() {
    let mut o = Options::new();
    assert_eq!(status(&o, ToggleOption::LocalEcho), "Local echo is Off");
    o.toggle(ToggleOption::LocalEcho);
    assert_eq!(status(&o, ToggleOption::LocalEcho), "Local echo is On");
    o.toggle(ToggleOption::InsertLineFeed);
    assert_eq!(status(&o, ToggleOption::InsertLineFeed), "Insert line feed is On");
    assert_eq!(status(&o, ToggleOption::InsertCarriageReturn), "Insert carriage return is Off");
    o.toggle(ToggleOption::TimestampMode);
    assert_eq!(status(&o, ToggleOption::TimestampMode), "Timestamp Simple");
    o.toggle(ToggleOption::TimestampMode);
    assert_eq!(status(&o, ToggleOption::TimestampMode), "Timestamp Extended");
    o.toggle(ToggleOption::TimestampMode);
    assert_eq!(status(&o, ToggleOption::TimestampMode), "Timestamp Off");
}

#[test]
fn commands_map_to_options() {
    assert_eq!(ToggleOption::of_command(Commands::ToggleLocalEcho), Some(ToggleOption::LocalEcho));
    assert_eq!(ToggleOption::of_command(Commands::ToggleLineFeed), Some(ToggleOption::InsertLineFeed));
    assert_eq!(
        ToggleOption::of_command(Commands::ToggleCarriageReturn),
        Some(ToggleOption::InsertCarriageReturn)
    );
    assert_eq!(ToggleOption::of_command(Commands::ToggleTimestamp), Some(ToggleOption::TimestampMode));
    assert_eq!(ToggleOption::of_command(Commands::Quit), None);
    assert_eq!(ToggleOption::of_command(Commands::ShowHelp), None);
}
