use vstd::prelude::*;

verus! {

/// What the session asks of the outside world, in order: a write to the remote
/// device or an operation on the screen.
#[derive(Clone, Debug, PartialEq, Eq)]
pub enum Effect {
    /// Write these bytes to the remote device.
    Send(Vec<u8>),
    /// Print this text at the cursor.
    Print(Vec<char>),
    /// Clear the main screen and put the cursor at its top left.
    ClearScreen,
    /// Save the cursor and switch to the alternate screen.
    EnterAlternateScreen,
    /// Switch back to the main screen and restore the cursor.
    LeaveAlternateScreen,
    /// Draw the help menu on the alternate screen.
    DrawHelp,
    /// Show this text on the status line, replacing what it showed.
    ShowStatus(Vec<char>),
    /// Clear the status line.
    HideStatus,
    /// Put the cursor on the last row of the screen.
    CursorToLastRow,
}

/// An `Effect` with its payload as a sequence.
pub enum EffectView {
    Send(Seq<u8>),
    Print(Seq<char>),
    ClearScreen,
    EnterAlternateScreen,
    LeaveAlternateScreen,
    DrawHelp,
    ShowStatus(Seq<char>),
    HideStatus,
    CursorToLastRow,
}

impl View for Effect {
    type V = EffectView;

    open spec fn view(&self) -> EffectView {
        match self {
            Effect::Send(b) => EffectView::Send(b@),
            Effect::Print(t) => EffectView::Print(t@),
            Effect::ClearScreen => EffectView::ClearScreen,
            Effect::EnterAlternateScreen => EffectView::EnterAlternateScreen,
            Effect::LeaveAlternateScreen => EffectView::LeaveAlternateScreen,
            Effect::DrawHelp => EffectView::DrawHelp,
            Effect::ShowStatus(t) => EffectView::ShowStatus(t@),
            Effect::HideStatus => EffectView::HideStatus,
            Effect::CursorToLastRow => EffectView::CursorToLastRow,
        }
    }
}

/// The views of a list of effects.
pub open spec fn views(s: Seq<Effect>) -> Seq<EffectView> {
    s.map_values(|e: Effect| e@)
}

/// Appends one effect to `out`.
pub fn emit(out: &mut Vec<Effect>, e: Effect)
    ensures
        views(final(out)@) == views(old(out)@).push(e@),
{
    let ghost v = e@;
    out.push(e);
    assert(views(out@) =~= views(old(out)@).push(v));
}

/// Appends the characters of `s` to `out`.
pub fn append_chars(out: &mut Vec<char>, s: &Vec<char>)
    ensures
        final(out)@ == old(out)@ + s@,
{
    let mut i: usize = 0;
    while i < s.len()
        invariant
            i <= s@.len(),
            out@ == old(out)@ + s@.subrange(0, i as int),
        decreases s@.len() - i,
    {
        out.push(s[i]);
        i = i + 1;
        assert(out@ =~= old(out)@ + s@.subrange(0, i as int));
    }
    assert(s@.subrange(0, s@.len() as int) =~= s@);
}

/// Appends the characters of a string to `out`.
pub fn append_str(out: &mut Vec<char>, s: &str)
    ensures
        final(out)@ == old(out)@ + s@,
{
    let n: usize = s.unicode_len();
    let mut i: usize = 0;
    while i < n
        invariant
            n == s@.len(),
            i <= n,
            out@ == old(out)@ + s@.subrange(0, i as int),
        decreases n - i,
    {
        out.push(s.get_char(i));
        i = i + 1;
        assert(out@ =~= old(out)@ + s@.subrange(0, i as int));
    }
    assert(s@.subrange(0, n as int) =~= s@);
}

} // verus!
