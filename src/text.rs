use vstd::prelude::*;

verus! {

/// The text that `String::from_utf8_lossy` decodes from bytes.
pub uninterp spec fn lossy_text(b: Seq<u8>) -> Seq<char>;

/// Decodes bytes as UTF-8, each invalid sequence becoming U+FFFD.
///
/// Relies on `String::from_utf8_lossy`, whose result depends on the bytes
/// alone and is empty for no bytes.
#[verifier::external_body]
pub(crate) fn decode_lossy(bytes: &[u8]) -> (r: Vec<char>)
    ensures
        r@ == lossy_text(bytes@),
        bytes@.len() == 0 ==> r@.len() == 0,
{
    String::from_utf8_lossy(bytes).chars().collect()
}

/// `t` with each `c` replaced by `r`.
pub open spec fn replace_char(t: Seq<char>, c: char, r: Seq<char>) -> Seq<char>
    decreases t.len(),
{
    if t.len() == 0 {
        seq![]
    } else {
        replace_char(t.drop_last(), c, r) + if t.last() == c {
            r
        } else {
            seq![t.last()]
        }
    }
}

/// A line feed at `i` that no carriage return precedes.
pub open spec fn lone_lf_at(t: Seq<char>, i: int) -> bool {
    &&& t[i] == '\n'
    &&& (i == 0 || t[i - 1] != '\r')
}

/// A carriage return at `i` that no line feed follows.
pub open spec fn lone_cr_at(t: Seq<char>, i: int) -> bool {
    &&& t[i] == '\r'
    &&& (i + 1 == t.len() || t[i + 1] != '\n')
}

pub open spec fn has_lone_lf(t: Seq<char>) -> bool {
    exists|i: int| 0 <= i < t.len() && #[trigger] lone_lf_at(t, i)
}

pub open spec fn has_lone_cr(t: Seq<char>) -> bool {
    exists|i: int| 0 <= i < t.len() && #[trigger] lone_cr_at(t, i)
}

/// Line endings of a received text after normalisation. With carriage
/// returns inserted and a lone line feed in the text, every line feed gets a
/// carriage return before it; otherwise, with line feeds inserted and a lone
/// carriage return in the text, every carriage return gets a line feed after
/// it; otherwise the text is left as it is. The first rule that applies to the
/// whole text wins: the two are never both applied.
pub open spec fn normalize(t: Seq<char>, add_cr: bool, add_lf: bool) -> Seq<char> {
    if add_cr && has_lone_lf(t) {
        replace_char(t, '\n', seq!['\r', '\n'])
    } else if add_lf && has_lone_cr(t) {
        replace_char(t, '\r', seq!['\r', '\n'])
    } else {
        t
    }
}

fn find_lone_lf(t: &Vec<char>) -> (r: bool)
    ensures
        r == has_lone_lf(t@),
{
    let mut i: usize = 0;
    while i < t.len()
        invariant
            i <= t@.len(),
            forall|j: int| 0 <= j < i ==> !lone_lf_at(t@, j),
        decreases t@.len() - i,
    {
        if t[i] == '\n' && (i == 0 || t[i - 1] != '\r') {
            assert(lone_lf_at(t@, i as int));
            return true;
        }
        i = i + 1;
    }
    false
}

fn find_lone_cr(t: &Vec<char>) -> (r: bool)
    ensures
        r == has_lone_cr(t@),
{
    let mut i: usize = 0;
    while i < t.len()
        invariant
            i <= t@.len(),
            forall|j: int| 0 <= j < i ==> !lone_cr_at(t@, j),
        decreases t@.len() - i,
    {
        if t[i] == '\r' && (i + 1 == t.len() || t[i + 1] != '\n') {
            assert(lone_cr_at(t@, i as int));
            return true;
        }
        i = i + 1;
    }
    false
}

/// `t` with each `c` replaced by a carriage return and a line feed.
fn expand_to_crlf(t: &Vec<char>, c: char) -> (r: Vec<char>)
    ensures
        r@ == replace_char(t@, c, seq!['\r', '\n']),
{
    let mut out: Vec<char> = Vec::new();
    let mut i: usize = 0;
    while i < t.len()
        invariant
            i <= t@.len(),
            out@ == replace_char(t@.subrange(0, i as int), c, seq!['\r', '\n']),
        decreases t@.len() - i,
    {
        if t[i] == c {
            out.push('\r');
            out.push('\n');
        } else {
            out.push(t[i]);
        }
        assert(t@.subrange(0, i + 1).drop_last() =~= t@.subrange(0, i as int));
        assert(out@ =~= replace_char(t@.subrange(0, i + 1), c, seq!['\r', '\n']));
        i = i + 1;
    }
    assert(t@.subrange(0, t@.len() as int) =~= t@);
    out
}

/// Normalises the line endings of a received text.
pub fn normalize_line_endings(text: Vec<char>, add_cr: bool, add_lf: bool) -> (r: Vec<char>)
    ensures
        r@ == normalize(text@, add_cr, add_lf),
{
    if add_cr && find_lone_lf(&text) {
        expand_to_crlf(&text, '\n')
    } else if add_lf && find_lone_cr(&text) {
        expand_to_crlf(&text, '\r')
    } else {
        text
    }
}

} // verus!
