use vstd::prelude::*;

verus! {

/// Unicode's White_Space property.
pub open spec fn is_white_space(c: char) -> bool {
    ('\u{9}' <= c && c <= '\u{d}') || c == ' ' || c == '\u{85}' || c == '\u{a0}' || c == '\u{1680}'
        || ('\u{2000}' <= c && c <= '\u{200a}') || c == '\u{2028}' || c == '\u{2029}' || c == '\u{202f}'
        || c == '\u{205f}' || c == '\u{3000}'
}

/// Relies on `char::is_whitespace`: true exactly for characters with the
/// White_Space property.
#[verifier::external_body]
fn white_space(c: char) -> (r: bool)
    ensures
        r == is_white_space(c),
{
    c.is_whitespace()
}

/// A piece of a migration file is run unless it is blank or starts with `--`.
pub open spec fn is_runnable(piece: Seq<char>) -> bool {
    &&& exists|i: int| 0 <= i < piece.len() && !is_white_space(#[trigger] piece[i])
    &&& !(piece.len() >= 2 && piece[0] == '-' && piece[1] == '-')
}

/// Reading `text` left to right, with line feeds dropped: the runnable pieces
/// closed by a `;` so far, and the piece still open.
pub open spec fn scan(text: Seq<char>) -> (Seq<Seq<char>>, Seq<char>)
    decreases text.len(),
{
    if text.len() == 0 {
        (Seq::empty(), Seq::empty())
    } else {
        let (done, open) = scan(text.drop_last());
        let c = text.last();
        if c == '\n' {
            (done, open)
        } else if c == ';' {
            (if is_runnable(open) { done.push(open) } else { done }, Seq::empty())
        } else {
            (done, open.push(c))
        }
    }
}

/// The statements of a migration file: its text without line feeds, split at
/// each `;`, keeping the runnable pieces in order.
pub open spec fn statements(text: Seq<char>) -> Seq<Seq<char>> {
    let (done, open) = scan(text);
    if is_runnable(open) { done.push(open) } else { done }
}

fn runnable(piece: &Vec<char>) -> (r: bool)
    ensures
        r == is_runnable(piece@),
{
    let mut blank = true;
    let mut i: usize = 0;
    while i < piece.len()
        invariant
            i <= piece@.len(),
            blank == forall|j: int| 0 <= j < i ==> is_white_space(#[trigger] piece@[j]),
        decreases piece@.len() - i,
    {
        if !white_space(piece[i]) {
            blank = false;
        }
        i = i + 1;
    }
    let comment = piece.len() >= 2 && piece[0] == '-' && piece[1] == '-';
    !blank && !comment
}

/// Splits the text of a migration file into the statements to run.
pub fn migration_statements(text: &Vec<char>) -> (r: Vec<Vec<char>>)
    ensures
        r@.map_values(|s: Vec<char>| s@) == statements(text@),
{
    let mut done: Vec<Vec<char>> = Vec::new();
    let mut open: Vec<char> = Vec::new();
    let mut i: usize = 0;
    while i < text.len()
        invariant
            i <= text@.len(),
            (done@.map_values(|s: Vec<char>| s@), open@) == scan(text@.subrange(0, i as int)),
        decreases text@.len() - i,
    {
        let c = text[i];
        proof {
            assert(text@.subrange(0, i + 1).drop_last() =~= text@.subrange(0, i as int));
        }
        if c == ';' {
            if runnable(&open) {
                let piece = open;
                done.push(piece);
                proof {
                    assert(done@.map_values(|s: Vec<char>| s@) =~= scan(text@.subrange(0, i as int)).0.push(piece@));
                }
            }
            open = Vec::new();
        } else if c != '\n' {
            open.push(c);
        }
        i = i + 1;
    }
    proof {
        assert(text@.subrange(0, text@.len() as int) =~= text@);
    }
    if runnable(&open) {
        let piece = open;
        done.push(piece);
        proof {
            assert(done@.map_values(|s: Vec<char>| s@) =~= scan(text@).0.push(piece@));
        }
    }
    done
}

} // verus!
