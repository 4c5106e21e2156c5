//! The lines that the encoder writes while it works.

use crate::text::opt_text;
use crate::text::trim;
use crate::text::trimmed;
use vstd::prelude::*;
use vstd::string::StrSliceExecFns;

verus! {

/// The start of a line that reports progress.
pub const PROGRESS: &'static str = "        \"Progress\":";

/// The start of a line that reports the pass.
pub const PASS: &'static str = "        \"Pass\":";

/// The start of a line that reports the number of errors.
pub const ERROR: &'static str = "  :      \"Error\":";

/// What a line of the encoder tells.
#[derive(Debug, PartialEq, Eq)]
pub enum Output {
    /// The part of the work that is done, as the text of a fraction.
    Progress(String),
    /// The number of the pass.
    Pass(u32),
    /// Nothing of interest.
    Ignore,
    /// The work is done, with this many errors.
    Done(u32),
}

/// The mathematical value of an [`Output`].
pub enum OutputView {
    Progress(Seq<char>),
    Pass(u32),
    Ignore,
    Done(u32),
}

impl View for Output {
    type V = OutputView;

    open spec fn view(&self) -> OutputView {
        match *self {
            Output::Progress(s) => OutputView::Progress(s@),
            Output::Pass(n) => OutputView::Pass(n),
            Output::Ignore => OutputView::Ignore,
            Output::Done(n) => OutputView::Done(n),
        }
    }
}

/// Whether `s` begins with `prefix`.
pub open spec fn starts_with(s: Seq<char>, prefix: Seq<char>) -> bool {
    prefix.len() <= s.len() && s.subrange(0, prefix.len() as int) == prefix
}

/// Where `c` first stands in `s` at or after `from`: the length of `s` where
/// it stands nowhere there.
pub open spec fn find_from(s: Seq<char>, c: char, from: int) -> int
    decreases s.len() - from,
{
    if from < 0 || from >= s.len() {
        s.len() as int
    } else if s[from] == c {
        from
    } else {
        find_from(s, c, from + 1)
    }
}

/// What stands between the first `:` of a line and the next, or the end of
/// the line.
pub open spec fn second_piece(line: Seq<char>) -> Option<Seq<char>> {
    let first = find_from(line, ':', 0);
    if first >= line.len() {
        None
    } else {
        Some(line.subrange(first + 1, find_from(line, ':', first + 1)))
    }
}

/// The value that a line reports: its second piece without the character
/// that ends it and without the white space around the rest.
pub open spec fn value_text(line: Seq<char>) -> Option<Seq<char>> {
    match second_piece(line) {
        Some(piece) => if piece.len() > 0 {
            Some(trimmed(piece.drop_last()))
        } else {
            None
        },
        None => None,
    }
}

/// The digit that `c` stands for.
pub open spec fn digit(c: char) -> Option<nat> {
    if 48 <= c as u32 <= 57 {
        Some((c as u32 - 48) as nat)
    } else {
        None
    }
}

/// The number that a text of decimal digits stands for.
pub open spec fn digits_value(s: Seq<char>) -> Option<nat>
    decreases s.len(),
{
    if s.len() == 0 {
        None
    } else {
        match digit(s.last()) {
            None => None,
            Some(d) => if s.len() == 1 {
                Some(d)
            } else {
                match digits_value(s.drop_last()) {
                    Some(v) => Some(v * 10 + d),
                    None => None,
                }
            },
        }
    }
}

/// The number that `s` stands for: decimal digits, after a `+` or without
/// it, whose value a `u32` can hold.
pub open spec fn u32_of(s: Seq<char>) -> Option<u32> {
    let digits = if s.len() > 0 && s[0] == '+' {
        s.drop_first()
    } else {
        s
    };
    match digits_value(digits) {
        Some(v) => if v <= u32::MAX {
            Some(v as u32)
        } else {
            None
        },
        None => None,
    }
}

/// What a line tells. A line that reports progress, a pass or the errors
/// must hold a value, and the pass and the errors a number; other lines are
/// ignored.
pub open spec fn parsed(line: Seq<char>) -> Option<OutputView> {
    if starts_with(line, PROGRESS@) {
        match value_text(line) {
            Some(text) => Some(OutputView::Progress(text)),
            None => None,
        }
    } else if starts_with(line, PASS@) {
        match value_text(line) {
            Some(text) => match u32_of(text) {
                Some(n) => Some(OutputView::Pass(n)),
                None => None,
            },
            None => None,
        }
    } else if starts_with(line, ERROR@) {
        match value_text(line) {
            Some(text) => match u32_of(text) {
                Some(n) => Some(OutputView::Done(n)),
                None => None,
            },
            None => None,
        }
    } else {
        Some(OutputView::Ignore)
    }
}

/// Whether `s` begins with `prefix`.
pub fn begins_with(s: &str, prefix: &str) -> (r: bool)
    ensures
        r == starts_with(s@, prefix@),
{
    let n = prefix.unicode_len();
    if n > s.unicode_len() {
        return false;
    }
    let mut i: usize = 0;
    while i < n
        invariant
            i <= n,
            n == prefix@.len(),
            n <= s@.len(),
            s@.subrange(0, i as int) == prefix@.subrange(0, i as int),
        decreases n - i,
    {
        if s.get_char(i) != prefix.get_char(i) {
            assert(s@.subrange(0, n as int)[i as int] != prefix@[i as int]);
            return false;
        }
        assert(s@.subrange(0, i + 1) =~= s@.subrange(0, i as int).push(s@[i as int]));
        assert(prefix@.subrange(0, i + 1) =~= prefix@.subrange(0, i as int).push(
            prefix@[i as int],
        ));
        i = i + 1;
    }
    assert(prefix@.subrange(0, n as int) =~= prefix@);
    true
}

/// Where `c` first stands in `s` at or after `from`.
pub fn find_char_from(s: &str, c: char, from: usize) -> (r: usize)
    ensures
        r == find_from(s@, c, from as int),
        r <= s@.len(),
        from <= s@.len() ==> from <= r,
{
    let n = s.unicode_len();
    if from >= n {
        return n;
    }
    let mut i: usize = from;
    while i < n
        invariant
            from <= i <= n,
            n == s@.len(),
            find_from(s@, c, from as int) == find_from(s@, c, i as int),
        decreases n - i,
    {
        if s.get_char(i) == c {
            return i;
        }
        i = i + 1;
    }
    n
}

/// The value that a line reports.
pub fn value_of(line: &str) -> (r: Option<String>)
    ensures
        opt_text(r) == value_text(line@),
{
    let n = line.unicode_len();
    let first = find_char_from(line, ':', 0);
    if first >= n {
        return None;
    }
    let next = find_char_from(line, ':', first + 1);
    if next == first + 1 {
        return None;
    }
    let ghost whole = line@.subrange(first + 1, next as int);
    let rest = line.substring_char(first + 1, next - 1);
    assert(rest@ =~= whole.drop_last());
    Some(trim(rest))
}

proof fn lemma_digits_prefix(s: Seq<char>, i: int)
    requires
        1 <= i <= s.len(),
        digits_value(s) is Some,
    ensures
        digits_value(s.subrange(0, i)) is Some,
        digits_value(s.subrange(0, i))->0 <= digits_value(s)->0,
    decreases s.len(),
{
    if i == s.len() {
        assert(s.subrange(0, i) =~= s);
    } else {
        lemma_digits_prefix(s.drop_last(), i);
        assert(s.drop_last().subrange(0, i) =~= s.subrange(0, i));
    }
}

/// The number that the decimal digits `s` stand for, where a `u32` can hold
/// it.
pub fn number_of_digits(s: &str) -> (r: Option<u32>)
    ensures
        r == match digits_value(s@) {
            Some(v) => if v <= u32::MAX {
                Some(v as u32)
            } else {
                None
            },
            None => None,
        },
{
    let n = s.unicode_len();
    if n == 0 {
        return None;
    }
    let mut acc: u64 = 0;
    let mut i: usize = 0;
    while i < n
        invariant
            i <= n,
            n == s@.len(),
            n > 0,
            acc <= u32::MAX,
            i > 0 ==> digits_value(s@.subrange(0, i as int)) == Some(acc as nat),
            i == 0 ==> acc == 0,
        decreases n - i,
    {
        let c = s.get_char(i);
        let ghost head = s@.subrange(0, i + 1);
        proof {
            assert(head.last() == c);
            assert(head.drop_last() =~= s@.subrange(0, i as int));
            if digits_value(s@) is Some {
                lemma_digits_prefix(s@, i + 1);
            }
        }
        let code = c as u32;
        if code < 48 || code > 57 {
            return None;
        }
        let d: u64 = (code - 48) as u64;
        acc = acc * 10 + d;
        if acc > 0xffff_ffff {
            return None;
        }
        i = i + 1;
    }
    assert(s@.subrange(0, n as int) =~= s@);
    Some(acc as u32)
}

/// The number that `s` stands for.
pub fn number_of(s: &str) -> (r: Option<u32>)
    ensures
        r == u32_of(s@),
{
    let n = s.unicode_len();
    if n > 0 && s.get_char(0) == '+' {
        let digits = s.substring_char(1, n);
        assert(digits@ =~= s@.drop_first());
        number_of_digits(digits)
    } else {
        number_of_digits(s)
    }
}

/// Tells what a line of the encoder reports. `None` is returned for a line
/// that begins like a report and holds no value, or no number where one is
/// due.
pub fn parse(line: &str) -> (r: Option<Output>)
    ensures
        match r {
            Some(output) => parsed(line@) == Some(output@),
            None => parsed(line@) is None,
        },
{
    if begins_with(line, PROGRESS) {
        match value_of(line) {
            Some(text) => Some(Output::Progress(text)),
            None => None,
        }
    } else if begins_with(line, PASS) {
        match value_of(line) {
            Some(text) => match number_of(text.as_str()) {
                Some(n) => Some(Output::Pass(n)),
                None => None,
            },
            None => None,
        }
    } else if begins_with(line, ERROR) {
        match value_of(line) {
            Some(text) => match number_of(text.as_str()) {
                Some(n) => Some(Output::Done(n)),
                None => None,
            },
            None => None,
        }
    } else {
        Some(Output::Ignore)
    }
}

} // verus!
