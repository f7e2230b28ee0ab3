//! The format of the environment file: one `KEY=VALUE` setting per line.

use super::environment::pairs_view;
use vstd::prelude::*;

verus! {

/// The classes of characters that the format tells apart.
#[derive(Debug, Clone, Copy, PartialEq, Eq)]
pub enum CharClass {
    /// White space.
    Space,
    /// The double quote.
    Quote,
    /// Anything but a line feed.
    LineBody,
    /// Anything but an equals sign.
    KeyBody,
}

/// Whether `char::is_whitespace` holds of a character: whether it has the
/// Unicode property `White_Space`.
pub uninterp spec fn is_space(c: char) -> bool;

/// Calls `char::is_whitespace`, which depends on the character alone.
#[verifier::external_body]
fn is_whitespace(c: char) -> (r: bool)
    ensures
        r == is_space(c),
{
    c.is_whitespace()
}

/// Whether a character belongs to a class.
pub open spec fn in_class(class: CharClass, c: char) -> bool {
    match class {
        CharClass::Space => is_space(c),
        CharClass::Quote => c == '"',
        CharClass::LineBody => c != '\n',
        CharClass::KeyBody => c != '=',
    }
}

/// Where the run of characters of a class that begins at `from` ends,
/// looking no further than `to`: the first position from `from` on whose
/// character is not of the class, or `to`.
pub open spec fn run_end(s: Seq<char>, class: CharClass, from: int, to: int) -> int
    decreases to - from,
{
    if 0 <= from < to <= s.len() && in_class(class, s[from]) {
        run_end(s, class, from + 1, to)
    } else {
        from
    }
}

/// Where the run of characters of a class that ends at `to` begins, looking
/// no further back than `from`.
pub open spec fn run_start(s: Seq<char>, class: CharClass, from: int, to: int) -> int
    decreases to - from,
{
    if 0 <= from < to <= s.len() && in_class(class, s[to - 1]) {
        run_start(s, class, from, to - 1)
    } else {
        to
    }
}

/// What `run_end` finds: everything before it is of the class, and it stops
/// at the bound or at a character that is not.
pub proof fn lemma_run_end(s: Seq<char>, class: CharClass, from: int, to: int)
    requires
        0 <= from <= to <= s.len(),
    ensures
        from <= run_end(s, class, from, to) <= to,
        forall|k: int| from <= k < run_end(s, class, from, to) ==> in_class(class, #[trigger] s[k]),
        run_end(s, class, from, to) < to ==> !in_class(class, s[run_end(s, class, from, to)]),
    decreases to - from,
{
    if from < to && in_class(class, s[from]) {
        lemma_run_end(s, class, from + 1, to);
    }
}

/// What `run_start` finds: everything from it on is of the class, and it
/// stops at the bound or after a character that is not.
pub proof fn lemma_run_start(s: Seq<char>, class: CharClass, from: int, to: int)
    requires
        0 <= from <= to <= s.len(),
    ensures
        from <= run_start(s, class, from, to) <= to,
        forall|k: int| run_start(s, class, from, to) <= k < to ==> in_class(class, #[trigger] s[k]),
        run_start(s, class, from, to) > from ==> !in_class(
            class,
            s[run_start(s, class, from, to) - 1],
        ),
    decreases to - from,
{
    if from < to && in_class(class, s[to - 1]) {
        lemma_run_start(s, class, from, to - 1);
    }
}

/// The setting that one line holds. A line without an equals sign holds
/// none. The key is what stands before the first equals sign, without the
/// white space around it; a line with an empty key, or a key that begins
/// with `#`, holds none. The value is what stands after that equals sign,
/// without the white space around it and then without the double quotes
/// around what is left.
pub open spec fn entry_of(line: Seq<char>) -> Option<(Seq<char>, Seq<char>)> {
    let len = line.len() as int;
    let eq = run_end(line, CharClass::KeyBody, 0, len);
    if eq >= len {
        None
    } else {
        let key_from = run_end(line, CharClass::Space, 0, eq);
        let key_to = run_start(line, CharClass::Space, key_from, eq);
        let bare_from = run_end(line, CharClass::Space, eq + 1, len);
        let bare_to = run_start(line, CharClass::Space, bare_from, len);
        let value_from = run_end(line, CharClass::Quote, bare_from, bare_to);
        let value_to = run_start(line, CharClass::Quote, value_from, bare_to);
        if key_from == key_to || line[key_from] == '#' {
            None
        } else {
            Some((line.subrange(key_from, key_to), line.subrange(value_from, value_to)))
        }
    }
}

/// The settings of the lines of a text from position `from` on, in order. A
/// line ends at a line feed or at the end of the text.
pub open spec fn entries_from(s: Seq<char>, from: int) -> Seq<(Seq<char>, Seq<char>)>
    decreases s.len() + 1 - from,
{
    if 0 <= from < s.len() {
        let end = run_end(s, CharClass::LineBody, from, s.len() as int);
        let rest = if from <= end <= s.len() {
            entries_from(s, end + 1)
        } else {
            Seq::empty()
        };
        match entry_of(s.subrange(from, end)) {
            Some(entry) => seq![entry] + rest,
            None => rest,
        }
    } else {
        Seq::empty()
    }
}

/// The settings that the text of an environment file holds, in the order of
/// its lines.
pub open spec fn env_entries(content: Seq<char>) -> Seq<(Seq<char>, Seq<char>)> {
    entries_from(content, 0)
}

fn is_in(class: CharClass, c: char) -> (r: bool)
    ensures
        r == in_class(class, c),
{
    match class {
        CharClass::Space => is_whitespace(c),
        CharClass::Quote => c == '"',
        CharClass::LineBody => c != '\n',
        CharClass::KeyBody => c != '=',
    }
}

fn scan_forward(s: &str, class: CharClass, from: usize, to: usize) -> (r: usize)
    requires
        from <= to <= s@.len(),
    ensures
        r == run_end(s@, class, from as int, to as int),
        from <= r <= to,
{
    let mut i: usize = from;
    while i < to
        invariant
            from <= i <= to <= s@.len(),
            run_end(s@, class, from as int, to as int) == run_end(s@, class, i as int, to as int),
        decreases to - i,
    {
        if !is_in(class, s.get_char(i)) {
            return i;
        }
        i = i + 1;
    }
    i
}

fn scan_backward(s: &str, class: CharClass, from: usize, to: usize) -> (r: usize)
    requires
        from <= to <= s@.len(),
    ensures
        r == run_start(s@, class, from as int, to as int),
        from <= r <= to,
{
    let mut j: usize = to;
    while j > from
        invariant
            from <= j <= to <= s@.len(),
            run_start(s@, class, from as int, to as int) == run_start(
                s@,
                class,
                from as int,
                j as int,
            ),
        decreases j - from,
    {
        if !is_in(class, s.get_char(j - 1)) {
            return j;
        }
        j = j - 1;
    }
    j
}

/// Reads the setting of one line.
pub fn parse_env_line(line: &str) -> (r: Option<(String, String)>)
    ensures
        r is Some <==> entry_of(line@) is Some,
        r is Some ==> (r->Some_0.0@, r->Some_0.1@) == entry_of(line@)->Some_0,
{
    let len = line.unicode_len();
    let eq = scan_forward(line, CharClass::KeyBody, 0, len);
    if eq >= len {
        return None;
    }
    let key_from = scan_forward(line, CharClass::Space, 0, eq);
    let key_to = scan_backward(line, CharClass::Space, key_from, eq);
    let bare_from = scan_forward(line, CharClass::Space, eq + 1, len);
    let bare_to = scan_backward(line, CharClass::Space, bare_from, len);
    let value_from = scan_forward(line, CharClass::Quote, bare_from, bare_to);
    let value_to = scan_backward(line, CharClass::Quote, value_from, bare_to);
    if key_from == key_to {
        return None;
    }
    if line.get_char(key_from) == '#' {
        return None;
    }
    let key = String::from_str(line.substring_char(key_from, key_to));
    let value = String::from_str(line.substring_char(value_from, value_to));
    Some((key, value))
}

/// Reads the settings from the text of an environment file.
pub fn parse_env_content(content: &str) -> (r: Vec<(String, String)>)
    ensures
        pairs_view(r@) == env_entries(content@),
{
    let len = content.unicode_len();
    let mut out: Vec<(String, String)> = Vec::new();
    let mut from: usize = 0;
    while from < len
        invariant
            len == content@.len(),
            from <= len,
            env_entries(content@) == pairs_view(out@) + entries_from(content@, from as int),
        decreases len - from,
    {
        let end = scan_forward(content, CharClass::LineBody, from, len);
        let line = content.substring_char(from, end);
        let ghost before = pairs_view(out@);
        let ghost rest = entries_from(content@, end + 1);
        match parse_env_line(line) {
            Some(entry) => {
                let ghost added = (entry.0@, entry.1@);
                out.push(entry);
                proof {
                    assert(pairs_view(out@) =~= before.push(added));
                    assert(before + (seq![added] + rest) =~= before.push(added) + rest);
                }
            },
            None => {},
        }
        if end < len {
            from = end + 1;
        } else {
            from = len;
        }
    }
    out
}

} // verus!
