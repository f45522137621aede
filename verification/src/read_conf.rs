//! The name-to-executable mapping and the text it is loaded from.
//!
//! The text holds one record per line, `name:path`. The first `:` of a line
//! parts the name from the path; everything after it, further colons
//! included, is the path. A line ends at `\n`, and a `\r` just before that
//! `\n` belongs to the line ending. The last line needs no line ending. A line
//! without a `:` makes the whole text malformed. Where a name stands on
//! several lines, the last one counts.

use vstd::prelude::*;
use vstd::std_specs::iter::IteratorSpec;
use vstd::string::*;

verus! {

broadcast use {vstd::string::axiom_spec_iter, vstd::string::next_postcondition};

/// Why no mapping could be had from a configuration source.
#[derive(Clone, Copy, Debug, PartialEq, Eq, Structural)]
pub enum ConfigError {
    /// The source could not be read at all.
    Unreadable,
    /// A line of the source has no `:`.
    Malformed,
}

/// Where `c` first occurs in `s`; the length of `s` where it does not occur.
pub open spec fn find(s: Seq<char>, c: char) -> nat
    decreases s.len(),
{
    if s.len() == 0 || s[0] == c {
        0
    } else {
        1 + find(s.drop_first(), c)
    }
}

/// A line without the `\r` that a `\r\n` line ending leaves at its end.
pub open spec fn trim_cr(line: Seq<char>) -> Seq<char> {
    if line.len() > 0 && line.last() == '\r' {
        line.drop_last()
    } else {
        line
    }
}

/// The lines of a text, without their line endings.
pub open spec fn lines_of(text: Seq<char>) -> Seq<Seq<char>>
    decreases text.len(),
{
    if text.len() == 0 {
        Seq::empty()
    } else {
        let n = find(text, '\n');
        if n >= text.len() {
            seq![text]
        } else {
            seq![trim_cr(text.take(n as int))] + lines_of(text.skip(n as int + 1))
        }
    }
}

/// The name and the path that a line gives, or `None` for a line without a
/// `:`.
pub open spec fn entry_of(line: Seq<char>) -> Option<(Seq<char>, Seq<char>)> {
    let k = find(line, ':');
    if k >= line.len() {
        None
    } else {
        Some((line.take(k as int), line.skip(k as int + 1)))
    }
}

/// The mapping `m` after the records of `lines` were entered in order, each
/// replacing what its name stood for; `None` if a line gives no record.
pub open spec fn load_into(m: Map<Seq<char>, Seq<char>>, lines: Seq<Seq<char>>) -> Option<
    Map<Seq<char>, Seq<char>>,
>
    decreases lines.len(),
{
    if lines.len() == 0 {
        Some(m)
    } else {
        match entry_of(lines[0]) {
            Some((name, path)) => load_into(m.insert(name, path), lines.drop_first()),
            None => None,
        }
    }
}

/// The mapping that a configuration text stands for, or `None` for a
/// malformed text.
pub open spec fn parse_conf(text: Seq<char>) -> Option<Map<Seq<char>, Seq<char>>> {
    load_into(Map::empty(), lines_of(text))
}

/// The first place at which a character stands is what `find` gives.
proof fn lemma_find_at(s: Seq<char>, c: char, k: int)
    requires
        0 <= k <= s.len(),
        forall|j: int| 0 <= j < k ==> s[j] != c,
        k < s.len() ==> s[k] == c,
    ensures
        find(s, c) == k,
    decreases s.len(),
{
    if k > 0 {
        let rest = s.drop_first();
        lemma_find_at(rest, c, k - 1);
    }
}

/// Loading fails exactly when some line has no `:`.
pub proof fn lemma_load_fails_on_bad_line(m: Map<Seq<char>, Seq<char>>, lines: Seq<Seq<char>>)
    ensures
        load_into(m, lines) is None <==> exists|i: int|
            0 <= i < lines.len() && (#[trigger] entry_of(lines[i])) is None,
    decreases lines.len(),
{
    if lines.len() > 0 {
        let rest = lines.drop_first();
        match entry_of(lines[0]) {
            Some((name, path)) => {
                lemma_load_fails_on_bad_line(m.insert(name, path), rest);
                if load_into(m, lines) is Some {
                    assert forall|i: int| 0 <= i < lines.len() implies (#[trigger] entry_of(
                        lines[i],
                    )) is Some by {
                        if i > 0 {
                            assert(lines[i] == rest[i - 1]);
                        }
                    }
                }
            },
            None => {},
        }
    }
}

/// A name that stands on no line means after loading what it meant before.
pub proof fn lemma_load_keeps(
    m: Map<Seq<char>, Seq<char>>,
    lines: Seq<Seq<char>>,
    name: Seq<char>,
)
    requires
        load_into(m, lines) is Some,
        forall|j: int| 0 <= j < lines.len() ==> (#[trigger] entry_of(lines[j])).unwrap().0 != name,
    ensures
        load_into(m, lines).unwrap().contains_key(name) == m.contains_key(name),
        m.contains_key(name) ==> load_into(m, lines).unwrap()[name] == m[name],
    decreases lines.len(),
{
    if lines.len() > 0 {
        let (first_name, first_path) = entry_of(lines[0]).unwrap();
        let rest = lines.drop_first();
        lemma_load_keeps(m.insert(first_name, first_path), rest, name);
    }
}

/// The last line on which a name stands decides what the name means.
pub proof fn lemma_last_write_wins(
    m: Map<Seq<char>, Seq<char>>,
    lines: Seq<Seq<char>>,
    i: int,
)
    requires
        load_into(m, lines) is Some,
        0 <= i < lines.len(),
        forall|j: int|
            i < j < lines.len() ==> (#[trigger] entry_of(lines[j])).unwrap().0 != entry_of(
                lines[i],
            ).unwrap().0,
    ensures
        entry_of(lines[i]) is Some,
        load_into(m, lines).unwrap().contains_key(entry_of(lines[i]).unwrap().0),
        load_into(m, lines).unwrap()[entry_of(lines[i]).unwrap().0] == entry_of(
            lines[i],
        ).unwrap().1,
    decreases lines.len(),
{
    let (first_name, first_path) = entry_of(lines[0]).unwrap();
    let rest = lines.drop_first();
    let name = entry_of(lines[i]).unwrap().0;
    if i == 0 {
        lemma_load_keeps(m.insert(first_name, first_path), rest, name);
    } else {
        lemma_last_write_wins(m.insert(first_name, first_path), rest, i - 1);
    }
}

/// What a list of records means: each record replaces what its name stood
/// for in the records before it.
spec fn map_of(entries: Seq<(String, String)>) -> Map<Seq<char>, Seq<char>>
    decreases entries.len(),
{
    if entries.len() == 0 {
        Map::empty()
    } else {
        map_of(entries.drop_last()).insert(entries.last().0@, entries.last().1@)
    }
}

/// A name means what the last record that bears it says, and nothing where
/// no record bears it.
proof fn lemma_map_of(entries: Seq<(String, String)>, name: Seq<char>, i: int)
    requires
        0 <= i <= entries.len(),
        forall|j: int| i <= j < entries.len() ==> (#[trigger] entries[j]).0@ != name,
        i > 0 ==> entries[i - 1].0@ == name,
    ensures
        map_of(entries).contains_key(name) == (i > 0),
        i > 0 ==> map_of(entries)[name] == entries[i - 1].1@,
    decreases entries.len(),
{
    if entries.len() > 0 && i < entries.len() {
        let before = entries.drop_last();
        lemma_map_of(before, name, i);
    }
}

/// A mapping from simulation names to the paths of their executables.
pub struct SimulationPaths {
    /// The records in the order in which they were entered.
    entries: Vec<(String, String)>,
}

impl View for SimulationPaths {
    type V = Map<Seq<char>, Seq<char>>;

    closed spec fn view(&self) -> Map<Seq<char>, Seq<char>> {
        map_of(self.entries@)
    }
}

impl SimulationPaths {
    /// The mapping that knows no name.
    pub fn new() -> (paths: SimulationPaths)
        ensures
            paths@ == Map::<Seq<char>, Seq<char>>::empty(),
    {
        SimulationPaths { entries: Vec::new() }
    }

    /// Makes `name` stand for `path`, whatever it stood for before.
    pub fn insert(&mut self, name: String, path: String)
        ensures
            final(self)@ == old(self)@.insert(name@, path@),
    {
        proof {
            assert(self.entries@.push((name, path)).drop_last() =~= self.entries@);
        }
        self.entries.push((name, path));
    }

    /// The path that `name` stands for, if it stands for one.
    pub fn get(&self, name: &String) -> (path: Option<&String>)
        ensures
            match path {
                Some(p) => self@.contains_key(name@) && p@ == self@[name@],
                None => !self@.contains_key(name@),
            },
    {
        let mut i: usize = self.entries.len();
        while i > 0
            invariant
                i <= self.entries@.len(),
                forall|j: int| i <= j < self.entries@.len() ==> (#[trigger] self.entries@[j]).0@ != name@,
            decreases i,
        {
            i = i - 1;
            if self.entries[i].0 == *name {
                proof {
                    lemma_map_of(self.entries@, name@, i + 1);
                }
                return Some(&self.entries[i].1);
            }
        }
        proof {
            lemma_map_of(self.entries@, name@, 0);
        }
        None
    }
}

/// The characters of a text, in order.
fn chars_of(text: &str) -> (chars: Vec<char>)
    ensures
        chars@ == text@,
{
    let mut chars: Vec<char> = Vec::new();
    let mut rest = text.chars();
    loop
        invariant
            rest.obeys_prophetic_iter_laws(),
            rest.decrease() is Some,
            chars@ + rest.remaining() == text@,
        ensures
            chars@ == text@,
        decreases rest.decrease()->0,
    {
        match rest.next() {
            Some(c) => {
                chars.push(c);
            },
            None => {
                break ;
            },
        }
    }
    chars
}

/// The first place from `from` on and before `to` at which `c` stands, or
/// `to` if there is none.
fn scan(chars: &Vec<char>, from: usize, to: usize, c: char) -> (at: usize)
    requires
        from <= to <= chars@.len(),
    ensures
        from <= at <= to,
        at - from == find(chars@.subrange(from as int, to as int), c),
{
    let mut at: usize = from;
    while at < to && chars[at] != c
        invariant
            from <= at <= to <= chars@.len(),
            forall|j: int| from <= j < at ==> chars@[j] != c,
        decreases to - at,
    {
        at = at + 1;
    }
    proof {
        lemma_find_at(chars@.subrange(from as int, to as int), c, at - from);
    }
    at
}

/// Reads a configuration text into the mapping that it stands for. The
/// result is an error exactly for a malformed text, and that error is
/// `Malformed`.
pub fn read_conf(contents: &str) -> (loaded: Result<SimulationPaths, ConfigError>)
    ensures
        match loaded {
            Ok(paths) => parse_conf(contents@) == Some(paths@),
            Err(e) => parse_conf(contents@).is_none() && e == ConfigError::Malformed,
        },
{
    let chars = chars_of(contents);
    let n: usize = chars.len();
    let mut paths = SimulationPaths::new();
    let mut start: usize = 0;
    proof {
        assert(contents@.skip(0) =~= contents@);
    }
    while start < n
        invariant
            n == chars@.len(),
            chars@ == contents@,
            start <= n,
            parse_conf(contents@) == load_into(paths@, lines_of(contents@.skip(start as int))),
        decreases n - start,
    {
        let ghost text = contents@;
        let ghost rest = text.skip(start as int);
        let end: usize = scan(&chars, start, n, '\n');
        let line_end: usize = if end < n && end > start && chars[end - 1] == '\r' {
            end - 1
        } else {
            end
        };
        let next: usize = if end < n {
            end + 1
        } else {
            n
        };
        let ghost line = text.subrange(start as int, line_end as int);
        proof {
            if end < n {
                assert(rest.take(end - start) =~= text.subrange(start as int, end as int));
                assert(trim_cr(text.subrange(start as int, end as int)) =~= line);
                assert(rest.skip(end - start + 1) =~= text.skip(next as int));
            }
            assert(lines_of(rest).drop_first() =~= lines_of(text.skip(next as int)));
        }
        let colon: usize = scan(&chars, start, line_end, ':');
        if colon == line_end {
            return Err(ConfigError::Malformed);
        }
        let name = contents.substring_char(start, colon).to_owned();
        let path = contents.substring_char(colon + 1, line_end).to_owned();
        proof {
            assert(line.take(colon - start) =~= text.subrange(start as int, colon as int));
            assert(line.skip(colon - start + 1) =~= text.subrange(colon + 1, line_end as int));
        }
        paths.insert(name, path);
        start = next;
    }
    Ok(paths)
}

} // verus!
