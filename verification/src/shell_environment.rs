//! The login shell's environment: how the output of `env` (or `set`) is
//! read into variables, and how the directory of managed tools is put
//! first on `PATH`.
use vstd::prelude::*;
use crate::keyed::KeyedList;
use crate::text::{chars_of, concat3, contains_seq, first_occurrence, occurs_at, split_once_chars, str_contains,
    string_from_range};

verus! {

/// Loads the environment of the user's login shell.
#[derive(Debug)]
pub struct ShellEnvironment;

/// A line without one trailing carriage return.
pub open spec fn strip_cr(l: Seq<char>) -> Seq<char> {
    if l.len() > 0 && l.last() == '\r' {
        l.drop_last()
    } else {
        l
    }
}

/// The lines of `s[start..]`, scanning from `i`, as `str::lines` gives
/// them: split at `\n`, a `\r` before it dropped, no empty last line.
pub open spec fn lines_from(s: Seq<char>, start: int, i: int) -> Seq<Seq<char>>
    decreases s.len() - i,
{
    if i >= s.len() {
        if 0 <= start < s.len() {
            seq![s.subrange(start, s.len() as int)]
        } else {
            Seq::<Seq<char>>::empty()
        }
    } else if s[i] == '\n' {
        seq![strip_cr(s.subrange(start, i))] + lines_from(s, i + 1, i + 1)
    } else {
        lines_from(s, start, i + 1)
    }
}

/// The lines of a text.
pub open spec fn text_lines(s: Seq<char>) -> Seq<Seq<char>> {
    lines_from(s, 0, 0)
}

/// The first `=` of a line splits it into name and value.
pub open spec fn split_assignment(l: Seq<char>) -> Option<(Seq<char>, Seq<char>)> {
    if contains_seq(l, seq!['=']) {
        let i = choose|i: int| first_occurrence(l, seq!['='], i);
        Some((l.subrange(0, i), l.subrange(i + 1, l.len() as int)))
    } else {
        None
    }
}

/// The variables that lines of `name=value` set, a later line winning;
/// lines without `=` are skipped.
pub open spec fn assignments(lines: Seq<Seq<char>>) -> Map<Seq<char>, Seq<char>>
    decreases lines.len(),
{
    if lines.len() == 0 {
        Map::<Seq<char>, Seq<char>>::empty()
    } else {
        let m = assignments(lines.drop_last());
        match split_assignment(lines.last()) {
            Some((k, v)) => m.insert(k, v),
            None => m,
        }
    }
}

/// A first occurrence is unique.
pub proof fn lemma_first_occurrence_unique(h: Seq<char>, n: Seq<char>, i: int, j: int)
    requires
        first_occurrence(h, n, i),
        first_occurrence(h, n, j),
    ensures
        i == j,
{
    if i < j {
        assert(!occurs_at(h, n, i));
    } else if j < i {
        assert(!occurs_at(h, n, j));
    }
}

/// The strings of a map, by their characters.
pub open spec fn same_texts(k: KeyedList<String>, m: Map<Seq<char>, Seq<char>>) -> bool {
    &&& forall|x: Seq<char>| #[trigger] k@.contains_key(x) <==> m.contains_key(x)
    &&& forall|x: Seq<char>| #[trigger] k@.contains_key(x) ==> k@[x]@ == m[x]
}

/// The variables after one more line of `name=value`.
pub open spec fn with_line(m: Map<Seq<char>, Seq<char>>, line: Seq<char>) -> Map<Seq<char>, Seq<char>> {
    match split_assignment(line) {
        Some((k, v)) => m.insert(k, v),
        None => m,
    }
}

/// Sets the variable a line of `name=value` names.
fn add_assignment(vars: &mut KeyedList<String>, line: &Vec<char>, Ghost(m): Ghost<Map<Seq<char>, Seq<char>>>)
    requires
        same_texts(*old(vars), m),
    ensures
        same_texts(*final(vars), with_line(m, line@)),
{
    let mut eq: Vec<char> = Vec::new();
    eq.push('=');
    assert(eq@ =~= seq!['=']);
    match split_once_chars(line, &eq) {
        Some((k, v)) => {
            proof {
                let w = choose|w: int|
                    first_occurrence(line@, eq@, w) && k@ == line@.subrange(0, w) && v@ == line@.subrange(
                        w + eq@.len(),
                        line@.len() as int,
                    );
                assert(contains_seq(line@, seq!['=']));
                let c = choose|c: int| first_occurrence(line@, seq!['='], c);
                lemma_first_occurrence_unique(line@, seq!['='], w, c);
            }
            let ghost kk = k@;
            let ghost vv = v@;
            vars.insert(k, v);
            proof {
                assert(with_line(m, line@) == m.insert(kk, vv));
            }
        },
        None => {},
    }
}

/// Reads the variables printed by `env` (or `set`), one `name=value` per
/// line.
pub fn parse_environment(output: &str) -> (r: KeyedList<String>)
    ensures
        same_texts(r, assignments(text_lines(output@))),
{
    let s = chars_of(output);
    let mut vars: KeyedList<String> = KeyedList::new();
    let ghost mut done: Seq<Seq<char>> = Seq::empty();
    assert(vars@ =~= Map::<Seq<char>, String>::empty());
    let mut start: usize = 0;
    let mut i: usize = 0;
    while i < s.len()
        invariant
            s@ == output@,
            start <= i <= s@.len(),
            done + lines_from(s@, start as int, i as int) == text_lines(s@),
            same_texts(vars, assignments(done)),
        decreases s@.len() - i,
    {
        if s[i] == '\n' {
            let mut end = i;
            if end > start && s[end - 1] == '\r' {
                end = end - 1;
            }
            let line = crate::text::chars_of(string_from_range(&s, start, end).as_str());
            assert(line@ =~= strip_cr(s@.subrange(start as int, i as int)));
            let ghost before = done;
            add_assignment(&mut vars, &line, Ghost(assignments(done)));
            proof {
                done = done.push(line@);
                assert(done.drop_last() =~= before);
                assert(before + lines_from(s@, start as int, i as int) =~= done + lines_from(s@, i + 1, i + 1));
            }
            start = i + 1;
        }
        i += 1;
    }
    if start < s.len() {
        let n = s.len();
        let line = crate::text::chars_of(string_from_range(&s, start, n).as_str());
        let ghost before = done;
        add_assignment(&mut vars, &line, Ghost(assignments(done)));
        proof {
            done = done.push(line@);
            assert(done.drop_last() =~= before);
            assert(done =~= text_lines(s@));
        }
    } else {
        assert(done + Seq::<Seq<char>>::empty() =~= done);
    }
    vars
}

/// The directory of managed tools under a home directory.
pub open spec fn tool_bin_path(home: Seq<char>) -> Seq<char> {
    home + "/.mcprouter/bin"@
}

/// The variables after the managed tools' directory is put on `PATH`:
/// prepended with the platform's separator unless already there, or as the
/// whole `PATH` when there is none; nothing changes without a home
/// directory.
pub open spec fn with_tool_path(m: Map<Seq<char>, Seq<char>>, home: Option<Seq<char>>, windows: bool) -> Map<
    Seq<char>,
    Seq<char>,
> {
    match home {
        None => m,
        Some(h) => {
            let bin = tool_bin_path(h);
            if m.contains_key("PATH"@) {
                if contains_seq(m["PATH"@], bin) {
                    m
                } else {
                    m.insert("PATH"@, bin + seq![if windows { ';' } else { ':' }] + m["PATH"@])
                }
            } else {
                m.insert("PATH"@, bin)
            }
        },
    }
}

impl ShellEnvironment {
    /// The environment printed by the login shell, with the managed tools'
    /// directory on `PATH` (`home` is the user's home directory, if known).
    pub fn environment_from_output(output: &str, home: Option<&str>, windows: bool) -> (r: KeyedList<String>)
        ensures
            same_texts(
                r,
                with_tool_path(
                    assignments(text_lines(output@)),
                    match home {
                        Some(h) => Some(h@),
                        None => None,
                    },
                    windows,
                ),
            ),
    {
        let mut vars = parse_environment(output);
        let ghost m = assignments(text_lines(output@));
        if let Some(h) = home {
            let bin = crate::text::concat2(h, "/.mcprouter/bin");
            let current = match vars.get("PATH") {
                Some(p) => Some(p.clone()),
                None => None,
            };
            match current {
                Some(p) => {
                    if !str_contains(p.as_str(), bin.as_str()) {
                        let sep = if windows {
                            ";"
                        } else {
                            ":"
                        };
                        let newp = concat3(bin.as_str(), sep, p.as_str());
                        proof {
                            reveal_strlit(";");
                            reveal_strlit(":");
                            assert(";"@ =~= seq![';']);
                            assert(":"@ =~= seq![':']);
                            assert(m.contains_key("PATH"@));
                            assert(p@ == m["PATH"@]);
                            assert(newp@ =~= bin@ + seq![if windows { ';' } else { ':' }] + m["PATH"@]);
                        }
                        let ghost nv = newp@;
                        vars.insert("PATH".to_owned(), newp);
                        proof {
                            let e = m.insert("PATH"@, nv);
                            assert forall|x: Seq<char>| #[trigger] vars@.contains_key(x) <==> e.contains_key(x) by {}
                            assert forall|x: Seq<char>| #[trigger] vars@.contains_key(x) implies vars@[x]@ == e[x] by {}
                        }
                    } else {
                        proof {
                            assert(m.contains_key("PATH"@));
                            assert(p@ == m["PATH"@]);
                        }
                    }
                },
                None => {
                    let ghost bv = bin@;
                    vars.insert("PATH".to_owned(), bin);
                    proof {
                        let e = m.insert("PATH"@, bv);
                        assert forall|x: Seq<char>| #[trigger] vars@.contains_key(x) <==> e.contains_key(x) by {}
                        assert forall|x: Seq<char>| #[trigger] vars@.contains_key(x) implies vars@[x]@ == e[x] by {}
                    }
                },
            }
        }
        vars
    }
}

} // verus!
