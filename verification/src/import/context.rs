//! What the intake reads from a snapshot's text files: the lines of a file,
//! the Rust toolchain pin, the pnpm workspace globs, the workspace markers,
//! the bundler assumption, the runtime environment markers, the package
//! manager implied by lockfiles, and the recomputation scope of a watch run.
//!
//! Reading the files is left to the caller; every decision taken from their
//! contents is stated here.

use vstd::prelude::*;
use vstd::string::*;

use crate::text::{
    chars_of, chars_trim, has_infix, has_prefix, insert_sorted_unique, is_ws, lemma_is_sorted_set,
    sorted_set, str_ascii_lower, str_contains, string_from_chars, string_views, strictly_sorted,
    trim, ascii_lower_seq,
};

verus! {

// ── Lines ────────────────────────────────────────────────────────────────

/// The finished lines of `s` and the line still open after it.
pub open spec fn split_state(s: Seq<char>) -> (Seq<Seq<char>>, Seq<char>)
    decreases s.len(),
{
    if s.len() == 0 {
        (Seq::empty(), Seq::empty())
    } else {
        let (done, cur) = split_state(s.drop_last());
        if s.last() == '\n' {
            (done.push(cur), Seq::empty())
        } else {
            (done, cur.push(s.last()))
        }
    }
}

/// The lines of `s`: the segments between newline characters. (A carriage
/// return ending a line stays in it; every reader below trims lines first,
/// so such lines read as `str::lines` gives them.)
pub open spec fn split_lines(s: Seq<char>) -> Seq<Seq<char>> {
    split_state(s).0.push(split_state(s).1)
}

/// The lines of a text.
pub fn text_lines(text: &str) -> (lines: Vec<String>)
    ensures
        string_views(lines@) == split_lines(text@),
{
    let chars = chars_of(text);
    let mut lines: Vec<String> = Vec::new();
    let mut cur: Vec<char> = Vec::new();
    let mut i: usize = 0;
    while i < chars.len()
        invariant
            i <= chars@.len(),
            (string_views(lines@), cur@) == split_state(chars@.take(i as int)),
        decreases chars@.len() - i,
    {
        proof {
            assert(chars@.take(i as int + 1).drop_last() =~= chars@.take(i as int));
        }
        if chars[i] == '\n' {
            let line = string_from_chars(cur.as_slice());
            let ghost before = string_views(lines@);
            lines.push(line);
            proof {
                assert(string_views(lines@) =~= before.push(cur@));
            }
            cur = Vec::new();
            proof {
                assert(cur@ =~= Seq::<char>::empty());
            }
        } else {
            cur.push(chars[i]);
        }
        i = i + 1;
    }
    proof {
        assert(chars@.take(i as int) =~= chars@);
    }
    let last = string_from_chars(cur.as_slice());
    let ghost before = string_views(lines@);
    lines.push(last);
    proof {
        assert(string_views(lines@) =~= before.push(cur@));
    }
    lines
}

/// The first line at or after `i` that is not blank, trimmed.
pub open spec fn first_nonblank_from(lines: Seq<Seq<char>>, i: int) -> Option<Seq<char>>
    decreases lines.len() - i,
{
    if i < 0 || i >= lines.len() {
        None
    } else if trim(lines[i]).len() > 0 {
        Some(trim(lines[i]))
    } else {
        first_nonblank_from(lines, i + 1)
    }
}

/// The first non-blank line of a text, trimmed.
pub fn first_nonempty_line(text: &str) -> (r: Option<String>)
    ensures
        match r {
            None => first_nonblank_from(split_lines(text@), 0) is None,
            Some(l) => first_nonblank_from(split_lines(text@), 0) == Some(l@),
        },
{
    let lines = text_lines(text);
    let ghost lv = string_views(lines@);
    let mut i: usize = 0;
    while i < lines.len()
        invariant
            i <= lines@.len(),
            lv == string_views(lines@),
            lv == split_lines(text@),
            first_nonblank_from(lv, 0) == first_nonblank_from(lv, i as int),
        decreases lines@.len() - i,
    {
        let v = chars_of(lines[i].as_str());
        let t = chars_trim(v.as_slice());
        proof {
            assert(lv[i as int] == lines@[i as int]@);
        }
        if t.len() > 0 {
            return Some(string_from_chars(t.as_slice()));
        }
        i = i + 1;
    }
    None
}

// ── Stripping characters ─────────────────────────────────────────────────

/// `s` with every leading `c` removed.
pub open spec fn strip_leading(s: Seq<char>, c: char) -> Seq<char>
    decreases s.len(),
{
    if s.len() > 0 && s[0] == c {
        strip_leading(s.drop_first(), c)
    } else {
        s
    }
}

/// `s` with every trailing `c` removed.
pub open spec fn strip_trailing(s: Seq<char>, c: char) -> Seq<char>
    decreases s.len(),
{
    if s.len() > 0 && s.last() == c {
        strip_trailing(s.drop_last(), c)
    } else {
        s
    }
}

/// `s` with every leading and trailing `c` removed (`str::trim_matches`).
pub open spec fn strip_both(s: Seq<char>, c: char) -> Seq<char> {
    strip_trailing(strip_leading(s, c), c)
}

/// The characters of `v` with every leading `c` removed.
fn chars_strip_leading(v: &[char], c: char) -> (r: Vec<char>)
    ensures
        r@ == strip_leading(v@, c),
{
    let mut i: usize = 0;
    proof {
        assert(v@.skip(0) =~= v@);
    }
    while i < v.len() && v[i] == c
        invariant
            i <= v@.len(),
            strip_leading(v@, c) == strip_leading(v@.skip(i as int), c),
        decreases v@.len() - i,
    {
        proof {
            assert(v@.skip(i as int).drop_first() =~= v@.skip(i as int + 1));
        }
        i = i + 1;
    }
    let mut out: Vec<char> = Vec::new();
    let mut k: usize = i;
    while k < v.len()
        invariant
            i <= k <= v@.len(),
            out@ == v@.subrange(i as int, k as int),
        decreases v@.len() - k,
    {
        out.push(v[k]);
        proof {
            assert(v@.subrange(i as int, k as int + 1) =~= v@.subrange(i as int, k as int).push(
                v@[k as int],
            ));
        }
        k = k + 1;
    }
    proof {
        assert(v@.skip(i as int) =~= v@.subrange(i as int, v@.len() as int));
    }
    out
}

/// The characters of `v` with every trailing `c` removed.
fn chars_strip_trailing(v: &[char], c: char) -> (r: Vec<char>)
    ensures
        r@ == strip_trailing(v@, c),
{
    let mut j: usize = v.len();
    proof {
        assert(v@.take(v@.len() as int) =~= v@);
    }
    while j > 0 && v[j - 1] == c
        invariant
            j <= v@.len(),
            strip_trailing(v@, c) == strip_trailing(v@.take(j as int), c),
        decreases j,
    {
        proof {
            assert(v@.take(j as int).drop_last() =~= v@.take(j - 1));
            assert(v@.take(j as int).last() == v@[j - 1]);
        }
        j = j - 1;
    }
    let mut out: Vec<char> = Vec::new();
    let mut k: usize = 0;
    while k < j
        invariant
            k <= j <= v@.len(),
            out@ == v@.take(k as int),
        decreases j - k,
    {
        out.push(v[k]);
        proof {
            assert(v@.take(k as int + 1) =~= v@.take(k as int).push(v@[k as int]));
        }
        k = k + 1;
    }
    proof {
        if j > 0 {
            assert(v@.take(j as int).last() == v@[j - 1]);
        }
    }
    out
}

// ── Rust toolchain pin ───────────────────────────────────────────────────

/// The channel a `rust-toolchain.toml` line pins: after a trimmed line
/// that starts with `channel`, the text after the first `=`, trimmed and
/// stripped of double quotes, when it is not empty.
pub open spec fn channel_of_line(line: Seq<char>) -> Option<Seq<char>> {
    let t = trim(line);
    if !has_prefix(t, "channel"@) {
        None
    } else {
        let rest = t.skip(7);
        match first_index_of(rest, '=') {
            None => None,
            Some(e) => {
                let value = strip_both(trim(rest.skip(e + 1)), '"');
                if value.len() > 0 {
                    Some(value)
                } else {
                    None
                }
            },
        }
    }
}

/// The index of the first `c` at or after `i` in `s`.
pub open spec fn first_index_from(s: Seq<char>, c: char, i: int) -> Option<int>
    decreases s.len() - i,
{
    if i < 0 || i >= s.len() {
        None
    } else if s[i] == c {
        Some(i)
    } else {
        first_index_from(s, c, i + 1)
    }
}

/// The index of the first `c` in `s`.
pub open spec fn first_index_of(s: Seq<char>, c: char) -> Option<int> {
    first_index_from(s, c, 0)
}

/// The first channel pinned by a line at or after `i`.
pub open spec fn channel_from(lines: Seq<Seq<char>>, i: int) -> Option<Seq<char>>
    decreases lines.len() - i,
{
    if i < 0 || i >= lines.len() {
        None
    } else {
        match channel_of_line(lines[i]) {
            Some(v) => Some(v),
            None => channel_from(lines, i + 1),
        }
    }
}

fn first_index_exec(v: &[char], c: char) -> (r: Option<usize>)
    ensures
        match r {
            None => first_index_of(v@, c) is None,
            Some(e) => first_index_of(v@, c) == Some(e as int) && e < v@.len(),
        },
{
    let mut i: usize = 0;
    while i < v.len()
        invariant
            i <= v@.len(),
            first_index_of(v@, c) == first_index_from(v@, c, i as int),
        decreases v@.len() - i,
    {
        if v[i] == c {
            return Some(i);
        }
        i = i + 1;
    }
    None
}

fn channel_of_line_exec(line: &str) -> (r: Option<String>)
    ensures
        match r {
            None => channel_of_line(line@) is None,
            Some(v) => channel_of_line(line@) == Some(v@),
        },
{
    let v = chars_of(line);
    let t = chars_trim(v.as_slice());
    let key = chars_of("channel");
    proof {
        reveal_strlit("channel");
    }
    if !crate::text::chars_start_with(t.as_slice(), key.as_slice()) {
        return None;
    }
    let mut rest: Vec<char> = Vec::new();
    let mut k: usize = 7;
    while k < t.len()
        invariant
            7 <= k <= t@.len(),
            rest@ == t@.subrange(7, k as int),
        decreases t@.len() - k,
    {
        rest.push(t[k]);
        proof {
            assert(t@.subrange(7, k as int + 1) =~= t@.subrange(7, k as int).push(t@[k as int]));
        }
        k = k + 1;
    }
    proof {
        assert(rest@ =~= t@.skip(7));
    }
    match first_index_exec(rest.as_slice(), '=') {
        None => None,
        Some(e) => {
            let mut after: Vec<char> = Vec::new();
            let mut m: usize = e + 1;
            while m < rest.len()
                invariant
                    e + 1 <= m <= rest@.len(),
                    after@ == rest@.subrange(e + 1, m as int),
                decreases rest@.len() - m,
            {
                after.push(rest[m]);
                proof {
                    assert(rest@.subrange(e + 1, m as int + 1) =~= rest@.subrange(e + 1, m as int).push(
                        rest@[m as int],
                    ));
                }
                m = m + 1;
            }
            proof {
                assert(after@ =~= rest@.skip(e + 1));
            }
            let trimmed = chars_trim(after.as_slice());
            let lead = chars_strip_leading(trimmed.as_slice(), '"');
            let value = chars_strip_trailing(lead.as_slice(), '"');
            if value.len() > 0 {
                Some(string_from_chars(value.as_slice()))
            } else {
                None
            }
        },
    }
}

/// The toolchain channel pinned by a `rust-toolchain.toml` text.
pub fn rust_toolchain_channel(text: &str) -> (r: Option<String>)
    ensures
        match r {
            None => channel_from(split_lines(text@), 0) is None,
            Some(v) => channel_from(split_lines(text@), 0) == Some(v@),
        },
{
    let lines = text_lines(text);
    let ghost lv = string_views(lines@);
    let mut i: usize = 0;
    while i < lines.len()
        invariant
            i <= lines@.len(),
            lv == string_views(lines@),
            lv == split_lines(text@),
            channel_from(lv, 0) == channel_from(lv, i as int),
        decreases lines@.len() - i,
    {
        proof {
            assert(lv[i as int] == lines@[i as int]@);
        }
        match channel_of_line_exec(lines[i].as_str()) {
            Some(v) => {
                return Some(v);
            },
            None => {},
        }
        i = i + 1;
    }
    None
}

/// The toolchain a snapshot pins: the channel of `rust-toolchain.toml`
/// when that file is present and pins one, else the first non-blank line
/// of `rust-toolchain` when that file is present.
pub open spec fn rust_toolchain_spec(toml: Option<String>, plain: Option<String>) -> Option<Seq<char>> {
    let from_toml = match toml {
        Some(t) => channel_from(split_lines(t@), 0),
        None => None,
    };
    match from_toml {
        Some(c) => Some(c),
        None => match plain {
            Some(p) => first_nonblank_from(split_lines(p@), 0),
            None => None,
        },
    }
}

/// The toolchain pinned by the contents of `rust-toolchain.toml` and
/// `rust-toolchain`, each given when the file exists.
pub fn rust_toolchain_from(toml: &Option<String>, plain: &Option<String>) -> (r: Option<String>)
    ensures
        match r {
            None => rust_toolchain_spec(*toml, *plain) is None,
            Some(v) => rust_toolchain_spec(*toml, *plain) == Some(v@),
        },
{
    match toml {
        Some(t) => match rust_toolchain_channel(t.as_str()) {
            Some(c) => {
                return Some(c);
            },
            None => {},
        },
        None => {},
    }
    match plain {
        Some(p) => first_nonempty_line(p.as_str()),
        None => None,
    }
}

// ── Sorted sets of strings ───────────────────────────────────────────────

/// Insert every string of `items` into a strictly ascending list.
fn insert_all(out: &mut Vec<String>, items: &Vec<String>)
    requires
        strictly_sorted(string_views(old(out)@)),
    ensures
        strictly_sorted(string_views(final(out)@)),
        forall|x: Seq<char>| #[trigger] string_views(final(out)@).contains(x) <==> (string_views(
            old(out)@,
        ).contains(x) || string_views(items@).contains(x)),
{
    let ghost iv = string_views(items@);
    let mut i: usize = 0;
    while i < items.len()
        invariant
            i <= items@.len(),
            iv == string_views(items@),
            strictly_sorted(string_views(out@)),
            forall|x: Seq<char>| #[trigger] string_views(out@).contains(x) <==> (string_views(
                old(out)@,
            ).contains(x) || iv.take(i as int).contains(x)),
        decreases items@.len() - i,
    {
        insert_sorted_unique(out, items[i].clone());
        proof {
            let t = iv.take(i as int + 1);
            assert(t =~= iv.take(i as int).push(iv[i as int]));
            assert(iv[i as int] == items@[i as int]@);
            assert forall|x: Seq<char>| #[trigger] string_views(out@).contains(x) <==> (string_views(
                old(out)@,
            ).contains(x) || t.contains(x)) by {
                if t.contains(x) {
                    let k = choose|k: int| 0 <= k < t.len() && t[k] == x;
                    if k < i {
                        assert(iv.take(i as int)[k] == x);
                    }
                }
                if iv.take(i as int).contains(x) {
                    let k = choose|k: int| 0 <= k < i && iv.take(i as int)[k] == x;
                    assert(t[k] == x);
                }
                if x == iv[i as int] {
                    assert(t[i as int] == x);
                }
            }
        }
        i = i + 1;
    }
    proof {
        assert(iv.take(i as int) =~= iv);
    }
}

/// Whether `x` is the trimmed form of some non-blank string of `v`.
pub open spec fn trimmed_member(v: Seq<Seq<char>>, x: Seq<char>) -> bool {
    exists|i: int| 0 <= i < v.len() && trim(v[i]).len() > 0 && trim(v[i]) == x
}

/// The non-blank strings of `values`, trimmed, ascending, each once.
pub open spec fn trimmed_set(values: Seq<Seq<char>>) -> Seq<Seq<char>> {
    sorted_set(|x: Seq<char>| trimmed_member(values, x))
}

/// The trimmed forms of the non-blank strings of `values`, ascending,
/// each once (workspace globs, path aliases).
pub fn trimmed_sorted_set(values: &Vec<String>) -> (out: Vec<String>)
    ensures
        string_views(out@) == trimmed_set(string_views(values@)),
        strictly_sorted(string_views(out@)),
        forall|x: Seq<char>| #[trigger] string_views(out@).contains(x) <==> trimmed_member(string_views(values@), x),
{
    let ghost vv = string_views(values@);
    let mut out: Vec<String> = Vec::new();
    let mut i: usize = 0;
    while i < values.len()
        invariant
            i <= values@.len(),
            vv == string_views(values@),
            strictly_sorted(string_views(out@)),
            forall|x: Seq<char>| #[trigger] string_views(out@).contains(x) <==> exists|k: int|
                0 <= k < i && trim(vv[k]).len() > 0 && trim(vv[k]) == x,
        decreases values@.len() - i,
    {
        let v = chars_of(values[i].as_str());
        let t = chars_trim(v.as_slice());
        proof {
            assert(vv[i as int] == values@[i as int]@);
        }
        if t.len() > 0 {
            insert_sorted_unique(&mut out, string_from_chars(t.as_slice()));
        }
        proof {
            assert forall|x: Seq<char>| #[trigger] string_views(out@).contains(x) <==> exists|k: int|
                0 <= k < i + 1 && trim(vv[k]).len() > 0 && trim(vv[k]) == x by {
                if exists|k: int| 0 <= k < i + 1 && trim(vv[k]).len() > 0 && trim(vv[k]) == x {
                    let k = choose|k: int| 0 <= k < i + 1 && trim(vv[k]).len() > 0 && trim(vv[k]) == x;
                    if k < i {
                        assert(exists|k: int| 0 <= k < i && trim(vv[k]).len() > 0 && trim(vv[k]) == x);
                    }
                }
            }
        }
        i = i + 1;
    }
    proof {
        let p = |x: Seq<char>| trimmed_member(vv, x);
        assert forall|x: Seq<char>| #[trigger] string_views(out@).contains(x) <==> p(x) by {}
        lemma_is_sorted_set(string_views(out@), p);
    }
    out
}

// ── pnpm workspace globs ─────────────────────────────────────────────────

/// Whether a trimmed line is blank or a comment.
pub open spec fn skipped_line(t: Seq<char>) -> bool {
    t.len() == 0 || t[0] == '#'
}

/// Whether a line is indented.
pub open spec fn indented(line: Seq<char>) -> bool {
    line.len() > 0 && (line[0] == ' ' || line[0] == '\t')
}

/// Whether the `packages:` block is open after reading `line`, given
/// whether it was open before.
pub open spec fn pnpm_step(open: bool, line: Seq<char>) -> bool {
    let t = trim(line);
    if skipped_line(t) {
        open
    } else if !open {
        has_prefix(t, "packages:"@)
    } else if !indented(line) && t[0] != '-' {
        false
    } else {
        true
    }
}

/// Whether the `packages:` block is open after the first `n` lines.
pub open spec fn pnpm_open(lines: Seq<Seq<char>>, n: int) -> bool
    decreases n,
{
    if n <= 0 {
        false
    } else {
        pnpm_step(pnpm_open(lines, n - 1), lines[n - 1])
    }
}

/// The glob of a `- glob` entry: dashes, surrounding whitespace and
/// surrounding quotes stripped.
pub open spec fn pnpm_candidate(t: Seq<char>) -> Seq<char> {
    trim(strip_both(strip_both(trim(strip_leading(t, '-')), '"'), '\''))
}

/// The glob line `i` contributes, if any: a non-empty entry starting with
/// `-` inside an open `packages:` block.
pub open spec fn pnpm_glob_at(lines: Seq<Seq<char>>, i: int) -> Option<Seq<char>> {
    let t = trim(lines[i]);
    if pnpm_open(lines, i) && !skipped_line(t) && t[0] == '-' && pnpm_candidate(t).len() > 0 {
        Some(pnpm_candidate(t))
    } else {
        None
    }
}

/// Whether some line contributes glob `x`.
pub open spec fn pnpm_member(lines: Seq<Seq<char>>, x: Seq<char>) -> bool {
    exists|i: int| 0 <= i < lines.len() && pnpm_glob_at(lines, i) == Some(x)
}

/// The globs of a `pnpm-workspace.yaml` text, ascending, each once.
pub fn parse_pnpm_workspace_globs(text: &str) -> (out: Vec<String>)
    ensures
        string_views(out@) == sorted_set(|x: Seq<char>| pnpm_member(split_lines(text@), x)),
        strictly_sorted(string_views(out@)),
        forall|x: Seq<char>| #[trigger] string_views(out@).contains(x) <==> pnpm_member(split_lines(text@), x),
{
    let lines = text_lines(text);
    let ghost lv = string_views(lines@);
    let mut out: Vec<String> = Vec::new();
    let mut open = false;
    let mut i: usize = 0;
    let ghost packages_key = "packages:"@;
    while i < lines.len()
        invariant
            i <= lines@.len(),
            lv == string_views(lines@),
            lv == split_lines(text@),
            open == pnpm_open(lv, i as int),
            strictly_sorted(string_views(out@)),
            forall|x: Seq<char>| #[trigger] string_views(out@).contains(x) <==> exists|k: int|
                0 <= k < i && pnpm_glob_at(lv, k) == Some(x),
        decreases lines@.len() - i,
    {
        proof {
            assert(lv[i as int] == lines@[i as int]@);
        }
        let line = chars_of(lines[i].as_str());
        let t = chars_trim(line.as_slice());
        let ghost before = string_views(out@);
        let ghost g = pnpm_glob_at(lv, i as int);
        proof {
            assert(t@ == trim(lv[i as int]));
        }
        if t.len() == 0 || t[0] == '#' {
            proof {
                assert(g is None);
            }
        } else if !open {
            let key = chars_of("packages:");
            open = crate::text::chars_start_with(t.as_slice(), key.as_slice());
            proof {
                assert(g is None);
            }
        } else if !(line.len() > 0 && (line[0] == ' ' || line[0] == '\t')) && t[0] != '-' {
            open = false;
            proof {
                assert(g is None);
            }
        } else if t[0] == '-' {
            let a = chars_strip_leading(t.as_slice(), '-');
            let b = chars_trim(a.as_slice());
            let c1 = chars_strip_leading(b.as_slice(), '"');
            let c2 = chars_strip_trailing(c1.as_slice(), '"');
            let d1 = chars_strip_leading(c2.as_slice(), '\'');
            let d2 = chars_strip_trailing(d1.as_slice(), '\'');
            let e = chars_trim(d2.as_slice());
            proof {
                assert(e@ == pnpm_candidate(t@));
            }
            if e.len() > 0 {
                insert_sorted_unique(&mut out, string_from_chars(e.as_slice()));
                proof {
                    assert(g == Some(e@));
                }
            } else {
                proof {
                    assert(g is None);
                }
            }
        } else {
            proof {
                assert(g is None);
            }
        }
        proof {
            assert forall|x: Seq<char>| #[trigger] string_views(out@).contains(x) <==> (before.contains(x)
                || g == Some(x)) by {}
            assert(pnpm_open(lv, i as int + 1) == pnpm_step(pnpm_open(lv, i as int), lv[i as int]));
            assert forall|x: Seq<char>| #[trigger] string_views(out@).contains(x) <==> exists|k: int|
                0 <= k < i + 1 && pnpm_glob_at(lv, k) == Some(x) by {
                if exists|k: int| 0 <= k < i + 1 && pnpm_glob_at(lv, k) == Some(x) {
                    let k = choose|k: int| 0 <= k < i + 1 && pnpm_glob_at(lv, k) == Some(x);
                    if k < i {
                        assert(exists|k: int| 0 <= k < i && pnpm_glob_at(lv, k) == Some(x));
                    }
                }
                if before.contains(x) {
                    assert(exists|k: int| 0 <= k < i && pnpm_glob_at(lv, k) == Some(x));
                    let k = choose|k: int| 0 <= k < i && pnpm_glob_at(lv, k) == Some(x);
                    assert(0 <= k < i + 1 && pnpm_glob_at(lv, k) == Some(x));
                }
                if g == Some(x) {
                    assert(pnpm_glob_at(lv, i as int) == Some(x));
                }
            }
        }
        i = i + 1;
    }
    proof {
        let p = |x: Seq<char>| pnpm_member(lv, x);
        assert forall|x: Seq<char>| #[trigger] string_views(out@).contains(x) <==> p(x) by {}
        lemma_is_sorted_set(string_views(out@), p);
    }
    out
}

// ── Workspace context ────────────────────────────────────────────────────

/// Whether `x` is one of the workspace markers a snapshot shows: the
/// `workspaces` field of `package.json`, a `pnpm-workspace.yaml`, or a
/// present `lerna.json`, `turbo.json` or `nx.json`.
pub open spec fn workspace_marker(
    has_package_workspaces: bool,
    has_pnpm_workspace: bool,
    present: Seq<Seq<char>>,
    x: Seq<char>,
) -> bool {
    ||| (x == "package.json#workspaces"@ && has_package_workspaces)
    ||| (x == "pnpm-workspace.yaml"@ && has_pnpm_workspace)
    ||| ((x == "lerna.json"@ || x == "turbo.json"@ || x == "nx.json"@) && present.contains(x))
}

/// Whether `x` is a workspace glob: a non-blank glob of the `workspaces`
/// field of `package.json`, trimmed, or a glob of `pnpm-workspace.yaml`.
pub open spec fn workspace_glob(package_globs: Option<Vec<String>>, pnpm_yaml: Option<String>, x: Seq<char>) -> bool {
    ||| (match package_globs {
        Some(g) => trimmed_member(string_views(g@), x),
        None => false,
    })
    ||| (match pnpm_yaml {
        Some(y) => pnpm_member(split_lines(y@), x),
        None => false,
    })
}

fn insert_literal(out: &mut Vec<String>, s: &str)
    requires
        strictly_sorted(string_views(old(out)@)),
    ensures
        strictly_sorted(string_views(final(out)@)),
        forall|x: Seq<char>| #[trigger] string_views(final(out)@).contains(x) <==> (string_views(
            old(out)@,
        ).contains(x) || x == s@),
{
    insert_sorted_unique(out, String::from_str(s));
}

/// The workspace markers and globs of a snapshot, each ascending and
/// distinct. `package_globs` holds the globs of the `workspaces` field of
/// `package.json` when that field exists; `pnpm_yaml` the text of
/// `pnpm-workspace.yaml` when that file exists; `present_markers` the
/// names among `lerna.json`, `turbo.json` and `nx.json` that exist.
pub fn workspace_context(
    package_globs: &Option<Vec<String>>,
    pnpm_yaml: &Option<String>,
    present_markers: &Vec<String>,
) -> (r: (Vec<String>, Vec<String>))
    ensures
        string_views(r.0@) == sorted_set(
            |x: Seq<char>|
                workspace_marker(
                    package_globs is Some,
                    pnpm_yaml is Some,
                    string_views(present_markers@),
                    x,
                ),
        ),
        string_views(r.1@) == sorted_set(|x: Seq<char>| workspace_glob(*package_globs, *pnpm_yaml, x)),
{
    let ghost pv = string_views(present_markers@);
    let mut markers: Vec<String> = Vec::new();
    if package_globs.is_some() {
        insert_literal(&mut markers, "package.json#workspaces");
    }
    if pnpm_yaml.is_some() {
        insert_literal(&mut markers, "pnpm-workspace.yaml");
    }
    let lerna = String::from_str("lerna.json");
    if crate::text::strings_contain(present_markers, &lerna) {
        insert_literal(&mut markers, "lerna.json");
    }
    let turbo = String::from_str("turbo.json");
    if crate::text::strings_contain(present_markers, &turbo) {
        insert_literal(&mut markers, "turbo.json");
    }
    let nx = String::from_str("nx.json");
    if crate::text::strings_contain(present_markers, &nx) {
        insert_literal(&mut markers, "nx.json");
    }
    proof {
        let p = |x: Seq<char>| workspace_marker(package_globs is Some, pnpm_yaml is Some, pv, x);
        assert forall|x: Seq<char>| #[trigger] string_views(markers@).contains(x) <==> p(x) by {}
        lemma_is_sorted_set(string_views(markers@), p);
    }
    let mut globs: Vec<String> = match package_globs {
        Some(g) => trimmed_sorted_set(g),
        None => Vec::new(),
    };
    match pnpm_yaml {
        Some(y) => {
            let parsed = parse_pnpm_workspace_globs(y.as_str());
            insert_all(&mut globs, &parsed);
        },
        None => {},
    }
    proof {
        let p = |x: Seq<char>| workspace_glob(*package_globs, *pnpm_yaml, x);
        assert forall|x: Seq<char>| #[trigger] string_views(globs@).contains(x) <==> p(x) by {}
        lemma_is_sorted_set(string_views(globs@), p);
    }
    (markers, globs)
}

// ── Bundler assumption ───────────────────────────────────────────────────

/// Name of the `k`-th bundler heuristic, in the order they are tried.
pub open spec fn bundler_name(k: int) -> Seq<char> {
    if k == 0 {
        "next"@
    } else if k == 1 {
        "vite"@
    } else if k == 2 {
        "sveltekit"@
    } else if k == 3 {
        "astro"@
    } else if k == 4 {
        "remix"@
    } else if k == 5 {
        "webpack"@
    } else if k == 6 {
        "rspack"@
    } else if k == 7 {
        "rollup"@
    } else if k == 8 {
        "parcel"@
    } else if k == 9 {
        "esbuild"@
    } else {
        "bun"@
    }
}

/// Config files of the `k`-th bundler heuristic.
pub open spec fn bundler_configs(k: int) -> Seq<Seq<char>> {
    if k == 0 {
        seq!["next.config.js"@, "next.config.mjs"@, "next.config.ts"@]
    } else if k == 1 {
        seq!["vite.config.ts"@, "vite.config.js"@, "vite.config.mjs"@, "vite.config.cjs"@]
    } else if k == 2 {
        seq!["svelte.config.js"@, "svelte.config.ts"@]
    } else if k == 3 {
        seq!["astro.config.mjs"@, "astro.config.ts"@, "astro.config.js"@]
    } else if k == 4 {
        seq!["remix.config.js"@, "remix.config.ts"@, "remix.config.mjs"@]
    } else if k == 5 {
        seq!["webpack.config.js"@, "webpack.config.ts"@, "webpack.config.mjs"@, "webpack.config.cjs"@]
    } else if k == 6 {
        seq!["rspack.config.js"@, "rspack.config.ts"@, "rspack.config.mjs"@, "rspack.config.cjs"@]
    } else if k == 7 {
        seq!["rollup.config.js"@, "rollup.config.ts"@, "rollup.config.mjs"@, "rollup.config.cjs"@]
    } else if k == 8 {
        seq![".parcelrc"@]
    } else if k == 9 {
        Seq::empty()
    } else {
        seq!["bunfig.toml"@]
    }
}

/// Dependencies of the `k`-th bundler heuristic.
pub open spec fn bundler_deps(k: int) -> Seq<Seq<char>> {
    if k == 0 {
        seq!["next"@]
    } else if k == 1 {
        seq!["vite"@]
    } else if k == 2 {
        seq!["@sveltejs/kit"@]
    } else if k == 3 {
        seq!["astro"@]
    } else if k == 4 {
        seq!["@remix-run/dev"@]
    } else if k == 5 {
        seq!["webpack"@]
    } else if k == 6 {
        seq!["rspack"@, "@rspack/core"@]
    } else if k == 7 {
        seq!["rollup"@]
    } else if k == 8 {
        seq!["parcel"@]
    } else if k == 9 {
        seq!["esbuild"@]
    } else {
        seq!["bun"@]
    }
}

/// Script tokens of the `k`-th bundler heuristic.
pub open spec fn bundler_tokens(k: int) -> Seq<Seq<char>> {
    if k == 0 {
        seq!["next"@]
    } else if k == 1 {
        seq!["vite"@]
    } else if k == 2 {
        seq!["svelte-kit"@]
    } else if k == 3 {
        seq!["astro"@]
    } else if k == 4 {
        seq!["remix"@]
    } else if k == 5 {
        seq!["webpack"@]
    } else if k == 6 {
        seq!["rspack"@]
    } else if k == 7 {
        seq!["rollup"@]
    } else if k == 8 {
        seq!["parcel"@]
    } else if k == 9 {
        seq!["esbuild"@]
    } else {
        seq!["bun"@]
    }
}

/// Whether `x` is evidence for the `k`-th bundler: `config:<file>` for a
/// present config file, `dependency:<name>` for a declared dependency,
/// `script:<token>` for a token some script contains (case-insensitively).
pub open spec fn bundler_evidence(
    k: int,
    present: Seq<Seq<char>>,
    deps: Seq<Seq<char>>,
    scripts: Seq<Seq<char>>,
    x: Seq<char>,
) -> bool {
    ||| exists|i: int|
        0 <= i < bundler_configs(k).len() && x == "config:"@ + bundler_configs(k)[i] && present.contains(
            bundler_configs(k)[i],
        )
    ||| exists|i: int|
        0 <= i < bundler_deps(k).len() && x == "dependency:"@ + bundler_deps(k)[i] && deps.contains(
            bundler_deps(k)[i],
        )
    ||| exists|i: int|
        0 <= i < bundler_tokens(k).len() && x == "script:"@ + bundler_tokens(k)[i] && script_mentions(
            scripts,
            bundler_tokens(k)[i],
        )
}

/// Whether some script contains `token`, case-insensitively.
pub open spec fn script_mentions(scripts: Seq<Seq<char>>, token: Seq<char>) -> bool {
    exists|j: int| 0 <= j < scripts.len() && has_infix(ascii_lower_seq(scripts[j]), token)
}

/// The evidence for the `k`-th bundler, ascending, each once.
pub open spec fn evidence_list(
    k: int,
    present: Seq<Seq<char>>,
    deps: Seq<Seq<char>>,
    scripts: Seq<Seq<char>>,
) -> Seq<Seq<char>> {
    sorted_set(|x: Seq<char>| bundler_evidence(k, present, deps, scripts, x))
}

/// The first bundler, from the `k`-th on, with some evidence: its name and
/// its evidence joined with commas.
pub open spec fn bundler_from(
    k: int,
    present: Seq<Seq<char>>,
    deps: Seq<Seq<char>>,
    scripts: Seq<Seq<char>>,
) -> Option<(Seq<char>, Seq<char>)>
    decreases 11 - k,
{
    if k < 0 || k >= 11 {
        None
    } else if evidence_list(k, present, deps, scripts).len() > 0 {
        Some((bundler_name(k), crate::import::forecast::join_commas(evidence_list(k, present, deps, scripts))))
    } else {
        bundler_from(k + 1, present, deps, scripts)
    }
}

fn static_views(v: Vec<&'static str>) -> (out: Vec<String>)
    ensures
        out@.len() == v@.len(),
        forall|i: int| 0 <= i < v@.len() ==> (#[trigger] out@[i])@ == v@[i]@,
{
    let mut out: Vec<String> = Vec::new();
    let mut i: usize = 0;
    while i < v.len()
        invariant
            i <= v@.len(),
            out@.len() == i,
            forall|j: int| 0 <= j < i ==> (#[trigger] out@[j])@ == v@[j]@,
        decreases v@.len() - i,
    {
        out.push(String::from_str(v[i]));
        i = i + 1;
    }
    out
}

fn heuristic(k: usize) -> (h: (&'static str, Vec<String>, Vec<String>, Vec<String>))
    requires
        k < 11,
    ensures
        h.0@ == bundler_name(k as int),
        string_views(h.1@) == bundler_configs(k as int),
        string_views(h.2@) == bundler_deps(k as int),
        string_views(h.3@) == bundler_tokens(k as int),
{
    if k == 0 {
        let c = static_views(vec!["next.config.js", "next.config.mjs", "next.config.ts"]);
        let d = static_views(vec!["next"]);
        let t = static_views(vec!["next"]);
        proof {
            assert(string_views(c@) =~= bundler_configs(0));
            assert(string_views(d@) =~= bundler_deps(0));
            assert(string_views(t@) =~= bundler_tokens(0));
        }
        ("next", c, d, t)
    } else if k == 1 {
        let c = static_views(vec!["vite.config.ts", "vite.config.js", "vite.config.mjs", "vite.config.cjs"]);
        let d = static_views(vec!["vite"]);
        let t = static_views(vec!["vite"]);
        proof {
            assert(string_views(c@) =~= bundler_configs(1));
            assert(string_views(d@) =~= bundler_deps(1));
            assert(string_views(t@) =~= bundler_tokens(1));
        }
        ("vite", c, d, t)
    } else if k == 2 {
        let c = static_views(vec!["svelte.config.js", "svelte.config.ts"]);
        let d = static_views(vec!["@sveltejs/kit"]);
        let t = static_views(vec!["svelte-kit"]);
        proof {
            assert(string_views(c@) =~= bundler_configs(2));
            assert(string_views(d@) =~= bundler_deps(2));
            assert(string_views(t@) =~= bundler_tokens(2));
        }
        ("sveltekit", c, d, t)
    } else if k == 3 {
        let c = static_views(vec!["astro.config.mjs", "astro.config.ts", "astro.config.js"]);
        let d = static_views(vec!["astro"]);
        let t = static_views(vec!["astro"]);
        proof {
            assert(string_views(c@) =~= bundler_configs(3));
            assert(string_views(d@) =~= bundler_deps(3));
            assert(string_views(t@) =~= bundler_tokens(3));
        }
        ("astro", c, d, t)
    } else if k == 4 {
        let c = static_views(vec!["remix.config.js", "remix.config.ts", "remix.config.mjs"]);
        let d = static_views(vec!["@remix-run/dev"]);
        let t = static_views(vec!["remix"]);
        proof {
            assert(string_views(c@) =~= bundler_configs(4));
            assert(string_views(d@) =~= bundler_deps(4));
            assert(string_views(t@) =~= bundler_tokens(4));
        }
        ("remix", c, d, t)
    } else if k == 5 {
        let c = static_views(vec!["webpack.config.js", "webpack.config.ts", "webpack.config.mjs", "webpack.config.cjs"]);
        let d = static_views(vec!["webpack"]);
        let t = static_views(vec!["webpack"]);
        proof {
            assert(string_views(c@) =~= bundler_configs(5));
            assert(string_views(d@) =~= bundler_deps(5));
            assert(string_views(t@) =~= bundler_tokens(5));
        }
        ("webpack", c, d, t)
    } else if k == 6 {
        let c = static_views(vec!["rspack.config.js", "rspack.config.ts", "rspack.config.mjs", "rspack.config.cjs"]);
        let d = static_views(vec!["rspack", "@rspack/core"]);
        let t = static_views(vec!["rspack"]);
        proof {
            assert(string_views(c@) =~= bundler_configs(6));
            assert(string_views(d@) =~= bundler_deps(6));
            assert(string_views(t@) =~= bundler_tokens(6));
        }
        ("rspack", c, d, t)
    } else if k == 7 {
        let c = static_views(vec!["rollup.config.js", "rollup.config.ts", "rollup.config.mjs", "rollup.config.cjs"]);
        let d = static_views(vec!["rollup"]);
        let t = static_views(vec!["rollup"]);
        proof {
            assert(string_views(c@) =~= bundler_configs(7));
            assert(string_views(d@) =~= bundler_deps(7));
            assert(string_views(t@) =~= bundler_tokens(7));
        }
        ("rollup", c, d, t)
    } else if k == 8 {
        let c = static_views(vec![".parcelrc"]);
        let d = static_views(vec!["parcel"]);
        let t = static_views(vec!["parcel"]);
        proof {
            assert(string_views(c@) =~= bundler_configs(8));
            assert(string_views(d@) =~= bundler_deps(8));
            assert(string_views(t@) =~= bundler_tokens(8));
        }
        ("parcel", c, d, t)
    } else if k == 9 {
        let c = static_views(Vec::<&'static str>::new());
        let d = static_views(vec!["esbuild"]);
        let t = static_views(vec!["esbuild"]);
        proof {
            assert(string_views(c@) =~= bundler_configs(9));
            assert(string_views(d@) =~= bundler_deps(9));
            assert(string_views(t@) =~= bundler_tokens(9));
        }
        ("esbuild", c, d, t)
    } else {
        let c = static_views(vec!["bunfig.toml"]);
        let d = static_views(vec!["bun"]);
        let t = static_views(vec!["bun"]);
        proof {
            assert(string_views(c@) =~= bundler_configs(10));
            assert(string_views(d@) =~= bundler_deps(10));
            assert(string_views(t@) =~= bundler_tokens(10));
        }
        ("bun", c, d, t)
    }
}

/// Insert `prefix` + each name of `names` that `pool` holds.
fn add_present(out: &mut Vec<String>, prefix: &str, names: &Vec<String>, pool: &Vec<String>)
    requires
        strictly_sorted(string_views(old(out)@)),
    ensures
        strictly_sorted(string_views(final(out)@)),
        forall|x: Seq<char>| #[trigger] string_views(final(out)@).contains(x) <==> (string_views(
            old(out)@,
        ).contains(x) || exists|i: int|
            0 <= i < names@.len() && x == prefix@ + names@[i]@ && string_views(pool@).contains(
                names@[i]@,
            )),
{
    let mut i: usize = 0;
    while i < names.len()
        invariant
            i <= names@.len(),
            strictly_sorted(string_views(out@)),
            forall|x: Seq<char>| #[trigger] string_views(out@).contains(x) <==> (string_views(
                old(out)@,
            ).contains(x) || exists|j: int|
                0 <= j < i && x == prefix@ + names@[j]@ && string_views(pool@).contains(
                    names@[j]@,
                )),
        decreases names@.len() - i,
    {
        if crate::text::strings_contain(pool, &names[i]) {
            insert_sorted_unique(out, crate::text::cat(prefix, names[i].as_str()));
        }
        proof {
            assert forall|x: Seq<char>| #[trigger] string_views(out@).contains(x) <==> (string_views(
                old(out)@,
            ).contains(x) || exists|j: int|
                0 <= j < i + 1 && x == prefix@ + names@[j]@ && string_views(pool@).contains(
                    names@[j]@,
                )) by {
                if exists|j: int|
                    0 <= j < i + 1 && x == prefix@ + names@[j]@ && string_views(pool@).contains(
                        names@[j]@,
                    ) {
                    let j = choose|j: int|
                        0 <= j < i + 1 && x == prefix@ + names@[j]@ && string_views(pool@).contains(
                            names@[j]@,
                        );
                    if j < i {
                        assert(exists|j: int|
                            0 <= j < i && x == prefix@ + names@[j]@ && string_views(pool@).contains(
                                names@[j]@,
                            ));
                    }
                }
            }
        }
        i = i + 1;
    }
}

/// Whether some of the lowercased scripts contains `token`.
fn any_script_mentions(lowered: &Vec<String>, token: &String) -> (b: bool)
    ensures
        b == exists|j: int| 0 <= j < lowered@.len() && has_infix((#[trigger] lowered@[j])@, token@),
{
    let mut j: usize = 0;
    while j < lowered.len()
        invariant
            j <= lowered@.len(),
            forall|m: int| 0 <= m < j ==> !has_infix((#[trigger] lowered@[m])@, token@),
        decreases lowered@.len() - j,
    {
        if str_contains(lowered[j].as_str(), token.as_str()) {
            return true;
        }
        j = j + 1;
    }
    false
}

/// Insert `script:` + each token some script mentions.
fn add_script_tokens(out: &mut Vec<String>, tokens: &Vec<String>, scripts: &Vec<String>, lowered: &Vec<String>)
    requires
        strictly_sorted(string_views(old(out)@)),
        lowered@.len() == scripts@.len(),
        forall|j: int| 0 <= j < scripts@.len() ==> (#[trigger] lowered@[j])@ == ascii_lower_seq(scripts@[j]@),
    ensures
        strictly_sorted(string_views(final(out)@)),
        forall|x: Seq<char>| #[trigger] string_views(final(out)@).contains(x) <==> (string_views(
            old(out)@,
        ).contains(x) || exists|i: int|
            0 <= i < tokens@.len() && x == "script:"@ + tokens@[i]@ && script_mentions(
                string_views(scripts@),
                tokens@[i]@,
            )),
{
    let mut i: usize = 0;
    while i < tokens.len()
        invariant
            i <= tokens@.len(),
            lowered@.len() == scripts@.len(),
            forall|j: int| 0 <= j < scripts@.len() ==> (#[trigger] lowered@[j])@ == ascii_lower_seq(scripts@[j]@),
            strictly_sorted(string_views(out@)),
            forall|x: Seq<char>| #[trigger] string_views(out@).contains(x) <==> (string_views(
                old(out)@,
            ).contains(x) || exists|j: int|
                0 <= j < i && x == "script:"@ + tokens@[j]@ && script_mentions(
                    string_views(scripts@),
                    tokens@[j]@,
                )),
        decreases tokens@.len() - i,
    {
        let mentioned = any_script_mentions(lowered, &tokens[i]);
        proof {
            let sv = string_views(scripts@);
            if mentioned {
                let j = choose|j: int| 0 <= j < lowered@.len() && has_infix((#[trigger] lowered@[j])@, tokens@[i as int]@);
                assert(sv[j] == scripts@[j]@);
                assert(has_infix(ascii_lower_seq(sv[j]), tokens@[i as int]@));
            }
            if script_mentions(sv, tokens@[i as int]@) {
                let j = choose|j: int| 0 <= j < sv.len() && has_infix(ascii_lower_seq(sv[j]), tokens@[i as int]@);
                assert(sv[j] == scripts@[j]@);
                assert(has_infix(lowered@[j]@, tokens@[i as int]@));
            }
        }
        if mentioned {
            insert_sorted_unique(out, crate::text::cat("script:", tokens[i].as_str()));
        }
        proof {
            assert forall|x: Seq<char>| #[trigger] string_views(out@).contains(x) <==> (string_views(
                old(out)@,
            ).contains(x) || exists|j: int|
                0 <= j < i + 1 && x == "script:"@ + tokens@[j]@ && script_mentions(
                    string_views(scripts@),
                    tokens@[j]@,
                )) by {
                if exists|j: int|
                    0 <= j < i + 1 && x == "script:"@ + tokens@[j]@ && script_mentions(
                        string_views(scripts@),
                        tokens@[j]@,
                    ) {
                    let j = choose|j: int|
                        0 <= j < i + 1 && x == "script:"@ + tokens@[j]@ && script_mentions(
                            string_views(scripts@),
                            tokens@[j]@,
                        );
                    if j < i {
                        assert(exists|j: int|
                            0 <= j < i && x == "script:"@ + tokens@[j]@ && script_mentions(
                                string_views(scripts@),
                                tokens@[j]@,
                            ));
                    }
                }
            }
        }
        i = i + 1;
    }
}

/// Config files every bundler heuristic looks for, in table order.
pub open spec fn all_bundler_configs(k: int) -> Seq<Seq<char>>
    decreases k,
{
    if k <= 0 {
        Seq::empty()
    } else {
        all_bundler_configs(k - 1) + bundler_configs(k - 1)
    }
}

/// Every config file the bundler heuristics look for, in table order; the
/// caller reports which of them exist in the snapshot.
pub fn bundler_config_candidates() -> (v: Vec<String>)
    ensures
        string_views(v@) == all_bundler_configs(11),
{
    let mut v: Vec<String> = Vec::new();
    let mut k: usize = 0;
    while k < 11
        invariant
            k <= 11,
            string_views(v@) == all_bundler_configs(k as int),
        decreases 11 - k,
    {
        let h = heuristic(k);
        let ghost before = string_views(v@);
        let mut i: usize = 0;
        while i < h.1.len()
            invariant
                i <= h.1@.len(),
                string_views(v@) == before + string_views(h.1@).take(i as int),
            decreases h.1@.len() - i,
        {
            let ghost old_v = v@;
            v.push(h.1[i].clone());
            proof {
                assert(string_views(v@) =~= string_views(old_v).push(h.1@[i as int]@));
                assert(string_views(h.1@).take(i as int + 1) =~= string_views(h.1@).take(i as int).push(
                    h.1@[i as int]@,
                ));
                assert(string_views(v@) =~= before + string_views(h.1@).take(i as int + 1));
            }
            i = i + 1;
        }
        proof {
            assert(string_views(h.1@).take(i as int) =~= string_views(h.1@));
        }
        k = k + 1;
    }
    v
}

/// The bundler a snapshot assumes and the evidence for it: the first
/// heuristic, in table order, with any evidence among the present config
/// files, the declared dependencies and the package scripts.
pub fn detect_bundler_assumption(
    present_configs: &Vec<String>,
    dependencies: &Vec<String>,
    scripts: &Vec<String>,
) -> (r: (Option<String>, Option<String>))
    ensures
        match bundler_from(0, string_views(present_configs@), string_views(dependencies@), string_views(scripts@)) {
            None => r.0 is None && r.1 is None,
            Some((name, evidence)) => (r.0 matches Some(n) && n@ == name) && (r.1 matches Some(e)
                && e@ == evidence),
        },
{
    let ghost pv = string_views(present_configs@);
    let ghost dv = string_views(dependencies@);
    let ghost sv = string_views(scripts@);
    let mut lowered: Vec<String> = Vec::new();
    let mut j: usize = 0;
    while j < scripts.len()
        invariant
            j <= scripts@.len(),
            lowered@.len() == j,
            forall|m: int| 0 <= m < j ==> (#[trigger] lowered@[m])@ == ascii_lower_seq(scripts@[m]@),
        decreases scripts@.len() - j,
    {
        lowered.push(str_ascii_lower(scripts[j].as_str()));
        j = j + 1;
    }
    let mut k: usize = 0;
    while k < 11
        invariant
            k <= 11,
            pv == string_views(present_configs@),
            dv == string_views(dependencies@),
            sv == string_views(scripts@),
            lowered@.len() == scripts@.len(),
            forall|m: int| 0 <= m < scripts@.len() ==> (#[trigger] lowered@[m])@ == ascii_lower_seq(scripts@[m]@),
            bundler_from(0, pv, dv, sv) == bundler_from(k as int, pv, dv, sv),
        decreases 11 - k,
    {
        let h = heuristic(k);
        let mut evidence: Vec<String> = Vec::new();
        add_present(&mut evidence, "config:", &h.1, present_configs);
        add_present(&mut evidence, "dependency:", &h.2, dependencies);
        add_script_tokens(&mut evidence, &h.3, scripts, &lowered);
        proof {
            let p = |x: Seq<char>| bundler_evidence(k as int, pv, dv, sv, x);
            assert forall|x: Seq<char>| #[trigger] string_views(evidence@).contains(x) <==> p(x) by {
                if exists|i: int| 0 <= i < h.1@.len() && x == "config:"@ + h.1@[i]@ && pv.contains(h.1@[i]@) {
                    let i = choose|i: int| 0 <= i < h.1@.len() && x == "config:"@ + h.1@[i]@ && pv.contains(h.1@[i]@);
                    assert(bundler_configs(k as int)[i] == h.1@[i]@);
                }
                if exists|i: int| 0 <= i < bundler_configs(k as int).len() && x == "config:"@ + bundler_configs(k as int)[i] && pv.contains(bundler_configs(k as int)[i]) {
                    let i = choose|i: int| 0 <= i < bundler_configs(k as int).len() && x == "config:"@ + bundler_configs(k as int)[i] && pv.contains(bundler_configs(k as int)[i]);
                    assert(bundler_configs(k as int)[i] == h.1@[i]@);
                }
                if exists|i: int| 0 <= i < h.2@.len() && x == "dependency:"@ + h.2@[i]@ && dv.contains(h.2@[i]@) {
                    let i = choose|i: int| 0 <= i < h.2@.len() && x == "dependency:"@ + h.2@[i]@ && dv.contains(h.2@[i]@);
                    assert(bundler_deps(k as int)[i] == h.2@[i]@);
                }
                if exists|i: int| 0 <= i < bundler_deps(k as int).len() && x == "dependency:"@ + bundler_deps(k as int)[i] && dv.contains(bundler_deps(k as int)[i]) {
                    let i = choose|i: int| 0 <= i < bundler_deps(k as int).len() && x == "dependency:"@ + bundler_deps(k as int)[i] && dv.contains(bundler_deps(k as int)[i]);
                    assert(bundler_deps(k as int)[i] == h.2@[i]@);
                }
                if exists|i: int| 0 <= i < h.3@.len() && x == "script:"@ + h.3@[i]@ && script_mentions(sv, h.3@[i]@) {
                    let i = choose|i: int| 0 <= i < h.3@.len() && x == "script:"@ + h.3@[i]@ && script_mentions(sv, h.3@[i]@);
                    assert(bundler_tokens(k as int)[i] == h.3@[i]@);
                }
                if exists|i: int| 0 <= i < bundler_tokens(k as int).len() && x == "script:"@ + bundler_tokens(k as int)[i] && script_mentions(sv, bundler_tokens(k as int)[i]) {
                    let i = choose|i: int| 0 <= i < bundler_tokens(k as int).len() && x == "script:"@ + bundler_tokens(k as int)[i] && script_mentions(sv, bundler_tokens(k as int)[i]);
                    assert(bundler_tokens(k as int)[i] == h.3@[i]@);
                }
            }
            lemma_is_sorted_set(string_views(evidence@), p);
        }
        if evidence.len() > 0 {
            let joined = crate::import::forecast::join_with_commas(&evidence);
            return (Some(String::from_str(h.0)), Some(joined));
        }
        k = k + 1;
    }
    (None, None)
}

// ── Package manager from lockfiles ───────────────────────────────────────

/// Lockfile of the `k`-th package-manager rule, in the order tried.
pub open spec fn lockfile_rule_file(k: int) -> Seq<char> {
    if k == 0 {
        "pnpm-lock.yaml"@
    } else if k == 1 {
        "yarn.lock"@
    } else if k == 2 {
        "package-lock.json"@
    } else if k == 3 {
        "npm-shrinkwrap.json"@
    } else if k == 4 {
        "bun.lockb"@
    } else {
        "bun.lock"@
    }
}

/// Package manager of the `k`-th rule.
pub open spec fn lockfile_rule_manager(k: int) -> Seq<char> {
    if k == 0 {
        "pnpm"@
    } else if k == 1 {
        "yarn"@
    } else if k <= 3 {
        "npm"@
    } else {
        "bun"@
    }
}

/// The first rule, from the `k`-th on, whose lockfile is present: the
/// manager and `lockfile:<file>`.
pub open spec fn lockfile_manager_from(present: Seq<Seq<char>>, k: int) -> Option<(Seq<char>, Seq<char>)>
    decreases 6 - k,
{
    if k < 0 || k >= 6 {
        None
    } else if present.contains(lockfile_rule_file(k)) {
        Some((lockfile_rule_manager(k), "lockfile:"@ + lockfile_rule_file(k)))
    } else {
        lockfile_manager_from(present, k + 1)
    }
}

fn lockfile_rule(k: usize) -> (r: (&'static str, &'static str))
    requires
        k < 6,
    ensures
        r.0@ == lockfile_rule_file(k as int),
        r.1@ == lockfile_rule_manager(k as int),
{
    if k == 0 {
        ("pnpm-lock.yaml", "pnpm")
    } else if k == 1 {
        ("yarn.lock", "yarn")
    } else if k == 2 {
        ("package-lock.json", "npm")
    } else if k == 3 {
        ("npm-shrinkwrap.json", "npm")
    } else if k == 4 {
        ("bun.lockb", "bun")
    } else {
        ("bun.lock", "bun")
    }
}

/// The package manager the snapshot's lockfiles imply and the lockfile
/// that implies it; `present` lists the lockfile names the snapshot root holds.
pub fn infer_package_manager_from_lockfiles(present: &Vec<String>) -> (r: Option<(String, String)>)
    ensures
        match lockfile_manager_from(string_views(present@), 0) {
            None => r is None,
            Some((m, src)) => (r matches Some(p) && p.0@ == m && p.1@ == src),
        },
{
    let ghost pv = string_views(present@);
    let mut k: usize = 0;
    while k < 6
        invariant
            k <= 6,
            pv == string_views(present@),
            lockfile_manager_from(pv, 0) == lockfile_manager_from(pv, k as int),
        decreases 6 - k,
    {
        let rule = lockfile_rule(k);
        let file = String::from_str(rule.0);
        if crate::text::strings_contain(present, &file) {
            return Some((String::from_str(rule.1), crate::text::cat("lockfile:", rule.0)));
        }
        k = k + 1;
    }
    None
}

// ── Runtime context ──────────────────────────────────────────────────────

/// Whether some source mentions `needle`.
pub open spec fn some_source_mentions(sources: Seq<Seq<char>>, needle: Seq<char>) -> bool {
    exists|i: int| 0 <= i < sources.len() && has_infix(sources[i], needle)
}

/// Whether `x` is a runtime environment marker of the sources: one of
/// `import.meta.env`, `process.env`, `Bun.env` that some source mentions,
/// or the marker the bundler implies.
pub open spec fn runtime_marker(sources: Seq<Seq<char>>, bundler: Option<Seq<char>>, x: Seq<char>) -> bool {
    ||| ((x == "import.meta.env"@ || x == "process.env"@ || x == "Bun.env"@) && some_source_mentions(
        sources,
        x,
    ))
    ||| crate::import::runtime_marker_spec(bundler) == Some(x)
}

/// The runtime environment markers of the sources, ascending, each once.
pub open spec fn runtime_markers_spec(sources: Seq<Seq<char>>, bundler: Option<Seq<char>>) -> Seq<Seq<char>> {
    sorted_set(|x: Seq<char>| runtime_marker(sources, bundler, x))
}

/// The text of an optional string slice.
pub open spec fn opt_view(o: Option<&str>) -> Option<Seq<char>> {
    match o {
        None => None,
        Some(s) => Some(s@),
    }
}

fn any_source_mentions(sources: &Vec<String>, needle: &str) -> (b: bool)
    ensures
        b == some_source_mentions(string_views(sources@), needle@),
{
    let mut i: usize = 0;
    while i < sources.len()
        invariant
            i <= sources@.len(),
            forall|k: int| 0 <= k < i ==> !has_infix((#[trigger] sources@[k])@, needle@),
        decreases sources@.len() - i,
    {
        if str_contains(sources[i].as_str(), needle) {
            proof {
                assert(string_views(sources@)[i as int] == sources@[i as int]@);
            }
            return true;
        }
        i = i + 1;
    }
    proof {
        if some_source_mentions(string_views(sources@), needle@) {
            let k = choose|k: int| 0 <= k < sources@.len() && has_infix(string_views(sources@)[k], needle@);
            assert(string_views(sources@)[k] == sources@[k]@);
        }
    }
    false
}

/// The runtime environment markers of a snapshot's JavaScript/TypeScript
/// sources, ascending and distinct, and whether any of them imports
/// dynamically (`import(` or `import (`).
pub fn runtime_context(sources: &Vec<String>, bundler: Option<&str>) -> (r: (Vec<String>, bool))
    ensures
        string_views(r.0@) == runtime_markers_spec(string_views(sources@), opt_view(bundler)),
        r.1 == (some_source_mentions(string_views(sources@), "import("@) || some_source_mentions(
            string_views(sources@),
            "import ("@,
        )),
{
    let ghost sv = string_views(sources@);
    let ghost b = opt_view(bundler);
    let dynamic = any_source_mentions(sources, "import(") || any_source_mentions(sources, "import (");
    let mut markers: Vec<String> = Vec::new();
    if any_source_mentions(sources, "import.meta.env") {
        insert_literal(&mut markers, "import.meta.env");
    }
    if any_source_mentions(sources, "process.env") {
        insert_literal(&mut markers, "process.env");
    }
    if any_source_mentions(sources, "Bun.env") {
        insert_literal(&mut markers, "Bun.env");
    }
    match crate::import::inferred_runtime_marker_for_bundler(bundler) {
        Some(m) => insert_literal(&mut markers, m),
        None => {},
    }
    proof {
        let p = |x: Seq<char>| runtime_marker(sv, b, x);
        assert forall|x: Seq<char>| #[trigger] string_views(markers@).contains(x) <==> p(x) by {}
        lemma_is_sorted_set(string_views(markers@), p);
    }
    (markers, dynamic)
}

// ── Watch recomputation scope ────────────────────────────────────────────

/// Whether some change invalidates stage `s`.
pub open spec fn stage_invalidated(changes: Seq<crate::import::WatchFileChange>, s: Seq<char>) -> bool {
    exists|i: int| 0 <= i < changes.len() && string_views(changes[i].invalidated_stages@).contains(s)
}

/// The pipeline stages that must be recomputed (all of them on a baseline
/// run, else those some change invalidates) and the stages served from
/// cache, each in pipeline order.
pub open spec fn scope_spec(baseline: bool, changes: Seq<crate::import::WatchFileChange>) -> (Seq<Seq<char>>, Seq<Seq<char>>) {
    let stages = crate::import::pipeline_stages();
    (
        stages.filter(|s: Seq<char>| baseline || stage_invalidated(changes, s)),
        stages.filter(|s: Seq<char>| !(baseline || stage_invalidated(changes, s))),
    )
}

fn change_invalidates(changes: &Vec<crate::import::WatchFileChange>, stage: &String) -> (b: bool)
    ensures
        b == stage_invalidated(changes@, stage@),
{
    let mut i: usize = 0;
    while i < changes.len()
        invariant
            i <= changes@.len(),
            forall|k: int| 0 <= k < i ==> !string_views((#[trigger] changes@[k]).invalidated_stages@).contains(stage@),
        decreases changes@.len() - i,
    {
        if crate::text::strings_contain(&changes[i].invalidated_stages, stage) {
            return true;
        }
        i = i + 1;
    }
    false
}

/// Split the pipeline stages of a watch run into those to recompute and
/// those served from cache.
pub fn watch_recomputation_scope(baseline_full_recompute: bool, changes: &Vec<crate::import::WatchFileChange>) -> (r: (
    Vec<String>,
    Vec<String>,
))
    ensures
        string_views(r.0@) == scope_spec(baseline_full_recompute, changes@).0,
        string_views(r.1@) == scope_spec(baseline_full_recompute, changes@).1,
{
    let stages = crate::import::watch_pipeline_stages();
    let ghost sv = string_views(stages@);
    let ghost keep = |s: Seq<char>| baseline_full_recompute || stage_invalidated(changes@, s);
    let ghost drop = |s: Seq<char>| !(baseline_full_recompute || stage_invalidated(changes@, s));
    let mut invalidated: Vec<String> = Vec::new();
    let mut hits: Vec<String> = Vec::new();
    let mut i: usize = 0;
    proof {
        reveal(Seq::filter);
        assert(sv.take(0).filter(keep) =~= Seq::<Seq<char>>::empty());
        assert(sv.take(0).filter(drop) =~= Seq::<Seq<char>>::empty());
    }
    while i < stages.len()
        invariant
            i <= stages@.len(),
            sv == string_views(stages@),
            keep == (|s: Seq<char>| baseline_full_recompute || stage_invalidated(changes@, s)),
            drop == (|s: Seq<char>| !(baseline_full_recompute || stage_invalidated(changes@, s))),
            string_views(invalidated@) == sv.take(i as int).filter(keep),
            string_views(hits@) == sv.take(i as int).filter(drop),
        decreases stages@.len() - i,
    {
        let hit = !(baseline_full_recompute || change_invalidates(changes, &stages[i]));
        proof {
            assert(sv[i as int] == stages@[i as int]@);
            assert(sv.take(i as int + 1) =~= sv.take(i as int).push(sv[i as int]));
            reveal(Seq::filter);
            assert(sv.take(i as int + 1).drop_last() =~= sv.take(i as int));
            assert(sv.take(i as int + 1).last() == sv[i as int]);
        }
        let ghost inv_before = invalidated@;
        let ghost hits_before = hits@;
        if hit {
            hits.push(stages[i].clone());
            proof {
                assert(string_views(hits@) =~= string_views(hits_before).push(sv[i as int]));
            }
        } else {
            invalidated.push(stages[i].clone());
            proof {
                assert(string_views(invalidated@) =~= string_views(inv_before).push(sv[i as int]));
            }
        }
        i = i + 1;
    }
    proof {
        assert(sv.take(i as int) =~= sv);
    }
    (invalidated, hits)
}

proof fn lemma_filter_split(s: Seq<Seq<char>>, p: spec_fn(Seq<char>) -> bool, q: spec_fn(Seq<char>) -> bool)
    requires
        forall|x: Seq<char>| #[trigger] q(x) == !p(x),
    ensures
        s.filter(p).len() + s.filter(q).len() == s.len(),
        forall|x: Seq<char>| #[trigger] s.filter(p).contains(x) <==> (s.contains(x) && p(x)),
        forall|x: Seq<char>| #[trigger] s.filter(q).contains(x) <==> (s.contains(x) && q(x)),
    decreases s.len(),
{
    reveal(Seq::filter);
    if s.len() > 0 {
        let t = s.drop_last();
        lemma_filter_split(t, p, q);
        assert(s =~= t.push(s.last()));
        assert forall|x: Seq<char>| #[trigger] s.filter(p).contains(x) <==> (s.contains(x) && p(x)) by {
            if s.contains(x) && x != s.last() {
                let k = choose|k: int| 0 <= k < s.len() && s[k] == x;
                assert(t[k] == x);
            }
            if t.contains(x) {
                let k = choose|k: int| 0 <= k < t.len() && t[k] == x;
                assert(s[k] == x);
            }
            if s.filter(p).contains(x) && !t.filter(p).contains(x) {
                assert(x == s.last());
                assert(s[s.len() - 1] == x);
            }
            if x == s.last() && p(x) {
                assert(s.filter(p)[s.filter(p).len() - 1] == x);
            }
            if t.filter(p).contains(x) {
                let k = choose|k: int| 0 <= k < t.filter(p).len() && t.filter(p)[k] == x;
                assert(s.filter(p)[k] == x);
            }
        }
        assert forall|x: Seq<char>| #[trigger] s.filter(q).contains(x) <==> (s.contains(x) && q(x)) by {
            if s.contains(x) && x != s.last() {
                let k = choose|k: int| 0 <= k < s.len() && s[k] == x;
                assert(t[k] == x);
            }
            if t.contains(x) {
                let k = choose|k: int| 0 <= k < t.len() && t[k] == x;
                assert(s[k] == x);
            }
            if s.filter(q).contains(x) && !t.filter(q).contains(x) {
                assert(x == s.last());
                assert(s[s.len() - 1] == x);
            }
            if x == s.last() && q(x) {
                assert(s.filter(q)[s.filter(q).len() - 1] == x);
            }
            if t.filter(q).contains(x) {
                let k = choose|k: int| 0 <= k < t.filter(q).len() && t.filter(q)[k] == x;
                assert(s.filter(q)[k] == x);
            }
        }
    }
}

/// A watch run's scope partitions the pipeline: every stage is either
/// recomputed or served from cache, never both, the two counts add up to
/// the pipeline's length, and a baseline run recomputes every stage.
pub proof fn law_watch_scope_partitions_pipeline(baseline: bool, changes: Seq<crate::import::WatchFileChange>)
    ensures
        scope_spec(baseline, changes).0.len() + scope_spec(baseline, changes).1.len()
            == crate::import::pipeline_stages().len(),
        forall|s: Seq<char>|
            #![trigger crate::import::pipeline_stages().contains(s)]
            crate::import::pipeline_stages().contains(s) ==> (scope_spec(baseline, changes).0.contains(s)
                != scope_spec(baseline, changes).1.contains(s)),
        baseline ==> scope_spec(baseline, changes).0 == crate::import::pipeline_stages(),
        baseline ==> scope_spec(baseline, changes).1.len() == 0,
{
    let stages = crate::import::pipeline_stages();
    let keep = |s: Seq<char>| baseline || stage_invalidated(changes, s);
    let drop = |s: Seq<char>| !(baseline || stage_invalidated(changes, s));
    lemma_filter_split(stages, keep, drop);
    if baseline {
        lemma_filter_all(stages, keep);
    }
}

proof fn lemma_filter_all(s: Seq<Seq<char>>, p: spec_fn(Seq<char>) -> bool)
    requires
        forall|x: Seq<char>| #[trigger] p(x),
    ensures
        s.filter(p) == s,
    decreases s.len(),
{
    reveal(Seq::filter);
    if s.len() > 0 {
        lemma_filter_all(s.drop_last(), p);
        assert(s =~= s.drop_last().push(s.last()));
    }
}

} // verus!
