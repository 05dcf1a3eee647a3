//! Reading the configuration validator's diagnostics: which enabled sites are broken.
use vstd::prelude::*;

use crate::text::{chars_eq, contains, occurs_at, contains_exec, find, find_from, to_chars, to_string};

verus! {

/// Where the enabled store lives; a diagnostic naming a file below it names a site.
pub open spec fn enabled_prefix() -> Seq<char> {
    "/etc/nginx/sites-enabled/"@
}

/// How the validator points at a file of the enabled store.
pub open spec fn enabled_marker() -> Seq<char> {
    "in /etc/nginx/sites-enabled/"@
}

/// How the validator reports a certificate it could not read.
pub open spec fn cert_failure() -> Seq<char> {
    "cannot load certificate"@
}

/// Where issued certificates live, one directory per domain.
pub open spec fn live_prefix() -> Seq<char> {
    "/etc/letsencrypt/live/"@
}

/// The text after the first `prefix` of `line`, up to (not including) the next `stop`.
pub open spec fn segment_after(line: Seq<char>, prefix: Seq<char>, stop: char) -> Option<Seq<char>> {
    match find(line, prefix, 0) {
        None => None,
        Some(start) => {
            let rest = line.skip(start + prefix.len());
            match find(rest, seq![stop], 0) {
                None => None,
                Some(end) => Some(rest.take(end)),
            }
        },
    }
}

/// The site a single diagnostic line blames, if any. A line that points into the enabled
/// store names the file up to the `:` of its position; a certificate failure names the
/// directory under the live-certificate root, and counts only while an enabled entry of
/// that name exists.
pub open spec fn line_culprit(line: Seq<char>, enabled: Seq<Seq<char>>) -> Option<Seq<char>> {
    if contains(line, enabled_marker()) {
        segment_after(line, enabled_prefix(), ':')
    } else if contains(line, cert_failure()) {
        match segment_after(line, live_prefix(), '/') {
            Some(d) => if enabled.contains(d) {
                Some(d)
            } else {
                None
            },
            None => None,
        }
    } else {
        None
    }
}

/// The finished lines of `s` and the unfinished last one; lines end at `\n`.
pub open spec fn lines_acc(s: Seq<char>) -> (Seq<Seq<char>>, Seq<char>)
    decreases s.len(),
{
    if s.len() == 0 {
        (seq![], seq![])
    } else {
        let (done, cur) = lines_acc(s.drop_last());
        if s.last() == '\n' {
            (done.push(cur), seq![])
        } else {
            (done, cur.push(s.last()))
        }
    }
}

/// The lines of `s`; a final line ending adds no empty line.
pub open spec fn split_lines(s: Seq<char>) -> Seq<Seq<char>> {
    let (done, cur) = lines_acc(s);
    if cur.len() > 0 {
        done.push(cur)
    } else {
        done
    }
}

/// The sites blamed by `lines`, each once, in the order first blamed.
pub open spec fn culprits(lines: Seq<Seq<char>>, enabled: Seq<Seq<char>>) -> Seq<Seq<char>>
    decreases lines.len(),
{
    if lines.len() == 0 {
        seq![]
    } else {
        let prev = culprits(lines.drop_last(), enabled);
        match line_culprit(lines.last(), enabled) {
            Some(d) => if prev.contains(d) {
                prev
            } else {
                prev.push(d)
            },
            None => prev,
        }
    }
}

/// The characters of each string.
pub open spec fn names_view(v: Seq<String>) -> Seq<Seq<char>> {
    v.map_values(|s: String| s@)
}

/// The sites that a failed validation blames; a passing validation blames none.
pub open spec fn broken_configs(passed: bool, diagnostics: Seq<char>, enabled: Seq<Seq<char>>) -> Seq<
    Seq<char>,
> {
    if passed {
        seq![]
    } else {
        culprits(split_lines(diagnostics), enabled)
    }
}

fn segment_after_exec(line: &Vec<char>, prefix: &str, stop: char) -> (r: Option<Vec<char>>)
    ensures
        r matches Some(v) ==> segment_after(line@, prefix@, stop) == Some(v@),
        r is None ==> segment_after(line@, prefix@, stop) is None,
{
    let p = to_chars(prefix);
    match find_from(line, &p, 0) {
        None => None,
        Some(start) => {
            let ghost rest_g = line@.skip(start + p@.len());
            proof {
                crate::text::lemma_find(line@, p@, 0);
            }
            assert(occurs_at(line@, p@, start as int));
            assert(start + p.len() <= line.len());
            let mut rest: Vec<char> = Vec::new();
            let mut i: usize = start + p.len();
            while i < line.len()
                invariant
                    start + p@.len() <= i <= line.len(),
                    rest@ == line@.subrange(start + p@.len(), i as int),
                decreases line.len() - i,
            {
                rest.push(line[i]);
                i = i + 1;
            }
            assert(rest@ =~= rest_g);
            let mut s: Vec<char> = Vec::new();
            s.push(stop);
            match find_from(&rest, &s, 0) {
                None => None,
                Some(end) => {
                    let mut out: Vec<char> = Vec::new();
                    let mut k: usize = 0;
                    proof {
                        crate::text::lemma_find(rest@, s@, 0);
                    }
                    while k < end
                        invariant
                            k <= end <= rest.len(),
                            out@ == rest@.take(k as int),
                        decreases end - k,
                    {
                        out.push(rest[k]);
                        k = k + 1;
                        assert(rest@.take(k as int) =~= rest@.take(k - 1).push(rest@[k - 1]));
                    }
                    assert(s@ =~= seq![stop]);
                    Some(out)
                },
            }
        },
    }
}

fn is_listed(names: &Vec<Vec<char>>, d: &Vec<char>) -> (r: bool)
    ensures
        r == names@.map_values(|v: Vec<char>| v@).contains(d@),
{
    let ghost view = names@.map_values(|v: Vec<char>| v@);
    let mut i: usize = 0;
    while i < names.len()
        invariant
            i <= names.len(),
            view == names@.map_values(|v: Vec<char>| v@),
            forall|j: int| 0 <= j < i ==> view[j] != d@,
        decreases names.len() - i,
    {
        if chars_eq(&names[i], d) {
            assert(view[i as int] == d@);
            return true;
        }
        i = i + 1;
    }
    false
}

fn line_culprit_exec(line: &Vec<char>, enabled: &Vec<Vec<char>>) -> (r: Option<Vec<char>>)
    ensures
        r matches Some(v) ==> line_culprit(line@, enabled@.map_values(|v: Vec<char>| v@)) == Some(
            v@,
        ),
        r is None ==> line_culprit(line@, enabled@.map_values(|v: Vec<char>| v@)) is None,
{
    proof {
        reveal_strlit("in /etc/nginx/sites-enabled/");
        reveal_strlit("cannot load certificate");
    }
    if contains_exec(line, &to_chars("in /etc/nginx/sites-enabled/")) {
        segment_after_exec(line, "/etc/nginx/sites-enabled/", ':')
    } else if contains_exec(line, &to_chars("cannot load certificate")) {
        match segment_after_exec(line, "/etc/letsencrypt/live/", '/') {
            Some(d) => {
                if is_listed(enabled, &d) {
                    Some(d)
                } else {
                    None
                }
            },
            None => None,
        }
    } else {
        None
    }
}

/// The sites blamed by a validator run, given whether it passed, its diagnostic output
/// and the names of the enabled store's entries. Each site appears once, in the order in
/// which the output first blames it.
pub fn detect_broken_configs(passed: bool, diagnostics: &str, enabled: &Vec<String>) -> (r: Vec<
    String,
>)
    ensures
        names_view(r@) == broken_configs(passed, diagnostics@, names_view(enabled@)),
{
    let mut result: Vec<String> = Vec::new();
    if passed {
        assert(names_view(result@) =~= seq![]);
        return result;
    }
    let mut names: Vec<Vec<char>> = Vec::new();
    let mut e: usize = 0;
    while e < enabled.len()
        invariant
            e <= enabled.len(),
            names.len() == e,
            forall|j: int| 0 <= j < e ==> (#[trigger] names@[j])@ == enabled@[j]@,
        decreases enabled.len() - e,
    {
        names.push(to_chars(enabled[e].as_str()));
        e = e + 1;
    }
    assert(names@.map_values(|v: Vec<char>| v@) =~= names_view(enabled@));
    let ghost en = names_view(enabled@);
    let text = to_chars(diagnostics);
    let mut found: Vec<Vec<char>> = Vec::new();
    let mut cur: Vec<char> = Vec::new();
    let mut i: usize = 0;
    assert(text@.take(0) =~= Seq::<char>::empty());
    while i < text.len()
        invariant
            i <= text.len(),
            names@.map_values(|v: Vec<char>| v@) == en,
            lines_acc(text@.take(i as int)).1 == cur@,
            found@.map_values(|v: Vec<char>| v@) == culprits(lines_acc(text@.take(i as int)).0, en),
        decreases text.len() - i,
    {
        let ghost before = text@.take(i as int);
        assert(text@.take(i + 1).drop_last() =~= before);
        if text[i] == '\n' {
            let c = line_culprit_exec(&cur, &names);
            match c {
                Some(d) => {
                    if !is_listed(&found, &d) {
                        found.push(d);
                    }
                },
                None => {},
            }
            cur = Vec::new();
            assert(lines_acc(text@.take(i + 1)).0.drop_last() =~= lines_acc(before).0);
        } else {
            cur.push(text[i]);
        }
        i = i + 1;
        assert(found@.map_values(|v: Vec<char>| v@) =~= culprits(lines_acc(text@.take(i as int)).0, en));
    }
    assert(text@.take(text@.len() as int) =~= text@);
    if cur.len() > 0 {
        let c = line_culprit_exec(&cur, &names);
        match c {
            Some(d) => {
                if !is_listed(&found, &d) {
                    found.push(d);
                }
            },
            None => {},
        }
        assert(split_lines(text@).drop_last() =~= lines_acc(text@).0);
    }
    let ghost all = found@.map_values(|v: Vec<char>| v@);
    assert(all =~= culprits(split_lines(text@), en));
    let mut k: usize = 0;
    while k < found.len()
        invariant
            k <= found.len(),
            all == found@.map_values(|v: Vec<char>| v@),
            names_view(result@) =~= all.take(k as int),
        decreases found.len() - k,
    {
        result.push(to_string(&found[k]));
        k = k + 1;
        assert(all.take(k as int) =~= all.take(k - 1).push(all[k - 1]));
    }
    assert(all.take(all.len() as int) =~= all);
    result
}

/// The broken sites that a cleanup removes: all of them, or none on a dry run.
pub fn clean_broken_configs(broken: &Vec<String>, dry_run: bool) -> (r: Vec<String>)
    ensures
        dry_run ==> r@.len() == 0,
        !dry_run ==> names_view(r@) == names_view(broken@),
{
    let mut r: Vec<String> = Vec::new();
    if dry_run {
        return r;
    }
    let mut i: usize = 0;
    while i < broken.len()
        invariant
            i <= broken.len(),
            r@.len() == i,
            forall|j: int| 0 <= j < i ==> (#[trigger] r@[j])@ == broken@[j]@,
        decreases broken.len() - i,
    {
        r.push(broken[i].clone());
        i = i + 1;
    }
    assert(names_view(r@) =~= names_view(broken@));
    r
}

} // verus!
