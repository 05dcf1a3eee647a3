//! Edits of the main server configuration, line by line, and reading the server's
//! version banner.
use vstd::prelude::*;

use crate::text::{contains, contains_exec, find, find_from, push_all, to_chars, to_string};

verus! {

/// Unicode white space, the characters that `char::is_whitespace` accepts.
pub open spec fn is_ws(c: char) -> bool {
    ('\u{9}' <= c && c <= '\u{d}') || c == ' ' || c == '\u{85}' || c == '\u{a0}' || c == '\u{1680}'
        || ('\u{2000}' <= c && c <= '\u{200a}') || c == '\u{2028}' || c == '\u{2029}' || c
        == '\u{202f}' || c == '\u{205f}' || c == '\u{3000}'
}

/// Whether `c` is white space.
pub fn is_ws_exec(c: char) -> (r: bool)
    ensures
        r == is_ws(c),
{
    ('\u{9}' <= c && c <= '\u{d}') || c == ' ' || c == '\u{85}' || c == '\u{a0}' || c == '\u{1680}'
        || ('\u{2000}' <= c && c <= '\u{200a}') || c == '\u{2028}' || c == '\u{2029}' || c
        == '\u{202f}' || c == '\u{205f}' || c == '\u{3000}'
}

/// `s` without its leading white space.
pub open spec fn trim_start(s: Seq<char>) -> Seq<char>
    decreases s.len(),
{
    if s.len() > 0 && is_ws(s[0]) {
        trim_start(s.skip(1))
    } else {
        s
    }
}

/// `s` without its trailing white space.
pub open spec fn trim_end(s: Seq<char>) -> Seq<char>
    decreases s.len(),
{
    if s.len() > 0 && is_ws(s.last()) {
        trim_end(s.drop_last())
    } else {
        s
    }
}

/// `s` without white space at either end.
pub open spec fn trim(s: Seq<char>) -> Seq<char> {
    trim_end(trim_start(s))
}

/// A line without the `\r` of a `\r\n` ending.
pub open spec fn chop_cr(line: Seq<char>) -> Seq<char> {
    if line.len() > 0 && line.last() == '\r' {
        line.drop_last()
    } else {
        line
    }
}

/// The finished lines of `s` and the unfinished last one. A line ends at `\n`, and a
/// `\r` right before that `\n` belongs to the ending.
pub open spec fn lines_acc(s: Seq<char>) -> (Seq<Seq<char>>, Seq<char>)
    decreases s.len(),
{
    if s.len() == 0 {
        (seq![], seq![])
    } else {
        let (done, cur) = lines_acc(s.drop_last());
        if s.last() == '\n' {
            (done.push(chop_cr(cur)), seq![])
        } else {
            (done, cur.push(s.last()))
        }
    }
}

/// The lines of `s`; a final line ending adds no empty line.
pub open spec fn lines(s: Seq<char>) -> Seq<Seq<char>> {
    let (done, cur) = lines_acc(s);
    if cur.len() > 0 {
        done.push(cur)
    } else {
        done
    }
}

/// Index of the first non-white-space character of `s` at or after `i`, or its length.
fn skip_ws(s: &Vec<char>, i: usize) -> (r: usize)
    requires
        i <= s.len(),
    ensures
        i <= r <= s.len(),
        trim_start(s@.skip(i as int)) == s@.skip(r as int),
{
    let mut k = i;
    while k < s.len() && is_ws_exec(s[k])
        invariant
            i <= k <= s.len(),
            trim_start(s@.skip(i as int)) == trim_start(s@.skip(k as int)),
        decreases s.len() - k,
    {
        assert(s@.skip(k as int).skip(1) =~= s@.skip(k + 1));
        k = k + 1;
    }
    k
}

/// Splits text into its lines.
pub fn split_lines(s: &Vec<char>) -> (r: Vec<Vec<char>>)
    ensures
        r@.map_values(|v: Vec<char>| v@) == lines(s@),
{
    let mut done: Vec<Vec<char>> = Vec::new();
    let mut cur: Vec<char> = Vec::new();
    let mut i: usize = 0;
    assert(s@.take(0) =~= Seq::<char>::empty());
    assert(done@.map_values(|v: Vec<char>| v@) =~= Seq::<Seq<char>>::empty());
    while i < s.len()
        invariant
            i <= s.len(),
            done@.map_values(|v: Vec<char>| v@) == lines_acc(s@.take(i as int)).0,
            cur@ == lines_acc(s@.take(i as int)).1,
        decreases s.len() - i,
    {
        assert(s@.take(i + 1).drop_last() =~= s@.take(i as int));
        if s[i] == '\n' {
            if cur.len() > 0 && cur[cur.len() - 1] == '\r' {
                cur.pop();
            }
            let ghost before = done@.map_values(|v: Vec<char>| v@);
            done.push(cur);
            cur = Vec::new();
            assert(done@.map_values(|v: Vec<char>| v@) =~= before.push(
                lines_acc(s@.take(i + 1)).0.last(),
            ));
        } else {
            cur.push(s[i]);
        }
        i = i + 1;
    }
    assert(s@.take(s@.len() as int) =~= s@);
    if cur.len() > 0 {
        let ghost before = done@.map_values(|v: Vec<char>| v@);
        done.push(cur);
        assert(done@.map_values(|v: Vec<char>| v@) =~= before.push(lines_acc(s@).1));
    }
    done
}

/// The directive that loads the headers module, with its line ending.
pub open spec fn load_directive() -> Seq<char> {
    "load_module modules/ngx_http_headers_more_filter_module.so;\n"@
}

/// A line that holds a directive: neither blank nor a comment.
pub open spec fn is_directive_line(line: Seq<char>) -> bool {
    trim_start(line).len() > 0 && trim_start(line)[0] != '#'
}

/// `lines` rejoined, each with a `\n`, with the load directive put before the first
/// directive line; and whether it has been put.
pub open spec fn load_acc(lines: Seq<Seq<char>>) -> (Seq<char>, bool)
    decreases lines.len(),
{
    if lines.len() == 0 {
        (seq![], false)
    } else {
        let (out, added) = load_acc(lines.drop_last());
        let line = lines.last();
        let here = !added && is_directive_line(line);
        ((out + (if here {
            load_directive()
        } else {
            seq![]
        }) + line).push('\n'), added || here)
    }
}

/// The main configuration with the headers module loaded: unchanged (`None`) when it
/// already names the module; otherwise the directive goes before the first directive
/// line, or first when there is none.
pub open spec fn load_module_patch(content: Seq<char>) -> Option<Seq<char>> {
    if contains(content, "ngx_http_headers_more_filter_module.so"@) {
        None
    } else {
        let (out, added) = load_acc(lines(content));
        if added {
            Some(out)
        } else {
            Some(load_directive() + out)
        }
    }
}

fn is_directive_line_exec(line: &Vec<char>) -> (r: bool)
    ensures
        r == is_directive_line(line@),
{
    let k = skip_ws(line, 0);
    assert(line@.skip(0) =~= line@);
    k < line.len() && line[k] != '#'
}

/// Patches the main configuration so that it loads the headers module.
pub fn configure_module_load(content: &str) -> (r: Option<String>)
    ensures
        r matches Some(s) ==> load_module_patch(content@) == Some(s@),
        r is None ==> load_module_patch(content@) is None,
{
    let c = to_chars(content);
    if contains_exec(&c, &to_chars("ngx_http_headers_more_filter_module.so")) {
        return None;
    }
    let ls = split_lines(&c);
    let ghost lv = ls@.map_values(|v: Vec<char>| v@);
    let directive = to_chars("load_module modules/ngx_http_headers_more_filter_module.so;\n");
    let mut out: Vec<char> = Vec::new();
    let mut added = false;
    let mut i: usize = 0;
    assert(lv.take(0) =~= Seq::<Seq<char>>::empty());
    while i < ls.len()
        invariant
            i <= ls.len(),
            lv == ls@.map_values(|v: Vec<char>| v@),
            directive@ == load_directive(),
            (out@, added) == load_acc(lv.take(i as int)),
        decreases ls.len() - i,
    {
        assert(lv.take(i + 1).drop_last() =~= lv.take(i as int));
        let here = !added && is_directive_line_exec(&ls[i]);
        if here {
            push_all(&mut out, &directive);
            added = true;
        }
        push_all(&mut out, &ls[i]);
        out.push('\n');
        i = i + 1;
    }
    assert(lv.take(lv.len() as int) =~= lv);
    if added {
        Some(to_string(&out))
    } else {
        let mut v = directive;
        push_all(&mut v, &out);
        Some(to_string(&v))
    }
}

/// The directive that includes every enabled site, with its indentation and ending.
pub open spec fn include_line() -> Seq<char> {
    "    include /etc/nginx/sites-enabled/*;\n"@
}

/// `lines` rejoined, each with a `\n`, with the include directive after every line that
/// opens the `http` block.
pub open spec fn include_acc(lines: Seq<Seq<char>>) -> Seq<char>
    decreases lines.len(),
{
    if lines.len() == 0 {
        seq![]
    } else {
        let line = lines.last();
        (include_acc(lines.drop_last()) + line).push('\n') + (if trim(line) == "http {"@ {
            include_line()
        } else {
            seq![]
        })
    }
}

/// The main configuration with the enabled store included: unchanged (`None`) when it
/// already mentions the enabled store.
pub open spec fn include_patch(content: Seq<char>) -> Option<Seq<char>> {
    if contains(content, "sites-enabled"@) {
        None
    } else {
        Some(include_acc(lines(content)))
    }
}

fn opens_http_block(line: &Vec<char>) -> (r: bool)
    ensures
        r == (trim(line@) == "http {"@),
{
    let a = skip_ws(line, 0);
    assert(line@.skip(0) =~= line@);
    let ghost t = line@.skip(a as int);
    let mut b = line.len();
    assert(t.take(t.len() as int) =~= t);
    while b > a && is_ws_exec(line[b - 1])
        invariant
            a <= b <= line.len(),
            t == line@.skip(a as int),
            trim_end(t) == trim_end(line@.subrange(a as int, b as int)),
        decreases b,
    {
        assert(line@.subrange(a as int, b as int).drop_last() =~= line@.subrange(a as int, b - 1));
        b = b - 1;
    }
    proof {
        reveal_strlit("http {");
    }
    let ghost trimmed = line@.subrange(a as int, b as int);
    assert(trim_end(trimmed) == trimmed);
    if b - a != 6 {
        return false;
    }
    let ok = line[a] == 'h' && line[a + 1] == 't' && line[a + 2] == 't' && line[a + 3] == 'p'
        && line[a + 4] == ' ' && line[a + 5] == '{';
    if ok {
        assert(trimmed =~= "http {"@);
    } else {
        assert(trimmed != "http {"@) by {
            if trimmed == "http {"@ {
                assert(trimmed[0] == 'h' && trimmed[1] == 't' && trimmed[2] == 't' && trimmed[3]
                    == 'p' && trimmed[4] == ' ' && trimmed[5] == '{');
            }
        }
    }
    ok
}

/// Patches the main configuration so that its `http` block includes the enabled store.
pub fn configure_sites_include(content: &str) -> (r: Option<String>)
    ensures
        r matches Some(s) ==> include_patch(content@) == Some(s@),
        r is None ==> include_patch(content@) is None,
{
    let c = to_chars(content);
    if contains_exec(&c, &to_chars("sites-enabled")) {
        return None;
    }
    let ls = split_lines(&c);
    let ghost lv = ls@.map_values(|v: Vec<char>| v@);
    let sites_line = to_chars("    include /etc/nginx/sites-enabled/*;\n");
    let mut out: Vec<char> = Vec::new();
    let mut i: usize = 0;
    assert(lv.take(0) =~= Seq::<Seq<char>>::empty());
    while i < ls.len()
        invariant
            i <= ls.len(),
            lv == ls@.map_values(|v: Vec<char>| v@),
            sites_line@ == include_line(),
            out@ == include_acc(lv.take(i as int)),
        decreases ls.len() - i,
    {
        assert(lv.take(i + 1).drop_last() =~= lv.take(i as int));
        push_all(&mut out, &ls[i]);
        out.push('\n');
        if opens_http_block(&ls[i]) {
            push_all(&mut out, &sites_line);
        } else {
            assert(out@ =~= out@ + Seq::<char>::empty());
        }
        i = i + 1;
    }
    assert(lv.take(lv.len() as int) =~= lv);
    Some(to_string(&out))
}

/// The text between the first `/` of `s` and the next `/` (or the end).
pub open spec fn version_segment(s: Seq<char>) -> Option<Seq<char>> {
    match find(s, seq!['/'], 0) {
        None => None,
        Some(i) => {
            let rest = s.skip(i + 1);
            Some(
                match find(rest, seq!['/'], 0) {
                    Some(j) => rest.take(j),
                    None => rest,
                },
            )
        },
    }
}

/// The index of the first white space of `t` at or after `i`, or its length.
pub open spec fn ws_index(t: Seq<char>, i: int) -> int
    decreases t.len() - i,
{
    if i < 0 || i >= t.len() {
        t.len() as int
    } else if is_ws(t[i]) {
        i
    } else {
        ws_index(t, i + 1)
    }
}

/// The first white-space-separated word of `s`.
pub open spec fn first_word(s: Seq<char>) -> Option<Seq<char>> {
    let t = trim_start(s);
    if t.len() == 0 {
        None
    } else {
        Some(t.take(ws_index(t, 0)))
    }
}

/// The version in a banner such as `nginx version: nginx/1.28.0`: the first word after
/// the first `/`, up to the next `/`.
pub open spec fn banner_version(banner: Seq<char>) -> Option<Seq<char>> {
    match version_segment(banner) {
        None => None,
        Some(seg) => first_word(seg),
    }
}

fn copy_range(s: &Vec<char>, from: usize, to: usize) -> (r: Vec<char>)
    requires
        from <= to <= s.len(),
    ensures
        r@ == s@.subrange(from as int, to as int),
{
    let mut r: Vec<char> = Vec::new();
    let mut i = from;
    while i < to
        invariant
            from <= i <= to <= s.len(),
            r@ == s@.subrange(from as int, i as int),
        decreases to - i,
    {
        r.push(s[i]);
        i = i + 1;
        assert(s@.subrange(from as int, i as int) =~= s@.subrange(from as int, i - 1).push(
            s@[i - 1],
        ));
    }
    r
}

/// Reads the version from the server's version banner.
pub fn parse_nginx_version(banner: &str) -> (r: Result<String, String>)
    ensures
        r matches Ok(v) ==> banner_version(banner@) == Some(v@),
        r is Err ==> banner_version(banner@) is None,
        r matches Err(e) ==> e@ == "Failed to parse nginx version"@,
{
    let b = to_chars(banner);
    let mut slash: Vec<char> = Vec::new();
    slash.push('/');
    assert(slash@ =~= seq!['/']);
    let first = match find_from(&b, &slash, 0) {
        None => {
            return Err("Failed to parse nginx version".to_owned());
        },
        Some(i) => i,
    };
    proof {
        crate::text::lemma_find(b@, slash@, 0);
    }
    assert(crate::text::occurs_at(b@, slash@, first as int));
    assert(first < b.len());
    assert(b.len() <= usize::MAX);
    let after: usize = first + 1;
    let rest = copy_range(&b, after, b.len());
    assert(rest@ =~= b@.skip(first + 1));
    let seg = match find_from(&rest, &slash, 0) {
        Some(j) => {
            proof {
                crate::text::lemma_find(rest@, slash@, 0);
            }
            copy_range(&rest, 0, j)
        },
        None => copy_range(&rest, 0, rest.len()),
    };
    assert(seg@ == version_segment(b@)->0) by {
        if find(rest@, seq!['/'], 0) is None {
            assert(rest@.subrange(0, rest@.len() as int) =~= rest@);
        }
    }
    let start = skip_ws(&seg, 0);
    assert(seg@.skip(0) =~= seg@);
    if start == seg.len() {
        return Err("Failed to parse nginx version".to_owned());
    }
    let ghost t = seg@.skip(start as int);
    let mut end = start;
    while end < seg.len() && !is_ws_exec(seg[end])
        invariant
            start <= end <= seg.len(),
            t == seg@.skip(start as int),
            ws_index(t, 0) == ws_index(t, end - start),
        decreases seg.len() - end,
    {
        end = end + 1;
    }
    let word = copy_range(&seg, start, end);
    assert(word@ =~= t.take(ws_index(t, 0)));
    Ok(to_string(&word))
}

} // verus!
