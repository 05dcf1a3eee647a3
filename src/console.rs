//! Shaping console messages: a leading `>` marker is set apart from the text after it.
use vstd::prelude::*;

use crate::nginx_conf::{is_ws_exec, trim_start};
use crate::text::{to_chars, to_string};

verus! {

/// For a message whose first non-blank character is `>`, the text before that `>` and
/// the text after it.
pub open spec fn arrow_parts(message: Seq<char>) -> Option<(Seq<char>, Seq<char>)> {
    let t = trim_start(message);
    if t.len() > 0 && t[0] == '>' {
        let i = message.len() - t.len();
        Some((message.take(i), message.skip(i + 1)))
    } else {
        None
    }
}

/// Splits a message at its leading `>` marker, if it has one.
pub fn split_arrow(message: &str) -> (r: Option<(String, String)>)
    ensures
        r matches Some((a, b)) ==> arrow_parts(message@) == Some((a@, b@)),
        r is None ==> arrow_parts(message@) is None,
{
    let m = to_chars(message);
    let mut i: usize = 0;
    assert(m@.skip(0) =~= m@);
    while i < m.len() && is_ws_exec(m[i])
        invariant
            i <= m.len(),
            m@ == message@,
            trim_start(m@) == trim_start(m@.skip(i as int)),
        decreases m.len() - i,
    {
        assert(m@.skip(i as int).skip(1) =~= m@.skip(i + 1));
        i = i + 1;
    }
    if i == m.len() || m[i] != '>' {
        return None;
    }
    let mut before: Vec<char> = Vec::new();
    let mut k: usize = 0;
    while k < i
        invariant
            k <= i < m.len(),
            before@ == m@.take(k as int),
        decreases i - k,
    {
        before.push(m[k]);
        k = k + 1;
        assert(m@.take(k as int) =~= m@.take(k - 1).push(m@[k - 1]));
    }
    let mut after: Vec<char> = Vec::new();
    let mut j: usize = i + 1;
    while j < m.len()
        invariant
            i < j <= m.len(),
            after@ == m@.subrange(i + 1, j as int),
        decreases m.len() - j,
    {
        after.push(m[j]);
        j = j + 1;
        assert(m@.subrange(i + 1, j as int) =~= m@.subrange(i + 1, j - 1).push(m@[j - 1]));
    }
    assert(after@ =~= m@.skip(i + 1));
    Some((to_string(&before), to_string(&after)))
}

} // verus!
