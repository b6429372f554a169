//! Reading the variable set that a materialization tool prints.

use vstd::prelude::*;

use crate::text::{
    after, before, chars_of, find_char, lemma_split_at, slice_chars, starts_with, string_of,
};
use crate::vars::EnvVars;

verus! {

/// A space or a tab.
pub open spec fn is_blank(c: char) -> bool {
    c == ' ' || c == '\t'
}

/// The line without a final carriage return.
pub open spec fn strip_cr(l: Seq<char>) -> Seq<char> {
    if l.len() > 0 && l.last() == '\r' {
        l.drop_last()
    } else {
        l
    }
}

/// Whether a line holds nothing but blanks, or its first other character opens a comment.
pub open spec fn is_skipped(l: Seq<char>) -> bool
    decreases l.len(),
{
    if l.len() == 0 {
        true
    } else if is_blank(l[0]) {
        is_skipped(l.drop_first())
    } else {
        l[0] == '#'
    }
}

/// The line without a leading `export ` or `declare -x `.
pub open spec fn strip_export(l: Seq<char>) -> Seq<char> {
    if "export "@.is_prefix_of(l) {
        l.subrange(7, l.len() as int)
    } else if "declare -x "@.is_prefix_of(l) {
        l.subrange(11, l.len() as int)
    } else {
        l
    }
}

/// The value without one layer of matching double or single quotes.
pub open spec fn unquote(v: Seq<char>) -> Seq<char> {
    if v.len() >= 2 && (v[0] == '"' || v[0] == '\'') && v.last() == v[0] {
        v.subrange(1, v.len() - 1)
    } else {
        v
    }
}

/// The (name, value) pair that one line sets, if any: the first `=` splits
/// the name from the value.
pub open spec fn parse_line(line: Seq<char>) -> Option<(Seq<char>, Seq<char>)> {
    let l = strip_cr(line);
    if is_skipped(l) {
        None
    } else {
        let b = strip_export(l);
        match after(b, '=') {
            None => None,
            Some(v) => Some((before(b, '='), unquote(v))),
        }
    }
}

/// `m` after the line `l`.
pub open spec fn apply_line(m: Map<Seq<char>, Seq<char>>, l: Seq<char>) -> Map<
    Seq<char>,
    Seq<char>,
> {
    match parse_line(l) {
        Some(kv) => m.insert(kv.0, kv.1),
        None => m,
    }
}

/// `m` after the rest of the current line `cur` and the lines of `s`.
pub open spec fn kv_scan(m: Map<Seq<char>, Seq<char>>, cur: Seq<char>, s: Seq<char>) -> Map<
    Seq<char>,
    Seq<char>,
>
    decreases s.len(),
{
    if s.len() == 0 {
        apply_line(m, cur)
    } else if s[0] == '\n' {
        kv_scan(apply_line(m, cur), seq![], s.drop_first())
    } else {
        kv_scan(m, cur.push(s[0]), s.drop_first())
    }
}

/// The variables that `KEY=VALUE` lines set, line by line, later lines winning.
pub open spec fn parse_kv(s: Seq<char>) -> Map<Seq<char>, Seq<char>> {
    kv_scan(Map::empty(), seq![], s)
}

fn skipped(l: &Vec<char>) -> (r: bool)
    ensures
        r == is_skipped(l@),
{
    let mut i: usize = 0;
    assert(l@.subrange(0, l@.len() as int) == l@);
    while i < l.len()
        invariant
            i <= l@.len(),
            is_skipped(l@) == is_skipped(l@.subrange(i as int, l@.len() as int)),
        decreases l.len() - i,
    {
        let ghost t = l@.subrange(i as int, l@.len() as int);
        assert(t[0] == l@[i as int]);
        assert(t.drop_first() == l@.subrange(i + 1, l@.len() as int));
        if l[i] == ' ' || l[i] == '\t' {
            i = i + 1;
        } else {
            return l[i] == '#';
        }
    }
    true
}

fn strip_export_chars(l: Vec<char>) -> (r: Vec<char>)
    ensures
        r@ == strip_export(l@),
{
    proof {
        reveal_strlit("export ");
        reveal_strlit("declare -x ");
    }
    let export = chars_of("export ");
    let declare = chars_of("declare -x ");
    if starts_with(&l, &export) {
        slice_chars(&l, 7, l.len())
    } else if starts_with(&l, &declare) {
        slice_chars(&l, 11, l.len())
    } else {
        l
    }
}

fn unquote_chars(v: Vec<char>) -> (r: Vec<char>)
    ensures
        r@ == unquote(v@),
{
    if v.len() >= 2 && (v[0] == '"' || v[0] == '\'') && v[v.len() - 1] == v[0] {
        slice_chars(&v, 1, v.len() - 1)
    } else {
        v
    }
}

/// The (name, value) pair that one line sets, if any.
pub fn parse_env_line(line: &Vec<char>) -> (r: Option<(String, String)>)
    ensures
        match parse_line(line@) {
            None => r is None,
            Some(kv) => r matches Some(p) && p.0@ == kv.0 && p.1@ == kv.1,
        },
{
    let mut l = slice_chars(line, 0, line.len());
    if l.len() > 0 && l[l.len() - 1] == '\r' {
        l.pop();
    }
    assert(l@ == strip_cr(line@));
    if skipped(&l) {
        return None;
    }
    let b = strip_export_chars(l);
    let eq = find_char(&b, 0, '=');
    proof {
        lemma_split_at(b@, '=', eq as int);
    }
    if eq == b.len() {
        return None;
    }
    let key = slice_chars(&b, 0, eq);
    let value = unquote_chars(slice_chars(&b, eq + 1, b.len()));
    Some((string_of(&key), string_of(&value)))
}

fn apply_env_line(vars: &mut EnvVars, line: &Vec<char>)
    requires
        old(vars).wf(),
    ensures
        final(vars).wf(),
        final(vars)@ == apply_line(old(vars)@, line@),
{
    match parse_env_line(line) {
        Some(kv) => vars.insert(kv.0, kv.1),
        None => {},
    }
}

/// Reads `KEY=VALUE` lines. Blank and comment lines are skipped, as are lines
/// without `=`; a leading `export ` or `declare -x ` is dropped, and so is one
/// layer of matching quotes round the value.
pub fn parse_key_value_lines(output: &str) -> (r: EnvVars)
    ensures
        r.wf(),
        r@ == parse_kv(output@),
{
    let cs = chars_of(output);
    let mut vars = EnvVars::new();
    let mut cur: Vec<char> = Vec::new();
    let mut i: usize = 0;
    assert(cs@.subrange(0, cs@.len() as int) == cs@);
    assert(cur@ == Seq::<char>::empty());
    while i < cs.len()
        invariant
            i <= cs@.len(),
            cs@ == output@,
            vars.wf(),
            kv_scan(vars@, cur@, cs@.subrange(i as int, cs@.len() as int)) == parse_kv(output@),
        decreases cs.len() - i,
    {
        let ghost t = cs@.subrange(i as int, cs@.len() as int);
        assert(t[0] == cs@[i as int]);
        assert(t.drop_first() == cs@.subrange(i + 1, cs@.len() as int));
        if cs[i] == '\n' {
            apply_env_line(&mut vars, &cur);
            cur = Vec::new();
            assert(cur@ == Seq::<char>::empty());
        } else {
            cur.push(cs[i]);
        }
        i = i + 1;
    }
    apply_env_line(&mut vars, &cur);
    vars
}

} // verus!
