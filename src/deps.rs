//! The store entries that a materialized variable set depends on.

use vstd::prelude::*;

use crate::environment::{in_store, is_store_path, store_root, NIX_STORE};
use crate::text::{
    after, before, chars_of, find_char, lemma_split_at, slice_chars, str_eq, string_of,
};

verus! {

/// The top-level store entry that a path names: the store root and the name
/// segment after it, where a separator follows that segment.
pub open spec fn store_entry(e: Seq<char>) -> Option<Seq<char>> {
    if in_store(e) {
        let rest = e.subrange(11, e.len() as int);
        match after(rest, '/') {
            Some(_) => Some(store_root() + before(rest, '/')),
            None => None,
        }
    } else {
        None
    }
}

/// `acc` with the store entry of `e`, if it names one.
pub open spec fn add_entry(acc: Set<Seq<char>>, e: Seq<char>) -> Set<Seq<char>> {
    match store_entry(e) {
        Some(p) => acc.insert(p),
        None => acc,
    }
}

/// `acc` with the store entries of the rest `cur` of the current part and of
/// the `:`-separated parts of `s`.
pub open spec fn seg_scan(acc: Set<Seq<char>>, cur: Seq<char>, s: Seq<char>) -> Set<Seq<char>>
    decreases s.len(),
{
    if s.len() == 0 {
        add_entry(acc, cur)
    } else if s[0] == ':' {
        seg_scan(add_entry(acc, cur), seq![], s.drop_first())
    } else {
        seg_scan(acc, cur.push(s[0]), s.drop_first())
    }
}

/// The store entries named in a `:`-separated list of paths.
pub open spec fn store_entries_in(v: Seq<char>) -> Set<Seq<char>> {
    seg_scan(Set::empty(), seq![], v)
}

/// The store entries that variable `name` of `vars` names.
pub open spec fn entries_of_var(vars: Map<Seq<char>, Seq<char>>, name: Seq<char>) -> Set<
    Seq<char>,
> {
    if vars.dom().contains(name) {
        store_entries_in(vars[name])
    } else {
        Set::empty()
    }
}

/// The dependency locations of a variable set: the store entries named in
/// `PATH` and in the library, package-config and build-prefix search paths.
pub open spec fn dependency_locations(vars: Map<Seq<char>, Seq<char>>) -> Set<Seq<char>> {
    entries_of_var(vars, "PATH"@) + entries_of_var(vars, "LD_LIBRARY_PATH"@) + entries_of_var(
        vars,
        "PKG_CONFIG_PATH"@,
    ) + entries_of_var(vars, "CMAKE_PREFIX_PATH"@)
}

/// The strings of `v`, as a set of character sequences.
pub open spec fn view_set(v: Seq<String>) -> Set<Seq<char>> {
    Set::new(|p: Seq<char>| exists|i: int| 0 <= i < v.len() && v[i]@ == p)
}

/// No string occurs twice in `v`.
pub open spec fn distinct(v: Seq<String>) -> bool {
    forall|i: int, j: int| 0 <= i < v.len() && 0 <= j < v.len() && i != j ==> v[i]@ != v[j]@
}

proof fn lemma_seg_scan_union(acc: Set<Seq<char>>, cur: Seq<char>, s: Seq<char>)
    ensures
        seg_scan(acc, cur, s) == acc + seg_scan(Set::empty(), cur, s),
    decreases s.len(),
{
    if s.len() == 0 {
        assert(add_entry(acc, cur) =~= acc + add_entry(Set::empty(), cur));
    } else if s[0] == ':' {
        lemma_seg_scan_union(add_entry(acc, cur), seq![], s.drop_first());
        lemma_seg_scan_union(add_entry(Set::empty(), cur), seq![], s.drop_first());
        assert(add_entry(acc, cur) =~= acc + add_entry(Set::empty(), cur));
        assert(seg_scan(acc, cur, s) =~= acc + seg_scan(Set::empty(), cur, s));
    } else {
        lemma_seg_scan_union(acc, cur.push(s[0]), s.drop_first());
    }
}

/// Adds `p` to `out` unless it is there.
fn insert_distinct(out: &mut Vec<String>, p: String)
    requires
        distinct(old(out)@),
    ensures
        distinct(final(out)@),
        view_set(final(out)@) == view_set(old(out)@).insert(p@),
{
    let mut i: usize = 0;
    while i < out.len()
        invariant
            i <= out@.len(),
            out@ == old(out)@,
            distinct(out@),
            forall|j: int| 0 <= j < i ==> out@[j]@ != p@,
        decreases out.len() - i,
    {
        if str_eq(out[i].as_str(), p.as_str()) {
            assert(view_set(out@) =~= view_set(out@).insert(p@));
            return;
        }
        i = i + 1;
    }
    let ghost before_push = out@;
    out.push(p);
    assert forall|q: Seq<char>| view_set(out@).contains(q) <==> view_set(before_push).insert(
        p@,
    ).contains(q) by {
        if view_set(out@).contains(q) {
            let k = choose|k: int| 0 <= k < out@.len() && out@[k]@ == q;
            if k < before_push.len() {
                assert(before_push[k]@ == q);
            }
        }
        if view_set(before_push).contains(q) {
            let k = choose|k: int| 0 <= k < before_push.len() && before_push[k]@ == q;
            assert(out@[k]@ == q);
        }
        if q == p@ {
            assert(out@[out@.len() - 1]@ == q);
        }
    }
    assert(view_set(out@) =~= view_set(before_push).insert(p@));
}

/// Adds the store entry that path `e` names, if any.
fn add_store_entry(out: &mut Vec<String>, e: &Vec<char>)
    requires
        distinct(old(out)@),
    ensures
        distinct(final(out)@),
        view_set(final(out)@) == add_entry(view_set(old(out)@), e@),
{
    let e_str = string_of(e);
    if !is_store_path(e_str.as_str()) {
        return;
    }
    proof {
        reveal_strlit("/nix/store/");
    }
    let rest = slice_chars(e, 11, e.len());
    let slash = find_char(&rest, 0, '/');
    proof {
        lemma_split_at(rest@, '/', slash as int);
    }
    if slash == rest.len() {
        return;
    }
    let mut p = chars_of(NIX_STORE);
    let name = slice_chars(&rest, 0, slash);
    let mut k: usize = 0;
    while k < name.len()
        invariant
            k <= name@.len(),
            p@ == store_root() + name@.subrange(0, k as int),
        decreases name.len() - k,
    {
        p.push(name[k]);
        k = k + 1;
        assert(p@ == store_root() + name@.subrange(0, k as int));
    }
    assert(name@.subrange(0, name@.len() as int) == name@);
    insert_distinct(out, string_of(&p));
}

/// Adds the store entries named in the `:`-separated list `value`.
pub(crate) fn add_store_entries(out: &mut Vec<String>, value: &str)
    requires
        distinct(old(out)@),
    ensures
        distinct(final(out)@),
        view_set(final(out)@) == view_set(old(out)@) + store_entries_in(value@),
{
    let cs = chars_of(value);
    let mut cur: Vec<char> = Vec::new();
    let mut i: usize = 0;
    assert(cs@.subrange(0, cs@.len() as int) == cs@);
    assert(cur@ == Seq::<char>::empty());
    proof {
        lemma_seg_scan_union(view_set(out@), seq![], value@);
    }
    while i < cs.len()
        invariant
            i <= cs@.len(),
            cs@ == value@,
            distinct(out@),
            seg_scan(view_set(out@), cur@, cs@.subrange(i as int, cs@.len() as int)) == view_set(
                old(out)@,
            ) + store_entries_in(value@),
        decreases cs.len() - i,
    {
        let ghost t = cs@.subrange(i as int, cs@.len() as int);
        assert(t[0] == cs@[i as int]);
        assert(t.drop_first() == cs@.subrange(i + 1, cs@.len() as int));
        if cs[i] == ':' {
            add_store_entry(out, &cur);
            cur = Vec::new();
            assert(cur@ == Seq::<char>::empty());
        } else {
            cur.push(cs[i]);
        }
        i = i + 1;
    }
    add_store_entry(out, &cur);
}


} // verus!
