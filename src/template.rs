use vstd::prelude::*;
use crate::token::same_text;

verus! {

/// A character that may stand in a placeholder's name.
pub open spec fn is_name_char(c: char) -> bool {
    ('a' <= c && c <= 'z') || ('A' <= c && c <= 'Z') || ('0' <= c && c <= '9') || c == '_'
}

/// The end of the run of name characters that starts at `i`.
pub open spec fn run_end(s: Seq<char>, i: int) -> int
    decreases s.len() - i,
{
    if 0 <= i < s.len() && is_name_char(s[i]) {
        run_end(s, i + 1)
    } else {
        i
    }
}

/// Whether a placeholder `{name}` starts at `i`: a brace, one or more name
/// characters, and a closing brace.
pub open spec fn placeholder_at(s: Seq<char>, i: int) -> bool {
    0 <= i < s.len() && s[i] == '{' && run_end(s, i + 1) > i + 1 && run_end(s, i + 1) < s.len()
        && s[run_end(s, i + 1)] == '}'
}

/// The names of the placeholders from `i` on, scanned left to right; a
/// placeholder's text is not scanned again.
pub open spec fn placeholders_from(s: Seq<char>, i: int) -> Seq<Seq<char>>
    decreases s.len() - i,
{
    if i < 0 || i >= s.len() {
        Seq::empty()
    } else if placeholder_at(s, i) {
        seq![s.subrange(i + 1, run_end(s, i + 1))] + placeholders_from(s, run_end(s, i + 1) + 1)
    } else {
        placeholders_from(s, i + 1)
    }
}

/// The names of a template's placeholders, one per occurrence, left to right.
pub open spec fn placeholders(s: Seq<char>) -> Seq<Seq<char>> {
    placeholders_from(s, 0)
}

/// Each name once, in the order of its first occurrence.
pub open spec fn distinct_in_order(s: Seq<Seq<char>>) -> Seq<Seq<char>>
    decreases s.len(),
{
    if s.len() == 0 {
        Seq::empty()
    } else {
        let d = distinct_in_order(s.drop_last());
        if d.contains(s.last()) {
            d
        } else {
            d.push(s.last())
        }
    }
}

/// The names that the generated code substitutes, in the order it does so.
pub open spec fn substitution_names(s: Seq<char>) -> Seq<Seq<char>> {
    distinct_in_order(placeholders(s))
}

/// Whether `x` occurs in `s` before index `b`.
pub open spec fn occurs_before(s: Seq<Seq<char>>, x: Seq<char>, b: int) -> bool {
    exists|a: int| 0 <= a < b && s[a] == x
}

pub open spec fn texts(v: Seq<String>) -> Seq<Seq<char>> {
    v.map_values(|x: String| x@)
}

proof fn lemma_run_end_bounds(s: Seq<char>, i: int)
    requires
        0 <= i <= s.len(),
    ensures
        i <= run_end(s, i) <= s.len(),
        forall|k: int| i <= k < run_end(s, i) ==> is_name_char(s[k]),
    decreases s.len() - i,
{
    if i < s.len() && is_name_char(s[i]) {
        lemma_run_end_bounds(s, i + 1);
    }
}

fn scan_run(path: &str, n: usize, i: usize) -> (e: usize)
    requires
        n == path@.len(),
        i <= n,
    ensures
        e == run_end(path@, i as int),
{
    let mut j = i;
    while j < n && is_name_char_exec(path.get_char(j))
        invariant
            n == path@.len(),
            i <= j <= n,
            run_end(path@, i as int) == run_end(path@, j as int),
        decreases n - j,
    {
        j = j + 1;
    }
    j
}

fn is_name_char_exec(c: char) -> (r: bool)
    ensures
        r == is_name_char(c),
{
    ('a' <= c && c <= 'z') || ('A' <= c && c <= 'Z') || ('0' <= c && c <= '9') || c == '_'
}

/// The names of a path template's placeholders, one per occurrence, left to right.
pub fn find_placeholders(path: &str) -> (r: Vec<String>)
    ensures
        texts(r@) == placeholders(path@),
{
    let ghost s = path@;
    let n = path.unicode_len();
    let mut out: Vec<String> = Vec::new();
    let mut i: usize = 0;
    while i < n
        invariant
            s == path@,
            n == s.len(),
            i <= n,
            texts(out@) + placeholders_from(s, i as int) == placeholders(s),
        decreases n - i,
    {
        let mut next = i + 1;
        if path.get_char(i) == '{' {
            let e = scan_run(path, n, i + 1);
            proof {
                lemma_run_end_bounds(s, i as int + 1);
            }
            if e > i + 1 && e < n && path.get_char(e) == '}' {
                let name = path.substring_char(i + 1, e).to_owned();
                let ghost before = texts(out@);
                out.push(name);
                proof {
                    assert(texts(out@) =~= before.push(name@));
                    assert(before + placeholders_from(s, i as int) =~= texts(out@) + placeholders_from(
                        s,
                        e as int + 1,
                    ));
                }
                next = e + 1;
            }
        }
        i = next;
    }
    assert(texts(out@) + placeholders_from(s, i as int) =~= texts(out@));
    out
}

fn contains_text(v: &Vec<String>, x: &str) -> (r: bool)
    ensures
        r == texts(v@).contains(x@),
{
    let mut i: usize = 0;
    while i < v.len()
        invariant
            i <= v.len(),
            forall|k: int| 0 <= k < i ==> v@[k]@ != x@,
        decreases v.len() - i,
    {
        if same_text(v[i].as_str(), x) {
            assert(texts(v@)[i as int] == x@);
            return true;
        }
        i = i + 1;
    }
    proof {
        if texts(v@).contains(x@) {
            let k = choose|k: int| 0 <= k < texts(v@).len() && texts(v@)[k] == x@;
            assert(v@[k]@ == x@);
        }
    }
    false
}

/// The names to substitute in a path template: each placeholder's name once,
/// in the order of its first occurrence.
pub fn substitutions(path: &str) -> (r: Vec<String>)
    ensures
        texts(r@) == substitution_names(path@),
{
    let all = find_placeholders(path);
    let mut out: Vec<String> = Vec::new();
    let mut i: usize = 0;
    while i < all.len()
        invariant
            i <= all.len(),
            texts(all@) == placeholders(path@),
            texts(out@) == distinct_in_order(texts(all@).take(i as int)),
        decreases all.len() - i,
    {
        let ghost pre = texts(all@).take(i as int + 1);
        assert(pre.drop_last() =~= texts(all@).take(i as int));
        assert(pre.last() == all@[i as int]@);
        if !contains_text(&out, all[i].as_str()) {
            let ghost before = texts(out@);
            out.push(all[i].clone());
            assert(texts(out@) =~= before.push(all@[i as int]@));
        }
        i = i + 1;
    }
    assert(texts(all@).take(all.len() as int) =~= texts(all@));
    out
}

proof fn lemma_distinct_in_order(s: Seq<Seq<char>>)
    ensures
        forall|x: Seq<char>| distinct_in_order(s).contains(x) <==> s.contains(x),
        distinct_in_order(s).no_duplicates(),
        forall|i: int, j: int, b: int|
            0 <= i < j < distinct_in_order(s).len() && 0 <= b < s.len() && #[trigger] s[b]
                == #[trigger] distinct_in_order(s)[j] ==> occurs_before(
                s,
                #[trigger] distinct_in_order(s)[i],
                b,
            ),
    decreases s.len(),
{
    if s.len() > 0 {
        let p = s.drop_last();
        let y = s.last();
        lemma_distinct_in_order(p);
        let d = distinct_in_order(p);
        assert forall|x: Seq<char>| s.contains(x) <==> (p.contains(x) || x == y) by {
            if s.contains(x) {
                let k = choose|k: int| 0 <= k < s.len() && s[k] == x;
                if k < p.len() {
                    assert(p[k] == x);
                }
            }
            if p.contains(x) {
                let k = choose|k: int| 0 <= k < p.len() && p[k] == x;
                assert(s[k] == x);
            }
            if x == y {
                assert(s[s.len() - 1] == x);
            }
        }
        let d2 = distinct_in_order(s);
        assert forall|i: int, j: int, b: int|
            0 <= i < j < d2.len() && 0 <= b < s.len() && #[trigger] s[b] == #[trigger] d2[j]
                implies occurs_before(s, #[trigger] d2[i], b) by {
            if b < p.len() {
                assert(p[b] == s[b]);
                if j < d.len() {
                    assert(d2[j] == d[j] && d2[i] == d[i]);
                    assert(occurs_before(p, d[i], b));
                    let a = choose|a: int| 0 <= a < b && p[a] == d[i];
                    assert(s[a] == d2[i]);
                } else {
                    assert(d2[j] == y);
                    assert(p.contains(y));
                }
            } else {
                assert(i < d.len());
                assert(d2[i] == d[i]);
                assert(d.contains(d[i]));
                assert(p.contains(d[i]));
                let a = choose|a: int| 0 <= a < p.len() && p[a] == d[i];
                assert(s[a] == p[a]);
                assert(s[a] == d2[i]);
            }
        }
        if !d.contains(y) {
            assert forall|x: Seq<char>| d2.contains(x) <==> (d.contains(x) || x == y) by {
                if d2.contains(x) {
                    let k = choose|k: int| 0 <= k < d2.len() && d2[k] == x;
                    if k < d.len() {
                        assert(d[k] == x);
                    }
                }
                if d.contains(x) {
                    let k = choose|k: int| 0 <= k < d.len() && d[k] == x;
                    assert(d2[k] == x);
                }
                if x == y {
                    assert(d2[d.len() as int] == x);
                }
            }
        }
    }
}

/// The substitutions that the generated code makes on a path template cover
/// its placeholders exactly: every placeholder's name is substituted, nothing
/// else is, no name twice, and in the order of first occurrence in the
/// template, left to right.
pub proof fn lemma_substitutions_cover_placeholders(path: Seq<char>)
    ensures
        forall|x: Seq<char>|
            substitution_names(path).contains(x) <==> placeholders(path).contains(x),
        substitution_names(path).no_duplicates(),
        forall|i: int, j: int, b: int|
            0 <= i < j < substitution_names(path).len() && 0 <= b < placeholders(path).len()
                && #[trigger] placeholders(path)[b] == #[trigger] substitution_names(path)[j]
                ==> occurs_before(placeholders(path), #[trigger] substitution_names(path)[i], b),
{
    lemma_distinct_in_order(placeholders(path));
}

} // verus!
