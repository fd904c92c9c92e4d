use vstd::prelude::*;

verus! {

/// True when no character of `s` is a path separator.
pub open spec fn no_slash(s: Seq<char>) -> bool {
    forall|k: int| 0 <= k < s.len() ==> s[k] != '/'
}

/// The last component of a `/`-separated path: everything after the last `/`,
/// or the whole path when it holds none.
pub open spec fn file_name_of(s: Seq<char>) -> Seq<char>
    decreases s.len(),
{
    if s.len() == 0 {
        s
    } else if s.last() == '/' {
        Seq::empty()
    } else {
        file_name_of(s.drop_last()).push(s.last())
    }
}

/// A path names a shell script when its file name has a non-empty stem and
/// the extension `sh`.
pub open spec fn is_script_path(s: Seq<char>) -> bool {
    let f = file_name_of(s);
    &&& f.len() > 3
    &&& f.subrange(f.len() - 3, f.len() as int) == seq!['.', 's', 'h']
}

/// Where a path found under `root` lands once `root` is replaced by `/`:
/// `root/x/y` becomes `/x/y`. Paths that do not lie strictly below `root`
/// have no destination.
pub open spec fn destination_of(root: Seq<char>, path: Seq<char>) -> Option<Seq<char>> {
    if path.len() > root.len() + 1 && path.subrange(0, root.len() as int) == root
        && path[root.len() as int] == '/' {
        Some(path.subrange(root.len() as int, path.len() as int))
    } else {
        None
    }
}

/// Splitting a path where the tail holds no separator: the file name is the
/// file name of the head followed by the tail.
pub proof fn lemma_file_name_split(s: Seq<char>, i: int)
    requires
        0 <= i <= s.len(),
        no_slash(s.subrange(i, s.len() as int)),
    ensures
        file_name_of(s) == file_name_of(s.subrange(0, i)) + s.subrange(i, s.len() as int),
    decreases s.len() - i,
{
    if i == s.len() {
        assert(s.subrange(0, i) == s);
        assert(s.subrange(i, s.len() as int) =~= Seq::<char>::empty());
        assert(file_name_of(s) + Seq::<char>::empty() =~= file_name_of(s));
    } else {
        let t = s.drop_last();
        assert(s[s.len() - 1] == s.subrange(i, s.len() as int)[s.len() - 1 - i]);
        assert(t.subrange(i, t.len() as int) =~= s.subrange(i, s.len() as int).drop_last());
        lemma_file_name_split(t, i);
        assert(t.subrange(0, i) =~= s.subrange(0, i));
        assert(file_name_of(s) == file_name_of(t).push(s.last()));
        assert(s.subrange(i, s.len() as int) =~= t.subrange(i, t.len() as int).push(s.last()));
        assert((file_name_of(t.subrange(0, i)) + t.subrange(i, t.len() as int)).push(s.last())
            =~= file_name_of(t.subrange(0, i)) + t.subrange(i, t.len() as int).push(s.last()));
    }
}

/// Index where the last component of `s` begins.
fn file_name_start(s: &str) -> (i: usize)
    ensures
        i <= s@.len(),
        file_name_of(s@) == s@.subrange(i as int, s@.len() as int),
{
    let n = s.unicode_len();
    let mut i: usize = n;
    while i > 0 && s.get_char(i - 1) != '/'
        invariant
            n == s@.len(),
            i <= n,
            no_slash(s@.subrange(i as int, n as int)),
        decreases i,
    {
        i = i - 1;
        assert forall|k: int| 0 <= k < s@.subrange(i as int, n as int).len() implies
            s@.subrange(i as int, n as int)[k] != '/' by {
            if k > 0 {
                assert(s@.subrange(i as int, n as int)[k] == s@.subrange(i + 1, n as int)[k - 1]);
            }
        }
    }
    proof {
        lemma_file_name_split(s@, i as int);
        if i > 0 {
            assert(s@.subrange(0, i as int).last() == '/');
        } else {
            assert(s@.subrange(0, 0) =~= Seq::<char>::empty());
        }
    }
    i
}

/// The last `/`-separated component of `path`.
pub fn file_name(path: &str) -> (r: String)
    ensures
        r@ == file_name_of(path@),
{
    let i = file_name_start(path);
    let n = path.unicode_len();
    String::from_str(path.substring_char(i, n))
}

/// Whether `path` names a shell script (`*.sh` with a non-empty stem).
pub fn is_script(path: &str) -> (r: bool)
    ensures
        r == is_script_path(path@),
{
    let i = file_name_start(path);
    let n = path.unicode_len();
    if n - i <= 3 {
        return false;
    }
    let ghost f = path@.subrange(i as int, n as int);
    let a = path.get_char(n - 3);
    let b = path.get_char(n - 2);
    let c = path.get_char(n - 1);
    assert(f[f.len() - 3] == a && f[f.len() - 2] == b && f[f.len() - 1] == c);
    if a == '.' && b == 's' && c == 'h' {
        assert(f.subrange(f.len() - 3, f.len() as int) =~= seq!['.', 's', 'h']);
        true
    } else {
        assert(f.subrange(f.len() - 3, f.len() as int)[0] == a);
        assert(f.subrange(f.len() - 3, f.len() as int)[1] == b);
        assert(f.subrange(f.len() - 3, f.len() as int)[2] == c);
        false
    }
}

/// Whether `s` begins with `prefix`.
pub fn starts_with(s: &str, prefix: &str) -> (r: bool)
    ensures
        r == (prefix@.len() <= s@.len() && s@.subrange(0, prefix@.len() as int) == prefix@),
{
    let n = s.unicode_len();
    let m = prefix.unicode_len();
    if m > n {
        return false;
    }
    let mut k: usize = 0;
    while k < m
        invariant
            n == s@.len(),
            m == prefix@.len(),
            m <= n,
            k <= m,
            forall|j: int| 0 <= j < k ==> s@[j] == prefix@[j],
        decreases m - k,
    {
        if s.get_char(k) != prefix.get_char(k) {
            assert(s@.subrange(0, m as int)[k as int] != prefix@[k as int]);
            return false;
        }
        k = k + 1;
    }
    assert(s@.subrange(0, m as int) =~= prefix@);
    true
}

/// The destination of `path` when the tree at `root` is copied onto `/`.
pub fn destination(root: &str, path: &str) -> (r: Option<String>)
    ensures
        r matches Some(d) ==> destination_of(root@, path@) == Some(d@),
        r is None ==> destination_of(root@, path@) is None,
{
    let n = path.unicode_len();
    let m = root.unicode_len();
    if m >= n || n - m < 2 {
        return None;
    }
    if !starts_with(path, root) {
        return None;
    }
    if path.get_char(m) != '/' {
        return None;
    }
    Some(String::from_str(path.substring_char(m, n)))
}

/// Lexical order on paths, character by character (the order of their UTF-8
/// bytes), a prefix coming first.
pub open spec fn path_le(a: Seq<char>, b: Seq<char>) -> bool
    decreases a.len(),
{
    if a.len() == 0 {
        true
    } else if b.len() == 0 {
        false
    } else if a[0] != b[0] {
        (a[0] as int) < (b[0] as int)
    } else {
        path_le(a.drop_first(), b.drop_first())
    }
}

/// Whether each path comes no later than the next.
pub open spec fn paths_sorted(s: Seq<Seq<char>>) -> bool {
    forall|i: int| 0 <= i < s.len() - 1 ==> path_le(#[trigger] s[i], s[i + 1])
}

/// Any two paths are ordered one way or the other.
pub proof fn lemma_path_le_total(a: Seq<char>, b: Seq<char>)
    ensures
        path_le(a, b) || path_le(b, a),
    decreases a.len(),
{
    if a.len() > 0 && b.len() > 0 {
        if a[0] == b[0] {
            lemma_path_le_total(a.drop_first(), b.drop_first());
        }
    }
}

/// Whether `a` comes no later than `b` in lexical order.
pub fn path_before(a: &str, b: &str) -> (r: bool)
    ensures
        r == path_le(a@, b@),
{
    let n = a.unicode_len();
    let m = b.unicode_len();
    let mut k: usize = 0;
    assert(a@.subrange(0, n as int) =~= a@);
    assert(b@.subrange(0, m as int) =~= b@);
    while k < n && k < m
        invariant
            n == a@.len(),
            m == b@.len(),
            k <= n,
            k <= m,
            path_le(a@, b@) == path_le(a@.subrange(k as int, n as int), b@.subrange(k as int, m as int)),
        decreases n - k,
    {
        let x = a.get_char(k);
        let y = b.get_char(k);
        let ghost ta = a@.subrange(k as int, n as int);
        let ghost tb = b@.subrange(k as int, m as int);
        assert(ta[0] == x && tb[0] == y);
        if x != y {
            return (x as u32) < (y as u32);
        }
        assert(ta.drop_first() =~= a@.subrange(k + 1, n as int));
        assert(tb.drop_first() =~= b@.subrange(k + 1, m as int));
        k = k + 1;
    }
    k == n
}

/// Orders paths lexically, keeping each one as often as it was given.
pub fn sort_paths(v: Vec<String>) -> (r: Vec<String>)
    ensures
        paths_sorted(r.deep_view()),
        r.deep_view().to_multiset() == v.deep_view().to_multiset(),
{
    broadcast use vstd::seq_lib::group_to_multiset_ensures;

    let mut out: Vec<String> = Vec::new();
    let mut i: usize = 0;
    while i < v.len()
        invariant
            i <= v@.len(),
            paths_sorted(out.deep_view()),
            out.deep_view().to_multiset() == v.deep_view().subrange(0, i as int).to_multiset(),
        decreases v@.len() - i,
    {
        let x = v[i].clone();
        let mut p: usize = 0;
        while p < out.len() && path_before(out[p].as_str(), x.as_str())
            invariant
                p <= out@.len(),
                p > 0 ==> path_le(out.deep_view()[p - 1], x@),
            decreases out@.len() - p,
        {
            p = p + 1;
        }
        let ghost before = out.deep_view();
        if p < out.len() {
            proof {
                lemma_path_le_total(before[p as int], x@);
            }
        }
        out.insert(p, x);
        proof {
            let after = out.deep_view();
            assert(after =~= before.insert(p as int, x@));
            assert forall|k: int| 0 <= k < after.len() - 1 implies path_le(#[trigger] after[k], after[k + 1]) by {
                if k < p - 1 {
                    assert(after[k] == before[k] && after[k + 1] == before[k + 1]);
                } else if k == p - 1 {
                    assert(after[k] == before[k] && after[k + 1] == x@);
                } else if k == p {
                    assert(after[k] == x@ && after[k + 1] == before[k]);
                } else {
                    assert(after[k] == before[k - 1] && after[k + 1] == before[k]);
                }
            }
            vstd::seq_lib::to_multiset_insert(before, p as int, x@);
            assert(v.deep_view().subrange(0, i + 1) =~= v.deep_view().subrange(0, i as int).push(
                v@[i as int]@,
            ));
            vstd::seq_lib::to_multiset_build(v.deep_view().subrange(0, i as int), v@[i as int]@);
        }
        i = i + 1;
    }
    assert(v.deep_view().subrange(0, v@.len() as int) =~= v.deep_view());
    out
}

} // verus!
