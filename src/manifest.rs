use vstd::prelude::*;
use crate::paths::{destination, destination_of};
use crate::text::string_from_chars;
use vstd::std_specs::iter::IteratorSpec;

verus! {

/// One entry met while walking the staged tree.
pub struct WalkEntry {
    pub path: String,
    pub is_file: bool,
}

/// What a walk entry contributes to the manifest: the live path of a regular
/// file below `root`, and nothing for directories.
pub open spec fn entry_destination(root: Seq<char>, e: WalkEntry) -> Option<Seq<char>> {
    if e.is_file {
        destination_of(root, e.path@)
    } else {
        None
    }
}

/// The manifest for a walk of the tree at `root`: each destination once, in
/// the order the walk first met it.
pub open spec fn manifest_of(root: Seq<char>, es: Seq<WalkEntry>) -> Seq<Seq<char>>
    decreases es.len(),
{
    if es.len() == 0 {
        Seq::empty()
    } else {
        let prev = manifest_of(root, es.drop_last());
        match entry_destination(root, es.last()) {
            Some(d) => if prev.contains(d) {
                prev
            } else {
                prev.push(d)
            },
            None => prev,
        }
    }
}

/// The persisted form of a manifest: each path followed by a newline.
pub open spec fn text_of(paths: Seq<Seq<char>>) -> Seq<char>
    decreases paths.len(),
{
    if paths.len() == 0 {
        Seq::empty()
    } else {
        text_of(paths.drop_last()) + paths.last() + seq!['\n']
    }
}

/// The non-empty lines of `t`, where `cur` holds the part of the current line
/// read so far.
pub open spec fn lines_from(t: Seq<char>, cur: Seq<char>) -> Seq<Seq<char>>
    decreases t.len(),
{
    if t.len() == 0 {
        if cur.len() == 0 {
            Seq::empty()
        } else {
            seq![cur]
        }
    } else if t[0] == '\n' {
        let rest = lines_from(t.drop_first(), Seq::empty());
        if cur.len() == 0 {
            rest
        } else {
            seq![cur] + rest
        }
    } else {
        lines_from(t.drop_first(), cur.push(t[0]))
    }
}

/// The paths that a persisted manifest lists: its non-empty lines.
pub open spec fn paths_in(t: Seq<char>) -> Seq<Seq<char>> {
    lines_from(t, Seq::empty())
}

/// A path that can stand on one line of a manifest.
pub open spec fn is_line(p: Seq<char>) -> bool {
    p.len() > 0 && !p.contains('\n')
}

/// Well-known paths left by earlier releases; uninstall removes them along
/// with what the manifest lists.
pub open spec fn legacy_paths() -> Seq<Seq<char>> {
    seq![
        "/usr/lib/systemd/system/casaos.service"@,
        "/lib/systemd/system/casaos.service"@,
        "/etc/systemd/system/casaos.service"@,
        "/etc/udev/rules.d/11-usb-mount.rules"@,
        "/etc/systemd/system/usb-mount@.service"@,
        "/usr/local/bin/casaos"@,
        "/etc/casaos.conf"@,
        "/var/lib/casaos/db"@,
        "/var/lib/casaos/www"@,
        "/var/lib/casaos/migration"@,
        "/usr/share/casaos"@,
        "/var/log/casaos"@,
        "/etc/casaos"@,
        "/var/run/casaos"@,
        "/usr/bin/casaos-uninstall"@,
    ]
}

/// Where the manifest is kept on the live system.
pub open spec fn manifest_location() -> Seq<char> {
    "/var/lib/casaos/manifest"@
}

/// The directory that holds the manifest and the bundle's state.
pub open spec fn state_directory() -> Seq<char> {
    "/var/lib/casaos"@
}

/// What uninstall deletes, in order: every manifest path, then the legacy
/// paths, then the manifest itself, then the state directory.
pub open spec fn removal_of(manifest: Seq<Seq<char>>) -> Seq<Seq<char>> {
    manifest + legacy_paths() + seq![manifest_location(), state_directory()]
}

/// Builds the manifest from a walk of the staged tree at `root`: the live
/// destination of each regular file, in walk order.
fn holds_path(v: &Vec<String>, p: &String) -> (r: bool)
    ensures
        r == v.deep_view().contains(p@),
{
    let mut j: usize = 0;
    while j < v.len()
        invariant
            j <= v@.len(),
            forall|k: int| 0 <= k < j ==> v.deep_view()[k] != p@,
        decreases v@.len() - j,
    {
        if v[j] == *p {
            assert(v.deep_view()[j as int] == p@);
            return true;
        }
        j = j + 1;
    }
    false
}

pub fn build_manifest(root: &str, entries: &Vec<WalkEntry>) -> (r: Vec<String>)
    ensures
        r.deep_view() == manifest_of(root@, entries@),
{
    let mut out: Vec<String> = Vec::new();
    let mut i: usize = 0;
    while i < entries.len()
        invariant
            i <= entries@.len(),
            out.deep_view() == manifest_of(root@, entries@.subrange(0, i as int)),
        decreases entries@.len() - i,
    {
        let ghost before = out.deep_view();
        let e = &entries[i];
        assert(entries@.subrange(0, i + 1).drop_last() =~= entries@.subrange(0, i as int));
        assert(entries@.subrange(0, i + 1).last() == entries@[i as int]);
        if e.is_file {
            match destination(root, e.path.as_str()) {
                Some(d) => {
                    if !holds_path(&out, &d) {
                        out.push(d);
                        assert(out.deep_view() =~= before.push(d@));
                    }
                },
                None => {},
            }
        }
        i = i + 1;
    }
    assert(entries@.subrange(0, entries@.len() as int) =~= entries@);
    out
}

/// Renders a manifest for storage: one path per line, each newline-terminated.
pub fn manifest_text(paths: &Vec<String>) -> (r: String)
    ensures
        r@ == text_of(paths.deep_view()),
{
    let mut out = String::new();
    let mut i: usize = 0;
    while i < paths.len()
        invariant
            i <= paths@.len(),
            out@ == text_of(paths.deep_view().subrange(0, i as int)),
        decreases paths@.len() - i,
    {
        let ghost before = out@;
        out.append(paths[i].as_str());
        out.append("\n");
        proof {
            reveal_strlit("\n");
            let s = paths.deep_view().subrange(0, i + 1);
            assert(s.drop_last() =~= paths.deep_view().subrange(0, i as int));
            assert(s.last() == paths@[i as int]@);
        }
        i = i + 1;
    }
    assert(paths.deep_view().subrange(0, paths@.len() as int) =~= paths.deep_view());
    out
}

/// Reads the paths back out of a stored manifest: its non-empty lines, in order.
pub fn parse_manifest(text: &str) -> (r: Vec<String>)
    ensures
        r.deep_view() == paths_in(text@),
{
    let mut out: Vec<String> = Vec::new();
    let mut cur: Vec<char> = Vec::new();
    let mut it = text.chars();
    let ghost n = text@.len();
    let ghost mut i: int = 0;
    proof {
        broadcast use vstd::string::axiom_spec_iter;
        assert(text@.subrange(0, n as int) =~= text@);
        assert(out.deep_view() + paths_in(text@) =~= paths_in(text@));
    }
    loop
        invariant
            0 <= i <= n,
            n == text@.len(),
            it.remaining() == text@.subrange(i, n as int),
            out.deep_view() + lines_from(text@.subrange(i, n as int), cur@) == paths_in(text@),
        decreases n - i,
    {
        let ghost rest = text@.subrange(i, n as int);
        match it.next() {
            None => {
                assert(rest.len() == 0);
                if cur.len() > 0 {
                    let s = string_from_chars(&cur);
                    out.push(s);
                } else {
                    assert(out.deep_view() + Seq::<Seq<char>>::empty() =~= out.deep_view());
                }
                return out;
            },
            Some(c) => {
                assert(rest.drop_first() =~= text@.subrange(i + 1, n as int));
                if c == '\n' {
                    let ghost before = out.deep_view();
                    if cur.len() > 0 {
                        let s = string_from_chars(&cur);
                        out.push(s);
                        assert(out.deep_view() =~= before.push(cur@));
                        assert(before + (seq![cur@] + lines_from(rest.drop_first(), Seq::empty()))
                            =~= before.push(cur@) + lines_from(rest.drop_first(), Seq::empty()));
                    }
                    cur = Vec::new();
                    assert(cur@ =~= Seq::<char>::empty());
                } else {
                    cur.push(c);
                }
                proof {
                    i = i + 1;
                }
            },
        }
    }
}

/// The paths that uninstall deletes, in order: those of the manifest, then the
/// legacy paths, then the manifest file itself.
pub fn removal_plan(manifest: &Vec<String>) -> (r: Vec<String>)
    ensures
        r.deep_view() == removal_of(manifest.deep_view()),
{
    let mut out: Vec<String> = Vec::new();
    let mut i: usize = 0;
    while i < manifest.len()
        invariant
            i <= manifest@.len(),
            out.deep_view() == manifest.deep_view().subrange(0, i as int),
        decreases manifest@.len() - i,
    {
        let ghost before = out.deep_view();
        let p = manifest[i].clone();
        out.push(p);
        assert(out.deep_view() =~= before.push(p@));
        assert(out.deep_view() =~= manifest.deep_view().subrange(0, i + 1));
        i = i + 1;
    }
    assert(manifest.deep_view().subrange(0, manifest@.len() as int) =~= manifest.deep_view());
    let ghost m = out.deep_view();
    out.push(String::from_str("/usr/lib/systemd/system/casaos.service"));
    out.push(String::from_str("/lib/systemd/system/casaos.service"));
    out.push(String::from_str("/etc/systemd/system/casaos.service"));
    out.push(String::from_str("/etc/udev/rules.d/11-usb-mount.rules"));
    out.push(String::from_str("/etc/systemd/system/usb-mount@.service"));
    out.push(String::from_str("/usr/local/bin/casaos"));
    out.push(String::from_str("/etc/casaos.conf"));
    out.push(String::from_str("/var/lib/casaos/db"));
    out.push(String::from_str("/var/lib/casaos/www"));
    out.push(String::from_str("/var/lib/casaos/migration"));
    out.push(String::from_str("/usr/share/casaos"));
    out.push(String::from_str("/var/log/casaos"));
    out.push(String::from_str("/etc/casaos"));
    out.push(String::from_str("/var/run/casaos"));
    out.push(String::from_str("/usr/bin/casaos-uninstall"));
    out.push(String::from_str("/var/lib/casaos/manifest"));
    out.push(String::from_str("/var/lib/casaos"));
    assert(out.deep_view() =~= removal_of(m));
    out
}

/// The manifest lists exactly the live destinations of the regular files that
/// the walk met below the root, so no directory, and none of them twice.
pub proof fn lemma_manifest_exact(root: Seq<char>, es: Seq<WalkEntry>)
    ensures
        forall|d: Seq<char>|
            manifest_of(root, es).contains(d) <==> exists|k: int|
                0 <= k < es.len() && #[trigger] entry_destination(root, es[k]) == Some(d),
        manifest_of(root, es).no_duplicates(),
    decreases es.len(),
{
    if es.len() > 0 {
        let init = es.drop_last();
        let last = es.last();
        let m0 = manifest_of(root, init);
        let m = manifest_of(root, es);
        lemma_manifest_exact(root, init);
        assert forall|d: Seq<char>|
            m.contains(d) <==> exists|k: int|
                0 <= k < es.len() && #[trigger] entry_destination(root, es[k]) == Some(d) by {
            if m.contains(d) {
                if !m0.contains(d) {
                    assert(entry_destination(root, es[es.len() - 1]) == Some(d));
                } else {
                    let k = choose|k: int|
                        0 <= k < init.len() && #[trigger] entry_destination(root, init[k]) == Some(d);
                    assert(es[k] == init[k]);
                }
            }
            if exists|k: int| 0 <= k < es.len() && #[trigger] entry_destination(root, es[k]) == Some(d) {
                let k = choose|k: int|
                    0 <= k < es.len() && #[trigger] entry_destination(root, es[k]) == Some(d);
                if k == es.len() - 1 {
                    if !m0.contains(d) {
                        assert(m[m.len() - 1] == d);
                    } else {
                        let i = choose|i: int| 0 <= i < m0.len() && m0[i] == d;
                        assert(m[i] == d);
                    }
                } else {
                    assert(init[k] == es[k]);
                    assert(entry_destination(root, init[k]) == Some(d));
                    assert(exists|k2: int|
                        0 <= k2 < init.len() && #[trigger] entry_destination(root, init[k2]) == Some(d));
                    assert(m0.contains(d));
                    let i = choose|i: int| 0 <= i < m0.len() && m0[i] == d;
                    assert(m[i] == d);
                }
            }
        }
        if let Some(x) = entry_destination(root, last) {
            if !m0.contains(x) {
                assert forall|i: int, j: int| 0 <= i < j < m.len() implies m[i] != m[j] by {
                    if j == m.len() - 1 {
                        assert(m0.contains(m[i]));
                    } else {
                        assert(m[i] == m0[i] && m[j] == m0[j]);
                    }
                }
            }
        }
    }
}

/// Reading through a run of characters without a newline extends the current line.
pub proof fn lemma_lines_run(p: Seq<char>, rest: Seq<char>, cur: Seq<char>)
    requires
        !p.contains('\n'),
    ensures
        lines_from(p + rest, cur) == lines_from(rest, cur + p),
    decreases p.len(),
{
    if p.len() == 0 {
        assert(p + rest =~= rest);
        assert(cur + p =~= cur);
    } else {
        assert((p + rest)[0] == p[0]);
        assert((p + rest).drop_first() =~= p.drop_first() + rest);
        assert(!p.drop_first().contains('\n')) by {
            if p.drop_first().contains('\n') {
                let i = choose|i: int| 0 <= i < p.drop_first().len() && p.drop_first()[i] == '\n';
                assert(p[i + 1] == '\n');
            }
        }
        lemma_lines_run(p.drop_first(), rest, cur.push(p[0]));
        assert(cur.push(p[0]) + p.drop_first() =~= cur + p);
    }
}

/// The lines of a rendered manifest followed by more text are the manifest's
/// paths followed by the lines of that text.
pub proof fn lemma_text_lines(ps: Seq<Seq<char>>, rest: Seq<char>)
    requires
        forall|i: int| 0 <= i < ps.len() ==> is_line(#[trigger] ps[i]),
    ensures
        lines_from(text_of(ps) + rest, Seq::empty()) == ps + lines_from(rest, Seq::empty()),
    decreases ps.len(),
{
    if ps.len() == 0 {
        assert(text_of(ps) + rest =~= rest);
        assert(ps + lines_from(rest, Seq::empty()) =~= lines_from(rest, Seq::empty()));
    } else {
        let init = ps.drop_last();
        let q = ps.last();
        assert(is_line(ps[ps.len() - 1]));
        let tail = seq!['\n'] + rest;
        assert(text_of(ps) + rest =~= text_of(init) + (q + tail));
        assert forall|i: int| 0 <= i < init.len() implies is_line(#[trigger] init[i]) by {
            assert(init[i] == ps[i]);
        }
        lemma_text_lines(init, q + tail);
        lemma_lines_run(q, tail, Seq::empty());
        assert(Seq::<char>::empty() + q =~= q);
        assert(tail[0] == '\n');
        assert(tail.drop_first() =~= rest);
        assert(init + (seq![q] + lines_from(rest, Seq::empty())) =~= ps + lines_from(rest, Seq::empty()));
    }
}

/// Rendering a manifest and reading it back gives the same paths, provided
/// each path is non-empty and holds no newline.
pub proof fn lemma_manifest_round_trip(ps: Seq<Seq<char>>)
    requires
        forall|i: int| 0 <= i < ps.len() ==> is_line(#[trigger] ps[i]),
    ensures
        paths_in(text_of(ps)) == ps,
{
    lemma_text_lines(ps, Seq::empty());
    assert(text_of(ps) + Seq::<char>::empty() =~= text_of(ps));
    assert(ps + Seq::<Seq<char>>::empty() =~= ps);
}

/// Uninstall, given the stored manifest of an install, deletes every path of
/// that manifest, and deletes nothing outside the manifest, the legacy paths,
/// the manifest file and the state directory.
pub proof fn lemma_removal_exact(ps: Seq<Seq<char>>)
    requires
        forall|i: int| 0 <= i < ps.len() ==> is_line(#[trigger] ps[i]),
    ensures
        forall|p: Seq<char>| ps.contains(p) ==> removal_of(paths_in(text_of(ps))).contains(p),
        forall|p: Seq<char>|
            removal_of(paths_in(text_of(ps))).contains(p) ==> ps.contains(p) || legacy_paths().contains(p)
                || p == manifest_location() || p == state_directory(),
{
    lemma_manifest_round_trip(ps);
    let r = removal_of(ps);
    assert forall|p: Seq<char>| ps.contains(p) implies r.contains(p) by {
        let i = choose|i: int| 0 <= i < ps.len() && ps[i] == p;
        assert(r[i] == p);
    }
    assert forall|p: Seq<char>| r.contains(p) implies ps.contains(p) || legacy_paths().contains(p)
        || p == manifest_location() || p == state_directory() by {
        let i = choose|i: int| 0 <= i < r.len() && r[i] == p;
        if i < ps.len() {
            assert(ps[i] == p);
        } else if i < ps.len() + legacy_paths().len() {
            assert(legacy_paths()[i - ps.len()] == p);
        } else if i == ps.len() + legacy_paths().len() {
            assert(p == manifest_location());
        } else {
            assert(p == state_directory());
        }
    }
}

/// Uninstall reverses an install: for the manifest of a walk whose paths hold
/// no newline, uninstall deletes every path of that manifest, and nothing
/// outside the manifest, the legacy paths, the manifest file and the state
/// directory.
pub proof fn lemma_uninstall_reverses_install(root: Seq<char>, es: Seq<WalkEntry>)
    requires
        forall|k: int| 0 <= k < es.len() ==> !(#[trigger] es[k]).path@.contains('\n'),
    ensures
        forall|p: Seq<char>|
            manifest_of(root, es).contains(p) ==> removal_of(
                paths_in(text_of(manifest_of(root, es))),
            ).contains(p),
        forall|p: Seq<char>|
            removal_of(paths_in(text_of(manifest_of(root, es)))).contains(p) ==> manifest_of(
                root,
                es,
            ).contains(p) || legacy_paths().contains(p) || p == manifest_location()
                || p == state_directory(),
{
    let m = manifest_of(root, es);
    lemma_manifest_exact(root, es);
    assert forall|i: int| 0 <= i < m.len() implies is_line(#[trigger] m[i]) by {
        assert(m.contains(m[i]));
        let k = choose|k: int|
            0 <= k < es.len() && #[trigger] entry_destination(root, es[k]) == Some(m[i]);
        let path = es[k].path@;
        let d = m[i];
        assert(d =~= path.subrange(root.len() as int, path.len() as int));
        if d.contains('\n') {
            let j = choose|j: int| 0 <= j < d.len() && d[j] == '\n';
            assert(path[root.len() + j] == '\n');
            assert(path.contains('\n'));
        }
    }
    lemma_removal_exact(m);
}

} // verus!
