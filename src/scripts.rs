use vstd::prelude::*;
use crate::manifest::WalkEntry;
use crate::paths::{is_script, is_script_path, paths_sorted, sort_paths};

verus! {

/// The scripts among the first `n` entries of a walk: regular files named
/// `*.sh`, in walk order.
pub open spec fn scripts_among(es: Seq<WalkEntry>, n: int) -> Seq<Seq<char>>
    decreases n,
{
    if n <= 0 {
        Seq::empty()
    } else if es[n - 1].is_file && is_script_path(es[n - 1].path@) {
        scripts_among(es, n - 1).push(es[n - 1].path@)
    } else {
        scripts_among(es, n - 1)
    }
}

/// The scripts found by a walk of a script directory, in lexical path order.
pub fn select_scripts(entries: &Vec<WalkEntry>) -> (r: Vec<String>)
    ensures
        paths_sorted(r.deep_view()),
        r.deep_view().to_multiset() == scripts_among(entries@, entries@.len() as int).to_multiset(),
{
    let mut out: Vec<String> = Vec::new();
    let mut i: usize = 0;
    while i < entries.len()
        invariant
            i <= entries@.len(),
            out.deep_view() == scripts_among(entries@, i as int),
        decreases entries@.len() - i,
    {
        let e = &entries[i];
        if e.is_file && is_script(e.path.as_str()) {
            let ghost before = out.deep_view();
            let p = e.path.clone();
            out.push(p);
            assert(out.deep_view() =~= before.push(e.path@));
        }
        i = i + 1;
    }
    sort_paths(out)
}

/// Runs a list of scripts one at a time, in order, each to completion before
/// the next. Failures are collected; with `abort_on_failure` the first one
/// also ends the run.
pub struct ScriptRun {
    /// The scripts, in the order they run.
    pub scripts: Vec<String>,
    /// Whether each script run so far succeeded.
    pub results: Vec<bool>,
    /// Whether a failure ends the run.
    pub abort_on_failure: bool,
}

impl ScriptRun {
    /// The run's invariant: no more results than scripts.
    pub open spec fn wf(&self) -> bool {
        &&& self.scripts@.len() <= usize::MAX
        &&& self.results@.len() <= self.scripts@.len()
    }

    /// Whether some script run so far failed.
    pub open spec fn has_failed(&self) -> bool {
        self.results@.contains(false)
    }

    /// The script to run next, if any.
    pub open spec fn next_of(&self) -> Option<usize> {
        if self.results@.len() >= self.scripts@.len() || (self.abort_on_failure
            && self.has_failed()) {
            None
        } else {
            Some(self.results@.len() as usize)
        }
    }

    /// Starts a run of `scripts`.
    pub fn new(scripts: Vec<String>, abort_on_failure: bool) -> (r: ScriptRun)
        ensures
            r.wf(),
            r.scripts == scripts,
            r.results@ == Seq::<bool>::empty(),
            r.abort_on_failure == abort_on_failure,
    {
        assert(scripts@.len() == scripts.len());
        ScriptRun { scripts, results: Vec::new(), abort_on_failure }
    }

    /// The index of the script to run next; none once the run is over.
    pub fn next(&self) -> (r: Option<usize>)
        requires
            self.wf(),
        ensures
            r == self.next_of(),
    {
        let i = self.results.len();
        if i >= self.scripts.len() {
            return None;
        }
        if self.abort_on_failure {
            let mut k: usize = 0;
            while k < i
                invariant
                    i == self.results@.len(),
                    i < self.scripts@.len(),
                    self.abort_on_failure,
                    k <= i,
                    forall|j: int| 0 <= j < k ==> self.results@[j],
                decreases i - k,
            {
                if !self.results[k] {
                    assert(self.results@[k as int] == false);
                    return None;
                }
                k = k + 1;
            }
            assert(!self.results@.contains(false));
        }
        Some(i)
    }

    /// Records how the script that `next` named ended.
    pub fn record(&mut self, ok: bool)
        requires
            old(self).wf(),
            old(self).next_of() is Some,
        ensures
            final(self).wf(),
            final(self).scripts == old(self).scripts,
            final(self).abort_on_failure == old(self).abort_on_failure,
            final(self).results@ == old(self).results@.push(ok),
    {
        self.results.push(ok);
    }

    /// The indices of the scripts that failed, in order.
    pub fn failures(&self) -> (r: Vec<usize>)
        ensures
            forall|k: int| 0 <= k < r@.len() ==> 0 <= #[trigger] r@[k] < self.results@.len()
                && !self.results@[r@[k] as int],
            forall|j: int| 0 <= j < self.results@.len() && !self.results@[j] ==> r@.contains(
                j as usize,
            ),
            forall|a: int, b: int| 0 <= a < b < r@.len() ==> r@[a] < r@[b],
    {
        let mut out: Vec<usize> = Vec::new();
        let mut i: usize = 0;
        while i < self.results.len()
            invariant
                i <= self.results@.len(),
                forall|k: int| 0 <= k < out@.len() ==> 0 <= #[trigger] out@[k] < i
                    && !self.results@[out@[k] as int],
                forall|j: int| 0 <= j < i && !self.results@[j] ==> out@.contains(j as usize),
                forall|a: int, b: int| 0 <= a < b < out@.len() ==> out@[a] < out@[b],
            decreases self.results@.len() - i,
        {
            if !self.results[i] {
                let ghost before = out@;
                out.push(i);
                assert forall|j: int| 0 <= j < i + 1 && !self.results@[j] implies out@.contains(
                    j as usize,
                ) by {
                    if j < i {
                        let k = choose|k: int| 0 <= k < before.len() && before[k] == j as usize;
                        assert(out@[k] == j as usize);
                    } else {
                        assert(out@[out@.len() - 1] == j as usize);
                    }
                }
            }
            i = i + 1;
        }
        out
    }
}

} // verus!
