//! Testing a package's quilt patches against a new upstream source: the
//! series file, the running tally, and what happens after each outcome.
use vstd::prelude::*;
use crate::text::{self, cat, decimal, join, lines, push_str, push_string, starts_with, str_eq, trim};

verus! {

/// The tally of a patch test run.
pub struct PatchTestResult {
    pub applied_cleanly: usize,
    pub fixed_interactively: usize,
    pub skipped: usize,
    pub aborted: bool,
}

/// The parts of a summary: each non-zero count with its meaning, then
/// `aborted` when the run was aborted.
pub open spec fn summary_parts(r: PatchTestResult) -> Seq<Seq<char>> {
    (if r.applied_cleanly > 0 { seq![text::decimal_spec(r.applied_cleanly as nat) + " applied cleanly"@] } else { seq![] })
        + (if r.fixed_interactively > 0 { seq![text::decimal_spec(r.fixed_interactively as nat) + " fixed interactively"@] } else { seq![] })
        + (if r.skipped > 0 { seq![text::decimal_spec(r.skipped as nat) + " skipped"@] } else { seq![] })
        + (if r.aborted { seq!["aborted"@] } else { seq![] })
}

/// The one-line summary of a run.
pub open spec fn summary_spec(r: PatchTestResult) -> Seq<char> {
    if summary_parts(r).len() == 0 { "no patches to test"@ } else { text::join_spec(summary_parts(r), ", "@) }
}

impl PatchTestResult {
    /// An empty tally.
    pub fn new() -> (r: PatchTestResult)
        ensures
            r.applied_cleanly == 0 && r.fixed_interactively == 0 && r.skipped == 0 && !r.aborted,
    {
        PatchTestResult { applied_cleanly: 0, fixed_interactively: 0, skipped: 0, aborted: false }
    }

    /// The summary of a run, such as `3 applied cleanly, 1 fixed
    /// interactively`; `no patches to test` when nothing was counted.
    pub fn summary(&self) -> (r: String)
        ensures
            r@ == summary_spec(*self),
    {
        let mut parts: Vec<String> = Vec::new();
        if self.applied_cleanly > 0 {
            push_string(&mut parts, cat(decimal(self.applied_cleanly as u64).as_str(), " applied cleanly"));
        }
        if self.fixed_interactively > 0 {
            push_string(&mut parts, cat(decimal(self.fixed_interactively as u64).as_str(), " fixed interactively"));
        }
        if self.skipped > 0 {
            push_string(&mut parts, cat(decimal(self.skipped as u64).as_str(), " skipped"));
        }
        if self.aborted {
            push_str(&mut parts, "aborted");
        }
        assert(text::views(parts@) =~= summary_parts(*self));
        if parts.len() == 0 {
            text::owned("no patches to test")
        } else {
            join(parts.as_slice(), ", ")
        }
    }
}

/// A line of a series file that names a patch: trimmed, not empty and not
/// a comment.
pub open spec fn patch_line(l: Seq<char>) -> Seq<Seq<char>> {
    let t = text::trim_spec(l);
    if t.len() > 0 && !text::starts_with_spec(t, "#"@) { seq![t] } else { seq![] }
}

/// The patches named by a sequence of series lines, in order.
pub open spec fn patch_lines(ls: Seq<Seq<char>>) -> Seq<Seq<char>>
    decreases ls.len(),
{
    if ls.len() == 0 { seq![] } else { patch_lines(ls.drop_last()) + patch_line(ls.last()) }
}

/// The patches a series file lists, in order.
pub open spec fn series_spec(content: Seq<char>) -> Seq<Seq<char>> {
    patch_lines(text::lines_spec(content))
}

/// The patches a series file lists: each line trimmed, without empty lines
/// and `#` comments.
pub fn series_patches(content: &str) -> (r: Vec<String>)
    ensures
        text::views(r@) == series_spec(content@),
{
    let ls = lines(content);
    let mut r: Vec<String> = Vec::new();
    let mut i: usize = 0;
    while i < ls.len()
        invariant
            i <= ls.len(),
            text::views(ls@) == text::lines_spec(content@),
            text::views(r@) == patch_lines(text::views(ls@).take(i as int)),
        decreases ls.len() - i,
    {
        proof {
            assert(text::views(ls@).take(i + 1).drop_last() =~= text::views(ls@).take(i as int));
        }
        let t = trim(ls[i].as_str());
        let ghost before = text::views(r@);
        if text::chars_of(t.as_str()).len() > 0 && !starts_with(t.as_str(), "#") {
            push_string(&mut r, t);
        }
        i = i + 1;
        assert(text::views(r@) =~= before + patch_line(ls@[i - 1]@));
    }
    assert(text::views(ls@).take(i as int) =~= text::views(ls@));
    r
}

/// The series lines kept when a patch is removed: those whose trimmed text
/// is not the patch's name.
pub open spec fn kept_lines(ls: Seq<Seq<char>>, name: Seq<char>) -> Seq<Seq<char>>
    decreases ls.len(),
{
    if ls.len() == 0 {
        seq![]
    } else {
        kept_lines(ls.drop_last(), name) + if text::trim_spec(ls.last()) != name { seq![ls.last()] } else { seq![] }
    }
}

/// A series file without a patch: the other lines, joined by line feeds,
/// with a final line feed.
pub open spec fn removed_spec(content: Seq<char>, name: Seq<char>) -> Seq<char> {
    text::join_spec(kept_lines(text::lines_spec(content), name), "\n"@) + "\n"@
}

/// The series file `content` without the line naming `patch_name`.
pub fn remove_from_series(content: &str, patch_name: &str) -> (r: String)
    ensures
        r@ == removed_spec(content@, patch_name@),
{
    let ls = lines(content);
    let mut kept: Vec<String> = Vec::new();
    let mut i: usize = 0;
    while i < ls.len()
        invariant
            i <= ls.len(),
            text::views(ls@) == text::lines_spec(content@),
            text::views(kept@) == kept_lines(text::views(ls@).take(i as int), patch_name@),
        decreases ls.len() - i,
    {
        proof {
            assert(text::views(ls@).take(i + 1).drop_last() =~= text::views(ls@).take(i as int));
        }
        let t = trim(ls[i].as_str());
        let ghost before = text::views(kept@);
        if !str_eq(t.as_str(), patch_name) {
            push_str(&mut kept, ls[i].as_str());
        }
        i = i + 1;
        assert(text::views(kept@) =~= before + if text::trim_spec(ls@[i - 1]@) != patch_name@ { seq![ls@[i - 1]@] } else { Seq::<Seq<char>>::empty() });
    }
    assert(text::views(ls@).take(i as int) =~= text::views(ls@));
    let body = join(kept.as_slice(), "\n");
    cat(body.as_str(), "\n")
}

/// Where a patch test run stands.
pub enum PatchPhase {
    /// The next patch is to be pushed (or the run is over when none is left).
    Ready,
    /// The current patch failed and the user is asked what to do.
    Asking,
    /// The user is in a shell fixing the current patch (after a forced push
    /// when `force`).
    InShell { force: bool },
    /// The current patch is being removed from the series files.
    Removing,
    /// The run was aborted.
    Aborted,
}

/// What the caller has to do next.
pub enum PatchAction {
    /// Push the named patch with quilt.
    Push(String),
    /// Ask the user about the named patch that failed.
    Ask(String),
    /// Open a shell in the source (after `quilt push -f` when `force`).
    Shell { force: bool },
    /// Remove the named patch from both series files.
    RemoveFromSeries(String),
    /// The run is over; copy refreshed patches back unless it was aborted or
    /// there were no patches to test.
    Finish { copy_back: bool },
}

/// What happened after an action.
pub enum PatchEvent {
    /// The push succeeded or failed.
    Pushed(bool),
    /// The user chose: 0 shell, 1 forced push and shell, 2 skip, 3 abort.
    Chose(usize),
    /// The shell exited, successfully or not (refreshed patches are copied
    /// back before a success is reported).
    ShellExited(bool),
    /// The patch was removed from the series files.
    Removed,
}

/// A patch test run over the patches of a series file.
pub struct PatchSession {
    pub patches: Vec<String>,
    pub interactive: bool,
    pub current: usize,
    pub phase: PatchPhase,
    pub result: PatchTestResult,
}

impl PatchSession {
    /// Every patch handled so far is counted exactly once, and no more
    /// patches are handled than the series lists.
    pub open spec fn wf(&self) -> bool {
        &&& self.current <= self.patches@.len()
        &&& self.result.applied_cleanly + self.result.fixed_interactively + self.result.skipped == self.current
        &&& (self.phase is Aborted <==> self.result.aborted)
        &&& (self.phase is Asking || self.phase is InShell || self.phase is Removing) ==> self.current < self.patches@.len()
    }

    /// The events an action can be answered with.
    pub open spec fn accepts(&self, e: PatchEvent) -> bool {
        match self.phase {
            PatchPhase::Ready => e is Pushed && self.current < self.patches@.len(),
            PatchPhase::Asking => e matches PatchEvent::Chose(c) && c <= 3,
            PatchPhase::InShell { .. } => e is ShellExited,
            PatchPhase::Removing => e is Removed,
            PatchPhase::Aborted => false,
        }
    }

    /// A run over `patches`, prompting on failures when `interactive`.
    pub fn new(patches: Vec<String>, interactive: bool) -> (r: PatchSession)
        ensures
            r.wf(),
            r.patches@ == patches@,
            r.interactive == interactive,
            r.current == 0,
            r.phase is Ready,
            r.result.applied_cleanly == 0 && r.result.fixed_interactively == 0 && r.result.skipped == 0,
    {
        PatchSession { patches, interactive, current: 0, phase: PatchPhase::Ready, result: PatchTestResult::new() }
    }

    /// What to do next: push the next patch, ask about a failed one, open a
    /// shell, remove a patch, or finish (copying refreshed patches back
    /// unless the run was aborted or had no patches).
    pub fn next_action(&self) -> (r: PatchAction)
        requires
            self.wf(),
        ensures
            match self.phase {
                PatchPhase::Ready => if self.current < self.patches@.len() {
                    r matches PatchAction::Push(p) && p@ == self.patches@[self.current as int]@
                } else {
                    r matches PatchAction::Finish { copy_back } && copy_back == (self.patches@.len() > 0)
                },
                PatchPhase::Asking => r matches PatchAction::Ask(p) && p@ == self.patches@[self.current as int]@,
                PatchPhase::InShell { force } => r matches PatchAction::Shell { force: f } && f == force,
                PatchPhase::Removing => r matches PatchAction::RemoveFromSeries(p) && p@ == self.patches@[self.current as int]@,
                PatchPhase::Aborted => r matches PatchAction::Finish { copy_back } && !copy_back,
            },
    {
        match self.phase {
            PatchPhase::Ready => {
                if self.current < self.patches.len() {
                    PatchAction::Push(self.patches[self.current].clone())
                } else {
                    PatchAction::Finish { copy_back: self.patches.len() > 0 }
                }
            },
            PatchPhase::Asking => PatchAction::Ask(self.patches[self.current].clone()),
            PatchPhase::InShell { force } => PatchAction::Shell { force },
            PatchPhase::Removing => PatchAction::RemoveFromSeries(self.patches[self.current].clone()),
            PatchPhase::Aborted => PatchAction::Finish { copy_back: false },
        }
    }

    /// Takes in what happened. A clean push counts as applied; a failed one
    /// is skipped when nobody can be asked, and otherwise asked about. The
    /// user's choice opens a shell (0, or 1 after a forced push), removes
    /// the patch (2, then it counts as skipped) or aborts the run (3). A
    /// shell that exits successfully counts the patch as fixed, otherwise as
    /// skipped. After a patch is counted the next one is taken.
    pub fn on_event(&mut self, e: PatchEvent)
        requires
            old(self).wf(),
            old(self).accepts(e),
        ensures
            final(self).wf(),
            final(self).patches@ == old(self).patches@,
            final(self).interactive == old(self).interactive,
            match (old(self).phase, e) {
                (PatchPhase::Ready, PatchEvent::Pushed(true)) => final(self).phase is Ready
                    && final(self).current == old(self).current + 1
                    && final(self).result.applied_cleanly == old(self).result.applied_cleanly + 1
                    && final(self).result.fixed_interactively == old(self).result.fixed_interactively
                    && final(self).result.skipped == old(self).result.skipped,
                (PatchPhase::Ready, PatchEvent::Pushed(false)) => if old(self).interactive {
                    final(self).phase is Asking && final(self).current == old(self).current
                        && final(self).result == old(self).result
                } else {
                    final(self).phase is Ready && final(self).current == old(self).current + 1
                        && final(self).result.skipped == old(self).result.skipped + 1
                        && final(self).result.applied_cleanly == old(self).result.applied_cleanly
                        && final(self).result.fixed_interactively == old(self).result.fixed_interactively
                },
                (PatchPhase::Asking, PatchEvent::Chose(c)) => final(self).current == old(self).current
                    && (if c == 0 || c == 1 {
                        final(self).phase == (PatchPhase::InShell { force: c == 1 }) && final(self).result == old(self).result
                    } else if c == 2 {
                        final(self).phase is Removing && final(self).result == old(self).result
                    } else {
                        final(self).phase is Aborted && final(self).result.aborted
                            && final(self).result.applied_cleanly == old(self).result.applied_cleanly
                            && final(self).result.fixed_interactively == old(self).result.fixed_interactively
                            && final(self).result.skipped == old(self).result.skipped
                    }),
                (PatchPhase::InShell { .. }, PatchEvent::ShellExited(ok)) => final(self).phase is Ready
                    && final(self).current == old(self).current + 1
                    && final(self).result.applied_cleanly == old(self).result.applied_cleanly
                    && final(self).result.fixed_interactively == old(self).result.fixed_interactively + (if ok { 1int } else { 0int })
                    && final(self).result.skipped == old(self).result.skipped + (if ok { 0int } else { 1int }),
                (PatchPhase::Removing, PatchEvent::Removed) => final(self).phase is Ready
                    && final(self).current == old(self).current + 1
                    && final(self).result.skipped == old(self).result.skipped + 1
                    && final(self).result.applied_cleanly == old(self).result.applied_cleanly
                    && final(self).result.fixed_interactively == old(self).result.fixed_interactively,
                _ => false,
            },
    {
        let n = self.patches.len();
        assert(self.current < n || !(self.phase is Ready));
        match (&self.phase, e) {
            (PatchPhase::Ready, PatchEvent::Pushed(ok)) => {
                if ok {
                    self.result.applied_cleanly = self.result.applied_cleanly + 1;
                    self.current = self.current + 1;
                } else if self.interactive {
                    self.phase = PatchPhase::Asking;
                } else {
                    self.result.skipped = self.result.skipped + 1;
                    self.current = self.current + 1;
                }
            },
            (PatchPhase::Asking, PatchEvent::Chose(c)) => {
                if c == 0 || c == 1 {
                    self.phase = PatchPhase::InShell { force: c == 1 };
                } else if c == 2 {
                    self.phase = PatchPhase::Removing;
                } else {
                    self.result.aborted = true;
                    self.phase = PatchPhase::Aborted;
                }
            },
            (PatchPhase::InShell { .. }, PatchEvent::ShellExited(ok)) => {
                if ok {
                    self.result.fixed_interactively = self.result.fixed_interactively + 1;
                } else {
                    self.result.skipped = self.result.skipped + 1;
                }
                self.current = self.current + 1;
                self.phase = PatchPhase::Ready;
            },
            (PatchPhase::Removing, PatchEvent::Removed) => {
                self.result.skipped = self.result.skipped + 1;
                self.current = self.current + 1;
                self.phase = PatchPhase::Ready;
            },
            _ => {},
        }
    }
}

/// A finished run that was not aborted has counted every patch of the
/// series exactly once.
pub proof fn lemma_finished_run_counts_every_patch(s: PatchSession)
    requires
        s.wf(),
        s.phase is Ready,
        s.current >= s.patches@.len(),
    ensures
        s.result.applied_cleanly + s.result.fixed_interactively + s.result.skipped == s.patches@.len(),
        !s.result.aborted,
{
}

/// Every patch a series file lists is a non-empty name that is not a
/// comment.
pub proof fn lemma_series_entries_are_names(content: Seq<char>)
    ensures
        forall|i: int| 0 <= i < series_spec(content).len() ==> {
            let p = #[trigger] series_spec(content)[i];
            p.len() > 0 && !text::starts_with_spec(p, "#"@)
        },
{
    lemma_patch_lines_are_names(text::lines_spec(content));
}

proof fn lemma_patch_lines_are_names(ls: Seq<Seq<char>>)
    ensures
        forall|i: int| 0 <= i < patch_lines(ls).len() ==> {
            let p = #[trigger] patch_lines(ls)[i];
            p.len() > 0 && !text::starts_with_spec(p, "#"@)
        },
    decreases ls.len(),
{
    if ls.len() > 0 {
        lemma_patch_lines_are_names(ls.drop_last());
        let a = patch_lines(ls.drop_last());
        let b = patch_line(ls.last());
        assert forall|i: int| 0 <= i < patch_lines(ls).len() implies {
            let p = #[trigger] patch_lines(ls)[i];
            p.len() > 0 && !text::starts_with_spec(p, "#"@)
        } by {
            if i < a.len() {
                assert(patch_lines(ls)[i] == a[i]);
            } else {
                assert(patch_lines(ls)[i] == b[i - a.len()]);
            }
        }
    }
}

/// A trimmed series line that names a patch: not empty and not a comment.
pub open spec fn names_patch(t: Seq<char>) -> bool {
    t.len() > 0 && !text::starts_with_spec(t, "#"@)
}

proof fn lemma_patch_lines_filter(ls: Seq<Seq<char>>)
    ensures
        patch_lines(ls) == ls.map_values(|l: Seq<char>| text::trim_spec(l)).filter(|t: Seq<char>| names_patch(t)),
    decreases ls.len(),
{
    reveal(Seq::filter);
    let f = |l: Seq<char>| text::trim_spec(l);
    let pred = |t: Seq<char>| names_patch(t);
    let m = ls.map_values(f);
    if ls.len() == 0 {
        assert(m =~= Seq::<Seq<char>>::empty());
        assert(m.filter(pred) =~= Seq::<Seq<char>>::empty());
    } else {
        lemma_patch_lines_filter(ls.drop_last());
        assert(m.drop_last() =~= ls.drop_last().map_values(f));
        assert(m.last() == text::trim_spec(ls.last()));
        let sub = ls.drop_last().map_values(f).filter(pred);
        if pred(m.last()) {
            assert(m.filter(pred) == sub.push(m.last()));
            assert(patch_line(ls.last()) =~= seq![m.last()]);
        } else {
            assert(m.filter(pred) == sub);
            assert(patch_line(ls.last()) =~= Seq::<Seq<char>>::empty());
        }
        assert(patch_lines(ls) =~= m.filter(pred));
    }
}

/// The patches of a series file are exactly its lines, trimmed, that are
/// neither empty nor comments, every one of them and in their order.
pub proof fn lemma_series_lists_every_patch_line(content: Seq<char>)
    ensures
        series_spec(content) == text::lines_spec(content).map_values(|l: Seq<char>| text::trim_spec(l))
            .filter(|t: Seq<char>| names_patch(t)),
{
    lemma_patch_lines_filter(text::lines_spec(content));
}

/// Removing a patch keeps every other line of the series, untouched and in
/// its order: exactly the lines whose trimmed text is not the patch's name.
pub proof fn lemma_removal_keeps_other_lines(ls: Seq<Seq<char>>, name: Seq<char>)
    ensures
        kept_lines(ls, name) == ls.filter(|l: Seq<char>| text::trim_spec(l) != name),
    decreases ls.len(),
{
    reveal(Seq::filter);
    let pred = |l: Seq<char>| text::trim_spec(l) != name;
    if ls.len() == 0 {
        assert(ls.filter(pred) =~= Seq::<Seq<char>>::empty());
    } else {
        lemma_removal_keeps_other_lines(ls.drop_last(), name);
        let sub = ls.drop_last().filter(pred);
        if pred(ls.last()) {
            assert(ls.filter(pred) == sub.push(ls.last()));
        } else {
            assert(ls.filter(pred) == sub);
        }
        assert(kept_lines(ls, name) =~= ls.filter(pred));
    }
}

/// No line left in a series file after removing a patch names that patch.
pub proof fn lemma_removed_patch_is_gone(ls: Seq<Seq<char>>, name: Seq<char>)
    ensures
        forall|i: int| 0 <= i < kept_lines(ls, name).len() ==> text::trim_spec(#[trigger] kept_lines(ls, name)[i]) != name,
    decreases ls.len(),
{
    if ls.len() > 0 {
        lemma_removed_patch_is_gone(ls.drop_last(), name);
        let a = kept_lines(ls.drop_last(), name);
        assert forall|i: int| 0 <= i < kept_lines(ls, name).len() implies text::trim_spec(#[trigger] kept_lines(ls, name)[i]) != name by {
            if i < a.len() {
                assert(kept_lines(ls, name)[i] == a[i]);
            } else {
                assert(kept_lines(ls, name)[i] == ls.last());
            }
        }
    }
}

/// A summary says `no patches to test` exactly when nothing was counted
/// and the run was not aborted.
pub proof fn lemma_summary_empty_iff(r: PatchTestResult)
    ensures
        summary_parts(r).len() == 0 <==> (r.applied_cleanly == 0 && r.fixed_interactively == 0 && r.skipped == 0 && !r.aborted),
{
}

} // verus!
