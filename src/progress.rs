//! One source's progress bar: its state, the messages that change it, and its
//! text rendering.

use vstd::prelude::*;

use crate::protocol::{ProgressMessage, ProgressMessageView};
use crate::text::{pad_left, pad_right, push_padded_left, push_padded_right, push_repeat, repeat, string_of_chars};

verus! {

/// The failure of a progress-bar operation.
#[derive(Clone, Copy, Debug, PartialEq, Eq, Structural)]
pub enum ProgressError {
    CommunicationError,
    /// A bar of that name is already registered.
    DuplicateName,
}

impl ProgressError {
    /// A sentence describing the failure.
    pub fn describe(&self) -> (r: String)
        ensures
            r@ == (match self {
                ProgressError::CommunicationError => "Failed to communicate with progress bar"@,
                ProgressError::DuplicateName => "A progress bar of that name already exists"@,
            }),
    {
        match self {
            ProgressError::CommunicationError => String::from_str("Failed to communicate with progress bar"),
            ProgressError::DuplicateName => String::from_str("A progress bar of that name already exists"),
        }
    }
}

/// The displayable state of one bar.
pub struct BarState {
    pub name: Seq<char>,
    pub progress: usize,
    pub max: usize,
    pub status: Seq<char>,
}

impl BarState {
    /// The state of a freshly registered bar.
    pub open spec fn fresh(name: Seq<char>) -> BarState {
        BarState { name, progress: 0, max: 0, status: Seq::empty() }
    }

    /// The status after a message that may carry one.
    pub open spec fn status_after(self, status: Option<Seq<char>>) -> Seq<char> {
        match status {
            Some(s) => s,
            None => self.status,
        }
    }

    /// The state after applying one message.
    pub open spec fn apply(self, m: ProgressMessageView) -> BarState {
        match m {
            ProgressMessageView::SetMax { max, status } => BarState {
                max,
                status: self.status_after(status),
                ..self
            },
            ProgressMessageView::SetProgress { progress, status } => BarState {
                progress,
                status: self.status_after(status),
                ..self
            },
            ProgressMessageView::SetStatus { status } => BarState { status, ..self },
            ProgressMessageView::Reset => BarState::fresh(self.name),
        }
    }

    /// The state after applying each message of `ms` in turn.
    pub open spec fn apply_all(self, ms: Seq<ProgressMessageView>) -> BarState
        decreases ms.len(),
    {
        if ms.len() == 0 {
            self
        } else {
            self.apply_all(ms.drop_last()).apply(ms.last())
        }
    }
}

/// The first failure of two results, or success when neither failed.
fn first_failure(a: Result<(), ProgressError>, b: Result<(), ProgressError>) -> (r: Result<(), ProgressError>)
    ensures
        r == (if a is Err { a } else { b }),
{
    match a {
        Err(e) => Err(e),
        Ok(()) => b,
    }
}

/// Something that shows the progress of one source.
pub trait ProgressBar {
    /// What the bar currently shows.
    spec fn bar_state(&self) -> BarState;

    /// Whether every operation on this bar succeeds. No operation changes it.
    spec fn infallible(&self) -> bool;

    fn set_status(&mut self, status: String) -> (r: Result<(), ProgressError>)
        ensures
            final(self).bar_state() == (BarState { status: status@, ..old(self).bar_state() }),
            final(self).infallible() == old(self).infallible(),
            old(self).infallible() ==> r is Ok,
    ;

    fn set_max(&mut self, max: usize) -> (r: Result<(), ProgressError>)
        ensures
            final(self).bar_state() == (BarState { max, ..old(self).bar_state() }),
            final(self).infallible() == old(self).infallible(),
            old(self).infallible() ==> r is Ok,
    ;

    fn set_progress(&mut self, progress: usize) -> (r: Result<(), ProgressError>)
        ensures
            final(self).bar_state() == (BarState { progress, ..old(self).bar_state() }),
            final(self).infallible() == old(self).infallible(),
            old(self).infallible() ==> r is Ok,
    ;

    fn reset(&mut self) -> (r: Result<(), ProgressError>)
        ensures
            final(self).bar_state() == BarState::fresh(old(self).bar_state().name),
            final(self).infallible() == old(self).infallible(),
            old(self).infallible() ==> r is Ok,
    ;

    /// Publishes the current state; the state itself does not change.
    fn flush(&mut self) -> (r: Result<(), ProgressError>)
        ensures
            final(self).bar_state() == old(self).bar_state(),
            final(self).infallible() == old(self).infallible(),
            old(self).infallible() ==> r is Ok,
    ;

    /// Applies one protocol message, then flushes. Every step is carried out,
    /// even after one of them failed; a bar that never fails reports success.
    fn handle_message(&mut self, message: ProgressMessage) -> (r: Result<(), ProgressError>)
        ensures
            final(self).bar_state() == old(self).bar_state().apply(message@),
            final(self).infallible() == old(self).infallible(),
            old(self).infallible() ==> r is Ok,
    {
        let applied = match message {
            ProgressMessage::SetMax { max, status } => {
                let first = self.set_max(max);
                match status {
                    Some(status) => first_failure(first, self.set_status(status)),
                    None => first,
                }
            },
            ProgressMessage::SetProgress { progress, status } => {
                let first = self.set_progress(progress);
                match status {
                    Some(status) => first_failure(first, self.set_status(status)),
                    None => first,
                }
            },
            ProgressMessage::SetStatus { status } => self.set_status(status),
            ProgressMessage::Reset => self.reset(),
        };
        let flushed = self.flush();
        first_failure(applied, flushed)
    }
}

} // verus!

verus! {

/// Number of `=` cells in a bar of `inner` cells: the nearest integer to
/// `inner * progress / max` (halves round up), with `progress` clamped to
/// `max`, and no cell at all when `max` is zero.
pub open spec fn filled_cells(progress: usize, max: usize, inner: nat) -> nat {
    if max == 0 {
        0
    } else {
        let shown = if progress <= max { progress } else { max };
        ((inner * shown + max / 2) / (max as int)) as nat
    }
}

/// The bracketed bar, `width` characters wide (`width >= 2`).
pub open spec fn bar_text(progress: usize, max: usize, width: nat) -> Seq<char> {
    let inner = (width - 2) as nat;
    let filled = filled_cells(progress, max, inner);
    seq!['['] + repeat('=', filled) + repeat(' ', (inner - filled) as nat) + seq![']']
}

/// One rendered line: the name right-aligned, the bar, the status
/// left-aligned, separated by single spaces.
pub open spec fn rendered(b: BarState, name_width: nat, bar_width: nat, status_width: nat) -> Seq<char> {
    pad_left(b.name, name_width) + seq![' '] + bar_text(b.progress, b.max, bar_width) + seq![' ']
        + pad_right(b.status, status_width)
}

/// A full bar has no blank cell, and a bar whose maximum is zero has no
/// filled cell.
pub proof fn filled_cells_extremes(progress: usize, max: usize, inner: nat)
    ensures
        0 < max <= progress ==> filled_cells(progress, max, inner) == inner,
        max == 0 ==> filled_cells(progress, max, inner) == 0,
        filled_cells(progress, max, inner) <= inner,
{
    if max > 0 {
        let shown: int = if progress <= max { progress as int } else { max as int };
        let m = max as int;
        let i = inner as int;
        assert(i * shown <= i * m) by (nonlinear_arith)
            requires 0 <= shown <= m, 0 <= i;
        assert((i * shown + m / 2) / m <= i) by (nonlinear_arith)
            requires i * shown <= i * m, m > 0, 0 <= m / 2 < m;
        if max <= progress {
            assert((i * m + m / 2) / m == i) by (nonlinear_arith)
                requires m > 0, 0 <= m / 2 < m;
        }
    }
}

/// Filled cells of a bar, computed without overflow.
fn compute_filled(progress: usize, max: usize, inner: usize) -> (r: usize)
    ensures
        r == filled_cells(progress, max, inner as nat),
        r <= inner,
{
    proof {
        filled_cells_extremes(progress, max, inner as nat);
    }
    if max == 0 {
        0
    } else {
        let shown: usize = if progress <= max { progress } else { max };
        let i = inner as u128;
        let s = shown as u128;
        let m = max as u128;
        assert(i * s <= 0xffff_ffff_ffff_ffffu128 * 0xffff_ffff_ffff_ffffu128) by (nonlinear_arith)
            requires i <= 0xffff_ffff_ffff_ffffu128, s <= 0xffff_ffff_ffff_ffffu128;
        let product = i * s;
        let q = (product + m / 2) / m;
        q as usize
    }
}

/// The in-memory state of one source's bar.
pub struct TextBar {
    name: String,
    progress: usize,
    max: usize,
    status: String,
}

impl View for TextBar {
    type V = BarState;

    closed spec fn view(&self) -> BarState {
        BarState { name: self.name@, progress: self.progress, max: self.max, status: self.status@ }
    }
}

impl TextBar {
    pub fn new(name: String) -> (r: TextBar)
        ensures
            r@ == BarState::fresh(name@),
    {
        TextBar { name: name, progress: 0, max: 0, status: String::new() }
    }

    /// Renders the bar as one line of text. The bar proper is `bar_width`
    /// characters wide; name and status are padded to their widths.
    pub fn render(&self, name_width: usize, bar_width: usize, status_width: usize) -> (r: String)
        requires
            bar_width >= 2,
        ensures
            r@ == rendered(self@, name_width as nat, bar_width as nat, status_width as nat),
    {
        let inner = bar_width - 2;
        let filled = compute_filled(self.progress, self.max, inner);
        let mut out: Vec<char> = Vec::new();
        push_padded_left(&mut out, self.name.as_str(), name_width);
        out.push(' ');
        out.push('[');
        push_repeat(&mut out, '=', filled);
        push_repeat(&mut out, ' ', inner - filled);
        out.push(']');
        out.push(' ');
        push_padded_right(&mut out, self.status.as_str(), status_width);
        assert(out@ =~= rendered(self@, name_width as nat, bar_width as nat, status_width as nat));
        string_of_chars(&out)
    }

    pub fn name(&self) -> (r: &String)
        ensures
            r@ == self@.name,
    {
        &self.name
    }

    pub fn progress(&self) -> (r: usize)
        ensures
            r == self@.progress,
    {
        self.progress
    }

    pub fn max(&self) -> (r: usize)
        ensures
            r == self@.max,
    {
        self.max
    }

    pub fn status(&self) -> (r: &String)
        ensures
            r@ == self@.status,
    {
        &self.status
    }
}

impl ProgressBar for TextBar {
    open spec fn bar_state(&self) -> BarState {
        self@
    }

    open spec fn infallible(&self) -> bool {
        true
    }

    fn set_status(&mut self, status: String) -> (r: Result<(), ProgressError>) {
        self.status = status;
        Ok(())
    }

    fn set_max(&mut self, max: usize) -> (r: Result<(), ProgressError>) {
        self.max = max;
        Ok(())
    }

    fn set_progress(&mut self, progress: usize) -> (r: Result<(), ProgressError>) {
        self.progress = progress;
        Ok(())
    }

    fn reset(&mut self) -> (r: Result<(), ProgressError>) {
        self.progress = 0;
        self.max = 0;
        self.status = String::new();
        Ok(())
    }

    fn flush(&mut self) -> (r: Result<(), ProgressError>) {
        Ok(())
    }
}

} // verus!

verus! {

/// The maximum that a run of messages sets: that of the last `SetMax`, or
/// zero when none came or a `Reset` came after it.
pub open spec fn last_max(ms: Seq<ProgressMessageView>) -> usize
    decreases ms.len(),
{
    if ms.len() == 0 {
        0
    } else {
        match ms.last() {
            ProgressMessageView::SetMax { max, .. } => max,
            ProgressMessageView::Reset => 0,
            _ => last_max(ms.drop_last()),
        }
    }
}

/// The progress that a run of messages sets: that of the last `SetProgress`,
/// or zero when none came or a `Reset` came after it.
pub open spec fn last_progress(ms: Seq<ProgressMessageView>) -> usize
    decreases ms.len(),
{
    if ms.len() == 0 {
        0
    } else {
        match ms.last() {
            ProgressMessageView::SetProgress { progress, .. } => progress,
            ProgressMessageView::Reset => 0,
            _ => last_progress(ms.drop_last()),
        }
    }
}

/// After any run of messages applied to a fresh bar, its maximum and progress
/// are those that the last `SetMax` and `SetProgress` carried (zero when there
/// was none, or a `Reset` followed), and its name is unchanged.
pub proof fn messages_set_counts(name: Seq<char>, ms: Seq<ProgressMessageView>)
    ensures
        BarState::fresh(name).apply_all(ms).max == last_max(ms),
        BarState::fresh(name).apply_all(ms).progress == last_progress(ms),
        BarState::fresh(name).apply_all(ms).name == name,
    decreases ms.len(),
{
    if ms.len() > 0 {
        messages_set_counts(name, ms.drop_last());
    }
}

/// `Reset` brings any bar back to zero progress, zero maximum and an empty
/// status, keeping its name.
pub proof fn reset_restores(s: BarState)
    ensures
        s.apply(ProgressMessageView::Reset) == BarState::fresh(s.name),
        s.apply(ProgressMessageView::Reset).progress == 0,
        s.apply(ProgressMessageView::Reset).max == 0,
        s.apply(ProgressMessageView::Reset).status == Seq::<char>::empty(),
{
}

/// Rendering reads the state only: two renderings of one state with the same
/// widths are the same text.
pub proof fn render_is_idempotent(s: BarState, name_width: nat, bar_width: nat, status_width: nat, first: Seq<char>, second: Seq<char>)
    requires
        first == rendered(s, name_width, bar_width, status_width),
        second == rendered(s, name_width, bar_width, status_width),
    ensures
        first == second,
{
}

} // verus!
