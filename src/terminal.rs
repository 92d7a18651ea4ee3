//! The set of bars of one collection run, fed by the events of every source,
//! and the lines that show them.

use vstd::prelude::*;

use crate::progress::{rendered, BarState, ProgressBar, ProgressError, TextBar};
use crate::protocol::{Error, Message, MessageView, ProgressMessageView};
use crate::text::{text_less, text_less_irreflexive, text_less_total, text_less_transitive, text_lt};

verus! {

/// Why a source did not complete.
#[derive(Clone, Copy, Debug, PartialEq, Eq, Structural)]
pub enum FailReason {
    /// The plugin could not be started.
    SpawnFailed,
    /// Reading the plugin's output failed.
    ReadFailed,
    /// The plugin exited with a failure.
    ExitFailure,
    /// The output closed without `Done`.
    ClosedWithoutDone,
}

impl FailReason {
    /// Why the source failed, in words.
    pub fn describe(&self) -> (r: &'static str)
        ensures
            r@ == (match self {
                FailReason::SpawnFailed => "it could not be started"@,
                FailReason::ReadFailed => "its output could not be read"@,
                FailReason::ExitFailure => "it exited with a failure"@,
                FailReason::ClosedWithoutDone => "it stopped without reporting completion"@,
            }),
    {
        match self {
            FailReason::SpawnFailed => "it could not be started",
            FailReason::ReadFailed => "its output could not be read",
            FailReason::ExitFailure => "it exited with a failure",
            FailReason::ClosedWithoutDone => "it stopped without reporting completion",
        }
    }
}

/// Where one source stands in the run.
#[derive(Clone, Copy, Debug, PartialEq, Eq, Structural)]
pub enum Outcome {
    Pending,
    Completed,
    Failed(FailReason),
}

/// What a source's forwarding unit reports.
#[derive(Debug)]
pub enum Payload {
    /// One line of output: a message, or why it is none.
    Line(Result<Message, Error>),
    /// The output reached its end; the exit status tells whether the plugin
    /// succeeded, when it is known.
    Closed { exit_success: Option<bool> },
    /// The plugin could not be started; the system's message.
    SpawnFailed(String),
}

/// One report of a forwarding unit, tagged with its source's name.
#[derive(Debug)]
pub struct Event {
    pub source: String,
    pub payload: Payload,
}

pub enum PayloadView {
    Received(MessageView),
    DecodeFailed,
    ReadFailed,
    Closed(Option<bool>),
    SpawnFailed,
}

impl View for Payload {
    type V = PayloadView;

    open spec fn view(&self) -> PayloadView {
        match self {
            Payload::Line(Ok(m)) => PayloadView::Received(m@),
            Payload::Line(Err(Error::DeserializationError(_, _))) => PayloadView::DecodeFailed,
            Payload::Line(Err(Error::IoError(_))) => PayloadView::ReadFailed,
            Payload::Closed { exit_success } => PayloadView::Closed(*exit_success),
            Payload::SpawnFailed(_) => PayloadView::SpawnFailed,
        }
    }
}

/// What the run knows of one source.
pub struct EntryView {
    pub bar: BarState,
    pub outcome: Outcome,
    pub decode_errors: usize,
    /// Whether the source has sent `Done`.
    pub done: bool,
}

/// A source's outcome once `next` has happened: the first settled outcome
/// stays.
pub open spec fn settle(current: Outcome, next: Outcome) -> Outcome {
    if current is Pending {
        next
    } else {
        current
    }
}

/// `n + 1`, held at `usize::MAX`.
pub open spec fn bump(n: usize) -> usize {
    if n < usize::MAX {
        (n + 1) as usize
    } else {
        n
    }
}

/// The outcome that the end of a source's output settles on: a failed exit
/// fails the source; otherwise it completed if it sent `Done` first.
pub open spec fn end_outcome(done: bool, exit: Option<bool>) -> Outcome {
    if exit == Some(false) {
        Outcome::Failed(FailReason::ExitFailure)
    } else if done {
        Outcome::Completed
    } else {
        Outcome::Failed(FailReason::ClosedWithoutDone)
    }
}

/// What one report does to its source's entry. A source settles when its
/// output ends, or earlier when it fails.
pub open spec fn step(e: EntryView, p: PayloadView) -> EntryView {
    match p {
        PayloadView::Received(MessageView::Progress(m)) => EntryView { bar: e.bar.apply(m), ..e },
        PayloadView::Received(MessageView::Done) => EntryView { done: true, ..e },
        PayloadView::Received(MessageView::Starting) => e,
        PayloadView::DecodeFailed => EntryView { decode_errors: bump(e.decode_errors), ..e },
        PayloadView::ReadFailed => EntryView {
            outcome: settle(e.outcome, Outcome::Failed(FailReason::ReadFailed)),
            ..e
        },
        PayloadView::Closed(exit) => EntryView { outcome: settle(e.outcome, end_outcome(e.done, exit)), ..e },
        PayloadView::SpawnFailed => EntryView {
            outcome: settle(e.outcome, Outcome::Failed(FailReason::SpawnFailed)),
            ..e
        },
    }
}

/// Whether a report changes what a bar shows.
pub open spec fn changes_bar(p: PayloadView) -> bool {
    p matches PayloadView::Received(MessageView::Progress(_))
}

/// Whether some entry carries the name `source`.
pub open spec fn known(entries: Seq<EntryView>, source: Seq<char>) -> bool {
    exists|i: int| 0 <= i < entries.len() && #[trigger] entries[i].bar.name == source
}

/// The entries after a report from `source`: the entry of that name takes the
/// report, every other entry stays as it was.
pub open spec fn route(entries: Seq<EntryView>, source: Seq<char>, p: PayloadView) -> Seq<EntryView> {
    entries.map_values(|e: EntryView| if e.bar.name == source { step(e, p) } else { e })
}

/// Bars whose names strictly increase.
pub open spec fn names_increase(bars: Seq<BarState>) -> bool {
    forall|i: int, j: int| 0 <= i < j < bars.len() ==> #[trigger] text_less(bars[i].name, bars[j].name)
}

/// Strictly increasing names are distinct.
pub proof fn increasing_names_distinct(bars: Seq<BarState>, i: int, j: int)
    requires
        names_increase(bars),
        0 <= i < bars.len(),
        0 <= j < bars.len(),
        i != j,
    ensures
        bars[i].name != bars[j].name,
{
    if i < j {
        assert(text_less(bars[i].name, bars[j].name));
        if bars[i].name == bars[j].name {
            text_less_irreflexive(bars[i].name);
        }
    } else {
        assert(text_less(bars[j].name, bars[i].name));
        if bars[i].name == bars[j].name {
            text_less_irreflexive(bars[i].name);
        }
    }
}

/// The bars of a run being assembled, kept in order of their names.
pub struct TerminalBarsBuilder {
    bars: Vec<TextBar>,
}

impl TerminalBarsBuilder {
    /// The bars registered so far, in order of their names.
    pub closed spec fn bars(&self) -> Seq<BarState> {
        self.bars@.map_values(|b: TextBar| b@)
    }

    #[verifier::type_invariant]
    closed spec fn inv(&self) -> bool {
        names_increase(self.bars())
    }

    pub fn new() -> (r: TerminalBarsBuilder)
        ensures
            r.bars() == Seq::<BarState>::empty(),
    {
        let r = TerminalBarsBuilder { bars: Vec::new() };
        assert(r.bars() =~= Seq::<BarState>::empty());
        r
    }

    /// Registers a fresh bar for `name`, at its place in the order of names.
    /// A name that is already registered is refused.
    pub fn add_bar(&mut self, name: String) -> (r: Result<(), ProgressError>)
        ensures
            r is Err <==> exists|i: int| 0 <= i < old(self).bars().len() && #[trigger] old(self).bars()[i].name == name@,
            r is Err ==> r == Err::<(), ProgressError>(ProgressError::DuplicateName) && final(self).bars() == old(self).bars(),
            r is Ok ==> exists|p: int| 0 <= p <= old(self).bars().len()
                && final(self).bars() == old(self).bars().insert(p, BarState::fresh(name@)),
            names_increase(final(self).bars()),
    {
        proof {
            use_type_invariant(&*self);
        }
        let n = self.bars.len();
        let mut p: usize = 0;
        while p < n
            invariant
                n == self.bars@.len(),
                p <= n,
                names_increase(self.bars()),
                forall|i: int| 0 <= i < p ==> #[trigger] text_less(self.bars()[i].name, name@),
            ensures
                p < n ==> !text_less(self.bars()[p as int].name, name@),
            decreases n - p,
        {
            assert(self.bars()[p as int] == self.bars@[p as int]@);
            if !text_lt(self.bars[p].name().as_str(), name.as_str()) {
                break;
            }
            p = p + 1;
        }
        let old_bars = Ghost(self.bars());
        assert(forall|i: int| 0 <= i < p ==> #[trigger] old_bars@[i].name != name@) by {
            assert forall|i: int| 0 <= i < p implies #[trigger] old_bars@[i].name != name@ by {
                assert(text_less(old_bars@[i].name, name@));
                if old_bars@[i].name == name@ {
                    text_less_irreflexive(name@);
                }
            }
        }
        if p < n {
            assert(self.bars()[p as int] == self.bars@[p as int]@);
            if *self.bars[p].name() == name {
                assert(old_bars@[p as int].name == name@);
                return Err(ProgressError::DuplicateName);
            }
            assert(text_less(name@, old_bars@[p as int].name)) by {
                text_less_total(name@, old_bars@[p as int].name);
            }
            assert forall|j: int| p <= j < n implies #[trigger] text_less(name@, old_bars@[j].name) && old_bars@[j].name != name@ by {
                if j > p {
                    assert(text_less(old_bars@[p as int].name, old_bars@[j].name));
                    text_less_transitive(name@, old_bars@[p as int].name, old_bars@[j].name);
                }
                text_less_irreflexive(name@);
            }
        }
        let ghost fresh = BarState::fresh(name@);
        let bar = TextBar::new(name);
        let mut taken = TerminalBarsBuilder { bars: Vec::new() };
        assert(taken.bars() =~= Seq::<BarState>::empty());
        std::mem::swap(self, &mut taken);
        let mut bars = taken.bars;
        bars.insert(p, bar);
        proof {
            let new_bars = bars@.map_values(|b: TextBar| b@);
            assert(new_bars =~= old_bars@.insert(p as int, fresh));
            assert forall|i: int, j: int| 0 <= i < j < new_bars.len() implies #[trigger] text_less(new_bars[i].name, new_bars[j].name) by {
                if j < p {
                    assert(text_less(old_bars@[i].name, old_bars@[j].name));
                } else if j == p {
                } else if i < p {
                    assert(text_less(old_bars@[i].name, name@));
                    assert(text_less(name@, old_bars@[j - 1].name));
                    text_less_transitive(old_bars@[i].name, name@, old_bars@[j - 1].name);
                } else if i == p {
                } else {
                    assert(text_less(old_bars@[i - 1].name, old_bars@[j - 1].name));
                }
            }
        }
        *self = TerminalBarsBuilder { bars };
        Ok(())
    }

    /// Starts the run: every registered source is pending.
    pub fn build(self) -> (r: TerminalBars)
        ensures
            r.entries().len() == self.bars().len(),
            forall|i: int| 0 <= i < self.bars().len() ==> #[trigger] r.entries()[i] == (EntryView {
                bar: self.bars()[i],
                outcome: Outcome::Pending,
                decode_errors: 0,
                done: false,
            }),
            r.applied() == 0,
    {
        proof {
            use_type_invariant(&self);
        }
        let ghost bars = self.bars();
        let mut entries: Vec<Entry> = Vec::new();
        let mut rest = self.bars;
        let mut k: usize = 0;
        let n = rest.len();
        while rest.len() > 0
            invariant
                k + rest@.len() == n,
                n == bars.len(),
                entries@.len() == k,
                forall|i: int| 0 <= i < rest@.len() ==> #[trigger] rest@[i]@ == bars[k + i],
                forall|i: int| 0 <= i < k ==> #[trigger] entries@[i].view() == (EntryView {
                    bar: bars[i],
                    outcome: Outcome::Pending,
                    decode_errors: 0,
                    done: false,
                }),
            decreases rest@.len(),
        {
            let bar = rest.remove(0);
            entries.push(Entry { bar, outcome: Outcome::Pending, decode_errors: 0, done: false });
            k = k + 1;
        }
        let r = TerminalBars { entries, applied: 0 };
        proof {
            assert forall|i: int, j: int| 0 <= i < j < r.entries().len() implies #[trigger] text_less(r.entries()[i].bar.name, r.entries()[j].bar.name) by {
                assert(r.entries()[i] == entries@[i].view());
                assert(r.entries()[j] == entries@[j].view());
                assert(text_less(bars[i].name, bars[j].name));
            }
        }
        r
    }
}

/// A source's bar with what the run knows of the source.
struct Entry {
    bar: TextBar,
    outcome: Outcome,
    decode_errors: usize,
    done: bool,
}

impl View for Entry {
    type V = EntryView;

    closed spec fn view(&self) -> EntryView {
        EntryView { bar: self.bar@, outcome: self.outcome, decode_errors: self.decode_errors, done: self.done }
    }
}

/// The running set of bars: the single owner of every bar's state.
pub struct TerminalBars {
    entries: Vec<Entry>,
    applied: usize,
}

impl TerminalBars {
    /// Every source's entry, in order of the sources' names.
    pub closed spec fn entries(&self) -> Seq<EntryView> {
        self.entries@.map_values(|e: Entry| e@)
    }

    /// How many progress messages were applied to bars, held at
    /// `usize::MAX`.
    pub closed spec fn applied(&self) -> usize {
        self.applied
    }

    #[verifier::type_invariant]
    closed spec fn inv(&self) -> bool {
        forall|i: int, j: int| 0 <= i < j < self.entries@.len() ==> #[trigger] text_less(self.entries@[i]@.bar.name, self.entries@[j]@.bar.name)
    }

    /// Whether every source has settled.
    pub open spec fn all_settled(entries: Seq<EntryView>) -> bool {
        forall|i: int| 0 <= i < entries.len() ==> !(#[trigger] entries[i].outcome is Pending)
    }
}

impl Entry {
    /// Applies one report to this entry.
    fn take(&mut self, payload: Payload) -> (changed: bool)
        ensures
            final(self)@ == step(old(self)@, payload@),
            changed == changes_bar(payload@),
    {
        match payload {
            Payload::Line(Ok(Message::Progress { message })) => {
                let _ = self.bar.handle_message(message);
                true
            },
            Payload::Line(Ok(Message::Done)) => {
                self.done = true;
                false
            },
            Payload::Line(Ok(Message::Starting)) => false,
            Payload::Line(Err(Error::DeserializationError(_, _))) => {
                if self.decode_errors < usize::MAX {
                    self.decode_errors = self.decode_errors + 1;
                }
                false
            },
            Payload::Line(Err(Error::IoError(_))) => {
                self.settle(Outcome::Failed(FailReason::ReadFailed));
                false
            },
            Payload::Closed { exit_success } => {
                let end = match exit_success {
                    Some(false) => Outcome::Failed(FailReason::ExitFailure),
                    _ => if self.done {
                        Outcome::Completed
                    } else {
                        Outcome::Failed(FailReason::ClosedWithoutDone)
                    },
                };
                self.settle(end);
                false
            },
            Payload::SpawnFailed(_) => {
                self.settle(Outcome::Failed(FailReason::SpawnFailed));
                false
            },
        }
    }

    fn settle(&mut self, next: Outcome)
        ensures
            final(self)@ == (EntryView { outcome: settle(old(self)@.outcome, next), ..old(self)@ }),
    {
        if let Outcome::Pending = self.outcome {
            self.outcome = next;
        }
    }
}

impl TerminalBars {
    /// Applies one report of a forwarding unit to its source's entry and tells
    /// whether the display needs redrawing. A report for a name that no bar
    /// carries changes nothing.
    pub fn handle_event(&mut self, event: Event) -> (redraw: bool)
        ensures
            final(self).entries() == route(old(self).entries(), event.source@, event.payload@),
            redraw == (known(old(self).entries(), event.source@) && changes_bar(event.payload@)),
            final(self).applied() == (if redraw { bump(old(self).applied()) } else { old(self).applied() }),
    {
        proof {
            use_type_invariant(&*self);
        }
        let ghost before = self.entries();
        let n = self.entries.len();
        let mut i: usize = 0;
        while i < n
            invariant
                n == self.entries@.len(),
                i <= n,
                before == self.entries(),
                forall|k: int| 0 <= k < i ==> #[trigger] before[k].bar.name != event.source@,
            ensures
                i < n ==> before[i as int].bar.name == event.source@,
            decreases n - i,
        {
            assert(before[i as int] == self.entries@[i as int]@);
            if *self.entries[i].bar.name() == event.source {
                break;
            }
            i = i + 1;
        }
        if i == n {
            assert(self.entries() =~= route(before, event.source@, event.payload@));
            return false;
        }
        proof {
            assert forall|k: int| 0 <= k < n && #[trigger] before[k].bar.name == event.source@ implies k == i by {
                if k != i {
                    let bars = before.map_values(|e: EntryView| e.bar);
                    assert forall|a: int, b: int| 0 <= a < b < bars.len() implies #[trigger] text_less(bars[a].name, bars[b].name) by {
                        assert(self.entries@[a]@ == before[a]);
                        assert(self.entries@[b]@ == before[b]);
                    }
                    crate::terminal::increasing_names_distinct(bars, k, i as int);
                }
            }
        }
        let ghost payload = event.payload@;
        let mut taken = TerminalBars { entries: Vec::new(), applied: 0 };
        std::mem::swap(self, &mut taken);
        let mut entries = taken.entries;
        let mut applied = taken.applied;
        let changed = entries[i].take(event.payload);
        if changed && applied < usize::MAX {
            applied = applied + 1;
        }
        proof {
            let after = entries@.map_values(|e: Entry| e@);
            assert(after =~= route(before, event.source@, payload));
            assert forall|a: int, b: int| 0 <= a < b < entries@.len() implies #[trigger] text_less(entries@[a]@.bar.name, entries@[b]@.bar.name) by {
                assert(after[a].bar.name == before[a].bar.name);
                assert(after[b].bar.name == before[b].bar.name);
                assert(taken.entries@[a]@ == before[a]);
                assert(taken.entries@[b]@ == before[b]);
            }
        }
        *self = TerminalBars { entries, applied };
        changed
    }

    /// Whether every source has completed or failed.
    pub fn is_finished(&self) -> (r: bool)
        ensures
            r == TerminalBars::all_settled(self.entries()),
    {
        let n = self.entries.len();
        let mut i: usize = 0;
        while i < n
            invariant
                n == self.entries@.len(),
                i <= n,
                forall|k: int| 0 <= k < i ==> !(#[trigger] self.entries()[k].outcome is Pending),
            decreases n - i,
        {
            assert(self.entries()[i as int] == self.entries@[i as int]@);
            if let Outcome::Pending = self.entries[i].outcome {
                assert(self.entries()[i as int].outcome is Pending);
                return false;
            }
            i = i + 1;
        }
        assert(self.entries().len() == n);
        true
    }
}

/// The narrowest line the display lays out; a narrower terminal gets lines
/// of this width.
pub const MIN_COLUMNS: u16 = 40;

/// Widths of the name, bar and status columns on a terminal `columns` wide:
/// of what is left beside the two separating spaces, a tenth (rounded down)
/// for the name, 65 hundredths (rounded down) for the bar, the rest for the
/// status.
pub open spec fn widths(columns: u16) -> (nat, nat, nat) {
    let total: nat = if columns < MIN_COLUMNS { MIN_COLUMNS as nat } else { columns as nat };
    let avail = (total - 2) as nat;
    let name = avail * 10 / 100;
    let bar = avail * 65 / 100;
    (name, bar, (avail - name - bar) as nat)
}

pub fn column_widths(columns: u16) -> (r: (usize, usize, usize))
    ensures
        r.0 as nat == widths(columns).0,
        r.1 as nat == widths(columns).1,
        r.2 as nat == widths(columns).2,
        r.1 >= 2,
{
    let total: usize = if columns < MIN_COLUMNS { MIN_COLUMNS as usize } else { columns as usize };
    let avail = total - 2;
    let name = avail * 10 / 100;
    let bar = avail * 65 / 100;
    (name, bar, avail - name - bar)
}

impl TerminalBars {
    /// The lines of the display on a terminal `columns` wide: one per
    /// source, in order of the sources' names.
    pub fn render_lines(&self, columns: u16) -> (r: Vec<String>)
        ensures
            r@.len() == self.entries().len(),
            forall|i: int| 0 <= i < r@.len() ==> (#[trigger] r@[i])@ == rendered(
                self.entries()[i].bar,
                widths(columns).0,
                widths(columns).1,
                widths(columns).2,
            ),
    {
        let (name_width, bar_width, status_width) = column_widths(columns);
        let n = self.entries.len();
        let mut lines: Vec<String> = Vec::new();
        let mut i: usize = 0;
        while i < n
            invariant
                n == self.entries@.len(),
                i <= n,
                lines@.len() == i,
                bar_width >= 2,
                name_width == widths(columns).0,
                bar_width == widths(columns).1,
                status_width == widths(columns).2,
                forall|k: int| 0 <= k < i ==> (#[trigger] lines@[k])@ == rendered(
                    self.entries()[k].bar,
                    widths(columns).0,
                    widths(columns).1,
                    widths(columns).2,
                ),
            decreases n - i,
        {
            assert(self.entries()[i as int] == self.entries@[i as int]@);
            lines.push(self.entries[i].bar.render(name_width, bar_width, status_width));
            i = i + 1;
        }
        lines
    }

    /// The number of sources.
    pub fn len(&self) -> (r: usize)
        ensures
            r == self.entries().len(),
    {
        self.entries.len()
    }

    /// The bar of the `i`-th source in order of names.
    pub fn bar(&self, i: usize) -> (r: &TextBar)
        requires
            i < self.entries().len(),
        ensures
            r@ == self.entries()[i as int].bar,
    {
        &self.entries[i].bar
    }

    /// The outcome of the `i`-th source in order of names.
    pub fn outcome(&self, i: usize) -> (r: Outcome)
        requires
            i < self.entries().len(),
        ensures
            r == self.entries()[i as int].outcome,
    {
        self.entries[i].outcome
    }

    /// How many undecodable lines the `i`-th source sent.
    pub fn decode_errors(&self, i: usize) -> (r: usize)
        requires
            i < self.entries().len(),
        ensures
            r == self.entries()[i as int].decode_errors,
    {
        self.entries[i].decode_errors
    }

    /// Whether the `i`-th source in order of names has sent `Done`.
    pub fn sent_done(&self, i: usize) -> (r: bool)
        requires
            i < self.entries().len(),
        ensures
            r == self.entries()[i as int].done,
    {
        self.entries[i].done
    }

    /// How many progress messages were applied, held at `usize::MAX`.
    pub fn applied_count(&self) -> (r: usize)
        ensures
            r == self.applied(),
    {
        self.applied
    }
}

/// The entries after a run of reports, each a source's name with what it
/// reported, applied in order.
pub open spec fn route_all(entries: Seq<EntryView>, events: Seq<(Seq<char>, PayloadView)>) -> Seq<EntryView>
    decreases events.len(),
{
    if events.len() == 0 {
        entries
    } else {
        route(route_all(entries, events.drop_last()), events.last().0, events.last().1)
    }
}

/// The count of applied progress messages after a run of reports, starting
/// from `applied`.
pub open spec fn applied_after(entries: Seq<EntryView>, applied: usize, events: Seq<(Seq<char>, PayloadView)>) -> usize
    decreases events.len(),
{
    if events.len() == 0 {
        applied
    } else {
        let before = applied_after(entries, applied, events.drop_last());
        if known(route_all(entries, events.drop_last()), events.last().0) && changes_bar(events.last().1) {
            bump(before)
        } else {
            before
        }
    }
}

/// What the reports of a run say for the source `name`, in order.
pub open spec fn reports_of(events: Seq<(Seq<char>, PayloadView)>, name: Seq<char>) -> Seq<PayloadView>
    decreases events.len(),
{
    if events.len() == 0 {
        Seq::empty()
    } else if events.last().0 == name {
        reports_of(events.drop_last(), name).push(events.last().1)
    } else {
        reports_of(events.drop_last(), name)
    }
}

/// How many reports of a run are progress messages for a source with an
/// entry.
pub open spec fn progress_reports(entries: Seq<EntryView>, events: Seq<(Seq<char>, PayloadView)>) -> nat
    decreases events.len(),
{
    if events.len() == 0 {
        0
    } else {
        progress_reports(entries, events.drop_last()) + (if known(entries, events.last().0) && changes_bar(events.last().1) {
            1nat
        } else {
            0nat
        })
    }
}

/// An entry after each of `ps` in turn.
pub open spec fn step_all(e: EntryView, ps: Seq<PayloadView>) -> EntryView
    decreases ps.len(),
{
    if ps.len() == 0 {
        e
    } else {
        step(step_all(e, ps.drop_last()), ps.last())
    }
}

/// A report never renames its entry.
pub proof fn step_keeps_name(e: EntryView, p: PayloadView)
    ensures
        step(e, p).bar.name == e.bar.name,
{
}

/// Routing keeps the number of entries and their names.
pub proof fn route_all_keeps_names(entries: Seq<EntryView>, events: Seq<(Seq<char>, PayloadView)>)
    ensures
        route_all(entries, events).len() == entries.len(),
        forall|i: int| 0 <= i < entries.len() ==> #[trigger] route_all(entries, events)[i].bar.name == entries[i].bar.name,
    decreases events.len(),
{
    if events.len() > 0 {
        route_all_keeps_names(entries, events.drop_last());
        let prior = route_all(entries, events.drop_last());
        assert forall|i: int| 0 <= i < entries.len() implies #[trigger] route_all(entries, events)[i].bar.name == entries[i].bar.name by {
            step_keeps_name(prior[i], events.last().1);
        }
    }
}

/// Sources do not disturb one another: after any run of reports, each
/// source's entry is what its own reports, in their order, make of it, and
/// the reports of a name that no entry carries change nothing.
pub proof fn sources_are_isolated(entries: Seq<EntryView>, events: Seq<(Seq<char>, PayloadView)>)
    ensures
        route_all(entries, events).len() == entries.len(),
        forall|i: int| 0 <= i < entries.len() ==> #[trigger] route_all(entries, events)[i] == step_all(
            entries[i],
            reports_of(events, entries[i].bar.name),
        ),
    decreases events.len(),
{
    route_all_keeps_names(entries, events);
    if events.len() > 0 {
        let rest = events.drop_last();
        sources_are_isolated(entries, rest);
        route_all_keeps_names(entries, rest);
        assert forall|i: int| 0 <= i < entries.len() implies #[trigger] route_all(entries, events)[i] == step_all(
            entries[i],
            reports_of(events, entries[i].bar.name),
        ) by {
            let own = reports_of(rest, entries[i].bar.name);
            assert(route_all(entries, rest)[i] == step_all(entries[i], own));
            if events.last().0 == entries[i].bar.name {
                assert(own.push(events.last().1).drop_last() =~= own);
            }
        }
    }
}

/// A source that reports nothing keeps its entry, so a pending source stays
/// pending and the run is not finished, whatever the other sources report.
pub proof fn silent_source_stays_pending(entries: Seq<EntryView>, events: Seq<(Seq<char>, PayloadView)>, i: int)
    requires
        0 <= i < entries.len(),
        forall|k: int| 0 <= k < events.len() ==> (#[trigger] events[k]).0 != entries[i].bar.name,
    ensures
        route_all(entries, events)[i] == entries[i],
        entries[i].outcome is Pending ==> !TerminalBars::all_settled(route_all(entries, events)),
{
    sources_are_isolated(entries, events);
    no_reports_of_silent(events, entries[i].bar.name);
    if entries[i].outcome is Pending {
        assert(route_all(entries, events)[i].outcome is Pending);
    }
}

proof fn no_reports_of_silent(events: Seq<(Seq<char>, PayloadView)>, name: Seq<char>)
    requires
        forall|k: int| 0 <= k < events.len() ==> (#[trigger] events[k]).0 != name,
    ensures
        reports_of(events, name) == Seq::<PayloadView>::empty(),
    decreases events.len(),
{
    if events.len() > 0 {
        assert(events.last() == events[events.len() - 1]);
        assert forall|k: int| 0 <= k < events.drop_last().len() implies (#[trigger] events.drop_last()[k]).0 != name by {
            assert(events.drop_last()[k] == events[k]);
        }
        no_reports_of_silent(events.drop_last(), name);
    }
}

/// Every progress message reported for a source with an entry is applied
/// exactly once: short of the count's ceiling, the count grows by the
/// number of such reports.
pub proof fn every_progress_report_counts(entries: Seq<EntryView>, applied: usize, events: Seq<(Seq<char>, PayloadView)>)
    requires
        applied + progress_reports(entries, events) <= usize::MAX,
    ensures
        applied_after(entries, applied, events) == applied + progress_reports(entries, events),
    decreases events.len(),
{
    if events.len() > 0 {
        let rest = events.drop_last();
        every_progress_report_counts(entries, applied, rest);
        route_all_keeps_names(entries, rest);
        let prior = route_all(entries, rest);
        let name = events.last().0;
        if known(entries, name) {
            let i = choose|i: int| 0 <= i < entries.len() && #[trigger] entries[i].bar.name == name;
            assert(prior[i].bar.name == name);
        }
        if known(prior, name) {
            let i = choose|i: int| 0 <= i < prior.len() && #[trigger] prior[i].bar.name == name;
            assert(entries[i].bar.name == name);
        }
    }
}

/// A report that settles its source early or ends its output.
pub open spec fn interrupts(p: PayloadView) -> bool {
    p is ReadFailed || p is SpawnFailed || p is Closed
}

proof fn uninterrupted_reports(e: EntryView, ps: Seq<PayloadView>)
    requires
        e.outcome is Pending,
        forall|k: int| 0 <= k < ps.len() ==> !interrupts(#[trigger] ps[k]),
    ensures
        step_all(e, ps).outcome is Pending,
        e.done ==> step_all(e, ps).done,
        (exists|k: int| 0 <= k < ps.len() && #[trigger] ps[k] == PayloadView::Received(MessageView::Done))
            ==> step_all(e, ps).done,
    decreases ps.len(),
{
    if ps.len() > 0 {
        let rest = ps.drop_last();
        assert forall|k: int| 0 <= k < rest.len() implies !interrupts(#[trigger] rest[k]) by {
            assert(rest[k] == ps[k]);
        }
        uninterrupted_reports(e, rest);
        assert(!interrupts(ps[ps.len() - 1]));
        if exists|k: int| 0 <= k < ps.len() && #[trigger] ps[k] == PayloadView::Received(MessageView::Done) {
            let k = choose|k: int| 0 <= k < ps.len() && #[trigger] ps[k] == PayloadView::Received(MessageView::Done);
            if k < ps.len() - 1 {
                assert(rest[k] == ps[k]);
            }
        }
    }
}

/// A source whose own reports include `Done` and end with its output closing
/// without a failed exit, with no failed read or start in between, completes,
/// whatever the other sources report or fail to report.
pub proof fn finishing_source_completes(entries: Seq<EntryView>, events: Seq<(Seq<char>, PayloadView)>, i: int, exit: Option<bool>)
    requires
        0 <= i < entries.len(),
        entries[i].outcome is Pending,
        reports_of(events, entries[i].bar.name).len() > 0,
        reports_of(events, entries[i].bar.name).last() == PayloadView::Closed(exit),
        exit != Some(false),
        forall|k: int| 0 <= k < reports_of(events, entries[i].bar.name).len() - 1
            ==> !interrupts(#[trigger] reports_of(events, entries[i].bar.name)[k]),
        exists|k: int| 0 <= k < reports_of(events, entries[i].bar.name).len() - 1
            && #[trigger] reports_of(events, entries[i].bar.name)[k] == PayloadView::Received(MessageView::Done),
    ensures
        route_all(entries, events)[i].outcome == Outcome::Completed,
{
    sources_are_isolated(entries, events);
    let ps = reports_of(events, entries[i].bar.name);
    let rest = ps.drop_last();
    assert forall|k: int| 0 <= k < rest.len() implies !interrupts(#[trigger] rest[k]) by {
        assert(rest[k] == ps[k]);
    }
    let k = choose|k: int| 0 <= k < ps.len() - 1 && #[trigger] ps[k] == PayloadView::Received(MessageView::Done);
    assert(rest[k] == ps[k]);
    uninterrupted_reports(entries[i], rest);
}

} // verus!
