use vstd::prelude::*;

verus! {

/// Whether a window with this activity is asked before the others when
/// quitting: every window but those known to be inactive.
pub open spec fn asked_early(active: Option<bool>) -> bool {
    active != Some(false)
}

/// The positions below `n` whose windows are asked early (`early`), or late
/// (`!early`), in increasing order.
pub open spec fn positions_where(active: Seq<Option<bool>>, n: nat, early: bool) -> Seq<usize>
    decreases n,
{
    if n == 0 {
        Seq::empty()
    } else {
        let before = positions_where(active, (n - 1) as nat, early);
        if asked_early(active[n - 1]) == early {
            before.push((n - 1) as usize)
        } else {
            before
        }
    }
}

/// The order in which windows are asked to close when quitting, as positions
/// in the list of windows: the active window (and any whose activity is
/// unknown) first, then the inactive ones, each group in list order.
/// With unsaved changes in several windows, the first save prompt thus comes
/// up in the window the user is looking at.
pub open spec fn quit_order(active: Seq<Option<bool>>) -> Seq<usize> {
    positions_where(active, active.len(), true) + positions_where(active, active.len(), false)
}

/// Computes `quit_order` for the given activity of each window.
pub fn windows_in_quit_order(active: &Vec<Option<bool>>) -> (r: Vec<usize>)
    ensures
        r@ == quit_order(active@),
{
    let n = active.len();
    let mut early: Vec<usize> = Vec::new();
    let mut late: Vec<usize> = Vec::new();
    let mut i: usize = 0;
    while i < n
        invariant
            n == active@.len(),
            i <= n,
            early@ == positions_where(active@, i as nat, true),
            late@ == positions_where(active@, i as nat, false),
        decreases n - i,
    {
        if active[i] != Some(false) {
            early.push(i);
        } else {
            late.push(i);
        }
        i = i + 1;
    }
    early.append(&mut late);
    early
}

/// What came of asking the user whether to quit.
#[derive(Clone, Copy, Debug, PartialEq, Eq, Structural)]
pub enum PromptOutcome {
    /// The question could not be shown.
    NotShown,
    /// The question was dismissed without an answer.
    Dismissed,
    /// The user chose the answer at this position: 0 quits, 1 cancels.
    Chose(usize),
}

/// What the application does next while quitting.
#[derive(Clone, Copy, Debug, PartialEq, Eq, Structural)]
pub enum QuitStep {
    /// Ask, in this window, whether to quit.
    Confirm { window: usize },
    /// Ask this window to prepare to close, which may prompt to save.
    PrepareToClose { window: usize },
    /// Every window agreed: quit the application.
    Quit,
    /// Quitting was cancelled: keep the application open.
    Stay,
}

/// Where a quit in progress stands.
#[derive(Clone, Copy, Debug, PartialEq, Eq, Structural)]
pub enum QuitPhase {
    /// Waiting for the answer to the quit question.
    Confirming,
    /// Waiting for the window at the current position to say whether it may close.
    Closing,
    /// Decided: the application quits or stays.
    Finished,
}

/// The abstract state of a quit in progress.
pub struct QuitFlowView {
    pub order: Seq<usize>,
    pub next: int,
    pub phase: QuitPhase,
}

/// The phase and step once the windows before position `next` of `order`
/// have agreed to close.
pub open spec fn after_agreed(order: Seq<usize>, next: int) -> (QuitPhase, QuitStep) {
    if next < order.len() {
        (QuitPhase::Closing, QuitStep::PrepareToClose { window: order[next] })
    } else {
        (QuitPhase::Finished, QuitStep::Quit)
    }
}

/// The decisions of quitting the application: ask for confirmation if the
/// settings want it, then ask each window in turn to close, and quit only if
/// none of them refuses.
pub struct QuitFlow {
    order: Vec<usize>,
    next: usize,
    phase: QuitPhase,
}

impl View for QuitFlow {
    type V = QuitFlowView;

    closed spec fn view(&self) -> QuitFlowView {
        QuitFlowView { order: self.order@, next: self.next as int, phase: self.phase }
    }
}

impl QuitFlow {
    /// The state is consistent: a window is pending exactly while closing.
    pub closed spec fn wf(&self) -> bool {
        &&& self.next <= self.order@.len()
        &&& (self.phase == QuitPhase::Closing ==> self.next < self.order@.len())
    }

    /// Starts quitting with windows of the given activity. When the settings
    /// ask to confirm and there is a window, the question is asked in the
    /// first window of `quit_order`; otherwise the windows are asked to close
    /// at once.
    pub fn start(confirm_quit: bool, active: &Vec<Option<bool>>) -> (r: (QuitFlow, QuitStep))
        ensures
            r.0.wf(),
            r.0@.order == quit_order(active@),
            r.0@.next == 0,
            confirm_quit && active@.len() > 0 ==> r.0@.phase == QuitPhase::Confirming && r.1
                == (QuitStep::Confirm { window: quit_order(active@)[0] }),
            !(confirm_quit && active@.len() > 0) ==> (r.0@.phase, r.1) == after_agreed(
                quit_order(active@),
                0,
            ),
    {
        let order = windows_in_quit_order(active);
        proof {
            lemma_quit_order_len(active@);
        }
        if confirm_quit && order.len() > 0 {
            let window = order[0];
            (QuitFlow { order, next: 0, phase: QuitPhase::Confirming }, QuitStep::Confirm { window })
        } else {
            let mut flow = QuitFlow { order, next: 0, phase: QuitPhase::Finished };
            let step = flow.pending_step();
            (flow, step)
        }
    }

    /// Where the quit stands: which of `confirmation` and `close_checked`
    /// takes the next event, or neither once finished.
    pub fn phase(&self) -> (r: QuitPhase)
        ensures
            r == self@.phase,
    {
        self.phase
    }

    /// Sets the phase from the position reached and returns the step it calls for.
    fn pending_step(&mut self) -> (r: QuitStep)
        requires
            old(self).next <= old(self).order@.len(),
        ensures
            final(self).order == old(self).order,
            final(self).next == old(self).next,
            final(self).wf(),
            (final(self)@.phase, r) == after_agreed(old(self)@.order, old(self)@.next),
    {
        if self.next < self.order.len() {
            self.phase = QuitPhase::Closing;
            QuitStep::PrepareToClose { window: self.order[self.next] }
        } else {
            self.phase = QuitPhase::Finished;
            QuitStep::Quit
        }
    }

    /// Takes the outcome of the quit question. Only the first answer (quit)
    /// goes on; a question that could not be shown goes on as well.
    pub fn confirmation(&mut self, outcome: PromptOutcome) -> (r: QuitStep)
        requires
            old(self).wf(),
            old(self)@.phase == QuitPhase::Confirming,
        ensures
            final(self).wf(),
            final(self)@.order == old(self)@.order,
            final(self)@.next == old(self)@.next,
            outcome == PromptOutcome::NotShown || outcome == PromptOutcome::Chose(0) ==> (
            final(self)@.phase, r) == after_agreed(old(self)@.order, old(self)@.next),
            !(outcome == PromptOutcome::NotShown || outcome == PromptOutcome::Chose(0)) ==> (
            final(self)@.phase == QuitPhase::Finished && r == QuitStep::Stay),
    {
        match outcome {
            PromptOutcome::NotShown => self.pending_step(),
            PromptOutcome::Chose(0) => self.pending_step(),
            _ => {
                self.phase = QuitPhase::Finished;
                QuitStep::Stay
            },
        }
    }

    /// Takes the answer of the pending window: `Some(false)` when it refuses
    /// to close (the user cancelled a save prompt), `Some(true)` when it
    /// agrees, `None` when it could not be asked, which passes over it.
    pub fn close_checked(&mut self, may_close: Option<bool>) -> (r: QuitStep)
        requires
            old(self).wf(),
            old(self)@.phase == QuitPhase::Closing,
        ensures
            final(self).wf(),
            final(self)@.order == old(self)@.order,
            may_close == Some(false) ==> final(self)@.next == old(self)@.next
                && final(self)@.phase == QuitPhase::Finished && r == QuitStep::Stay,
            may_close != Some(false) ==> final(self)@.next == old(self)@.next + 1 && (
            final(self)@.phase, r) == after_agreed(old(self)@.order, old(self)@.next + 1),
    {
        if may_close == Some(false) {
            self.phase = QuitPhase::Finished;
            QuitStep::Stay
        } else {
            let n = self.order.len();
            assert(self.next < n);
            self.next = self.next + 1;
            self.pending_step()
        }
    }
}

/// The positions below `n` of one group are below `n`, belong to that
/// group, increase, and include every position below `n` of the group.
proof fn lemma_positions_shape(active: Seq<Option<bool>>, n: nat, early: bool)
    requires
        n <= active.len(),
        active.len() <= usize::MAX,
    ensures
        forall|k: int|
            0 <= k < positions_where(active, n, early).len() ==> (#[trigger] positions_where(
                active,
                n,
                early,
            )[k] as int) < n && asked_early(active[positions_where(active, n, early)[k] as int])
                == early,
        forall|a: int, b: int|
            0 <= a < b < positions_where(active, n, early).len() ==> positions_where(
                active,
                n,
                early,
            )[a] < positions_where(active, n, early)[b],
        forall|i: usize|
            i < n && asked_early(active[i as int]) == early ==> #[trigger] positions_where(
                active,
                n,
                early,
            ).contains(i),
    decreases n,
{
    if n > 0 {
        let m = (n - 1) as nat;
        lemma_positions_shape(active, m, early);
        let before = positions_where(active, m, early);
        let now = positions_where(active, n, early);
        if asked_early(active[m as int]) == early {
            assert(now == before.push(m as usize));
            assert forall|i: usize| i < n && asked_early(active[i as int]) == early implies now.contains(
                i,
            ) by {
                if i == m {
                    assert(now[before.len() as int] == m as usize);
                } else {
                    assert(before.contains(i));
                    let k = choose|k: int| 0 <= k < before.len() && before[k] == i;
                    assert(now[k] == i);
                }
            }
        }
    }
}

/// Quitting asks every window exactly once: `quit_order` lists each position
/// of the window list once and nothing else.
pub proof fn lemma_quit_order_asks_each_window_once(active: Seq<Option<bool>>)
    requires
        active.len() <= usize::MAX,
    ensures
        quit_order(active).len() == active.len(),
        forall|k: int|
            0 <= k < quit_order(active).len() ==> (#[trigger] quit_order(active)[k] as int)
                < active.len(),
        forall|a: int, b: int|
            0 <= a < b < quit_order(active).len() ==> quit_order(active)[a] != quit_order(
                active,
            )[b],
        forall|i: usize| i < active.len() ==> #[trigger] quit_order(active).contains(i),
{
    let n = active.len();
    lemma_quit_order_len(active);
    lemma_positions_shape(active, n, true);
    lemma_positions_shape(active, n, false);
    let early = positions_where(active, n, true);
    let late = positions_where(active, n, false);
    let q = quit_order(active);
    assert(q == early + late);
    assert forall|k: int| 0 <= k < q.len() implies (#[trigger] q[k] as int) < n by {
        if k < early.len() {
            assert(q[k] == early[k]);
        } else {
            assert(q[k] == late[k - early.len()]);
        }
    }
    assert forall|a: int, b: int| 0 <= a < b < q.len() implies q[a] != q[b] by {
        if b < early.len() {
            assert(q[a] == early[a] && q[b] == early[b]);
        } else if a >= early.len() {
            assert(q[a] == late[a - early.len()] && q[b] == late[b - early.len()]);
        } else {
            assert(q[a] == early[a] && q[b] == late[b - early.len()]);
            assert(asked_early(active[early[a] as int]));
            assert(!asked_early(active[late[b - early.len()] as int]));
        }
    }
    assert forall|i: usize| i < n implies #[trigger] q.contains(i) by {
        if asked_early(active[i as int]) {
            assert(early.contains(i));
            let k = choose|k: int| 0 <= k < early.len() && early[k] == i;
            assert(q[k] == i);
        } else {
            assert(late.contains(i));
            let k = choose|k: int| 0 <= k < late.len() && late[k] == i;
            assert(q[early.len() + k] == i);
        }
    }
}

proof fn lemma_positions_len(active: Seq<Option<bool>>, n: nat)
    requires
        n <= active.len(),
    ensures
        positions_where(active, n, true).len() + positions_where(active, n, false).len() == n,
    decreases n,
{
    if n > 0 {
        lemma_positions_len(active, (n - 1) as nat);
    }
}

proof fn lemma_quit_order_len(active: Seq<Option<bool>>)
    ensures
        quit_order(active).len() == active.len(),
{
    lemma_positions_len(active, active.len());
}

} // verus!
