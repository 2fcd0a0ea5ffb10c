//! The cycling engine: the ordered window list of the last enumeration,
//! the current selection, and the planning of every focus change.
//!
//! The engine never talks to a backend itself.  Each mutating operation
//! returns a [`SwitchPlan`]: the index to persist to the mirror, and the
//! backend calls to perform, in order.  The front end executes the plan —
//! it writes the mirror first, treats `Restore` and `Minimize` as
//! best-effort, and surfaces an `Activate` failure to the caller.
//!
//! The state is one logical resource.  A front end that polls from one
//! task and takes user commands from another serializes every mutating
//! call through a single lock, so that a poll-driven [`CycleState::update_windows`]
//! never interleaves with a cycle or switch in progress; its preservation
//! rule then guarantees that a poll never overrides a freshly chosen
//! selection.

use crate::text::str_eq;
use crate::window::EveWindow;
use vstd::prelude::*;

verus! {

/// One backend call that a planned focus change asks the front end to
/// perform.  `Activate` is required — its failure is the operation's
/// failure; `Restore` and `Minimize` are best-effort and their failures
/// are swallowed.
#[derive(Clone, Copy, Debug, PartialEq, Eq, Structural)]
pub enum BackendAction {
    Restore(u32),
    Activate(u32),
    Minimize(u32),
}

/// What a cycling or switching operation decided: the index to persist to
/// the mirror, if any, and the backend calls to make, in their required
/// order.
///
/// The index is persisted before any backend call is made, so the mirror
/// reflects the intended selection even while the calls are in flight; a
/// reader of the mirror sees the intended, not yet the confirmed,
/// selection.
#[derive(Debug)]
pub struct SwitchPlan {
    pub persist: Option<usize>,
    pub actions: Vec<BackendAction>,
}

impl SwitchPlan {
    /// The plan of an operation that has nothing to do: nothing persisted,
    /// no backend calls.
    pub fn noop() -> (r: SwitchPlan)
        ensures
            r.persist is None,
            r.actions@.len() == 0,
    {
        SwitchPlan { persist: None, actions: Vec::new() }
    }
}

/// Why a switch target could not be resolved.  The engine's state and the
/// mirror are left exactly as before the call.
#[derive(Debug)]
pub enum SwitchError {
    /// The 1-based target number lies beyond the list it indexes.
    OutOfRange { target: usize, available: usize },
    /// The character order names this title, but no current window carries
    /// it.
    CharacterNotFound { name: String },
}

/// The index after the window list is replaced.  A selection is valid
/// only while the list is non-empty and it lies in range; a valid
/// selection that the new list still covers is preserved — so a poll can
/// never override a freshly chosen selection — and with an empty new
/// list the index merely holds its (then meaningless) last value.  In
/// every other case a non-empty new list resets the selection to the
/// start; in particular, an index held over an empty list is never
/// carried into a fresh one.
pub open spec fn update_index(old_index: int, old_len: int, new_len: int) -> int {
    if new_len == 0 || (old_len > 0 && old_index < new_len) {
        old_index
    } else {
        0
    }
}

/// Law: going from no windows to some windows always selects the first,
/// and so does any non-empty new list that no longer covers the old
/// selection.
pub proof fn lemma_update_resets_to_start(old_index: int, old_len: int, new_len: int)
    requires
        new_len > 0,
        old_len == 0 || old_index >= new_len,
    ensures
        update_index(old_index, old_len, new_len) == 0,
{
}

/// The index after one forward step with wraparound.
pub open spec fn next_index(i: int, n: int) -> int {
    if i + 1 < n {
        i + 1
    } else {
        0
    }
}

/// The index after one backward step with wraparound.
pub open spec fn prev_index(i: int, n: int) -> int {
    if i == 0 {
        n - 1
    } else {
        i - 1
    }
}

/// The position of the first window with this id, scanning from `i`.
pub open spec fn first_pos_with_id_from(ws: Seq<EveWindow>, id: u32, i: int) -> Option<int>
    decreases ws.len() - i,
{
    if i < 0 || i >= ws.len() {
        None
    } else if ws[i].id == id {
        Some(i)
    } else {
        first_pos_with_id_from(ws, id, i + 1)
    }
}

/// The position of the first window with this id, if any.
pub open spec fn first_pos_with_id(ws: Seq<EveWindow>, id: u32) -> Option<int> {
    first_pos_with_id_from(ws, id, 0)
}

/// The position of the first window with this title, scanning from `i`.
pub open spec fn first_pos_with_title_from(ws: Seq<EveWindow>, t: Seq<char>, i: int) -> Option<
    int,
>
    decreases ws.len() - i,
{
    if i < 0 || i >= ws.len() {
        None
    } else if ws[i].title@ == t {
        Some(i)
    } else {
        first_pos_with_title_from(ws, t, i + 1)
    }
}

/// The position of the first window whose title equals `t`, if any.
pub open spec fn first_pos_with_title(ws: Seq<EveWindow>, t: Seq<char>) -> Option<int> {
    first_pos_with_title_from(ws, t, 0)
}

/// The backend calls of a focus change from index `prev` to index `next`
/// in `ws`: when minimize-on-switch is enabled, the new target is restored
/// first (it may currently be hidden), the activation follows, and the
/// previous target is minimized only afterwards — activating before
/// minimizing keeps the window manager from handing focus elsewhere in
/// mid-sequence — and only when the index actually changed.
pub open spec fn change_actions(
    ws: Seq<EveWindow>,
    prev: int,
    next: int,
    minimize_inactive: bool,
) -> Seq<BackendAction> {
    let new_id = ws[next].id;
    if minimize_inactive {
        if prev != next {
            seq![
                BackendAction::Restore(new_id),
                BackendAction::Activate(new_id),
                BackendAction::Minimize(ws[prev].id),
            ]
        } else {
            seq![BackendAction::Restore(new_id), BackendAction::Activate(new_id)]
        }
    } else {
        seq![BackendAction::Activate(new_id)]
    }
}

/// Law: a planned focus change activates the destination exactly once.
/// A restore is planned only under minimize-on-switch, targets the
/// destination, and comes before the activation; a minimize is planned
/// only when the selection actually moved, targets the previous window,
/// and comes after the activation.
pub proof fn lemma_change_actions_shape(
    ws: Seq<EveWindow>,
    prev: int,
    next: int,
    minimize_inactive: bool,
)
    requires
        0 <= prev < ws.len(),
        0 <= next < ws.len(),
    ensures
        ({
            let a = change_actions(ws, prev, next, minimize_inactive);
            &&& exists|j: int| 0 <= j < a.len() && (#[trigger] a[j]) is Activate
            &&& forall|j: int|
                0 <= j < a.len() ==> ((#[trigger] a[j]) is Activate ==> a[j]
                    == BackendAction::Activate(ws[next].id))
            &&& forall|j: int, k: int|
                0 <= j < a.len() && 0 <= k < a.len() && (#[trigger] a[j]) is Activate && (
                #[trigger] a[k]) is Activate ==> j == k
            &&& forall|j: int, k: int|
                0 <= j < a.len() && 0 <= k < a.len() && (#[trigger] a[j]) is Restore && (
                #[trigger] a[k]) is Activate ==> j < k
            &&& forall|j: int, k: int|
                0 <= j < a.len() && 0 <= k < a.len() && (#[trigger] a[j]) is Minimize && (
                #[trigger] a[k]) is Activate ==> k < j
            &&& forall|j: int|
                0 <= j < a.len() ==> ((#[trigger] a[j]) is Minimize ==> a[j]
                    == BackendAction::Minimize(ws[prev].id) && prev != next
                    && minimize_inactive)
            &&& forall|j: int|
                0 <= j < a.len() ==> ((#[trigger] a[j]) is Restore ==> a[j]
                    == BackendAction::Restore(ws[next].id) && minimize_inactive)
        }),
{
    let a = change_actions(ws, prev, next, minimize_inactive);
    if minimize_inactive {
        if prev != next {
            assert(a[1] is Activate);
        } else {
            assert(a[1] is Activate);
        }
    } else {
        assert(a[0] is Activate);
    }
}

/// How a 1-based switch target resolves against the current window list:
/// through the character order when one is supplied — the target picks a
/// name, and the first window with that title is the destination — and
/// directly into the window list otherwise.
pub open spec fn resolve_target(
    ws: Seq<EveWindow>,
    order: Option<Seq<String>>,
    target: int,
) -> Result<int, SwitchError> {
    match order {
        Some(names) => {
            if target - 1 >= names.len() {
                Err(
                    SwitchError::OutOfRange {
                        target: target as usize,
                        available: names.len() as usize,
                    },
                )
            } else {
                match first_pos_with_title(ws, names[target - 1]@) {
                    Some(p) => Ok(p),
                    None => Err(SwitchError::CharacterNotFound { name: names[target - 1] }),
                }
            }
        },
        None => {
            if target - 1 >= ws.len() {
                Err(
                    SwitchError::OutOfRange {
                        target: target as usize,
                        available: ws.len() as usize,
                    },
                )
            } else {
                Ok(target - 1)
            }
        },
    }
}

/// Law: for a list of `n` windows and a selection `i` in range, one
/// forward step followed by one backward step restores `i`, and so does
/// one backward step followed by one forward step.  With a single window
/// both steps keep the selection at its only place.
pub proof fn lemma_cycle_round_trip(i: int, n: int)
    requires
        n >= 1,
        0 <= i < n,
    ensures
        prev_index(next_index(i, n), n) == i,
        next_index(prev_index(i, n), n) == i,
        n == 1 ==> next_index(i, n) == i && prev_index(i, n) == i,
{
}

/// The selection after `k` forward steps from `i` through `n` windows.
pub open spec fn iterate_next(i: int, n: int, k: nat) -> int
    decreases k,
{
    if k == 0 {
        i
    } else {
        next_index(iterate_next(i, n, (k - 1) as nat), n)
    }
}

proof fn lemma_iterate_next_shifts(i: int, n: int, k: nat)
    requires
        n >= 1,
        0 <= i < n,
        k <= n - i,
    ensures
        iterate_next(i, n, k) == if i + k < n {
            i + k
        } else {
            0
        },
    decreases k,
{
    if k > 0 {
        lemma_iterate_next_shifts(i, n, (k - 1) as nat);
    }
}

/// Law: `n` forward steps from any selection `i` in range wrap all the
/// way around and return to `i`.
pub proof fn lemma_cycle_wraparound(i: int, n: int)
    requires
        n >= 1,
        0 <= i < n,
    ensures
        iterate_next(i, n, n as nat) == i,
    decreases n,
{
    lemma_iterate_next_shifts(i, n, (n - i) as nat);
    if i > 0 {
        lemma_iterate_prepend(i, n, i as nat, (n - i) as nat);
        lemma_iterate_next_shifts(0, n, i as nat);
    }
}

proof fn lemma_iterate_prepend(i: int, n: int, a: nat, b: nat)
    requires
        n >= 1,
        0 <= i < n,
    ensures
        iterate_next(i, n, (a + b) as nat) == iterate_next(iterate_next(i, n, b), n, a),
    decreases a,
{
    if a > 0 {
        lemma_iterate_prepend(i, n, (a - 1) as nat, b);
    }
}

/// The cycling engine's state: the window list as of the last enumeration
/// (its order is the enumeration order and may change between polls) and
/// the current selection.
pub struct CycleState {
    pub current_index: usize,
    pub windows: Vec<EveWindow>,
}

impl CycleState {
    /// The state invariant: a non-empty window list keeps the selection in
    /// range.  With an empty list the index holds its last value, which
    /// then has no meaning.
    pub open spec fn wf(self) -> bool {
        self.windows@.len() > 0 ==> (self.current_index as int) < self.windows@.len()
    }

    /// A fresh engine: no windows, selection at the start.
    pub fn new() -> (r: CycleState)
        ensures
            r.wf(),
            r.windows@.len() == 0,
            r.current_index == 0,
    {
        CycleState { current_index: 0, windows: Vec::new() }
    }

    /// Replace the window list with a fresh enumeration.  A valid
    /// selection that the new list still covers is preserved; going from
    /// no windows to some windows, like a selection the new list no
    /// longer covers, resets to the start.  An empty new list leaves the
    /// index at its last value.
    pub fn update_windows(&mut self, windows: Vec<EveWindow>)
        ensures
            final(self).wf(),
            final(self).windows == windows,
            final(self).current_index as int == update_index(
                old(self).current_index as int,
                old(self).windows@.len() as int,
                windows@.len() as int,
            ),
    {
        let had_windows = self.windows.len() > 0;
        self.windows = windows;
        if (self.current_index >= self.windows.len() || !had_windows) && self.windows.len() > 0 {
            self.current_index = 0;
        }
    }

    /// The window list as of the last enumeration.
    pub fn get_windows(&self) -> (r: &Vec<EveWindow>)
        ensures
            r == self.windows,
    {
        &self.windows
    }

    /// The current selection.
    pub fn get_current_index(&self) -> (r: usize)
        ensures
            r == self.current_index,
    {
        self.current_index
    }

    /// Adopt an externally chosen selection.  An index beyond a non-empty
    /// list is ignored; with an empty list any value is accepted (it has
    /// no meaning there).
    pub fn set_current_index(&mut self, index: usize)
        requires
            old(self).wf(),
        ensures
            final(self).wf(),
            final(self).windows == old(self).windows,
            final(self).current_index == (
            if (index as int) < old(self).windows@.len() || old(self).windows@.len() == 0 {
                index as int
            } else {
                old(self).current_index as int
            }),
    {
        if index < self.windows.len() || self.windows.len() == 0 {
            self.current_index = index;
        }
    }

    /// Realign the selection with a focus change made outside the engine:
    /// the selection becomes the position of the first window whose id
    /// equals `active_window`; an unmatched id changes nothing.  No
    /// backend call and no mirror write follow from this.
    pub fn sync_with_active(&mut self, active_window: u32)
        requires
            old(self).wf(),
        ensures
            final(self).wf(),
            final(self).windows == old(self).windows,
            final(self).current_index as int == (
            match first_pos_with_id(old(self).windows@, active_window) {
                Some(p) => p,
                None => old(self).current_index as int,
            }),
    {
        let n = self.windows.len();
        let ghost ws = self.windows@;
        let mut i: usize = 0;
        while i < n
            invariant
                i <= n,
                n == ws.len(),
                self.windows@ == ws,
                self.current_index == old(self).current_index,
                self.windows == old(self).windows,
                first_pos_with_id(ws, active_window) == first_pos_with_id_from(
                    ws,
                    active_window,
                    i as int,
                ),
            decreases n - i,
        {
            if self.windows[i].id == active_window {
                self.current_index = i;
                return ;
            }
            i += 1;
        }
    }

    /// Plan one forward step through the window list, with wraparound.
    /// With an empty list nothing happens and nothing is planned.
    /// Otherwise the selection advances, the new index is put up for
    /// persisting, and the backend calls of the change are planned in
    /// order.
    pub fn cycle_forward(&mut self, minimize_inactive: bool) -> (plan: SwitchPlan)
        requires
            old(self).wf(),
        ensures
            final(self).wf(),
            final(self).windows == old(self).windows,
            old(self).windows@.len() == 0 ==> final(self).current_index == old(
                self,
            ).current_index && plan.persist is None && plan.actions@.len() == 0,
            old(self).windows@.len() > 0 ==> {
                let ni = next_index(
                    old(self).current_index as int,
                    old(self).windows@.len() as int,
                );
                &&& final(self).current_index as int == ni
                &&& plan.persist matches Some(p) && p as int == ni
                &&& plan.actions@ == change_actions(
                    old(self).windows@,
                    old(self).current_index as int,
                    ni,
                    minimize_inactive,
                )
            },
    {
        let n = self.windows.len();
        if n == 0 {
            return SwitchPlan::noop();
        }
        let prev = self.current_index;
        let next = (prev + 1) % n;
        proof {
            assert(next as int == next_index(prev as int, n as int)) by (nonlinear_arith)
                requires
                    0 <= prev < n,
                    next as int == (prev + 1) as int % (n as int),
            ;
        }
        self.current_index = next;
        self.plan_change(prev, next, minimize_inactive)
    }

    /// Plan one backward step through the window list, with wraparound.
    /// With an empty list nothing happens and nothing is planned.
    pub fn cycle_backward(&mut self, minimize_inactive: bool) -> (plan: SwitchPlan)
        requires
            old(self).wf(),
        ensures
            final(self).wf(),
            final(self).windows == old(self).windows,
            old(self).windows@.len() == 0 ==> final(self).current_index == old(
                self,
            ).current_index && plan.persist is None && plan.actions@.len() == 0,
            old(self).windows@.len() > 0 ==> {
                let ni = prev_index(
                    old(self).current_index as int,
                    old(self).windows@.len() as int,
                );
                &&& final(self).current_index as int == ni
                &&& plan.persist matches Some(p) && p as int == ni
                &&& plan.actions@ == change_actions(
                    old(self).windows@,
                    old(self).current_index as int,
                    ni,
                    minimize_inactive,
                )
            },
    {
        let n = self.windows.len();
        if n == 0 {
            return SwitchPlan::noop();
        }
        let prev = self.current_index;
        let next = if prev == 0 {
            n - 1
        } else {
            prev - 1
        };
        self.current_index = next;
        self.plan_change(prev, next, minimize_inactive)
    }

    /// Plan a jump to a 1-based target number.  Target `0`, like an empty
    /// window list, is a deliberate no-op, not an error.  With a character
    /// order the target picks a name and the destination is the first
    /// window carrying that title; without one the target indexes the
    /// window list directly.  A target that resolves to the current
    /// selection plans no backend call.  On an error the selection is
    /// left exactly as before.
    pub fn switch_to(
        &mut self,
        target: usize,
        minimize_inactive: bool,
        character_order: Option<&Vec<String>>,
    ) -> (r: Result<SwitchPlan, SwitchError>)
        requires
            old(self).wf(),
        ensures
            final(self).wf(),
            final(self).windows == old(self).windows,
            ({
                let ws = old(self).windows@;
                let cur = old(self).current_index as int;
                let order = match character_order {
                    Some(v) => Some(v@),
                    None => None,
                };
                if ws.len() == 0 || target == 0 {
                    &&& r matches Ok(p) && p.persist is None && p.actions@.len() == 0
                    &&& final(self).current_index == old(self).current_index
                } else {
                    match resolve_target(ws, order, target as int) {
                        Err(e) => {
                            &&& r matches Err(e2) && e2 == e
                            &&& final(self).current_index == old(self).current_index
                        },
                        Ok(ti) => {
                            if ti == cur {
                                &&& r matches Ok(p) && p.persist is None && p.actions@.len()
                                    == 0
                                &&& final(self).current_index == old(self).current_index
                            } else {
                                &&& final(self).current_index as int == ti
                                &&& r matches Ok(p) && p.persist matches Some(pi) && pi as int
                                    == ti && p.actions@ == change_actions(
                                    ws,
                                    cur,
                                    ti,
                                    minimize_inactive,
                                )
                            }
                        },
                    }
                }
            }),
    {
        let n = self.windows.len();
        if n == 0 || target == 0 {
            return Ok(SwitchPlan::noop());
        }
        let target_index: usize = match character_order {
            Some(names) => {
                let idx = target - 1;
                if idx >= names.len() {
                    return Err(
                        SwitchError::OutOfRange { target, available: names.len() },
                    );
                }
                let name: &String = &names[idx];
                match self.find_title_position(name) {
                    Some(p) => p,
                    None => {
                        return Err(SwitchError::CharacterNotFound { name: name.clone() });
                    },
                }
            },
            None => {
                let idx = target - 1;
                if idx >= n {
                    return Err(SwitchError::OutOfRange { target, available: n });
                }
                idx
            },
        };
        if target_index == self.current_index {
            return Ok(SwitchPlan::noop());
        }
        let prev = self.current_index;
        self.current_index = target_index;
        Ok(self.plan_change(prev, target_index, minimize_inactive))
    }

    /// The position of the first window whose title equals `name`.
    fn find_title_position(&self, name: &String) -> (r: Option<usize>)
        ensures
            r is Some <==> first_pos_with_title(self.windows@, name@) is Some,
            r matches Some(p) ==> first_pos_with_title(self.windows@, name@) == Some(p as int)
                && (p as int) < self.windows@.len(),
    {
        let n = self.windows.len();
        let ghost ws = self.windows@;
        let mut i: usize = 0;
        while i < n
            invariant
                i <= n,
                n == ws.len(),
                self.windows@ == ws,
                first_pos_with_title(ws, name@) == first_pos_with_title_from(
                    ws,
                    name@,
                    i as int,
                ),
            decreases n - i,
        {
            if str_eq(self.windows[i].title.as_str(), name.as_str()) {
                return Some(i);
            }
            i += 1;
        }
        None
    }

    /// Build the action list of a change from `prev` to `next` after the
    /// selection has been moved to `next`.
    fn plan_change(&self, prev: usize, next: usize, minimize_inactive: bool) -> (plan:
        SwitchPlan)
        requires
            (prev as int) < self.windows@.len(),
            (next as int) < self.windows@.len(),
        ensures
            plan.persist matches Some(p) && p == next,
            plan.actions@ == change_actions(
                self.windows@,
                prev as int,
                next as int,
                minimize_inactive,
            ),
    {
        let new_id = self.windows[next].id;
        let mut actions: Vec<BackendAction> = Vec::new();
        if minimize_inactive {
            actions.push(BackendAction::Restore(new_id));
        }
        actions.push(BackendAction::Activate(new_id));
        if minimize_inactive && prev != next {
            actions.push(BackendAction::Minimize(self.windows[prev].id));
        }
        proof {
            assert(actions@ =~= change_actions(
                self.windows@,
                prev as int,
                next as int,
                minimize_inactive,
            ));
        }
        SwitchPlan { persist: Some(next), actions }
    }
}

} // verus!
