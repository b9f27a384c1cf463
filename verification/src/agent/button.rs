//! Active button presses: what a press does while it is held, when its long arm
//! is due, and which presses an event ends.

use vstd::prelude::*;
use crate::binding::{Action, ButtonId};

verus! {

/// Where presses come from.
#[derive(Clone, Copy, Debug, PartialEq, Eq, Structural)]
pub enum PressSource {
    /// The operating system's input hook.
    Hook,
    /// A captured control of one device session.
    Device(u64),
}

/// A physical button of one source; at most one press of it is active.
#[derive(Clone, Copy, Debug, PartialEq, Eq, Structural)]
pub struct PressKey {
    /// Where the press comes from.
    pub source: PressSource,
    /// The button.
    pub button: ButtonId,
}

/// One press of a button, told apart from earlier presses of it.
#[derive(Clone, Copy, Debug, PartialEq, Eq, Structural)]
pub struct PressToken {
    /// The pressed button.
    pub key: PressKey,
    /// Distinguishes this press from every other press of the button.
    pub id: u64,
}

/// What a press does besides starting and ending.
#[derive(Clone, Copy, Debug, PartialEq, Eq, Structural)]
pub enum PressBehavior {
    /// Nothing more.
    Plain,
    /// Runs an action when the button is released.
    OnRelease(Action),
    /// Runs `long` once the deadline has passed, else `short` on release.
    LongPress {
        /// Action of a short press.
        short: Action,
        /// Action of a long press.
        long: Action,
        /// Milliseconds at which the press becomes long.
        deadline: u64,
    },
    /// The long arm has run.
    LongPressFired,
}

/// A press that has started and not ended.
#[derive(Clone, Copy, Debug, PartialEq, Eq, Structural)]
pub struct ActivePress {
    /// Identity of the press.
    pub token: PressToken,
    /// What the press does.
    pub behavior: PressBehavior,
    /// The pointer context the press was resolved for, when it depends on one.
    pub pointer: Option<u64>,
}

/// Why a press was canceled.
#[derive(Clone, Copy, Debug, PartialEq, Eq, Structural)]
pub enum CancelReason {
    /// Its source went away.
    SourceEnded,
    /// What it was resolved from no longer holds.
    Invalidated,
    /// The same button went down again.
    RepeatedDown,
    /// It was held for too long to be believed.
    StaleHold,
    /// The runtime stops.
    Shutdown,
}

/// Why a press ended.
#[derive(Clone, Copy, Debug, PartialEq, Eq, Structural)]
pub enum EndReason {
    /// The button was released.
    Released,
    /// The press was canceled.
    Canceled(CancelReason),
}

/// What the runtime tells its owner.
#[derive(Clone, Copy, Debug, PartialEq, Eq, Structural)]
pub enum ButtonRuntimeEvent {
    /// A press started.
    Started(ActivePress),
    /// A press runs an action.
    Triggered {
        /// The press.
        press: ActivePress,
        /// The action.
        action: Action,
    },
    /// A press ended.
    Ended {
        /// The press.
        press: ActivePress,
        /// Why it ended.
        reason: EndReason,
    },
}

/// What a source reports.
#[derive(Clone, Copy, Debug, PartialEq, Eq, Structural)]
pub enum ButtonInput {
    /// A button went down.
    Down(ActivePress),
    /// A button came up.
    Up {
        /// The button.
        key: PressKey,
        /// Milliseconds at which it came up.
        released_at: u64,
    },
    /// A control that only reports that it was used.
    Pulse(ActivePress),
    /// An action while the press is still held.
    TriggerWhilePressed {
        /// The press.
        token: PressToken,
        /// The action.
        action: Action,
    },
}

/// What the worker is asked to do.
#[derive(Clone, Copy, Debug, PartialEq, Eq, Structural)]
pub enum ButtonCommand {
    /// Handle an input that was resolved under `generation`.
    Input {
        /// Generation of the bindings the input was resolved from.
        generation: u64,
        /// The input.
        input: ButtonInput,
    },
    /// Look at the clock.
    Wake,
    /// Cancel a press that was held for too long.
    CancelStalePress(PressToken),
    /// Cancel every press of a source.
    CancelSource(PressSource),
    /// Cancel every press of the input hook.
    CancelHooks,
    /// Cancel every press resolved for another pointer context.
    CancelPointerExcept(u64),
}

/// Which presses a cancellation takes.
#[derive(Clone, Copy, Debug, PartialEq, Eq, Structural)]
pub enum CancelScope {
    /// All of them.
    All,
    /// Those of one source.
    Source(PressSource),
    /// Those resolved for a pointer context other than this one.
    PointerExcept(u64),
    /// Exactly this press.
    Press(PressToken),
    /// Whatever press of this button is active.
    Button(PressKey),
}

impl CancelScope {
    /// Whether the scope takes `press`.
    pub open spec fn takes(self, press: ActivePress) -> bool {
        match self {
            CancelScope::All => true,
            CancelScope::Source(source) => press.token.key.source == source,
            CancelScope::PointerExcept(current) => press.pointer matches Some(p) && p != current,
            CancelScope::Press(token) => press.token == token,
            CancelScope::Button(key) => press.token.key == key,
        }
    }

    /// Whether the scope takes `press`.
    pub fn takes_press(&self, press: &ActivePress) -> (taken: bool)
        ensures
            taken == self.takes(*press),
    {
        match self {
            CancelScope::All => true,
            CancelScope::Source(source) => press.token.key.source == *source,
            CancelScope::PointerExcept(current) => match press.pointer {
                Some(p) => p != *current,
                None => false,
            },
            CancelScope::Press(token) => press.token == *token,
            CancelScope::Button(key) => press.token.key == *key,
        }
    }
}

/// The presses of `presses` that `scope` takes, in order.
pub open spec fn taken(presses: Seq<ActivePress>, scope: CancelScope) -> Seq<ActivePress> {
    presses.filter(|p: ActivePress| scope.takes(p))
}

/// The presses of `presses` that `scope` leaves, in order.
pub open spec fn left(presses: Seq<ActivePress>, scope: CancelScope) -> Seq<ActivePress> {
    presses.filter(|p: ActivePress| !scope.takes(p))
}

impl ActivePress {
    /// Identity of the press.
    pub fn token(&self) -> (token: PressToken)
        ensures
            token == self.token,
    {
        self.token
    }

    /// Whether the long arm is due at `now`.
    pub open spec fn due(self, now: u64) -> bool {
        self.behavior matches PressBehavior::LongPress { short, long, deadline } && deadline <= now
    }

    /// Whether the long arm is due at `now`.
    pub fn is_due(&self, now: u64) -> (due: bool)
        ensures
            due == self.due(now),
    {
        match self.behavior {
            PressBehavior::LongPress { short: _, long: _, deadline } => deadline <= now,
            _ => false,
        }
    }

    /// The press once its long arm has run.
    pub open spec fn fired(self) -> ActivePress {
        ActivePress { behavior: PressBehavior::LongPressFired, ..self }
    }

    /// Runs the long arm if it is due at `at`: the press counts as fired from
    /// then on.
    pub fn fire_long(&mut self, at: u64) -> (action: Option<Action>)
        ensures
            match action {
                Some(a) => old(self).due(at) && a == old(self).behavior->long && *final(self)
                    == old(self).fired(),
                None => !old(self).due(at) && *final(self) == *old(self),
            },
    {
        match self.behavior {
            PressBehavior::LongPress { short: _, long, deadline } => if deadline <= at {
                self.behavior = PressBehavior::LongPressFired;
                Some(long)
            } else {
                None
            },
            _ => None,
        }
    }

    /// The action that releasing the button runs.
    pub open spec fn release_action_spec(self) -> Option<Action> {
        match self.behavior {
            PressBehavior::OnRelease(action) => Some(action),
            PressBehavior::LongPress { short, long, deadline } => Some(short),
            PressBehavior::Plain => None,
            PressBehavior::LongPressFired => None,
        }
    }

    /// The action that releasing the button runs.
    pub fn release_action(&self) -> (action: Option<Action>)
        ensures
            action == self.release_action_spec(),
    {
        match self.behavior {
            PressBehavior::OnRelease(action) => Some(action),
            PressBehavior::LongPress { short, long: _, deadline: _ } => Some(short),
            PressBehavior::Plain => None,
            PressBehavior::LongPressFired => None,
        }
    }
}

/// Whether every button has at most one press.
pub open spec fn one_press_per_button(presses: Seq<ActivePress>) -> bool {
    forall|i: int, j: int|
        0 <= i < j < presses.len() ==> (#[trigger] presses[i]).token.key != (
        #[trigger] presses[j]).token.key
}

/// The active presses, in the order in which they started.
#[derive(Debug)]
pub struct ButtonState {
    presses: Vec<ActivePress>,
}

impl View for ButtonState {
    type V = Seq<ActivePress>;

    closed spec fn view(&self) -> Seq<ActivePress> {
        self.presses@
    }
}

impl Default for ButtonState {
    fn default() -> (state: Self)
        ensures
            state@ == Seq::<ActivePress>::empty(),
    {
        ButtonState { presses: Vec::new() }
    }
}

proof fn lemma_filter_step(s: Seq<ActivePress>, i: int, pred: spec_fn(ActivePress) -> bool)
    requires
        0 <= i < s.len(),
    ensures
        s.take(i + 1).filter(pred) == if pred(s[i]) {
            s.take(i).filter(pred).push(s[i])
        } else {
            s.take(i).filter(pred)
        },
{
    reveal(Seq::filter);
    assert(s.take(i + 1).drop_last() =~= s.take(i));
}

impl ButtonState {
    #[verifier::type_invariant]
    spec fn well_formed(self) -> bool {
        one_press_per_button(self.presses@)
    }

    /// Takes out the presses in `scope`, in order.
    pub fn cancel(&mut self, scope: CancelScope) -> (presses: Vec<ActivePress>)
        ensures
            presses@ == taken(old(self)@, scope),
            final(self)@ == left(old(self)@, scope),
    {
        let ghost all = self.presses@;
        let ghost takes = |p: ActivePress| scope.takes(p);
        let ghost leaves = |p: ActivePress| !scope.takes(p);
        let mut out: Vec<ActivePress> = Vec::new();
        let mut kept: Vec<ActivePress> = Vec::new();
        let mut i: usize = 0;
        proof {
            reveal(Seq::filter);
            assert(all.take(0) =~= Seq::<ActivePress>::empty());
        }
        while i < self.presses.len()
            invariant
                i <= self.presses@.len(),
                all == self.presses@,
                takes == (|p: ActivePress| scope.takes(p)),
                leaves == (|p: ActivePress| !scope.takes(p)),
                out@ == all.take(i as int).filter(takes),
                kept@ == all.take(i as int).filter(leaves),
            decreases self.presses@.len() - i,
        {
            let press = self.presses[i];
            proof {
                lemma_filter_step(all, i as int, takes);
                lemma_filter_step(all, i as int, leaves);
            }
            if scope.takes_press(&press) {
                out.push(press);
            } else {
                kept.push(press);
            }
            i = i + 1;
        }
        assert(all.take(i as int) =~= all);
        proof {
            use_type_invariant(&*self);
            lemma_left_keeps_one_per_button(all, scope);
        }
        self.presses = kept;
        out
    }

    /// Adds a press, taking out an earlier press of the same button.
    pub fn press(&mut self, press: ActivePress) -> (stale: Option<ActivePress>)
        ensures
            final(self)@ == left(old(self)@, CancelScope::Button(press.token.key)).push(press),
            stale == active_press(old(self)@, press.token.key),
            one_press_per_button(final(self)@),
    {
        proof {
            use_type_invariant(&*self);
            lemma_left_keeps_one_per_button(self@, CancelScope::Button(press.token.key));
        }
        let stale = self.release(&press.token.key);
        let mut presses: Vec<ActivePress> = Vec::new();
        std::mem::swap(&mut presses, &mut self.presses);
        let ghost rest = presses@;
        presses.push(press);
        assert forall|i: int, j: int| 0 <= i < j < presses@.len() implies (
        #[trigger] presses@[i]).token.key != (#[trigger] presses@[j]).token.key by {
            assert(presses@[i] == rest[i]);
            if j < rest.len() {
                assert(presses@[j] == rest[j]);
            } else {
                assert(rest.contains(rest[i]));
            }
        }
        self.presses = presses;
        stale
    }

    /// Takes out the press of a button.
    pub fn release(&mut self, key: &PressKey) -> (press: Option<ActivePress>)
        ensures
            final(self)@ == left(old(self)@, CancelScope::Button(*key)),
            press == active_press(old(self)@, *key),
    {
        proof {
            use_type_invariant(&*self);
            lemma_button_press(self@, *key);
        }
        let out = self.cancel(CancelScope::Button(*key));
        if out.len() == 0 {
            None
        } else {
            Some(out[0])
        }
    }

    /// The press `token` names, while it is active.
    pub fn active(&self, token: &PressToken) -> (press: Option<ActivePress>)
        ensures
            press == match active_press(self@, token.key) {
                Some(p) => if p.token == *token {
                    Some(p)
                } else {
                    None
                },
                None => None,
            },
    {
        proof {
            use_type_invariant(self);
        }
        let mut i: usize = 0;
        while i < self.presses.len()
            invariant
                i <= self.presses@.len(),
                one_press_per_button(self.presses@),
                forall|j: int| 0 <= j < i ==> (#[trigger] self.presses@[j]).token != *token,
            decreases self.presses@.len() - i,
        {
            if self.presses[i].token == *token {
                proof {
                    let k = choose|k: int|
                        0 <= k < self@.len() && (#[trigger] self@[k]).token.key == token.key;
                    assert(self@[i as int].token.key == token.key);
                    if k < i {
                        assert(self@[k].token.key != self@[i as int].token.key);
                    } else if i < k {
                        assert(self@[i as int].token.key != self@[k].token.key);
                    }
                }
                return Some(self.presses[i]);
            }
            i = i + 1;
        }
        None
    }

    /// Whether any long arm is due at `now`.
    pub fn has_due_long_press(&self, now: u64) -> (due: bool)
        ensures
            due == (due_tokens(self@, now).len() > 0),
    {
        self.due_long_presses(now).len() > 0
    }

    /// The presses whose long arm is due at `now`, in order.
    pub fn due_long_presses(&self, now: u64) -> (tokens: Vec<PressToken>)
        ensures
            tokens@ == due_tokens(self@, now),
    {
        let mut tokens: Vec<PressToken> = Vec::new();
        let mut i: usize = 0;
        let ghost all = self.presses@;
        assert(all.take(0) =~= Seq::<ActivePress>::empty());
        while i < self.presses.len()
            invariant
                i <= self.presses@.len(),
                all == self.presses@,
                tokens@ == due_tokens(all.take(i as int), now),
            decreases self.presses@.len() - i,
        {
            assert(all.take(i + 1).drop_last() =~= all.take(i as int));
            if self.presses[i].is_due(now) {
                tokens.push(self.presses[i].token);
            }
            i = i + 1;
        }
        assert(all.take(i as int) =~= all);
        tokens
    }

    /// Runs the long arm of every press in `tokens` that is still active and due
    /// at `now`, in order.
    pub fn fire_selected_long_presses(
        &mut self,
        tokens: &Vec<PressToken>,
        now: u64,
    ) -> (fired: Vec<(ActivePress, Action)>)
        ensures
            final(self)@ == after_firing(old(self)@, tokens@, now),
            fired@ == fired_presses(old(self)@, tokens@, now),
    {
        proof {
            use_type_invariant(&*self);
        }
        let ghost all = self.presses@;
        let mut presses: Vec<ActivePress> = Vec::new();
        std::mem::swap(&mut presses, &mut self.presses);
        let mut fired: Vec<(ActivePress, Action)> = Vec::new();
        let mut i: usize = 0;
        assert(all.take(0) =~= Seq::<ActivePress>::empty());
        assert(after_firing(all.take(0), tokens@, now) =~= Seq::<ActivePress>::empty());
        let n: usize = presses.len();
        while i < n
            invariant
                i <= n == presses@.len() == all.len(),
                presses@ == after_firing(all.take(i as int), tokens@, now) + all.skip(
                    i as int,
                ),
                fired@ == fired_presses(all.take(i as int), tokens@, now),
            decreases n - i,
        {
            assert(all.take(i + 1).drop_last() =~= all.take(i as int));
            assert(presses@[i as int] == all[i as int]);
            let mut press = presses[i];
            if contains_token(tokens, &press.token) {
                if let Some(action) = press.fire_long(now) {
                    presses.set(i, press);
                    fired.push((press, action));
                }
            }
            assert(presses@ =~= after_firing(all.take(i + 1), tokens@, now) + all.skip(i + 1));
            i = i + 1;
        }
        assert(all.take(i as int) =~= all);
        assert(presses@ =~= after_firing(all, tokens@, now));
        assert forall|i: int, j: int| 0 <= i < j < presses@.len() implies (
        #[trigger] presses@[i]).token.key != (#[trigger] presses@[j]).token.key by {
            assert(all[i].token.key != all[j].token.key);
        }
        self.presses = presses;
        fired
    }
}

/// Whether `tokens` holds `token`.
pub fn contains_token(tokens: &Vec<PressToken>, token: &PressToken) -> (found: bool)
    ensures
        found == tokens@.contains(*token),
{
    let mut i: usize = 0;
    while i < tokens.len()
        invariant
            i <= tokens@.len(),
            forall|j: int| 0 <= j < i ==> tokens@[j] != *token,
        decreases tokens@.len() - i,
    {
        if tokens[i] == *token {
            assert(tokens@[i as int] == *token);
            return true;
        }
        i = i + 1;
    }
    false
}

/// The press of a button, while one is active.
pub open spec fn active_press(presses: Seq<ActivePress>, key: PressKey) -> Option<ActivePress> {
    if exists|i: int| 0 <= i < presses.len() && (#[trigger] presses[i]).token.key == key {
        Some(
            presses[choose|i: int| 0 <= i < presses.len() && (#[trigger] presses[i]).token.key == key],
        )
    } else {
        None
    }
}

/// The tokens of the presses whose long arm is due, in order.
pub open spec fn due_tokens(presses: Seq<ActivePress>, now: u64) -> Seq<PressToken>
    decreases presses.len(),
{
    if presses.len() == 0 {
        Seq::empty()
    } else if presses.last().due(now) {
        due_tokens(presses.drop_last(), now).push(presses.last().token)
    } else {
        due_tokens(presses.drop_last(), now)
    }
}

/// Whether firing `tokens` at `now` runs the long arm of `press`.
pub open spec fn fires(press: ActivePress, tokens: Seq<PressToken>, now: u64) -> bool {
    tokens.contains(press.token) && press.due(now)
}

/// The presses after firing `tokens`.
pub open spec fn after_firing(
    presses: Seq<ActivePress>,
    tokens: Seq<PressToken>,
    now: u64,
) -> Seq<ActivePress> {
    Seq::new(
        presses.len(),
        |i: int|
            if fires(presses[i], tokens, now) {
                presses[i].fired()
            } else {
                presses[i]
            },
    )
}

/// The presses that firing `tokens` runs, each with its long action, in order.
pub open spec fn fired_presses(
    presses: Seq<ActivePress>,
    tokens: Seq<PressToken>,
    now: u64,
) -> Seq<(ActivePress, Action)>
    decreases presses.len(),
{
    if presses.len() == 0 {
        Seq::empty()
    } else if fires(presses.last(), tokens, now) {
        fired_presses(presses.drop_last(), tokens, now).push(
            (presses.last().fired(), presses.last().behavior->long),
        )
    } else {
        fired_presses(presses.drop_last(), tokens, now)
    }
}

/// With one press per button, taking a button takes exactly its press.
pub proof fn lemma_button_press(presses: Seq<ActivePress>, key: PressKey)
    requires
        one_press_per_button(presses),
    ensures
        taken(presses, CancelScope::Button(key)) == match active_press(presses, key) {
            Some(press) => seq![press],
            None => Seq::<ActivePress>::empty(),
        },
    decreases presses.len(),
{
    reveal(Seq::filter);
    let scope = CancelScope::Button(key);
    if presses.len() == 0 {
    } else {
        let head = presses.drop_last();
        assert forall|i: int, j: int| 0 <= i < j < head.len() implies (
        #[trigger] head[i]).token.key != (#[trigger] head[j]).token.key by {
            assert(presses[i].token.key != presses[j].token.key);
        }
        lemma_button_press(head, key);
        let last = presses.last();
        assert(presses[presses.len() - 1] == last);
        if last.token.key == key {
            assert(active_press(head, key) is None) by {
                assert forall|i: int| 0 <= i < head.len() implies (
                #[trigger] head[i]).token.key != key by {
                    assert(presses[i].token.key != presses[presses.len() - 1].token.key);
                }
            }
            let p = choose|i: int|
                0 <= i < presses.len() && (#[trigger] presses[i]).token.key == key;
            if p < presses.len() - 1 {
                assert(presses[p].token.key != presses[presses.len() - 1].token.key);
            }
            assert(taken(presses, scope) =~= seq![last]);
        } else {
            assert forall|i: int| 0 <= i < presses.len() && (
            #[trigger] presses[i]).token.key == key implies i < head.len() && head[i] == presses[i] by {
            }
            if active_press(head, key) is Some {
                let q = choose|i: int| 0 <= i < head.len() && (#[trigger] head[i]).token.key == key;
                assert(presses[q].token.key == key);
                let p = choose|i: int|
                    0 <= i < presses.len() && (#[trigger] presses[i]).token.key == key;
                assert(head[p].token.key == key);
                if p < q {
                    assert(presses[p].token.key != presses[q].token.key);
                } else if q < p {
                    assert(presses[q].token.key != presses[p].token.key);
                }
            } else {
                assert(active_press(presses, key) is None);
            }
        }
    }
}

/// Leaving out presses keeps at most one press per button.
pub proof fn lemma_left_keeps_one_per_button(presses: Seq<ActivePress>, scope: CancelScope)
    requires
        one_press_per_button(presses),
    ensures
        one_press_per_button(left(presses, scope)),
        forall|p: ActivePress| #[trigger]
            left(presses, scope).contains(p) ==> presses.contains(p) && !scope.takes(p),
        forall|p: ActivePress| #[trigger]
            presses.contains(p) && !scope.takes(p) ==> left(presses, scope).contains(p),
    decreases presses.len(),
{
    reveal(Seq::filter);
    let all = left(presses, scope);
    if presses.len() > 0 {
        let head = presses.drop_last();
        let last = presses.last();
        assert forall|i: int, j: int| 0 <= i < j < head.len() implies (
        #[trigger] head[i]).token.key != (#[trigger] head[j]).token.key by {
            assert(presses[i].token.key != presses[j].token.key);
        }
        lemma_left_keeps_one_per_button(head, scope);
        let rest = left(head, scope);
        assert forall|p: ActivePress| #[trigger] all.contains(p) implies presses.contains(p)
            && !scope.takes(p) by {
            let i = choose|i: int| 0 <= i < all.len() && all[i] == p;
            if i < rest.len() {
                assert(rest[i] == p);
                assert(rest.contains(p));
                let k = choose|k: int| 0 <= k < head.len() && head[k] == p;
                assert(presses[k] == p);
            } else {
                assert(p == last);
                assert(presses[presses.len() - 1] == p);
            }
        }
        assert forall|p: ActivePress| #[trigger] presses.contains(p) && !scope.takes(p) implies all.contains(p) by {
            let k = choose|k: int| 0 <= k < presses.len() && presses[k] == p;
            if k < head.len() {
                assert(head[k] == p);
                assert(head.contains(p));
                assert(rest.contains(p));
                let i = choose|i: int| 0 <= i < rest.len() && rest[i] == p;
                assert(all[i] == p);
            } else {
                assert(all[all.len() - 1] == p);
            }
        }
        assert forall|i: int, j: int| 0 <= i < j < all.len() implies (
        #[trigger] all[i]).token.key != (#[trigger] all[j]).token.key by {
            assert(all[i] == rest[i]);
            if j < rest.len() {
                assert(all[j] == rest[j]);
            } else {
                assert(all[j] == last);
                assert(rest.contains(rest[i]));
                assert(head.contains(rest[i]));
                let k = choose|k: int| 0 <= k < head.len() && head[k] == rest[i];
                assert(presses[k] == head[k]);
                assert(presses[k].token.key != presses[presses.len() - 1].token.key);
            }
        }
    }
}

} // verus!
