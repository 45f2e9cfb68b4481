//! Work budgets of one cooperative poll of the network stack.
//!
//! A poll alternates between ingress and egress until both directions have
//! nothing left to do, run into their budget or, for egress, wait for the
//! driver. The state below counts the work and decides when to stop.
use vstd::prelude::*;

verus! {

/// Number of frames that one direction may take before the other gets a turn.
pub const DIRECTION_QUANTUM: u8 = 4;

/// Number of frames that one poll may receive.
///
/// A poll never consumes the whole 64-packet reserve of an application socket:
/// it returns after half of it, so that the owner of the socket gets a turn
/// before ingress can fill the queue by itself.
pub const INGRESS_LIMIT: u8 = 32;

/// Number of frames that one poll may hand to the driver.
pub const EGRESS_LIMIT: u8 = 32;

/// What one ingress primitive of the stack reports.
#[derive(Clone, Copy, Debug, Eq, PartialEq, Structural)]
pub enum PollIngressSingleResult {
    /// No packet was waiting.
    Idle,
    /// A packet was processed, and no socket changed its state.
    PacketProcessed,
    /// A packet was processed, and a socket may have changed its state.
    SocketStateChanged,
}

/// What one egress pass of the stack reports.
#[derive(Clone, Copy, Debug, Eq, PartialEq, Structural)]
pub enum PollResult {
    /// No socket changed its state.
    Idle,
    /// A socket may have changed its state.
    SocketStateChanged,
}

/// Why one bounded work-conserving poll returned to the executor.
#[derive(Clone, Copy, Debug, Eq, PartialEq, Structural)]
pub enum CooperativePollExit {
    /// Neither direction reported runnable work.
    Drained,
    /// At least one direction reached its production work budget.
    WorkBudget,
    /// Application egress is waiting for a driver TX credit.
    EgressCredit,
}

/// Aggregate evidence from one production scheduler turn.
#[derive(Clone, Copy, Debug, Eq, PartialEq, Structural)]
pub struct CooperativePollReport {
    /// Number of ingress primitives invoked.
    pub ingress_calls: u8,
    /// Number of ingress packets processed.
    pub ingress_packets: u8,
    /// Number of bounded egress socket passes invoked.
    pub egress_passes: u8,
    /// Number of driver TX tokens issued to application egress.
    pub egress_tx_tokens: u32,
    /// Whether application egress exhausted hardware TX credits.
    pub egress_blocked: bool,
    /// Whether ingress reached its frame budget.
    pub ingress_budget_exhausted: bool,
    /// Whether egress reached its issued-frame budget.
    pub egress_budget_exhausted: bool,
    /// Whether this turn started with ingress.
    pub started_with_ingress: bool,
    /// Primary reason for returning to the executor.
    pub exit: CooperativePollExit,
}

/// Whether this turn starts with ingress. The next turn starts with the other
/// direction.
pub fn take_start_direction(next_starts_with_ingress: &mut bool) -> (starts_with_ingress: bool)
    ensures
        starts_with_ingress == *old(next_starts_with_ingress),
        *final(next_starts_with_ingress) == !starts_with_ingress,
{
    let starts_with_ingress = *next_starts_with_ingress;
    *next_starts_with_ingress = !starts_with_ingress;
    starts_with_ingress
}

/// The work that one poll has done so far.
#[derive(Clone, Copy, Debug, Eq, PartialEq, Structural)]
pub struct CooperativePollState {
    pub ingress_calls: u8,
    pub ingress_packets: u8,
    pub egress_passes: u8,
    pub egress_tx_tokens: u32,
    pub ingress_drained: bool,
    pub egress_drained: bool,
    pub egress_blocked: bool,
    pub started_with_ingress: bool,
}

/// `a` plus `b`, held at `max`.
pub open spec fn capped_sum(a: int, b: int, max: int) -> int {
    if a + b > max {
        max
    } else {
        a + b
    }
}

impl CooperativePollState {
    /// No work is done yet.
    pub open spec fn initial(started_with_ingress: bool) -> Self {
        CooperativePollState {
            ingress_calls: 0,
            ingress_packets: 0,
            egress_passes: 0,
            egress_tx_tokens: 0,
            ingress_drained: false,
            egress_drained: false,
            egress_blocked: false,
            started_with_ingress,
        }
    }

    /// Packets may still wait, and the ingress budget is spent.
    pub open spec fn ingress_budget_spent(self) -> bool {
        !self.ingress_drained && self.ingress_packets >= INGRESS_LIMIT
    }

    /// Frames may still wait, the driver takes them, and the egress budget is
    /// spent.
    pub open spec fn egress_budget_spent(self) -> bool {
        !self.egress_drained && !self.egress_blocked && self.egress_tx_tokens >= EGRESS_LIMIT
    }

    /// Packets may still wait, and the ingress budget has room.
    pub open spec fn ingress_open(self) -> bool {
        !self.ingress_drained && self.ingress_packets < INGRESS_LIMIT
    }

    /// Frames may still wait, the driver takes them, and the egress budget has
    /// room.
    pub open spec fn egress_open(self) -> bool {
        !self.egress_drained && !self.egress_blocked && self.egress_tx_tokens < EGRESS_LIMIT
    }

    /// The state after one ingress primitive reported `result`.
    pub open spec fn after_ingress(self, result: PollIngressSingleResult) -> Self {
        let calls = capped_sum(self.ingress_calls as int, 1, u8::MAX as int) as u8;
        if result is Idle {
            CooperativePollState { ingress_calls: calls, ingress_drained: true, ..self }
        } else {
            CooperativePollState {
                ingress_calls: calls,
                ingress_packets: capped_sum(self.ingress_packets as int, 1, u8::MAX as int) as u8,
                egress_drained: false,
                ..self
            }
        }
    }

    /// The state after one egress pass issued `tx_tokens` and reported the rest.
    pub open spec fn after_egress(
        self,
        result: PollResult,
        tx_tokens: u32,
        blocked: bool,
        quantum_exhausted: bool,
    ) -> Self {
        CooperativePollState {
            egress_passes: capped_sum(self.egress_passes as int, 1, u8::MAX as int) as u8,
            egress_tx_tokens: capped_sum(
                self.egress_tx_tokens as int,
                tx_tokens as int,
                u32::MAX as int,
            ) as u32,
            egress_blocked: self.egress_blocked || blocked,
            egress_drained: result is Idle && tx_tokens == 0 && !blocked && !quantum_exhausted,
            ..self
        }
    }

    /// Why a poll that stops here returns to the executor.
    pub open spec fn exit_reason(self) -> CooperativePollExit {
        if self.ingress_budget_spent() || self.egress_budget_spent() {
            CooperativePollExit::WorkBudget
        } else if self.egress_blocked {
            CooperativePollExit::EgressCredit
        } else {
            CooperativePollExit::Drained
        }
    }

    /// The state of a poll that starts now.
    pub fn new(started_with_ingress: bool) -> (state: Self)
        ensures
            state == Self::initial(started_with_ingress),
    {
        CooperativePollState {
            ingress_calls: 0,
            ingress_packets: 0,
            egress_passes: 0,
            egress_tx_tokens: 0,
            ingress_drained: false,
            egress_drained: false,
            egress_blocked: false,
            started_with_ingress,
        }
    }

    /// Whether another ingress primitive may run.
    pub fn can_poll_ingress(&self) -> (open: bool)
        ensures
            open == self.ingress_open(),
    {
        !self.ingress_drained && self.ingress_packets < INGRESS_LIMIT
    }

    /// Whether another egress pass may run.
    pub fn can_poll_egress(&self) -> (open: bool)
        ensures
            open == self.egress_open(),
    {
        !self.egress_drained && !self.egress_blocked && self.egress_tx_tokens < EGRESS_LIMIT as u32
    }

    /// Whether either direction may run again.
    pub fn can_poll(&self) -> (open: bool)
        ensures
            open == (self.ingress_open() || self.egress_open()),
    {
        self.can_poll_ingress() || self.can_poll_egress()
    }

    /// Count one ingress primitive.
    ///
    /// A packet may have given the sockets something to send, so egress is
    /// looked at again.
    pub fn record_ingress(&mut self, result: PollIngressSingleResult)
        ensures
            *final(self) == old(self).after_ingress(result),
    {
        self.ingress_calls = self.ingress_calls.saturating_add(1);
        match result {
            PollIngressSingleResult::Idle => {
                self.ingress_drained = true;
            },
            PollIngressSingleResult::PacketProcessed
            | PollIngressSingleResult::SocketStateChanged => {
                self.ingress_packets = self.ingress_packets.saturating_add(1);
                self.egress_drained = false;
            },
        }
    }

    /// Count one egress pass.
    ///
    /// Egress has drained only where the pass had nothing to do: a pass that
    /// sent, that waits for the driver or that ran out of its quantum has not.
    pub fn record_egress(
        &mut self,
        result: PollResult,
        tx_tokens: u32,
        blocked: bool,
        quantum_exhausted: bool,
    )
        ensures
            *final(self) == old(self).after_egress(result, tx_tokens, blocked, quantum_exhausted),
    {
        self.egress_passes = self.egress_passes.saturating_add(1);
        self.egress_tx_tokens = self.egress_tx_tokens.saturating_add(tx_tokens);
        self.egress_blocked = self.egress_blocked || blocked;
        self.egress_drained = result == PollResult::Idle && tx_tokens == 0 && !blocked
            && !quantum_exhausted;
    }

    /// Whether the poll has to wake itself: it stopped at a budget, so nothing
    /// else would bring it back to the work that it left.
    pub fn should_self_wake(&self) -> (wake: bool)
        ensures
            wake == (self.ingress_budget_spent() || self.egress_budget_spent()),
    {
        (!self.ingress_drained && self.ingress_packets >= INGRESS_LIMIT) || (!self.egress_drained
            && !self.egress_blocked && self.egress_tx_tokens >= EGRESS_LIMIT as u32)
    }

    /// What the poll has done, and why it returns.
    pub fn report(&self) -> (report: CooperativePollReport)
        ensures
            report == (CooperativePollReport {
                ingress_calls: self.ingress_calls,
                ingress_packets: self.ingress_packets,
                egress_passes: self.egress_passes,
                egress_tx_tokens: self.egress_tx_tokens,
                egress_blocked: self.egress_blocked,
                ingress_budget_exhausted: self.ingress_budget_spent(),
                egress_budget_exhausted: self.egress_budget_spent(),
                started_with_ingress: self.started_with_ingress,
                exit: self.exit_reason(),
            }),
    {
        let ingress_budget_exhausted = !self.ingress_drained && self.ingress_packets
            >= INGRESS_LIMIT;
        let egress_budget_exhausted = !self.egress_drained && !self.egress_blocked
            && self.egress_tx_tokens >= EGRESS_LIMIT as u32;
        let exit = if ingress_budget_exhausted || egress_budget_exhausted {
            CooperativePollExit::WorkBudget
        } else if self.egress_blocked {
            CooperativePollExit::EgressCredit
        } else {
            CooperativePollExit::Drained
        };
        CooperativePollReport {
            ingress_calls: self.ingress_calls,
            ingress_packets: self.ingress_packets,
            egress_passes: self.egress_passes,
            egress_tx_tokens: self.egress_tx_tokens,
            egress_blocked: self.egress_blocked,
            ingress_budget_exhausted,
            egress_budget_exhausted,
            started_with_ingress: self.started_with_ingress,
            exit,
        }
    }
}

/// One piece of work of a poll, with what it reported.
pub enum CooperativeWork {
    /// An ingress primitive ran.
    Ingress(PollIngressSingleResult),
    /// An egress pass ran.
    Egress { result: PollResult, tx_tokens: u32, blocked: bool, quantum_exhausted: bool },
}

impl CooperativePollState {
    /// The state after one piece of work.
    pub open spec fn after(self, work: CooperativeWork) -> Self {
        match work {
            CooperativeWork::Ingress(result) => self.after_ingress(result),
            CooperativeWork::Egress { result, tx_tokens, blocked, quantum_exhausted } =>
                self.after_egress(result, tx_tokens, blocked, quantum_exhausted),
        }
    }

    /// The direction of this piece of work may run.
    pub open spec fn admits(self, work: CooperativeWork) -> bool {
        match work {
            CooperativeWork::Ingress(_) => self.ingress_open(),
            CooperativeWork::Egress { .. } => self.egress_open(),
        }
    }

    /// The state after a whole turn, oldest work first.
    pub open spec fn after_turn(self, turn: Seq<CooperativeWork>) -> Self
        decreases turn.len(),
    {
        if turn.len() == 0 {
            self
        } else {
            self.after_turn(turn.drop_last()).after(turn.last())
        }
    }

    /// Each piece of work of the turn ran while its direction was open, and no
    /// egress pass issued more than `quantum` tokens.
    pub open spec fn admits_turn(self, turn: Seq<CooperativeWork>, quantum: int) -> bool
        decreases turn.len(),
    {
        turn.len() == 0 || {
            &&& self.admits_turn(turn.drop_last(), quantum)
            &&& self.after_turn(turn.drop_last()).admits(turn.last())
            &&& turn.last() matches CooperativeWork::Egress { tx_tokens, .. } ==> tx_tokens
                <= quantum
        }
    }

    /// Each ingress primitive of the turn ran while ingress was open. Its egress
    /// passes may have run at any time.
    pub open spec fn admits_ingress_of(self, turn: Seq<CooperativeWork>) -> bool
        decreases turn.len(),
    {
        turn.len() == 0 || {
            &&& self.admits_ingress_of(turn.drop_last())
            &&& turn.last() is Ingress ==> self.after_turn(turn.drop_last()).ingress_open()
        }
    }
}

/// How many pieces of ingress work the turn holds.
pub open spec fn ingress_count(turn: Seq<CooperativeWork>) -> nat
    decreases turn.len(),
{
    if turn.len() == 0 {
        0
    } else {
        ingress_count(turn.drop_last()) + if turn.last() is Ingress {
            1nat
        } else {
            0nat
        }
    }
}

/// How many tokens the egress passes of the turn issued.
pub open spec fn token_count(turn: Seq<CooperativeWork>) -> nat
    decreases turn.len(),
{
    if turn.len() == 0 {
        0
    } else {
        token_count(turn.drop_last()) + match turn.last() {
            CooperativeWork::Egress { tx_tokens, .. } => tx_tokens as nat,
            CooperativeWork::Ingress(_) => 0nat,
        }
    }
}

/// A poll that asks before each ingress primitive runs at most `INGRESS_LIMIT`
/// of them, and so receives at most as many packets, whatever egress does. The
/// counters are exact: they do not saturate.
pub proof fn law_ingress_is_bounded(started_with_ingress: bool, turn: Seq<CooperativeWork>)
    requires
        CooperativePollState::initial(started_with_ingress).admits_ingress_of(turn),
    ensures
        ({
            let end = CooperativePollState::initial(started_with_ingress).after_turn(turn);
            &&& ingress_count(turn) <= INGRESS_LIMIT
            &&& end.ingress_calls == ingress_count(turn)
            &&& end.ingress_packets <= INGRESS_LIMIT
            &&& end.ingress_packets + if end.ingress_drained {
                1int
            } else {
                0int
            } == ingress_count(turn)
        }),
    decreases turn.len(),
{
    if turn.len() > 0 {
        law_ingress_is_bounded(started_with_ingress, turn.drop_last());
    }
}

/// A poll that asks before each piece of work runs at most `INGRESS_LIMIT`
/// ingress primitives and issues fewer than `EGRESS_LIMIT` plus one quantum
/// of tokens. Its counters are exact: they do not saturate.
pub proof fn law_turn_is_bounded(
    started_with_ingress: bool,
    turn: Seq<CooperativeWork>,
    quantum: int,
)
    requires
        0 <= quantum <= u32::MAX - EGRESS_LIMIT,
        CooperativePollState::initial(started_with_ingress).admits_turn(turn, quantum),
    ensures
        ({
            let end = CooperativePollState::initial(started_with_ingress).after_turn(turn);
            &&& ingress_count(turn) <= INGRESS_LIMIT
            &&& end.ingress_calls == ingress_count(turn)
            &&& end.ingress_packets + if end.ingress_drained {
                1int
            } else {
                0int
            } == ingress_count(turn)
            &&& token_count(turn) < EGRESS_LIMIT + quantum || token_count(turn) == 0
            &&& end.egress_tx_tokens == token_count(turn)
        }),
    decreases turn.len(),
{
    if turn.len() > 0 {
        law_turn_is_bounded(started_with_ingress, turn.drop_last(), quantum);
    }
}

/// A poll that can go on in neither direction, and that does not report a spent
/// budget or a missing credit, has drained both directions.
pub proof fn law_drained_exit_is_drained(state: CooperativePollState)
    requires
        !state.ingress_open(),
        !state.egress_open(),
    ensures
        state.exit_reason() == CooperativePollExit::Drained ==> state.ingress_drained
            && state.egress_drained,
        state.exit_reason() == CooperativePollExit::EgressCredit ==> state.ingress_drained
            && state.egress_blocked,
{
}

/// A poll wakes itself exactly where it reports a spent budget. A poll that has
/// drained both directions, or has drained ingress and waits for a credit, does
/// not.
pub proof fn law_self_wake_is_work_budget(state: CooperativePollState)
    ensures
        (state.ingress_budget_spent() || state.egress_budget_spent()) <==> state.exit_reason()
            == CooperativePollExit::WorkBudget,
        state.ingress_drained && (state.egress_drained || state.egress_blocked)
            ==> state.exit_reason() != CooperativePollExit::WorkBudget,
{
}

/// Egress work leaves ingress as open as it was: a missing transmit credit does
/// not stop the poll from receiving.
pub proof fn law_egress_does_not_close_ingress(
    state: CooperativePollState,
    result: PollResult,
    tx_tokens: u32,
    blocked: bool,
    quantum_exhausted: bool,
)
    ensures
        state.after_egress(result, tx_tokens, blocked, quantum_exhausted).ingress_open()
            == state.ingress_open(),
        blocked ==> !state.after_egress(
            result,
            tx_tokens,
            blocked,
            quantum_exhausted,
        ).egress_open(),
{
}

/// A pass that ran out of its quantum has not drained egress: it stays open
/// while the budget has room and the driver takes frames.
pub proof fn law_quantum_stop_is_no_drain(
    state: CooperativePollState,
    result: PollResult,
    tx_tokens: u32,
)
    requires
        !state.egress_blocked,
        state.egress_tx_tokens + tx_tokens < EGRESS_LIMIT,
    ensures
        state.after_egress(result, tx_tokens, false, true).egress_open(),
{
}

/// A processed packet opens egress again, as far as the budget and the driver
/// allow.
pub proof fn law_packet_reopens_egress(
    state: CooperativePollState,
    result: PollIngressSingleResult,
)
    requires
        !(result is Idle),
        !state.egress_blocked,
        state.egress_tx_tokens < EGRESS_LIMIT,
    ensures
        state.after_ingress(result).egress_open(),
{
}

/// An ingress primitive of the turn found no packet.
pub open spec fn found_no_packet(turn: Seq<CooperativeWork>) -> bool {
    exists|i: int|
        0 <= i < turn.len() && #[trigger] turn[i] == CooperativeWork::Ingress(
            PollIngressSingleResult::Idle,
        )
}

/// An egress pass of the turn had to wait for the driver.
pub open spec fn found_no_credit(turn: Seq<CooperativeWork>) -> bool {
    exists|i: int|
        0 <= i < turn.len() && (#[trigger] turn[i] matches CooperativeWork::Egress { blocked, .. }
            && blocked)
}

/// The piece of work is an egress pass that had nothing to do.
pub open spec fn is_idle_pass(work: CooperativeWork) -> bool {
    work == CooperativeWork::Egress {
        result: PollResult::Idle,
        tx_tokens: 0,
        blocked: false,
        quantum_exhausted: false,
    }
}

/// An egress pass had nothing to do, and since then no other pass ran and no
/// packet came.
pub open spec fn egress_rests(turn: Seq<CooperativeWork>) -> bool {
    exists|i: int| #[trigger] rests_since(turn, i)
}

/// The egress pass at `start` had nothing to do, and since then no other pass
/// ran and no packet came.
pub open spec fn rests_since(turn: Seq<CooperativeWork>, start: int) -> bool {
    &&& 0 <= start < turn.len()
    &&& is_idle_pass(turn[start])
    &&& forall|i: int|
        start < i < turn.len() ==> #[trigger] turn[i] == CooperativeWork::Ingress(
            PollIngressSingleResult::Idle,
        )
}

/// How many packets the turn received.
pub open spec fn packet_count(turn: Seq<CooperativeWork>) -> nat
    decreases turn.len(),
{
    if turn.len() == 0 {
        0
    } else {
        packet_count(turn.drop_last()) + match turn.last() {
            CooperativeWork::Ingress(PollIngressSingleResult::PacketProcessed) => 1nat,
            CooperativeWork::Ingress(PollIngressSingleResult::SocketStateChanged) => 1nat,
            _ => 0nat,
        }
    }
}

/// How many egress passes the turn holds.
pub open spec fn pass_count(turn: Seq<CooperativeWork>) -> nat
    decreases turn.len(),
{
    if turn.len() == 0 {
        0
    } else {
        pass_count(turn.drop_last()) + if turn.last() is Egress {
            1nat
        } else {
            0nat
        }
    }
}

proof fn lemma_turn_splits(turn: Seq<CooperativeWork>)
    requires
        turn.len() > 0,
    ensures
        found_no_packet(turn) <==> found_no_packet(turn.drop_last()) || turn.last()
            == CooperativeWork::Ingress(PollIngressSingleResult::Idle),
        found_no_credit(turn) <==> found_no_credit(turn.drop_last()) || (turn.last() matches
            CooperativeWork::Egress { blocked, .. } && blocked),
        egress_rests(turn) <==> is_idle_pass(turn.last()) || (turn.last()
            == CooperativeWork::Ingress(PollIngressSingleResult::Idle) && egress_rests(
            turn.drop_last(),
        )),
{
    let rest = turn.drop_last();
    let last = turn.len() - 1;
    assert(turn[last] == turn.last());
    assert forall|i: int| 0 <= i < last implies #[trigger] rest[i] == turn[i] by {}
    if found_no_packet(rest) {
        let i = choose|i: int|
            0 <= i < rest.len() && #[trigger] rest[i] == CooperativeWork::Ingress(
                PollIngressSingleResult::Idle,
            );
        assert(turn[i] == CooperativeWork::Ingress(PollIngressSingleResult::Idle));
    }
    if found_no_packet(turn) {
        let i = choose|i: int|
            0 <= i < turn.len() && #[trigger] turn[i] == CooperativeWork::Ingress(
                PollIngressSingleResult::Idle,
            );
        if i < last {
            assert(rest[i] == turn[i]);
        }
    }
    if found_no_credit(rest) {
        let i = choose|i: int|
            0 <= i < rest.len() && (#[trigger] rest[i] matches CooperativeWork::Egress {
                blocked,
                ..
            } && blocked);
        assert(turn[i] == rest[i]);
    }
    if found_no_credit(turn) {
        let i = choose|i: int|
            0 <= i < turn.len() && (#[trigger] turn[i] matches CooperativeWork::Egress {
                blocked,
                ..
            } && blocked);
        if i < last {
            assert(rest[i] == turn[i]);
        }
    }
    if is_idle_pass(turn.last()) {
        assert(rests_since(turn, last));
    }
    if egress_rests(rest) && turn.last() == CooperativeWork::Ingress(PollIngressSingleResult::Idle) {
        let start = choose|i: int| #[trigger] rests_since(rest, i);
        assert forall|i: int| start < i < turn.len() implies #[trigger] turn[i]
            == CooperativeWork::Ingress(PollIngressSingleResult::Idle) by {
            if i < last {
                assert(rest[i] == turn[i]);
            }
        }
        assert(turn[start] == rest[start]);
        assert(rests_since(turn, start));
    }
    if egress_rests(turn) {
        let start = choose|i: int| #[trigger] rests_since(turn, i);
        if start < last {
            assert(turn[last] == CooperativeWork::Ingress(PollIngressSingleResult::Idle));
            assert(rest[start] == turn[start]);
            assert forall|i: int| start < i < rest.len() implies #[trigger] rest[i]
                == CooperativeWork::Ingress(PollIngressSingleResult::Idle) by {
                assert(rest[i] == turn[i]);
            }
            assert(rests_since(rest, start));
        }
    }
}

/// The state tells what the turn has done: how much of each kind of work there
/// was, as far as the counters reach, whether ingress ran dry, whether the
/// driver ran out of credits, and whether egress has rested since its last pass.
pub proof fn law_state_follows_the_turn(started_with_ingress: bool, turn: Seq<CooperativeWork>)
    ensures
        ({
            let end = CooperativePollState::initial(started_with_ingress).after_turn(turn);
            &&& end.started_with_ingress == started_with_ingress
            &&& end.ingress_drained <==> found_no_packet(turn)
            &&& end.egress_blocked <==> found_no_credit(turn)
            &&& end.egress_drained <==> egress_rests(turn)
            &&& end.ingress_calls == ingress_count(turn) || (end.ingress_calls == u8::MAX
                && ingress_count(turn) > u8::MAX)
            &&& end.ingress_packets == packet_count(turn) || (end.ingress_packets == u8::MAX
                && packet_count(turn) > u8::MAX)
            &&& end.egress_passes == pass_count(turn) || (end.egress_passes == u8::MAX
                && pass_count(turn) > u8::MAX)
            &&& end.egress_tx_tokens == token_count(turn) || (end.egress_tx_tokens == u32::MAX
                && token_count(turn) > u32::MAX)
        }),
    decreases turn.len(),
{
    if turn.len() > 0 {
        law_state_follows_the_turn(started_with_ingress, turn.drop_last());
        lemma_turn_splits(turn);
        match turn.last() {
            CooperativeWork::Ingress(result) => {},
            CooperativeWork::Egress { .. } => {},
        }
    }
}

/// Whichever direction a poll starts with, another ingress primitive may run
/// exactly while none found the queue empty and fewer than 32 packets were
/// received. Half of the 64-packet reserve of a socket is never exceeded.
pub proof fn law_ingress_is_open(
    started_with_ingress: bool,
    turn: Seq<CooperativeWork>,
    state: CooperativePollState,
    open: bool,
)
    requires
        state == CooperativePollState::initial(started_with_ingress).after_turn(turn),
        call_ensures(CooperativePollState::can_poll_ingress, (&state,), open),
    ensures
        open <==> !found_no_packet(turn) && packet_count(turn) < 32,
{
    law_state_follows_the_turn(started_with_ingress, turn);
}

/// Another egress pass may run exactly while no pass had to wait for the driver,
/// the last one found something to do or a packet came since, and fewer than 32
/// tokens were issued.
pub proof fn law_egress_is_open(
    started_with_ingress: bool,
    turn: Seq<CooperativeWork>,
    state: CooperativePollState,
    open: bool,
)
    requires
        state == CooperativePollState::initial(started_with_ingress).after_turn(turn),
        call_ensures(CooperativePollState::can_poll_egress, (&state,), open),
    ensures
        open <==> !found_no_credit(turn) && !egress_rests(turn) && token_count(turn) < 32,
{
    law_state_follows_the_turn(started_with_ingress, turn);
}

/// A poll goes on while either direction may.
pub proof fn law_poll_goes_on_in_either_direction(
    state: CooperativePollState,
    open: bool,
    ingress: bool,
    egress: bool,
)
    requires
        call_ensures(CooperativePollState::can_poll, (&state,), open),
        call_ensures(CooperativePollState::can_poll_ingress, (&state,), ingress),
        call_ensures(CooperativePollState::can_poll_egress, (&state,), egress),
    ensures
        open <==> ingress || egress,
{
}

/// A poll wakes itself exactly where it received 32 packets or more and the
/// queue may hold others, or where it issued 32 tokens or more, the driver takes
/// frames, and egress may have others. The report says which, and names a spent
/// budget before a missing credit, and either before a drain.
pub proof fn law_report_tells_the_turn(
    started_with_ingress: bool,
    turn: Seq<CooperativeWork>,
    state: CooperativePollState,
    wake: bool,
    report: CooperativePollReport,
)
    requires
        state == CooperativePollState::initial(started_with_ingress).after_turn(turn),
        call_ensures(CooperativePollState::should_self_wake, (&state,), wake),
        call_ensures(CooperativePollState::report, (&state,), report),
    ensures
        report.ingress_budget_exhausted <==> !found_no_packet(turn) && packet_count(turn) >= 32,
        report.egress_budget_exhausted <==> !egress_rests(turn) && !found_no_credit(turn)
            && token_count(turn) >= 32,
        wake <==> report.ingress_budget_exhausted || report.egress_budget_exhausted,
        report.exit is WorkBudget <==> wake,
        report.exit is EgressCredit <==> !wake && found_no_credit(turn),
        report.exit is Drained <==> !wake && !found_no_credit(turn),
        report.egress_blocked <==> found_no_credit(turn),
        report.started_with_ingress == started_with_ingress,
        ingress_count(turn) <= u8::MAX ==> report.ingress_calls == ingress_count(turn),
        packet_count(turn) <= u8::MAX ==> report.ingress_packets == packet_count(turn),
        pass_count(turn) <= u8::MAX ==> report.egress_passes == pass_count(turn),
        token_count(turn) <= u32::MAX ==> report.egress_tx_tokens == token_count(turn),
        ingress_count(turn) > u8::MAX ==> report.ingress_calls == u8::MAX,
        packet_count(turn) > u8::MAX ==> report.ingress_packets == u8::MAX,
        pass_count(turn) > u8::MAX ==> report.egress_passes == u8::MAX,
        token_count(turn) > u32::MAX ==> report.egress_tx_tokens == u32::MAX,
{
    law_state_follows_the_turn(started_with_ingress, turn);
}

/// The calls record the turn: each leads to the state after the piece of work
/// that it is told of, and the first state is one without work.
pub proof fn law_calls_record_the_turn(
    started_with_ingress: bool,
    first: CooperativePollState,
    before: CooperativePollState,
    work: CooperativeWork,
    after: CooperativePollState,
)
    requires
        call_ensures(CooperativePollState::new, (started_with_ingress,), first),
        exists|state: &mut CooperativePollState|
            *state == before && *final(state) == after && match work {
                CooperativeWork::Ingress(result) => call_ensures(
                    CooperativePollState::record_ingress,
                    (state, result),
                    (),
                ),
                CooperativeWork::Egress { result, tx_tokens, blocked, quantum_exhausted } =>
                    call_ensures(
                    CooperativePollState::record_egress,
                    (state, result, tx_tokens, blocked, quantum_exhausted),
                    (),
                ),
            },
    ensures
        first == CooperativePollState::initial(started_with_ingress).after_turn(Seq::empty()),
        forall|turn: Seq<CooperativeWork>|
            before == CooperativePollState::initial(started_with_ingress).after_turn(turn)
                ==> after == #[trigger] CooperativePollState::initial(
                started_with_ingress,
            ).after_turn(turn.push(work)),
{
    assert forall|turn: Seq<CooperativeWork>|
        before == CooperativePollState::initial(started_with_ingress).after_turn(turn) implies after
        == #[trigger] CooperativePollState::initial(started_with_ingress).after_turn(
        turn.push(work),
    ) by {
        assert(turn.push(work).drop_last() =~= turn);
    }
}

/// Turns start with ingress and with egress in turn.
pub proof fn law_start_direction_alternates(
    first: bool,
    next: bool,
    second: bool,
    after: bool,
    one: bool,
)
    requires
        exists|direction: &mut bool|
            *direction == one && *final(direction) == next && call_ensures(
                take_start_direction,
                (direction,),
                first,
            ),
        exists|direction: &mut bool|
            *direction == next && *final(direction) == after && call_ensures(
                take_start_direction,
                (direction,),
                second,
            ),
    ensures
        first == one,
        second == !first,
        after == one,
{
}

/// In one poll each direction has as much work as fills eight of its turns, and
/// ingress no more than half of the 64-packet reserve of a socket.
pub proof fn law_budgets_are_whole_turns()
    ensures
        INGRESS_LIMIT == 8 * DIRECTION_QUANTUM,
        EGRESS_LIMIT == 8 * DIRECTION_QUANTUM,
        2 * INGRESS_LIMIT == 64,
{
}

} // verus!
