//! The match itself: the player registry, the admission bookkeeping, the
//! start broadcast construction, and the tick scheduler arithmetic.
//!
//! A [`Game`] is owned by a single task.  During admission it seats players
//! handed over by the lobby; once the configured target population is
//! reached it yields the start messages exactly once; then its tick loop
//! drains the fan-in queue, applies close events, and computes how long to
//! sleep until the next fixed-origin tick deadline.

use vstd::prelude::*;

use crate::msg::ConnectionMessage;
use crate::msg::Player;
use crate::msg::PlayerStartMsg;
use crate::msg::Position;
use crate::msg::SerializationType;
use crate::msg::spec_start_msg;
use crate::msg::create_player_start_msg;
use crate::msg::SPAWN_X;
use crate::msg::SPAWN_Y;
use crate::queue::clone_event_sender;
use crate::queue::new_event_channel;
use crate::queue::try_recv_event;

verus! {

/// Capacity of the fan-in queue shared by all receive tasks of one match.
pub const QUEUE_CAPACITY: usize = 100;

/// Length of one simulation tick in microseconds (roughly 60 ticks a second).
pub const FRAME_MICROS: u64 = 16_666;

/// Where a match stands in its lifecycle: admitting connections, ready with
/// the start broadcast still owed, running its tick loop, or over.
#[derive(Clone, Copy, Debug, PartialEq, Eq, Structural)]
pub enum Phase {
    Admitting,
    Starting,
    Running,
    Finished,
}

/// The mathematical view of a match: its configuration, its lifecycle phase,
/// the population counter, and the slot table (slot index == player id).
#[verifier::ext_equal]
pub ghost struct GameView {
    pub seed: u32,
    pub game_id: u32,
    pub ser_type: SerializationType,
    pub target: int,
    pub phase: Phase,
    pub player_count: int,
    pub slots: Seq<Option<Player>>,
}

/// Number of occupied slots.
pub open spec fn occ(slots: Seq<Option<Player>>) -> int
    decreases slots.len(),
{
    if slots.len() == 0 {
        0
    } else {
        occ(slots.drop_last()) + if slots.last() is Some {
            1int
        } else {
            0int
        }
    }
}

pub proof fn lemma_occ_bounds(slots: Seq<Option<Player>>)
    ensures
        0 <= occ(slots) <= slots.len(),
    decreases slots.len(),
{
    if slots.len() > 0 {
        lemma_occ_bounds(slots.drop_last());
    }
}

pub proof fn lemma_occ_update(slots: Seq<Option<Player>>, i: int, v: Option<Player>)
    requires
        0 <= i < slots.len(),
    ensures
        occ(slots.update(i, v)) == occ(slots) - (if slots[i] is Some {
            1int
        } else {
            0int
        }) + (if v is Some {
            1int
        } else {
            0int
        }),
    decreases slots.len(),
{
    let s2 = slots.update(i, v);
    if i == slots.len() - 1 {
        assert(s2.drop_last() =~= slots.drop_last());
    } else {
        assert(s2.drop_last() =~= slots.drop_last().update(i, v));
        lemma_occ_update(slots.drop_last(), i, v);
        assert(s2.last() == slots.last());
    }
}

pub proof fn lemma_occ_all_none(slots: Seq<Option<Player>>)
    requires
        forall|i: int| 0 <= i < slots.len() ==> slots[i] is None,
    ensures
        occ(slots) == 0,
    decreases slots.len(),
{
    if slots.len() > 0 {
        assert(forall|i: int| 0 <= i < slots.len() - 1 ==> slots.drop_last()[i] == slots[i]);
        lemma_occ_all_none(slots.drop_last());
    }
}

impl GameView {
    /// Well-formedness of a match state.  The population counter always
    /// counts the occupied slots; each seated player sits in the slot its id
    /// names; until the start broadcast the slots are filled sequentially
    /// from zero; the phase bounds the population against the target.
    pub open spec fn wf(self) -> bool {
        &&& self.slots.len() <= 255
        &&& 1 <= self.target <= self.slots.len()
        &&& self.player_count == occ(self.slots)
        &&& forall|i: int|
            0 <= i < self.slots.len() ==> ((#[trigger] self.slots[i]) matches Some(p) ==> p.id
                == i)
        &&& (self.phase is Admitting || self.phase is Starting) ==> forall|i: int|
            0 <= i < self.slots.len() ==> ((#[trigger] self.slots[i]) is Some <==> i
                < self.player_count)
        &&& self.phase is Admitting ==> self.player_count < self.target
        &&& self.phase is Starting ==> self.player_count == self.target
        &&& self.phase is Finished ==> self.player_count == 0
    }
}

/// Effect of seating one player: the next id is the current population, the
/// player goes into the slot of that index with the default spawn position,
/// the population rises by one, and the match becomes ready to start exactly
/// when the population reaches the target.
pub open spec fn spec_admit(v: GameView, clock_diff: i64) -> GameView {
    let id = v.player_count;
    GameView {
        phase: if v.player_count + 1 == v.target {
            Phase::Starting
        } else {
            Phase::Admitting
        },
        player_count: v.player_count + 1,
        slots: v.slots.update(
            id,
            Some(
                Player {
                    id: id as u8,
                    position: Position { x: SPAWN_X, y: SPAWN_Y },
                    clock_diff,
                },
            ),
        ),
        ..v
    }
}

/// Effect of one fan-in event on the match state: an inbound application
/// message leaves the registry alone; a close event for an occupied slot
/// clears exactly that slot and lowers the population by one; a close event
/// for an empty or out-of-range slot is a no-op.
pub open spec fn spec_process(v: GameView, m: ConnectionMessage) -> GameView {
    match m {
        ConnectionMessage::Msg(_, _) => v,
        ConnectionMessage::Close(id) => if id < v.slots.len() && v.slots[id as int] is Some {
            GameView {
                player_count: v.player_count - 1,
                slots: v.slots.update(id as int, None),
                ..v
            }
        } else {
            v
        },
    }
}

/// Effect of a whole batch of fan-in events, first to last.
pub open spec fn spec_process_all(v: GameView, msgs: Seq<ConnectionMessage>) -> GameView
    decreases msgs.len(),
{
    if msgs.len() == 0 {
        v
    } else {
        spec_process_all(spec_process(v, msgs[0]), msgs.drop_first())
    }
}

/// Effect of handing out the start broadcast: only the phase moves.
pub open spec fn spec_start(v: GameView) -> GameView {
    GameView { phase: Phase::Running, ..v }
}

/// The start messages owed to the seated players, in slot order.
pub open spec fn spec_start_msgs(slots: Seq<Option<Player>>, seed: u32) -> Seq<(u8, PlayerStartMsg)>
    decreases slots.len(),
{
    if slots.len() == 0 {
        Seq::empty()
    } else {
        spec_start_msgs(slots.drop_last(), seed) + (match slots.last() {
            Some(p) => seq![(p.id, spec_start_msg(p, seed))],
            None => Seq::empty(),
        })
    }
}

/// In a slot table still filled sequentially from zero — as every table is
/// until the start broadcast — the start messages are exactly one per
/// seated player, in id order: entry `k` is addressed to the player seated
/// in slot `k` and carries that player's message.
pub proof fn lemma_start_msgs_sequential(slots: Seq<Option<Player>>, seed: u32, n: int)
    requires
        0 <= n <= slots.len(),
        forall|i: int| 0 <= i < slots.len() ==> ((#[trigger] slots[i]) is Some <==> i < n),
    ensures
        spec_start_msgs(slots, seed).len() == n,
        forall|k: int|
            0 <= k < n ==> (#[trigger] spec_start_msgs(slots, seed)[k]) == (
            slots[k]->Some_0.id,
            spec_start_msg(slots[k]->Some_0, seed),
            ),
    decreases slots.len(),
{
    if slots.len() > 0 {
        assert(forall|i: int| 0 <= i < slots.len() - 1 ==> slots.drop_last()[i] == slots[i]);
        if slots.last() is Some {
            lemma_start_msgs_sequential(slots.drop_last(), seed, n - 1);
        } else {
            lemma_start_msgs_sequential(slots.drop_last(), seed, n);
        }
    }
}

/// Seating a player preserves well-formedness.
pub proof fn lemma_admit_preserves_wf(v: GameView, clock_diff: i64)
    requires
        v.wf(),
        v.phase is Admitting,
    ensures
        spec_admit(v, clock_diff).wf(),
{
    let id = v.player_count;
    let v2 = spec_admit(v, clock_diff);
    lemma_occ_bounds(v.slots);
    assert(v.slots[id] is None);
    lemma_occ_update(v.slots, id, v2.slots[id]);
    assert forall|i: int|
        0 <= i < v2.slots.len() implies ((#[trigger] v2.slots[i]) matches Some(p) ==> p.id
        == i) by {
        if i != id {
            assert(v2.slots[i] == v.slots[i]);
        }
    }
    assert forall|i: int|
        0 <= i < v2.slots.len() implies ((#[trigger] v2.slots[i]) is Some <==> i
        < v2.player_count) by {
        if i != id {
            assert(v2.slots[i] == v.slots[i]);
        }
    }
}

/// Applying one fan-in event keeps the state well formed, never raises the
/// population, and touches neither configuration nor phase.
pub proof fn lemma_process_preserves_wf(v: GameView, m: ConnectionMessage)
    requires
        v.wf(),
        v.phase is Running,
    ensures
        spec_process(v, m).wf(),
        spec_process(v, m).player_count <= v.player_count,
        spec_process(v, m).phase == v.phase,
        spec_process(v, m).seed == v.seed,
        spec_process(v, m).game_id == v.game_id,
        spec_process(v, m).target == v.target,
        spec_process(v, m).ser_type == v.ser_type,
        spec_process(v, m).slots.len() == v.slots.len(),
{
    let v2 = spec_process(v, m);
    match m {
        ConnectionMessage::Msg(_, _) => {},
        ConnectionMessage::Close(id) => {
            if id < v.slots.len() && v.slots[id as int] is Some {
                lemma_occ_update(v.slots, id as int, None);
                lemma_occ_bounds(v.slots.update(id as int, None));
                assert forall|i: int|
                    0 <= i < v2.slots.len() implies ((#[trigger] v2.slots[i]) matches Some(p)
                    ==> p.id == i) by {
                    if i != id as int {
                        assert(v2.slots[i] == v.slots[i]);
                    }
                }
            }
        },
    }
}

/// Applying a batch of fan-in events keeps the state well formed, never
/// raises the population, and touches neither configuration nor phase.
pub proof fn lemma_process_all_preserves_wf(v: GameView, msgs: Seq<ConnectionMessage>)
    requires
        v.wf(),
        v.phase is Running,
    ensures
        spec_process_all(v, msgs).wf(),
        spec_process_all(v, msgs).player_count <= v.player_count,
        spec_process_all(v, msgs).phase == v.phase,
        spec_process_all(v, msgs).seed == v.seed,
        spec_process_all(v, msgs).game_id == v.game_id,
        spec_process_all(v, msgs).target == v.target,
        spec_process_all(v, msgs).ser_type == v.ser_type,
        spec_process_all(v, msgs).slots.len() == v.slots.len(),
    decreases msgs.len(),
{
    if msgs.len() > 0 {
        lemma_process_preserves_wf(v, msgs[0]);
        lemma_process_all_preserves_wf(spec_process(v, msgs[0]), msgs.drop_first());
    }
}

/// The registry after a tick is what some batch of fan-in events makes of
/// the registry before it: the tick loop invents and loses nothing.
pub open spec fn registry_step(pre: GameView, post: GameView) -> bool {
    exists|evs: Seq<ConnectionMessage>|
        {
            &&& post.slots == (#[trigger] spec_process_all(pre, evs)).slots
            &&& post.player_count == spec_process_all(pre, evs).player_count
        }
}

/// Absolute deadline of a tick, in microseconds from the loop's start: tick
/// deadlines are computed from the fixed origin, never from the previous
/// tick, so short oversleeps do not accumulate into drift.
pub open spec fn spec_deadline(tick_index: u64) -> int {
    tick_index * FRAME_MICROS
}

/// How long the loop must still sleep after a tick that finished at
/// `elapsed_micros`: up to the deadline, or not at all when already past it.
pub open spec fn spec_wait(tick_index: u64, elapsed_micros: u128) -> int {
    if elapsed_micros < spec_deadline(tick_index) {
        spec_deadline(tick_index) - elapsed_micros
    } else {
        0
    }
}

/// What one pass of the match loop tells its driver: how long to sleep
/// before the next tick, and whether the match is over.
#[derive(Clone, Copy, Debug, PartialEq, Eq, Structural)]
pub struct TickStep {
    pub wait_micros: u128,
    pub done: bool,
}

/// One match instance.  The registry and counter are owned exclusively by
/// the task driving the match, so the population counter is a plain integer
/// here; the code embedding the library mirrors it into whatever shared
/// counter its shutdown detection reads.
pub struct Game {
    seed: u32,
    game_id: u32,
    ser_type: SerializationType,
    target: u8,
    phase: Phase,
    players: Vec<Option<Player>>,
    player_count: u8,
    rx: tokio::sync::mpsc::Receiver<ConnectionMessage>,
    tx: tokio::sync::mpsc::Sender<ConnectionMessage>,
}

impl View for Game {
    type V = GameView;

    closed spec fn view(&self) -> GameView {
        GameView {
            seed: self.seed,
            game_id: self.game_id,
            ser_type: self.ser_type,
            target: self.target as int,
            phase: self.phase,
            player_count: self.player_count as int,
            slots: self.players@,
        }
    }
}

impl Game {
    /// The invariant every operation preserves.
    pub open spec fn inv(&self) -> bool {
        self@.wf()
    }

    /// Create a match: an empty registry of `capacity` slots, population
    /// zero, the fan-in queue, and the admission phase.  The target
    /// population is explicit per-match configuration.
    pub fn new(
        seed: u32,
        game_id: u32,
        capacity: u8,
        target: u8,
        ser_type: SerializationType,
    ) -> (g: Game)
        requires
            1 <= target <= capacity,
        ensures
            g.inv(),
            g@.seed == seed,
            g@.game_id == game_id,
            g@.ser_type == ser_type,
            g@.target == target as int,
            g@.phase is Admitting,
            g@.player_count == 0,
            g@.slots.len() == capacity as int,
            forall|i: int| 0 <= i < capacity as int ==> g@.slots[i] is None,
    {
        let mut players: Vec<Option<Player>> = Vec::new();
        let mut i: usize = 0;
        while i < capacity as usize
            invariant
                i <= capacity as usize,
                players@.len() == i as int,
                forall|j: int| 0 <= j < i as int ==> players@[j] is None,
            decreases capacity as int - i as int,
        {
            players.push(None);
            i += 1;
        }
        let (tx, rx) = new_event_channel(QUEUE_CAPACITY);
        proof {
            lemma_occ_all_none(players@);
        }
        Game {
            seed,
            game_id,
            ser_type,
            target,
            phase: Phase::Admitting,
            players,
            player_count: 0,
            rx,
            tx,
        }
    }

    /// Another sending handle to the fan-in queue, for a newly spawned
    /// per-player receive task.
    pub fn sender(&self) -> tokio::sync::mpsc::Sender<ConnectionMessage> {
        clone_event_sender(&self.tx)
    }

    /// Readiness: the population has reached the configured target.
    pub fn is_ready(&self) -> (b: bool)
        ensures
            b == (self@.player_count == self@.target),
    {
        self.player_count == self.target
    }

    /// The current population.
    pub fn player_count(&self) -> (n: u8)
        ensures
            n as int == self@.player_count,
    {
        self.player_count
    }

    /// The current lifecycle phase.
    pub fn phase(&self) -> (p: Phase)
        ensures
            p == self@.phase,
    {
        self.phase
    }

    /// The world seed the match was created with.
    pub fn seed(&self) -> (s: u32)
        ensures
            s == self@.seed,
    {
        self.seed
    }

    /// The match id.
    pub fn game_id(&self) -> (id: u32)
        ensures
            id == self@.game_id,
    {
        self.game_id
    }

    /// The configured target population.
    pub fn target(&self) -> (t: u8)
        ensures
            t as int == self@.target,
    {
        self.target
    }

    /// The serialization mode receive tasks decode with.
    pub fn ser_type(&self) -> (s: SerializationType)
        ensures
            s == self@.ser_type,
    {
        self.ser_type
    }

    /// Seat one admitted player: allocate the next id (the current
    /// population), put the player in the slot of that index with the
    /// default spawn position and the synced clock offset, and move to the
    /// starting phase exactly when the population reaches the target.  The
    /// caller spawns the player's receive task with a handle from
    /// [`Game::sender`].
    pub fn add_player(&mut self, clock_diff: i64) -> (id: u8)
        requires
            old(self).inv(),
            old(self)@.phase is Admitting,
        ensures
            final(self).inv(),
            id as int == old(self)@.player_count,
            final(self)@ == spec_admit(old(self)@, clock_diff),
    {
        proof {
            lemma_occ_bounds(self.players@);
        }
        let id = self.player_count;
        let player = Player { id, position: Position { x: SPAWN_X, y: SPAWN_Y }, clock_diff };
        self.players[id as usize] = Some(player);
        self.player_count = id + 1;
        if self.player_count == self.target {
            self.phase = Phase::Starting;
        }
        proof {
            lemma_admit_preserves_wf(old(self)@, clock_diff);
            assert(self@ =~= spec_admit(old(self)@, clock_diff));
        }
        id
    }

    /// Apply one fan-in event: log-and-ignore an inbound message, or clear
    /// the closing player's slot and lower the population.  A close event
    /// for an already empty slot is a no-op, so repeated closes for one id
    /// change nothing.
    pub fn process_message(&mut self, msg: ConnectionMessage)
        requires
            old(self).inv(),
            old(self)@.phase is Running,
        ensures
            final(self).inv(),
            final(self)@ == spec_process(old(self)@, msg),
    {
        match &msg {
            ConnectionMessage::Msg(_from, _payload) => {},
            ConnectionMessage::Close(id) => {
                let id = *id;
                if (id as usize) < self.players.len() && self.players[id as usize].is_some() {
                    self.players[id as usize] = None;
                    proof {
                        lemma_occ_update(old(self)@.slots, id as int, None);
                        lemma_occ_bounds(old(self)@.slots.update(id as int, None));
                    }
                    self.player_count = self.player_count - 1;
                }
            },
        }
        proof {
            lemma_process_preserves_wf(old(self)@, msg);
            assert(self@ =~= spec_process(old(self)@, msg));
        }
    }

    /// Drain the fan-in queue without blocking: take the events that are
    /// there right now and return them, touching no registry state.  One
    /// call takes at most [`QUEUE_CAPACITY`] events — all the queue can hold
    /// at once — so a flood of producers cannot trap the loop here; whatever
    /// arrives meanwhile is picked up next tick.
    pub fn get_messages(&mut self) -> (msgs: Vec<ConnectionMessage>)
        ensures
            final(self)@ == old(self)@,
    {
        let mut msgs: Vec<ConnectionMessage> = Vec::new();
        let mut budget: usize = QUEUE_CAPACITY;
        loop
            invariant
                self@ == old(self)@,
            decreases budget,
        {
            if budget == 0 {
                break;
            }
            match try_recv_event(&mut self.rx) {
                Some(m) => {
                    msgs.push(m);
                    budget = budget - 1;
                },
                None => {
                    break;
                },
            }
        }
        msgs
    }

    /// Apply a batch of fan-in events in order.  An empty batch — a tick on
    /// which nothing arrived — leaves the match exactly as it was.
    pub fn process_all(&mut self, msgs: Vec<ConnectionMessage>)
        requires
            old(self).inv(),
            old(self)@.phase is Running,
        ensures
            final(self).inv(),
            final(self)@ == spec_process_all(old(self)@, msgs@),
            msgs@.len() == 0 ==> final(self)@ == old(self)@,
    {
        let ghost orig = msgs@;
        let mut msgs = msgs;
        while msgs.len() > 0
            invariant
                self.inv(),
                self@.phase is Running,
                spec_process_all(self@, msgs@) == spec_process_all(old(self)@, orig),
            decreases msgs@.len(),
        {
            let ghost s = msgs@;
            let m = msgs.remove(0);
            proof {
                assert(msgs@ =~= s.drop_first());
            }
            self.process_message(m);
        }
    }

    /// The start broadcast: one message per seated player, in slot order,
    /// each carrying the player's non-overlapping entity-id range, its spawn
    /// position, the visibility range, and the match seed; the match moves
    /// to its running phase.  Requiring the starting phase — entered only
    /// when the population first reaches the target, left here — makes the
    /// broadcast happen exactly once per match and never early.  The caller
    /// sends each message to the id it is paired with, and treats a failed
    /// send as a close event for that player.
    pub fn start_game(&mut self) -> (msgs: Vec<(u8, PlayerStartMsg)>)
        requires
            old(self).inv(),
            old(self)@.phase is Starting,
        ensures
            final(self).inv(),
            final(self)@ == spec_start(old(self)@),
            msgs@ == spec_start_msgs(old(self)@.slots, old(self)@.seed),
            msgs@.len() == old(self)@.player_count,
            forall|k: int|
                0 <= k < msgs@.len() ==> (#[trigger] msgs@[k]) == (
                old(self)@.slots[k]->Some_0.id,
                spec_start_msg(old(self)@.slots[k]->Some_0, old(self)@.seed),
                ),
    {
        let mut msgs: Vec<(u8, PlayerStartMsg)> = Vec::new();
        let mut i: usize = 0;
        while i < self.players.len()
            invariant
                self@ == old(self)@,
                i <= self.players@.len(),
                msgs@ == spec_start_msgs(self@.slots.take(i as int), self@.seed),
            decreases self.players@.len() - i as int,
        {
            match &self.players[i] {
                Some(p) => {
                    let m = create_player_start_msg(p, self.seed);
                    msgs.push((p.id, m));
                },
                None => {},
            }
            proof {
                let s = self@.slots;
                assert(s.take(i as int + 1).drop_last() =~= s.take(i as int));
                assert(s.take(i as int + 1).last() == s[i as int]);
                match s[i as int] {
                    Some(p) => {
                        assert(msgs@ =~= spec_start_msgs(s.take(i as int), self@.seed)
                            + seq![(p.id, spec_start_msg(p, self@.seed))]);
                    },
                    None => {},
                }
            }
            i = i + 1;
        }
        proof {
            assert(self@.slots.take(self.players@.len() as int) =~= self@.slots);
            lemma_occ_bounds(self@.slots);
            lemma_start_msgs_sequential(self@.slots, self@.seed, self@.player_count);
        }
        self.phase = Phase::Running;
        proof {
            assert(self@ =~= spec_start(old(self)@));
        }
        msgs
    }

    /// One pass of the match loop: drain the fan-in queue, apply every
    /// drained event, and compute the sleep that carries the loop to this
    /// tick's fixed-origin deadline.  The pass never raises the population;
    /// when the population has reached zero the match is over and no further
    /// tick is owed.
    pub fn tick(&mut self, tick_index: u64, elapsed_micros: u128) -> (step: TickStep)
        requires
            old(self).inv(),
            old(self)@.phase is Running,
        ensures
            final(self).inv(),
            registry_step(old(self)@, final(self)@),
            final(self)@.player_count <= old(self)@.player_count,
            final(self)@.seed == old(self)@.seed,
            final(self)@.game_id == old(self)@.game_id,
            final(self)@.target == old(self)@.target,
            final(self)@.ser_type == old(self)@.ser_type,
            final(self)@.slots.len() == old(self)@.slots.len(),
            step.done == (final(self)@.player_count == 0),
            final(self)@.phase == (if step.done {
                Phase::Finished
            } else {
                Phase::Running
            }),
            step.wait_micros as int == spec_wait(tick_index, elapsed_micros),
            elapsed_micros + step.wait_micros >= spec_deadline(tick_index),
    {
        let msgs = self.get_messages();
        let ghost evs = msgs@;
        self.process_all(msgs);
        proof {
            lemma_process_all_preserves_wf(old(self)@, evs);
        }
        let done = self.player_count == 0;
        if done {
            self.phase = Phase::Finished;
        }
        proof {
            assert(self@.slots == spec_process_all(old(self)@, evs).slots);
            assert(self@.player_count == spec_process_all(old(self)@, evs).player_count);
        }
        proof {
            assert((tick_index as u128) * (FRAME_MICROS as u128) <= (u64::MAX as u128) * (
            FRAME_MICROS as u128)) by (nonlinear_arith)
                requires
                    tick_index <= u64::MAX,
            ;
        }
        let deadline: u128 = (tick_index as u128) * (FRAME_MICROS as u128);
        let wait: u128 = if elapsed_micros < deadline {
            deadline - elapsed_micros
        } else {
            0
        };
        TickStep { wait_micros: wait, done }
    }
}

} // verus!
