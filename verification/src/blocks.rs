//! The block vocabulary: the closed set of block identities, the raw
//! sources a refresh reads from, the producer contract every block meets,
//! the snapshot type carried through the dispatch channel, and the
//! fixed-size registry the render loop mutates.

use vstd::prelude::*;
use vstd::string::StringExecFns;
use crate::Message;
use crate::text::push_char;

pub mod battery;
pub mod memory;
pub mod time;
pub mod volume;

verus! {

/// The stable identity of one block, in enumeration, display and
/// realtime-signal-offset order.
#[derive(Clone, Copy, Debug, PartialEq, Eq, Structural)]
pub enum BlockSignal {
    Battery,
    Memory,
    Time,
    Volume,
}

/// The identity at zero-based position `i` of the enumeration order.
pub open spec fn signal_at(i: int) -> BlockSignal
    recommends
        0 <= i < 4,
{
    if i == 0 {
        BlockSignal::Battery
    } else if i == 1 {
        BlockSignal::Memory
    } else if i == 2 {
        BlockSignal::Time
    } else {
        BlockSignal::Volume
    }
}

impl BlockSignal {
    /// The zero-based position of this identity: registry slot and
    /// realtime-signal offset alike.
    pub open spec fn index(self) -> int {
        match self {
            BlockSignal::Battery => 0,
            BlockSignal::Memory => 1,
            BlockSignal::Time => 2,
            BlockSignal::Volume => 3,
        }
    }

    /// The zero-based offset of this identity.
    pub fn offset(self) -> (n: u8)
        ensures
            n as int == self.index(),
    {
        match self {
            BlockSignal::Battery => 0,
            BlockSignal::Memory => 1,
            BlockSignal::Time => 2,
            BlockSignal::Volume => 3,
        }
    }

    /// The identity a zero-based realtime-signal offset selects; offsets
    /// outside the enumeration select none.
    pub fn from_offset(off: i32) -> (r: Option<BlockSignal>)
        ensures
            0 <= off < 4 ==> r == Some(signal_at(off as int)),
            !(0 <= off < 4) ==> r is None,
    {
        if off == 0 {
            Some(BlockSignal::Battery)
        } else if off == 1 {
            Some(BlockSignal::Memory)
        } else if off == 2 {
            Some(BlockSignal::Time)
        } else if off == 3 {
            Some(BlockSignal::Volume)
        } else {
            None
        }
    }
}

/// Raw text freshly read from the system files that a synchronous refresh
/// consumes; a missing file is a missing entry.  The caller reads the
/// files; the blocks only parse.
pub struct Sources {
    /// Content of the power supply's `online` property.
    pub ac_online: Option<String>,
    /// Content of the battery's `capacity` property.
    pub battery_capacity: Option<String>,
    /// Content of the battery's `power_now` property.
    pub battery_power_now: Option<String>,
    /// Content of the battery's `current_now` property.
    pub battery_current_now: Option<String>,
    /// Content of the battery's `voltage_now` property.
    pub battery_voltage_now: Option<String>,
    /// Content of the memory-info pseudo-file.
    pub meminfo: Option<String>,
}

impl Sources {
    /// Sources with every probe missing: a refresh from these yields each
    /// block's default facts.
    pub fn empty() -> (s: Sources)
        ensures
            s.ac_online is None,
            s.battery_capacity is None,
            s.battery_power_now is None,
            s.battery_current_now is None,
            s.battery_voltage_now is None,
            s.meminfo is None,
    {
        Sources {
            ac_online: None,
            battery_capacity: None,
            battery_power_now: None,
            battery_current_now: None,
            battery_voltage_now: None,
            meminfo: None,
        }
    }
}

/// The synchronous side of a value producer: a stable identity, a refresh
/// that recomputes the captured facts from freshly read sources, and a
/// pure rendering.  Blocking waits for the producer's own next update
/// belong to the runtime around the engine, not to this contract.
pub trait Block: Sized {
    /// The identity of this producer; constant for its lifetime.
    spec fn identity_spec(&self) -> BlockSignal;

    /// The text this block renders.
    spec fn rendered(&self) -> Seq<char>;

    /// The stable identity of the block.
    fn signal(&self) -> (s: BlockSignal)
        ensures
            s == self.identity_spec(),
    ;

    /// Recomputes the captured facts from the given sources.
    fn update(&mut self, sources: &Sources)
        ensures
            final(self).identity_spec() == old(self).identity_spec(),
    ;

    /// The rendered text of the current facts.
    fn render(&self) -> (s: String)
        ensures
            s@ == self.rendered(),
    ;
}

/// One block's immutable snapshot: the captured facts of exactly one
/// producer, tagged with its identity.  Snapshots move through the
/// dispatch channel and are installed whole into the registry.
#[derive(Clone, Copy, Debug, PartialEq, Eq, Structural)]
pub enum BlockState {
    Battery(battery::Battery),
    Memory(memory::Memory),
    Time(time::Time),
    Volume(volume::Volume),
}

impl BlockState {
    /// The identity of the producer this snapshot belongs to.
    pub open spec fn identity(&self) -> BlockSignal {
        match self {
            BlockState::Battery(_) => BlockSignal::Battery,
            BlockState::Memory(_) => BlockSignal::Memory,
            BlockState::Time(_) => BlockSignal::Time,
            BlockState::Volume(_) => BlockSignal::Volume,
        }
    }
}

impl Block for BlockState {
    open spec fn identity_spec(&self) -> BlockSignal {
        self.identity()
    }

    open spec fn rendered(&self) -> Seq<char> {
        match self {
            BlockState::Battery(b) => b.rendered(),
            BlockState::Memory(m) => m.rendered(),
            BlockState::Time(t) => t.rendered(),
            BlockState::Volume(v) => v.rendered(),
        }
    }

    fn signal(&self) -> (s: BlockSignal) {
        match self {
            BlockState::Battery(b) => b.signal(),
            BlockState::Memory(m) => m.signal(),
            BlockState::Time(t) => t.signal(),
            BlockState::Volume(v) => v.signal(),
        }
    }

    fn update(&mut self, sources: &Sources)
        ensures
            (*old(self)) is Battery ==> *final(self) == BlockState::Battery(
                battery::Battery::of_sources_spec(*sources),
            ),
            (*old(self)) is Memory ==> *final(self) == BlockState::Memory(
                memory::Memory::of_sources_spec(*sources),
            ),
            (*old(self)) is Time ==> ((*final(self)) matches BlockState::Time(t) && t.wf()),
            (*old(self)) is Volume ==> *final(self) == *old(self),
    {
        let next = match &*self {
            BlockState::Battery(_) => BlockState::Battery(battery::Battery::of_sources(sources)),
            BlockState::Memory(_) => BlockState::Memory(memory::Memory::of_sources(sources)),
            BlockState::Time(_) => BlockState::Time(time::Time::now()),
            BlockState::Volume(v) => BlockState::Volume(*v),
        };
        *self = next;
    }

    fn render(&self) -> (s: String) {
        match self {
            BlockState::Battery(b) => b.render(),
            BlockState::Memory(m) => m.render(),
            BlockState::Time(t) => t.render(),
            BlockState::Volume(v) => v.render(),
        }
    }
}

/// The registry: one slot per block identity, fixed for the process
/// lifetime, in display order.
#[derive(Clone, Copy, Debug, PartialEq, Eq, Structural)]
pub struct Blocks {
    pub battery: battery::Battery,
    pub memory: memory::Memory,
    pub time: time::Time,
    pub volume: volume::Volume,
}

/// The registry with `s` installed whole into the slot its identity
/// addresses; every other slot keeps its state.
pub open spec fn install(b: Blocks, s: BlockState) -> Blocks {
    match s {
        BlockState::Battery(x) => Blocks { battery: x, ..b },
        BlockState::Memory(x) => Blocks { memory: x, ..b },
        BlockState::Time(x) => Blocks { time: x, ..b },
        BlockState::Volume(x) => Blocks { volume: x, ..b },
    }
}

/// How a full refresh relates the new registry to the sources: battery
/// and memory hold what the sources parse to, the clock was reread, and
/// the volume block (whose facts arrive only by stream) keeps its state.
pub open spec fn refreshed_all(pre: Blocks, post: Blocks, sources: Sources) -> bool {
    &&& post.battery == battery::Battery::of_sources_spec(sources)
    &&& post.memory == memory::Memory::of_sources_spec(sources)
    &&& post.time.wf()
    &&& post.volume == pre.volume
}

/// How a targeted refresh relates the new registry to the old: every
/// slot but the addressed one keeps its state, and the addressed one is
/// refreshed as a full refresh would refresh it.
pub open spec fn refreshed_one(pre: Blocks, post: Blocks, sources: Sources, signal: BlockSignal) -> bool {
    &&& forall|i: int| 0 <= i < 4 && i != signal.index() ==> post.slots()[i] == pre.slots()[i]
    &&& (signal == BlockSignal::Battery ==> post.battery == battery::Battery::of_sources_spec(
        sources,
    ))
    &&& (signal == BlockSignal::Memory ==> post.memory == memory::Memory::of_sources_spec(sources))
    &&& (signal == BlockSignal::Time ==> post.time.wf())
    &&& (signal == BlockSignal::Volume ==> post.volume == pre.volume)
}

impl Blocks {
    /// The registry as an ordered sequence of snapshots, display order.
    pub open spec fn slots(&self) -> Seq<BlockState> {
        seq![
            BlockState::Battery(self.battery),
            BlockState::Memory(self.memory),
            BlockState::Time(self.time),
            BlockState::Volume(self.volume),
        ]
    }

    /// The rendered status text: every slot's text in display order,
    /// a three-space gutter between slots.
    pub open spec fn rendered(&self) -> Seq<char> {
        self.battery.rendered() + "   "@ + self.memory.rendered() + "   "@ + self.time.rendered()
            + "   "@ + self.volume.rendered()
    }

    /// The printed line: a leading and a trailing space around the text.
    pub open spec fn rendered_line(&self) -> Seq<char> {
        seq![' '] + self.rendered() + seq![' ']
    }

    /// A registry with every block defaulted.
    pub fn new() -> (b: Blocks)
        ensures
            b.battery == battery::Battery::default_spec(),
            b.memory == memory::Memory::default_spec(),
            b.time == time::Time::default_spec(),
            b.volume == volume::Volume::default_spec(),
    {
        Blocks {
            battery: battery::Battery::default(),
            memory: memory::Memory::default(),
            time: time::Time::default(),
            volume: volume::Volume::default(),
        }
    }

    /// Refreshes every slot from the given sources.
    pub fn update_all(&mut self, sources: &Sources)
        ensures
            refreshed_all(*old(self), *final(self), *sources),
    {
        self.battery.update(sources);
        self.memory.update(sources);
        self.time.update(sources);
        self.volume.update(sources);
    }

    /// Refreshes exactly the slot `signal` addresses.
    pub fn update_by_signal(&mut self, signal: BlockSignal, sources: &Sources)
        ensures
            refreshed_one(*old(self), *final(self), *sources, signal),
    {
        match signal {
            BlockSignal::Battery => self.battery.update(sources),
            BlockSignal::Memory => self.memory.update(sources),
            BlockSignal::Time => self.time.update(sources),
            BlockSignal::Volume => self.volume.update(sources),
        }
    }

    /// Installs a pushed snapshot into the slot its identity addresses.
    pub fn update_by_block(&mut self, nblock: BlockState)
        ensures
            *final(self) == install(*old(self), nblock),
            final(self).slots()[nblock.identity().index()] == nblock,
            forall|i: int|
                0 <= i < 4 && i != nblock.identity().index() ==> final(self).slots()[i] == old(
                    self,
                ).slots()[i],
    {
        match nblock {
            BlockState::Battery(x) => self.battery = x,
            BlockState::Memory(x) => self.memory = x,
            BlockState::Time(x) => self.time = x,
            BlockState::Volume(x) => self.volume = x,
        }
    }

    /// Applies one dispatch message: a full refresh, a no-op that leaves
    /// registry and rendered line unchanged, a targeted refresh, or the
    /// installation of a pushed snapshot.
    pub fn apply(&mut self, msg: Message, sources: &Sources)
        ensures
            msg is Usr1 ==> refreshed_all(*old(self), *final(self), *sources),
            msg is Usr2 ==> *final(self) == *old(self),
            msg is Usr2 ==> final(self).rendered_line() == old(self).rendered_line(),
            msg matches Message::Custom(sig) ==> refreshed_one(
                *old(self),
                *final(self),
                *sources,
                sig,
            ),
            msg matches Message::Block(s) ==> *final(self) == install(*old(self), s),
    {
        match msg {
            Message::Usr1 => self.update_all(sources),
            Message::Usr2 => (),
            Message::Custom(signal) => self.update_by_signal(signal, sources),
            Message::Block(block) => self.update_by_block(block),
        }
    }

    /// The rendered status text of the current registry.
    pub fn render(&self) -> (s: String)
        ensures
            s@ == self.rendered(),
    {
        let mut s = self.battery.render();
        s.append("   ");
        let part = self.memory.render();
        s.append(part.as_str());
        s.append("   ");
        let part = self.time.render();
        s.append(part.as_str());
        s.append("   ");
        let part = self.volume.render();
        s.append(part.as_str());
        assert(s@ =~= self.rendered());
        s
    }

    /// The printed line of the current registry.
    pub fn render_line(&self) -> (s: String)
        ensures
            s@ == self.rendered_line(),
    {
        let mut s = String::new();
        push_char(&mut s, ' ');
        let part = self.render();
        s.append(part.as_str());
        push_char(&mut s, ' ');
        assert(s@ =~= self.rendered_line());
        s
    }
}

/// Every slot holds a state of the identity that indexes it: the
/// registry can never cross-wire a snapshot into a foreign slot.
pub proof fn lemma_slots_keyed_by_identity(b: Blocks)
    ensures
        forall|i: int| 0 <= i < 4 ==> (#[trigger] b.slots()[i]).identity() == signal_at(i),
{
}

/// One channel message that does not refresh: a no-op leaves the
/// registry, a pushed snapshot is installed.
pub open spec fn pure_step(b: Blocks, m: Message) -> Blocks
    recommends
        m is Usr2 || m is Block,
{
    match m {
        Message::Block(s) => install(b, s),
        _ => b,
    }
}

/// The registry after a batch of such messages, applied in order.
pub open spec fn pure_steps(b: Blocks, ms: Seq<Message>) -> Blocks
    decreases ms.len(),
{
    if ms.len() == 0 {
        b
    } else {
        pure_step(pure_steps(b, ms.drop_last()), ms.last())
    }
}

/// The position of the last snapshot in `ms` addressed to `id`, or -1
/// when the batch holds none.
pub open spec fn last_update_for(ms: Seq<Message>, id: BlockSignal) -> int
    decreases ms.len(),
{
    if ms.len() == 0 {
        -1
    } else if ms.last() matches Message::Block(s) && s.identity() == id {
        ms.len() - 1
    } else {
        last_update_for(ms.drop_last(), id)
    }
}

/// No update is lost and none misdelivered: after any batch of no-ops
/// and pushed snapshots, each slot holds the last snapshot addressed to
/// it, or its prior state when the batch addresses it never, however the
/// batch interleaves the producers.
pub proof fn lemma_no_lost_updates(b: Blocks, ms: Seq<Message>, i: int)
    requires
        0 <= i < 4,
        forall|k: int| 0 <= k < ms.len() ==> (#[trigger] ms[k]) is Usr2 || ms[k] is Block,
    ensures
        last_update_for(ms, signal_at(i)) < ms.len(),
        last_update_for(ms, signal_at(i)) < 0 ==> pure_steps(b, ms).slots()[i] == b.slots()[i],
        last_update_for(ms, signal_at(i)) >= 0 ==> (ms[last_update_for(ms, signal_at(i))]
            matches Message::Block(s) && pure_steps(b, ms).slots()[i] == s),
    decreases ms.len(),
{
    let id = signal_at(i);
    if ms.len() > 0 {
        let pre = ms.drop_last();
        assert(forall|k: int|
            0 <= k < pre.len() ==> (#[trigger] pre[k]) is Usr2 || pre[k] is Block);
        lemma_no_lost_updates(b, pre, i);
        let bp = pure_steps(b, pre);
        match ms.last() {
            Message::Block(s) => {
                if s.identity() == id {
                    assert(last_update_for(ms, id) == ms.len() - 1);
                    assert(install(bp, s).slots()[i] == s);
                } else {
                    assert(install(bp, s).slots()[i] == bp.slots()[i]);
                    assert(last_update_for(ms, id) == last_update_for(pre, id));
                    if last_update_for(pre, id) >= 0 {
                        assert(ms[last_update_for(pre, id)] == pre[last_update_for(pre, id)]);
                    }
                }
            },
            _ => {
                assert(last_update_for(ms, id) == last_update_for(pre, id));
                if last_update_for(pre, id) >= 0 {
                    assert(ms[last_update_for(pre, id)] == pre[last_update_for(pre, id)]);
                }
            },
        }
    }
}

/// A batch of no-ops alone changes nothing, however long.
pub proof fn lemma_noop_batch(b: Blocks, ms: Seq<Message>)
    requires
        forall|k: int| 0 <= k < ms.len() ==> (#[trigger] ms[k]) is Usr2,
    ensures
        pure_steps(b, ms) == b,
    decreases ms.len(),
{
    if ms.len() > 0 {
        assert(forall|k: int|
            0 <= k < ms.drop_last().len() ==> (#[trigger] ms.drop_last()[k]) is Usr2);
        lemma_noop_batch(b, ms.drop_last());
    }
}

} // verus!
