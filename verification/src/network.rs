//! Scheduling of inbound packets across frames: chunk and block updates
//! wait in a queue worked off under a per-frame budget, join and respawn
//! packets never overtake queued world data, and server particle packets
//! share one particle budget per frame.
use vstd::prelude::*;

verus! {

/// Packets read from the connection per frame.
pub const INBOUND_SCAN_BUDGET: usize = 64;
/// Chunk columns and other world updates applied per frame.
pub const WORLD_WORK_BUDGET: usize = 12;
/// Block records of multi-block changes applied per frame.
pub const MULTI_BLOCK_RECORD_BUDGET: usize = 256;
/// Server particles built per frame, over all particle packets.
pub const SERVER_PARTICLE_BUDGET: usize = 512;

/// Particles a server particle packet may build from what is left of the
/// frame's budget: a count of 0 is one particle at an exact position and
/// stays 0; a negative count asks for none; `None` when nothing is left or
/// nothing is asked.
pub open spec fn spec_particle_allowed(count: i32, remaining: usize) -> int {
    let requested = if count == 0 {
        1
    } else if count < 0 {
        0
    } else {
        count as int
    };
    if requested < remaining {
        requested
    } else {
        remaining as int
    }
}

/// Takes the particles of one packet from the frame's budget and returns
/// the count to build, or `None` to drop the packet.
pub fn budget_server_particle_count(count: i32, remaining: &mut usize) -> (r: Option<i32>)
    ensures
        ({
            let allowed = spec_particle_allowed(count, *old(remaining));
            if allowed == 0 {
                r is None && *final(remaining) == *old(remaining)
            } else {
                r == Some(if count == 0 { 0i32 } else { allowed as i32 }) && *final(remaining) == *old(
                    remaining,
                ) - allowed
            }
        }),
{
    let requested: usize = if count == 0 {
        1
    } else if count < 0 {
        0
    } else {
        count as usize
    };
    let allowed = if requested < *remaining { requested } else { *remaining };
    if allowed == 0 {
        return None;
    }
    *remaining = *remaining - allowed;
    Some(if count == 0 { 0 } else { allowed as i32 })
}

/// Timings of the slowest packet of a frame and counts of the packets
/// scanned, handled and left queued.
#[derive(Clone, Copy)]
pub struct NetworkDebugProfile {
    pub worst_packet_kind: &'static str,
    pub worst_packet_us: u64,
    pub worst_packet_units: u32,
    pub worst_hook_us: u64,
    pub worst_session_us: u64,
    pub worst_inventory_us: u64,
    pub worst_entity_us: u64,
    pub worst_world_us: u64,
    pub scheduler_us: u64,
    pub scanned_packets: u32,
    pub handled_packets: u32,
    pub deferred_packets: u32,
}

impl Default for NetworkDebugProfile {
    fn default() -> (r: NetworkDebugProfile)
        ensures
            r.worst_packet_kind@ == Seq::<char>::empty(),
            r.worst_packet_us == 0 && r.worst_packet_units == 0 && r.worst_hook_us == 0,
            r.worst_session_us == 0 && r.worst_inventory_us == 0 && r.worst_entity_us == 0,
            r.worst_world_us == 0 && r.scheduler_us == 0,
            r.scanned_packets == 0 && r.handled_packets == 0 && r.deferred_packets == 0,
    {
        proof {
            reveal_strlit("");
        }
        NetworkDebugProfile {
            worst_packet_kind: "",
            worst_packet_us: 0,
            worst_packet_units: 0,
            worst_hook_us: 0,
            worst_session_us: 0,
            worst_inventory_us: 0,
            worst_entity_us: 0,
            worst_world_us: 0,
            scheduler_us: 0,
            scanned_packets: 0,
            handled_packets: 0,
            deferred_packets: 0,
        }
    }
}

/// How long one handled packet took, in total and per handler stage.
#[derive(Clone, Copy)]
pub struct PacketTiming {
    pub kind: &'static str,
    pub packet_us: u64,
    pub units: u32,
    pub hook_us: u64,
    pub session_us: u64,
    pub inventory_us: u64,
    pub entity_us: u64,
    pub world_us: u64,
}

impl NetworkDebugProfile {
    /// Keeps `t` as the frame's slowest packet when it took longer than the
    /// slowest so far.
    pub fn note_packet(&mut self, t: PacketTiming)
        ensures
            if t.packet_us > old(self).worst_packet_us {
                &&& final(self).worst_packet_kind == t.kind
                &&& final(self).worst_packet_us == t.packet_us
                &&& final(self).worst_packet_units == t.units
                &&& final(self).worst_hook_us == t.hook_us
                &&& final(self).worst_session_us == t.session_us
                &&& final(self).worst_inventory_us == t.inventory_us
                &&& final(self).worst_entity_us == t.entity_us
                &&& final(self).worst_world_us == t.world_us
                &&& final(self).scheduler_us == old(self).scheduler_us
                &&& final(self).scanned_packets == old(self).scanned_packets
                &&& final(self).handled_packets == old(self).handled_packets
                &&& final(self).deferred_packets == old(self).deferred_packets
            } else {
                *final(self) == *old(self)
            },
    {
        if t.packet_us > self.worst_packet_us {
            self.worst_packet_kind = t.kind;
            self.worst_packet_us = t.packet_us;
            self.worst_packet_units = t.units;
            self.worst_hook_us = t.hook_us;
            self.worst_session_us = t.session_us;
            self.worst_inventory_us = t.inventory_us;
            self.worst_entity_us = t.entity_us;
            self.worst_world_us = t.world_us;
        }
    }
}

/// Whether chunk data decoded in a dimension carries sky light.
#[derive(Clone, Copy, Debug, PartialEq, Eq, Structural)]
pub struct ChunkDataOptions {
    pub sky_light: bool,
}

impl ChunkDataOptions {
    /// Options with or without sky light.
    pub fn sky_light(sky_light: bool) -> (r: ChunkDataOptions)
        ensures
            r.sky_light == sky_light,
    {
        ChunkDataOptions { sky_light }
    }
}

/// Only the overworld (dimension 0) has sky light.
pub fn chunk_options_for_dimension(dimension: i8) -> (r: ChunkDataOptions)
    ensures
        r.sky_light == (dimension == 0),
{
    ChunkDataOptions::sky_light(dimension == 0)
}

/// An inbound packet as the scheduler sees it.  `P` is the packet itself,
/// `C` a chunk column of a bulk packet and `R` a block record of a
/// multi-block change.
pub enum InboundPacket<P, C, R> {
    /// Several chunk columns.
    MapChunkBulk { sky_light: bool, chunks: Vec<C> },
    /// Several block changes in one chunk.
    MultiBlockChange { chunk_x: i32, chunk_z: i32, records: Vec<R> },
    /// Another change of one chunk or its block entities (chunk data, block
    /// change, block entity update).
    WorldUpdate(P),
    /// A join or respawn, which resets the world.
    WorldReset(P),
    /// Any other packet.
    Other(P),
}

/// The contents of an inbound packet.
pub enum PacketView<P, C, R> {
    Bulk { sky_light: bool, chunks: Seq<C> },
    Multi { chunk_x: i32, chunk_z: i32, records: Seq<R> },
    Update(P),
    Reset(P),
    Other(P),
}

impl<P, C, R> View for InboundPacket<P, C, R> {
    type V = PacketView<P, C, R>;

    open spec fn view(&self) -> PacketView<P, C, R> {
        match self {
            InboundPacket::MapChunkBulk { sky_light, chunks } => PacketView::Bulk {
                sky_light: *sky_light,
                chunks: chunks@,
            },
            InboundPacket::MultiBlockChange { chunk_x, chunk_z, records } => PacketView::Multi {
                chunk_x: *chunk_x,
                chunk_z: *chunk_z,
                records: records@,
            },
            InboundPacket::WorldUpdate(p) => PacketView::Update(*p),
            InboundPacket::WorldReset(p) => PacketView::Reset(*p),
            InboundPacket::Other(p) => PacketView::Other(*p),
        }
    }
}

/// Join and respawn packets: everything after them must stay after them.
pub open spec fn spec_is_barrier<P, C, R>(p: PacketView<P, C, R>) -> bool {
    p is Reset
}

/// Packets that change a chunk or its block entities; they are queued
/// together so that a block update cannot overtake its chunk.
pub open spec fn spec_is_world<P, C, R>(p: PacketView<P, C, R>) -> bool {
    p is Bulk || p is Multi || p is Update
}

/// Whether `packet` is a world ordering barrier (join or respawn).
pub fn is_world_ordering_barrier<P, C, R>(packet: &InboundPacket<P, C, R>) -> (r: bool)
    ensures
        r == spec_is_barrier(packet@),
{
    matches!(packet, InboundPacket::WorldReset(_))
}

/// Whether `packet` changes chunk data and so waits in the world queue.
pub fn is_deferred_world_packet<P, C, R>(packet: &InboundPacket<P, C, R>) -> (r: bool)
    ensures
        r == spec_is_world(packet@),
{
    match packet {
        InboundPacket::MapChunkBulk { .. } | InboundPacket::MultiBlockChange { .. }
        | InboundPacket::WorldUpdate(_) => true,
        _ => false,
    }
}

/// The contents of a sequence of packets.
pub open spec fn views<P, C, R>(s: Seq<InboundPacket<P, C, R>>) -> Seq<PacketView<P, C, R>> {
    s.map_values(|p: InboundPacket<P, C, R>| p@)
}

/// The number of join and respawn packets in `s`.
pub open spec fn barrier_count<P, C, R>(s: Seq<PacketView<P, C, R>>) -> nat
    decreases s.len(),
{
    if s.len() == 0 {
        0
    } else {
        (if spec_is_barrier(s[0]) {
            1nat
        } else {
            0nat
        }) + barrier_count(s.drop_first())
    }
}

/// Staging of newly read packets (queue, barrier count, order flag,
/// packets to handle now): world packets are queued; a barrier is queued
/// behind queued world data and from then on every packet is queued;
/// other packets are handled at once.
pub open spec fn spec_stage<P, C, R>(
    deferred: Seq<PacketView<P, C, R>>,
    count: int,
    preserve: bool,
    output: Seq<PacketView<P, C, R>>,
    incoming: Seq<PacketView<P, C, R>>,
) -> (Seq<PacketView<P, C, R>>, int, Seq<PacketView<P, C, R>>)
    decreases incoming.len(),
{
    if incoming.len() == 0 {
        (deferred, count, output)
    } else {
        let p = incoming[0];
        let rest = incoming.drop_first();
        if preserve || spec_is_world(p) {
            spec_stage(
                deferred.push(p),
                count + if spec_is_barrier(p) { 1int } else { 0 },
                preserve,
                output,
                rest,
            )
        } else if spec_is_barrier(p) && deferred.len() > 0 {
            spec_stage(deferred.push(p), count + 1, true, output, rest)
        } else {
            spec_stage(deferred, count, preserve, output.push(p), rest)
        }
    }
}

fn move_to_queue<T>(v: Vec<T>) -> (r: std::collections::VecDeque<T>)
    ensures
        r@ == v@,
{
    let mut v = v;
    let mut q: std::collections::VecDeque<T> = std::collections::VecDeque::new();
    let ghost all = v@;
    while v.len() > 0
        invariant
            v@ + q@ == all,
        decreases v.len(),
    {
        let ghost before = v@;
        let x = v.pop().unwrap();
        q.push_front(x);
        assert(v@ + q@ =~= all);
    }
    assert(v@ =~= Seq::<T>::empty());
    assert(q@ =~= all);
    q
}

/// Sorts the packets read this frame: those to handle now go to `output`,
/// the others to the back of `deferred`, in the order read.
pub fn stage_inbound_packets<P, C, R>(
    deferred: &mut std::collections::VecDeque<InboundPacket<P, C, R>>,
    deferred_barrier_count: &mut usize,
    incoming: Vec<InboundPacket<P, C, R>>,
    output: &mut Vec<InboundPacket<P, C, R>>,
)
    requires
        *old(deferred_barrier_count) + incoming@.len() <= usize::MAX,
    ensures
        ({
            let r = spec_stage(
                views(old(deferred)@),
                *old(deferred_barrier_count) as int,
                *old(deferred_barrier_count) > 0,
                views(old(output)@),
                views(incoming@),
            );
            &&& views(final(deferred)@) == r.0
            &&& *final(deferred_barrier_count) == r.1
            &&& views(final(output)@) == r.2
        }),
{
    let ghost target = spec_stage(
        views(deferred@),
        *deferred_barrier_count as int,
        *deferred_barrier_count > 0,
        views(output@),
        views(incoming@),
    );
    let ghost total = incoming@.len();
    let mut preserve_order = *deferred_barrier_count > 0;
    let mut queue = move_to_queue(incoming);
    while queue.len() > 0
        invariant
            spec_stage(views(deferred@), *deferred_barrier_count as int, preserve_order, views(output@), views(queue@))
                == target,
            *deferred_barrier_count + queue@.len() <= usize::MAX,
        decreases queue.len(),
    {
        let ghost q0 = queue@;
        let packet = queue.pop_front().unwrap();
        assert(views(queue@) =~= views(q0).drop_first());
        let ghost d0 = deferred@;
        let ghost o0 = output@;
        if preserve_order || is_deferred_world_packet(&packet) {
            if is_world_ordering_barrier(&packet) {
                *deferred_barrier_count = *deferred_barrier_count + 1;
            }
            deferred.push_back(packet);
            assert(views(deferred@) =~= views(d0).push(packet@));
        } else if is_world_ordering_barrier(&packet) && deferred.len() > 0 {
            deferred.push_back(packet);
            assert(views(deferred@) =~= views(d0).push(packet@));
            *deferred_barrier_count = *deferred_barrier_count + 1;
            preserve_order = true;
        } else {
            output.push(packet);
            assert(views(output@) =~= views(o0).push(packet@));
        }
    }
}


/// Whether applying `p` takes world work: a bulk packet with columns, or
/// any other world packet.
pub open spec fn consumes_world_work<P, C, R>(p: PacketView<P, C, R>) -> bool {
    match p {
        PacketView::Bulk { chunks, .. } => chunks.len() > 0,
        _ => spec_is_world(p),
    }
}

/// The smaller of two integers.
pub open spec fn min_int(a: int, b: int) -> int {
    if a < b {
        a
    } else {
        b
    }
}

/// Draining the queue for one frame (queue, barrier count, packets to
/// handle, world work left, packets scanned, block records left): packets
/// leave the front of the queue until 64 were scanned, the queue is empty,
/// the next one needs world work and none is left, or it is a multi-block
/// change and no records are left.  A bulk packet gives as many columns
/// as the work left allows and keeps the rest at the front; a multi-block
/// change likewise gives as many records as are left.
pub open spec fn spec_drain<P, C, R>(
    d: Seq<PacketView<P, C, R>>,
    count: int,
    out: Seq<PacketView<P, C, R>>,
    work: int,
    scanned: int,
    records: int,
) -> (Seq<PacketView<P, C, R>>, int, Seq<PacketView<P, C, R>>)
    decreases INBOUND_SCAN_BUDGET - scanned,
{
    if scanned >= INBOUND_SCAN_BUDGET || d.len() == 0 {
        (d, count, out)
    } else {
        let next = d[0];
        if consumes_world_work(next) && work <= 0 {
            (d, count, out)
        } else if next matches PacketView::Multi { records: rs, .. } && rs.len() > 0 && records <= 0 {
            (d, count, out)
        } else {
            let rest = d.drop_first();
            let c2 = if spec_is_barrier(next) {
                if count > 0 {
                    count - 1
                } else {
                    0
                }
            } else {
                count
            };
            match next {
                PacketView::Bulk { sky_light, chunks } => if chunks.len() == 0 {
                    spec_drain(rest, c2, out, work, scanned + 1, records)
                } else {
                    let take = min_int(work, chunks.len() as int);
                    let out2 = out.push(PacketView::Bulk { sky_light, chunks: chunks.take(take) });
                    let rest2 = if take < chunks.len() {
                        seq![PacketView::Bulk { sky_light, chunks: chunks.skip(take) }] + rest
                    } else {
                        rest
                    };
                    spec_drain(rest2, c2, out2, work - take, scanned + 1, records)
                },
                PacketView::Multi { chunk_x, chunk_z, records: rs } => if rs.len() == 0 {
                    spec_drain(rest, c2, out, work, scanned + 1, records)
                } else {
                    let take = min_int(records, rs.len() as int);
                    let out2 = out.push(PacketView::Multi { chunk_x, chunk_z, records: rs.take(take) });
                    let rest2 = if take < rs.len() {
                        seq![PacketView::Multi { chunk_x, chunk_z, records: rs.skip(take) }] + rest
                    } else {
                        rest
                    };
                    spec_drain(rest2, c2, out2, work - 1, scanned + 1, records - take)
                },
                _ => spec_drain(
                    rest,
                    c2,
                    out.push(next),
                    if spec_is_world(next) {
                        work - 1
                    } else {
                        work
                    },
                    scanned + 1,
                    records,
                ),
            }
        }
    }
}

/// Moves queued packets to `output` for this frame, within the world work
/// budget `remaining_work`, at most 64 packets and 256 block records.
pub fn drain_deferred_packets<P, C, R>(
    deferred: &mut std::collections::VecDeque<InboundPacket<P, C, R>>,
    deferred_barrier_count: &mut usize,
    output: &mut Vec<InboundPacket<P, C, R>>,
    remaining_work: usize,
)
    ensures
        ({
            let r = spec_drain(
                views(old(deferred)@),
                *old(deferred_barrier_count) as int,
                views(old(output)@),
                remaining_work as int,
                0,
                MULTI_BLOCK_RECORD_BUDGET as int,
            );
            &&& views(final(deferred)@) == r.0
            &&& *final(deferred_barrier_count) == r.1
            &&& views(final(output)@) == r.2
        }),
{
    let ghost target = spec_drain(
        views(deferred@),
        *deferred_barrier_count as int,
        views(output@),
        remaining_work as int,
        0,
        MULTI_BLOCK_RECORD_BUDGET as int,
    );
    let mut remaining_work = remaining_work;
    let mut scanned: usize = 0;
    let mut remaining_records: usize = MULTI_BLOCK_RECORD_BUDGET;
    let mut done = false;
    while scanned < INBOUND_SCAN_BUDGET && !done
        invariant
            scanned <= INBOUND_SCAN_BUDGET,
            done ==> spec_drain(
                views(deferred@),
                *deferred_barrier_count as int,
                views(output@),
                remaining_work as int,
                scanned as int,
                remaining_records as int,
            ) == (views(deferred@), *deferred_barrier_count as int, views(output@)),
            spec_drain(
                views(deferred@),
                *deferred_barrier_count as int,
                views(output@),
                remaining_work as int,
                scanned as int,
                remaining_records as int,
            ) == target,
        decreases INBOUND_SCAN_BUDGET - scanned, if done { 0int } else { 1int },
    {
        if deferred.len() == 0 {
            done = true;
        } else {
            let (consumes, multi_blocked) = match &deferred[0] {
                InboundPacket::MapChunkBulk { chunks, .. } => (chunks.len() > 0, false),
                InboundPacket::MultiBlockChange { records, .. } => (true, records.len() > 0 && remaining_records == 0),
                InboundPacket::WorldUpdate(_) => (true, false),
                _ => (false, false),
            };
            if consumes && remaining_work == 0 {
                done = true;
            } else if multi_blocked {
                done = true;
            } else {
                let ghost d0 = deferred@;
                let ghost o0 = output@;
                let packet = deferred.pop_front().unwrap();
                assert(views(deferred@) =~= views(d0).drop_first());
                if is_world_ordering_barrier(&packet) {
                    *deferred_barrier_count = if *deferred_barrier_count > 0 {
                        *deferred_barrier_count - 1
                    } else {
                        0
                    };
                }
                scanned = scanned + 1;
                match packet {
                    InboundPacket::MapChunkBulk { sky_light, chunks } => {
                        if chunks.len() > 0 {
                            let mut chunks = chunks;
                            let ghost all = chunks@;
                            let take = if remaining_work < chunks.len() { remaining_work } else { chunks.len() };
                            let remaining = chunks.split_off(take);
                            output.push(InboundPacket::MapChunkBulk { sky_light, chunks });
                            assert(views(output@) =~= views(o0).push(
                                PacketView::Bulk { sky_light, chunks: all.take(take as int) },
                            ));
                            remaining_work = remaining_work - take;
                            if remaining.len() > 0 {
                                let ghost d1 = deferred@;
                                deferred.push_front(InboundPacket::MapChunkBulk { sky_light, chunks: remaining });
                                assert(views(deferred@) =~= seq![
                                    PacketView::Bulk { sky_light, chunks: all.skip(take as int) },
                                ] + views(d1));
                            }
                        }
                    },
                    InboundPacket::MultiBlockChange { chunk_x, chunk_z, records } => {
                        if records.len() > 0 {
                            let mut records = records;
                            let ghost all = records@;
                            let take = if remaining_records < records.len() {
                                remaining_records
                            } else {
                                records.len()
                            };
                            let remaining = records.split_off(take);
                            output.push(InboundPacket::MultiBlockChange { chunk_x, chunk_z, records });
                            assert(views(output@) =~= views(o0).push(
                                PacketView::Multi { chunk_x, chunk_z, records: all.take(take as int) },
                            ));
                            remaining_records = remaining_records - take;
                            remaining_work = remaining_work - 1;
                            if remaining.len() > 0 {
                                let ghost d1 = deferred@;
                                deferred.push_front(
                                    InboundPacket::MultiBlockChange { chunk_x, chunk_z, records: remaining },
                                );
                                assert(views(deferred@) =~= seq![
                                    PacketView::Multi { chunk_x, chunk_z, records: all.skip(take as int) },
                                ] + views(d1));
                            }
                        }
                    },
                    packet => {
                        let consumes_world_work = is_deferred_world_packet(&packet);
                        output.push(packet);
                        assert(views(output@) =~= views(o0).push(packet@));
                        if consumes_world_work {
                            remaining_work = remaining_work - 1;
                        }
                    },
                }
            }
        }
    }
}


/// One unit of work a packet carries: a chunk column, a block record, or
/// a whole packet of another kind.
pub enum PacketUnit<P, C, R> {
    Column(bool, C),
    Record(i32, i32, R),
    Update(P),
    Reset(P),
    Other(P),
}

/// The units of one packet, in order.
pub open spec fn units<P, C, R>(p: PacketView<P, C, R>) -> Seq<PacketUnit<P, C, R>> {
    match p {
        PacketView::Bulk { sky_light, chunks } => Seq::new(
            chunks.len(),
            |i: int| PacketUnit::Column(sky_light, chunks[i]),
        ),
        PacketView::Multi { chunk_x, chunk_z, records } => Seq::new(
            records.len(),
            |i: int| PacketUnit::Record(chunk_x, chunk_z, records[i]),
        ),
        PacketView::Update(q) => seq![PacketUnit::Update(q)],
        PacketView::Reset(q) => seq![PacketUnit::Reset(q)],
        PacketView::Other(q) => seq![PacketUnit::Other(q)],
    }
}

/// The units of a sequence of packets, in order.
pub open spec fn flatten<P, C, R>(s: Seq<PacketView<P, C, R>>) -> Seq<PacketUnit<P, C, R>>
    decreases s.len(),
{
    if s.len() == 0 {
        Seq::empty()
    } else {
        units(s[0]) + flatten(s.drop_first())
    }
}

proof fn lemma_flatten_push<P, C, R>(s: Seq<PacketView<P, C, R>>, p: PacketView<P, C, R>)
    ensures
        flatten(s.push(p)) == flatten(s) + units(p),
        barrier_count(s.push(p)) == barrier_count(s) + if spec_is_barrier(p) {
            1int
        } else {
            0
        },
    decreases s.len(),
{
    if s.len() == 0 {
        assert(s.push(p).drop_first() =~= s);
        assert(s.push(p)[0] == p);
        assert(flatten(s) == Seq::<PacketUnit<P, C, R>>::empty());
        assert(barrier_count(s) == 0);
        assert(flatten(s.push(p)) =~= units(p));
    } else {
        lemma_flatten_push(s.drop_first(), p);
        assert(s.push(p).drop_first() =~= s.drop_first().push(p));
        assert(s.push(p)[0] == s[0]);
        assert(flatten(s.push(p)) =~= flatten(s) + units(p));
    }
}

proof fn lemma_flatten_cons<P, C, R>(p: PacketView<P, C, R>, s: Seq<PacketView<P, C, R>>)
    ensures
        flatten(seq![p] + s) == units(p) + flatten(s),
        barrier_count(seq![p] + s) == (if spec_is_barrier(p) {
            1int
        } else {
            0
        }) + barrier_count(s),
{
    assert((seq![p] + s).drop_first() =~= s);
    assert((seq![p] + s)[0] == p);
}

/// Draining never loses, duplicates or reorders work: the units handed
/// out followed by those still queued are the units handed out before
/// followed by those queued before.  The barrier count keeps counting the
/// joins and respawns in the queue.
pub proof fn lemma_drain_keeps_fifo_order<P, C, R>(
    d: Seq<PacketView<P, C, R>>,
    count: int,
    out: Seq<PacketView<P, C, R>>,
    work: int,
    scanned: int,
    records: int,
)
    ensures
        ({
            let r = spec_drain(d, count, out, work, scanned, records);
            &&& flatten(r.2) + flatten(r.0) == flatten(out) + flatten(d)
            &&& count == barrier_count(d) ==> r.1 == barrier_count(r.0)
        }),
    decreases INBOUND_SCAN_BUDGET - scanned,
{
    if scanned >= INBOUND_SCAN_BUDGET || d.len() == 0 {
    } else {
        let next = d[0];
        if consumes_world_work(next) && work <= 0 {
        } else if next matches PacketView::Multi { records: rs, .. } && rs.len() > 0 && records <= 0 {
        } else {
            let rest = d.drop_first();
            assert(d =~= seq![next] + rest);
            lemma_flatten_cons(next, rest);
            let c2 = if spec_is_barrier(next) {
                if count > 0 {
                    count - 1
                } else {
                    0
                }
            } else {
                count
            };
            assert(barrier_count(d) == (if spec_is_barrier(next) { 1int } else { 0 }) + barrier_count(rest));
            assert(count == barrier_count(d) ==> c2 == barrier_count(rest));
            match next {
                PacketView::Bulk { sky_light, chunks } => {
                    if chunks.len() == 0 {
                        assert(units(next) =~= Seq::<PacketUnit<P, C, R>>::empty());
                        lemma_drain_keeps_fifo_order(rest, c2, out, work, scanned + 1, records);
                        assert(flatten(out) + flatten(d) =~= flatten(out) + flatten(rest));
                    } else {
                        let take = min_int(work, chunks.len() as int);
                        let a = PacketView::Bulk { sky_light, chunks: chunks.take(take) };
                        let b = PacketView::Bulk { sky_light, chunks: chunks.skip(take) };
                        let out2 = out.push(a);
                        let rest2 = if take < chunks.len() {
                            seq![b] + rest
                        } else {
                            rest
                        };
                        lemma_flatten_push(out, a);
                        lemma_flatten_cons(b, rest);
                        assert(units(next) =~= units(a) + units(b));
                        if take >= chunks.len() {
                            assert(units(b) =~= Seq::<PacketUnit<P, C, R>>::empty());
                        }
                        lemma_drain_keeps_fifo_order(rest2, c2, out2, work - take, scanned + 1, records);
                        assert(flatten(out2) + flatten(rest2) =~= flatten(out) + flatten(d));
                    }
                },
                PacketView::Multi { chunk_x, chunk_z, records: rs } => {
                    if rs.len() == 0 {
                        assert(units(next) =~= Seq::<PacketUnit<P, C, R>>::empty());
                        lemma_drain_keeps_fifo_order(rest, c2, out, work, scanned + 1, records);
                        assert(flatten(out) + flatten(d) =~= flatten(out) + flatten(rest));
                    } else {
                        let take = min_int(records, rs.len() as int);
                        let a = PacketView::Multi { chunk_x, chunk_z, records: rs.take(take) };
                        let b = PacketView::Multi { chunk_x, chunk_z, records: rs.skip(take) };
                        let out2 = out.push(a);
                        let rest2 = if take < rs.len() {
                            seq![b] + rest
                        } else {
                            rest
                        };
                        lemma_flatten_push(out, a);
                        lemma_flatten_cons(b, rest);
                        assert(units(next) =~= units(a) + units(b));
                        if take >= rs.len() {
                            assert(units(b) =~= Seq::<PacketUnit<P, C, R>>::empty());
                        }
                        lemma_drain_keeps_fifo_order(rest2, c2, out2, work - 1, scanned + 1, records - take);
                        assert(flatten(out2) + flatten(rest2) =~= flatten(out) + flatten(d));
                    }
                },
                _ => {
                    let w2 = if spec_is_world(next) {
                        work - 1
                    } else {
                        work
                    };
                    lemma_flatten_push(out, next);
                    lemma_drain_keeps_fifo_order(rest, c2, out.push(next), w2, scanned + 1, records);
                    assert(flatten(out.push(next)) + flatten(rest) =~= flatten(out) + flatten(d));
                },
            }
        }
    }
}

/// Staging keeps every packet exactly once: the queue and the packets
/// handled at once only grow at their ends; world packets are always
/// queued; while anything is queued no join or respawn is handled at once;
/// once a join or respawn is queued every later packet is queued, in
/// order; and the barrier count keeps counting the queued joins and
/// respawns.
pub proof fn lemma_stage_keeps_order<P, C, R>(
    d: Seq<PacketView<P, C, R>>,
    count: int,
    preserve: bool,
    out: Seq<PacketView<P, C, R>>,
    incoming: Seq<PacketView<P, C, R>>,
)
    ensures
        ({
            let r = spec_stage(d, count, preserve, out, incoming);
            &&& r.0.len() + r.2.len() == d.len() + out.len() + incoming.len()
            &&& r.0.len() >= d.len() && r.2.len() >= out.len()
            &&& r.0.subrange(0, d.len() as int) == d
            &&& r.2.subrange(0, out.len() as int) == out
            &&& forall|k: int| out.len() <= k < r.2.len() ==> !spec_is_world(#[trigger] r.2[k])
            &&& d.len() > 0 ==> forall|k: int| out.len() <= k < r.2.len() ==> !spec_is_barrier(#[trigger] r.2[k])
            &&& preserve ==> r.0 == d + incoming && r.2 == out
            &&& count == barrier_count(d) ==> r.1 == barrier_count(r.0)
        }),
    decreases incoming.len(),
{
    if incoming.len() == 0 {
        assert(d.subrange(0, d.len() as int) =~= d);
        assert(out.subrange(0, out.len() as int) =~= out);
        assert(d + incoming =~= d);
    } else {
        let p = incoming[0];
        let rest = incoming.drop_first();
        lemma_flatten_push(d, p);
        if preserve || spec_is_world(p) {
            let c2 = count + if spec_is_barrier(p) { 1int } else { 0 };
            lemma_stage_keeps_order(d.push(p), c2, preserve, out, rest);
            let r = spec_stage(d.push(p), c2, preserve, out, rest);
            assert(r.0.subrange(0, d.len() as int) =~= r.0.subrange(0, d.len() as int + 1).subrange(0, d.len() as int));
            if preserve {
                assert(d.push(p) + rest =~= d + incoming);
            }
        } else if spec_is_barrier(p) && d.len() > 0 {
            lemma_stage_keeps_order(d.push(p), count + 1, true, out, rest);
            let r = spec_stage(d.push(p), count + 1, true, out, rest);
            assert(r.0.subrange(0, d.len() as int) =~= r.0.subrange(0, d.len() as int + 1).subrange(0, d.len() as int));
        } else {
            lemma_stage_keeps_order(d, count, preserve, out.push(p), rest);
            let r = spec_stage(d, count, preserve, out.push(p), rest);
            assert(r.2.subrange(0, out.len() as int) =~= r.2.subrange(0, out.len() as int + 1).subrange(0, out.len() as int));
            assert(r.2[out.len() as int] == r.2.subrange(0, out.len() as int + 1)[out.len() as int]);
        }
    }
}

/// Once a join or respawn is queued, nothing read after it in the same
/// staging is handled at once: staging `incoming` is staging the packets
/// before the queued barrier `incoming[i]`, then queuing the barrier and
/// every later packet, in the order read.
pub proof fn lemma_queued_barrier_holds_back_the_rest<P, C, R>(
    d: Seq<PacketView<P, C, R>>,
    count: int,
    preserve: bool,
    out: Seq<PacketView<P, C, R>>,
    incoming: Seq<PacketView<P, C, R>>,
    i: int,
)
    requires
        0 <= i < incoming.len(),
        spec_is_barrier(incoming[i]),
        spec_stage(d, count, preserve, out, incoming.take(i)).0.len() > 0,
    ensures
        ({
            let a = spec_stage(d, count, preserve, out, incoming.take(i));
            let r = spec_stage(d, count, preserve, out, incoming);
            &&& r.0 == a.0 + incoming.skip(i)
            &&& r.2 == a.2
        }),
    decreases i,
{
    let p = incoming[0];
    let rest = incoming.drop_first();
    if i == 0 {
        assert(incoming.take(0) =~= Seq::<PacketView<P, C, R>>::empty());
        assert(incoming.skip(0) =~= incoming);
        assert(d.push(p) + rest =~= d + incoming);
        if preserve {
            lemma_stage_keeps_order(d.push(p), count + 1, true, out, rest);
        } else {
            assert(!spec_is_world(p));
            lemma_stage_keeps_order(d.push(p), count + 1, true, out, rest);
        }
    } else {
        let pre = incoming.take(i);
        assert(pre[0] == p);
        assert(pre.drop_first() =~= rest.take(i - 1));
        assert(incoming.skip(i) =~= rest.skip(i - 1));
        assert(rest[i - 1] == incoming[i]);
        if preserve || spec_is_world(p) {
            let c2 = count + if spec_is_barrier(p) { 1int } else { 0 };
            lemma_queued_barrier_holds_back_the_rest(d.push(p), c2, preserve, out, rest, i - 1);
        } else if spec_is_barrier(p) && d.len() > 0 {
            lemma_queued_barrier_holds_back_the_rest(d.push(p), count + 1, true, out, rest, i - 1);
        } else {
            lemma_queued_barrier_holds_back_the_rest(d, count, preserve, out.push(p), rest, i - 1);
        }
    }
}

} // verus!
