use rustcraft::network::{
    budget_server_particle_count, chunk_options_for_dimension, drain_deferred_packets,
    is_deferred_world_packet, is_world_ordering_barrier, stage_inbound_packets, InboundPacket,
    WORLD_WORK_BUDGET,
};
use std::collections::VecDeque;

type Packet = InboundPacket<&'static str, i32, (u16, u16)>;

fn bulk(n: i32) -> Packet {
    InboundPacket::MapChunkBulk {
        sky_light: true,
        chunks: (0..n).collect(),
    }
}

fn columns(packet: &Packet) -> Vec<i32> {
    match packet {
        InboundPacket::MapChunkBulk { chunks, .. } => chunks.clone(),
        _ => panic!("expected a bulk packet"),
    }
}

#[test]
fn bulk_chunk_columns_are_split_by_world_work_budget_in_fifo_order() {
    let mut deferred: VecDeque<Packet> =
        VecDeque::from([bulk(6), InboundPacket::WorldUpdate("block_change")]);
    let mut deferred_barrier_count = 0;
    let mut first = Vec::new();
    drain_deferred_packets(&mut deferred, &mut deferred_barrier_count, &mut first, 4);

    assert_eq!(first.len(), 1);
    assert_eq!(columns(&first[0]), [0, 1, 2, 3]);

    let mut second = Vec::new();
    drain_deferred_packets(&mut deferred, &mut deferred_barrier_count, &mut second, 4);
    assert_eq!(second.len(), 2);
    assert_eq!(columns(&second[0]), [4, 5]);
    assert!(matches!(second[1], InboundPacket::WorldUpdate("block_change")));
    assert!(deferred.is_empty());
}

#[test]
fn respawn_barrier_cannot_overtake_deferred_bulk_columns() {
    let incoming = vec![
        bulk(6),
        InboundPacket::WorldReset("respawn"),
        InboundPacket::WorldUpdate("block_change"),
    ];
    let mut deferred = VecDeque::new();
    let mut deferred_barrier_count = 0;
    let mut immediate = Vec::new();
    stage_inbound_packets(&mut deferred, &mut deferred_barrier_count, incoming, &mut immediate);
    assert!(immediate.is_empty());
    assert_eq!(deferred_barrier_count, 1);

    let mut first = Vec::new();
    drain_deferred_packets(&mut deferred, &mut deferred_barrier_count, &mut first, 4);
    assert_eq!(first.len(), 1);
    assert_eq!(columns(&first[0]).len(), 4);

    let mut second = Vec::new();
    drain_deferred_packets(&mut deferred, &mut deferred_barrier_count, &mut second, 4);
    assert_eq!(second.len(), 3);
    assert_eq!(columns(&second[0]).len(), 2);
    assert!(matches!(second[1], InboundPacket::WorldReset(_)));
    assert!(matches!(second[2], InboundPacket::WorldUpdate(_)));
    assert!(deferred.is_empty());
    assert_eq!(deferred_barrier_count, 0);
}

#[test]
fn independent_packets_can_scan_ahead_of_a_cross_frame_chunk_backlog() {
    let mut deferred: VecDeque<Packet> = VecDeque::from([bulk(6)]);
    let mut deferred_barrier_count = 0;
    let mut immediate = Vec::new();

    stage_inbound_packets(
        &mut deferred,
        &mut deferred_barrier_count,
        vec![InboundPacket::Other("keep_alive 42")],
        &mut immediate,
    );

    assert!(matches!(
        immediate.as_slice(),
        [InboundPacket::Other("keep_alive 42")]
    ));
    assert_eq!(deferred.len(), 1);
    assert_eq!(deferred_barrier_count, 0);
}

#[test]
fn a_deferred_respawn_barrier_persists_across_scan_frames() {
    let mut deferred: VecDeque<Packet> =
        VecDeque::from([bulk(6), InboundPacket::WorldReset("respawn")]);
    let mut deferred_barrier_count = 1;
    let mut immediate = Vec::new();

    stage_inbound_packets(
        &mut deferred,
        &mut deferred_barrier_count,
        vec![InboundPacket::Other("keep_alive 42")],
        &mut immediate,
    );

    assert!(immediate.is_empty());
    assert!(matches!(
        deferred.back(),
        Some(InboundPacket::Other("keep_alive 42"))
    ));
    assert_eq!(deferred_barrier_count, 1);
}

#[test]
fn a_barrier_with_nothing_queued_is_handled_at_once() {
    let mut deferred: VecDeque<Packet> = VecDeque::new();
    let mut deferred_barrier_count = 0;
    let mut immediate = Vec::new();
    stage_inbound_packets(
        &mut deferred,
        &mut deferred_barrier_count,
        vec![InboundPacket::WorldReset("join"), InboundPacket::WorldUpdate("chunk")],
        &mut immediate,
    );
    assert!(matches!(immediate.as_slice(), [InboundPacket::WorldReset("join")]));
    assert_eq!(deferred.len(), 1);
    assert_eq!(deferred_barrier_count, 0);
}

#[test]
fn server_particle_packets_share_one_frame_budget() {
    let mut remaining = 5;

    assert_eq!(budget_server_particle_count(4_096, &mut remaining), Some(5));
    assert_eq!(remaining, 0);
    assert_eq!(budget_server_particle_count(1, &mut remaining), None);

    let mut remaining = 1;
    assert_eq!(budget_server_particle_count(0, &mut remaining), Some(0));
    assert_eq!(remaining, 0);
    assert_eq!(budget_server_particle_count(-1, &mut remaining), None);
}

#[test]
fn multi_block_records_are_split_across_frame_budgets_in_fifo_order() {
    let records: Vec<(u16, u16)> = (0..600)
        .map(|index| ((index % u16::MAX as usize) as u16, 1 << 4))
        .collect();
    let mut deferred: VecDeque<Packet> = VecDeque::from([
        InboundPacket::MultiBlockChange {
            chunk_x: 2,
            chunk_z: 3,
            records,
        },
        InboundPacket::WorldUpdate("block_change"),
    ]);
    let mut deferred_barrier_count = 0;

    for expected in [256, 256] {
        let mut output = Vec::new();
        drain_deferred_packets(
            &mut deferred,
            &mut deferred_barrier_count,
            &mut output,
            WORLD_WORK_BUDGET,
        );
        assert_eq!(output.len(), 1);
        assert!(matches!(
            &output[0],
            InboundPacket::MultiBlockChange { records, .. } if records.len() == expected
        ));
    }

    let mut final_output = Vec::new();
    drain_deferred_packets(
        &mut deferred,
        &mut deferred_barrier_count,
        &mut final_output,
        WORLD_WORK_BUDGET,
    );
    assert!(matches!(
        &final_output[0],
        InboundPacket::MultiBlockChange { records, .. } if records.len() == 88
    ));
    assert!(matches!(final_output[1], InboundPacket::WorldUpdate(_)));
    assert!(deferred.is_empty());
}

#[test]
fn packet_kinds_and_sky_light() {
    let reset: Packet = InboundPacket::WorldReset("respawn");
    let update: Packet = InboundPacket::WorldUpdate("block_change");
    let other: Packet = InboundPacket::Other("chat");
    assert!(is_world_ordering_barrier(&reset));
    assert!(!is_world_ordering_barrier(&update));
    assert!(is_deferred_world_packet(&update));
    assert!(is_deferred_world_packet(&bulk(1)));
    assert!(!is_deferred_world_packet(&other));
    assert!(chunk_options_for_dimension(0).sky_light);
    assert!(!chunk_options_for_dimension(-1).sky_light);
}

use rustcraft::network::{NetworkDebugProfile, PacketTiming};

#[test]
fn the_slowest_packet_of_a_frame_is_kept() {
    let mut debug = NetworkDebugProfile::default();
    let timing = |kind, packet_us| PacketTiming {
        kind,
        packet_us,
        units: 1,
        hook_us: 0,
        session_us: 0,
        inventory_us: 0,
        entity_us: 0,
        world_us: packet_us,
    };
    debug.note_packet(timing("chunk", 40));
    debug.note_packet(timing("block", 10));
    assert_eq!(debug.worst_packet_kind, "chunk");
    assert_eq!(debug.worst_packet_us, 40);
    debug.note_packet(timing("bulk", 90));
    assert_eq!(debug.worst_packet_kind, "bulk");
    assert_eq!(debug.worst_world_us, 90);
    assert_eq!(debug.handled_packets, 0);
}
