use voxel_sim::stream::{
    chunk_of_block, covering_chunk_axis, drain_step, ChunkCoord, ChunkLoadResult, ChunkStreamer,
    Completion,
};

#[test]
fn chunk_of_block_floors_across_zero() {
    assert_eq!(chunk_of_block(0), 0);
    assert_eq!(chunk_of_block(15), 0);
    assert_eq!(chunk_of_block(16), 1);
    assert_eq!(chunk_of_block(31), 1);
    assert_eq!(chunk_of_block(-1), -1);
    assert_eq!(chunk_of_block(-16), -1);
    assert_eq!(chunk_of_block(-17), -2);
}

#[test]
fn covering_chunks_of_a_block_range_are_deduplicated() {
    // 32 block coordinates collapse to the two chunks covering them,
    // each kept once, at its first occurrence
    assert_eq!(covering_chunk_axis(0, 31), vec![0, 1]);
    assert_eq!(covering_chunk_axis(-20, 20), vec![-2, -1, 0, 1]);
    assert_eq!(covering_chunk_axis(5, 6), vec![0]);
}

#[test]
fn request_region_two_by_two_tracks_four_pending() {
    let mut s = ChunkStreamer::new();
    s.request_region(0, 0, 2);
    assert_eq!(s.pending_count(), 4);
    // requesting the same region again duplicates nothing
    s.request_region(0, 0, 2);
    assert_eq!(s.pending_count(), 4);
}

#[test]
fn request_chunk_is_idempotent_per_coordinate() {
    let mut s = ChunkStreamer::new();
    s.request_chunk(ChunkCoord { cx: 3, cz: -1 });
    s.request_chunk(ChunkCoord { cx: 3, cz: -1 });
    assert_eq!(s.pending_count(), 1);
}

#[test]
fn completions_resolve_in_any_order_and_duplicates_are_ignored() {
    let mut s = ChunkStreamer::new();
    s.request_region(0, 0, 2);
    let first = Completion { coord: ChunkCoord { cx: 1, cz: 1 }, result: ChunkLoadResult::Loaded };
    assert!(s.record_completion(first));
    assert_eq!(s.pending_count(), 3);
    // a second completion for the same chunk changes nothing
    assert!(!s.record_completion(first));
    assert_eq!(s.pending_count(), 3);
    // an unsolicited completion changes nothing
    let stray = Completion { coord: ChunkCoord { cx: 9, cz: 9 }, result: ChunkLoadResult::Loaded };
    assert!(!s.record_completion(stray));
    assert_eq!(s.pending_count(), 3);
}

#[test]
fn one_failed_chunk_is_reported_and_resolves_with_the_rest() {
    let mut s = ChunkStreamer::new();
    s.request_region(0, 0, 2);
    let comps = vec![
        Completion { coord: ChunkCoord { cx: 0, cz: 0 }, result: ChunkLoadResult::Loaded },
        Completion { coord: ChunkCoord { cx: 0, cz: 1 }, result: ChunkLoadResult::Failed(7) },
        Completion { coord: ChunkCoord { cx: 1, cz: 0 }, result: ChunkLoadResult::Loaded },
        Completion { coord: ChunkCoord { cx: 1, cz: 1 }, result: ChunkLoadResult::Loaded },
    ];
    let (accepted, pending) = s.poll_completions(&comps, None);
    assert_eq!(accepted.len(), 4);
    assert_eq!(pending, 0);
    let failures: Vec<&Completion> = accepted
        .iter()
        .filter(|c| matches!(c.result, ChunkLoadResult::Failed(_)))
        .collect();
    assert_eq!(failures.len(), 1);
    assert_eq!(failures[0].coord, ChunkCoord { cx: 0, cz: 1 });
    assert_eq!(failures[0].result, ChunkLoadResult::Failed(7));
}

#[test]
fn poll_is_callable_repeatedly_without_new_requests() {
    let mut s = ChunkStreamer::new();
    s.request_region(0, 0, 2);
    let (accepted, pending) = s.poll_completions(&Vec::new(), None);
    assert_eq!(accepted.len(), 0);
    assert_eq!(pending, 4);
    let batch = vec![Completion {
        coord: ChunkCoord { cx: 0, cz: 0 },
        result: ChunkLoadResult::Loaded,
    }];
    let (_, pending) = s.poll_completions(&batch, None);
    assert_eq!(pending, 3);
    // re-delivering the same batch is harmless
    let (accepted, pending) = s.poll_completions(&batch, None);
    assert_eq!(accepted.len(), 0);
    assert_eq!(pending, 3);
}

#[test]
fn poll_budget_caps_how_many_completions_one_call_drains() {
    let mut s = ChunkStreamer::new();
    s.request_region(0, 0, 2);
    let comps = vec![
        Completion { coord: ChunkCoord { cx: 0, cz: 0 }, result: ChunkLoadResult::Loaded },
        Completion { coord: ChunkCoord { cx: 0, cz: 1 }, result: ChunkLoadResult::Loaded },
        Completion { coord: ChunkCoord { cx: 1, cz: 0 }, result: ChunkLoadResult::Loaded },
        Completion { coord: ChunkCoord { cx: 1, cz: 1 }, result: ChunkLoadResult::Loaded },
    ];
    let (accepted, pending) = s.poll_completions(&comps, Some(3));
    assert_eq!(accepted.len(), 3);
    assert_eq!(pending, 1);
    // the rest of the batch can be re-delivered later
    let (accepted, pending) = s.poll_completions(&comps, None);
    assert_eq!(accepted.len(), 1);
    assert_eq!(accepted[0].coord, ChunkCoord { cx: 1, cz: 1 });
    assert_eq!(pending, 0);
}

#[test]
fn drain_loop_is_bounded_even_if_nothing_ever_completes() {
    let max_attempts: u32 = 5;
    let mut attempts: u32 = 0;
    let mut sleeps: u32 = 0;
    // the source never completes anything: pending stays at 4
    while drain_step(4, attempts, max_attempts) {
        sleeps += 1; // a real loop would sleep the inter-attempt delay here
        attempts += 1;
        assert!(sleeps <= max_attempts);
    }
    assert_eq!(sleeps, max_attempts);
}

#[test]
fn drain_loop_stops_as_soon_as_idle() {
    let pendings = [3usize, 2, 0, 0];
    let mut attempts: u32 = 0;
    let mut polls = 0usize;
    loop {
        let pending = pendings[polls];
        polls += 1;
        if !drain_step(pending, attempts, 10) {
            break;
        }
        attempts += 1;
    }
    assert_eq!(polls, 3);
}
