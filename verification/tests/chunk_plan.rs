use file_transfer::chunks::{chunk_count, chunk_plan, CHUNK_SIZE};

fn assert_tiling(total: u64, chunk: u64) {
    let plan = chunk_plan(total, chunk);
    let expected_count = if total == 0 { 0 } else { (total - 1) / chunk + 1 };
    assert_eq!(plan.len() as u64, expected_count);
    assert_eq!(chunk_count(total, chunk), expected_count);
    let mut next_offset: u64 = 0;
    for (i, (offset, length)) in plan.iter().enumerate() {
        assert_eq!(*offset, i as u64 * chunk);
        assert_eq!(*offset, next_offset, "chunks must leave no gap and no overlap");
        assert!(*length > 0);
        if i + 1 < plan.len() {
            assert_eq!(*length, chunk, "every chunk but the last is full");
        }
        next_offset = offset + length;
    }
    assert_eq!(next_offset, total, "the union of the chunks is exactly the file");
}

#[test]
fn tiling_across_edge_sizes() {
    let chunk = 4u64;
    for total in [0, 1, chunk - 1, chunk, chunk + 1, 10 * chunk] {
        assert_tiling(total, chunk);
    }
}

#[test]
fn tiling_at_the_wire_chunk_size() {
    for total in [0, 1, CHUNK_SIZE - 1, CHUNK_SIZE, CHUNK_SIZE + 1, 10 * CHUNK_SIZE] {
        assert_tiling(total, CHUNK_SIZE);
    }
}

#[test]
fn final_chunk_is_the_remainder() {
    let plan = chunk_plan(10, 4);
    assert_eq!(plan, vec![(0, 4), (4, 4), (8, 2)]);
}

#[test]
fn exact_multiple_has_only_full_chunks() {
    let plan = chunk_plan(2 * CHUNK_SIZE, CHUNK_SIZE);
    assert_eq!(plan.len(), 2);
    assert_eq!(plan[0], (0, 1048576));
    assert_eq!(plan[1], (1048576, 1048576));
}

#[test]
fn empty_file_has_no_chunks() {
    assert_eq!(chunk_plan(0, CHUNK_SIZE), vec![]);
    assert_eq!(chunk_count(0, CHUNK_SIZE), 0);
}
