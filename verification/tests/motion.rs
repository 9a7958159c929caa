use zeron_core::proto::motion::{MINI_RING, MINI_RING_LEN};

#[test]
fn the_mini_ring_visits_every_cell_once() {
    let mut seen: Vec<usize> = MINI_RING.iter().flatten().copied().collect();
    seen.sort_unstable();
    assert_eq!(seen, (0..MINI_RING_LEN as usize).collect::<Vec<_>>());
}
