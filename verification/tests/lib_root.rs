use canvas_assembly::{assembly_route_count, ROUTE_CRATE_COUNT};

#[test]
fn assembly_counts_its_route_crates() {
    assert_eq!(assembly_route_count(), 3);
    assert_eq!(assembly_route_count(), ROUTE_CRATE_COUNT);
}
