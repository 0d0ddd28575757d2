use offscreen_frame::staging::{BufferRequest, StagingBufferManager};

fn request(size: u64) -> BufferRequest {
    BufferRequest { size, copy_dst: true, map_read: true, mapped_at_creation: false }
}

#[test]
fn manager_starts_with_a_buffer_of_256_by_256() {
    let manager = StagingBufferManager::new();
    assert_eq!(manager.width(), 256);
    assert_eq!(manager.height(), 256);
    assert_eq!(manager.size(), 262_144);
    assert_eq!(manager.retained(), request(262_144));
}

#[test]
fn create_output_buffer_is_a_mappable_copy_destination() {
    let made = StagingBufferManager::create_output_buffer(256, 256);
    assert_eq!(made.size, 262_144);
    assert!(made.copy_dst);
    assert!(made.map_read);
    assert!(!made.mapped_at_creation);
    assert_eq!(StagingBufferManager::create_output_buffer(512, 256), request(524_288));
    assert_eq!(StagingBufferManager::create_output_buffer(0, 256), request(0));
    assert_eq!(StagingBufferManager::create_output_buffer(3, 5), request(60));
}

#[test]
fn create_output_buffer_computes_in_64_bits() {
    assert_eq!(StagingBufferManager::create_output_buffer(32_768, 32_768), request(4_294_967_296));
    assert_eq!(
        StagingBufferManager::create_output_buffer(u32::MAX, 1_000_000_000),
        request(4 * 4_294_967_295u64 * 1_000_000_000u64)
    );
}

#[test]
fn ensure_reuses_the_buffer_at_the_same_padded_size() {
    let mut manager = StagingBufferManager::new();
    assert_eq!(manager.ensure(256, 256), None);
    assert_eq!(manager.ensure(100, 100), None);
    assert_eq!(manager.ensure(1, 255), None);
    assert_eq!(manager.width(), 256);
    assert_eq!(manager.height(), 256);
}

#[test]
fn ensure_replaces_the_buffer_at_another_padded_size() {
    let mut manager = StagingBufferManager::new();
    assert_eq!(manager.ensure(300, 200), Some(request(524_288)));
    assert_eq!(manager.width(), 512);
    assert_eq!(manager.height(), 256);
    assert_eq!(manager.size(), 524_288);
    assert_eq!(manager.retained(), request(524_288));
    assert_eq!(manager.ensure(300, 257), Some(request(4 * 512 * 512)));
    assert_eq!(manager.width(), 512);
    assert_eq!(manager.height(), 512);
}

#[test]
fn ensure_twice_at_256_by_256_keeps_the_buffer() {
    let mut manager = StagingBufferManager::new();
    manager.ensure(1000, 1000);
    assert_eq!(manager.ensure(256, 256), Some(request(262_144)));
    let before = manager;
    assert_eq!(manager.ensure(256, 256), None);
    assert_eq!(manager, before);
}

#[test]
fn ensure_replaces_exactly_when_the_padded_size_changes() {
    let sizes = [(1u32, 1u32), (256, 256), (257, 256), (256, 257), (300, 200), (512, 100), (0, 0), (0, 5)];
    for first in sizes {
        for second in sizes {
            let mut manager = StagingBufferManager::new();
            manager.ensure(first.0, first.1);
            let before = (manager.width(), manager.height());
            let fresh = manager.ensure(second.0, second.1);
            let after = (manager.width(), manager.height());
            assert_eq!(fresh.is_some(), before != after, "{first:?} then {second:?}");
            if let Some(made) = fresh {
                assert_eq!(made.size, 4 * u64::from(after.0) * u64::from(after.1));
            }
        }
    }
}

#[test]
fn ensure_for_an_empty_frame_orders_an_empty_buffer() {
    let mut manager = StagingBufferManager::new();
    assert_eq!(manager.ensure(0, 0), Some(request(0)));
    assert_eq!(manager.width(), 0);
    assert_eq!(manager.height(), 0);
    assert_eq!(manager.size(), 0);
    assert_eq!(manager.ensure(0, 0), None);
}

#[test]
fn ensure_records_the_largest_frame_that_fits() {
    let mut manager = StagingBufferManager::new();
    let fresh = manager.ensure(1_073_741_568, 4_294_967_040);
    assert_eq!(fresh, Some(request(4 * 1_073_741_568u64 * 4_294_967_040u64)));
    assert_eq!(manager.width(), 1_073_741_568);
    assert_eq!(manager.height(), 4_294_967_040);
    assert_eq!(manager.size(), 4 * 1_073_741_568u64 * 4_294_967_040u64);
}
