use rust_grammar::memory_pool::{MemoryPool, FREE_ALREADY_FREE, FREE_UNKNOWN_ID};

fn pool_with(sizes: &[usize]) -> MemoryPool {
    let mut pool = MemoryPool::new();
    for &s in sizes {
        pool.add_block(s);
    }
    pool
}

#[test]
fn allocate_takes_first_fit() {
    let mut pool = pool_with(&[1024, 512, 256]);
    let h = pool.allocate(512).unwrap();
    assert_eq!(h.id(), 1);
    assert_eq!(h.size(), 512);
    assert!(h.data().iter().all(|&b| b == 0));
    let h2 = pool.allocate(256).unwrap();
    assert_eq!(h2.id(), 2);
    let h3 = pool.allocate(128).unwrap();
    assert_eq!(h3.id(), 3);
    assert!(pool.allocate(1).is_none());
    assert_eq!(pool.stats(), (3, 0, 0, 512 + 256 + 128));
}

#[test]
fn allocate_none_when_too_large() {
    let mut pool = pool_with(&[16, 32]);
    assert!(pool.allocate(33).is_none());
    assert_eq!(pool.stats(), (0, 2, 0, 0));
    assert!(MemoryPool::new().allocate(0).is_none());
}

#[test]
fn free_and_errors() {
    let mut pool = pool_with(&[100, 200]);
    let h = pool.allocate(150).unwrap();
    assert_eq!(h.id(), 2);
    assert_eq!(pool.free(2), Ok(()));
    assert_eq!(pool.stats(), (0, 2, 0, 0));
    assert_eq!(pool.free(2), Err(FREE_ALREADY_FREE));
    assert_eq!(pool.free(7), Err(FREE_UNKNOWN_ID));
    assert_eq!(pool.free(0), Err(FREE_UNKNOWN_ID));
    assert_eq!(FREE_ALREADY_FREE, "内存块已经是空闲状态");
    assert_eq!(FREE_UNKNOWN_ID, "无效的内存块ID");
}

#[test]
fn free_subtracts_block_size_saturating() {
    let mut pool = pool_with(&[100]);
    pool.allocate(10).unwrap();
    assert_eq!(pool.stats().3, 10);
    pool.free_by_id(1);
    assert_eq!(pool.stats(), (0, 1, 0, 0));
    pool.free_by_id(1);
    pool.free_by_id(9);
    assert_eq!(pool.stats(), (0, 1, 0, 0));
}

#[test]
fn block_info() {
    let mut pool = pool_with(&[64, 32]);
    pool.allocate(40).unwrap();
    let b = pool.get_block_info(1).unwrap();
    assert_eq!((b.id, b.size, b.is_free, b.data.len()), (1, 64, false, 64));
    assert!(b.data.iter().all(|&x| x == 0));
    let b = pool.get_block_info(2).unwrap();
    assert_eq!((b.id, b.size, b.is_free), (2, 32, true));
    assert!(pool.get_block_info(3).is_none());
}

#[test]
fn handle_data_is_writable() {
    let mut pool = pool_with(&[8]);
    let mut h = pool.allocate(4).unwrap();
    h.data_mut()[0] = 42;
    h.data_mut()[1] = 100;
    assert_eq!(h.data(), &[42, 100, 0, 0]);
}

#[test]
fn free_after_allocate_restores_block() {
    let mut pool = pool_with(&[64]);
    let h = pool.allocate(64).unwrap();
    assert!(!pool.get_block_info(1).unwrap().is_free);
    pool.free_by_id(h.id());
    assert!(pool.get_block_info(1).unwrap().is_free);
    assert_eq!(pool.stats(), (0, 1, 0, 0));
}
