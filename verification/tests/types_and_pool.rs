use kand::helper::buffer_pool::{BlockCache, MAX_CACHED_BLOCKS};
use kand::types::Signal;
use kand::TAInt;

#[test]
fn signal_values() {
    let bullish: TAInt = Signal::Bullish.into();
    let bearish: TAInt = Signal::Bearish.into();
    let neutral: TAInt = Signal::Neutral.into();
    assert_eq!(bullish, 100);
    assert_eq!(bearish, -100);
    assert_eq!(neutral, 0);
    assert_eq!(Signal::Pattern.value(), 100);
}

#[test]
fn block_cache_first_fit_and_bound() {
    let mut cache: BlockCache<&str> = BlockCache::new();
    assert_eq!(cache.acquire_block(8), None);
    cache.release_block(16, "a");
    cache.release_block(64, "b");
    cache.release_block(32, "c");
    // The first block of at least 20 bytes is "b"; "c" takes its place.
    assert_eq!(cache.acquire_block(20), Some("b"));
    assert_eq!(cache.len(), 2);
    assert_eq!(cache.acquire_block(20), Some("c"));
    assert_eq!(cache.acquire_block(20), None);
    assert_eq!(cache.acquire_block(1), Some("a"));
    for _ in 0..40 {
        cache.release_block(8, "x");
    }
    assert_eq!(cache.len(), MAX_CACHED_BLOCKS);
}
