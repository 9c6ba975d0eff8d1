use pixel_render::cache::{CacheAction, RenderState, RenderStateCache};
use pixel_render::renderer::{PixelRenderer, RenderError};

fn state(surface: u32, w: u32, h: u32) -> RenderState<u32> {
    RenderState { surface, last_window_width: w, last_window_height: h }
}

/// Runs the cache side of a render, counting the surfaces made.
fn render(r: &PixelRenderer, cache: &mut RenderStateCache<u32>, made: &mut u32, id: u64, w: u32, h: u32) -> CacheAction {
    let len = (r.buffer_width() * r.buffer_height() * 4) as usize;
    let action = r.begin_render(cache, id, w, h, len).unwrap();
    if action != CacheAction::Reuse {
        *made += 1;
        cache.insert(id, state(*made, w, h));
    }
    action
}

#[test]
fn first_render_creates_then_reuses() {
    let r = PixelRenderer::new(4, 4);
    let mut cache = RenderStateCache::new();
    let mut made = 0;
    assert_eq!(render(&r, &mut cache, &mut made, 7, 100, 50), CacheAction::Create);
    assert_eq!(render(&r, &mut cache, &mut made, 7, 100, 50), CacheAction::Reuse);
    assert_eq!(made, 1);
    assert_eq!(cache.len(), 1);
}

#[test]
fn resize_recreates_state() {
    let r = PixelRenderer::new(4, 4);
    let mut cache = RenderStateCache::new();
    let mut made = 0;
    render(&r, &mut cache, &mut made, 7, 100, 50);
    assert_eq!(render(&r, &mut cache, &mut made, 7, 120, 50), CacheAction::Recreate);
    assert_eq!(made, 2);
    let s = cache.take(7).unwrap();
    assert_eq!((s.surface, s.last_window_width, s.last_window_height), (2, 120, 50));
}

#[test]
fn eviction_forces_fresh_state() {
    let r = PixelRenderer::new(4, 4);
    let mut cache = RenderStateCache::new();
    let mut made = 0;
    render(&r, &mut cache, &mut made, 1, 10, 10);
    render(&r, &mut cache, &mut made, 2, 10, 10);
    cache.remove(1);
    assert!(!cache.contains(1));
    assert!(cache.contains(2));
    cache.remove(1);
    assert_eq!(render(&r, &mut cache, &mut made, 1, 10, 10), CacheAction::Create);
    assert_eq!(made, 3);
    cache.clear();
    assert_eq!(cache.len(), 0);
    assert_eq!(render(&r, &mut cache, &mut made, 2, 10, 10), CacheAction::Create);
    assert_eq!(made, 4);
}

#[test]
fn wrong_buffer_leaves_cache_alone() {
    let r = PixelRenderer::new(4, 4);
    let mut cache: RenderStateCache<u32> = RenderStateCache::new();
    cache.insert(3, state(1, 10, 10));
    let res = r.begin_render(&mut cache, 3, 20, 20, 63);
    assert_eq!(
        res,
        Err(RenderError::BufferSizeMismatch { expected: 64, actual: 63, buffer_width: 4, buffer_height: 4 })
    );
    assert!(cache.contains(3));
    assert_eq!(cache.take(3).unwrap().last_window_width, 10);
}

#[test]
fn take_missing_is_none() {
    let mut cache: RenderStateCache<u32> = RenderStateCache::new();
    assert!(cache.take(9).is_none());
}
