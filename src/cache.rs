use vstd::prelude::*;
use std::collections::HashMap;

verus! {

broadcast use vstd::std_specs::hash::group_hash_axioms;

/// What one window's presentation needs: its surface and the window size the
/// surface was created for.
pub struct RenderState<S> {
    pub surface: S,
    pub last_window_width: u32,
    pub last_window_height: u32,
}

/// What a render must do with the cached state of its window.
#[derive(Debug, Clone, Copy, PartialEq, Eq, Structural)]
pub enum CacheAction {
    /// The cached state was made for the current size: use it.
    Reuse,
    /// No state is cached: make one.
    Create,
    /// The cached state was made for another size: it has been evicted, make a new one.
    Recreate,
}

/// The action a render of window `id` at `w` x `h` takes on the cache `m`.
pub open spec fn action_for<S>(m: Map<u64, RenderState<S>>, id: u64, w: u32, h: u32) -> CacheAction {
    if !m.contains_key(id) {
        CacheAction::Create
    } else if m[id].last_window_width == w && m[id].last_window_height == h {
        CacheAction::Reuse
    } else {
        CacheAction::Recreate
    }
}

/// The cache after reconciling window `id` with its size `w` x `h`: a state
/// made for another size is evicted.
pub open spec fn reconciled<S>(m: Map<u64, RenderState<S>>, id: u64, w: u32, h: u32) -> Map<
    u64,
    RenderState<S>,
> {
    if action_for(m, id, w, h) == CacheAction::Recreate {
        m.remove(id)
    } else {
        m
    }
}

/// The cache after a render of window `id` at `w` x `h` that made `fresh`
/// wherever the window's state was missing or evicted.
pub open spec fn after_render<S>(
    m: Map<u64, RenderState<S>>,
    id: u64,
    w: u32,
    h: u32,
    fresh: RenderState<S>,
) -> Map<u64, RenderState<S>> {
    if action_for(m, id, w, h) == CacheAction::Reuse {
        m
    } else {
        reconciled(m, id, w, h).insert(id, fresh)
    }
}

/// A state made for the size it is stored under.
pub open spec fn made_for<S>(state: RenderState<S>, w: u32, h: u32) -> bool {
    state.last_window_width == w && state.last_window_height == h
}

/// Rendering a window twice at the same size: the second render reuses the
/// state that the first one left, and leaves the cache as it found it.
pub proof fn lemma_second_render_reuses<S>(
    m: Map<u64, RenderState<S>>,
    id: u64,
    w: u32,
    h: u32,
    fresh: RenderState<S>,
    later: RenderState<S>,
)
    requires
        made_for(fresh, w, h),
    ensures
        action_for(after_render(m, id, w, h, fresh), id, w, h) == CacheAction::Reuse,
        after_render(after_render(m, id, w, h, fresh), id, w, h, later) == after_render(
            m,
            id,
            w,
            h,
            fresh,
        ),
{
}

/// Once a window's size has changed, its next render does not reuse the state
/// made for the old size: the state is evicted and made again, for the new size.
pub proof fn lemma_resize_recreates<S>(
    m: Map<u64, RenderState<S>>,
    id: u64,
    w: u32,
    h: u32,
    fresh: RenderState<S>,
)
    requires
        m.contains_key(id),
        !made_for(m[id], w, h),
        made_for(fresh, w, h),
    ensures
        action_for(m, id, w, h) == CacheAction::Recreate,
        !reconciled(m, id, w, h).contains_key(id),
        after_render(m, id, w, h, fresh)[id] == fresh,
        made_for(after_render(m, id, w, h, fresh)[id], w, h),
{
}

/// After a window's state is evicted, alone or with all others, its next
/// render makes a fresh state rather than reusing anything.
pub proof fn lemma_evicted_state_is_made_afresh<S>(
    m: Map<u64, RenderState<S>>,
    id: u64,
    w: u32,
    h: u32,
    fresh: RenderState<S>,
)
    ensures
        action_for(m.remove(id), id, w, h) == CacheAction::Create,
        action_for(Map::<u64, RenderState<S>>::empty(), id, w, h) == CacheAction::Create,
        after_render(m.remove(id), id, w, h, fresh)[id] == fresh,
{
}

/// The per-window render states, keyed by window identity: at most one state
/// per window.
pub struct RenderStateCache<S> {
    states: HashMap<u64, RenderState<S>>,
}

impl<S> View for RenderStateCache<S> {
    type V = Map<u64, RenderState<S>>;

    closed spec fn view(&self) -> Map<u64, RenderState<S>> {
        self.states@
    }
}

impl<S> RenderStateCache<S> {
    /// An empty cache.
    pub fn new() -> (r: Self)
        ensures
            r@ == Map::<u64, RenderState<S>>::empty(),
    {
        RenderStateCache { states: HashMap::new() }
    }

    /// Whether a state is cached for window `id`.
    pub fn contains(&self, id: u64) -> (r: bool)
        ensures
            r == self@.contains_key(id),
    {
        self.states.contains_key(&id)
    }

    /// The number of cached states.
    pub fn len(&self) -> (r: usize)
        ensures
            r == self@.len(),
    {
        self.states.len()
    }

    /// Decides what a render of window `id` at `w` x `h` must do, evicting a
    /// state that was made for another size.
    pub fn reconcile(&mut self, id: u64, w: u32, h: u32) -> (r: CacheAction)
        ensures
            r == action_for(old(self)@, id, w, h),
            final(self)@ == reconciled(old(self)@, id, w, h),
    {
        match self.states.get(&id) {
            Option::None => CacheAction::Create,
            Some(state) => {
                if state.last_window_width == w && state.last_window_height == h {
                    CacheAction::Reuse
                } else {
                    self.states.remove(&id);
                    CacheAction::Recreate
                }
            },
        }
    }

    /// Stores the state of window `id`, replacing any earlier one.
    pub fn insert(&mut self, id: u64, state: RenderState<S>)
        ensures
            final(self)@ == old(self)@.insert(id, state),
    {
        self.states.insert(id, state);
    }

    /// Takes the state of window `id` out of the cache, if there is one.
    pub fn take(&mut self, id: u64) -> (r: Option<RenderState<S>>)
        ensures
            final(self)@ == old(self)@.remove(id),
            r == (if old(self)@.contains_key(id) {
                Some(old(self)@[id])
            } else {
                Option::<RenderState<S>>::None
            }),
    {
        self.states.remove(&id)
    }

    /// Evicts the state of window `id`; nothing happens if there is none.
    pub fn remove(&mut self, id: u64)
        ensures
            final(self)@ == old(self)@.remove(id),
    {
        self.states.remove(&id);
    }

    /// Evicts every state.
    pub fn clear(&mut self)
        ensures
            final(self)@ == Map::<u64, RenderState<S>>::empty(),
    {
        self.states.clear();
    }
}

} // verus!
