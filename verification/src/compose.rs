//! The recursive texture compositor: per instruction, a cache lookup by
//! (identity, version); on a hit the cached texture is reused and nothing
//! below the node is re-rendered; on a miss an offscreen target is
//! allocated, the node's own visual drawn, every child composited into the
//! same target, and the result cached. Textures are named by opaque
//! handles; a render backend executes the emitted actions.

use vstd::prelude::*;
use crate::identity::UIIdentifier;
use crate::instruction::UIRenderInstruction;
use crate::length::Fraction;
use crate::visual::TextureMeta;

verus! {

/// One compositing cache entry: a texture handle keyed by identity and
/// version.
#[derive(Debug)]
pub struct CacheEntry {
    pub id: UIIdentifier,
    pub version: u64,
    pub texture: u64,
}

/// The compositing cache. Entries persist across frames; an unchanged
/// (identity, version) pair finds last frame's texture.
#[derive(Debug)]
pub struct CompositeCache {
    pub entries: Vec<CacheEntry>,
}

/// One order to the render backend.
#[derive(Debug)]
pub enum RenderAction {
    /// Allocate an offscreen render target of the given pixel size under
    /// the given handle.
    CreateTarget { handle: u64, width: u32, height: u32 },
    /// Draw the visual into the whole target, vertically flipped as
    /// render-to-texture requires.
    DrawVisual { target: u64, meta: TextureMeta, flip: bool },
    /// Draw the source texture into the target at the given fractional
    /// rectangle.
    Paste {
        target: u64,
        source: u64,
        left: Fraction,
        top: Fraction,
        right: Fraction,
        bottom: Fraction,
        flip: bool,
    },
}

/// The texture cached for the given identity and version: the first
/// matching entry, identities compared by contents.
pub open spec fn spec_lookup(entries: Seq<CacheEntry>, id: UIIdentifier, version: u64) -> Option<
    u64,
>
    decreases entries.len(),
{
    if entries.len() == 0 {
        None
    } else if entries[0].id.spec_eq(id) && entries[0].version == version {
        Some(entries[0].texture)
    } else {
        spec_lookup(entries.drop_first(), id, version)
    }
}

/// A nonzero pixel length for a render target: degenerate zero sizes clamp
/// to one.
pub open spec fn spec_clamp_dim(w: int) -> int {
    if w == 0 {
        1
    } else {
        w
    }
}

/// The next handle after allocating one, saturating at `u64::MAX`.
pub open spec fn spec_next_handle(h: u64) -> u64 {
    if h == u64::MAX {
        u64::MAX
    } else {
        (h + 1) as u64
    }
}

/// The paste action a parent emits for one composited child.
pub open spec fn spec_paste(n: UIRenderInstruction, target: u64, source: u64) -> RenderAction {
    RenderAction::Paste {
        target,
        source,
        left: n.location_left,
        top: n.location_top,
        right: n.location_right,
        bottom: n.location_bottom,
        flip: true,
    }
}

/// What compositing instruction `n` does, as a function of the cache
/// entries and the handle counter: the actions emitted, the entries after,
/// the texture for the node, and the counter after.
///
/// On a cache hit there are no actions at all — neither the node nor any
/// descendant is re-rendered — and the cache is untouched. On a miss, a
/// fresh target sized to the node (zero clamped to one), the node's own
/// visual drawn into it, the children composited in order, each pasted
/// into the target, and the target cached under (identity, version) after
/// the children.
pub open spec fn spec_composite(n: UIRenderInstruction, c0: Seq<CacheEntry>, h0: u64) -> (
    Seq<RenderAction>,
    Seq<CacheEntry>,
    u64,
    u64,
)
    decreases n, 1int,
{
    match spec_lookup(c0, n.id, n.version) {
        Some(t) => (Seq::<RenderAction>::empty(), c0, t, h0),
        None => {
            let tex = h0;
            let (kid_acts, c_mid, h_mid) = spec_composite_children(
                n,
                n.sub_instructions@.len() as int,
                c0,
                spec_next_handle(h0),
                tex,
            );
            (
                seq![
                    RenderAction::CreateTarget {
                        handle: tex,
                        width: spec_clamp_dim(n.texture_width as int) as u32,
                        height: spec_clamp_dim(n.texture_height as int) as u32,
                    },
                    RenderAction::DrawVisual { target: tex, meta: n.texture_meta, flip: true },
                ] + kid_acts,
                c_mid.push(CacheEntry { id: n.id, version: n.version, texture: tex }),
                tex,
                h_mid,
            )
        },
    }
}

/// The first `i` children of `n` composited in order into `target`: the
/// actions (each child's own, then its paste), the cache entries after,
/// and the handle counter after.
pub open spec fn spec_composite_children(
    n: UIRenderInstruction,
    i: int,
    c0: Seq<CacheEntry>,
    h0: u64,
    target: u64,
) -> (Seq<RenderAction>, Seq<CacheEntry>, u64)
    decreases n, 0int, i,
{
    if i <= 0 || i > n.sub_instructions@.len() {
        (Seq::<RenderAction>::empty(), c0, h0)
    } else {
        let (head_acts, c_a, h_a) = spec_composite_children(n, i - 1, c0, h0, target);
        let sub = n.sub_instructions@[i - 1];
        let (sub_acts, c_b, tex, h_b) = spec_composite(sub, c_a, h_a);
        (head_acts + sub_acts + seq![spec_paste(sub, target, tex)], c_b, h_b)
    }
}

/// Cache correctness: a node whose identity and version are unchanged and
/// cached composites to zero render actions — nothing below it is
/// re-rendered either — and leaves the cache as it was.
pub proof fn lemma_cache_hit_no_rerender(n: UIRenderInstruction, c0: Seq<CacheEntry>, h0: u64)
    requires
        spec_lookup(c0, n.id, n.version) is Some,
    ensures
        spec_composite(n, c0, h0).0 == Seq::<RenderAction>::empty(),
        spec_composite(n, c0, h0).1 == c0,
        spec_composite(n, c0, h0).3 == h0,
{
}

impl CompositeCache {
    pub fn new() -> (r: Self)
        ensures
            r.entries@.len() == 0,
    {
        CompositeCache { entries: Vec::new() }
    }

    /// The cached texture for (identity, version), if any.
    pub fn get(&self, id: &UIIdentifier, version: u64) -> (r: Option<u64>)
        ensures
            r == spec_lookup(self.entries@, *id, version),
    {
        let mut i: usize = 0;
        proof {
            assert(self.entries@.skip(0) =~= self.entries@);
        }
        while i < self.entries.len()
            invariant
                i <= self.entries@.len(),
                spec_lookup(self.entries@.skip(i as int), *id, version) == spec_lookup(
                    self.entries@,
                    *id,
                    version,
                ),
            decreases self.entries@.len() - i,
        {
            let e = &self.entries[i];
            proof {
                assert(self.entries@.skip(i as int)[0] == self.entries@[i as int]);
            }
            if &e.id == id && e.version == version {
                return Some(e.texture);
            }
            i = i + 1;
            proof {
                assert(self.entries@.skip(i as int - 1).drop_first() =~= self.entries@.skip(
                    i as int,
                ));
            }
        }
        proof {
            assert(self.entries@.skip(i as int) =~= Seq::<CacheEntry>::empty());
        }
        None
    }

    /// Record the texture composited for (identity, version).
    pub fn insert(&mut self, id: UIIdentifier, version: u64, texture: u64)
        ensures
            final(self).entries@ == old(self).entries@.push(
                CacheEntry { id, version, texture },
            ),
    {
        self.entries.push(CacheEntry { id, version, texture });
    }
}

fn take_handle(next_handle: &mut u64) -> (r: u64)
    ensures
        r == *old(next_handle),
        *final(next_handle) == spec_next_handle(*old(next_handle)),
{
    let h = *next_handle;
    if h < u64::MAX {
        *next_handle = h + 1;
    }
    h
}

fn clamp_dim(w: u32) -> (r: u32)
    ensures
        r == spec_clamp_dim(w as int),
{
    if w == 0 {
        1
    } else {
        w
    }
}

impl UIRenderInstruction {
    /// Composite this instruction: reuse the cached texture when identity
    /// and version are unchanged — emitting no action at all for the node
    /// or its descendants — and otherwise render the subtree into a fresh
    /// target and cache it.
    #[verifier::loop_isolation(false)]
    pub fn composite(&self, cache: &mut CompositeCache, next_handle: &mut u64) -> (r: (
        Vec<RenderAction>,
        u64,
    ))
        ensures
            ({
                let s = spec_composite(*self, old(cache).entries@, *old(next_handle));
                &&& r.0@ == s.0
                &&& final(cache).entries@ == s.1
                &&& r.1 == s.2
                &&& *final(next_handle) == s.3
            }),
            spec_lookup(old(cache).entries@, self.id, self.version) is Some ==> r.0@.len() == 0
                && final(cache).entries@ == old(cache).entries@,
        decreases *self,
    {
        let hit = cache.get(&self.id, self.version);
        match hit {
            Some(t) => (Vec::new(), t),
            None => {
                let ghost c0 = cache.entries@;
                let tex = take_handle(next_handle);
                let ghost h_start = *next_handle;
                let mut acts: Vec<RenderAction> = Vec::new();
                acts.push(
                    RenderAction::CreateTarget {
                        handle: tex,
                        width: clamp_dim(self.texture_width),
                        height: clamp_dim(self.texture_height),
                    },
                );
                acts.push(
                    RenderAction::DrawVisual {
                        target: tex,
                        meta: self.texture_meta.duplicate(),
                        flip: true,
                    },
                );
                let ghost prefix = acts@;
                let kids = &self.sub_instructions;
                let mut i: usize = 0;
                proof {
                    assert(acts@.skip(2) =~= Seq::<RenderAction>::empty());
                }
                while i < kids.len()
                    invariant
                        i <= kids@.len(),
                        acts@.len() >= 2,
                        acts@.subrange(0, 2) =~= prefix,
                        ({
                            let s = spec_composite_children(*self, i as int, c0, h_start, tex);
                            acts@.skip(2) == s.0 && cache.entries@ == s.1 && *next_handle == s.2
                        }),
                    decreases kids@.len() - i,
                {
                    let ghost acts_head = acts@.skip(2);
                    let ghost c_mid = cache.entries@;
                    let ghost h_mid = *next_handle;
                    proof {
                        assert(decreases_to!(*self => self.sub_instructions));
                        assert(decreases_to!(self.sub_instructions => kids@[i as int]));
                    }
                    let (sub_acts, sub_tex) = (&kids[i]).composite(cache, next_handle);
                    let ghost acts_last = sub_acts@;
                    let mut sub_acts = sub_acts;
                    acts.append(&mut sub_acts);
                    acts.push(
                        RenderAction::Paste {
                            target: tex,
                            source: sub_tex,
                            left: kids[i].location_left,
                            top: kids[i].location_top,
                            right: kids[i].location_right,
                            bottom: kids[i].location_bottom,
                            flip: true,
                        },
                    );
                    i = i + 1;
                    proof {
                        assert(acts@.subrange(0, 2) =~= prefix);
                        assert(acts@.skip(2) =~= acts_head + acts_last + seq![
                            spec_paste(self.sub_instructions@[i as int - 1], tex, sub_tex),
                        ]);
                    }
                }
                let ghost c_mid = cache.entries@;
                let ghost kid_acts = acts@.skip(2);
                cache.insert(self.id.duplicate(), self.version, tex);
                proof {
                    assert(acts@ =~= acts@.subrange(0, 2) + kid_acts);
                    assert(prefix =~= seq![
                        RenderAction::CreateTarget {
                            handle: tex,
                            width: spec_clamp_dim(self.texture_width as int) as u32,
                            height: spec_clamp_dim(self.texture_height as int) as u32,
                        },
                        RenderAction::DrawVisual {
                            target: tex,
                            meta: self.texture_meta,
                            flip: true,
                        },
                    ]);
                    assert(acts@ =~= spec_composite(*self, c0, *old(next_handle)).0);
                    assert(cache.entries@ =~= spec_composite(*self, c0, *old(next_handle)).1);
                }
                (acts, tex)
            },
        }
    }
}

/// The paste action that puts a root instruction's texture onto the
/// screen, unflipped.
pub open spec fn spec_screen_paste(n: UIRenderInstruction, screen: u64, source: u64) -> RenderAction {
    RenderAction::Paste {
        target: screen,
        source,
        left: n.location_left,
        top: n.location_top,
        right: n.location_right,
        bottom: n.location_bottom,
        flip: false,
    }
}

/// A whole frame composited: the first `i` root instructions in order,
/// each followed by its paste onto the screen.
pub open spec fn spec_composite_frame(
    instrs: Seq<UIRenderInstruction>,
    i: int,
    c0: Seq<CacheEntry>,
    h0: u64,
    screen: u64,
) -> (Seq<RenderAction>, Seq<CacheEntry>, u64)
    decreases i,
{
    if i <= 0 || i > instrs.len() {
        (Seq::<RenderAction>::empty(), c0, h0)
    } else {
        let (head_acts, c_a, h_a) = spec_composite_frame(instrs, i - 1, c0, h0, screen);
        let sub = instrs[i - 1];
        let (sub_acts, c_b, tex, h_b) = spec_composite(sub, c_a, h_a);
        (head_acts + sub_acts + seq![spec_screen_paste(sub, screen, tex)], c_b, h_b)
    }
}

/// Composite a whole frame: every root instruction in order, each pasted
/// onto the screen target unflipped.
#[verifier::loop_isolation(false)]
pub fn composite_frame(
    instructions: &Vec<UIRenderInstruction>,
    cache: &mut CompositeCache,
    next_handle: &mut u64,
    screen: u64,
) -> (acts: Vec<RenderAction>)
    ensures
        ({
            let s = spec_composite_frame(
                instructions@,
                instructions@.len() as int,
                old(cache).entries@,
                *old(next_handle),
                screen,
            );
            acts@ == s.0 && final(cache).entries@ == s.1 && *final(next_handle) == s.2
        }),
{
    let ghost c0 = cache.entries@;
    let ghost h0 = *next_handle;
    let mut acts: Vec<RenderAction> = Vec::new();
    let mut i: usize = 0;
    while i < instructions.len()
        invariant
            i <= instructions@.len(),
            ({
                let s = spec_composite_frame(instructions@, i as int, c0, h0, screen);
                acts@ == s.0 && cache.entries@ == s.1 && *next_handle == s.2
            }),
        decreases instructions@.len() - i,
    {
        let ghost acts_head = acts@;
        let ghost c_mid = cache.entries@;
        let ghost h_mid = *next_handle;
        let (sub_acts, tex) = (&instructions[i]).composite(cache, next_handle);
        let ghost acts_last = sub_acts@;
        let mut sub_acts = sub_acts;
        acts.append(&mut sub_acts);
        acts.push(
            RenderAction::Paste {
                target: screen,
                source: tex,
                left: instructions[i].location_left,
                top: instructions[i].location_top,
                right: instructions[i].location_right,
                bottom: instructions[i].location_bottom,
                flip: false,
            },
        );
        i = i + 1;
        proof {
            assert(acts@ =~= acts_head + acts_last + seq![
                spec_screen_paste(instructions@[i as int - 1], screen, tex),
            ]);
        }
    }
    acts
}

} // verus!
