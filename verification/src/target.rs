//! Drawing targets and the protocol that gives one client at a time access
//! to the root display.

use crate::epd::{mode_code, mode_of_code, EpdMode};
use crate::layer::{Call, DisplayHandle, PrimitiveLayer};
use vstd::multiset::Multiset;
use vstd::prelude::*;

verus! {

/// Anything that names one drawing surface.
pub trait LgfxTarget {
    /// The surface this value names. The body stands for targets that keep
    /// no model of themselves; a verified target states its own.
    open spec fn handle(&self) -> DisplayHandle {
        DisplayHandle { raw: 0 }
    }

    fn target(&self) -> (h: DisplayHandle)
        ensures
            h == self.handle(),
    ;
}

impl LgfxTarget for DisplayHandle {
    open spec fn handle(&self) -> DisplayHandle {
        *self
    }

    fn target(&self) -> (h: DisplayHandle) {
        *self
    }
}

/// Owner of the root display and of the lock on it. There is one root per
/// process: `setup` makes it once. The root is locked while a guard on it
/// lives, and free otherwise.
pub struct Gfx {
    target: DisplayHandle,
    held: bool,
}

/// The root display as drawing clients share it: a borrowed view of the
/// owner through which the root is locked and unlocked.
pub struct SharedLgfxTarget<'a> {
    pub gfx: &'a mut Gfx,
}

/// Exclusive access to the root display, from the lock that made the guard
/// to its release. A batched guard holds back what is drawn until it is
/// released.
pub struct LgfxGuard {
    update_suppressed: bool,
    target: DisplayHandle,
}

/// An off-screen surface with a buffer of its own, created from the root.
pub struct Sprite {
    target: DisplayHandle,
}

impl Gfx {
    /// The root surface.
    pub closed spec fn root(&self) -> DisplayHandle {
        self.target
    }

    /// Whether a guard on the root lives.
    pub closed spec fn is_locked_spec(&self) -> bool {
        self.held
    }

    #[verifier::when_used_as_spec(is_locked_spec)]
    pub fn is_locked(&self) -> (locked: bool)
        ensures
            locked == self.is_locked_spec(),
    {
        self.held
    }

    /// Brings up the root display, once. `initialized` is the process-wide
    /// mark that this has happened: where it is set already, nothing is
    /// asked of the layer and no second owner is made.
    pub fn setup<L: PrimitiveLayer>(initialized: &mut bool, layer: &mut L) -> (gfx: Option<Gfx>)
        ensures
            *final(initialized),
            gfx is None <==> *old(initialized),
            gfx is None ==> final(layer).calls() == old(layer).calls(),
            gfx matches Some(g) ==> !g.is_locked() && final(layer).calls() == old(layer).calls().push(
                Call::Setup { root: g.root() },
            ),
    {
        if *initialized {
            None
        } else {
            *initialized = true;
            let target = layer.setup();
            Some(Gfx { target, held: false })
        }
    }

    /// As `setup`, for a root display of the given size.
    pub fn setup_with_size<L: PrimitiveLayer>(
        initialized: &mut bool,
        layer: &mut L,
        width: i32,
        height: i32,
    ) -> (gfx: Option<Gfx>)
        ensures
            *final(initialized),
            gfx is None <==> *old(initialized),
            gfx is None ==> final(layer).calls() == old(layer).calls(),
            gfx matches Some(g) ==> !g.is_locked() && final(layer).calls() == old(layer).calls().push(
                Call::SetupWithSize { width, height, root: g.root() },
            ),
    {
        if *initialized {
            None
        } else {
            *initialized = true;
            let target = layer.setup_with_size(width, height);
            Some(Gfx { target, held: false })
        }
    }

    /// The root as drawing clients share it.
    pub fn as_shared<'a>(&'a mut self) -> (shared: SharedLgfxTarget<'a>)
        ensures
            *shared.gfx == *old(self),
            *final(self) == *final(shared.gfx),
    {
        SharedLgfxTarget::new(self)
    }

    /// Creates a sprite of the given size from this root, which must be
    /// free: the request is made as one that holds the root.
    pub fn create_sprite<L: PrimitiveLayer>(&mut self, layer: &mut L, w: i32, h: i32) -> (sprite: Result<
        Sprite,
        (),
    >)
        requires
            !old(self).is_locked(),
        ensures
            *final(self) == *old(self),
            created(old(layer).calls(), final(layer).calls(), old(self).root(), w, h, sprite),
    {
        Sprite::new(self, layer, w, h)
    }

    /// Lets the host window system handle its pending events.
    pub fn handle_sdl_event<L: PrimitiveLayer>(layer: &mut L)
        ensures
            final(layer).calls() == old(layer).calls().push(Call::PumpEvents),
    {
        layer.pump_events();
    }
}

impl<'a> SharedLgfxTarget<'a> {
    /// The root surface.
    pub open spec fn root(&self) -> DisplayHandle {
        self.gfx.root()
    }

    /// Whether a guard on the root lives.
    pub open spec fn is_locked_spec(&self) -> bool {
        self.gfx.is_locked()
    }

    #[verifier::when_used_as_spec(is_locked_spec)]
    pub fn is_locked(&self) -> (locked: bool)
        ensures
            locked == self.is_locked_spec(),
    {
        self.gfx.is_locked()
    }

    /// Whether the root is locked and `guard` is a guard on it.
    pub fn holds(&self, guard: &LgfxGuard) -> (held: bool)
        ensures
            held == (self.is_locked() && self.root() == guard.handle()),
    {
        self.gfx.held && self.gfx.target == guard.target
    }

    pub fn new(gfx: &'a mut Gfx) -> (shared: Self)
        ensures
            *shared.gfx == *old(gfx),
            *final(gfx) == *final(shared.gfx),
    {
        Self { gfx }
    }

    /// Takes the root, which must be free, for drawing that shows at once:
    /// each primitive commits by itself, and releasing the guard asks
    /// nothing of the layer.
    pub fn lock(&mut self) -> (guard: LgfxGuard)
        requires
            !old(self).is_locked(),
        ensures
            guard.handle() == old(self).root(),
            !guard.is_batched(),
            final(self).is_locked(),
            final(self).root() == old(self).root(),
            *final(final(self).gfx) == *final(old(self).gfx),
    {
        self.gfx.held = true;
        LgfxGuard { update_suppressed: false, target: self.gfx.target }
    }

    /// Takes the root, which must be free, for batched drawing: a write is
    /// begun, and what is drawn shows when the guard is released.
    pub fn lock_without_auto_update<L: PrimitiveLayer>(&mut self, layer: &mut L) -> (guard: LgfxGuard)
        requires
            !old(self).is_locked(),
        ensures
            guard.handle() == old(self).root(),
            guard.is_batched(),
            final(self).is_locked(),
            final(self).root() == old(self).root(),
            *final(final(self).gfx) == *final(old(self).gfx),
            final(layer).calls() == old(layer).calls().push(
                Call::StartWrite { target: old(self).root() },
            ),
    {
        self.gfx.held = true;
        layer.start_write(self.gfx.target);
        LgfxGuard { update_suppressed: true, target: self.gfx.target }
    }
}

impl LgfxGuard {
    /// Whether what is drawn is held back until release.
    pub closed spec fn is_batched(&self) -> bool {
        self.update_suppressed
    }

    /// Whether the panel is of the slow-refresh class.
    pub fn is_epd<L: PrimitiveLayer>(&mut self, layer: &L) -> (epd: bool)
        ensures
            epd == layer.panel_is_epd(old(self).handle()),
            *final(self) == *old(self),
    {
        layer.is_epd(self.target)
    }

    /// The panel's refresh mode, or the number the layer answered where it
    /// stands for no mode.
    pub fn get_epd_mode<L: PrimitiveLayer>(&mut self, layer: &L) -> (mode: Result<EpdMode, u32>)
        ensures
            mode == match mode_of_code(layer.panel_epd_mode(old(self).handle())) {
                Some(m) => Ok::<EpdMode, u32>(m),
                None => Err::<EpdMode, u32>(layer.panel_epd_mode(old(self).handle())),
            },
            *final(self) == *old(self),
    {
        let raw = layer.epd_mode(self.target);
        match EpdMode::try_from(raw) {
            Ok(mode) => Ok(mode),
            Err(_) => Err(raw),
        }
    }

    pub fn set_epd_mode<L: PrimitiveLayer>(&mut self, layer: &mut L, mode: EpdMode)
        ensures
            final(layer).calls() == old(layer).calls().push(
                Call::SetEpdMode { target: old(self).handle(), mode: mode_code(mode) },
            ),
            *final(self) == *old(self),
    {
        layer.set_epd_mode(self.target, mode.code());
    }

    pub fn set_rotation<L: PrimitiveLayer>(&mut self, layer: &mut L, rotation: u8)
        ensures
            final(layer).calls() == old(layer).calls().push(
                Call::SetRotation { target: old(self).handle(), rotation },
            ),
            *final(self) == *old(self),
    {
        layer.set_rotation(self.target, rotation);
    }

    /// Gives the root back to `shared`, the view it was taken from. A
    /// batched guard ends its write, once; another guard asks nothing of the
    /// layer. The root is free afterwards.
    pub fn release<'a, L: PrimitiveLayer>(self, shared: &mut SharedLgfxTarget<'a>, layer: &mut L)
        requires
            old(shared).is_locked(),
            old(shared).root() == self.handle(),
        ensures
            !final(shared).is_locked(),
            final(shared).root() == old(shared).root(),
            *final(final(shared).gfx) == *final(old(shared).gfx),
            final(layer).calls() == if self.is_batched() {
                old(layer).calls().push(Call::EndWrite { target: self.handle() })
            } else {
                old(layer).calls()
            },
    {
        if self.update_suppressed {
            layer.end_write(self.target);
        }
        shared.gfx.held = false;
    }
}

impl LgfxTarget for LgfxGuard {
    closed spec fn handle(&self) -> DisplayHandle {
        self.target
    }

    fn target(&self) -> (h: DisplayHandle) {
        self.target
    }
}

/// What creating a sprite of `w` by `h` from `parent` does: the layer is
/// asked once, and the sprite is the surface it answered, or `Err` where it
/// answered null.
pub open spec fn created(
    before: Seq<Call>,
    after: Seq<Call>,
    parent: DisplayHandle,
    w: i32,
    h: i32,
    sprite: Result<Sprite, ()>,
) -> bool {
    &&& after.len() == before.len() + 1
    &&& after.drop_last() == before
    &&& after.last() matches Call::CreateSprite { parent: p, w: cw, h: ch, sprite: answered } && p
        == parent && cw == w && ch == h && match sprite {
        Ok(s) => !answered.is_null() && s.handle() == answered,
        Err(_) => answered.is_null(),
    }
}

impl Sprite {
    /// Creates a sprite of the given size from `gfx`, which must be free:
    /// the root is taken for the time of the request and given back.
    pub fn new<L: PrimitiveLayer>(gfx: &mut Gfx, layer: &mut L, w: i32, h: i32) -> (sprite: Result<
        Self,
        (),
    >)
        requires
            !old(gfx).is_locked(),
        ensures
            *final(gfx) == *old(gfx),
            created(old(layer).calls(), final(layer).calls(), old(gfx).root(), w, h, sprite),
    {
        let mut shared = gfx.as_shared();
        let guard = shared.lock();
        let sprite = layer.create_sprite(guard.target(), w, h);
        proof {
            let after = layer.calls();
            assert(after.drop_last() =~= old(layer).calls());
        }
        guard.release(&mut shared, layer);
        if sprite.is_null() {
            Err(())
        } else {
            Ok(Self { target: sprite })
        }
    }

    /// Composites the sprite onto its parent at `(x, y)`. `gfx` is the
    /// parent and must be free: it is taken for the time of the call and
    /// given back.
    pub fn push_sprite<L: PrimitiveLayer>(&self, gfx: &mut Gfx, layer: &mut L, x: i32, y: i32)
        requires
            !old(gfx).is_locked(),
        ensures
            *final(gfx) == *old(gfx),
            final(layer).calls() == old(layer).calls().push(
                Call::PushSprite { sprite: self.handle(), x, y },
            ),
    {
        let mut shared = gfx.as_shared();
        let guard = shared.lock();
        layer.push_sprite(self.target, x, y);
        guard.release(&mut shared, layer);
    }

    /// Gives the sprite's buffer back. The sprite is used up: nothing can be
    /// drawn on it or pushed from it afterwards.
    pub fn destroy<L: PrimitiveLayer>(self, layer: &mut L)
        ensures
            final(layer).calls() == old(layer).calls().push(
                Call::DeleteSprite { sprite: self.handle() },
            ),
    {
        layer.delete_sprite(self.target);
    }
}

impl LgfxTarget for Sprite {
    closed spec fn handle(&self) -> DisplayHandle {
        self.target
    }

    fn target(&self) -> (h: DisplayHandle) {
        self.target
    }
}

/// How many times a write on `target` was ended: the commit signals that the
/// layer has had for it.
pub open spec fn commits(calls: Seq<Call>, target: DisplayHandle) -> nat
    decreases calls.len(),
{
    if calls.len() == 0 {
        0
    } else {
        commits(calls.drop_last(), target) + if calls.last() == (Call::EndWrite { target }) {
            1nat
        } else {
            0nat
        }
    }
}

/// The sprites that are alive after `calls`: each surface the layer answered
/// to a request, as often as it was handed out and not given back.
pub open spec fn live_sprites(calls: Seq<Call>) -> Multiset<DisplayHandle>
    decreases calls.len(),
{
    if calls.len() == 0 {
        Multiset::empty()
    } else {
        let before = live_sprites(calls.drop_last());
        match calls.last() {
            Call::CreateSprite { sprite, .. } => if sprite.is_null() {
                before
            } else {
                before.insert(sprite)
            },
            Call::DeleteSprite { sprite } => before.remove(sprite),
            _ => before,
        }
    }
}

/// Calls that end no write on `target` send the layer no commit signal for
/// it.
pub proof fn lemma_commits_unchanged(before: Seq<Call>, more: Seq<Call>, target: DisplayHandle)
    requires
        forall|i: int| 0 <= i < more.len() ==> #[trigger] more[i] != (Call::EndWrite { target }),
    ensures
        commits(before + more, target) == commits(before, target),
    decreases more.len(),
{
    if more.len() == 0 {
        assert(before + more =~= before);
    } else {
        lemma_commits_unchanged(before, more.drop_last(), target);
        assert((before + more).drop_last() =~= before + more.drop_last());
        assert((before + more).last() == more[more.len() - 1]);
    }
}

/// Calls that neither ask for a sprite nor give one back leave the sprites
/// that are alive as they were.
pub proof fn lemma_sprites_unchanged(before: Seq<Call>, more: Seq<Call>)
    requires
        forall|i: int|
            0 <= i < more.len() ==> !(#[trigger] more[i] is CreateSprite) && !(more[i]
                is DeleteSprite),
    ensures
        live_sprites(before + more) == live_sprites(before),
    decreases more.len(),
{
    if more.len() == 0 {
        assert(before + more =~= before);
    } else {
        lemma_sprites_unchanged(before, more.drop_last());
        assert((before + more).drop_last() =~= before + more.drop_last());
        assert((before + more).last() == more[more.len() - 1]);
    }
}

/// While a batched guard lives, the layer gets no commit signal for the
/// root, whatever is asked of it but the end of a write; releasing the guard
/// sends exactly one. `before` is what the layer had received when the guard
/// was taken, `issued` what was asked of it while the guard lived.
pub proof fn lemma_batched_commit(before: Seq<Call>, issued: Seq<Call>, target: DisplayHandle)
    requires
        forall|i: int| 0 <= i < issued.len() ==> #[trigger] issued[i] != (Call::EndWrite { target }),
    ensures
        commits(before.push(Call::StartWrite { target }), target) == commits(before, target),
        forall|len: int|
            0 <= len <= issued.len() ==> #[trigger] commits(
                before.push(Call::StartWrite { target }) + issued.take(len),
                target,
            ) == commits(before, target),
        commits(
            (before.push(Call::StartWrite { target }) + issued).push(Call::EndWrite { target }),
            target,
        ) == commits(before, target) + 1,
{
    let taken = before.push(Call::StartWrite { target });
    assert(taken.drop_last() =~= before);
    assert forall|len: int| 0 <= len <= issued.len() implies #[trigger] commits(
        taken + issued.take(len),
        target,
    ) == commits(before, target) by {
        lemma_commits_unchanged(taken, issued.take(len), target);
    }
    lemma_commits_unchanged(taken, issued, target);
    let released = (taken + issued).push(Call::EndWrite { target });
    assert(released.drop_last() =~= taken + issued);
    assert(released.last() == Call::EndWrite { target });
}

/// A sprite that is created and given back leaves as many sprites alive as
/// there were, whatever was asked of the layer in between but another
/// sprite or the return of one.
pub proof fn lemma_sprite_lifecycle(
    before: Seq<Call>,
    between: Seq<Call>,
    parent: DisplayHandle,
    w: i32,
    h: i32,
    sprite: DisplayHandle,
)
    requires
        !sprite.is_null(),
        forall|i: int|
            0 <= i < between.len() ==> !(#[trigger] between[i] is CreateSprite) && !(between[i]
                is DeleteSprite),
    ensures
        live_sprites(before.push(Call::CreateSprite { parent, w, h, sprite })) == live_sprites(
            before,
        ).insert(sprite),
        live_sprites(
            (before.push(Call::CreateSprite { parent, w, h, sprite }) + between).push(
                Call::DeleteSprite { sprite },
            ),
        ) == live_sprites(before),
{
    let made = before.push(Call::CreateSprite { parent, w, h, sprite });
    assert(made.drop_last() =~= before);
    lemma_sprites_unchanged(made, between);
    assert(((made + between).push(Call::DeleteSprite { sprite })).drop_last() =~= made + between);
    assert(live_sprites(before).insert(sprite).remove(sprite) =~= live_sprites(before));
}

/// A request for a sprite that the layer could not meet leaves the sprites
/// that are alive as they were.
pub proof fn lemma_sprite_refused(before: Seq<Call>, parent: DisplayHandle, w: i32, h: i32, sprite: DisplayHandle)
    requires
        sprite.is_null(),
    ensures
        live_sprites(before.push(Call::CreateSprite { parent, w, h, sprite })) == live_sprites(
            before,
        ),
{
    assert(before.push(Call::CreateSprite { parent, w, h, sprite }).drop_last() =~= before);
}

} // verus!
