//! Properties of the simulation that span several ticks or several systems.
use vstd::prelude::*;
use crate::geom::Point;
use crate::components::{Velocity, HP};
use crate::world::{World, Slot, Entity, flushed, data_wf};
use crate::game::pipeline_stages;
use crate::movement::{
    enemy_move_post, bullet_tracking_post, bounce_bullet_post, star_move_post, deflector_post,
    animation_post,
};
use crate::shooting::{reload_timer_post, enemy_shoot_post};
use crate::combat::iframe_post;
use crate::movement::{integrate_post, integrate_step, bounce_step, bounces};
use crate::combat::{
    bullet_coll_post, player_coll_post, hp_kill_post, bullet_coll_upto, first_target, can_hit,
    coll_start, CollState, contact_upto, ContactState, player_ready, lemma_contact_keeps_player, damaged,
};

verus! {

/// The slot holds an entity at rest.
pub open spec fn at_rest(s: Slot) -> bool {
    s.data.velocity == Some(Velocity(Point { x: 0, y: 0 }))
}

/// Integration leaves an entity at rest where it is, however many times it runs
/// on a well-formed world:
/// along any run of integration steps, a slot at rest at the start is unchanged
/// at the end.
pub proof fn integration_at_rest_is_idle(ws: Seq<World>, i: int)
    requires
        ws.len() >= 1,
        forall|k: int| 0 <= k < ws.len() - 1 ==> #[trigger] integrate_post(ws[k], ws[k + 1]),
        ws[0].wf(),
        0 <= i < ws[0].slots@.len(),
        at_rest(ws[0].slots@[i]),
    ensures
        i < ws.last().slots@.len(),
        ws.last().slots@[i] == ws[0].slots@[i],
    decreases ws.len(),
{
    if ws.len() > 1 {
        let prefix = ws.drop_last();
        assert forall|k: int| 0 <= k < prefix.len() - 1 implies #[trigger] integrate_post(prefix[k], prefix[k + 1]) by {
            assert(integrate_post(ws[k], ws[k + 1]));
        }
        integration_at_rest_is_idle(prefix, i);
        let n = ws.len() - 2;
        assert(data_wf(ws[0].slots@[i].data));
        assert(integrate_post(ws[n], ws[n + 1]));
        assert(ws[n] == prefix.last());
        assert(ws[n + 1].slots@[i] == integrate_step(ws[n].slots@[i]));
    }
}

proof fn bullet_coll_spares_invulnerable(st: CollState, k: int, player: Entity, cfg: crate::resources::Config, i: int)
    requires
        0 <= k <= st.slots.len(),
        0 <= i < st.slots.len(),
        st.slots[i].data.hp is Some,
        st.slots[i].data.hp.unwrap().iframes > 0,
    ensures
        bullet_coll_upto(st, k, player, cfg).slots.len() == st.slots.len(),
        bullet_coll_upto(st, k, player, cfg).slots[i].data.hp == st.slots[i].data.hp,
    decreases k,
{
    if k > 0 {
        bullet_coll_spares_invulnerable(st, k - 1, player, cfg, i);
        let prev = bullet_coll_upto(st, k - 1, player, cfg);
        let b = k - 1;
        match first_target(prev.slots, b, 0, player) {
            Some(t) => {
                lemma_first_target_hits(prev.slots, b, 0, player);
            },
            None => {},
        }
    }
}

proof fn lemma_first_target_hits(slots: Seq<Slot>, b: int, t0: int, player: Entity)
    ensures
        first_target(slots, b, t0, player) matches Some(t) ==> 0 <= t < slots.len() && can_hit(slots, b, t, player),
    decreases slots.len() - t0,
{
    if 0 <= t0 < slots.len() && !can_hit(slots, b, t0, player) {
        lemma_first_target_hits(slots, b, t0 + 1, player);
    }
}

proof fn contact_spares_invulnerable(
    st: ContactState,
    k: int,
    player: Entity,
    ppos: crate::components::Position,
    phb: crate::components::Hitbox,
    cfg: crate::resources::Config,
    i: int,
)
    requires
        0 <= k <= st.slots.len(),
        0 <= i < st.slots.len(),
        st.slots[i].data.hp is Some,
        st.slots[i].data.hp.unwrap().iframes > 0,
    ensures
        contact_upto(st, k, player, ppos, phb, cfg).slots.len() == st.slots.len(),
        contact_upto(st, k, player, ppos, phb, cfg).slots[i].data.hp == st.slots[i].data.hp,
        st.hp.iframes > 0 ==> contact_upto(st, k, player, ppos, phb, cfg).hp == st.hp,
    decreases k,
{
    if k > 0 {
        contact_spares_invulnerable(st, k - 1, player, ppos, phb, cfg, i);
    }
}

/// Collisions never hurt an invulnerable entity: an entity with invulnerability
/// frames left keeps its hit points through bullet collision and through the
/// player's contact check.
pub proof fn collisions_spare_invulnerable(w0: World, w1: World, w2: World, i: int)
    requires
        bullet_coll_post(w0, w1),
        player_coll_post(w1, w2),
        0 <= i < w0.slots@.len(),
        w0.slots@[i].data.hp is Some,
        w0.slots@[i].data.hp.unwrap().iframes > 0,
    ensures
        w1.slots@[i].data.hp == w0.slots@[i].data.hp,
        w2.slots@[i].data.hp == w0.slots@[i].data.hp,
{
    bullet_coll_spares_invulnerable(
        coll_start(w0),
        w0.slots@.len() as int,
        w0.res.player_entity.0,
        w0.config,
        i,
    );
    if !w1.res.dead.0 && player_ready(w1) {
        let e = w1.res.player_entity.0;
        let d = w1.slots@[e.index as int].data;
        let st0 = ContactState { slots: w1.slots@, hp: d.hp.unwrap(), vel: d.velocity.unwrap().0 };
        contact_spares_invulnerable(
            st0,
            w1.slots@.len() as int,
            e,
            d.position.unwrap(),
            d.hitbox.unwrap(),
            w1.config,
            i,
        );
        if i == e.index {
            contact_spares_invulnerable(
                st0,
                w1.slots@.len() as int,
                e,
                d.position.unwrap(),
                d.hitbox.unwrap(),
                w1.config,
                i,
            );
        }
    }
}

/// The bounce counter of a bouncing bullet.
pub open spec fn bounces_left(s: Slot) -> u8 {
    s.data.bullet.unwrap().ty->BouncingBullet_0
}

/// A bouncing bullet survives exactly as many bounces as its counter says and is
/// destroyed by the next one, flipping its horizontal velocity on every bounce.
/// `ss[k]` is the bullet just before its `k`-th bounce (counting from zero), and
/// between bounces its bullet component and deletion mark stay as the bounce left them.
pub proof fn bounce_count(ss: Seq<Slot>, width: int)
    requires
        ss.len() >= 1,
        !ss[0].doomed,
        forall|k: int| 0 <= k < ss.len() ==> data_wf(#[trigger] ss[k].data),
        forall|k: int| 0 <= k < ss.len() ==> #[trigger] bounces(ss[k], width),
        forall|k: int|
            0 <= k < ss.len() - 1 ==> #[trigger] ss[k + 1].data.bullet == bounce_step(ss[k], width).data.bullet
                && ss[k + 1].doomed == bounce_step(ss[k], width).doomed,
    ensures
        forall|k: int|
            0 <= k < ss.len() ==> #[trigger] bounces_left(ss[k]) == if k <= bounces_left(ss[0]) {
                bounces_left(ss[0]) - k
            } else {
                0
            },
        forall|k: int| 0 <= k < ss.len() ==> #[trigger] ss[k].doomed == (k > bounces_left(ss[0])),
        forall|k: int|
            0 <= k < ss.len() ==> #[trigger] bounce_step(ss[k], width).data.velocity.unwrap().0.x
                == -ss[k].data.velocity.unwrap().0.x,
    decreases ss.len(),
{
    if ss.len() > 1 {
        let prefix = ss.drop_last();
        assert forall|k: int| 0 <= k < prefix.len() implies #[trigger] bounces(prefix[k], width) by {
            assert(bounces(ss[k], width));
        }
        assert forall|k: int| 0 <= k < prefix.len() implies data_wf(#[trigger] prefix[k].data) by {
            assert(data_wf(ss[k].data));
        }
        assert forall|k: int|
            0 <= k < prefix.len() - 1 implies #[trigger] prefix[k + 1].data.bullet == bounce_step(prefix[k], width).data.bullet
                && prefix[k + 1].doomed == bounce_step(prefix[k], width).doomed by {
            assert(ss[k + 1].data.bullet == bounce_step(ss[k], width).data.bullet);
        }
        bounce_count(prefix, width);
        let n = ss.len() - 2;
        assert(bounces(ss[n], width));
        assert(ss[n + 1].data.bullet == bounce_step(ss[n], width).data.bullet);
        assert(bounces_left(prefix[n]) == if n <= bounces_left(ss[0]) { bounces_left(ss[0]) - n } else { 0 });
        assert(prefix[n].doomed == (n > bounces_left(ss[0])));
        assert forall|k: int| 0 <= k < ss.len() implies #[trigger] bounces_left(ss[k]) == if k <= bounces_left(ss[0]) {
            bounces_left(ss[0]) - k
        } else {
            0
        } by {
            if k < ss.len() - 1 {
                assert(prefix[k] == ss[k]);
            }
        }
        assert forall|k: int| 0 <= k < ss.len() implies #[trigger] ss[k].doomed == (k > bounces_left(ss[0])) by {
            if k < ss.len() - 1 {
                assert(prefix[k] == ss[k]);
            }
        }
    }
}

/// An entity whose hit points have run out is gone once the HP-kill pass and
/// the following flush have run.
pub proof fn out_of_hp_is_removed(w0: World, w1: World, w2: World, e: Entity)
    requires
        hp_kill_post(w0, w1),
        flushed(w1, w2),
        w0.live(e),
        w0.slots@[e.index as int].data.hp is Some,
        w0.slots@[e.index as int].data.hp.unwrap().remaining == 0,
    ensures
        !w2.live(e),
{
    let i = e.index as int;
    assert(w1.slots@[i] == crate::combat::kill_step(w0.slots@[i]));
    assert(w1.slots@[i].doomed && w1.slots@[i].alive);
}

} // verus!

verus! {

/// From `a` to `b` no slot gains or loses hit points as a component, and none
/// gains hit points.
pub open spec fn hp_nonincreasing(a: Seq<Slot>, b: Seq<Slot>) -> bool {
    &&& a.len() == b.len()
    &&& forall|i: int|
        0 <= i < a.len() ==> (#[trigger] b[i].data.hp is Some) == (a[i].data.hp is Some)
            && (b[i].data.hp is Some ==> b[i].data.hp.unwrap().remaining <= a[i].data.hp.unwrap().remaining)
}

proof fn hp_nonincreasing_trans(a: Seq<Slot>, b: Seq<Slot>, c: Seq<Slot>)
    requires
        hp_nonincreasing(a, b),
        hp_nonincreasing(b, c),
    ensures
        hp_nonincreasing(a, c),
{
    assert forall|i: int| 0 <= i < a.len() implies (#[trigger] c[i].data.hp is Some) == (a[i].data.hp is Some)
        && (c[i].data.hp is Some ==> c[i].data.hp.unwrap().remaining <= a[i].data.hp.unwrap().remaining) by {
        assert(b[i].data.hp is Some == a[i].data.hp is Some);
    }
}

proof fn bullet_coll_hp(st: CollState, k: int, player: Entity, cfg: crate::resources::Config)
    requires
        0 <= k <= st.slots.len(),
    ensures
        hp_nonincreasing(st.slots, bullet_coll_upto(st, k, player, cfg).slots),
    decreases k,
{
    if k > 0 {
        bullet_coll_hp(st, k - 1, player, cfg);
        let prev = bullet_coll_upto(st, k - 1, player, cfg);
        let next = bullet_coll_upto(st, k, player, cfg);
        let b = k - 1;
        lemma_first_target_hits(prev.slots, b, 0, player);
        assert(hp_nonincreasing(prev.slots, next.slots));
        hp_nonincreasing_trans(st.slots, prev.slots, next.slots);
    }
}

proof fn contact_hp(
    st: ContactState,
    k: int,
    player: Entity,
    ppos: crate::components::Position,
    phb: crate::components::Hitbox,
    cfg: crate::resources::Config,
)
    requires
        0 <= k <= st.slots.len(),
    ensures
        hp_nonincreasing(st.slots, contact_upto(st, k, player, ppos, phb, cfg).slots),
        contact_upto(st, k, player, ppos, phb, cfg).hp.remaining <= st.hp.remaining,
    decreases k,
{
    if k > 0 {
        contact_hp(st, k - 1, player, ppos, phb, cfg);
        let prev = contact_upto(st, k - 1, player, ppos, phb, cfg);
        let next = contact_upto(st, k, player, ppos, phb, cfg);
        assert(hp_nonincreasing(prev.slots, next.slots));
        hp_nonincreasing_trans(st.slots, prev.slots, next.slots);
    }
}

proof fn player_coll_hp(w0: World, w1: World)
    requires
        player_coll_post(w0, w1),
    ensures
        hp_nonincreasing(w0.slots@, w1.slots@),
{
    if !w0.res.dead.0 && player_ready(w0) {
        let e = w0.res.player_entity.0;
        let d = w0.slots@[e.index as int].data;
        let st0 = ContactState { slots: w0.slots@, hp: d.hp.unwrap(), vel: d.velocity.unwrap().0 };
        let n = w0.slots@.len() as int;
        contact_hp(st0, n, e, d.position.unwrap(), d.hitbox.unwrap(), w0.config);
        let st = contact_upto(st0, n, e, d.position.unwrap(), d.hitbox.unwrap(), w0.config);
        lemma_contact_keeps_player(st0, n, e, d.position.unwrap(), d.hitbox.unwrap(), w0.config);
        assert(hp_nonincreasing(st.slots, w1.slots@));
        hp_nonincreasing_trans(w0.slots@, st.slots, w1.slots@);
    }
}

proof fn enemy_move_never_heals(a: World, b: World)
    requires
        enemy_move_post(a, b),
    ensures
        hp_nonincreasing(a.slots@, b.slots@),
{
}

proof fn bullet_tracking_never_heals(a: World, b: World)
    requires
        bullet_tracking_post(a, b),
    ensures
        hp_nonincreasing(a.slots@, b.slots@),
{
}

proof fn bounce_bullet_never_heals(a: World, b: World)
    requires
        bounce_bullet_post(a, b),
    ensures
        hp_nonincreasing(a.slots@, b.slots@),
{
}

proof fn integrate_never_heals(a: World, b: World)
    requires
        integrate_post(a, b),
    ensures
        hp_nonincreasing(a.slots@, b.slots@),
{
}

proof fn star_move_never_heals(a: World, b: World)
    requires
        star_move_post(a, b),
    ensures
        hp_nonincreasing(a.slots@, b.slots@),
{
}

proof fn reload_timer_never_heals(a: World, b: World)
    requires
        reload_timer_post(a, b),
    ensures
        hp_nonincreasing(a.slots@, b.slots@),
{
}

proof fn deflector_never_heals(a: World, b: World)
    requires
        deflector_post(a, b),
    ensures
        hp_nonincreasing(a.slots@, b.slots@),
{
}

proof fn enemy_shoot_never_heals(a: World, b: World)
    requires
        enemy_shoot_post(a, b),
    ensures
        hp_nonincreasing(a.slots@, b.slots@),
{
}

proof fn animation_never_heals(a: World, b: World)
    requires
        animation_post(a, b),
    ensures
        hp_nonincreasing(a.slots@, b.slots@),
{
}

proof fn hp_kill_never_heals(a: World, b: World)
    requires
        hp_kill_post(a, b),
    ensures
        hp_nonincreasing(a.slots@, b.slots@),
{
}

proof fn iframe_never_heals(a: World, b: World)
    requires
        iframe_post(a, b),
    ensures
        hp_nonincreasing(a.slots@, b.slots@),
{
}

proof fn movement_stages_never_heal(ws: Seq<World>)
    requires
        pipeline_stages(ws),
    ensures
        hp_nonincreasing(ws[0].slots@, ws[9].slots@),
{
    let s = |k: int| ws[k].slots@;
    enemy_move_never_heals(ws[0], ws[1]);
    bullet_tracking_never_heals(ws[1], ws[2]);
    bounce_bullet_never_heals(ws[2], ws[3]);
    integrate_never_heals(ws[3], ws[4]);
    star_move_never_heals(ws[4], ws[5]);
    reload_timer_never_heals(ws[5], ws[6]);
    deflector_never_heals(ws[6], ws[7]);
    enemy_shoot_never_heals(ws[7], ws[8]);
    animation_never_heals(ws[8], ws[9]);
    hp_nonincreasing_trans(s(0), s(1), s(2));
    hp_nonincreasing_trans(s(0), s(2), s(3));
    hp_nonincreasing_trans(s(0), s(3), s(4));
    hp_nonincreasing_trans(s(0), s(4), s(5));
    hp_nonincreasing_trans(s(0), s(5), s(6));
    hp_nonincreasing_trans(s(0), s(6), s(7));
    hp_nonincreasing_trans(s(0), s(7), s(8));
    hp_nonincreasing_trans(s(0), s(8), s(9));
}

/// Hit points never grow during a tick's systems: from the start to the end of
/// the pipeline every entity keeps or loses hit points, and never more than it
/// had (the only increase, the wave-clear bonus, happens outside the pipeline).
pub proof fn pipeline_never_heals(ws: Seq<World>)
    requires
        pipeline_stages(ws),
    ensures
        hp_nonincreasing(ws[0].slots@, ws[13].slots@),
{
    let s = |k: int| ws[k].slots@;
    movement_stages_never_heal(ws);
    bullet_coll_hp(coll_start(ws[9]), ws[9].slots@.len() as int, ws[9].res.player_entity.0, ws[9].config);
    assert(hp_nonincreasing(s(9), s(10)));
    player_coll_hp(ws[10], ws[11]);
    hp_kill_never_heals(ws[11], ws[12]);
    iframe_never_heals(ws[12], ws[13]);
    hp_nonincreasing_trans(s(0), s(9), s(10));
    hp_nonincreasing_trans(s(0), s(10), s(11));
    hp_nonincreasing_trans(s(0), s(11), s(12));
    hp_nonincreasing_trans(s(0), s(12), s(13));
}

proof fn contact_at_most_once(
    st: ContactState,
    k: int,
    player: Entity,
    ppos: crate::components::Position,
    phb: crate::components::Hitbox,
    cfg: crate::resources::Config,
)
    requires
        0 <= k <= st.slots.len(),
        st.hp.iframes == 0,
        cfg.contact_iframes > 0,
    ensures
        ({
            let h = contact_upto(st, k, player, ppos, phb, cfg).hp;
            h == st.hp || h == (HP { remaining: damaged(st.hp, cfg.contact_damage).remaining, iframes: cfg.contact_iframes })
        }),
    decreases k,
{
    if k > 0 {
        contact_at_most_once(st, k - 1, player, ppos, phb, cfg);
    }
}

/// Contact with enemies hurts the player at most once per check when contact
/// grants invulnerability: a player without invulnerability frames ends the
/// check either untouched or with exactly one contact damage taken and the
/// contact invulnerability set, however many enemies overlap it.
pub proof fn contact_damage_at_most_once(w0: World, w1: World)
    requires
        player_coll_post(w0, w1),
        !w0.res.dead.0,
        player_ready(w0),
        w0.slots@[w0.res.player_entity.0.index as int].data.hp.unwrap().iframes == 0,
        w0.config.contact_iframes > 0,
    ensures
        ({
            let i = w0.res.player_entity.0.index as int;
            let h0 = w0.slots@[i].data.hp.unwrap();
            let h1 = w1.slots@[i].data.hp.unwrap();
            &&& w1.slots@[i].data.hp is Some
            &&& h1 == h0 || h1 == (HP {
                remaining: damaged(h0, w0.config.contact_damage).remaining,
                iframes: w0.config.contact_iframes,
            })
        }),
{
    let e = w0.res.player_entity.0;
    let d = w0.slots@[e.index as int].data;
    let st0 = ContactState { slots: w0.slots@, hp: d.hp.unwrap(), vel: d.velocity.unwrap().0 };
    let n = w0.slots@.len() as int;
    contact_at_most_once(st0, n, e, d.position.unwrap(), d.hitbox.unwrap(), w0.config);
    lemma_contact_keeps_player(st0, n, e, d.position.unwrap(), d.hitbox.unwrap(), w0.config);
}

} // verus!
