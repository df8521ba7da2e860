//! Laws of the game loop: properties of the mathematical step function that
//! hold over whole runs, however many ticks elapse and whatever the spawner
//! rolls.
use vstd::prelude::*;

use crate::game::{
    culled, game_step, game_wf, GameState, GameView, INITIAL_SPAWN_BUDGET, SPAWN_BASE_DELAY,
    SPAWN_ROLL_MAX, SPAWN_ROLL_MIN, SPAWN_X_MAX, SPAWN_X_MIN,
};
use crate::monster::MonsterView;

verus! {

/// One tick's inputs: the two edge-triggered signals and the spawner's two
/// dice rolls (read only on a tick that spawns).
pub ghost struct TickInput {
    pub confirm: bool,
    pub reset: bool,
    pub roll_x: int,
    pub roll_t: int,
}

/// A whole run: the step function folded over a sequence of tick inputs.
pub open spec fn game_run(g: GameView, inputs: Seq<TickInput>) -> GameView
    decreases inputs.len(),
{
    if inputs.len() == 0 {
        g
    } else {
        game_run(
            game_step(g, inputs[0].confirm, inputs[0].reset, inputs[0].roll_x, inputs[0].roll_t),
            inputs.drop_first(),
        )
    }
}

/// After the cull no inactive entity remains: every survivor's activity
/// predicate holds.
pub proof fn lemma_culled_active(ms: Seq<MonsterView>)
    ensures
        forall|i: int| 0 <= i < culled(ms).len() ==> (#[trigger] culled(ms)[i]).active,
    decreases ms.len(),
{
    if ms.len() > 0 {
        lemma_culled_active(ms.drop_last());
        let rest = culled(ms.drop_last());
        assert forall|i: int| 0 <= i < culled(ms).len() implies (#[trigger] culled(ms)[i]).active by {
            if i < rest.len() {
                assert(culled(ms)[i] == rest[i]);
            } else {
                assert(culled(ms)[i] == ms.last());
            }
        }
    }
}

/// A roster of active entities passes the cull unchanged.
pub proof fn lemma_culled_of_active(ms: Seq<MonsterView>)
    requires
        forall|i: int| 0 <= i < ms.len() ==> (#[trigger] ms[i]).active,
    ensures
        culled(ms) == ms,
    decreases ms.len(),
{
    if ms.len() > 0 {
        lemma_culled_of_active(ms.drop_last());
        assert(culled(ms.drop_last()).push(ms.last()) =~= ms);
    }
}

/// Cull idempotence: running the cull twice in a row, with no intervening
/// update, yields the same roster both times.
pub proof fn lemma_culled_idempotent(ms: Seq<MonsterView>)
    ensures
        culled(culled(ms)) == culled(ms),
{
    lemma_culled_active(ms);
    lemma_culled_of_active(culled(ms));
}

/// The cull only removes: it never grows the roster.
pub proof fn lemma_culled_len(ms: Seq<MonsterView>)
    ensures
        culled(ms).len() <= ms.len(),
    decreases ms.len(),
{
    if ms.len() > 0 {
        lemma_culled_len(ms.drop_last());
    }
}

/// One tick with the spawn budget exhausted and no reset creates nothing:
/// the budget stays exhausted and the roster cannot grow.
pub proof fn lemma_step_no_budget(g: GameView, confirm: bool, roll_x: int, roll_t: int)
    requires
        g.max_monsters == 0,
    ensures
        game_step(g, confirm, false, roll_x, roll_t).max_monsters == 0,
        game_step(g, confirm, false, roll_x, roll_t).monsters.len() <= g.monsters.len(),
{
    lemma_culled_len(g.monsters);
}

/// Spawn cap: once the spawn budget is exhausted, no later tick ever
/// creates another monster — the roster never grows again, however many
/// ticks elapse — as long as the debug reset does not refill the budget.
pub proof fn lemma_spawn_cap(g: GameView, inputs: Seq<TickInput>)
    requires
        g.max_monsters == 0,
        forall|i: int| 0 <= i < inputs.len() ==> !(#[trigger] inputs[i]).reset,
    ensures
        game_run(g, inputs).max_monsters == 0,
        game_run(g, inputs).monsters.len() <= g.monsters.len(),
    decreases inputs.len(),
{
    if inputs.len() > 0 {
        lemma_step_no_budget(g, inputs[0].confirm, inputs[0].roll_x, inputs[0].roll_t);
        lemma_spawn_cap(
            game_step(g, inputs[0].confirm, inputs[0].reset, inputs[0].roll_x, inputs[0].roll_t),
            inputs.drop_first(),
        );
    }
}

/// The spawn budget never grows during play and never goes negative: only
/// the debug reset refills it.
pub proof fn lemma_budget_monotone(g: GameView, confirm: bool, roll_x: int, roll_t: int)
    requires
        g.max_monsters >= 0,
    ensures
        0 <= game_step(g, confirm, false, roll_x, roll_t).max_monsters <= g.max_monsters,
{
}

/// Spawn interval range: whenever a tick actually spawns (the budget
/// shrinks), the freshly drawn countdown lies between
/// `SPAWN_BASE_DELAY + SPAWN_ROLL_MIN` and `SPAWN_BASE_DELAY + SPAWN_ROLL_MAX - 1`
/// inclusive — fifty to seventy-nine ticks.
pub proof fn lemma_spawn_interval(g: GameView, confirm: bool, roll_x: int, roll_t: int)
    requires
        SPAWN_ROLL_MIN as int <= roll_t < SPAWN_ROLL_MAX as int,
    ensures
        game_step(g, confirm, false, roll_x, roll_t).max_monsters < g.max_monsters
            ==> SPAWN_BASE_DELAY + SPAWN_ROLL_MIN <= game_step(
            g,
            confirm,
            false,
            roll_x,
            roll_t,
        ).monster_timer <= SPAWN_BASE_DELAY + SPAWN_ROLL_MAX - 1,
{
}

/// Exhausted timer: with the budget exhausted and play ongoing, the
/// countdown is never reset — it falls by exactly one per tick, without
/// bound and without ever spawning — and the state machine stays in play.
pub proof fn lemma_exhausted_timer(g: GameView, inputs: Seq<TickInput>)
    requires
        g.state == GameState::Game,
        g.max_monsters == 0,
        forall|i: int| 0 <= i < inputs.len() ==> !(#[trigger] inputs[i]).reset,
    ensures
        game_run(g, inputs).state == GameState::Game,
        game_run(g, inputs).max_monsters == 0,
        game_run(g, inputs).monster_timer == g.monster_timer - inputs.len(),
        game_run(g, inputs).monsters.len() <= g.monsters.len(),
    decreases inputs.len(),
{
    if inputs.len() > 0 {
        lemma_step_no_budget(g, inputs[0].confirm, inputs[0].roll_x, inputs[0].roll_t);
        lemma_exhausted_timer(
            game_step(g, inputs[0].confirm, inputs[0].reset, inputs[0].roll_x, inputs[0].roll_t),
            inputs.drop_first(),
        );
    }
}

/// After an active-play tick the roster holds no inactive entity: the cull
/// removed them all, and neither the hero's step nor the survivors' own
/// steps touch the activity predicate.
pub proof fn lemma_play_roster_active(
    g: GameView,
    confirm: bool,
    roll_x: int,
    roll_t: int,
)
    requires
        g.state == GameState::Game,
    ensures
        forall|i: int|
            0 <= i < game_step(g, confirm, false, roll_x, roll_t).monsters.len() ==> (
            #[trigger] game_step(g, confirm, false, roll_x, roll_t).monsters[i]).active,
{
    let spawned = if g.max_monsters > 0 && g.monster_timer - 1 == 0 {
        g.monsters.push(crate::monster::monster_spawn(roll_x, crate::game::SPAWN_Y as int))
    } else {
        g.monsters
    };
    lemma_culled_active(spawned);
}

/// One tick preserves the world's invariant, whatever the inputs, as long as
/// the spawner's rolls are in range.
pub proof fn lemma_step_preserves_wf(
    g: GameView,
    confirm: bool,
    reset: bool,
    roll_x: int,
    roll_t: int,
)
    requires
        game_wf(g),
        SPAWN_X_MIN as int <= roll_x < SPAWN_X_MAX as int,
        SPAWN_ROLL_MIN as int <= roll_t < SPAWN_ROLL_MAX as int,
    ensures
        game_wf(game_step(g, confirm, reset, roll_x, roll_t)),
{
    assert(INITIAL_SPAWN_BUDGET == 5i64);
}

/// A whole run preserves the world's invariant, as long as every tick's
/// rolls are in range.
pub proof fn lemma_run_preserves_wf(g: GameView, inputs: Seq<TickInput>)
    requires
        game_wf(g),
        forall|i: int|
            0 <= i < inputs.len() ==> SPAWN_X_MIN as int <= (#[trigger] inputs[i]).roll_x
                < SPAWN_X_MAX as int && SPAWN_ROLL_MIN as int <= inputs[i].roll_t
                < SPAWN_ROLL_MAX as int,
    ensures
        game_wf(game_run(g, inputs)),
    decreases inputs.len(),
{
    if inputs.len() > 0 {
        lemma_step_preserves_wf(
            g,
            inputs[0].confirm,
            inputs[0].reset,
            inputs[0].roll_x,
            inputs[0].roll_t,
        );
        lemma_run_preserves_wf(
            game_step(g, inputs[0].confirm, inputs[0].reset, inputs[0].roll_x, inputs[0].roll_t),
            inputs.drop_first(),
        );
    }
}

} // verus!
