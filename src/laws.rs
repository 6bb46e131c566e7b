//! Properties of the game state that span several ticks or key presses.
use vstd::prelude::*;
use crate::app::{
    counts_down, key_step, tick_step, valid_prompt, ActiveScreen, App, Flow, Gamemode, Key,
};
use crate::menu::PauseItem;

verus! {

proof fn lemma_counts_down_unchanged(states: Seq<App>, i: int)
    requires
        0 <= i < states.len(),
        i <= states[0].time_left,
        counts_down(states[0]),
        forall|k: int| 0 <= k < states.len() - 1 ==> tick_step(states[k], #[trigger] states[k + 1]),
    ensures
        states[i] == (App { time_left: (states[0].time_left - i) as usize, ..states[0] }),
    decreases i,
{
    if i > 0 {
        lemma_counts_down_unchanged(states, i - 1);
        let k = i - 1;
        assert(tick_step(states[k], states[k + 1]));
    } else {
        assert(states[0] == (App { time_left: states[0].time_left, ..states[0] }));
    }
}

/// From a fresh round in `LimitedLives` with one life, the countdown runs
/// down one tick at a time without cost; the next tick after it reaches zero
/// costs exactly that life, starts a new round with a valid prompt and a full
/// countdown, and returns to the title screen, after which further ticks
/// change nothing.
pub proof fn countdown_costs_one_life(states: Seq<App>)
    requires
        states.len() > 0,
        states.len() == states[0].config.ticks_per_turn + 3,
        states[0].active_screen == ActiveScreen::Game,
        !states[0].paused,
        states[0].config.gamemode == Gamemode::LimitedLives,
        states[0].lives == 1,
        states[0].time_left == states[0].config.ticks_per_turn,
        forall|k: int| 0 <= k < states.len() - 1 ==> tick_step(states[k], #[trigger] states[k + 1]),
    ensures
        ({
            let t = states[0].config.ticks_per_turn as int;
            &&& forall|i: int|
                0 <= i <= t ==> (#[trigger] states[i]).lives == 1 && states[i].time_left == t - i
            &&& states[t + 1].lives == 0
            &&& states[t + 1].active_screen == ActiveScreen::Title
            &&& states[t + 1].time_left == t
            &&& valid_prompt(
                states[0].dictionary@,
                states[0].config.min_wpp as nat,
                states[t + 1].prompt@,
            )
            &&& states[t + 2] == states[t + 1]
        }),
{
    let t = states[0].config.ticks_per_turn as int;
    assert forall|i: int| 0 <= i <= t implies (#[trigger] states[i]).lives == 1
        && states[i].time_left == t - i by {
        lemma_counts_down_unchanged(states, i);
    }
    lemma_counts_down_unchanged(states, t);
    let k = t + 1;
    assert(tick_step(states[t], states[t + 1]));
    assert(tick_step(states[k], states[k + 1]));
}

/// In `Practice`, any number of ticks leaves the countdown and the lives as
/// they were.
pub proof fn practice_keeps_clock_and_lives(states: Seq<App>)
    requires
        states.len() >= 1,
        states[0].config.gamemode == Gamemode::Practice,
        forall|k: int| 0 <= k < states.len() - 1 ==> tick_step(states[k], #[trigger] states[k + 1]),
    ensures
        forall|i: int|
            0 <= i < states.len() ==> (#[trigger] states[i]).time_left == states[0].time_left
                && states[i].lives == states[0].lives,
{
    assert forall|i: int| 0 <= i < states.len() implies (#[trigger] states[i]).time_left
        == states[0].time_left && states[i].lives == states[0].lives by {
        lemma_practice_unchanged(states, i);
    }
}

proof fn lemma_practice_unchanged(states: Seq<App>, i: int)
    requires
        0 <= i < states.len(),
        states[0].config.gamemode == Gamemode::Practice,
        forall|k: int| 0 <= k < states.len() - 1 ==> tick_step(states[k], #[trigger] states[k + 1]),
    ensures
        states[i] == states[0],
    decreases i,
{
    if i > 0 {
        lemma_practice_unchanged(states, i - 1);
        let k = i - 1;
        assert(tick_step(states[k], states[k + 1]));
    }
}

/// Pausing a running round keeps its countdown, ticks while paused change
/// nothing, resuming gives back the round exactly as it was, and the next
/// tick counts down from where it stood.
pub proof fn pause_freezes_countdown(
    running: App,
    paused: App,
    paused_ticked: App,
    resumed: App,
    resumed_ticked: App,
    pause_flow: Flow,
    resume_flow: Flow,
)
    requires
        running.active_screen == ActiveScreen::Game,
        !running.paused,
        running.config.gamemode != Gamemode::Practice,
        key_step(running, Key::Esc, paused, pause_flow),
        tick_step(paused, paused_ticked),
        key_step(paused_ticked, Key::Esc, resumed, resume_flow),
        tick_step(resumed, resumed_ticked),
    ensures
        paused.paused,
        paused.time_left == running.time_left,
        paused_ticked == paused,
        resumed == running,
        running.time_left >= 1 ==> resumed_ticked.time_left == running.time_left - 1,
{
}

/// Choosing `Restart` on the pause menu starts a new round with a valid
/// prompt and a full countdown, and always leaves the game unpaused.
pub proof fn restart_resets_round(before: App, key: Key, after: App, flow: Flow)
    requires
        before.active_screen == ActiveScreen::Game,
        before.paused,
        before.pause_list.selected matches Some(i) && i < before.pause_list.items.len()
            && before.pause_list.items@[i as int] == PauseItem::Restart,
        key == Key::Enter || key == Key::Right || key == Key::Char('l'),
        key_step(before, key, after, flow),
    ensures
        valid_prompt(before.dictionary@, before.config.min_wpp as nat, after.prompt@),
        after.time_left == before.config.ticks_per_turn,
        after.input.string@.len() == 0,
        !after.paused,
        after.active_screen == ActiveScreen::Game,
        flow == Flow::Continue,
{
}

} // verus!
