//! Raw input edges and their translation into queued commands, and the
//! per-tick driver combining input translation with the entity update.

use vstd::prelude::*;
use crate::commands::{key_down_command, key_up_command, Command, Direction};
use crate::player::{post_tick_from_queue, same_entity_state, Player};

verus! {

/// One discrete input edge handed to the core: a key press, a key
/// release, or a request to quit. Key-repeat events are suppressed
/// before they reach the core, so each physical press and release
/// produces exactly one edge.
#[derive(Clone, Copy, Debug, PartialEq, Eq, Structural)]
pub enum InputEvent {
    KeyDown(Direction),
    KeyUp(Direction),
    Quit,
}

/// The commands contributed by a single event: a press or release edge
/// queues exactly one command, a quit request queues none.
pub open spec fn translated(e: InputEvent) -> Seq<Command> {
    match e {
        InputEvent::KeyDown(d) => seq![key_down_command(d)],
        InputEvent::KeyUp(d) => seq![key_up_command(d)],
        InputEvent::Quit => Seq::empty(),
    }
}

/// Whether the batch holds a quit request anywhere.
pub open spec fn contains_quit(evs: Seq<InputEvent>) -> bool {
    exists|i: int| 0 <= i < evs.len() && #[trigger] evs[i] == InputEvent::Quit
}

/// The commands a batch of events queues, in order: the translation of
/// each event up to but not including the first quit request; events
/// after a quit are never looked at.
pub open spec fn enqueued_commands(evs: Seq<InputEvent>) -> Seq<Command>
    decreases evs.len(),
{
    if evs.len() == 0 {
        Seq::empty()
    } else if evs[0] == InputEvent::Quit {
        Seq::empty()
    } else {
        translated(evs[0]) + enqueued_commands(evs.drop_first())
    }
}

/// A batch never queues more commands than it has events.
pub proof fn lemma_enqueued_len(evs: Seq<InputEvent>)
    ensures
        enqueued_commands(evs).len() <= evs.len(),
    decreases evs.len(),
{
    if evs.len() > 0 && evs[0] != InputEvent::Quit {
        lemma_enqueued_len(evs.drop_first());
    }
}

/// Extending a quit-free prefix by one more non-quit event appends
/// that event's translation.
pub proof fn lemma_enqueued_snoc(evs: Seq<InputEvent>, i: int)
    requires
        0 <= i < evs.len(),
        !contains_quit(evs.take(i + 1)),
    ensures
        enqueued_commands(evs.take(i + 1)) == enqueued_commands(evs.take(i)) + translated(
            evs[i],
        ),
    decreases i,
{
    assert(evs.take(i + 1)[0] == evs[0]);
    if i == 0 {
        assert(evs[0] != InputEvent::Quit) by {
            assert(evs.take(1)[0] == evs[0]);
        }
        assert(evs.take(1).drop_first() =~= Seq::<InputEvent>::empty());
        assert(evs.take(0) =~= Seq::<InputEvent>::empty());
        assert(enqueued_commands(evs.take(1)) =~= enqueued_commands(evs.take(0)) + translated(
            evs[0],
        ));
    } else {
        let d = evs.drop_first();
        assert(evs[0] != InputEvent::Quit) by {
            assert(evs.take(i + 1)[0] == evs[0]);
        }
        assert(!contains_quit(d.take(i))) by {
            if contains_quit(d.take(i)) {
                let j = choose|j: int|
                    0 <= j < d.take(i).len() && #[trigger] d.take(i)[j] == InputEvent::Quit;
                assert(evs.take(i + 1)[j + 1] == InputEvent::Quit);
            }
        }
        lemma_enqueued_snoc(d, i - 1);
        assert(evs.take(i + 1).drop_first() =~= d.take(i));
        assert(evs.take(i).drop_first() =~= d.take(i - 1));
        assert(d[i - 1] == evs[i]);
        assert(enqueued_commands(evs.take(i + 1)) =~= enqueued_commands(evs.take(i)) + translated(
            evs[i],
        ));
    }
}

/// A quit request at position `i` freezes the queued commands at what
/// the events before it contributed: nothing past it is ever applied.
pub proof fn lemma_quit_halts_enqueueing(evs: Seq<InputEvent>, i: int)
    requires
        0 <= i < evs.len(),
        evs[i] == InputEvent::Quit,
    ensures
        enqueued_commands(evs) == enqueued_commands(evs.take(i)),
        enqueued_commands(evs).len() <= i,
    decreases i,
{
    if i == 0 {
        assert(evs.take(0) =~= Seq::<InputEvent>::empty());
    } else if evs[0] == InputEvent::Quit {
        assert(evs.take(i)[0] == evs[0]);
    } else {
        let d = evs.drop_first();
        lemma_quit_halts_enqueueing(d, i - 1);
        assert(evs.take(i)[0] == evs[0]);
        assert(evs.take(i).drop_first() =~= d.take(i - 1));
        assert(enqueued_commands(evs) =~= enqueued_commands(evs.take(i)));
    }
    lemma_enqueued_len(evs.take(i));
}

/// Translate one batch of input edges into queued commands, stopping
/// at the first quit request; returns whether a quit was seen. The
/// entity's motion state is untouched; only the queue grows.
pub fn process_events(player: &mut Player, events: &Vec<InputEvent>) -> (quit: bool)
    ensures
        quit == contains_quit(events@),
        final(player).command_queue@ == old(player).command_queue@ + enqueued_commands(events@),
        same_entity_state(*old(player), *final(player)),
{
    let ghost evs = events@;
    let mut i: usize = 0;
    while i < events.len()
        invariant
            0 <= i <= evs.len(),
            events@ == evs,
            !contains_quit(evs.take(i as int)),
            player.command_queue@ == old(player).command_queue@ + enqueued_commands(
                evs.take(i as int),
            ),
            same_entity_state(*old(player), *player),
        decreases evs.len() - i,
    {
        let c: Command = match events[i] {
            InputEvent::Quit => {
                proof {
                    assert(contains_quit(evs)) by {
                        assert(evs[i as int] == InputEvent::Quit);
                    }
                    lemma_quit_halts_enqueueing(evs, i as int);
                }
                return true;
            },
            InputEvent::KeyDown(Direction::Up) => Command::MoveUp,
            InputEvent::KeyDown(Direction::Down) => Command::MoveDown,
            InputEvent::KeyDown(Direction::Left) => Command::MoveLeft,
            InputEvent::KeyDown(Direction::Right) => Command::MoveRight,
            InputEvent::KeyUp(Direction::Up) => Command::StopMovingUp,
            InputEvent::KeyUp(Direction::Down) => Command::StopMovingDown,
            InputEvent::KeyUp(Direction::Left) => Command::StopMovingLeft,
            InputEvent::KeyUp(Direction::Right) => Command::StopMovingRight,
        };
        player.push_command(c);
        proof {
            assert(!contains_quit(evs.take(i + 1))) by {
                if contains_quit(evs.take(i + 1)) {
                    let j = choose|j: int|
                        0 <= j < evs.take(i + 1).len() && #[trigger] evs.take(i + 1)[j]
                            == InputEvent::Quit;
                    if j < i {
                        assert(evs.take(i as int)[j] == InputEvent::Quit);
                    }
                }
            }
            lemma_enqueued_snoc(evs, i as int);
            assert(seq![c] =~= translated(evs[i as int]));
            assert(player.command_queue@ =~= old(player).command_queue@ + enqueued_commands(
                evs.take(i + 1),
            ));
        }
        i = i + 1;
    }
    proof {
        assert(evs.take(evs.len() as int) =~= evs);
    }
    false
}

/// Run one full loop iteration: translate the tick's input edges, and
/// unless one of them was a quit request, run one entity tick. On quit
/// the entity's motion state is left exactly as it was — no further
/// tick is executed.
pub fn advance_tick(player: &mut Player, events: &Vec<InputEvent>) -> (quit: bool)
    requires
        old(player).wf(),
    ensures
        quit == contains_quit(events@),
        final(player).wf(),
        quit ==> same_entity_state(*old(player), *final(player)) && final(player).command_queue@
            == old(player).command_queue@ + enqueued_commands(events@),
        !quit ==> post_tick_from_queue(
            *old(player),
            old(player).command_queue@ + enqueued_commands(events@),
            *final(player),
        ),
{
    let quit = process_events(player, events);
    if quit {
        return true;
    }
    player.update_player();
    false
}

} // verus!
