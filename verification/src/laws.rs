//! Properties of the library stated as theorems: they are proved from the
//! public contracts alone.

use vstd::prelude::*;

use crate::console::{spec_backspace, spec_push_char, ConsoleState, PROMPT_CAP};
use crate::manual::{ManualBoard, MOVE_MS, PAUSE_MS};
use crate::network::{key_idx, lemma_key_idx, marked_rel, spec_all_hacked};
use crate::state::{
    answer_rel, clear_prompt_rel, echo_rel, prompt_rel, says, submit_rel, State,
};
use crate::text::{is_control_char, toks};

verus! {

broadcast use vstd::string::group_string_axioms;

/// However many characters are typed, the input buffer never grows past
/// `PROMPT_CAP`: one keystroke keeps a bounded buffer bounded, so any
/// sequence of them does.
pub proof fn lemma_push_char_bounded(s: Seq<char>, c: char)
    requires
        s.len() <= PROMPT_CAP,
    ensures
        spec_push_char(s, c).len() <= PROMPT_CAP,
{
}

/// Backspace on an empty buffer changes nothing.
pub proof fn lemma_backspace_empty_noop(s: Seq<char>)
    requires
        s.len() == 0,
    ensures
        spec_backspace(s) == s,
{
}

/// A keystroke that is accepted (room in the buffer, not a control
/// character) followed by a backspace restores the buffer exactly. A full
/// buffer is left out: there the keystroke is dropped and the backspace
/// then erases an older character.
pub proof fn lemma_push_then_backspace(s: Seq<char>, c: char)
    requires
        s.len() < PROMPT_CAP,
        !is_control_char(c),
    ensures
        spec_backspace(spec_push_char(s, c)) == s,
{
    assert(s.push(c).drop_last() =~= s);
}

/// The three stages a submitted line goes through, recovered from
/// `submit_rel`.
pub proof fn lemma_submit_stages(pre: State, post: State, pick: usize) -> (mids: (State, State))
    requires
        submit_rel(pre, post, pick),
    ensures
        echo_rel(pre, mids.0),
        prompt_rel(mids.0, mids.1, pick),
        clear_prompt_rel(mids.1, post),
{
    let (mid1, mid2) = choose|mid1: State, mid2: State|
        #![auto]
        echo_rel(pre, mid1) && prompt_rel(mid1, mid2, pick) && clear_prompt_rel(mid2, post);
    (mid1, mid2)
}

/// Submitting an unknown command reports it as the newest scrollback line
/// and leaves the console at the command prompt; nothing else changes.
pub proof fn lemma_unknown_command_reported(pre: State, post: State, pick: usize)
    requires
        submit_rel(pre, post, pick),
        pre.console.state is AwaitingCommand,
        toks(pre.console.prompt@).len() > 0,
        toks(pre.console.prompt@)[0] != "clear"@,
        toks(pre.console.prompt@)[0] != "ls"@,
        toks(pre.console.prompt@)[0] != "print"@,
        toks(pre.console.prompt@)[0] != "ssh"@,
        toks(pre.console.prompt@)[0] != "hack"@,
        toks(pre.console.prompt@)[0] != "dc"@,
    ensures
        post.console.state is AwaitingCommand,
        post.console.lines_v().len() > 0,
        post.console.lines_v().last() == "Unknown command: "@ + toks(pre.console.prompt@)[0],
        post.console.current_host == pre.console.current_host,
        post.network == pre.network,
        post.manual_board == pre.manual_board,
{
    let (mid1, mid2) = lemma_submit_stages(pre, post, pick);
    assert(says(mid1, mid2, "Unknown command: "@ + toks(pre.console.prompt@)[0]));
}

/// `ssh` to an address no host carries only reports the refusal: the
/// current host, the network and the mode are untouched.
pub proof fn lemma_ssh_unknown_host(pre: State, post: State, pick: usize)
    requires
        submit_rel(pre, post, pick),
        pre.console.state is AwaitingCommand,
        toks(pre.console.prompt@).len() >= 2,
        toks(pre.console.prompt@)[0] == "ssh"@,
        key_idx(pre.network.hosts@, toks(pre.console.prompt@)[1]) == -1,
    ensures
        post.console.state is AwaitingCommand,
        post.console.current_host == pre.console.current_host,
        post.network == pre.network,
        post.console.lines_v().len() > 0,
        post.console.lines_v().last() == "Connection refused: no host found"@,
{
    let (mid1, mid2) = lemma_submit_stages(pre, post, pick);
    reveal_strlit("clear");
    reveal_strlit("ls");
    reveal_strlit("print");
    reveal_strlit("ssh");
    assert("clear"@.len() == 5);
    assert("ls"@.len() == 2);
    assert("print"@.len() == 5);
    assert("ssh"@.len() == 3);
    assert(says(mid1, mid2, "Connection refused: no host found"@));
}

/// `ssh` is refused while the target is unhacked, and connects once it is
/// hacked: whether `current_host` moves is decided exactly by the target's
/// `hacked` flag.
pub proof fn lemma_ssh_gated_by_hacked(pre: State, post: State, pick: usize)
    requires
        submit_rel(pre, post, pick),
        pre.console.state is AwaitingCommand,
        toks(pre.console.prompt@).len() >= 2,
        toks(pre.console.prompt@)[0] == "ssh"@,
        key_idx(pre.network.hosts@, toks(pre.console.prompt@)[1]) >= 0,
    ensures
        post.console.state is AwaitingCommand,
        post.network == pre.network,
        pre.network.hosts@[key_idx(pre.network.hosts@, toks(pre.console.prompt@)[1])].item.hacked
            ==> post.console.current_host@ == toks(pre.console.prompt@)[1],
        !pre.network.hosts@[key_idx(pre.network.hosts@, toks(pre.console.prompt@)[1])].item.hacked
            ==> post.console.current_host == pre.console.current_host
            && post.console.lines_v().last() == "Connection refused: access denied"@,
{
    let (mid1, mid2) = lemma_submit_stages(pre, post, pick);
    reveal_strlit("clear");
    reveal_strlit("ls");
    reveal_strlit("print");
    reveal_strlit("ssh");
    assert("clear"@.len() == 5);
    assert("ls"@.len() == 2);
    assert("print"@.len() == 5);
    assert("ssh"@.len() == 3);
    if !pre.network.hosts@[key_idx(pre.network.hosts@, toks(pre.console.prompt@)[1])].item.hacked {
        assert(says(mid1, mid2, "Connection refused: access denied"@));
    }
}

/// An accepted `hack` puts the console into answer mode for exactly the
/// named host, echoes one challenge of that host's puzzle kind, and touches
/// neither the network nor the board.
pub proof fn lemma_hack_awaits_answer(pre: State, post: State, pick: usize)
    requires
        submit_rel(pre, post, pick),
        pre.wf(),
        pre.console.state is AwaitingCommand,
        toks(pre.console.prompt@).len() >= 2,
        toks(pre.console.prompt@)[0] == "hack"@,
        key_idx(pre.network.hosts@, toks(pre.console.prompt@)[1]) >= 0,
        !pre.network.hosts@[key_idx(pre.network.hosts@, toks(pre.console.prompt@)[1])].item.hacked,
    ensures
        post.console.state matches ConsoleState::AwaitingAnswer { answer: _, host } && host@
            == toks(pre.console.prompt@)[1],
        post.network == pre.network,
        post.manual_board == pre.manual_board,
        ({
            let ts = toks(pre.console.prompt@);
            let hi = key_idx(pre.network.hosts@, ts[1]);
            let pi = key_idx(pre.puzzles@, pre.network.hosts@[hi].item.puzzle_kind@);
            let answers = pre.puzzles@[pi].item.answers@;
            let pair = answers[pick as int % answers.len() as int];
            (post.console.state matches ConsoleState::AwaitingAnswer { answer, host: _ }
                && answer@ == pair.1@) && post.console.lines_v().len() > 0
                && post.console.lines_v().last() == pair.0@
        }),
{
    let (mid1, mid2) = lemma_submit_stages(pre, post, pick);
    reveal_strlit("clear");
    reveal_strlit("ls");
    reveal_strlit("print");
    reveal_strlit("ssh");
    assert("clear"@.len() == 5);
    assert("ls"@.len() == 2);
    assert("print"@.len() == 5);
    assert("ssh"@.len() == 3);
    reveal_strlit("hack");
    assert("hack"@.len() == 4);
    let ts = toks(pre.console.prompt@);
    let hi = key_idx(pre.network.hosts@, ts[1]);
    lemma_key_idx(pre.network.hosts@, ts[1]);
    assert(key_idx(pre.puzzles@, pre.network.hosts@[hi].item.puzzle_kind@) >= 0);
    let pi = key_idx(pre.puzzles@, pre.network.hosts@[hi].item.puzzle_kind@);
    lemma_key_idx(pre.puzzles@, pre.network.hosts@[hi].item.puzzle_kind@);
    assert(pre.puzzles@[pi].item.answers@.len() > 0);
}

/// Submitting the exact pending answer hacks the target host; submitting
/// anything else leaves the network alone and reports the failure. Either
/// way the console returns to the command prompt, and when the last host
/// falls the win line is the newest scrollback line.
pub proof fn lemma_answer_judged(pre: State, post: State, pick: usize)
    requires
        submit_rel(pre, post, pick),
        pre.console.state matches ConsoleState::AwaitingAnswer { answer: _, host: _ },
    ensures
        post.console.state is AwaitingCommand,
        post.manual_board == pre.manual_board,
        ({
            let answer = pre.console.state->AwaitingAnswer_answer;
            let target = pre.console.state->AwaitingAnswer_host;
            if pre.console.prompt@ == answer@ {
                marked_rel(pre.network, post.network, target@) && (spec_all_hacked(
                    post.network.hosts@,
                ) ==> post.console.lines_v().len() > 0 && post.console.lines_v().last()
                    == "Congrats, you win"@)
            } else {
                post.network == pre.network && post.console.lines_v().len() > 0
                    && post.console.lines_v().last() == "Hacking attempt failed"@
            }
        }),
{
    let (mid1, mid2) = lemma_submit_stages(pre, post, pick);
    let answer = pre.console.state->AwaitingAnswer_answer;
    let target = pre.console.state->AwaitingAnswer_host;
    assert(answer_rel(mid1, mid2, answer@, target@));
}

/// No submitted line ever touches the manual catalog or the puzzle
/// catalog: what `print` places on the board is a copy, so the originals
/// survive any amount of play.
pub proof fn lemma_catalogs_immutable(pre: State, post: State, pick: usize)
    requires
        submit_rel(pre, post, pick),
    ensures
        post.manuals == pre.manuals,
        post.puzzles == pre.puzzles,
{
    let (mid1, mid2) = lemma_submit_stages(pre, post, pick);
    assert(prompt_rel(mid1, mid2, pick));
}

/// A drag that hits the page at render-index `k` brings exactly that page
/// to the front, translated by the pointer delta; every other page keeps
/// its position, and their relative order is unchanged.
pub proof fn lemma_drag_moves_only_the_hit_page(
    pre: ManualBoard,
    post: ManualBoard,
    mouse_pos: (i32, i32),
    previous_mouse_pos: (i32, i32),
)
    requires
        crate::manual::drag_rel(pre, post, mouse_pos, previous_mouse_pos),
        pre.wf(),
        -crate::manual::DRAG_LIM <= previous_mouse_pos.0 <= crate::manual::DRAG_LIM,
        -crate::manual::DRAG_LIM <= previous_mouse_pos.1 <= crate::manual::DRAG_LIM,
        forall|j: int|
            0 <= j < pre.manuals@.len() ==> -crate::manual::DRAG_LIM <= (
            #[trigger] pre.manuals@[j]).pos.0 <= crate::manual::DRAG_LIM
                && -crate::manual::DRAG_LIM <= pre.manuals@[j].pos.1 <= crate::manual::DRAG_LIM,
        crate::manual::spec_point_aabb(mouse_pos, pre.pos, pre.size),
        crate::manual::hit_idx(pre.manuals@, previous_mouse_pos) >= 0,
    ensures
        ({
            let k = crate::manual::hit_idx(pre.manuals@, previous_mouse_pos);
            let m = pre.manuals@[k];
            post.manuals@.len() == pre.manuals@.len() && post.manuals@[0].pos.0 == m.pos.0
                + mouse_pos.0 - previous_mouse_pos.0 && post.manuals@[0].pos.1 == m.pos.1
                + mouse_pos.1 - previous_mouse_pos.1 && post.manuals@[0].size == m.size
                && post.manuals@[0].text == m.text && (forall|j: int|
                0 <= j < k ==> post.manuals@[j + 1] == pre.manuals@[j]) && (forall|j: int|
                k < j < pre.manuals@.len() ==> post.manuals@[j] == pre.manuals@[j])
        }),
{
    let k = crate::manual::hit_idx(pre.manuals@, previous_mouse_pos);
    crate::manual::lemma_hit_idx(pre.manuals@, previous_mouse_pos);
    let m = pre.manuals@[k];
    assert(pre.manuals@.remove(k) =~= pre.manuals@.take(k) + pre.manuals@.skip(k + 1));
    assert forall|j: int| 0 <= j < k implies post.manuals@[j + 1] == pre.manuals@[j] by {
        assert(post.manuals@[j + 1] == pre.manuals@.remove(k)[j]);
    }
    assert forall|j: int| k < j < pre.manuals@.len() implies post.manuals@[j]
        == pre.manuals@[j] by {
        assert(post.manuals@[j] == pre.manuals@.remove(k)[j - 1]);
        assert(pre.manuals@.remove(k)[j - 1] == pre.manuals@.skip(k + 1)[j - 1 - k]);
    }
    assert(post.manuals@[0].pos.0 == m.pos.0 + mouse_pos.0 - previous_mouse_pos.0);
}

/// One animation step with a positive `dt` makes progress: the front page
/// is either promoted onto the board (removed from the queue, placed on
/// top), or its measure — distance still to travel, weighted, plus the
/// remaining pause — strictly decreases. The measure is non-negative
/// whenever a non-promoting step runs, so promotion comes within finitely
/// many steps.
pub open spec fn anim_measure(board: ManualBoard) -> int {
    let pa = board.manual_printing@[0];
    let dist = pa.manual.pos.1 + pa.manual.size.1 - (board.pos.1 + board.size.1);
    dist * (MOVE_MS + PAUSE_MS + 2) + (if pa.is_moving {
        0
    } else {
        pa.pause_timer + 1
    })
}

pub proof fn lemma_tick_progress(pre: ManualBoard, post: ManualBoard, dt: i32)
    requires
        crate::manual::tick_rel(pre, post, dt),
        pre.wf(),
        dt >= 1,
        pre.manual_printing@.len() > 0,
    ensures
        (post.manuals@ == pre.manuals@.insert(0, pre.manual_printing@[0].manual)
            && post.manual_printing@ == pre.manual_printing@.skip(1)) || (
        post.manual_printing@.len() == pre.manual_printing@.len() && anim_measure(pre) >= 0
            && anim_measure(post) < anim_measure(pre)),
{
    let pa = pre.manual_printing@[0];
    let bottom = pre.pos.1 + pre.size.1;
    if pa.manual.pos.1 + pa.manual.size.1 < bottom {
    } else {
        assert(crate::manual::anim_wf(pa));
        let dist = pa.manual.pos.1 + pa.manual.size.1 - bottom;
        assert(dist >= 0);
        let pa2 = post.manual_printing@[0];
        assert(post.manual_printing@.len() == pre.manual_printing@.len());
        let scale = MOVE_MS + PAUSE_MS + 2;
        assert(anim_measure(pre) >= dist * scale) by {
            assert(pa.is_moving ==> anim_measure(pre) == dist * scale);
            assert(!pa.is_moving ==> anim_measure(pre) == dist * scale + pa.pause_timer + 1);
        }
        if pa.is_moving {
            assert(pa2.manual.pos.1 == pa.manual.pos.1 - 2);
            assert(pa2.manual.size == pa.manual.size);
            assert(anim_measure(post) <= (dist - 2) * scale + (PAUSE_MS + 1)) by {
                assert(pa2.is_moving ==> anim_measure(post) == (dist - 2) * scale);
                assert(!pa2.is_moving ==> anim_measure(post) == (dist - 2) * scale
                    + pa2.pause_timer + 1);
                assert(pa2.pause_timer <= PAUSE_MS);
            }
            assert((dist - 2) * scale + scale == (dist - 1) * scale) by (nonlinear_arith);
            assert((dist - 1) * scale <= dist * scale) by (nonlinear_arith)
                requires
                    scale >= 0,
            ;
        } else {
            assert(pa2.manual == pa.manual);
            if pa.pause_timer - dt < 0 {
                assert(pa2.is_moving);
                assert(anim_measure(post) == dist * scale);
                assert(anim_measure(pre) == dist * scale + pa.pause_timer + 1);
            } else {
                assert(!pa2.is_moving);
                assert(pa2.pause_timer == pa.pause_timer - dt);
                assert(anim_measure(post) == dist * scale + pa.pause_timer - dt + 1);
            }
        }
    }
}

} // verus!
