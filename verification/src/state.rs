//! The game state and the command interpreter: dispatching submitted lines,
//! the hack/answer mode, and the win condition.

use vstd::prelude::*;
use vstd::string::StringExecFns;

use crate::console::{Console, ConsoleState, PROMPT_CAP};
use crate::manual::{manual_wf, print_anim_of, Manual, ManualBoard};
use crate::network::{
    file_id, find_key, key_idx, key_names, marked_rel, spec_all_hacked, File, Keyed, Network,
};
use crate::network::lemma_key_idx_stable;
use crate::text::{lemma_string_views_push, string_views, tokenize, toks};

verus! {

/// A puzzle kind: the (challenge, expected answer) pairs it can pose.
pub struct Puzzle {
    pub answers: Vec<(String, String)>,
}

/// Everything the game tracks: the console, the host graph, the document
/// board, and the two static catalogs.
pub struct State {
    pub console: Console,
    pub network: Network,
    pub manual_board: ManualBoard,
    pub manuals: Vec<Keyed<Manual>>,
    pub puzzles: Vec<Keyed<Puzzle>>,
}

/// The configuration is usable: every puzzle can pose something, every
/// host's puzzle kind and every file's manual resolve, and every manual has
/// sane dimensions.
pub open spec fn config_ok(
    network: Network,
    puzzles: Seq<Keyed<Puzzle>>,
    manuals: Seq<Keyed<Manual>>,
) -> bool {
    (forall|j: int| 0 <= j < puzzles.len() ==> (#[trigger] puzzles[j]).item.answers@.len() > 0)
        && (forall|j: int|
        0 <= j < network.hosts@.len() ==> key_idx(
            puzzles,
            (#[trigger] network.hosts@[j]).item.puzzle_kind@,
        ) >= 0) && (forall|j: int, f: int|
        #![trigger network.hosts@[j].item.fs@[f]]
        0 <= j < network.hosts@.len() && 0 <= f < network.hosts@[j].item.fs@.len() ==> key_idx(
            manuals,
            file_id(network.hosts@[j].item.fs@[f].item),
        ) >= 0) && (forall|j: int|
        0 <= j < manuals.len() ==> manual_wf((#[trigger] manuals[j]).item))
}

/// The address the console is connected to is reachable: the fixed entry
/// address, or a host that has been hacked.
pub open spec fn host_reachable(hosts: Seq<Keyed<crate::network::Host>>, a: Seq<char>) -> bool {
    a == "127.0.0.1"@ || (key_idx(hosts, a) >= 0 && hosts[key_idx(hosts, a)].item.hacked)
}

impl State {
    /// The state invariant every operation preserves: sane configuration, a
    /// well-formed board, a bounded input buffer, a reachable current host,
    /// and a pending answer only for a host that exists.
    pub open spec fn wf(self) -> bool {
        &&& self.manual_board.wf()
        &&& config_ok(self.network, self.puzzles@, self.manuals@)
        &&& self.console.prompt@.len() <= PROMPT_CAP
        &&& host_reachable(self.network.hosts@, self.console.current_host@)
        &&& match self.console.state {
            ConsoleState::AwaitingAnswer { answer: _, host } => key_idx(
                self.network.hosts@,
                host@,
            ) >= 0,
            ConsoleState::AwaitingCommand => true,
        }
    }
}

/// The board, the catalogs and the network are untouched.
pub open spec fn keeps_frame(pre: State, post: State) -> bool {
    post.network == pre.network && post.manual_board == pre.manual_board && post.manuals
        == pre.manuals && post.puzzles == pre.puzzles
}

/// The console keeps its buffer, its mode and its connection.
pub open spec fn keeps_console_mode(pre: State, post: State) -> bool {
    post.console.prompt == pre.console.prompt && post.console.state == pre.console.state
        && post.console.current_host == pre.console.current_host
}

/// The operation reports `msg` as one new scrollback line and changes
/// nothing else.
pub open spec fn says(pre: State, post: State, msg: Seq<char>) -> bool {
    post.console.lines_v() == pre.console.lines_v().push(msg) && keeps_console_mode(pre, post)
        && keeps_frame(pre, post)
}

/// What dispatching the buffered line as a command does, for every command,
/// argument shape and host state. `pick` selects the puzzle pair when a
/// `hack` is accepted.
pub open spec fn command_rel(pre: State, post: State, pick: usize) -> bool {
    let ts = toks(pre.console.prompt@);
    if ts.len() == 0 {
        post == pre
    } else if ts[0] == "clear"@ {
        post.console.lines_v() == Seq::<Seq<char>>::empty() && keeps_console_mode(pre, post)
            && keeps_frame(pre, post)
    } else if ts[0] == "ls"@ {
        let hi = key_idx(pre.network.hosts@, pre.console.current_host@);
        if hi >= 0 {
            post.console.lines_v() == pre.console.lines_v() + key_names(
                pre.network.hosts@[hi].item.fs@,
            ) && keeps_console_mode(pre, post) && keeps_frame(pre, post)
        } else {
            post == pre
        }
    } else if ts[0] == "print"@ {
        if ts.len() < 2 {
            says(pre, post, "Filename expected"@)
        } else {
            let hi = key_idx(pre.network.hosts@, pre.console.current_host@);
            let fi = if hi >= 0 {
                key_idx(pre.network.hosts@[hi].item.fs@, ts[1])
            } else {
                -1
            };
            if hi < 0 || fi < 0 {
                says(pre, post, "Not a manual page"@)
            } else {
                let mi = key_idx(
                    pre.manuals@,
                    file_id(pre.network.hosts@[hi].item.fs@[fi].item),
                );
                if mi < 0 {
                    post == pre
                } else {
                    post.manual_board.manual_printing@
                        == pre.manual_board.manual_printing@.push(
                        print_anim_of(pre.manual_board, pre.manuals@[mi].item),
                    ) && post.manual_board.manuals == pre.manual_board.manuals
                        && post.manual_board.pos == pre.manual_board.pos
                        && post.manual_board.size == pre.manual_board.size && post.console
                        == pre.console && post.network == pre.network && post.manuals
                        == pre.manuals && post.puzzles == pre.puzzles
                }
            }
        }
    } else if ts[0] == "ssh"@ {
        if ts.len() < 2 {
            says(pre, post, "Expected address"@)
        } else {
            let hi = key_idx(pre.network.hosts@, ts[1]);
            if hi < 0 {
                says(pre, post, "Connection refused: no host found"@)
            } else if !pre.network.hosts@[hi].item.hacked {
                says(pre, post, "Connection refused: access denied"@)
            } else {
                post.console.current_host@ == ts[1] && post.console.lines == pre.console.lines
                    && post.console.prompt == pre.console.prompt && post.console.state
                    == pre.console.state && keeps_frame(pre, post)
            }
        }
    } else if ts[0] == "hack"@ {
        if ts.len() < 2 {
            says(pre, post, "Expected address"@)
        } else {
            let hi = key_idx(pre.network.hosts@, ts[1]);
            if hi < 0 {
                says(pre, post, "Connection refused: no host found"@)
            } else if pre.network.hosts@[hi].item.hacked {
                says(pre, post, "Error: already root"@)
            } else {
                let pi = key_idx(pre.puzzles@, pre.network.hosts@[hi].item.puzzle_kind@);
                if pi < 0 || pre.puzzles@[pi].item.answers@.len() == 0 {
                    post == pre
                } else {
                    let pair = pre.puzzles@[pi].item.answers@[pick as int % pre.puzzles@[
                        pi].item.answers@.len() as int];
                    (post.console.state matches ConsoleState::AwaitingAnswer { answer, host }
                        && answer@ == pair.1@ && host@ == ts[1]) && post.console.lines_v()
                        == pre.console.lines_v().push(pair.0@) && post.console.prompt
                        == pre.console.prompt && post.console.current_host
                        == pre.console.current_host && keeps_frame(pre, post)
                }
            }
        }
    } else if ts[0] == "dc"@ {
        post.console.current_host@ == "127.0.0.1"@ && post.console.lines == pre.console.lines
            && post.console.prompt == pre.console.prompt && post.console.state
            == pre.console.state && keeps_frame(pre, post)
    } else {
        says(pre, post, "Unknown command: "@ + ts[0])
    }
}

/// What judging the buffered line as the pending puzzle answer does: an
/// exact match hacks the target (and announces the win when it was the last
/// host), anything else fails; either way the console returns to the
/// command prompt.
pub open spec fn answer_rel(pre: State, post: State, answer: Seq<char>, target: Seq<char>) -> bool {
    post.console.state is AwaitingCommand && post.console.prompt == pre.console.prompt
        && post.console.current_host == pre.console.current_host && post.manual_board
        == pre.manual_board && post.manuals == pre.manuals && post.puzzles == pre.puzzles && if pre.console.prompt@
        == answer {
        marked_rel(pre.network, post.network, target) && (if spec_all_hacked(
            post.network.hosts@,
        ) {
            post.console.lines_v() == pre.console.lines_v().push("Congrats, you win"@)
        } else {
            post.console.lines == pre.console.lines
        })
    } else {
        post.network == pre.network && post.console.lines_v() == pre.console.lines_v().push(
            "Hacking attempt failed"@,
        )
    }
}

/// What dispatching the buffered line does, by the console's mode.
pub open spec fn prompt_rel(pre: State, post: State, pick: usize) -> bool {
    match pre.console.state {
        ConsoleState::AwaitingCommand => command_rel(pre, post, pick),
        ConsoleState::AwaitingAnswer { answer, host } => answer_rel(pre, post, answer@, host@),
    }
}

/// The echoed prompt line has been appended and nothing else has changed.
pub open spec fn echo_rel(pre: State, post: State) -> bool {
    post.console.lines_v() == pre.console.lines_v().push(pre.console.spec_full_prompt())
        && keeps_console_mode(pre, post) && keeps_frame(pre, post)
}

/// The buffer has been cleared and nothing else has changed.
pub open spec fn clear_prompt_rel(pre: State, post: State) -> bool {
    post.console.prompt@.len() == 0 && post.console.lines == pre.console.lines
        && post.console.state == pre.console.state && post.console.current_host
        == pre.console.current_host && keeps_frame(pre, post)
}

/// What one confirmed line does, start to finish: the rendered prompt is
/// echoed into scrollback, the line is dispatched by mode, and the buffer is
/// cleared.
pub open spec fn submit_rel(pre: State, post: State, pick: usize) -> bool {
    exists|mid1: State, mid2: State|
        #![auto]
        echo_rel(pre, mid1) && prompt_rel(mid1, mid2, pick) && clear_prompt_rel(mid2, post)
}

impl State {
    /// Report one line on the console and touch nothing else.
    fn note_line(&mut self, line: String)
        ensures
            says(*old(self), *final(self), line@),
    {
        proof {
            lemma_string_views_push(self.console.lines@, line);
        }
        self.console.add_line(line);
    }

    /// Assemble a state from already-decoded configuration, connected to the
    /// entry host. Unusable configuration is rejected rather than carried.
    pub fn new(
        network: Network,
        puzzles: Vec<Keyed<Puzzle>>,
        manuals: Vec<Keyed<Manual>>,
        manual_board: ManualBoard,
    ) -> (r: Option<State>)
        requires
            manual_board.wf(),
        ensures
            r is Some <==> config_ok(network, puzzles@, manuals@),
            r matches Some(st) ==> st.wf() && st.network == network && st.puzzles == puzzles
                && st.manuals == manuals && st.manual_board == manual_board
                && st.console.lines@.len() == 0 && st.console.prompt@.len() == 0
                && st.console.state is AwaitingCommand && st.console.current_host@
                == "127.0.0.1"@,
    {
        let mut j: usize = 0;
        while j < puzzles.len()
            invariant
                j <= puzzles@.len(),
                forall|k: int| 0 <= k < j ==> (#[trigger] puzzles@[k]).item.answers@.len() > 0,
            decreases puzzles@.len() - j,
        {
            if puzzles[j].item.answers.len() == 0 {
                return None;
            }
            j += 1;
        }
        let mut j: usize = 0;
        while j < network.hosts.len()
            invariant
                j <= network.hosts@.len(),
                forall|k: int|
                    0 <= k < j ==> key_idx(
                        puzzles@,
                        (#[trigger] network.hosts@[k]).item.puzzle_kind@,
                    ) >= 0,
                forall|k: int, f: int|
                    #![trigger network.hosts@[k].item.fs@[f]]
                    0 <= k < j && 0 <= f < network.hosts@[k].item.fs@.len() ==> key_idx(
                        manuals@,
                        file_id(network.hosts@[k].item.fs@[f].item),
                    ) >= 0,
            decreases network.hosts@.len() - j,
        {
            if find_key(&puzzles, &network.hosts[j].item.puzzle_kind).is_none() {
                return None;
            }
            let mut f: usize = 0;
            while f < network.hosts[j].item.fs.len()
                invariant
                    j < network.hosts@.len(),
                    f <= network.hosts@[j as int].item.fs@.len(),
                    forall|g: int|
                        0 <= g < f ==> key_idx(
                            manuals@,
                            file_id((#[trigger] network.hosts@[j as int].item.fs@[g]).item),
                        ) >= 0,
                decreases network.hosts@[j as int].item.fs@.len() - f,
            {
                let found = match &network.hosts[j].item.fs[f].item {
                    File::Manual { id } => find_key(&manuals, id).is_some(),
                };
                if !found {
                    return None;
                }
                f += 1;
            }
            j += 1;
        }
        let mut j: usize = 0;
        while j < manuals.len()
            invariant
                j <= manuals@.len(),
                forall|k: int| 0 <= k < j ==> manual_wf((#[trigger] manuals@[k]).item),
            decreases manuals@.len() - j,
        {
            let sz = manuals[j].item.size;
            if !(0 <= sz.0 && sz.0 <= crate::manual::DIM_LIM && 0 <= sz.1 && sz.1
                <= crate::manual::DIM_LIM) {
                return None;
            }
            j += 1;
        }
        let console = Console::new(String::from_str("127.0.0.1"));
        Some(State { console, network, manual_board, manuals, puzzles })
    }

    /// Run the buffered line as a command. `pick` selects the puzzle pair
    /// when a `hack` is accepted; every other effect is deterministic.
    pub fn handle_command(&mut self, pick: usize)
        requires
            old(self).wf(),
        ensures
            command_rel(*old(self), *final(self), pick),
            final(self).wf(),
    {
        let toks_v: Vec<String> = tokenize(self.console.prompt.as_str());
        proof {
            assert(string_views(toks_v@).len() == toks_v@.len());
            if toks_v@.len() > 0 {
                assert(string_views(toks_v@)[0] == toks_v@[0]@);
            }
            if toks_v@.len() > 1 {
                assert(string_views(toks_v@)[1] == toks_v@[1]@);
            }
        }
        if toks_v.len() == 0 {
            return ;
        }
        let cmd = &toks_v[0];
        if cmd.eq(&String::from_str("clear")) {
            self.console.lines.clear();
            proof {
                assert(final(self).console.lines_v() =~= Seq::<Seq<char>>::empty());
            }
        } else if cmd.eq(&String::from_str("ls")) {
            let found = find_key(&self.network.hosts, &self.console.current_host);
            if let Some(hi) = found {
                let ghost fs0 = self.network.hosts@[hi as int].item.fs@;
                let mut f: usize = 0;
                while f < self.network.hosts[hi].item.fs.len()
                    invariant
                        hi < self.network.hosts@.len(),
                        self.network == old(self).network,
                        self.manual_board == old(self).manual_board,
                        self.manuals == old(self).manuals,
                        self.puzzles == old(self).puzzles,
                        self.console.prompt == old(self).console.prompt,
                        self.console.state == old(self).console.state,
                        self.console.current_host == old(self).console.current_host,
                        fs0 == self.network.hosts@[hi as int].item.fs@,
                        f <= fs0.len(),
                        self.console.lines_v() == old(self).console.lines_v() + key_names(
                            fs0,
                        ).take(f as int),
                    decreases fs0.len() - f,
                {
                    let nm = self.network.hosts[hi].item.fs[f].name.clone();
                    proof {
                        lemma_string_views_push(self.console.lines@, nm);
                    }
                    self.console.add_line(nm);
                    proof {
                        assert(key_names(fs0)[f as int] == fs0[f as int].name@);
                        assert(old(self).console.lines_v() + key_names(fs0).take(f as int + 1)
                            =~= (old(self).console.lines_v() + key_names(fs0).take(
                            f as int,
                        )).push(fs0[f as int].name@));
                    }
                    f += 1;
                }
                proof {
                    assert(key_names(fs0).take(fs0.len() as int) =~= key_names(fs0));
                }
            }
        } else if cmd.eq(&String::from_str("print")) {
            if toks_v.len() < 2 {
                self.note_line(String::from_str("Filename expected"));
            } else {
                let found = find_key(&self.network.hosts, &self.console.current_host);
                match found {
                    None => {
                        self.note_line(String::from_str("Not a manual page"));
                    },
                    Some(hi) => {
                        let ffound = find_key(&self.network.hosts[hi].item.fs, &toks_v[1]);
                        match ffound {
                            None => {
                                self.note_line(String::from_str("Not a manual page"));
                            },
                            Some(fi) => {
                                let id = match &self.network.hosts[hi].item.fs[fi].item {
                                    File::Manual { id } => id.clone(),
                                };
                                let mfound = find_key(&self.manuals, &id);
                                if let Some(mi) = mfound {
                                    let m = self.manuals[mi].item.duplicate();
                                    self.manual_board.print_manual(m);
                                }
                            },
                        }
                    },
                }
            }
        } else if cmd.eq(&String::from_str("ssh")) {
            if toks_v.len() < 2 {
                self.note_line(String::from_str("Expected address"));
            } else {
                let found = find_key(&self.network.hosts, &toks_v[1]);
                match found {
                    None => {
                        self.note_line(String::from_str("Connection refused: no host found"));
                    },
                    Some(hi) => {
                        if self.network.hosts[hi].item.hacked {
                            self.console.current_host = toks_v[1].clone();
                        } else {
                            self.note_line(
                                String::from_str("Connection refused: access denied"),
                            );
                        }
                    },
                }
            }
        } else if cmd.eq(&String::from_str("hack")) {
            if toks_v.len() < 2 {
                self.note_line(String::from_str("Expected address"));
            } else {
                let found = find_key(&self.network.hosts, &toks_v[1]);
                match found {
                    None => {
                        self.note_line(String::from_str("Connection refused: no host found"));
                    },
                    Some(hi) => {
                        if self.network.hosts[hi].item.hacked {
                            self.note_line(String::from_str("Error: already root"));
                        } else {
                            let kind = self.network.hosts[hi].item.puzzle_kind.clone();
                            let pfound = find_key(&self.puzzles, &kind);
                            if let Some(pi) = pfound {
                                let n = self.puzzles[pi].item.answers.len();
                                if n > 0 {
                                    let idx = pick % n;
                                    let q = self.puzzles[pi].item.answers[idx].0.clone();
                                    let a = self.puzzles[pi].item.answers[idx].1.clone();
                                    self.console.state = ConsoleState::AwaitingAnswer {
                                        answer: a,
                                        host: toks_v[1].clone(),
                                    };
                                    proof {
                                        lemma_string_views_push(self.console.lines@, q);
                                    }
                                    self.console.add_line(q);
                                }
                            }
                        }
                    },
                }
            }
        } else if cmd.eq(&String::from_str("dc")) {
            self.console.current_host = String::from_str("127.0.0.1");
        } else {
            let mut msg = String::from_str("Unknown command: ");
            msg.append(cmd.as_str());
            self.note_line(msg);
        }
    }

    /// Dispatch the buffered line by mode: run it as a command, or judge it
    /// against the pending puzzle answer.
    pub fn handle_console_prompt(&mut self, pick: usize)
        requires
            old(self).wf(),
        ensures
            prompt_rel(*old(self), *final(self), pick),
            final(self).wf(),
    {
        let pending: Option<(String, String)> = match &self.console.state {
            ConsoleState::AwaitingCommand => None,
            ConsoleState::AwaitingAnswer { answer, host } => Some(
                (answer.clone(), host.clone()),
            ),
        };
        match pending {
            None => {
                self.handle_command(pick);
            },
            Some((ans, target)) => {
                if self.console.prompt.eq(&ans) {
                    self.network.mark_hacked(&target);
                    if self.network.all_hacked() {
                        let win = String::from_str("Congrats, you win");
                        proof {
                            lemma_string_views_push(self.console.lines@, win);
                        }
                        self.console.add_line(win);
                    }
                    proof {
                        let preh = old(self).network.hosts@;
                        let posth = self.network.hosts@;
                        let i = key_idx(preh, target@);
                        assert forall|j: int| 0 <= j < preh.len() implies preh[j].name@
                            == posth[j].name@ by {
                            if j != i {
                                assert(posth[j] == preh[j]);
                            }
                        }
                        lemma_key_idx_stable(preh, posth, old(self).console.current_host@);
                        let ch = old(self).console.current_host@;
                        if ch != "127.0.0.1"@ {
                            crate::network::lemma_key_idx(preh, ch);
                            let k = key_idx(preh, ch);
                            if k != i {
                                assert(posth[k] == preh[k]);
                            }
                            assert(posth[k].item.hacked);
                        }
                        assert forall|j: int|
                            0 <= j < posth.len() implies key_idx(
                            self.puzzles@,
                            (#[trigger] posth[j]).item.puzzle_kind@,
                        ) >= 0 by {
                            if j != i {
                                assert(posth[j] == preh[j]);
                            } else {
                                assert(posth[j].item.puzzle_kind == preh[j].item.puzzle_kind);
                            }
                        }
                        assert forall|j: int, f: int|
                            #![trigger posth[j].item.fs@[f]]
                            0 <= j < posth.len() && 0 <= f
                                < posth[j].item.fs@.len() implies key_idx(
                            self.manuals@,
                            file_id(posth[j].item.fs@[f].item),
                        ) >= 0 by {
                            if j != i {
                                assert(posth[j] == preh[j]);
                            } else {
                                assert(posth[j].item.fs == preh[j].item.fs);
                            }
                            assert(preh[j].item.fs@[f] == posth[j].item.fs@[f]);
                        }
                    }
                } else {
                    self.note_line(String::from_str("Hacking attempt failed"));
                }
                self.console.state = ConsoleState::AwaitingCommand;
            },
        }
    }

    /// Commit the buffered line: echo the rendered prompt into scrollback,
    /// dispatch by mode, and clear the buffer.
    pub fn submit(&mut self, pick: usize)
        requires
            old(self).wf(),
        ensures
            submit_rel(*old(self), *final(self), pick),
            final(self).wf(),
    {
        let line = self.console.get_full_prompt();
        proof {
            lemma_string_views_push(self.console.lines@, line);
        }
        self.console.add_line(line);
        let ghost mid1 = *self;
        proof {
            assert(echo_rel(*old(self), mid1));
            assert(mid1.wf());
        }
        self.handle_console_prompt(pick);
        let ghost mid2 = *self;
        self.console.prompt = String::new();
        proof {
            assert(clear_prompt_rel(mid2, *self));
            assert(echo_rel(*old(self), mid1) && prompt_rel(mid1, mid2, pick)
                && clear_prompt_rel(mid2, *self));
            assert(submit_rel(*old(self), *self, pick));
        }
    }

    /// Commit the buffered line with the puzzle pair chosen at random, as
    /// the interactive game does.
    pub fn submit_random(&mut self)
        requires
            old(self).wf(),
        ensures
            exists|pick: usize| submit_rel(*old(self), *final(self), pick),
            final(self).wf(),
    {
        let pick = crate::rng::random_word();
        self.submit(pick);
    }
}

} // verus!
