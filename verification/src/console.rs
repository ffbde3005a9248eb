//! The console: scrollback, the live input buffer, the prompt, and the
//! command-versus-answer mode.

use vstd::prelude::*;
use vstd::string::StringExecFns;

use crate::text::{is_control, is_control_char, pop_char, push_char_onto, string_views};

verus! {

/// The input buffer never grows past this many characters.
pub const PROMPT_CAP: usize = 70;

/// Exactly one mode holds at any time: either the next submitted line is a
/// command, or it is the answer to the puzzle issued for `host`.
pub enum ConsoleState {
    AwaitingCommand,
    AwaitingAnswer { answer: String, host: String },
}

pub struct Console {
    pub lines: Vec<String>,
    pub prompt: String,
    pub state: ConsoleState,
    pub current_host: String,
}

/// What one accepted keystroke does to the buffer: appended when there is
/// room and the character is not a control character, ignored otherwise.
pub open spec fn spec_push_char(s: Seq<char>, c: char) -> Seq<char> {
    if s.len() < PROMPT_CAP && !is_control_char(c) {
        s.push(c)
    } else {
        s
    }
}

/// What backspace does to the buffer.
pub open spec fn spec_backspace(s: Seq<char>) -> Seq<char> {
    if s.len() > 0 {
        s.drop_last()
    } else {
        s
    }
}

impl Console {
    /// The scrollback, character by character, oldest line first.
    pub open spec fn lines_v(self) -> Seq<Seq<char>> {
        string_views(self.lines@)
    }

    /// The rendered prompt line: `root@<host>> <buffer>` at the command
    /// prompt, `hacking <host>> <buffer>` while a puzzle answer is pending.
    pub open spec fn spec_full_prompt(self) -> Seq<char> {
        match self.state {
            ConsoleState::AwaitingCommand => "root@"@ + self.current_host@ + "> "@
                + self.prompt@,
            ConsoleState::AwaitingAnswer { answer: _, host } => "hacking "@ + host@ + "> "@
                + self.prompt@,
        }
    }

    pub fn new(current_host: String) -> (r: Console)
        ensures
            r.lines@ =~= Seq::<String>::empty(),
            r.prompt@ =~= Seq::<char>::empty(),
            r.state is AwaitingCommand,
            r.current_host == current_host,
    {
        Console {
            lines: Vec::new(),
            prompt: String::new(),
            state: ConsoleState::AwaitingCommand,
            current_host,
        }
    }

    pub fn get_full_prompt(&self) -> (r: String)
        ensures
            r@ == self.spec_full_prompt(),
    {
        match &self.state {
            ConsoleState::AwaitingCommand => {
                let mut r = String::from_str("root@");
                r.append(self.current_host.as_str());
                r.append("> ");
                r.append(self.prompt.as_str());
                proof {
                    assert(r@ =~= self.spec_full_prompt());
                }
                r
            },
            ConsoleState::AwaitingAnswer { answer: _, host } => {
                let mut r = String::from_str("hacking ");
                r.append(host.as_str());
                r.append("> ");
                r.append(self.prompt.as_str());
                proof {
                    assert(r@ =~= self.spec_full_prompt());
                }
                r
            },
        }
    }

    pub fn add_line(&mut self, line: String)
        ensures
            final(self).lines@ == old(self).lines@.push(line),
            final(self).prompt == old(self).prompt,
            final(self).state == old(self).state,
            final(self).current_host == old(self).current_host,
    {
        self.lines.push(line);
    }

    /// Append a typed character to the buffer; a full buffer or a control
    /// character leaves everything alone.
    pub fn push_char(&mut self, c: char)
        ensures
            final(self).prompt@ == spec_push_char(old(self).prompt@, c),
            final(self).lines == old(self).lines,
            final(self).state == old(self).state,
            final(self).current_host == old(self).current_host,
    {
        if !is_control(c) && self.prompt.as_str().unicode_len() < PROMPT_CAP {
            push_char_onto(&mut self.prompt, c);
        }
    }

    /// Remove the last buffered character; empty buffers are left alone.
    pub fn backspace(&mut self)
        ensures
            final(self).prompt@ == spec_backspace(old(self).prompt@),
            final(self).lines == old(self).lines,
            final(self).state == old(self).state,
            final(self).current_host == old(self).current_host,
    {
        let _ = pop_char(&mut self.prompt);
    }

    /// Drop the oldest scrollback lines until fewer than `max_lines` remain,
    /// as the renderer does before appending the live prompt line.
    pub fn trim_scrollback(&mut self, max_lines: usize)
        requires
            max_lines >= 1,
        ensures
            final(self).lines@ == (if old(self).lines@.len() >= max_lines {
                old(self).lines@.skip(old(self).lines@.len() - (max_lines - 1))
            } else {
                old(self).lines@
            }),
            final(self).prompt == old(self).prompt,
            final(self).state == old(self).state,
            final(self).current_host == old(self).current_host,
    {
        while self.lines.len() >= max_lines
            invariant
                max_lines >= 1,
                self.lines@.len() <= old(self).lines@.len(),
                self.lines@.len() == old(self).lines@.len() || self.lines@.len() + 1
                    >= max_lines,
                self.lines@ == old(self).lines@.skip(
                    old(self).lines@.len() - self.lines@.len(),
                ),
                self.prompt == old(self).prompt,
                self.state == old(self).state,
                self.current_host == old(self).current_host,
            decreases self.lines@.len(),
        {
            let ghost pre = self.lines@;
            let _ = self.lines.remove(0);
            proof {
                assert(self.lines@ =~= pre.skip(1));
                assert(self.lines@ =~= old(self).lines@.skip(
                    old(self).lines@.len() - self.lines@.len(),
                ));
            }
        }
        proof {
            if old(self).lines@.len() >= max_lines {
                assert(self.lines@ =~= old(self).lines@.skip(
                    old(self).lines@.len() - (max_lines - 1),
                ));
            } else {
                assert(self.lines@ =~= old(self).lines@.skip(0));
                assert(old(self).lines@.skip(0) =~= old(self).lines@);
            }
        }
    }
}

} // verus!
