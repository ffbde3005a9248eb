use superuser::console::ConsoleState;
use superuser::manual::{Manual, ManualBoard};
use superuser::network::{File, Host, Keyed, Network};
use superuser::state::{Puzzle, State};

fn sample_manual() -> Manual {
    Manual::new((0, 0), (300, 200), String::from("welcome to the manual"), (209, 190, 161))
}

fn sample_state() -> State {
    let entry = Keyed {
        name: String::from("127.0.0.1"),
        item: Host {
            fs: vec![
                Keyed {
                    name: String::from("commands.txt"),
                    item: File::Manual { id: String::from("commands") },
                },
                Keyed {
                    name: String::from("notes.txt"),
                    item: File::Manual { id: String::from("commands") },
                },
            ],
            hacked: true,
            position: (10, 20),
            puzzle_kind: String::from("riddle"),
        },
    };
    let target = Keyed {
        name: String::from("10.0.0.2"),
        item: Host {
            fs: vec![],
            hacked: false,
            position: (60, 20),
            puzzle_kind: String::from("riddle"),
        },
    };
    let network = Network { hosts: vec![entry, target] };
    let puzzles = vec![Keyed {
        name: String::from("riddle"),
        item: Puzzle { answers: vec![(String::from("What is 1+1?"), String::from("2"))] },
    }];
    let manuals = vec![Keyed { name: String::from("commands"), item: sample_manual() }];
    let board = ManualBoard::new(1280, 720);
    State::new(network, puzzles, manuals, board).expect("configuration is sane")
}

fn type_line(st: &mut State, line: &str) {
    for c in line.chars() {
        st.console.push_char(c);
    }
}

fn last_line(st: &State) -> &str {
    st.console.lines.last().expect("scrollback has a line").as_str()
}

#[test]
fn push_char_caps_buffer_at_seventy() {
    let mut st = sample_state();
    for _ in 0..80 {
        st.console.push_char('a');
    }
    assert_eq!(st.console.prompt.chars().count(), 70);
}

#[test]
fn push_char_ignores_control_characters() {
    let mut st = sample_state();
    st.console.push_char('\n');
    st.console.push_char('\u{7f}');
    assert_eq!(st.console.prompt, "");
}

#[test]
fn backspace_on_empty_buffer_is_noop() {
    let mut st = sample_state();
    st.console.backspace();
    assert_eq!(st.console.prompt, "");
}

#[test]
fn push_then_backspace_restores_buffer() {
    let mut st = sample_state();
    type_line(&mut st, "ab");
    st.console.push_char('c');
    st.console.backspace();
    assert_eq!(st.console.prompt, "ab");
}

#[test]
fn prompt_renders_by_mode() {
    let mut st = sample_state();
    type_line(&mut st, "ls");
    assert_eq!(st.console.get_full_prompt(), "root@127.0.0.1> ls");
    st.console.prompt.clear();
    type_line(&mut st, "hack 10.0.0.2");
    st.submit(0);
    type_line(&mut st, "2");
    assert_eq!(st.console.get_full_prompt(), "hacking 10.0.0.2> 2");
}

#[test]
fn unknown_command_is_reported() {
    let mut st = sample_state();
    type_line(&mut st, "foo");
    st.submit(0);
    assert_eq!(last_line(&st), "Unknown command: foo");
    assert!(matches!(st.console.state, ConsoleState::AwaitingCommand));
    assert_eq!(st.console.prompt, "");
}

#[test]
fn submit_echoes_prompt_line_first() {
    let mut st = sample_state();
    type_line(&mut st, "foo");
    st.submit(0);
    let n = st.console.lines.len();
    assert_eq!(st.console.lines[n - 2], "root@127.0.0.1> foo");
}

#[test]
fn ssh_to_unknown_host_is_refused() {
    let mut st = sample_state();
    type_line(&mut st, "ssh unknownhost");
    st.submit(0);
    assert_eq!(last_line(&st), "Connection refused: no host found");
    assert_eq!(st.console.current_host, "127.0.0.1");
}

#[test]
fn ssh_needs_an_address() {
    let mut st = sample_state();
    type_line(&mut st, "ssh");
    st.submit(0);
    assert_eq!(last_line(&st), "Expected address");
}

#[test]
fn ssh_gated_by_hacked_flag() {
    let mut st = sample_state();
    type_line(&mut st, "ssh 10.0.0.2");
    st.submit(0);
    assert_eq!(last_line(&st), "Connection refused: access denied");
    assert_eq!(st.console.current_host, "127.0.0.1");

    st.network.hosts[1].item.hacked = true;
    type_line(&mut st, "ssh 10.0.0.2");
    st.submit(0);
    assert_eq!(st.console.current_host, "10.0.0.2");
}

#[test]
fn dc_returns_to_entry_host() {
    let mut st = sample_state();
    st.network.hosts[1].item.hacked = true;
    type_line(&mut st, "ssh 10.0.0.2");
    st.submit(0);
    assert_eq!(st.console.current_host, "10.0.0.2");
    type_line(&mut st, "dc");
    st.submit(0);
    assert_eq!(st.console.current_host, "127.0.0.1");
}

#[test]
fn hack_needs_an_address() {
    let mut st = sample_state();
    type_line(&mut st, "hack");
    st.submit(0);
    assert_eq!(last_line(&st), "Expected address");
}

#[test]
fn hack_unknown_host_is_refused() {
    let mut st = sample_state();
    type_line(&mut st, "hack unknownhost");
    st.submit(0);
    assert_eq!(last_line(&st), "Connection refused: no host found");
}

#[test]
fn hack_on_hacked_host_reports_already_root() {
    let mut st = sample_state();
    type_line(&mut st, "hack 127.0.0.1");
    st.submit(0);
    assert_eq!(last_line(&st), "Error: already root");
}

#[test]
fn hack_issues_challenge_and_awaits_answer() {
    let mut st = sample_state();
    type_line(&mut st, "hack 10.0.0.2");
    st.submit(0);
    assert_eq!(last_line(&st), "What is 1+1?");
    match &st.console.state {
        ConsoleState::AwaitingAnswer { answer, host } => {
            assert_eq!(answer, "2");
            assert_eq!(host, "10.0.0.2");
        }
        ConsoleState::AwaitingCommand => panic!("expected answer mode"),
    }
}

#[test]
fn correct_answer_hacks_host_and_wins() {
    let mut st = sample_state();
    type_line(&mut st, "hack 10.0.0.2");
    st.submit(0);
    type_line(&mut st, "2");
    st.submit(0);
    assert!(st.network.hosts[1].item.hacked);
    assert!(st.network.all_hacked());
    assert_eq!(last_line(&st), "Congrats, you win");
    assert!(matches!(st.console.state, ConsoleState::AwaitingCommand));
}

#[test]
fn wrong_answer_fails_and_returns_to_command_mode() {
    let mut st = sample_state();
    type_line(&mut st, "hack 10.0.0.2");
    st.submit(0);
    type_line(&mut st, "3");
    st.submit(0);
    assert!(!st.network.hosts[1].item.hacked);
    assert_eq!(last_line(&st), "Hacking attempt failed");
    assert!(matches!(st.console.state, ConsoleState::AwaitingCommand));
}

#[test]
fn submit_random_still_judges_the_only_answer() {
    let mut st = sample_state();
    type_line(&mut st, "hack 10.0.0.2");
    st.submit_random();
    type_line(&mut st, "2");
    st.submit_random();
    assert!(st.network.hosts[1].item.hacked);
}

#[test]
fn ls_lists_files_in_order() {
    let mut st = sample_state();
    type_line(&mut st, "ls");
    st.submit(0);
    let n = st.console.lines.len();
    assert_eq!(st.console.lines[n - 2], "commands.txt");
    assert_eq!(st.console.lines[n - 1], "notes.txt");
}

#[test]
fn clear_empties_scrollback() {
    let mut st = sample_state();
    type_line(&mut st, "foo");
    st.submit(0);
    assert!(!st.console.lines.is_empty());
    type_line(&mut st, "clear");
    st.submit(0);
    assert!(st.console.lines.is_empty());
}

#[test]
fn print_needs_a_filename() {
    let mut st = sample_state();
    type_line(&mut st, "print");
    st.submit(0);
    assert_eq!(last_line(&st), "Filename expected");
}

#[test]
fn print_of_missing_file_is_not_a_manual_page() {
    let mut st = sample_state();
    type_line(&mut st, "print nosuch");
    st.submit(0);
    assert_eq!(last_line(&st), "Not a manual page");
}

#[test]
fn print_queues_a_clone_of_the_catalog_manual() {
    let mut st = sample_state();
    type_line(&mut st, "print commands.txt");
    st.submit(0);
    assert_eq!(st.manual_board.manual_printing.len(), 1);
    let queued = &st.manual_board.manual_printing[0];
    assert_eq!(queued.manual.text, "welcome to the manual");
    assert!(queued.is_moving);
    // the catalog original is untouched
    let original = &st.manuals[0].item;
    assert_eq!(original.pos, (-150, -100));
    assert_eq!(original.text, "welcome to the manual");
    assert_eq!(original.bg_color, (209, 190, 161));
}

#[test]
fn trim_scrollback_drops_oldest_lines() {
    let mut st = sample_state();
    for s in ["a", "b", "c", "d"] {
        st.console.add_line(String::from(s));
    }
    st.console.trim_scrollback(3);
    assert_eq!(st.console.lines, vec![String::from("c"), String::from("d")]);
}

#[test]
fn caret_blinks_on_half_seconds() {
    assert!(superuser::caret_visible(0));
    assert!(superuser::caret_visible(499));
    assert!(!superuser::caret_visible(500));
    assert!(!superuser::caret_visible(999));
    assert!(superuser::caret_visible(1000));
}

#[test]
fn tokenize_splits_on_whitespace() {
    let toks = superuser::text::tokenize("  hack\t 10.0.0.2 ");
    assert_eq!(toks, vec![String::from("hack"), String::from("10.0.0.2")]);
    assert!(superuser::text::tokenize("   ").is_empty());
}
