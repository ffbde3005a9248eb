use superuser::manual::{Manual, ManualBoard};
use superuser::network::{File, Host, Keyed, Network};
use superuser::state::{Puzzle, State};

fn host(kind: &str, files: Vec<(&str, &str)>) -> Host {
    Host {
        fs: files
            .into_iter()
            .map(|(name, id)| Keyed {
                name: String::from(name),
                item: File::Manual { id: String::from(id) },
            })
            .collect(),
        hacked: false,
        position: (0, 0),
        puzzle_kind: String::from(kind),
    }
}

fn riddles() -> Vec<Keyed<Puzzle>> {
    vec![Keyed {
        name: String::from("riddle"),
        item: Puzzle { answers: vec![(String::from("q"), String::from("a"))] },
    }]
}

fn catalog() -> Vec<Keyed<Manual>> {
    vec![Keyed {
        name: String::from("commands"),
        item: Manual::new((0, 0), (300, 200), String::from("text"), (1, 2, 3)),
    }]
}

fn board() -> ManualBoard {
    ManualBoard::new(1280, 720)
}

#[test]
fn sane_configuration_is_accepted() {
    let network = Network {
        hosts: vec![Keyed {
            name: String::from("127.0.0.1"),
            item: host("riddle", vec![("readme", "commands")]),
        }],
    };
    let st = State::new(network, riddles(), catalog(), board()).expect("accepted");
    assert_eq!(st.console.current_host, "127.0.0.1");
    assert!(st.console.lines.is_empty());
    assert_eq!(st.console.prompt, "");
}

#[test]
fn empty_network_is_accepted() {
    let st = State::new(Network { hosts: vec![] }, riddles(), catalog(), board());
    assert!(st.is_some());
}

#[test]
fn puzzle_without_answers_is_rejected() {
    let puzzles = vec![Keyed { name: String::from("riddle"), item: Puzzle { answers: vec![] } }];
    let network = Network {
        hosts: vec![Keyed { name: String::from("127.0.0.1"), item: host("riddle", vec![]) }],
    };
    assert!(State::new(network, puzzles, catalog(), board()).is_none());
}

#[test]
fn host_with_unknown_puzzle_kind_is_rejected() {
    let network = Network {
        hosts: vec![Keyed { name: String::from("127.0.0.1"), item: host("cipher", vec![]) }],
    };
    assert!(State::new(network, riddles(), catalog(), board()).is_none());
}

#[test]
fn file_pointing_at_missing_manual_is_rejected() {
    let network = Network {
        hosts: vec![Keyed {
            name: String::from("127.0.0.1"),
            item: host("riddle", vec![("readme", "nosuch")]),
        }],
    };
    assert!(State::new(network, riddles(), catalog(), board()).is_none());
}

#[test]
fn manual_with_negative_size_is_rejected() {
    let manuals = vec![Keyed {
        name: String::from("commands"),
        item: Manual { pos: (0, 0), size: (-1, 10), text: String::from("t"), bg_color: (0, 0, 0) },
    }];
    let network = Network {
        hosts: vec![Keyed { name: String::from("127.0.0.1"), item: host("riddle", vec![]) }],
    };
    assert!(State::new(network, riddles(), manuals, board()).is_none());
}

#[test]
fn mark_hacked_on_missing_address_is_a_noop() {
    let mut network = Network {
        hosts: vec![Keyed { name: String::from("127.0.0.1"), item: host("riddle", vec![]) }],
    };
    network.mark_hacked(&String::from("10.9.9.9"));
    assert!(!network.hosts[0].item.hacked);
}

#[test]
fn all_hacked_is_the_win_condition() {
    let mut network = Network {
        hosts: vec![
            Keyed { name: String::from("127.0.0.1"), item: host("riddle", vec![]) },
            Keyed { name: String::from("10.0.0.2"), item: host("riddle", vec![]) },
        ],
    };
    assert!(!network.all_hacked());
    network.mark_hacked(&String::from("127.0.0.1"));
    assert!(!network.all_hacked());
    network.mark_hacked(&String::from("10.0.0.2"));
    assert!(network.all_hacked());
    assert!(Network { hosts: vec![] }.all_hacked());
}
