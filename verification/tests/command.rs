use pchat::command::{is_space_char, parse_command, split_words, Command};

fn words(line: &str) -> Vec<String> {
    split_words(line)
}

#[test]
fn split_words_matches_split_whitespace() {
    let lines = [
        "",
        "   ",
        "send peer hello",
        "  broadcast\t hi  there \n",
        "\u{3000}connect\u{00a0}/ip4/1.2.3.4/tcp/5\u{2028}",
        "a",
        "ab  cd",
        "日本 語\u{85}x",
    ];
    for line in lines {
        let expected: Vec<String> = line.split_whitespace().map(|w| w.to_string()).collect();
        assert_eq!(words(line), expected, "line {:?}", line);
    }
}

#[test]
fn white_space_set_is_that_of_std() {
    for v in 0u32..0x3100 {
        if let Some(c) = char::from_u32(v) {
            assert_eq!(is_space_char(c), c.is_whitespace(), "char {:?}", c);
        }
    }
}

#[test]
fn send_with_peer_and_message() {
    match parse_command("send 12D3KooWPeer hello") {
        Command::Send { peer, message } => {
            assert_eq!(peer, "12D3KooWPeer");
            assert_eq!(message, "hello");
        }
        _ => panic!("expected a send"),
    }
}

#[test]
fn send_takes_only_one_word_of_message() {
    match parse_command("send p hello world") {
        Command::Send { peer, message } => {
            assert_eq!(peer, "p");
            assert_eq!(message, "hello");
        }
        _ => panic!("expected a send"),
    }
}

#[test]
fn send_without_message_does_nothing() {
    assert!(matches!(parse_command("send p"), Command::MissingArguments));
    assert!(matches!(parse_command("send"), Command::MissingArguments));
}

#[test]
fn broadcast_with_surrounding_space() {
    match parse_command("  broadcast\t hi  there \n") {
        Command::Broadcast { message } => assert_eq!(message, "hi"),
        _ => panic!("expected a broadcast"),
    }
    assert!(matches!(parse_command("broadcast"), Command::MissingArguments));
}

#[test]
fn connect_with_address() {
    match parse_command("\u{3000}connect\u{00a0}/ip4/1.2.3.4/tcp/5") {
        Command::Connect { address } => assert_eq!(address, "/ip4/1.2.3.4/tcp/5"),
        _ => panic!("expected a connect"),
    }
    assert!(matches!(parse_command("connect "), Command::MissingArguments));
}

#[test]
fn help_for_empty_unknown_or_help() {
    assert!(matches!(parse_command(""), Command::Help));
    assert!(matches!(parse_command("   "), Command::Help));
    assert!(matches!(parse_command("help"), Command::Help));
    assert!(matches!(parse_command("hello world"), Command::Help));
    assert!(matches!(parse_command("Send a b"), Command::Help));
    assert!(matches!(parse_command("sendx a b"), Command::Help));
}

#[test]
fn exit_leaves() {
    assert!(matches!(parse_command("exit"), Command::Exit));
    assert!(matches!(parse_command(" exit now"), Command::Exit));
}
