use pchat::chat::PChat;

#[test]
fn create_does_nothing() {
    PChat::create();
    let chat = PChat { pid: "peer".to_string(), ip: "127.0.0.1".to_string() };
    assert_eq!(chat.pid, "peer");
    assert_eq!(chat.ip, "127.0.0.1");
}
