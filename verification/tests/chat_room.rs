use chat_app::chat_room::render_line;
use chat_app::chat_room::ChatRoom;
use chat_app::chat_room::RoomMessage;
use chat_app::chat_room::RoomReply;
use chat_app::chat_room::LOG_CAPACITY;

fn send(user_id: usize, content: &str) -> RoomMessage<u32> {
    RoomMessage::SendMessage { user_id, content: content.to_string() }
}

fn react(user_id: usize, message_index: usize, reaction: &str) -> RoomMessage<u32> {
    RoomMessage::AddReaction { user_id, message_index, reaction: reaction.to_string() }
}

fn lines(texts: &[&str]) -> Vec<String> {
    texts.iter().map(|t| t.to_string()).collect()
}

#[test]
fn log_capacity_is_ten() {
    assert_eq!(LOG_CAPACITY, 10);
}

#[test]
fn new_room_is_empty() {
    let room = ChatRoom::new();
    assert_eq!(room.len(), 0);
    assert!(room.recent_messages().is_empty());
    assert!(room.reactions_at(0).is_empty());
}

#[test]
fn sent_message_is_rendered_with_position_and_author() {
    let mut room = ChatRoom::new();
    let reply = room.handle(send(7, "hi"));
    assert_eq!(reply, None);
    assert_eq!(room.len(), 1);
    assert_eq!(room.recent_messages(), lines(&["1: [User 7] hi"]));
}

#[test]
fn render_line_gives_position_author_and_text() {
    assert_eq!(render_line(1, 7, "hi"), "1: [User 7] hi");
    assert_eq!(render_line(10, 123, "a b"), "10: [User 123] a b");
    assert_eq!(render_line(0, 0, ""), "0: [User 0] ");
}

#[test]
fn ten_messages_are_all_retained() {
    let mut room = ChatRoom::new();
    for i in 1..=10usize {
        room.handle(send(i, &format!("m{}", i)));
    }
    assert_eq!(room.len(), 10);
    let shown = room.recent_messages();
    assert_eq!(shown.len(), 10);
    assert_eq!(shown[0], "1: [User 1] m1");
    assert_eq!(shown[9], "10: [User 10] m10");
}

#[test]
fn eleventh_message_evicts_the_oldest() {
    let mut room = ChatRoom::new();
    for i in 1..=11usize {
        room.handle(send(i, &format!("m{}", i)));
    }
    assert_eq!(room.len(), 10);
    let shown = room.recent_messages();
    assert_eq!(shown[0], "1: [User 2] m2");
    assert_eq!(shown[9], "10: [User 11] m11");
}

#[test]
fn after_many_sends_the_log_holds_the_last_ten_in_order() {
    let mut room = ChatRoom::new();
    for i in 1..=37usize {
        room.handle(send(i % 3, &format!("message {}", i)));
        assert!(room.len() <= 10);
    }
    assert_eq!(room.len(), 10);
    let expected: Vec<String> = (28..=37usize)
        .map(|i| format!("{}: [User {}] message {}", i - 27, i % 3, i))
        .collect();
    assert_eq!(room.recent_messages(), expected);
}

#[test]
fn read_is_answered_on_its_sink_and_changes_nothing() {
    let mut room = ChatRoom::new();
    room.handle(send(1, "hi"));
    room.handle(send(2, "hello"));
    let reply = room.handle(RoomMessage::ShowRecentMessages { sender: 99u32 });
    assert_eq!(
        reply,
        Some(RoomReply { sender: 99, messages: lines(&["1: [User 1] hi", "2: [User 2] hello"]) })
    );
    assert_eq!(room.len(), 2);
    assert_eq!(room.recent_messages(), lines(&["1: [User 1] hi", "2: [User 2] hello"]));
}

#[test]
fn read_of_an_empty_room_is_answered_with_no_lines() {
    let mut room = ChatRoom::new();
    let reply = room.handle(RoomMessage::ShowRecentMessages { sender: 5u32 });
    assert_eq!(reply, Some(RoomReply { sender: 5, messages: Vec::new() }));
}

#[test]
fn reaction_does_not_alter_the_messages() {
    let mut room = ChatRoom::new();
    room.handle(send(1, "hi"));
    room.handle(send(2, "hello"));
    let before = room.recent_messages();
    let reply = room.handle(react(3, 0, "nice"));
    assert_eq!(reply, None);
    assert_eq!(room.recent_messages(), before);
    let shown = room.handle(RoomMessage::ShowRecentMessages { sender: 1u32 });
    assert_eq!(shown, Some(RoomReply { sender: 1, messages: before }));
}

#[test]
fn reactions_are_kept_by_position_in_order_of_arrival() {
    let mut room = ChatRoom::new();
    room.handle(send(1, "hi"));
    room.handle(react(3, 0, "nice"));
    room.handle(react(4, 0, "ok"));
    room.handle(react(3, 0, "again"));
    room.handle(react(5, 2, "elsewhere"));
    assert_eq!(
        room.reactions_at(0),
        vec![(3, "nice".to_string()), (4, "ok".to_string()), (3, "again".to_string())]
    );
    assert_eq!(room.reactions_at(2), vec![(5, "elsewhere".to_string())]);
    assert!(room.reactions_at(1).is_empty());
}

#[test]
fn reaction_to_a_position_without_message_is_accepted() {
    let mut room = ChatRoom::new();
    assert_eq!(room.handle(react(1, 42, "void")), None);
    assert_eq!(room.handle(react(1, usize::MAX, "far")), None);
    assert_eq!(room.reactions_at(42), vec![(1, "void".to_string())]);
    assert_eq!(room.reactions_at(usize::MAX), vec![(1, "far".to_string())]);
    assert_eq!(room.len(), 0);
}

#[test]
fn reactions_stay_with_the_position_when_the_log_moves_on() {
    let mut room = ChatRoom::new();
    for i in 1..=10usize {
        room.handle(send(i, "x"));
    }
    room.handle(react(1, 0, "first"));
    room.handle(send(11, "y"));
    assert_eq!(room.reactions_at(0), vec![(1, "first".to_string())]);
    assert_eq!(room.recent_messages()[0], "1: [User 2] x");
}

#[test]
fn run_takes_the_inbox_in_order_and_collects_the_replies() {
    let mut room = ChatRoom::new();
    let inbox = vec![
        send(1, "a"),
        RoomMessage::ShowRecentMessages { sender: 10u32 },
        send(2, "b"),
        react(1, 0, "r"),
        RoomMessage::ShowRecentMessages { sender: 20u32 },
    ];
    let replies = room.run(inbox);
    assert_eq!(
        replies,
        vec![
            RoomReply { sender: 10, messages: lines(&["1: [User 1] a"]) },
            RoomReply { sender: 20, messages: lines(&["1: [User 1] a", "2: [User 2] b"]) },
        ]
    );
    assert_eq!(room.len(), 2);
    assert_eq!(room.reactions_at(0), vec![(1, "r".to_string())]);
}

#[test]
fn run_of_an_empty_inbox_changes_nothing() {
    let mut room = ChatRoom::new();
    room.handle(send(1, "a"));
    let replies = room.run(Vec::<RoomMessage<u32>>::new());
    assert!(replies.is_empty());
    assert_eq!(room.recent_messages(), lines(&["1: [User 1] a"]));
}

#[test]
fn interleaved_senders_are_logged_in_arrival_order() {
    let mut room = ChatRoom::new();
    let mut inbox = Vec::new();
    for i in 0..6usize {
        inbox.push(send(1, &format!("a{}", i)));
        inbox.push(send(2, &format!("b{}", i)));
    }
    room.run(inbox);
    let expected: Vec<String> = vec![
        "1: [User 1] a1",
        "2: [User 2] b1",
        "3: [User 1] a2",
        "4: [User 2] b2",
        "5: [User 1] a3",
        "6: [User 2] b3",
        "7: [User 1] a4",
        "8: [User 2] b4",
        "9: [User 1] a5",
        "10: [User 2] b5",
    ]
    .into_iter()
    .map(|t| t.to_string())
    .collect();
    assert_eq!(room.recent_messages(), expected);
}

#[test]
fn run_gives_what_handling_one_by_one_gives() {
    let inbox: Vec<RoomMessage<u32>> =
        (0..25usize).map(|i| send(i, &format!("m{}", i))).collect();
    let mut whole = ChatRoom::new();
    whole.run(inbox.clone());
    let mut stepwise = ChatRoom::new();
    for message in inbox {
        stepwise.handle(message);
    }
    assert_eq!(whole.recent_messages(), stepwise.recent_messages());
}
