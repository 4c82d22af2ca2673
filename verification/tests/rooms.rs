use chat_app::server::message::Message;
use chat_app::server::rooms::Room;
use chat_app::server::users::User;

const ROOM_NAME: &str = "Test Room";
const ALICE: &str = "Alice";
const BOB: &str = "Bob";
const CONTENT: &str = "Content";
const REACTION: &str = "Wassup!";

fn create_test_room() -> Room {
    Room::new(ROOM_NAME)
}

fn create_test_user(name: &str) -> User {
    User::new(name)
}

#[test]
fn test_room_creation() {
    let room = create_test_room();
    assert_eq!(room.name, ROOM_NAME);
    assert!(room.users.is_empty());
    assert_eq!(room.messages.len(), 0);
}

#[test]
fn add_user_to_room() {
    let mut room = create_test_room();

    room.add_user(create_test_user(ALICE));

    assert_eq!(room.users.len(), 1)
}

#[test]
fn add_message_to_room() {
    let mut room = create_test_room();
    room.add_user(create_test_user(ALICE));

    room.add_message(CONTENT);

    let last_message = room.messages.last().expect("No message found in the room");
    assert_eq!(last_message.get_content(), CONTENT);
}

#[test]
fn react_to_last_message() {
    let mut room: Room = create_test_room();
    let alice = create_test_user(ALICE);
    let bob = create_test_user(BOB);
    room.add_user(alice);
    room.add_user(bob);

    room.add_message(CONTENT);
    room.react_to_last_message(BOB, REACTION);

    let last_message = room.messages.last().expect("No messages found in the room");

    assert!(last_message.has_reactions());
    assert_eq!(last_message.reactions.get(BOB), Some(&REACTION.to_string()));
}

#[test]
fn users_join_in_order() {
    let mut room = create_test_room();
    room.add_user(create_test_user(ALICE));
    room.add_user(create_test_user(BOB));
    assert_eq!(room.users.len(), 2);
    assert_eq!(room.users[0].username, ALICE);
    assert_eq!(room.users[1].username, BOB);
    assert_eq!(room.name, ROOM_NAME);
    assert!(room.messages.is_empty());
}

#[test]
fn messages_are_added_in_order_without_reactions() {
    let mut room = create_test_room();
    room.add_message("first");
    room.add_message("second");
    assert_eq!(room.messages.len(), 2);
    assert_eq!(room.messages[0].get_content(), "first");
    assert_eq!(room.messages[1].get_content(), "second");
    assert!(!room.messages[1].has_reactions());
    assert!(room.users.is_empty());
}

#[test]
fn reaction_in_a_room_without_messages_changes_nothing() {
    let mut room = create_test_room();
    assert!(!room.react_to_last_message(BOB, REACTION));
    assert!(room.messages.is_empty());
}

#[test]
fn reaction_goes_to_the_last_message_only() {
    let mut room = create_test_room();
    room.add_message("first");
    room.add_message("second");
    assert!(room.react_to_last_message(BOB, REACTION));
    assert!(!room.messages[0].has_reactions());
    assert_eq!(room.messages[1].reactions.get(BOB), Some(&REACTION.to_string()));
    assert_eq!(room.messages[1].get_content(), "second");
}

#[test]
fn show_all_messages_lists_each_message_with_its_reactions() {
    let mut room = create_test_room();
    room.add_message("first");
    room.react_to_last_message(ALICE, "ok");
    room.add_message("second");
    assert_eq!(
        room.show_all_messages(),
        vec![
            "Messaged in room 'Test Room':".to_string(),
            "first".to_string(),
            "Reactions for message: 'first'".to_string(),
            " Alice reacted with ok".to_string(),
            "second".to_string(),
            "Reactions for message: 'second'".to_string(),
        ]
    );
}

#[test]
fn show_all_messages_of_an_empty_room_is_the_heading() {
    let room = create_test_room();
    assert_eq!(room.show_all_messages(), vec!["Messaged in room 'Test Room':".to_string()]);
}
