use chat_app::server::message::ChatMessage;
use chat_app::server::message::Message;
use chat_app::server::message::Reactions;

#[test]
fn test_message_creation() {
    let message = ChatMessage::new("Hello, world!");
    assert_eq!(message.get_content(), "Hello, world!");
}

#[test]
fn test_message_react() {
    let mut message = ChatMessage::new("Test message");
    message.react("Alice", "ğŸ‘");
    message.react("Bob", "ğŸ˜‚");

    assert_eq!(message.reactions.len(), 2);
    assert_eq!(message.reactions.get("Alice"), Some(&"ğŸ‘".to_string()));
    assert_eq!(message.reactions.get("Bob"), Some(&"ğŸ˜‚".to_string()));
}

#[test]
fn test_message_overwrite_reaction() {
    let mut message = ChatMessage::new("Test message");
    message.react("Alice", "ğŸ‘");
    message.react("Alice", "ğŸ˜‚");

    assert_eq!(message.reactions.len(), 1);
    assert_eq!(message.reactions.get("Alice"), Some(&"ğŸ˜‚".to_string()))
}

#[test]
fn test_message_show_reaction() {
    let mut message = ChatMessage::new("Test message");
    message.react("Alice", "ğŸ‘");
    message.react("Bob", "ğŸ˜‚");

    let mut buffer: Vec<u8> = Vec::new();
    buffer.extend_from_slice(format!("Reactions for message: '{}'", message.get_content()).as_bytes());
    buffer.push(b'\n');
    for (user, reaction) in message.reactions.entries() {
        buffer.extend_from_slice(format!("  {} reacted with: {}", user, reaction).as_bytes());
        buffer.push(b'\n');
    }

    let output = String::from_utf8(buffer).expect("Invalid UTF-8");

    assert!(output.contains("Alice reacted with: ğŸ‘"));
    assert!(output.contains("Bob reacted with: ğŸ˜‚"))
}

#[test]
fn new_message_has_no_reactions() {
    let message = ChatMessage::new("quiet");
    assert!(!message.has_reactions());
    assert!(message.reactions.is_empty());
    assert_eq!(message.reactions.len(), 0);
    assert_eq!(message.reactions.get("Alice"), None);
    assert!(message.reactions.entries().is_empty());
}

#[test]
fn empty_message_keeps_empty_content() {
    let message = ChatMessage::new("");
    assert_eq!(message.get_content(), "");
}

#[test]
fn react_keeps_content_and_sets_has_reactions() {
    let mut message = ChatMessage::new("Test message");
    message.react("Alice", "+1");
    assert_eq!(message.get_content(), "Test message");
    assert!(message.has_reactions());
}

#[test]
fn reactions_stand_in_order_of_first_reaction() {
    let mut message = ChatMessage::new("Test message");
    message.react("Carol", "a");
    message.react("Alice", "b");
    message.react("Bob", "c");
    message.react("Alice", "d");
    assert_eq!(
        message.reactions.entries(),
        vec![
            ("Carol".to_string(), "a".to_string()),
            ("Alice".to_string(), "d".to_string()),
            ("Bob".to_string(), "c".to_string()),
        ]
    );
}

#[test]
fn overwriting_one_user_leaves_the_others() {
    let mut message = ChatMessage::new("Test message");
    message.react("Alice", "a");
    message.react("Bob", "b");
    message.react("Alice", "c");
    assert_eq!(message.reactions.len(), 2);
    assert_eq!(message.reactions.get("Bob"), Some(&"b".to_string()));
    assert_eq!(message.reactions.get("Alice"), Some(&"c".to_string()));
    assert_eq!(message.reactions.get("alice"), None);
}

#[test]
fn show_reactions_gives_heading_and_one_line_per_user() {
    let mut message = ChatMessage::new("Test message");
    message.react("Alice", "ğŸ‘");
    message.react("Bob", "ğŸ˜‚");
    assert_eq!(
        message.show_reactions(),
        vec![
            "Reactions for message: 'Test message'".to_string(),
            " Alice reacted with ğŸ‘".to_string(),
            " Bob reacted with ğŸ˜‚".to_string(),
        ]
    );
}

#[test]
fn show_reactions_without_reactions_is_the_heading() {
    let message = ChatMessage::new("alone");
    assert_eq!(message.show_reactions(), vec!["Reactions for message: 'alone'".to_string()]);
}

#[test]
fn reactions_insert_replaces_or_appends() {
    let mut reactions = Reactions::new();
    reactions.insert("Alice".to_string(), "x".to_string());
    reactions.insert("Bob".to_string(), "y".to_string());
    reactions.insert("Alice".to_string(), "z".to_string());
    assert_eq!(reactions.len(), 2);
    assert!(!reactions.is_empty());
    assert_eq!(reactions.get("Alice"), Some(&"z".to_string()));
    assert_eq!(reactions.get("Bob"), Some(&"y".to_string()));
    assert_eq!(reactions.get(""), None);
}

#[test]
fn reactions_accept_the_empty_name() {
    let mut reactions = Reactions::new();
    reactions.insert(String::new(), "x".to_string());
    assert_eq!(reactions.get(""), Some(&"x".to_string()));
    assert_eq!(reactions.len(), 1);
}
