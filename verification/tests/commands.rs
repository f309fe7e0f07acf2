use prefix_bot::commands::{commands, descriptor, hello, prefix, wood, Handler};
use prefix_bot::state::SharedPrefixState;

#[test]
fn hello_and_wood_reply_world_and_leave_the_prefix() {
    let mut state = SharedPrefixState::new();
    assert_eq!(hello(), "world!");
    assert_eq!(wood(), "world!");
    assert_eq!(state.get_prefix(), None);

    state.set_prefix("keep".to_string());
    assert_eq!(hello(), "world!");
    assert_eq!(state.get_prefix(), Some("keep".to_string()));
    assert_eq!(wood(), "world!");
    assert_eq!(state.get_prefix(), Some("keep".to_string()));
}

#[test]
fn hello_replies_the_same_each_time() {
    assert_eq!(hello(), hello());
    assert_eq!(wood(), wood());
    assert_eq!(hello(), wood());
}

#[test]
fn prefix_command_sets_the_shared_prefix() {
    let mut state = SharedPrefixState::new();
    prefix(&mut state, "$".to_string());
    assert_eq!(state.get_prefix(), Some("$".to_string()));
    prefix(&mut state, "%%".to_string());
    assert_eq!(state.get_prefix(), Some("%%".to_string()));
}

#[test]
fn prefix_command_takes_an_empty_text() {
    let mut state = SharedPrefixState::new();
    prefix(&mut state, "before".to_string());
    prefix(&mut state, String::new());
    assert_eq!(state.get_prefix(), Some(String::new()));
}

#[test]
fn prefix_command_twice_with_the_same_text() {
    let mut state = SharedPrefixState::new();
    prefix(&mut state, "again".to_string());
    prefix(&mut state, "again".to_string());
    assert_eq!(state.get_prefix(), Some("again".to_string()));
}

#[test]
fn command_table_lists_the_three_commands_in_order() {
    let table = commands();
    assert_eq!(table.len(), 3);
    let names: Vec<&str> = table.iter().map(|row| row.name.as_str()).collect();
    assert_eq!(names, vec!["hello", "wood", "prefix"]);
    let handlers: Vec<Handler> = table.iter().map(|row| row.handler).collect();
    assert_eq!(handlers, vec![Handler::Hello, Handler::Wood, Handler::Prefix]);
    for row in &table {
        assert!(row.slash_command);
        assert!(row.prefix_command);
    }
}

#[test]
fn descriptor_names_each_handler() {
    let hello_row = descriptor(Handler::Hello);
    assert_eq!(hello_row.name, "hello");
    assert_eq!(hello_row.handler, Handler::Hello);
    assert!(hello_row.slash_command && hello_row.prefix_command);

    let wood_row = descriptor(Handler::Wood);
    assert_eq!(wood_row.name, "wood");
    assert_eq!(wood_row.handler, Handler::Wood);
    assert!(wood_row.slash_command && wood_row.prefix_command);

    let prefix_row = descriptor(Handler::Prefix);
    assert_eq!(prefix_row.name, "prefix");
    assert_eq!(prefix_row.handler, Handler::Prefix);
    assert!(prefix_row.slash_command && prefix_row.prefix_command);
}

#[test]
fn command_names_are_distinct() {
    let table = commands();
    for (i, row) in table.iter().enumerate() {
        for other in &table[i + 1..] {
            assert_ne!(row.name, other.name);
            assert_ne!(row.handler, other.handler);
        }
    }
}
