use nano::discord::User;
use nano::set::{
    add_elements_command, added_reply, get_list_command, key_name, list_reply, read_options,
    rem_elements_command, removed_reply, CommandOption, SetAction, LIST_NAME_MISSING,
    NAME_MISSING,
};

fn user(id: u64, name: &str, discriminator: u16) -> User {
    User { id, name: name.to_string(), discriminator, bot: false }
}

fn text(name: &str, value: &str) -> CommandOption {
    CommandOption { name: name.to_string(), text: Some(value.to_string()), user: None }
}

fn other(name: &str) -> CommandOption {
    CommandOption { name: name.to_string(), text: None, user: None }
}

fn names_user(name: &str, u: User) -> CommandOption {
    CommandOption { name: name.to_string(), text: None, user: Some(u) }
}

#[test]
fn key_name_joins_name_tag_and_list() {
    assert_eq!(key_name(&user(1, "ann", 1234), "books"), "ann#1234:books");
    assert_eq!(key_name(&user(1, "ann", 42), "books"), "ann#42:books");
    assert_eq!(key_name(&user(1, "ann", 0), ""), "ann#0:");
}

#[test]
fn add_reads_name_and_elements() {
    let ann = user(1, "ann", 7);
    let options = vec![
        text("list_name", "books"),
        text("element1", "Dune"),
        other("element2"),
        text("element3", "Emma"),
        text("unrelated", "x"),
    ];
    assert_eq!(
        add_elements_command(&ann, &options),
        SetAction::Add {
            key: "ann#7:books".to_string(),
            elements: vec!["Dune".to_string(), "Emma".to_string()],
        }
    );
    assert_eq!(
        rem_elements_command(&ann, &options),
        SetAction::Remove {
            key: "ann#7:books".to_string(),
            elements: vec!["Dune".to_string(), "Emma".to_string()],
        }
    );
}

#[test]
fn commands_without_a_name_reply_at_once() {
    let ann = user(1, "ann", 7);
    let options = vec![text("element1", "Dune"), other("list_name")];
    assert_eq!(
        add_elements_command(&ann, &options),
        SetAction::Reply { content: "Couldn't find name".to_string() }
    );
    assert_eq!(
        rem_elements_command(&ann, &options),
        SetAction::Reply { content: NAME_MISSING.to_string() }
    );
    assert_eq!(
        get_list_command(&ann, &options),
        SetAction::Reply { content: "An error occured: no name found".to_string() }
    );
    assert_eq!(
        get_list_command(&ann, &vec![]),
        SetAction::Reply { content: LIST_NAME_MISSING.to_string() }
    );
}

#[test]
fn the_last_name_wins() {
    let ann = user(1, "ann", 7);
    let options = vec![text("list_name", "a"), text("list_name", "b"), other("list_name")];
    assert_eq!(
        add_elements_command(&ann, &options),
        SetAction::Add { key: "ann#7:b".to_string(), elements: vec![] }
    );
}

#[test]
fn listing_goes_to_the_named_user() {
    let ann = user(1, "ann", 7);
    let bob = user(2, "bob", 9);
    let options = vec![names_user("user", bob.clone()), text("list_name", "books")];
    assert_eq!(
        get_list_command(&ann, &options),
        SetAction::Members { key: "bob#9:books".to_string(), name: "books".to_string() }
    );
    assert_eq!(
        get_list_command(&ann, &vec![text("list_name", "books"), other("user")]),
        SetAction::Members { key: "ann#7:books".to_string(), name: "books".to_string() }
    );
    assert_eq!(
        add_elements_command(&ann, &options),
        SetAction::Add { key: "ann#7:books".to_string(), elements: vec![] }
    );
}

#[test]
fn read_options_tells_the_three_kinds_apart() {
    let ann = user(1, "ann", 7);
    let bob = user(2, "bob", 9);
    let options = vec![
        text("elementary", "yes"),
        names_user("element_user", bob.clone()),
        text("user", "ignored"),
        names_user("user", bob.clone()),
        text("Element", "no"),
    ];
    let read = read_options(&ann, &options);
    assert_eq!(read.name, None);
    assert_eq!(read.elements, vec!["yes".to_string()]);
    assert_eq!(read.owner, bob);
}

#[test]
fn replies_count_what_the_store_did() {
    assert_eq!(added_reply(0), "Successfully added 0 elements");
    assert_eq!(added_reply(12), "Successfully added 12 elements");
    assert_eq!(removed_reply(3), "Successfully removed 3 elements");
}

#[test]
fn list_reply_puts_each_member_on_a_line() {
    assert_eq!(list_reply("books", &vec![]), "books values:");
    assert_eq!(
        list_reply("books", &vec!["Dune".to_string(), "Emma".to_string()]),
        "books values:\n- Dune\n- Emma"
    );
}
