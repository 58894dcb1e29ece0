//! User-defined, editable sets of strings.
//!
//! The sets live in an outside store. Each command reads its options and
//! says what to ask of the store, or what to reply at once; the answer of
//! the store is worded by [`added_reply`], [`removed_reply`] and
//! [`list_reply`].

use vstd::prelude::*;
use vstd::string::*;
use crate::discord::{User, UserView};
use crate::text::{decimal, decimal_string, join, joined, occurs_at, same_text, starts_with, views};

verus! {

/// The reply to an addition or a removal that names no set.
pub const NAME_MISSING: &'static str = "Couldn't find name";

/// The reply to a listing that names no set.
pub const LIST_NAME_MISSING: &'static str = "An error occured: no name found";

/// One option of a command, as far as the set commands read it.
#[derive(Debug, Clone, PartialEq, Eq)]
pub struct CommandOption {
    /// The option's name.
    pub name: String,
    /// The option's value, where it is a string.
    pub text: Option<String>,
    /// The user that the option resolves to, where it names one.
    pub user: Option<User>,
}

/// What a [`CommandOption`] holds, as mathematical values.
pub struct CommandOptionView {
    pub name: Seq<char>,
    pub text: Option<Seq<char>>,
    pub user: Option<UserView>,
}

impl View for CommandOption {
    type V = CommandOptionView;

    open spec fn view(&self) -> CommandOptionView {
        CommandOptionView {
            name: self.name@,
            text: match self.text {
                Some(t) => Some(t@),
                None => None,
            },
            user: match self.user {
                Some(u) => Some(u@),
                None => None,
            },
        }
    }
}

/// The views of a list of options.
pub open spec fn option_views(options: Seq<CommandOption>) -> Seq<CommandOptionView> {
    options.map_values(|o: CommandOption| o@)
}

/// What to do about a set command.
#[derive(Debug, Clone, PartialEq, Eq)]
pub enum SetAction {
    /// Add `elements` to the set kept under `key`.
    Add { key: String, elements: Vec<String> },
    /// Remove `elements` from the set kept under `key`.
    Remove { key: String, elements: Vec<String> },
    /// Fetch the members of the set called `name`, kept under `key`.
    Members { key: String, name: String },
    /// Reply with `content` without asking the store.
    Reply { content: String },
}

/// What a [`SetAction`] holds, as mathematical values.
pub enum SetActionView {
    Add { key: Seq<char>, elements: Seq<Seq<char>> },
    Remove { key: Seq<char>, elements: Seq<Seq<char>> },
    Members { key: Seq<char>, name: Seq<char> },
    Reply { content: Seq<char> },
}

impl View for SetAction {
    type V = SetActionView;

    open spec fn view(&self) -> SetActionView {
        match self {
            SetAction::Add { key, elements } => SetActionView::Add {
                key: key@,
                elements: views(elements@),
            },
            SetAction::Remove { key, elements } => SetActionView::Remove {
                key: key@,
                elements: views(elements@),
            },
            SetAction::Members { key, name } => SetActionView::Members { key: key@, name: name@ },
            SetAction::Reply { content } => SetActionView::Reply { content: content@ },
        }
    }
}

/// Whether an option names the set.
pub open spec fn names_list(option: CommandOptionView) -> bool {
    option.name == "list_name"@
}

/// Whether an option gives an element.
pub open spec fn gives_element(option: CommandOptionView) -> bool {
    !names_list(option) && occurs_at(option.name, "element"@, 0)
}

/// Whether an option names the owner of the set.
pub open spec fn names_owner(option: CommandOptionView) -> bool {
    !names_list(option) && !gives_element(option) && option.name == "user"@
}

/// The name of the set: the value of the last option that names the set
/// with a string.
pub open spec fn list_name(options: Seq<CommandOptionView>) -> Option<Seq<char>>
    decreases options.len(),
{
    if options.len() == 0 {
        None
    } else if names_list(options.last()) && options.last().text is Some {
        options.last().text
    } else {
        list_name(options.drop_last())
    }
}

/// The elements: the values of the options that give an element as a
/// string, in order.
pub open spec fn elements(options: Seq<CommandOptionView>) -> Seq<Seq<char>>
    decreases options.len(),
{
    if options.len() == 0 {
        Seq::empty()
    } else if gives_element(options.last()) && options.last().text is Some {
        elements(options.drop_last()).push(options.last().text->0)
    } else {
        elements(options.drop_last())
    }
}

/// The owner of the set: the user of the last option that names one, or
/// `invoker` where none does.
pub open spec fn owner(invoker: UserView, options: Seq<CommandOptionView>) -> UserView
    decreases options.len(),
{
    if options.len() == 0 {
        invoker
    } else if names_owner(options.last()) && options.last().user is Some {
        options.last().user->0
    } else {
        owner(invoker, options.drop_last())
    }
}

/// The key under which the set called `name` of `user` is kept.
pub open spec fn key_text(user: UserView, name: Seq<char>) -> Seq<char> {
    user.name + "#"@ + decimal(user.discriminator as nat) + ":"@ + name
}

/// What an addition does.
pub open spec fn addition(invoker: UserView, options: Seq<CommandOptionView>) -> SetActionView {
    match list_name(options) {
        Some(name) => SetActionView::Add {
            key: key_text(invoker, name),
            elements: elements(options),
        },
        None => SetActionView::Reply { content: NAME_MISSING@ },
    }
}

/// What a removal does.
pub open spec fn removal(invoker: UserView, options: Seq<CommandOptionView>) -> SetActionView {
    match list_name(options) {
        Some(name) => SetActionView::Remove {
            key: key_text(invoker, name),
            elements: elements(options),
        },
        None => SetActionView::Reply { content: NAME_MISSING@ },
    }
}

/// What a listing does.
pub open spec fn listing(invoker: UserView, options: Seq<CommandOptionView>) -> SetActionView {
    match list_name(options) {
        Some(name) => SetActionView::Members { key: key_text(owner(invoker, options), name), name },
        None => SetActionView::Reply { content: LIST_NAME_MISSING@ },
    }
}

/// The report of the members of the set called `name`.
pub open spec fn list_text(name: Seq<char>, members: Seq<Seq<char>>) -> Seq<char> {
    joined(seq![name + " values:"@] + members.map_values(|m: Seq<char>| "- "@ + m), "\n"@)
}

/// What the options of a set command say.
pub struct Arguments {
    pub name: Option<String>,
    pub elements: Vec<String>,
    pub owner: User,
}

/// Gets the name of the store's key corresponding to the given user and
/// name.
pub fn key_name(user: &User, name: &str) -> (key: String)
    ensures
        key@ == key_text(user@, name@),
{
    let mut key = user.name.clone();
    key.append("#");
    key.append(decimal_string(user.discriminator as u64).as_str());
    key.append(":");
    key.append(name);
    key
}

/// Reads the options of a set command given by `invoker`.
pub fn read_options(invoker: &User, options: &Vec<CommandOption>) -> (read: Arguments)
    ensures
        crate::discord::opt_view(read.name) == list_name(option_views(options@)),
        views(read.elements@) == elements(option_views(options@)),
        read.owner@ == owner(invoker@, option_views(options@)),
{
    let mut name: Option<String> = None;
    let mut elements: Vec<String> = Vec::new();
    let mut owner: User = invoker.duplicate();
    let mut i: usize = 0;
    while i < options.len()
        invariant
            i <= options.len(),
            crate::discord::opt_view(name) == list_name(option_views(options@).take(i as int)),
            views(elements@) == self::elements(option_views(options@).take(i as int)),
            owner@ == self::owner(invoker@, option_views(options@).take(i as int)),
        decreases options.len() - i,
    {
        proof {
            let seen = option_views(options@).take(i + 1);
            assert(seen.drop_last() == option_views(options@).take(i as int));
            assert(seen.last() == options@[i as int]@);
        }
        let option = &options[i];
        if same_text(option.name.as_str(), "list_name") {
            if let Some(value) = &option.text {
                name = Some(value.clone());
            }
        } else if starts_with(option.name.as_str(), "element") {
            if let Some(value) = &option.text {
                let ghost before = views(elements@);
                elements.push(value.clone());
                assert(views(elements@) == before.push(value@));
            }
        } else if same_text(option.name.as_str(), "user") {
            if let Some(user) = &option.user {
                owner = user.duplicate();
            }
        }
        i += 1;
    }
    assert(option_views(options@).take(options.len() as int) == option_views(options@));
    Arguments { name, elements, owner }
}

/// Adds the elements that the options give to the set that they name,
/// among the sets of `invoker`.
pub fn add_elements_command(invoker: &User, options: &Vec<CommandOption>) -> (action: SetAction)
    ensures
        action@ == addition(invoker@, option_views(options@)),
{
    let read = read_options(invoker, options);
    match read.name {
        Some(name) => SetAction::Add {
            key: key_name(invoker, name.as_str()),
            elements: read.elements,
        },
        None => SetAction::Reply { content: String::from_str(NAME_MISSING) },
    }
}

/// Removes the elements that the options give from the set that they
/// name, among the sets of `invoker`.
pub fn rem_elements_command(invoker: &User, options: &Vec<CommandOption>) -> (action: SetAction)
    ensures
        action@ == removal(invoker@, option_views(options@)),
{
    let read = read_options(invoker, options);
    match read.name {
        Some(name) => SetAction::Remove {
            key: key_name(invoker, name.as_str()),
            elements: read.elements,
        },
        None => SetAction::Reply { content: String::from_str(NAME_MISSING) },
    }
}

/// Lists the set that the options name, among the sets of the user that
/// they name, or of `invoker` where they name none.
pub fn get_list_command(invoker: &User, options: &Vec<CommandOption>) -> (action: SetAction)
    ensures
        action@ == listing(invoker@, option_views(options@)),
{
    let read = read_options(invoker, options);
    match read.name {
        Some(name) => SetAction::Members { key: key_name(&read.owner, name.as_str()), name },
        None => SetAction::Reply { content: String::from_str(LIST_NAME_MISSING) },
    }
}

/// The reply to an addition that the store counted as `added` new elements.
pub fn added_reply(added: usize) -> (reply: String)
    ensures
        reply@ == "Successfully added "@ + decimal(added as nat) + " elements"@,
{
    let mut reply = String::from_str("Successfully added ");
    reply.append(decimal_string(added as u64).as_str());
    reply.append(" elements");
    reply
}

/// The reply to a removal that the store counted as `removed` elements.
pub fn removed_reply(removed: usize) -> (reply: String)
    ensures
        reply@ == "Successfully removed "@ + decimal(removed as nat) + " elements"@,
{
    let mut reply = String::from_str("Successfully removed ");
    reply.append(decimal_string(removed as u64).as_str());
    reply.append(" elements");
    reply
}

/// The reply that lists the members of the set called `name`, in the order
/// in which the store gives them.
pub fn list_reply(name: &str, members: &Vec<String>) -> (reply: String)
    ensures
        reply@ == list_text(name@, views(members@)),
{
    let mut head = String::from_str(name);
    head.append(" values:");
    let mut lines: Vec<String> = Vec::new();
    lines.push(head);
    let mut i: usize = 0;
    while i < members.len()
        invariant
            i <= members.len(),
            views(lines@) == seq![name@ + " values:"@] + views(members@).take(i as int).map_values(
                |m: Seq<char>| "- "@ + m,
            ),
        decreases members.len() - i,
    {
        let mut line = String::from_str("- ");
        line.append(members[i].as_str());
        let ghost before = views(lines@);
        lines.push(line);
        assert(views(lines@) =~= before.push(line@));
        assert(views(lines@) =~= seq![name@ + " values:"@] + views(members@).take(
            i + 1,
        ).map_values(|m: Seq<char>| "- "@ + m));
        i += 1;
    }
    assert(views(members@).take(members.len() as int) == views(members@));
    join(&lines, "\n")
}

/// A command without options names no set.
pub proof fn lemma_no_options_no_name(invoker: UserView)
    ensures
        addition(invoker, Seq::empty()) is Reply,
        removal(invoker, Seq::empty()) is Reply,
        listing(invoker, Seq::empty()) is Reply,
{
}

/// No more elements are read than there are options.
pub proof fn lemma_elements_bounded(options: Seq<CommandOptionView>)
    ensures
        elements(options).len() <= options.len(),
    decreases options.len(),
{
    if options.len() > 0 {
        lemma_elements_bounded(options.drop_last());
    }
}

} // verus!
