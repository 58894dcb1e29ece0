//! Plain models of the chat platform's values that the reply logic reads
//! and writes: users and rich message cards.

use vstd::prelude::*;

verus! {

/// The characters of an optional string.
pub open spec fn opt_view(o: Option<String>) -> Option<Seq<char>> {
    match o {
        Some(s) => Some(s@),
        None => None,
    }
}

/// An account on the platform.
#[derive(Debug, Clone, PartialEq, Eq)]
pub struct User {
    /// The account's unique number.
    pub id: u64,
    /// The account's name.
    pub name: String,
    /// The four-digit tag that tells equal names apart.
    pub discriminator: u16,
    /// Whether the account is run by a program.
    pub bot: bool,
}

/// What a [`User`] holds, as mathematical values.
pub struct UserView {
    pub id: u64,
    pub name: Seq<char>,
    pub discriminator: u16,
    pub bot: bool,
}

impl View for User {
    type V = UserView;

    open spec fn view(&self) -> UserView {
        UserView { id: self.id, name: self.name@, discriminator: self.discriminator, bot: self.bot }
    }
}

impl User {
    /// A copy of the user.
    pub fn duplicate(&self) -> (copy: User)
        ensures
            copy@ == self@,
    {
        User {
            id: self.id,
            name: self.name.clone(),
            discriminator: self.discriminator,
            bot: self.bot,
        }
    }
}

/// The views of a list of users.
pub open spec fn user_views(users: Seq<User>) -> Seq<UserView> {
    users.map_values(|u: User| u@)
}

/// One titled entry of a card.
#[derive(Debug, Clone, PartialEq, Eq)]
pub struct EmbedField {
    pub name: String,
    pub value: String,
    pub inline: bool,
}

/// What an [`EmbedField`] holds, as mathematical values.
pub struct EmbedFieldView {
    pub name: Seq<char>,
    pub value: Seq<char>,
    pub inline: bool,
}

impl View for EmbedField {
    type V = EmbedFieldView;

    open spec fn view(&self) -> EmbedFieldView {
        EmbedFieldView { name: self.name@, value: self.value@, inline: self.inline }
    }
}

/// The views of a list of card entries.
pub open spec fn field_views(fields: Seq<EmbedField>) -> Seq<EmbedFieldView> {
    fields.map_values(|f: EmbedField| f@)
}

/// A rich message card.
#[derive(Debug, Clone, PartialEq, Eq)]
pub struct Embed {
    pub title: String,
    pub description: Option<String>,
    /// Where the title links to.
    pub url: Option<String>,
    /// The address of the picture shown in the card.
    pub image: Option<String>,
    /// The colour of the card's edge, as red, green and blue.
    pub color: Option<(u8, u8, u8)>,
    pub fields: Vec<EmbedField>,
    pub footer: Option<String>,
}

/// What an [`Embed`] holds, as mathematical values.
pub struct EmbedView {
    pub title: Seq<char>,
    pub description: Option<Seq<char>>,
    pub url: Option<Seq<char>>,
    pub image: Option<Seq<char>>,
    pub color: Option<(u8, u8, u8)>,
    pub fields: Seq<EmbedFieldView>,
    pub footer: Option<Seq<char>>,
}

impl View for Embed {
    type V = EmbedView;

    open spec fn view(&self) -> EmbedView {
        EmbedView {
            title: self.title@,
            description: opt_view(self.description),
            url: opt_view(self.url),
            image: opt_view(self.image),
            color: self.color,
            fields: field_views(self.fields@),
            footer: opt_view(self.footer),
        }
    }
}

/// The views of a list of cards.
pub open spec fn embed_views(embeds: Seq<Embed>) -> Seq<EmbedView> {
    embeds.map_values(|e: Embed| e@)
}

} // verus!
