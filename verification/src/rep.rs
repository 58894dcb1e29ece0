//! The reputation system: who may thank whom, what a thank is answered
//! with, and how reputations are shown.
//!
//! Reputations live in an outside store. A thank therefore runs in turns:
//! the caller looks up whether the thanker is on cooldown, [`thank`] says
//! whom to credit, the caller credits each one in the store and shows
//! [`milestone`] where it gives a message, and [`thank_outcome`] words the
//! closing reply, which also starts the thanker's cooldown.

use vstd::prelude::*;
use vstd::string::*;
use crate::config::THANK_COOLDOWN;
use crate::discord::{opt_view, user_views, User, UserView};
use crate::text::{align_right, decimal, decimal_string, join, joined, right_aligned, views};

verus! {

/// The name of the store's ranking of reputations.
pub const REPUTATION: &'static str = "reputation";

/// The reputation that is celebrated.
pub const MILESTONE: usize = 1000;

/// How many users the leaderboard shows where no number is asked for.
pub const DEFAULT_LEADERS: isize = 10;

/// What a user who thanks themselves is told.
pub const SELF_THANK_REPLY: &'static str = "You can't thank *yourself*, silly!";

/// A user and a reputation.
pub type Score = (String, usize);

/// The views of a list of scores.
pub open spec fn score_views(scores: Seq<Score>) -> Seq<(Seq<char>, usize)> {
    scores.map_values(|s: Score| (s.0@, s.1))
}

/// Whether `thanker` may thank `thankee`: programs thank nobody, and
/// nobody thanks themselves.
pub open spec fn may_thank(thanker: UserView, thankee: UserView) -> bool {
    !thanker.bot && thanker.id != thankee.id
}

/// Whether `user` is among `mentions`.
pub open spec fn mentioned(mentions: Seq<UserView>, user: UserView) -> bool {
    exists|i: int| 0 <= i < mentions.len() && #[trigger] mentions[i].id == user.id
}

/// The names of those among `mentions` whom `author` may thank, in the
/// order in which they are mentioned.
pub open spec fn thanked_names(author: UserView, mentions: Seq<UserView>) -> Seq<Seq<char>>
    decreases mentions.len(),
{
    if mentions.len() == 0 {
        Seq::empty()
    } else if may_thank(author, mentions.last()) {
        thanked_names(author, mentions.drop_last()).push(mentions.last().name)
    } else {
        thanked_names(author, mentions.drop_last())
    }
}

/// The key under which the cooldown of the user numbered `id` is kept.
pub open spec fn cooldown_key_text(id: u64) -> Seq<char> {
    "on-cooldown:"@ + decimal(id as nat)
}

/// What a user on cooldown is told.
pub open spec fn cooldown_text() -> Seq<char> {
    "You're still on cooldown. Wait "@ + decimal(THANK_COOLDOWN as nat)
        + " seconds and try again!"@
}

/// The message that celebrates the milestone of the user called `name`.
pub open spec fn milestone_text(name: Seq<char>) -> Seq<char> {
    "**"@ + name
        + "** has helped **1000** people!!! In recognition of this achievement, "@
        + name
        + " can redeem these points for a book of your choosing: contact PollardsRho for more information. \nhttps://tenor.com/view/happy-new-year2021version-gif-19777838"@
}

/// The line that reports one thank.
pub open spec fn thanked_line(name: Seq<char>, rep: usize) -> Seq<char> {
    "Thanked **"@ + name + "** (new rep: **"@ + decimal(rep as nat) + "**)\n"@
}

/// The report of all thanks, one line each.
pub open spec fn thanked_text(reps: Seq<(Seq<char>, usize)>) -> Seq<char>
    decreases reps.len(),
{
    if reps.len() == 0 {
        Seq::empty()
    } else {
        thanked_text(reps.drop_last()) + thanked_line(reps.last().0, reps.last().1)
    }
}

/// One line of the leaderboard.
pub open spec fn leader_line(name: Seq<char>, rep: usize) -> Seq<char> {
    "1. **"@ + name + "** — **"@ + right_aligned(decimal(rep as nat), 5) + "** points"@
}

/// The lines of the leaderboard.
pub open spec fn leader_lines(leaders: Seq<(Seq<char>, usize)>) -> Seq<Seq<char>> {
    leaders.map_values(|l: (Seq<char>, usize)| leader_line(l.0, l.1))
}

/// The leaderboard.
pub open spec fn leaderboard_text(leaders: Seq<(Seq<char>, usize)>) -> Seq<char> {
    "# Leaderboard\n\n"@ + joined(leader_lines(leaders), "\n"@)
}

/// The report of one user's reputation.
pub open spec fn reputation_text(name: Seq<char>, rep: usize, rank: usize) -> Seq<char> {
    "User "@ + name + " has **"@ + decimal(rep as nat) + "** points (ranked *"@ + decimal(
        rank as nat,
    ) + "*)"@
}

/// What to do about a message of thanks.
#[derive(Debug, Clone, PartialEq, Eq)]
pub enum ThankPlan {
    /// The thanker is on cooldown: tell them so, and do nothing else.
    OnCooldown { reply: String },
    /// Credit each of `targets`, after telling the thanker `scold` if there
    /// is something to tell.
    Proceed { scold: Option<String>, targets: Vec<String> },
}

/// What a [`ThankPlan`] holds, as mathematical values.
pub enum ThankPlanView {
    OnCooldown { reply: Seq<char> },
    Proceed { scold: Option<Seq<char>>, targets: Seq<Seq<char>> },
}

impl View for ThankPlan {
    type V = ThankPlanView;

    open spec fn view(&self) -> ThankPlanView {
        match self {
            ThankPlan::OnCooldown { reply } => ThankPlanView::OnCooldown { reply: reply@ },
            ThankPlan::Proceed { scold, targets } => ThankPlanView::Proceed {
                scold: opt_view(*scold),
                targets: views(targets@),
            },
        }
    }
}

/// The plan for a message of thanks written by `author` that mentions
/// `mentions`.
pub open spec fn thank_plan(author: UserView, mentions: Seq<UserView>, on_cooldown: bool)
    -> ThankPlanView {
    if on_cooldown {
        ThankPlanView::OnCooldown { reply: cooldown_text() }
    } else {
        ThankPlanView::Proceed {
            scold: if mentioned(mentions, author) {
                Some(SELF_THANK_REPLY@)
            } else {
                None
            },
            targets: thanked_names(author, mentions),
        }
    }
}

/// Checks if a given thanker-thankee relationship is allowed at this
/// moment: you can't thank yourself, and programs can't thank anyone.
pub fn can_thank(thanker: &User, thankee: &User) -> (allowed: bool)
    ensures
        allowed == may_thank(thanker@, thankee@),
{
    !thanker.bot && thanker.id != thankee.id
}

/// The key under which a user's cooldown is kept in the store.
pub fn cooldown_key(id: u64) -> (key: String)
    ensures
        key@ == cooldown_key_text(id),
{
    let mut key = String::from_str("on-cooldown:");
    key.append(decimal_string(id).as_str());
    key
}

/// Whether `user` is among `mentions`.
pub fn mentions_user(mentions: &Vec<User>, user: &User) -> (found: bool)
    ensures
        found == mentioned(user_views(mentions@), user@),
{
    let mut i: usize = 0;
    while i < mentions.len()
        invariant
            i <= mentions.len(),
            forall|k: int| 0 <= k < i ==> (#[trigger] user_views(mentions@)[k]).id != user.id,
        decreases mentions.len() - i,
    {
        if mentions[i].id == user.id {
            assert(user_views(mentions@)[i as int].id == user@.id);
            return true;
        }
        i += 1;
    }
    false
}

/// Given a message of thanks, says whether its author must wait, or else
/// whom among the mentioned users to credit, in the order of mention.
pub fn thank(author: &User, mentions: &Vec<User>, on_cooldown: bool) -> (plan: ThankPlan)
    ensures
        plan@ == thank_plan(author@, user_views(mentions@), on_cooldown),
{
    if on_cooldown {
        let mut reply = String::from_str("You're still on cooldown. Wait ");
        reply.append(decimal_string(THANK_COOLDOWN as u64).as_str());
        reply.append(" seconds and try again!");
        return ThankPlan::OnCooldown { reply };
    }
    let scold = if mentions_user(mentions, author) {
        Some(String::from_str(SELF_THANK_REPLY))
    } else {
        None
    };
    let mut targets: Vec<String> = Vec::new();
    let mut i: usize = 0;
    while i < mentions.len()
        invariant
            i <= mentions.len(),
            views(targets@) == thanked_names(author@, user_views(mentions@).take(i as int)),
        decreases mentions.len() - i,
    {
        proof {
            let seen = user_views(mentions@).take(i + 1);
            assert(seen.drop_last() == user_views(mentions@).take(i as int));
            assert(seen.last() == mentions@[i as int]@);
        }
        if can_thank(author, &mentions[i]) {
            let ghost before = views(targets@);
            targets.push(mentions[i].name.clone());
            assert(views(targets@) == before.push(mentions@[i as int]@.name));
        }
        i += 1;
    }
    assert(user_views(mentions@).take(mentions.len() as int) == user_views(mentions@));
    ThankPlan::Proceed { scold, targets }
}

/// The message that celebrates a user whose reputation has just reached
/// the milestone; nothing for any other reputation.
pub fn milestone(name: &str, new_rep: usize) -> (message: Option<String>)
    ensures
        opt_view(message) == if new_rep == MILESTONE {
            Some(milestone_text(name@))
        } else {
            None
        },
{
    if new_rep == MILESTONE {
        let mut message = String::from_str("**");
        message.append(name);
        message.append("** has helped **1000** people!!! In recognition of this achievement, ");
        message.append(name);
        message.append(
            " can redeem these points for a book of your choosing: contact PollardsRho for more information. \nhttps://tenor.com/view/happy-new-year2021version-gif-19777838",
        );
        Some(message)
    } else {
        None
    }
}

/// The closing reply to a message of thanks: one line for each user
/// credited, with the new reputation. Where nobody was credited there is
/// no reply, and no cooldown starts.
pub fn thank_outcome(reps: &Vec<Score>) -> (reply: Option<String>)
    ensures
        opt_view(reply) == if reps@.len() == 0 {
            None
        } else {
            Some(thanked_text(score_views(reps@)))
        },
{
    if reps.len() == 0 {
        return None;
    }
    let mut content = String::new();
    let mut i: usize = 0;
    while i < reps.len()
        invariant
            i <= reps.len(),
            content@ == thanked_text(score_views(reps@).take(i as int)),
        decreases reps.len() - i,
    {
        proof {
            let seen = score_views(reps@).take(i + 1);
            assert(seen.drop_last() == score_views(reps@).take(i as int));
            assert(seen.last() == (reps@[i as int].0@, reps@[i as int].1));
        }
        content.append("Thanked **");
        content.append(reps[i].0.as_str());
        content.append("** (new rep: **");
        content.append(decimal_string(reps[i].1 as u64).as_str());
        content.append("**)\n");
        i += 1;
    }
    assert(score_views(reps@).take(reps.len() as int) == score_views(reps@));
    Some(content)
}

/// The reputation and the rank of a user, in that order, from the score
/// and the position in the ranking that the store gives, which counts
/// from 0.
pub fn get_user_rep(score: usize, position: usize) -> (rep: (usize, usize))
    requires
        position < usize::MAX,
    ensures
        rep == (score, (position + 1) as usize),
{
    (score, position + 1)
}

/// The first and the last position of the ranking to fetch for a
/// leaderboard of `num_users` users.
pub fn top_rep(num_users: Option<isize>) -> (range: (isize, isize))
    requires
        num_users matches Some(n) ==> n > isize::MIN,
    ensures
        range.0 == 0,
        range.1 == match num_users {
            Some(n) => n - 1,
            None => DEFAULT_LEADERS - 1,
        },
{
    match num_users {
        Some(n) => (0, n - 1),
        None => (0, DEFAULT_LEADERS - 1),
    }
}

/// The leaderboard of the top users, best first as the store ranks them.
pub fn leaderboard(leaders: &Vec<Score>) -> (board: String)
    ensures
        board@ == leaderboard_text(score_views(leaders@)),
{
    let mut lines: Vec<String> = Vec::new();
    let mut i: usize = 0;
    while i < leaders.len()
        invariant
            i <= leaders.len(),
            views(lines@) == leader_lines(score_views(leaders@).take(i as int)),
        decreases leaders.len() - i,
    {
        let mut line = String::from_str("1. **");
        line.append(leaders[i].0.as_str());
        line.append("** — **");
        line.append(align_right(decimal_string(leaders[i].1 as u64).as_str(), 5).as_str());
        line.append("** points");
        let ghost before = views(lines@);
        lines.push(line);
        assert(views(lines@) == before.push(line@));
        assert(views(lines@) == leader_lines(score_views(leaders@).take(i + 1)));
        i += 1;
    }
    assert(score_views(leaders@).take(leaders.len() as int) == score_views(leaders@));
    let mut board = String::from_str("# Leaderboard\n\n");
    board.append(join(&lines, "\n").as_str());
    board
}

/// The report of the reputation `rep` and the rank `rank` of the user
/// called `name`.
pub fn reputation(name: &str, rep: usize, rank: usize) -> (report: String)
    ensures
        report@ == reputation_text(name@, rep, rank),
{
    let mut report = String::from_str("User ");
    report.append(name);
    report.append(" has **");
    report.append(decimal_string(rep as u64).as_str());
    report.append("** points (ranked *");
    report.append(decimal_string(rank as u64).as_str());
    report.append("*)");
    report
}

/// Nobody is credited for thanking themselves, and a program credits
/// nobody.
pub proof fn lemma_no_self_thanks(author: UserView, mentions: Seq<UserView>)
    ensures
        author.bot ==> thanked_names(author, mentions).len() == 0,
        (forall|i: int| 0 <= i < mentions.len() ==> (#[trigger] mentions[i]).id == author.id)
            ==> thanked_names(author, mentions).len() == 0,
        thanked_names(author, mentions).len() <= mentions.len(),
    decreases mentions.len(),
{
    if mentions.len() > 0 {
        lemma_no_self_thanks(author, mentions.drop_last());
        assert(mentions.last() == mentions[mentions.len() - 1]);
        assert(forall|i: int|
            0 <= i < mentions.drop_last().len() ==> (#[trigger] mentions.drop_last()[i])
                == mentions[i]);
    }
}

/// A user on cooldown credits nobody.
pub proof fn lemma_cooldown_blocks(author: UserView, mentions: Seq<UserView>)
    ensures
        thank_plan(author, mentions, true) is OnCooldown,
{
}

} // verus!
