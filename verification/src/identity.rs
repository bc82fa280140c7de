//! Which account of the chat platform is the bot's own.

use vstd::prelude::*;

verus! {

/// The name of the account that the bot runs under.
pub const BOT_ACCOUNT_NAME: &'static str = "qnicknamebot";

/// An entry of the platform's user directory.
#[derive(Debug, Clone, PartialEq, Eq)]
pub struct UserRecord {
    pub id: String,
    pub name: String,
    pub is_bot: bool,
}

/// What the user directory says of the bot's account.
#[derive(Debug, Clone, PartialEq, Eq)]
pub enum BotIdentity {
    /// Exactly one bot carries the name: its identifier.
    Found(String),
    /// No bot carries the name.
    Missing,
    /// Several bots carry the name.
    Ambiguous,
}

/// `user` is a bot and carries the name `account_name`.
pub open spec fn is_bot_account(user: UserRecord, account_name: Seq<char>) -> bool {
    user.is_bot && user.name@ == account_name
}

/// The identifiers of the bots that carry the name `account_name`, in the
/// order of the directory.
pub open spec fn bot_ids(users: Seq<UserRecord>, account_name: Seq<char>) -> Seq<Seq<char>>
    decreases users.len(),
{
    if users.len() == 0 {
        Seq::empty()
    } else {
        let earlier = bot_ids(users.drop_last(), account_name);
        if is_bot_account(users.last(), account_name) {
            earlier.push(users.last().id@)
        } else {
            earlier
        }
    }
}

/// Looks for the one bot that carries the name `account_name`.
pub fn find_bot_id(users: &Vec<UserRecord>, account_name: &str) -> (identity: BotIdentity)
    ensures
        match identity {
            BotIdentity::Found(id) => bot_ids(users@, account_name@) == seq![id@],
            BotIdentity::Missing => bot_ids(users@, account_name@).len() == 0,
            BotIdentity::Ambiguous => bot_ids(users@, account_name@).len() >= 2,
        },
{
    let wanted = account_name.to_owned();
    let mut first: Option<usize> = None;
    let mut several = false;
    let mut i: usize = 0;
    assert(users@.take(0) =~= Seq::<UserRecord>::empty());
    while i < users.len()
        invariant
            i <= users.len(),
            wanted@ == account_name@,
            match first {
                None => !several && bot_ids(users@.take(i as int), account_name@).len() == 0,
                Some(at) => at < i && bot_ids(users@.take(i as int), account_name@).len() >= 1
                    && bot_ids(users@.take(i as int), account_name@)[0] == users@[at as int].id@
                    && (several <==> bot_ids(users@.take(i as int), account_name@).len() >= 2),
            },
        decreases users.len() - i,
    {
        proof {
            assert(users@.take(i + 1).drop_last() =~= users@.take(i as int));
            assert(users@.take(i + 1).last() == users@[i as int]);
        }
        if users[i].is_bot && users[i].name == wanted {
            match first {
                None => {
                    first = Some(i);
                },
                Some(_) => {
                    several = true;
                },
            }
        }
        i += 1;
    }
    assert(users@.take(i as int) =~= users@);
    match first {
        None => BotIdentity::Missing,
        Some(at) => {
            if several {
                BotIdentity::Ambiguous
            } else {
                assert(bot_ids(users@, account_name@) =~= seq![users@[at as int].id@]);
                BotIdentity::Found(users[at].id.clone())
            }
        },
    }
}

} // verus!
