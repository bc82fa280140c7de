//! What an incoming chat message asks of the bot, and what the bot answers.

use crate::phrase::{extract_name, first_group, TRANSLATE_PATTERN};
use crate::resolver::{nickname_of, resolve};
use crate::table::NicknameTable;
use crate::text::{chars_of, contains_run, first_occurrence, trim, trimmed};
use vstd::prelude::*;

verus! {

/// The answer to a message that is addressed to the bot but holds no
/// request that it understands.
pub const HELP_TEXT: &'static str =
    "*Sorry I can't understand that!* :exploding_head:\nTry typing: \"Translate: [Your Real Name Here]\"";

/// The answer to a name for which the table has no nickname.
pub const NO_NICKNAME_TEXT: &'static str = "You don't have a QNickname! (Sorry!)";

/// What stands before the nickname in an answer.
pub const NICKNAME_OPENING: &'static str = "Your QNickname is: *";

/// What stands after the nickname in an answer.
pub const NICKNAME_CLOSING: &'static str = "*";

/// A text message as the chat platform delivers it, or as the bot sends it:
/// the channel and the text.
#[derive(Debug, Clone, PartialEq, Eq)]
pub struct ChatMessage {
    pub channel: String,
    pub text: String,
}

/// What the bot does about a message.
#[derive(Debug, Clone, PartialEq, Eq)]
pub enum IntentResult {
    /// The message is not addressed to the bot.
    Ignore,
    /// The message is addressed to the bot and names nobody: explain the
    /// phrase.
    RespondHelp,
    /// The message names somebody: answer with the nickname, or say that
    /// there is none.
    RespondNickname(Option<String>),
}

/// An `IntentResult` with its text as a sequence of characters.
pub enum Intent {
    Ignore,
    RespondHelp,
    RespondNickname(Option<Seq<char>>),
}

impl View for IntentResult {
    type V = Intent;

    open spec fn view(&self) -> Intent {
        match self {
            IntentResult::Ignore => Intent::Ignore,
            IntentResult::RespondHelp => Intent::RespondHelp,
            IntentResult::RespondNickname(nickname) => Intent::RespondNickname(
                nickname.deep_view(),
            ),
        }
    }
}

/// A channel of direct messages: its identifier begins with `D`.
pub open spec fn is_dm(channel: Seq<char>) -> bool {
    channel.len() > 0 && channel[0] == 'D'
}

/// How a message mentions the account `bot_id`: `<@`, the identifier, `>`.
pub open spec fn mention_of(bot_id: Seq<char>) -> Seq<char> {
    seq!['<', '@'] + bot_id + seq!['>']
}

/// A message is addressed to the bot where it comes on a channel of direct
/// messages or mentions the bot.
pub open spec fn addressed_to(bot_id: Seq<char>, channel: Seq<char>, text: Seq<char>) -> bool {
    is_dm(channel) || contains_run(text, mention_of(bot_id))
}

/// What is done about a message addressed to the bot, given the name that
/// was found in it. A name of nothing but whitespace has no nickname.
pub open spec fn intent_for(table: Map<char, Seq<Seq<char>>>, captured: Option<Seq<char>>) -> Intent {
    match captured {
        None => Intent::RespondHelp,
        Some(name) => Intent::RespondNickname(
            if trimmed(name).len() == 0 {
                None
            } else {
                nickname_of(table, name)
            },
        ),
    }
}

/// What is done about a message.
pub open spec fn classification(
    table: Map<char, Seq<Seq<char>>>,
    bot_id: Seq<char>,
    channel: Seq<char>,
    text: Seq<char>,
) -> Intent {
    if addressed_to(bot_id, channel, text) {
        intent_for(table, first_group(TRANSLATE_PATTERN@, text))
    } else {
        Intent::Ignore
    }
}

/// The text that answers a nickname.
pub open spec fn nickname_text(nickname: Seq<char>) -> Seq<char> {
    NICKNAME_OPENING@ + nickname + NICKNAME_CLOSING@
}

/// The text to send for an intent, if any is to be sent.
pub open spec fn response_of(intent: Intent) -> Option<Seq<char>> {
    match intent {
        Intent::Ignore => None,
        Intent::RespondHelp => Some(HELP_TEXT@),
        Intent::RespondNickname(None) => Some(NO_NICKNAME_TEXT@),
        Intent::RespondNickname(Some(nickname)) => Some(nickname_text(nickname)),
    }
}

/// Whether `channel` is a channel of direct messages.
pub fn is_dm_channel(channel: &str) -> (dm: bool)
    ensures
        dm == is_dm(channel@),
{
    !channel.is_empty() && channel.get_char(0) == 'D'
}

/// Whether `message_text` mentions the account `bot_id`.
pub fn message_contains_mention(bot_id: &str, message_text: &str) -> (mentioned: bool)
    ensures
        mentioned == contains_run(message_text@, mention_of(bot_id@)),
{
    let id = chars_of(bot_id);
    let mut marker: Vec<char> = Vec::new();
    marker.push('<');
    marker.push('@');
    let mut i: usize = 0;
    while i < id.len()
        invariant
            i <= id.len(),
            marker@ =~= seq!['<', '@'] + id@.take(i as int),
        decreases id.len() - i,
    {
        marker.push(id[i]);
        i += 1;
    }
    marker.push('>');
    assert(id@.take(i as int) =~= id@);
    assert(marker@ =~= mention_of(bot_id@));
    let text = chars_of(message_text);
    first_occurrence(&text, &marker).is_some()
}

/// What is done about a message addressed to the bot, given the name that
/// was found in it.
pub fn intent_for_capture(table: &NicknameTable, captured: Option<&str>) -> (intent: IntentResult)
    ensures
        intent@ == intent_for(
            table@,
            match captured {
                Some(name) => Some(name@),
                None => None,
            },
        ),
{
    match captured {
        None => IntentResult::RespondHelp,
        Some(name) => {
            if trim(name).is_empty() {
                IntentResult::RespondNickname(None)
            } else {
                IntentResult::RespondNickname(resolve(table, name))
            }
        },
    }
}

/// What is done about `message` by the bot whose account is `own_bot_id`.
/// A message that is not addressed to the bot is not searched for a name.
pub fn classify(table: &NicknameTable, own_bot_id: &str, message: &ChatMessage) -> (intent:
    IntentResult)
    ensures
        intent@ == classification(table@, own_bot_id@, message.channel@, message.text@),
{
    if !is_dm_channel(message.channel.as_str()) && !message_contains_mention(
        own_bot_id,
        message.text.as_str(),
    ) {
        return IntentResult::Ignore;
    }
    let captured = extract_name(message.text.as_str());
    match &captured {
        None => intent_for_capture(table, None),
        Some(name) => intent_for_capture(table, Some(name.as_str())),
    }
}

/// The text to send for `intent`, if any is to be sent.
pub fn response_text(intent: &IntentResult) -> (text: Option<String>)
    ensures
        text.deep_view() == response_of(intent@),
{
    match intent {
        IntentResult::Ignore => None,
        IntentResult::RespondHelp => Some(HELP_TEXT.to_owned()),
        IntentResult::RespondNickname(None) => Some(NO_NICKNAME_TEXT.to_owned()),
        IntentResult::RespondNickname(Some(nickname)) => {
            let mut text = NICKNAME_OPENING.to_owned();
            text.append(nickname.as_str());
            text.append(NICKNAME_CLOSING);
            Some(text)
        },
    }
}

/// The message to send in answer to `message`, on the channel it came on;
/// none where the message is not addressed to the bot.
pub fn respond(table: &NicknameTable, own_bot_id: &str, message: &ChatMessage) -> (reply: Option<
    ChatMessage,
>)
    ensures
        match reply {
            Some(sent) => sent.channel@ == message.channel@ && Some(sent.text@) == response_of(
                classification(table@, own_bot_id@, message.channel@, message.text@),
            ),
            None => !addressed_to(own_bot_id@, message.channel@, message.text@),
        },
{
    let intent = classify(table, own_bot_id, message);
    match response_text(&intent) {
        None => None,
        Some(text) => Some(ChatMessage { channel: message.channel.clone(), text }),
    }
}

/// A message that comes on no channel of direct messages and does not
/// mention the bot is ignored, whatever else it holds.
pub proof fn lemma_unaddressed_is_ignored(
    table: Map<char, Seq<Seq<char>>>,
    bot_id: Seq<char>,
    channel: Seq<char>,
    text: Seq<char>,
)
    requires
        !is_dm(channel),
        !contains_run(text, mention_of(bot_id)),
    ensures
        classification(table, bot_id, channel, text) == Intent::Ignore,
        response_of(classification(table, bot_id, channel, text)) is None,
{
}

/// A message that is addressed to the bot is answered: with the help text
/// where no name was found in it, with a word on the nickname otherwise.
pub proof fn lemma_addressed_is_answered(
    table: Map<char, Seq<Seq<char>>>,
    bot_id: Seq<char>,
    channel: Seq<char>,
    text: Seq<char>,
)
    requires
        addressed_to(bot_id, channel, text),
    ensures
        !(classification(table, bot_id, channel, text) is Ignore),
        response_of(classification(table, bot_id, channel, text)) is Some,
        first_group(TRANSLATE_PATTERN@, text) is None <==> classification(
            table,
            bot_id,
            channel,
            text,
        ) == Intent::RespondHelp,
{
}

} // verus!
