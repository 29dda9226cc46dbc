//! Where each incoming chat message goes, and the stop command.

use vstd::prelude::*;
use vstd::string::StringExecFns;
use crate::context::{Action, Badge, BotContext, ChatMessage, plan_view};
use crate::pokemon::{handle_pokemon_message, pokemon_message_defined, pokemon_plan};
use crate::text::{join_text, same_text};

verus! {

/// A chat message as the bot tells its kinds apart.
pub enum IncomingMessage {
    /// A user joined a channel.
    Join { user: String, channel: String },
    /// The server asks the client to reconnect.
    Reconnect,
    /// The server checks that the client is alive.
    Ping,
    /// A message in a channel.
    Privmsg(ChatMessage),
    /// Any other message.
    Other,
}

/// What the bot does with an incoming message.
pub enum Route {
    /// Note that the bot's own user joined the channel.
    Joined(String),
    /// Reconnect, then join these channels again.
    Reconnect(Vec<String>),
    /// Answer the ping.
    Pong,
    /// Take these steps (see `handle_pokemon_message`).
    Pokemon(Vec<Action>),
    /// Nothing.
    Ignore,
}

/// The channel that the bot joins.
pub open spec fn home_channel() -> Seq<char> {
    "migisch"@
}

/// The channels that the bot joins, on start and after a reconnect.
pub fn joined_channels() -> (r: Vec<String>)
    ensures
        r@.len() == 1,
        r@[0]@ == home_channel(),
{
    let mut r: Vec<String> = Vec::new();
    r.push(String::from_str("migisch"));
    r
}

/// The inputs on which `handle_message` does not panic.
pub open spec fn message_defined(msg: &IncomingMessage, context: &BotContext) -> bool {
    msg matches IncomingMessage::Privmsg(p) ==> pokemon_message_defined(p@, context@)
}

/// Where an incoming message goes: the bot's own join is noted, a reconnect
/// request rejoins the channels, a ping is answered, a channel message goes
/// to the Pokémon handler, and anything else is ignored.
pub fn handle_message(msg: &IncomingMessage, context: &BotContext) -> (r: Route)
    requires
        message_defined(msg, context),
    ensures
        match msg {
            IncomingMessage::Join { user, channel } => if user@ == context.user_login@ {
                r matches Route::Joined(c) && c@ == channel@
            } else {
                r is Ignore
            },
            IncomingMessage::Reconnect => r matches Route::Reconnect(chs) && chs@.len() == 1
                && chs@[0]@ == home_channel(),
            IncomingMessage::Ping => r is Pong,
            IncomingMessage::Privmsg(p) => r matches Route::Pokemon(plan) && plan_view(plan@)
                == pokemon_plan(p@, context@),
            IncomingMessage::Other => r is Ignore,
        },
{
    match msg {
        IncomingMessage::Join { user, channel } => {
            if same_text(user.as_str(), context.user_login.as_str()) {
                Route::Joined(channel.clone())
            } else {
                Route::Ignore
            }
        },
        IncomingMessage::Reconnect => Route::Reconnect(joined_channels()),
        IncomingMessage::Ping => Route::Pong,
        IncomingMessage::Privmsg(p) => Route::Pokemon(handle_pokemon_message(p, context)),
        IncomingMessage::Other => Route::Ignore,
    }
}

/// The command by which the bot's own user stops the bot.
pub open spec fn stop_command() -> Seq<char> {
    "!stopme"@
}

/// The command by which the channel's broadcaster stops the bot of `login`.
pub open spec fn broadcaster_stop_command(login: Seq<char>) -> Seq<char> {
    "!stopme @"@ + login
}

/// Whether the message stops the bot: the bot's own user sent `!stopme`, or
/// a sender with the broadcaster badge sent `!stopme @` and the bot's login.
pub open spec fn stops_bot(m: crate::context::ChatMessageView, login: Seq<char>) -> bool {
    ||| m.sender_login == login && m.text == stop_command()
    ||| (exists|i: int| 0 <= i < m.badges.len() && m.badges[i] == Badge::Broadcaster)
        && m.text == broadcaster_stop_command(login)
}

fn has_broadcaster_badge(badges: &Vec<Badge>) -> (r: bool)
    ensures
        r == exists|i: int| 0 <= i < badges@.len() && badges@[i] == Badge::Broadcaster,
{
    let mut i: usize = 0;
    while i < badges.len()
        invariant
            i <= badges@.len(),
            forall|j: int| 0 <= j < i ==> badges@[j] != Badge::Broadcaster,
        decreases badges.len() - i,
    {
        match badges[i] {
            Badge::Broadcaster => {
                return true;
            },
            _ => {},
        }
        i = i + 1;
    }
    false
}

/// Whether the message tells the bot to stop itself (see `stops_bot`).
pub fn should_self_destruct(message: &ChatMessage, context: &BotContext) -> (r: bool)
    ensures
        r == stops_bot(message@, context.user_login@),
{
    let text = message.text.as_str();
    if same_text(message.sender_login.as_str(), context.user_login.as_str()) && same_text(
        text,
        "!stopme",
    ) {
        return true;
    }
    if has_broadcaster_badge(&message.badges) {
        let expected = join_text("!stopme @", context.user_login.as_str());
        return same_text(text, expected.as_str());
    }
    false
}

} // verus!
