//! The bot's data: its settings, its state, the chat messages it reads and
//! the steps it takes.

use vstd::prelude::*;
use vstd::string::StringExecFns;

verus! {

/// A message to be sent to a channel.
#[derive(Debug)]
pub struct SendMessageDto {
    pub message: String,
    pub channel: String,
}

/// The bot's settings.
#[derive(Debug)]
pub struct PokeConfig {
    pub missing_pokemon_ball: String,
    pub default_pokemon_ball: String,
    pub only_catch_missing: bool,
    pub skip_catching_pokemon: bool,
    pub should_buy_pokeball: bool,
    pub pokeball_buy_amount: u8,
    pub stop_on_no_money: bool,
}

/// The bot's state as one handler sees it: its two flags, the login of the
/// account it runs as, and its settings.
pub struct BotContext {
    pub pokemon_missing: bool,
    pub sent_pokecatch: bool,
    pub user_login: String,
    pub poke_config: PokeConfig,
}

/// A chat badge of the sender of a message.
#[derive(Clone, Copy, PartialEq, Eq, Debug)]
pub enum Badge {
    Staff,
    Turbo,
    Broadcaster,
    Moderator,
    Subscriber,
    Other,
}

/// A chat message in a channel.
pub struct ChatMessage {
    pub sender_id: String,
    pub sender_login: String,
    pub channel: String,
    pub text: String,
    pub badges: Vec<Badge>,
}

/// One step that the bot takes, in the order in which it is given.
pub enum Action {
    /// Store the flag that the last Pokémon is missing from the collection.
    SetPokemonMissing(bool),
    /// Store the flag that a catch command was sent for the last Pokémon.
    SetSentPokecatch(bool),
    /// Send a message.
    Send(SendMessageDto),
    /// Start a catch check for the given channel (see `check_for_pokemon`).
    CheckForPokemon(String),
}

pub struct SendMessageView {
    pub message: Seq<char>,
    pub channel: Seq<char>,
}

pub struct PokeConfigView {
    pub missing_pokemon_ball: Seq<char>,
    pub default_pokemon_ball: Seq<char>,
    pub only_catch_missing: bool,
    pub skip_catching_pokemon: bool,
    pub should_buy_pokeball: bool,
    pub pokeball_buy_amount: u8,
    pub stop_on_no_money: bool,
}

pub struct BotContextView {
    pub pokemon_missing: bool,
    pub sent_pokecatch: bool,
    pub user_login: Seq<char>,
    pub poke_config: PokeConfigView,
}

pub struct ChatMessageView {
    pub sender_id: Seq<char>,
    pub sender_login: Seq<char>,
    pub channel: Seq<char>,
    pub text: Seq<char>,
    pub badges: Seq<Badge>,
}

pub enum ActionView {
    SetPokemonMissing(bool),
    SetSentPokecatch(bool),
    Send(SendMessageView),
    CheckForPokemon(Seq<char>),
}

impl View for SendMessageDto {
    type V = SendMessageView;

    open spec fn view(&self) -> SendMessageView {
        SendMessageView { message: self.message@, channel: self.channel@ }
    }
}

impl View for PokeConfig {
    type V = PokeConfigView;

    open spec fn view(&self) -> PokeConfigView {
        PokeConfigView {
            missing_pokemon_ball: self.missing_pokemon_ball@,
            default_pokemon_ball: self.default_pokemon_ball@,
            only_catch_missing: self.only_catch_missing,
            skip_catching_pokemon: self.skip_catching_pokemon,
            should_buy_pokeball: self.should_buy_pokeball,
            pokeball_buy_amount: self.pokeball_buy_amount,
            stop_on_no_money: self.stop_on_no_money,
        }
    }
}

impl View for BotContext {
    type V = BotContextView;

    open spec fn view(&self) -> BotContextView {
        BotContextView {
            pokemon_missing: self.pokemon_missing,
            sent_pokecatch: self.sent_pokecatch,
            user_login: self.user_login@,
            poke_config: self.poke_config@,
        }
    }
}

impl View for ChatMessage {
    type V = ChatMessageView;

    open spec fn view(&self) -> ChatMessageView {
        ChatMessageView {
            sender_id: self.sender_id@,
            sender_login: self.sender_login@,
            channel: self.channel@,
            text: self.text@,
            badges: self.badges@,
        }
    }
}

impl View for Action {
    type V = ActionView;

    open spec fn view(&self) -> ActionView {
        match self {
            Action::SetPokemonMissing(b) => ActionView::SetPokemonMissing(*b),
            Action::SetSentPokecatch(b) => ActionView::SetSentPokecatch(*b),
            Action::Send(m) => ActionView::Send(m@),
            Action::CheckForPokemon(c) => ActionView::CheckForPokemon(c@),
        }
    }
}

/// The steps of a plan, each by its view.
pub open spec fn plan_view(plan: Seq<Action>) -> Seq<ActionView> {
    plan.map_values(|a: Action| a@)
}

/// The text of the command that asks which Pokémon has spawned.
pub open spec fn pokecheck_text() -> Seq<char> {
    "!pokecheck"@
}

impl SendMessageDto {
    /// The message that asks the Pokémon bot in `channel` which Pokémon
    /// has spawned.
    pub fn pokecheck(channel: String) -> (r: Self)
        ensures
            r.message@ == pokecheck_text(),
            r.channel == channel,
    {
        SendMessageDto { message: String::from_str("!pokecheck"), channel }
    }
}

} // verus!
