//! What the bot reads in the Pokémon bot's replies, and what it does on
//! each of them.

use vstd::prelude::*;
use vstd::utf8::*;
use vstd::string::StringSliceAdditionalSpecFns;
use crate::context::{
    Action, ActionView, BotContext, BotContextView, ChatMessage, ChatMessageView, PokeConfigView,
    SendMessageDto, SendMessageView, plan_view, pokecheck_text,
};
use crate::text::{
    after_first_space, chars_equal_from, chars_of, chars_start_with, contains_text, decimal,
    join_text, lowercase, same_text, split_after_space, text_contains, to_lowercase, u8_to_text,
};

verus! {

broadcast use {vstd::string::group_string_axioms, encode_utf8_valid_utf8, encode_utf8_decode_utf8};

/// The user id of the Pokémon bot whose messages are read.
pub open spec fn pokebot_id() -> Seq<char> {
    "519435394"@
}

/// The command that the Pokémon bot posts when a Pokémon spawns.
pub open spec fn spawn_marker() -> Seq<char> {
    "!pokecatch"@
}

/// A reply that ends with this mark says that the Pokémon is missing from
/// the collection.
pub open spec fn missing_mark() -> char {
    '❌'
}

/// The German reply to a catch with a ball that the user does not own.
pub open spec fn no_ball_de() -> Seq<char> {
    "Du besitzt diesen Ball nicht."@
}

/// The English reply to a catch with a ball that the user does not own.
pub open spec fn no_ball_en() -> Seq<char> {
    "You don’t own that ball."@
}

/// The English reply to a successful purchase.
pub open spec fn purchase_ok_en() -> Seq<char> {
    "Purchase successful!"@
}

/// The German reply to a successful purchase.
pub open spec fn purchase_ok_de() -> Seq<char> {
    "Kauf erfolgreich!"@
}

/// Whether a reply says that the Pokémon is missing from the collection:
/// it ends with the missing mark.
pub open spec fn says_missing(msg: Seq<char>) -> bool {
    msg.len() > 0 && msg.last() == missing_mark()
}

/// Whether a reply, past the mention that opens it (up to its first space),
/// says that the user has no such ball.
pub open spec fn says_no_pokeball(msg: Seq<char>) -> bool {
    match after_first_space(msg) {
        Some(m) => no_ball_de().is_prefix_of(m) || no_ball_en().is_prefix_of(m),
        None => false,
    }
}

/// Whether a reply, past the mention that opens it (up to its first space),
/// is the message of a successful purchase.
pub open spec fn says_purchase_ok(msg: Seq<char>) -> bool {
    match after_first_space(msg) {
        Some(m) => m == purchase_ok_en() || m == purchase_ok_de(),
        None => false,
    }
}

/// The number of bytes of `@` and the user name.
pub open spec fn mention_len(username: Seq<char>) -> int {
    encode_utf8(username).len() + 1int
}

/// Whether `message` opens with `@` and a name whose lower-case form is
/// `username`, the name taken as the bytes after `@` that `username` takes.
pub open spec fn mentions(message: Seq<char>, username: Seq<char>) -> bool {
    let bytes = encode_utf8(message);
    let n = mention_len(username);
    &&& bytes.len() >= n
    &&& bytes[0] == 64u8
    &&& lowercase(decode_utf8(bytes.subrange(1, n))) == username
}

/// The byte counts of the mention check fit a `usize`, as they do for any
/// text in memory.
pub open spec fn mention_lengths_fit(message: Seq<char>, username: Seq<char>) -> bool {
    &&& mention_len(username) <= usize::MAX
    &&& encode_utf8(message).len() <= usize::MAX
}

/// The inputs on which the mention check does not panic: the byte counts
/// fit, and where the message opens with `@` and is long enough, the name
/// ends on a character boundary.
pub open spec fn mention_check_defined(message: Seq<char>, username: Seq<char>) -> bool {
    let bytes = encode_utf8(message);
    let n = mention_len(username);
    &&& mention_lengths_fit(message, username)
    &&& (bytes.len() >= n && bytes[0] == 64u8) ==> is_char_boundary(bytes, n)
}

/// Whether the mention check is defined on these texts (see
/// `mention_check_defined`).
pub fn mention_check_is_defined(message: &str, username: &str) -> (r: bool)
    requires
        mention_lengths_fit(message@, username@),
    ensures
        r == mention_check_defined(message@, username@),
{
    let expected_len = username.len() + 1;
    if message.len() < expected_len {
        return true;
    }
    let bytes = message.as_bytes();
    if bytes[0] != 64u8 {
        return true;
    }
    message.is_char_boundary(expected_len)
}

/// Whether the message says that the Pokémon is missing from the
/// collection.
pub fn is_pokemon_missing(msg: &str) -> (r: bool)
    ensures
        r == says_missing(msg@),
{
    let v = chars_of(msg);
    let n = v.len();
    n > 0 && v[n - 1] == '❌'
}

/// Whether the message says that the user does not own the ball that was
/// thrown.
pub fn has_no_pokeball(msg: &str) -> (r: bool)
    ensures
        r == says_no_pokeball(msg@),
{
    match split_after_space(msg) {
        Some(rest) => {
            let de = chars_start_with(&rest, 0, "Du besitzt diesen Ball nicht.");
            let en = chars_start_with(&rest, 0, "You don’t own that ball.");
            assert(rest@.skip(0) =~= rest@);
            de || en
        },
        None => false,
    }
}

/// Whether the message says that a purchase succeeded.
pub fn purchase_successful(msg: &str) -> (r: bool)
    ensures
        r == says_purchase_ok(msg@),
{
    match split_after_space(msg) {
        Some(rest) => {
            let en = chars_equal_from(&rest, 0, "Purchase successful!");
            let de = chars_equal_from(&rest, 0, "Kauf erfolgreich!");
            assert(rest@.skip(0) =~= rest@);
            en || de
        },
        None => false,
    }
}

/// Whether the message opens with a mention of `username`: `@` and then,
/// over as many bytes as `username` takes, a name whose lower-case form is
/// `username`.
pub fn starts_with_mention(message: &str, username: &str) -> (r: bool)
    requires
        mention_check_defined(message@, username@),
    ensures
        r == mentions(message@, username@),
{
    let expected_len = username.len() + 1;
    if message.len() < expected_len {
        return false;
    }
    let bytes = message.as_bytes();
    if bytes[0] != 64u8 {
        return false;
    }
    let ghost b = message.spec_bytes();
    let (head, _) = message.split_at(expected_len);
    let ghost hb = head.spec_bytes();
    proof {
        assert(hb =~= b.subrange(0, expected_len as int));
        assert(hb[0] == 64u8);
        assert(is_leading_byte_width_1(hb[0]));
        assert(is_char_boundary(hb, 1)) by {
            reveal_with_fuel(is_char_boundary, 2);
            assert(length_of_first_scalar(hb) == 1);
        }
    }
    let (_, name) = head.split_at(1);
    proof {
        assert(name.spec_bytes() =~= b.subrange(1, expected_len as int));
    }
    let lowered = to_lowercase(name);
    same_text(lowered.as_str(), username)
}

/// The ball to throw: the one for missing Pokémon while the flag says that
/// the last one is missing, else the default one.
pub open spec fn pokeball(missing: bool, config: PokeConfigView) -> Seq<char> {
    if missing {
        config.missing_pokemon_ball
    } else {
        config.default_pokemon_ball
    }
}

/// The command that throws `ball`.
pub open spec fn catch_text(ball: Seq<char>) -> Seq<char> {
    "!pokecatch "@ + ball
}

/// The command that buys `amount` balls of kind `ball`.
pub open spec fn shop_text(ball: Seq<char>, amount: u8) -> Seq<char> {
    "!pokeshop "@ + ball + " "@ + decimal(amount as nat)
}

/// A message to `channel` with the text `message`.
pub open spec fn send(channel: Seq<char>, message: Seq<char>) -> ActionView {
    ActionView::Send(SendMessageView { message, channel })
}

/// The ball to throw, as the context's flag says.
pub fn get_pokeball(context: &BotContext) -> (r: &str)
    ensures
        r@ == pokeball(context.pokemon_missing, context.poke_config@),
{
    if context.pokemon_missing {
        context.poke_config.missing_pokemon_ball.as_str()
    } else {
        context.poke_config.default_pokemon_ball.as_str()
    }
}

/// The steps for a reply that says the Pokémon is missing, given that the
/// catch is not skipped: mark it missing, mark the catch sent, and throw the
/// ball for missing Pokémon.
pub open spec fn missing_steps(m: ChatMessageView, c: BotContextView) -> Seq<ActionView> {
    seq![
        ActionView::SetPokemonMissing(true),
        ActionView::SetSentPokecatch(true),
        send(m.channel, catch_text(c.poke_config.missing_pokemon_ball)),
    ]
}

/// The steps for a reply about balls, where the bot buys them: after "no such
/// ball", buy more of the ball it would throw; after a successful purchase,
/// mark the catch sent and throw that ball.
pub open spec fn buy_steps(m: ChatMessageView, missing: bool, config: PokeConfigView) -> Seq<ActionView> {
    if !config.should_buy_pokeball {
        seq![]
    } else if says_no_pokeball(m.text) {
        seq![send(m.channel, shop_text(pokeball(missing, config), config.pokeball_buy_amount))]
    } else if says_purchase_ok(m.text) {
        seq![
            ActionView::SetSentPokecatch(true),
            send(m.channel, catch_text(pokeball(missing, config))),
        ]
    } else {
        seq![]
    }
}

/// What the bot does on a chat message, in order.
/// - A message from anyone but the Pokémon bot: nothing.
/// - A spawn (the text holds `!pokecatch`): start a catch check.
/// - A reply that does not mention the bot's user: nothing.
/// - A reply that says the Pokémon is missing: mark it missing; unless
///   catches are skipped (then nothing more), mark the catch sent and throw
///   the ball for missing Pokémon, and go on with the ball steps.
/// - Else the ball steps alone.
pub open spec fn pokemon_plan(m: ChatMessageView, c: BotContextView) -> Seq<ActionView> {
    if m.sender_id != pokebot_id() {
        seq![]
    } else if text_contains(m.text, spawn_marker()) {
        seq![ActionView::CheckForPokemon(m.channel)]
    } else if !mentions(m.text, c.user_login) {
        seq![]
    } else if says_missing(m.text) {
        if c.poke_config.skip_catching_pokemon {
            seq![ActionView::SetPokemonMissing(true)]
        } else {
            missing_steps(m, c) + buy_steps(m, true, c.poke_config)
        }
    } else {
        buy_steps(m, c.pokemon_missing, c.poke_config)
    }
}

/// The inputs on which `handle_pokemon_message` does not panic: where the
/// mention is checked, the check is defined.
pub open spec fn pokemon_message_defined(m: ChatMessageView, c: BotContextView) -> bool {
    (m.sender_id == pokebot_id() && !text_contains(m.text, spawn_marker()))
        ==> mention_check_defined(m.text, c.user_login)
}

/// Whether `handle_pokemon_message` is defined on these inputs (see
/// `pokemon_message_defined`).
pub fn pokemon_message_is_defined(message: &ChatMessage, context: &BotContext) -> (r: bool)
    requires
        mention_lengths_fit(message.text@, context.user_login@),
    ensures
        r == pokemon_message_defined(message@, context@),
{
    if same_text(message.sender_id.as_str(), "519435394") && !contains_text(
        message.text.as_str(),
        "!pokecatch",
    ) {
        mention_check_is_defined(message.text.as_str(), context.user_login.as_str())
    } else {
        true
    }
}

fn ball_for(missing: bool, context: &BotContext) -> (r: &str)
    ensures
        r@ == pokeball(missing, context.poke_config@),
{
    if missing {
        context.poke_config.missing_pokemon_ball.as_str()
    } else {
        context.poke_config.default_pokemon_ball.as_str()
    }
}

fn catch_message(channel: &String, ball: &str) -> (r: Action)
    ensures
        r@ == send(channel@, catch_text(ball@)),
{
    Action::Send(SendMessageDto { message: join_text("!pokecatch ", ball), channel: channel.clone() })
}

fn shop_message(channel: &String, ball: &str, amount: u8) -> (r: Action)
    ensures
        r@ == send(channel@, shop_text(ball@, amount)),
{
    let head = join_text("!pokeshop ", ball);
    let head = join_text(head.as_str(), " ");
    let count = u8_to_text(amount);
    let text = join_text(head.as_str(), count.as_str());
    Action::Send(SendMessageDto { message: text, channel: channel.clone() })
}

/// The steps that the bot takes on a chat message, in order
/// (see `pokemon_plan`).
pub fn handle_pokemon_message(message: &ChatMessage, context: &BotContext) -> (plan: Vec<Action>)
    requires
        pokemon_message_defined(message@, context@),
    ensures
        plan_view(plan@) == pokemon_plan(message@, context@),
{
    let ghost m = message@;
    let ghost c = context@;
    let mut plan: Vec<Action> = Vec::new();
    let text = message.text.as_str();
    if !same_text(message.sender_id.as_str(), "519435394") {
        assert(plan_view(plan@) =~= pokemon_plan(m, c));
        return plan;
    }
    if contains_text(text, "!pokecatch") {
        plan.push(Action::CheckForPokemon(message.channel.clone()));
        assert(plan_view(plan@) =~= pokemon_plan(m, c));
        return plan;
    }
    if !starts_with_mention(text, context.user_login.as_str()) {
        assert(plan_view(plan@) =~= pokemon_plan(m, c));
        return plan;
    }
    let mut missing = context.pokemon_missing;
    let config = &context.poke_config;
    let is_missing = is_pokemon_missing(text);
    if is_missing {
        plan.push(Action::SetPokemonMissing(true));
        missing = true;
        if config.skip_catching_pokemon {
            assert(plan_view(plan@) =~= pokemon_plan(m, c));
            return plan;
        }
        plan.push(Action::SetSentPokecatch(true));
        plan.push(catch_message(&message.channel, config.missing_pokemon_ball.as_str()));
        assert(plan_view(plan@) =~= missing_steps(m, c));
    }
    let ghost before = plan_view(plan@);
    assert(before == if is_missing { missing_steps(m, c) } else { seq![] });
    if config.should_buy_pokeball {
        if has_no_pokeball(text) {
            let ball = ball_for(missing, context);
            plan.push(shop_message(&message.channel, ball, config.pokeball_buy_amount));
            assert(plan_view(plan@) =~= before + buy_steps(m, missing, c.poke_config));
            assert(plan_view(plan@) =~= pokemon_plan(m, c));
            return plan;
        }
        if purchase_successful(text) {
            plan.push(Action::SetSentPokecatch(true));
            let ball = ball_for(missing, context);
            plan.push(catch_message(&message.channel, ball));
        }
    }
    assert(plan_view(plan@) =~= before + buy_steps(m, missing, c.poke_config));
    assert(plan_view(plan@) =~= pokemon_plan(m, c));
    plan
}

/// Seconds that a catch check waits for the Pokémon bot's reply before it
/// throws a ball.
pub const CHECK_WAIT_SECONDS: u64 = 3;

/// The two stages of a catch check: on a spawn, and after the wait.
#[derive(Clone, Copy, PartialEq, Eq, Debug)]
pub enum CheckStage {
    Begin,
    AfterWait,
}

/// What one stage of a catch check does: its steps, in order, and, where
/// the check goes on, the seconds to wait before its `AfterWait` stage.
pub struct CheckStep {
    pub actions: Vec<Action>,
    pub wait_seconds: Option<u64>,
}

/// The steps of a catch check's stage.
/// - `Begin`: clear both flags and ask which Pokémon spawned.
/// - `AfterWait`: nothing where a catch was sent meanwhile, or where only
///   missing Pokémon are caught and the flag says this one is missing; else
///   mark the catch sent and throw the ball that the flag selects.
pub open spec fn check_plan(stage: CheckStage, channel: Seq<char>, c: BotContextView) -> Seq<ActionView> {
    match stage {
        CheckStage::Begin => seq![
            ActionView::SetPokemonMissing(false),
            ActionView::SetSentPokecatch(false),
            send(channel, pokecheck_text()),
        ],
        CheckStage::AfterWait => {
            if c.sent_pokecatch {
                seq![]
            } else if c.poke_config.only_catch_missing && c.pokemon_missing {
                seq![]
            } else {
                seq![
                    ActionView::SetSentPokecatch(true),
                    send(channel, catch_text(pokeball(c.pokemon_missing, c.poke_config))),
                ]
            }
        },
    }
}

/// Whether the check waits after the stage: only after `Begin`, and only
/// where catches are not skipped.
pub open spec fn check_waits(stage: CheckStage, c: BotContextView) -> bool {
    stage == CheckStage::Begin && !c.poke_config.skip_catching_pokemon
}

/// One stage of the catch check that a spawn in `channel` starts; `context`
/// holds the flags as they are when the stage runs.
pub fn check_for_pokemon(stage: CheckStage, channel: &String, context: &BotContext) -> (r: CheckStep)
    ensures
        plan_view(r.actions@) == check_plan(stage, channel@, context@),
        r.wait_seconds == (if check_waits(stage, context@) {
            Some(CHECK_WAIT_SECONDS)
        } else {
            None::<u64>
        }),
{
    let mut actions: Vec<Action> = Vec::new();
    match stage {
        CheckStage::Begin => {
            actions.push(Action::SetPokemonMissing(false));
            actions.push(Action::SetSentPokecatch(false));
            actions.push(Action::Send(SendMessageDto::pokecheck(channel.clone())));
            assert(plan_view(actions@) =~= check_plan(stage, channel@, context@));
            if context.poke_config.skip_catching_pokemon {
                CheckStep { actions, wait_seconds: None }
            } else {
                CheckStep { actions, wait_seconds: Some(CHECK_WAIT_SECONDS) }
            }
        },
        CheckStage::AfterWait => {
            if !context.sent_pokecatch && !(context.poke_config.only_catch_missing
                && context.pokemon_missing) {
                actions.push(Action::SetSentPokecatch(true));
                actions.push(catch_message(channel, get_pokeball(context)));
            }
            assert(plan_view(actions@) =~= check_plan(stage, channel@, context@));
            CheckStep { actions, wait_seconds: None }
        },
    }
}

} // verus!
