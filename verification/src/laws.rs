//! Properties that hold of the bot's decisions on every input.

use vstd::prelude::*;
use vstd::utf8::{
    char_is_scalar, char_u32_cast, encode_scalar, encode_utf8, encode_utf8_decode_utf8,
    has_width_1_encoding, has_width_2_encoding, has_width_3_encoding, leading_byte_width_1,
    leading_byte_width_2, leading_byte_width_3, leading_byte_width_4,
};
use crate::config::{
    PokeConfigLoaderView, config_from_loader, default_config, loader_from_config,
};
use crate::context::{ActionView, BotContextView, ChatMessageView, PokeConfigView, pokecheck_text};
use crate::message::stops_bot;
use crate::pokemon::{
    mentions, no_ball_de, no_ball_en, purchase_ok_de, purchase_ok_en, says_no_pokeball,
    says_purchase_ok, spawn_marker,
};
use crate::text::{after_first_space, decimal, text_contains};
use crate::pokemon::{
    CheckStage, buy_steps, catch_text, check_plan, check_waits, missing_steps, pokebot_id,
    pokemon_plan, says_missing, send, shop_text,
};
use crate::token::{TokenAction, TokenError, TokenEvent, TokenStage, accepts, token_transition};

verus! {

/// Whether a step sends a command that throws a ball.
pub open spec fn is_catch_command(a: ActionView) -> bool {
    a matches ActionView::Send(m) && "!pokecatch "@.is_prefix_of(m.message)
}

/// Whether a step sends a command that buys balls.
pub open spec fn is_shop_command(a: ActionView) -> bool {
    a matches ActionView::Send(m) && "!pokeshop "@.is_prefix_of(m.message)
}

/// Whether every ball thrown in the plan comes right after the step that
/// marks the catch as sent.
pub open spec fn catches_marked(p: Seq<ActionView>) -> bool {
    forall|i: int|
        0 <= i < p.len() && #[trigger] is_catch_command(p[i]) ==> i > 0 && p[i - 1]
            == ActionView::SetSentPokecatch(true)
}

/// Whether every message of the plan goes to `channel`.
pub open spec fn sends_only_to(p: Seq<ActionView>, channel: Seq<char>) -> bool {
    forall|i: int|
        0 <= i < p.len() ==> (#[trigger] p[i] matches ActionView::Send(m) ==> m.channel
            == channel)
}

proof fn catch_text_is_catch(channel: Seq<char>, ball: Seq<char>)
    ensures
        is_catch_command(send(channel, catch_text(ball))),
{
    let t = catch_text(ball);
    assert("!pokecatch "@ =~= t.subrange(0, "!pokecatch "@.len() as int));
}

proof fn shop_text_is_no_catch(channel: Seq<char>, ball: Seq<char>, amount: u8)
    ensures
        !is_catch_command(send(channel, shop_text(ball, amount))),
        is_shop_command(send(channel, shop_text(ball, amount))),
{
    reveal_strlit("!pokecatch ");
    reveal_strlit("!pokeshop ");
    let t = shop_text(ball, amount);
    assert(t[5] == 's');
    assert("!pokeshop "@ =~= t.subrange(0, "!pokeshop "@.len() as int));
}

proof fn pokecheck_is_no_catch(channel: Seq<char>)
    ensures
        !is_catch_command(send(channel, pokecheck_text())),
        !is_shop_command(send(channel, pokecheck_text())),
{
    reveal_strlit("!pokecatch ");
    reveal_strlit("!pokeshop ");
    reveal_strlit("!pokecheck");
    let t = pokecheck_text();
    assert(t[6] == 'h');
    assert(t[5] == 'c');
    if "!pokeshop "@.is_prefix_of(t) {
        assert(t.subrange(0, 10)[5] == "!pokeshop "@[5]);
    }
}

proof fn catch_text_is_no_shop(channel: Seq<char>, ball: Seq<char>)
    ensures
        !is_shop_command(send(channel, catch_text(ball))),
{
    reveal_strlit("!pokecatch ");
    reveal_strlit("!pokeshop ");
    let t = catch_text(ball);
    assert(t[5] == 'c');
    if "!pokeshop "@.is_prefix_of(t) {
        assert(t.subrange(0, 10)[5] == "!pokeshop "@[5]);
    }
}

/// Settings that are written and read back are the settings that were
/// written, but for `stop_on_no_money`, which is not stored and reads as
/// `false`.
pub proof fn config_round_trip(c: PokeConfigView)
    ensures
        config_from_loader(loader_from_config(c)) == (PokeConfigView { stop_on_no_money: false, ..c }),
{
}

/// The default settings that are written where none could be read read back
/// as the default settings.
pub proof fn default_config_round_trip()
    ensures
        config_from_loader(loader_from_config(default_config())) == default_config(),
{
}

/// Stored settings with no value at all read as the default settings.
pub proof fn empty_loader_is_default()
    ensures
        config_from_loader(
            PokeConfigLoaderView {
                missing_pokemon_ball: None,
                default_pokemon_ball: None,
                only_catch_missing: None,
                skip_catching_pokemon: None,
                should_buy_pokeball: None,
                pokeball_buy_amount: None,
            },
        ) == default_config(),
{
}

/// The bot takes no step on a message from anyone but the Pokémon bot.
pub proof fn only_pokebot_is_heard(m: ChatMessageView, c: BotContextView)
    requires
        m.sender_id != pokebot_id(),
    ensures
        pokemon_plan(m, c).len() == 0,
{
}

/// Every message that the bot sends on a chat message goes to the channel
/// of that message, and every message of a catch check goes to the check's
/// channel.
pub proof fn replies_stay_in_channel(m: ChatMessageView, c: BotContextView, stage: CheckStage, channel: Seq<char>)
    ensures
        sends_only_to(pokemon_plan(m, c), m.channel),
        sends_only_to(check_plan(stage, channel, c), channel),
{
    let p = pokemon_plan(m, c);
    let missing = if says_missing(m.text) { true } else { c.pokemon_missing };
    let b = buy_steps(m, missing, c.poke_config);
    let ms = missing_steps(m, c);
    assert forall|i: int| 0 <= i < p.len() implies (#[trigger] p[i] matches ActionView::Send(x) ==> x.channel == m.channel) by {
        if p == ms + b && i >= ms.len() {
            assert(p[i] == b[i - ms.len()]);
        }
    }
}

/// Every ball that the bot throws, on a chat message or in a catch check,
/// comes right after the step that marks the catch as sent.
pub proof fn catch_is_marked_before_throw(m: ChatMessageView, c: BotContextView, stage: CheckStage, channel: Seq<char>)
    ensures
        catches_marked(pokemon_plan(m, c)),
        catches_marked(check_plan(stage, channel, c)),
{
    let p = pokemon_plan(m, c);
    let missing = if says_missing(m.text) { true } else { c.pokemon_missing };
    let b = buy_steps(m, missing, c.poke_config);
    let ms = missing_steps(m, c);
    catch_text_is_catch(m.channel, c.poke_config.missing_pokemon_ball);
    shop_text_is_no_catch(
        m.channel,
        crate::pokemon::pokeball(missing, c.poke_config),
        c.poke_config.pokeball_buy_amount,
    );
    assert forall|i: int| 0 <= i < p.len() && #[trigger] is_catch_command(p[i]) implies i > 0 && p[i - 1]
        == ActionView::SetSentPokecatch(true) by {
        if p == ms + b && i >= ms.len() {
            assert(p[i] == b[i - ms.len()]);
            assert(p[i - 1] == (ms + b)[i - 1]);
        }
    }
    let q = check_plan(stage, channel, c);
    pokecheck_is_no_catch(channel);
    assert forall|i: int| 0 <= i < q.len() && #[trigger] is_catch_command(q[i]) implies i > 0 && q[i - 1]
        == ActionView::SetSentPokecatch(true) by {
    }
}

/// Where the bot does not buy balls, it never sends a shop command.
pub proof fn no_shopping_unless_enabled(m: ChatMessageView, c: BotContextView, stage: CheckStage, channel: Seq<char>)
    requires
        !c.poke_config.should_buy_pokeball,
    ensures
        forall|i: int| 0 <= i < pokemon_plan(m, c).len() ==> !is_shop_command(#[trigger] pokemon_plan(m, c)[i]),
        forall|i: int| 0 <= i < check_plan(stage, channel, c).len() ==> !is_shop_command(#[trigger] check_plan(stage, channel, c)[i]),
{
    catch_text_is_no_shop(m.channel, c.poke_config.missing_pokemon_ball);
    catch_text_is_no_shop(channel, crate::pokemon::pokeball(c.pokemon_missing, c.poke_config));
    pokecheck_is_no_catch(channel);
    let p = pokemon_plan(m, c);
    let ms = missing_steps(m, c);
    assert forall|i: int| 0 <= i < p.len() implies !is_shop_command(#[trigger] p[i]) by {
        if p.len() == 3 {
            assert(p == ms + seq![]);
        }
    }
}

/// A catch check begins by clearing both flags and asking which Pokémon
/// spawned; where catches are skipped it ends there, throwing nothing.
pub proof fn check_begins_cleared(channel: Seq<char>, c: BotContextView)
    ensures
        check_plan(CheckStage::Begin, channel, c) == seq![
            ActionView::SetPokemonMissing(false),
            ActionView::SetSentPokecatch(false),
            send(channel, pokecheck_text()),
        ],
        c.poke_config.skip_catching_pokemon ==> !check_waits(CheckStage::Begin, c),
        !check_waits(CheckStage::AfterWait, c),
{
}

/// Once a catch was sent for the Pokémon, the check after the wait throws
/// no second ball; nor does it where only missing Pokémon are caught and
/// this one is missing.
pub proof fn no_second_throw(channel: Seq<char>, c: BotContextView)
    requires
        c.sent_pokecatch || (c.poke_config.only_catch_missing && c.pokemon_missing),
    ensures
        check_plan(CheckStage::AfterWait, channel, c).len() == 0,
{
}

/// Where catches are skipped, a reply that says the Pokémon is missing only
/// marks it missing.
pub proof fn skip_only_marks_missing(m: ChatMessageView, c: BotContextView)
    requires
        c.poke_config.skip_catching_pokemon,
        says_missing(m.text),
        m.sender_id == pokebot_id(),
        !crate::text::text_contains(m.text, crate::pokemon::spawn_marker()),
        crate::pokemon::mentions(m.text, c.user_login),
    ensures
        pokemon_plan(m, c) == seq![ActionView::SetPokemonMissing(true)],
{
}

/// The rank of a stage of the token flow; every step raises it.
pub open spec fn stage_rank(s: TokenStage) -> int {
    match s {
        TokenStage::Start => 0,
        TokenStage::CheckingStored => 1,
        TokenStage::Refreshing => 2,
        TokenStage::CheckingRefreshed => 3,
        TokenStage::Finished => 4,
    }
}

/// Every step of the token flow moves it forward, so that it ends after at
/// most four steps, and nothing follows its end.
pub proof fn token_flow_progresses(stage: TokenStage, event: TokenEvent)
    ensures
        accepts(stage, event) ==> stage_rank(token_transition(stage, event).0) > stage_rank(stage),
        !accepts(TokenStage::Finished, event),
{
}

/// A token is used only after the service accepted it: the stored one after
/// its check, the refreshed one after its own; an event out of order fails
/// the flow.
pub proof fn token_used_only_when_accepted(stage: TokenStage, event: TokenEvent)
    ensures
        token_transition(stage, event).1 == TokenAction::UseStored ==> event
            == (TokenEvent::StoredChecked { valid: true }),
        token_transition(stage, event).1 == TokenAction::UseRefreshed ==> event
            == (TokenEvent::RefreshedChecked { valid: true }),
        token_transition(stage, event).1 == TokenAction::RequestNewToken ==> event
            == (TokenEvent::Begin { has_stored: false }),
        !accepts(stage, event) ==> token_transition(stage, event) == (
        TokenStage::Finished,
        TokenAction::Fail(TokenError::UnexpectedEvent),
        ),
{
}

/// The state after one step: the two flag steps set their flag, the others
/// leave the state as it is.
pub open spec fn apply_step(a: ActionView, c: BotContextView) -> BotContextView {
    match a {
        ActionView::SetPokemonMissing(b) => BotContextView { pokemon_missing: b, ..c },
        ActionView::SetSentPokecatch(b) => BotContextView { sent_pokecatch: b, ..c },
        _ => c,
    }
}

/// The state after the steps of a plan, taken in order.
pub open spec fn apply_steps(p: Seq<ActionView>, c: BotContextView) -> BotContextView
    decreases p.len(),
{
    if p.len() == 0 {
        c
    } else {
        apply_steps(p.drop_first(), apply_step(p[0], c))
    }
}

proof fn apply_steps_concat(p: Seq<ActionView>, q: Seq<ActionView>, c: BotContextView)
    ensures
        apply_steps(p + q, c) == apply_steps(q, apply_steps(p, c)),
    decreases p.len(),
{
    if p.len() > 0 {
        assert((p + q).drop_first() =~= p.drop_first() + q);
        apply_steps_concat(p.drop_first(), q, apply_step(p[0], c));
    } else {
        assert(p + q =~= q);
    }
}

/// Once the bot throws a ball on a reply of the Pokémon bot, the catch check
/// that waits for that reply throws no second ball.
pub proof fn reply_catch_stops_check_throw(m: ChatMessageView, c: BotContextView, channel: Seq<char>)
    requires
        exists|i: int| 0 <= i < pokemon_plan(m, c).len() && #[trigger] is_catch_command(pokemon_plan(m, c)[i]),
    ensures
        check_plan(CheckStage::AfterWait, channel, apply_steps(pokemon_plan(m, c), c)).len() == 0,
{
    let p = pokemon_plan(m, c);
    let missing = if says_missing(m.text) { true } else { c.pokemon_missing };
    let b = buy_steps(m, missing, c.poke_config);
    let ms = missing_steps(m, c);
    let i = choose|i: int| 0 <= i < p.len() && #[trigger] is_catch_command(p[i]);
    reveal_with_fuel(apply_steps, 4);
    shop_text_is_no_catch(
        m.channel,
        crate::pokemon::pokeball(missing, c.poke_config),
        c.poke_config.pokeball_buy_amount,
    );
    if p == ms + b {
        apply_steps_concat(ms, b, c);
        let c1 = apply_steps(ms, c);
        assert(c1.sent_pokecatch);
        assert(apply_steps(b, c1).sent_pokecatch);
    } else {
        assert(apply_steps(p, c).sent_pokecatch);
    }
}

/// Where no reply comes between the two stages of a catch check, the check
/// throws the default ball once, whatever the flags were before it began.
pub proof fn check_alone_throws_default(channel: Seq<char>, c: BotContextView)
    ensures
        check_plan(
            CheckStage::AfterWait,
            channel,
            apply_steps(check_plan(CheckStage::Begin, channel, c), c),
        ) == seq![
            ActionView::SetSentPokecatch(true),
            send(channel, "!pokecatch "@ + c.poke_config.default_pokemon_ball),
        ],
{
    reveal_with_fuel(apply_steps, 4);
}

/// The ball that the flag selects, in the settings' own terms.
pub open spec fn flag_ball(c: BotContextView) -> Seq<char> {
    if c.pokemon_missing {
        c.poke_config.missing_pokemon_ball
    } else {
        c.poke_config.default_pokemon_ball
    }
}

proof fn prefix_of_concat(p: Seq<char>, s: Seq<char>)
    ensures
        p.is_prefix_of(p + s),
{
    assert(p =~= (p + s).subrange(0, p.len() as int));
}

proof fn not_prefix_at(p: Seq<char>, t: Seq<char>, i: int)
    requires
        0 <= i < p.len(),
        i < t.len(),
        p[i] != t[i],
    ensures
        !p.is_prefix_of(t),
{
    if p.is_prefix_of(t) {
        assert(t.subrange(0, p.len() as int)[i] == p[i]);
    }
}

/// A reply that, past its mention, opens with either "no such ball" sentence
/// says that the user has no such ball, whatever follows the sentence.
pub proof fn no_ball_reply_is_recognised(msg: Seq<char>, suffix: Seq<char>)
    ensures
        after_first_space(msg) == Some(no_ball_de() + suffix) ==> says_no_pokeball(msg),
        after_first_space(msg) == Some(no_ball_en() + suffix) ==> says_no_pokeball(msg),
        says_no_pokeball(msg) ==> exists|rest: Seq<char>|
            after_first_space(msg) == Some(no_ball_de() + rest) || after_first_space(msg)
                == Some(no_ball_en() + rest),
{
    prefix_of_concat(no_ball_de(), suffix);
    prefix_of_concat(no_ball_en(), suffix);
    if says_no_pokeball(msg) {
        let m = after_first_space(msg)->0;
        if no_ball_de().is_prefix_of(m) {
            let rest = m.skip(no_ball_de().len() as int);
            assert(m =~= no_ball_de() + rest);
        } else {
            let rest = m.skip(no_ball_en().len() as int);
            assert(m =~= no_ball_en() + rest);
        }
    }
}

/// With buying on, a "no such ball" reply to the bot (one that does not say
/// the Pokémon is missing) buys the configured amount of the ball that the
/// missing flag selects: the missing ball while the flag is set, else the
/// default ball.
pub proof fn no_ball_reply_buys_flag_ball(m: ChatMessageView, c: BotContextView, suffix: Seq<char>)
    requires
        m.sender_id == pokebot_id(),
        !text_contains(m.text, spawn_marker()),
        mentions(m.text, c.user_login),
        !says_missing(m.text),
        c.poke_config.should_buy_pokeball,
        after_first_space(m.text) == Some(no_ball_de() + suffix) || after_first_space(m.text)
            == Some(no_ball_en() + suffix),
    ensures
        pokemon_plan(m, c) == seq![
            send(
                m.channel,
                "!pokeshop "@ + flag_ball(c) + " "@ + decimal(c.poke_config.pokeball_buy_amount as nat),
            ),
        ],
{
    no_ball_reply_is_recognised(m.text, suffix);
}

/// With buying on, a "purchase successful" reply to the bot marks the catch
/// sent and throws the ball that the missing flag selects: the missing ball
/// while the flag is set, else the default ball; the same ball that a "no
/// such ball" reply in that state buys.
pub proof fn purchase_reply_throws_flag_ball(m: ChatMessageView, c: BotContextView)
    requires
        m.sender_id == pokebot_id(),
        !text_contains(m.text, spawn_marker()),
        mentions(m.text, c.user_login),
        !says_missing(m.text),
        c.poke_config.should_buy_pokeball,
        after_first_space(m.text) == Some(purchase_ok_en()) || after_first_space(m.text)
            == Some(purchase_ok_de()),
    ensures
        pokemon_plan(m, c) == seq![
            ActionView::SetSentPokecatch(true),
            send(m.channel, "!pokecatch "@ + flag_ball(c)),
        ],
{
    reveal_strlit("Du besitzt diesen Ball nicht.");
    reveal_strlit("You don’t own that ball.");
    reveal_strlit("Purchase successful!");
    reveal_strlit("Kauf erfolgreich!");
    let t = after_first_space(m.text)->0;
    not_prefix_at(no_ball_de(), t, 0);
    not_prefix_at(no_ball_en(), t, 0);
    assert(!says_no_pokeball(m.text));
    assert(says_purchase_ok(m.text));
}

/// The first stage of a catch check waits for the Pokémon bot's reply
/// exactly where catches are not skipped, whatever the other settings and
/// the flags; the second stage never waits.
pub proof fn check_waits_unless_skipped(c: BotContextView)
    ensures
        check_waits(CheckStage::Begin, c) == !c.poke_config.skip_catching_pokemon,
        !check_waits(CheckStage::AfterWait, c),
{
}

/// Each setting read depends only on its own stored value: an absent value
/// takes its fixed default ("ultraball", "pokeball", off, 10), whatever the
/// other stored values are.
pub proof fn settings_read_independently(l1: PokeConfigLoaderView, l2: PokeConfigLoaderView)
    ensures
        l1.missing_pokemon_ball == l2.missing_pokemon_ball ==> config_from_loader(l1).missing_pokemon_ball
            == config_from_loader(l2).missing_pokemon_ball,
        l1.default_pokemon_ball == l2.default_pokemon_ball ==> config_from_loader(l1).default_pokemon_ball
            == config_from_loader(l2).default_pokemon_ball,
        l1.only_catch_missing == l2.only_catch_missing ==> config_from_loader(l1).only_catch_missing
            == config_from_loader(l2).only_catch_missing,
        l1.skip_catching_pokemon == l2.skip_catching_pokemon ==> config_from_loader(l1).skip_catching_pokemon
            == config_from_loader(l2).skip_catching_pokemon,
        l1.should_buy_pokeball == l2.should_buy_pokeball ==> config_from_loader(l1).should_buy_pokeball
            == config_from_loader(l2).should_buy_pokeball,
        l1.pokeball_buy_amount == l2.pokeball_buy_amount ==> config_from_loader(l1).pokeball_buy_amount
            == config_from_loader(l2).pokeball_buy_amount,
        l1.missing_pokemon_ball is None ==> config_from_loader(l1).missing_pokemon_ball == "ultraball"@,
        l1.default_pokemon_ball is None ==> config_from_loader(l1).default_pokemon_ball == "pokeball"@,
        l1.only_catch_missing is None ==> !config_from_loader(l1).only_catch_missing,
        l1.skip_catching_pokemon is None ==> !config_from_loader(l1).skip_catching_pokemon,
        l1.should_buy_pokeball is None ==> !config_from_loader(l1).should_buy_pokeball,
        l1.pokeball_buy_amount is None ==> config_from_loader(l1).pokeball_buy_amount == 10,
        l1.missing_pokemon_ball matches Some(b) ==> config_from_loader(l1).missing_pokemon_ball == b,
        l1.default_pokemon_ball matches Some(b) ==> config_from_loader(l1).default_pokemon_ball == b,
{
}

/// A broadcaster's stop command stops the bot only where it names the bot's
/// login exactly: "!stopme @" with the login and anything more after it does
/// not stop the bot, from any sender with any badges; with nothing more, it
/// stops the bot where the sender has the broadcaster badge.
pub proof fn stop_names_login_exactly(m: ChatMessageView, login: Seq<char>, suffix: Seq<char>)
    ensures
        (m.text == "!stopme @"@ + login + suffix && suffix.len() > 0) ==> !stops_bot(m, login),
        (m.text == "!stopme @"@ + login && exists|i: int|
            0 <= i < m.badges.len() && m.badges[i] == crate::context::Badge::Broadcaster)
            ==> stops_bot(m, login),
{
    reveal_strlit("!stopme");
    reveal_strlit("!stopme @");
    if m.text == "!stopme @"@ + login + suffix && suffix.len() > 0 {
        assert(m.text.len() > ("!stopme @"@ + login).len());
        assert(m.text.len() > "!stopme"@.len());
    }
}

/// The first stage of a catch check clears both flags and asks "!pokecheck"
/// in the check's channel; after the wait, unless a catch was sent or only
/// missing Pokémon are caught and this one is missing, the check marks the
/// catch sent and throws the ball that the missing flag selects.
pub proof fn check_stages_in_plain_terms(channel: Seq<char>, c: BotContextView)
    ensures
        check_plan(CheckStage::Begin, channel, c) == seq![
            ActionView::SetPokemonMissing(false),
            ActionView::SetSentPokecatch(false),
            send(channel, "!pokecheck"@),
        ],
        (!c.sent_pokecatch && !(c.poke_config.only_catch_missing && c.pokemon_missing))
            ==> check_plan(CheckStage::AfterWait, channel, c) == seq![
            ActionView::SetSentPokecatch(true),
            send(channel, "!pokecatch "@ + flag_ball(c)),
        ],
{
}

/// A spawn posted by the Pokémon bot (its text holds "!pokecatch") starts a
/// catch check in the spawn's channel, and nothing else.
pub proof fn spawn_starts_check(m: ChatMessageView, c: BotContextView)
    requires
        m.sender_id == "519435394"@,
        text_contains(m.text, "!pokecatch"@),
    ensures
        pokemon_plan(m, c) == seq![ActionView::CheckForPokemon(m.channel)],
{
}

/// A reply to the bot that ends with "❌" marks the Pokémon missing; unless
/// catches are skipped, it then marks the catch sent and throws the missing
/// ball in the reply's channel.
pub proof fn missing_reply_throws_missing_ball(m: ChatMessageView, c: BotContextView)
    requires
        m.sender_id == pokebot_id(),
        !text_contains(m.text, spawn_marker()),
        mentions(m.text, c.user_login),
        m.text.len() > 0,
        m.text.last() == '❌',
        !c.poke_config.skip_catching_pokemon,
    ensures
        pokemon_plan(m, c).len() >= 3,
        pokemon_plan(m, c).subrange(0, 3) == seq![
            ActionView::SetPokemonMissing(true),
            ActionView::SetSentPokecatch(true),
            send(m.channel, "!pokecatch "@ + c.poke_config.missing_pokemon_ball),
        ],
{
    let ms = missing_steps(m, c);
    let b = buy_steps(m, true, c.poke_config);
    assert(pokemon_plan(m, c) == ms + b);
    assert((ms + b).subrange(0, 3) =~= ms);
}

/// A reply says the Pokémon is missing exactly where it ends with "❌".
pub proof fn missing_means_cross_at_end(msg: Seq<char>)
    ensures
        says_missing(msg) <==> (msg.len() > 0 && msg[msg.len() - 1] == '❌'),
{
}

/// A purchase reply is recognised only where the text past the mention is
/// exactly one of the two sentences: anything more after it is no purchase.
pub proof fn purchase_reply_is_exact(msg: Seq<char>, suffix: Seq<char>)
    ensures
        after_first_space(msg) == Some(purchase_ok_en()) ==> says_purchase_ok(msg),
        after_first_space(msg) == Some(purchase_ok_de()) ==> says_purchase_ok(msg),
        (suffix.len() > 0 && after_first_space(msg) == Some(purchase_ok_en() + suffix))
            ==> !says_purchase_ok(msg),
        (suffix.len() > 0 && after_first_space(msg) == Some(purchase_ok_de() + suffix))
            ==> !says_purchase_ok(msg),
        after_first_space(msg) is None ==> !says_purchase_ok(msg) && !says_no_pokeball(msg),
{
    reveal_strlit("Purchase successful!");
    reveal_strlit("Kauf erfolgreich!");
    if suffix.len() > 0 {
        assert((purchase_ok_en() + suffix).len() != purchase_ok_en().len());
        assert((purchase_ok_en() + suffix).len() != purchase_ok_de().len());
        assert((purchase_ok_de() + suffix).len() != purchase_ok_de().len());
        if after_first_space(msg) == Some(purchase_ok_de() + suffix) {
            let t = purchase_ok_de() + suffix;
            assert(t[0] == 'K');
            assert(purchase_ok_en()[0] == 'P');
        }
    }
}

/// The settings used where none are stored: the missing ball "ultraball",
/// the default ball "pokeball", every switch off, and 10 balls per purchase.
pub proof fn default_settings_in_plain_terms()
    ensures
        default_config().missing_pokemon_ball == "ultraball"@,
        default_config().default_pokemon_ball == "pokeball"@,
        !default_config().only_catch_missing,
        !default_config().skip_catching_pokemon,
        !default_config().should_buy_pokeball,
        default_config().pokeball_buy_amount == 10,
        !default_config().stop_on_no_money,
{
}

/// The bot's own user stops it with exactly "!stopme"; a sender that is
/// neither the bot's user nor has the broadcaster badge never stops it.
pub proof fn stop_by_own_user_or_broadcaster(m: ChatMessageView, login: Seq<char>)
    ensures
        (m.sender_login == login && m.text == "!stopme"@) ==> stops_bot(m, login),
        (m.sender_login != login && forall|i: int|
            0 <= i < m.badges.len() ==> m.badges[i] != crate::context::Badge::Broadcaster)
            ==> !stops_bot(m, login),
        (m.text != "!stopme"@ && forall|i: int|
            0 <= i < m.badges.len() ==> m.badges[i] != crate::context::Badge::Broadcaster)
            ==> !stops_bot(m, login),
{
}

/// The number that a string of decimal digits denotes.
pub open spec fn digits_value(s: Seq<char>) -> int
    decreases s.len(),
{
    if s.len() == 0 {
        0
    } else {
        digits_value(s.drop_last()) * 10 + ((s.last() as u32) - 48)
    }
}

proof fn digit_char_value(d: nat)
    requires
        d < 10,
    ensures
        (crate::text::digit_char(d) as u32) - 48 == d,
{
    let b: u8 = (48 + d) as u8;
    assert(b == 48 + d);
    assert((b as char) as u32 == b as u32);
}

/// The decimal notation of a number denotes that number, is made of the
/// digits '0' to '9', and opens with '0' only where the number is 0.
pub proof fn decimal_denotes_number(n: nat)
    ensures
        digits_value(decimal(n)) == n,
        forall|i: int| 0 <= i < decimal(n).len() ==> '0' <= #[trigger] decimal(n)[i] <= '9',
        decimal(n).len() > 0,
        decimal(n)[0] == '0' ==> n == 0,
    decreases n,
{
    if n < 10 {
        assert(decimal(n) == seq![crate::text::digit_char(n)]);
        assert(decimal(n).drop_last() =~= Seq::<char>::empty());
        digit_char_value(n);
        assert(decimal(n).last() == crate::text::digit_char(n));
        assert(digits_value(decimal(n)) == digits_value(Seq::<char>::empty()) * 10 + (
        (crate::text::digit_char(n) as u32) - 48));
    } else {
        digit_char_value(n % 10);
        decimal_denotes_number(n / 10);
        let d = decimal(n / 10);
        assert(decimal(n) == d.push(crate::text::digit_char(n % 10)));
        assert(decimal(n).drop_last() =~= d);
        assert(decimal(n)[0] == d[0]);
        assert(decimal(n).last() == crate::text::digit_char(n % 10));
        assert(digits_value(decimal(n)) == digits_value(d) * 10 + ((crate::text::digit_char(n % 10) as u32) - 48));
        assert(n == (n / 10) * 10 + n % 10);
    }
}

proof fn encode_utf8_concat(a: Seq<char>, b: Seq<char>)
    ensures
        encode_utf8(a + b) == encode_utf8(a) + encode_utf8(b),
    decreases a.len(),
{
    if a.len() == 0 {
        assert(a + b =~= b);
        assert(encode_utf8(a) =~= Seq::<u8>::empty());
        assert(encode_utf8(a) + encode_utf8(b) =~= encode_utf8(b));
    } else {
        assert((a + b).drop_first() =~= a.drop_first() + b);
        assert((a + b)[0] == a[0]);
        encode_utf8_concat(a.drop_first(), b);
        assert(encode_utf8(a + b) =~= encode_utf8(a) + encode_utf8(b));
    }
}

proof fn at_sign_byte_is_at_sign(msg: Seq<char>)
    requires
        encode_utf8(msg).len() > 0,
        encode_utf8(msg)[0] == 64u8,
    ensures
        msg.len() > 0,
        msg[0] == '@',
{
    if msg.len() == 0 {
        assert(encode_utf8(msg) =~= Seq::<u8>::empty());
    }
    let c = msg[0] as u32;
    char_is_scalar(msg[0]);
    let e = encode_scalar(c);
    assert(encode_utf8(msg) == e + encode_utf8(msg.drop_first()));
    assert(encode_utf8(msg)[0] == e[0]);
    if has_width_1_encoding(c) {
        assert(e[0] == leading_byte_width_1(c));
        assert(c <= 0x7F && (c & 0x7F) as u8 == 64u8 ==> c == 64) by (bit_vector);
    } else if has_width_2_encoding(c) {
        assert(e[0] == leading_byte_width_2(c));
        assert(0xC0u8 | ((c >> 6) & 0x1F) as u8 != 64u8) by (bit_vector);
    } else if has_width_3_encoding(c) {
        assert(e[0] == leading_byte_width_3(c));
        assert(0xE0u8 | ((c >> 12) & 0x0F) as u8 != 64u8) by (bit_vector);
    } else {
        assert(e[0] == leading_byte_width_4(c));
        assert(0xF0u8 | ((c >> 18) & 0x7) as u8 != 64u8) by (bit_vector);
    }
    assert(c == 64);
    char_u32_cast(msg[0], c);
    char_u32_cast('@', ('@' as u32));
}

/// A message mentions a user only where it opens with '@', and it mentions
/// the user wherever it is '@', then a name that takes as many bytes as the
/// user name and whose lower-case form is the user name, then anything.
pub proof fn mention_is_at_sign_and_name(msg: Seq<char>, username: Seq<char>, name: Seq<char>, rest: Seq<char>)
    ensures
        mentions(msg, username) ==> msg.len() > 0 && msg[0] == '@',
        (msg == seq!['@'] + name + rest && encode_utf8(name).len() == encode_utf8(username).len()
            && crate::text::lowercase(name) == username) ==> mentions(msg, username),
{
    if mentions(msg, username) {
        at_sign_byte_is_at_sign(msg);
    }
    if msg == seq!['@'] + name + rest && encode_utf8(name).len() == encode_utf8(username).len()
        && crate::text::lowercase(name) == username {
        encode_utf8_concat(seq!['@'] + name, rest);
        encode_utf8_concat(seq!['@'], name);
        let at = seq!['@'];
        assert(encode_utf8(at) =~= seq![64u8]) by {
            assert(at.drop_first() =~= Seq::<char>::empty());
            assert(('@' as u32) == 64);
            assert(encode_utf8(at) == encode_scalar(64) + encode_utf8(at.drop_first()));
            assert((64u32 & 0x7F) as u8 == 64u8) by (bit_vector);
        }
        let bytes = encode_utf8(msg);
        let n = encode_utf8(username).len() + 1;
        assert(bytes == seq![64u8] + encode_utf8(name) + encode_utf8(rest));
        assert(bytes.subrange(1, n as int) =~= encode_utf8(name));
        encode_utf8_decode_utf8(name);
    }
}

/// The token flow refreshes a stored token that the service rejects, and it
/// gives up only after a failed refresh, a rejected refreshed token, or an
/// event out of order; the flow asks for a new token only where no tokens
/// are stored.
pub proof fn token_flow_gives_up_only_on_failure(stage: TokenStage, event: TokenEvent)
    ensures
        (stage == TokenStage::CheckingStored && event == (TokenEvent::StoredChecked { valid: false }))
            ==> token_transition(stage, event) == (TokenStage::Refreshing, TokenAction::RefreshStored),
        (stage == TokenStage::Start && event == (TokenEvent::Begin { has_stored: true }))
            ==> token_transition(stage, event) == (TokenStage::CheckingStored, TokenAction::CheckStored),
        (stage == TokenStage::Refreshing && event == (TokenEvent::Refreshed { ok: true }))
            ==> token_transition(stage, event) == (TokenStage::CheckingRefreshed, TokenAction::CheckRefreshed),
        token_transition(stage, event).1 == TokenAction::Fail(TokenError::RefreshFailed) ==> event
            == (TokenEvent::Refreshed { ok: false }),
        token_transition(stage, event).1 == TokenAction::Fail(TokenError::ValidationFailed) ==> event
            == (TokenEvent::RefreshedChecked { valid: false }),
        token_transition(stage, event).1 == TokenAction::Fail(TokenError::UnexpectedEvent) ==> !accepts(
            stage,
            event,
        ),
{
}

} // verus!
