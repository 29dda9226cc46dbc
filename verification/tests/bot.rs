use pokecatcher::config::{
    chat_credentials, default_poke_config, load_auth_config, load_config,
    write_auth_config, write_poke_config, AuthConfig, PokeConfigLoader, UserToken,
};
use pokecatcher::context::{Action, Badge, BotContext, ChatMessage, PokeConfig, SendMessageDto};
use pokecatcher::message::{
    handle_message, joined_channels, should_self_destruct, IncomingMessage, Route,
};
use pokecatcher::pokemon::{
    check_for_pokemon, get_pokeball, mention_check_is_defined, pokemon_message_is_defined, handle_pokemon_message, has_no_pokeball,
    is_pokemon_missing, purchase_successful, starts_with_mention, CheckStage,
    CHECK_WAIT_SECONDS,
};
use pokecatcher::text::{contains_text, u8_to_text};
use pokecatcher::token::{
    get_user_token, refreshed_result, required_scopes, Scope, TokenAction, TokenError, TokenEvent, TokenStage,
};

const BOT: &str = "519435394";

fn config() -> PokeConfig {
    PokeConfig {
        missing_pokemon_ball: "ultraball".to_string(),
        default_pokemon_ball: "pokeball".to_string(),
        only_catch_missing: false,
        skip_catching_pokemon: false,
        should_buy_pokeball: true,
        pokeball_buy_amount: 10,
        stop_on_no_money: false,
    }
}

fn context(missing: bool, sent: bool, cfg: PokeConfig) -> BotContext {
    BotContext {
        pokemon_missing: missing,
        sent_pokecatch: sent,
        user_login: "catcher".to_string(),
        poke_config: cfg,
    }
}

fn chat(sender_id: &str, text: &str) -> ChatMessage {
    ChatMessage {
        sender_id: sender_id.to_string(),
        sender_login: "pokemoncommunitygame".to_string(),
        channel: "migisch".to_string(),
        text: text.to_string(),
        badges: vec![],
    }
}

/// Each step as text, so that plans compare by value.
fn describe(plan: &[Action]) -> Vec<String> {
    plan.iter()
        .map(|a| match a {
            Action::SetPokemonMissing(b) => format!("missing={}", b),
            Action::SetSentPokecatch(b) => format!("sent={}", b),
            Action::Send(SendMessageDto { message, channel }) => format!("{}: {}", channel, message),
            Action::CheckForPokemon(c) => format!("check {}", c),
        })
        .collect()
}

#[test]
fn pokecheck_message() {
    let m = SendMessageDto::pokecheck("migisch".to_string());
    assert_eq!(m.message, "!pokecheck");
    assert_eq!(m.channel, "migisch");
}

#[test]
fn missing_mark_at_end() {
    assert!(is_pokemon_missing("@catcher Pikachu ❌"));
    assert!(!is_pokemon_missing("@catcher Pikachu ✅"));
    assert!(!is_pokemon_missing("❌ at the start"));
    assert!(!is_pokemon_missing(""));
}

#[test]
fn no_pokeball_replies() {
    assert!(has_no_pokeball("@catcher Du besitzt diesen Ball nicht. Kauf einen!"));
    assert!(has_no_pokeball("@catcher You don’t own that ball."));
    assert!(!has_no_pokeball("@catcher You don't own that ball."));
    assert!(!has_no_pokeball("You don’t own that ball."));
    assert!(!has_no_pokeball("nospace"));
    assert!(!has_no_pokeball("@catcher  You don’t own that ball."));
}

#[test]
fn purchase_replies() {
    assert!(purchase_successful("@catcher Purchase successful!"));
    assert!(purchase_successful("@catcher Kauf erfolgreich!"));
    assert!(!purchase_successful("@catcher Purchase successful!!"));
    assert!(!purchase_successful("Purchase successful!"));
    assert!(purchase_successful("@a b Purchase successful!") == false);
}

#[test]
fn mention_checks() {
    assert!(starts_with_mention("@catcher hello", "catcher"));
    assert!(starts_with_mention("@Catcher hello", "catcher"));
    assert!(starts_with_mention("@CATCHER", "catcher"));
    assert!(!starts_with_mention("@catche", "catcher"));
    assert!(!starts_with_mention("catcher hello", "catcher"));
    assert!(!starts_with_mention("@other hello", "catcher"));
    assert!(starts_with_mention("@catcherx", "catcher"));
    assert!(starts_with_mention("@", ""));
}

#[test]
fn pokeball_follows_flag() {
    assert_eq!(get_pokeball(&context(true, false, config())), "ultraball");
    assert_eq!(get_pokeball(&context(false, false, config())), "pokeball");
}

#[test]
fn spawn_starts_check() {
    let plan = handle_pokemon_message(&chat(BOT, "A wild Pikachu appears! Type !pokecatch to catch it"), &context(false, false, config()));
    assert_eq!(describe(&plan), vec!["check migisch"]);
}

#[test]
fn other_senders_are_ignored() {
    let plan = handle_pokemon_message(&chat("1", "@catcher Pikachu ❌"), &context(false, false, config()));
    assert!(plan.is_empty());
    let plan = handle_pokemon_message(&chat("1", "!pokecatch"), &context(false, false, config()));
    assert!(plan.is_empty());
}

#[test]
fn reply_without_mention_is_ignored() {
    let plan = handle_pokemon_message(&chat(BOT, "@someone Pikachu ❌"), &context(false, false, config()));
    assert!(plan.is_empty());
}

#[test]
fn missing_pokemon_is_caught_with_missing_ball() {
    let plan = handle_pokemon_message(&chat(BOT, "@catcher Pikachu ❌"), &context(false, false, config()));
    assert_eq!(
        describe(&plan),
        vec!["missing=true", "sent=true", "migisch: !pokecatch ultraball"]
    );
}

#[test]
fn missing_pokemon_with_skip_only_marks() {
    let mut cfg = config();
    cfg.skip_catching_pokemon = true;
    let plan = handle_pokemon_message(&chat(BOT, "@catcher Pikachu ❌"), &context(false, false, cfg));
    assert_eq!(describe(&plan), vec!["missing=true"]);
}

#[test]
fn no_ball_buys_more() {
    let plan = handle_pokemon_message(&chat(BOT, "@catcher You don’t own that ball."), &context(false, false, config()));
    assert_eq!(describe(&plan), vec!["migisch: !pokeshop pokeball 10"]);
    let mut cfg = config();
    cfg.pokeball_buy_amount = 255;
    let plan = handle_pokemon_message(&chat(BOT, "@catcher Du besitzt diesen Ball nicht."), &context(true, false, cfg));
    assert_eq!(describe(&plan), vec!["migisch: !pokeshop ultraball 255"]);
}

#[test]
fn no_ball_without_buying_does_nothing() {
    let mut cfg = config();
    cfg.should_buy_pokeball = false;
    let plan = handle_pokemon_message(&chat(BOT, "@catcher You don’t own that ball."), &context(false, false, cfg));
    assert!(plan.is_empty());
}

#[test]
fn purchase_throws_again() {
    let plan = handle_pokemon_message(&chat(BOT, "@catcher Purchase successful!"), &context(false, false, config()));
    assert_eq!(describe(&plan), vec!["sent=true", "migisch: !pokecatch pokeball"]);
}

#[test]
fn check_begin_clears_and_asks() {
    let step = check_for_pokemon(CheckStage::Begin, &"migisch".to_string(), &context(true, true, config()));
    assert_eq!(describe(&step.actions), vec!["missing=false", "sent=false", "migisch: !pokecheck"]);
    assert_eq!(step.wait_seconds, Some(CHECK_WAIT_SECONDS));
    assert_eq!(CHECK_WAIT_SECONDS, 3);
    let mut cfg = config();
    cfg.skip_catching_pokemon = true;
    let step = check_for_pokemon(CheckStage::Begin, &"migisch".to_string(), &context(false, false, cfg));
    assert_eq!(step.wait_seconds, None);
    assert_eq!(describe(&step.actions).len(), 3);
}

#[test]
fn check_after_wait() {
    let ch = "migisch".to_string();
    let step = check_for_pokemon(CheckStage::AfterWait, &ch, &context(false, false, config()));
    assert_eq!(describe(&step.actions), vec!["sent=true", "migisch: !pokecatch pokeball"]);
    assert_eq!(step.wait_seconds, None);
    let step = check_for_pokemon(CheckStage::AfterWait, &ch, &context(true, false, config()));
    assert_eq!(describe(&step.actions), vec!["sent=true", "migisch: !pokecatch ultraball"]);
    let step = check_for_pokemon(CheckStage::AfterWait, &ch, &context(false, true, config()));
    assert!(step.actions.is_empty());
    let mut cfg = config();
    cfg.only_catch_missing = true;
    let step = check_for_pokemon(CheckStage::AfterWait, &ch, &context(true, false, cfg));
    assert!(step.actions.is_empty());
}

#[test]
fn routes() {
    let ctx = context(false, false, config());
    let r = handle_message(&IncomingMessage::Join { user: "catcher".to_string(), channel: "migisch".to_string() }, &ctx);
    assert!(matches!(r, Route::Joined(c) if c == "migisch"));
    let r = handle_message(&IncomingMessage::Join { user: "x".to_string(), channel: "migisch".to_string() }, &ctx);
    assert!(matches!(r, Route::Ignore));
    let r = handle_message(&IncomingMessage::Reconnect, &ctx);
    assert!(matches!(r, Route::Reconnect(chs) if chs == vec!["migisch".to_string()]));
    assert!(matches!(handle_message(&IncomingMessage::Ping, &ctx), Route::Pong));
    assert!(matches!(handle_message(&IncomingMessage::Other, &ctx), Route::Ignore));
    let r = handle_message(&IncomingMessage::Privmsg(chat(BOT, "@catcher Purchase successful!")), &ctx);
    match r {
        Route::Pokemon(plan) => assert_eq!(describe(&plan).len(), 2),
        _ => panic!("expected a plan"),
    }
    assert_eq!(joined_channels(), vec!["migisch".to_string()]);
}

#[test]
fn stop_commands() {
    let ctx = context(false, false, config());
    let mut own = chat("2", "!stopme");
    own.sender_login = "catcher".to_string();
    assert!(should_self_destruct(&own, &ctx));
    let other = chat("3", "!stopme");
    assert!(!should_self_destruct(&other, &ctx));
    let mut broadcaster = chat("4", "!stopme @catcher");
    broadcaster.badges = vec![Badge::Subscriber, Badge::Broadcaster];
    assert!(should_self_destruct(&broadcaster, &ctx));
    let mut moderator = chat("5", "!stopme @catcher");
    moderator.badges = vec![Badge::Moderator];
    assert!(!should_self_destruct(&moderator, &ctx));
    broadcaster.text = "!stopme @someoneelse".to_string();
    assert!(!should_self_destruct(&broadcaster, &ctx));
}

#[test]
fn config_loading() {
    let (cfg, write) = load_config(None);
    assert_eq!(cfg.missing_pokemon_ball, "ultraball");
    assert_eq!(cfg.default_pokemon_ball, "pokeball");
    assert_eq!(cfg.pokeball_buy_amount, 10);
    assert!(!cfg.only_catch_missing && !cfg.should_buy_pokeball && !cfg.skip_catching_pokemon);
    let w = write.expect("defaults are written");
    assert_eq!(w.missing_pokemon_ball.as_deref(), Some("ultraball"));
    assert_eq!(w.pokeball_buy_amount, Some(10));
    let loader = PokeConfigLoader {
        missing_pokemon_ball: Some("masterball".to_string()),
        default_pokemon_ball: None,
        only_catch_missing: Some(true),
        skip_catching_pokemon: None,
        should_buy_pokeball: Some(true),
        pokeball_buy_amount: Some(3),
    };
    let (cfg, write) = load_config(Some(loader));
    assert!(write.is_none());
    assert_eq!(cfg.missing_pokemon_ball, "masterball");
    assert_eq!(cfg.default_pokemon_ball, "pokeball");
    assert!(cfg.only_catch_missing && cfg.should_buy_pokeball && !cfg.skip_catching_pokemon);
    assert_eq!(cfg.pokeball_buy_amount, 3);
}

#[test]
fn config_round_trip_values() {
    let mut c = config();
    c.missing_pokemon_ball = "greatball".to_string();
    c.pokeball_buy_amount = 7;
    let (back, _) = load_config(Some(write_poke_config(&c)));
    assert_eq!(back.missing_pokemon_ball, "greatball");
    assert_eq!(back.default_pokemon_ball, "pokeball");
    assert_eq!(back.pokeball_buy_amount, 7);
    assert!(back.should_buy_pokeball);
    let d = default_poke_config();
    assert_eq!(d.missing_pokemon_ball, "ultraball");
}

#[test]
fn auth_tokens() {
    let a = load_auth_config(Ok(AuthConfig { access_token: "a".to_string(), refresh_token: "r".to_string() }));
    assert_eq!(a.map(|a| a.refresh_token), Some("r".to_string()));
    assert!(load_auth_config(Err("missing file".to_string())).is_none());
    let token = UserToken { login: "catcher".to_string(), access_token: "abc".to_string(), refresh_token: Some("def".to_string()) };
    let stored = write_auth_config(&token);
    assert_eq!(stored.access_token, "abc");
    assert_eq!(stored.refresh_token, "def");
    let (login, password) = chat_credentials(&token);
    assert_eq!(login, "catcher");
    assert_eq!(password, "oauth:abc");
}

#[test]
fn token_flow() {
    assert_eq!(get_user_token(TokenStage::Start, TokenEvent::Begin { has_stored: false }), (TokenStage::Finished, TokenAction::RequestNewToken));
    assert_eq!(get_user_token(TokenStage::Start, TokenEvent::Begin { has_stored: true }), (TokenStage::CheckingStored, TokenAction::CheckStored));
    assert_eq!(get_user_token(TokenStage::CheckingStored, TokenEvent::StoredChecked { valid: true }), (TokenStage::Finished, TokenAction::UseStored));
    assert_eq!(get_user_token(TokenStage::CheckingStored, TokenEvent::StoredChecked { valid: false }), (TokenStage::Refreshing, TokenAction::RefreshStored));
    assert_eq!(get_user_token(TokenStage::Refreshing, TokenEvent::Refreshed { ok: false }), (TokenStage::Finished, TokenAction::Fail(TokenError::RefreshFailed)));
    assert_eq!(get_user_token(TokenStage::Refreshing, TokenEvent::Refreshed { ok: true }), (TokenStage::CheckingRefreshed, TokenAction::CheckRefreshed));
    assert_eq!(get_user_token(TokenStage::CheckingRefreshed, TokenEvent::RefreshedChecked { valid: true }), (TokenStage::Finished, TokenAction::UseRefreshed));
    assert_eq!(get_user_token(TokenStage::CheckingRefreshed, TokenEvent::RefreshedChecked { valid: false }), (TokenStage::Finished, TokenAction::Fail(TokenError::ValidationFailed)));
    assert_eq!(required_scopes(), vec![Scope::ChatEdit, Scope::ChatRead, Scope::UserWriteChat]);
}

#[test]
fn text_helpers() {
    assert!(contains_text("xx!pokecatchyy", "!pokecatch"));
    assert!(!contains_text("!pokecatc", "!pokecatch"));
    assert!(contains_text("", ""));
    assert_eq!(u8_to_text(0), "0");
    assert_eq!(u8_to_text(9), "9");
    assert_eq!(u8_to_text(10), "10");
    assert_eq!(u8_to_text(105), "105");
    assert_eq!(u8_to_text(255), "255");
}

#[test]
fn mention_slice_definedness() {
    assert!(mention_check_is_defined("@catcher hi", "catcher"));
    assert!(mention_check_is_defined("hello", "catcher"));
    // "@ab" followed by "é" (two bytes): the name of two bytes ends inside it.
    assert!(!mention_check_is_defined("@aé", "ab"));
    assert!(mention_check_is_defined("xaé", "ab"));
    let ctx = context(false, false, config());
    assert!(pokemon_message_is_defined(&chat(BOT, "@catcher hi"), &ctx));
    let mut odd = ctx;
    odd.user_login = "ab".to_string();
    assert!(!pokemon_message_is_defined(&chat(BOT, "@aé"), &odd));
    assert!(pokemon_message_is_defined(&chat(BOT, "@aé !pokecatch"), &odd));
    assert!(pokemon_message_is_defined(&chat("1", "@aé"), &odd));
}

/// Applies the flag steps of a plan to the context, as the bot does.
fn apply(plan: &[Action], ctx: &mut BotContext) {
    for a in plan {
        match a {
            Action::SetPokemonMissing(b) => ctx.pokemon_missing = *b,
            Action::SetSentPokecatch(b) => ctx.sent_pokecatch = *b,
            _ => {}
        }
    }
}

#[test]
fn check_without_reply_throws_default_ball() {
    let ch = "migisch".to_string();
    let mut ctx = context(true, true, config());
    let begin = check_for_pokemon(CheckStage::Begin, &ch, &ctx);
    apply(&begin.actions, &mut ctx);
    let after = check_for_pokemon(CheckStage::AfterWait, &ch, &ctx);
    assert_eq!(describe(&after.actions), vec!["sent=true", "migisch: !pokecatch pokeball"]);
}

#[test]
fn reply_catch_prevents_second_throw() {
    let ch = "migisch".to_string();
    let mut ctx = context(false, false, config());
    let begin = check_for_pokemon(CheckStage::Begin, &ch, &ctx);
    apply(&begin.actions, &mut ctx);
    let plan = handle_pokemon_message(&chat(BOT, "@catcher Glumanda ❌"), &ctx);
    assert!(describe(&plan).contains(&"migisch: !pokecatch ultraball".to_string()));
    apply(&plan, &mut ctx);
    let after = check_for_pokemon(CheckStage::AfterWait, &ch, &ctx);
    assert!(after.actions.is_empty());
}

#[test]
fn token_flow_out_of_order_fails() {
    assert_eq!(get_user_token(TokenStage::Finished, TokenEvent::Begin { has_stored: true }), (TokenStage::Finished, TokenAction::Fail(TokenError::UnexpectedEvent)));
    assert_eq!(get_user_token(TokenStage::Start, TokenEvent::Refreshed { ok: true }), (TokenStage::Finished, TokenAction::Fail(TokenError::UnexpectedEvent)));
}

#[test]
fn refreshed_token_keeps_new_refresh_token() {
    let checked = UserToken { login: "catcher".to_string(), access_token: "a2".to_string(), refresh_token: None };
    let refreshed = UserToken { login: String::new(), access_token: "a2".to_string(), refresh_token: Some("r2".to_string()) };
    let r = refreshed_result(checked, &refreshed);
    assert_eq!(r.login, "catcher");
    assert_eq!(r.access_token, "a2");
    assert_eq!(r.refresh_token, Some("r2".to_string()));
}
