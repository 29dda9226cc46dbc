//! The stored settings and tokens, and how the bot starts from them.

use vstd::prelude::*;
use vstd::string::StringExecFns;
use crate::context::{PokeConfig, PokeConfigView};
use crate::text::join_text;

verus! {

/// The settings as they are stored: each may be absent.
pub struct PokeConfigLoader {
    pub missing_pokemon_ball: Option<String>,
    pub default_pokemon_ball: Option<String>,
    pub only_catch_missing: Option<bool>,
    pub skip_catching_pokemon: Option<bool>,
    pub should_buy_pokeball: Option<bool>,
    pub pokeball_buy_amount: Option<u8>,
}

/// The stored tokens of the bot's account.
pub struct AuthConfig {
    pub access_token: String,
    pub refresh_token: String,
}

/// What the bot reads of the token that the authorization service issued.
pub struct UserToken {
    pub login: String,
    pub access_token: String,
    pub refresh_token: Option<String>,
}

pub struct PokeConfigLoaderView {
    pub missing_pokemon_ball: Option<Seq<char>>,
    pub default_pokemon_ball: Option<Seq<char>>,
    pub only_catch_missing: Option<bool>,
    pub skip_catching_pokemon: Option<bool>,
    pub should_buy_pokeball: Option<bool>,
    pub pokeball_buy_amount: Option<u8>,
}

pub open spec fn text_opt(o: Option<String>) -> Option<Seq<char>> {
    match o {
        Some(s) => Some(s@),
        None => None,
    }
}

impl View for PokeConfigLoader {
    type V = PokeConfigLoaderView;

    open spec fn view(&self) -> PokeConfigLoaderView {
        PokeConfigLoaderView {
            missing_pokemon_ball: text_opt(self.missing_pokemon_ball),
            default_pokemon_ball: text_opt(self.default_pokemon_ball),
            only_catch_missing: self.only_catch_missing,
            skip_catching_pokemon: self.skip_catching_pokemon,
            should_buy_pokeball: self.should_buy_pokeball,
            pokeball_buy_amount: self.pokeball_buy_amount,
        }
    }
}

/// The ball thrown at missing Pokémon unless the settings name another.
pub open spec fn default_missing_ball() -> Seq<char> {
    "ultraball"@
}

/// The ball thrown otherwise unless the settings name another.
pub open spec fn default_default_ball() -> Seq<char> {
    "pokeball"@
}

/// The number of balls bought at once unless the settings name another.
pub open spec fn default_buy_amount() -> u8 {
    10
}

/// The settings that the bot uses where none are stored.
pub open spec fn default_config() -> PokeConfigView {
    PokeConfigView {
        missing_pokemon_ball: default_missing_ball(),
        default_pokemon_ball: default_default_ball(),
        only_catch_missing: false,
        skip_catching_pokemon: false,
        should_buy_pokeball: false,
        pokeball_buy_amount: default_buy_amount(),
        stop_on_no_money: false,
    }
}

/// The settings read from stored ones: each absent value takes its default.
pub open spec fn config_from_loader(l: PokeConfigLoaderView) -> PokeConfigView {
    PokeConfigView {
        missing_pokemon_ball: l.missing_pokemon_ball.unwrap_or(default_missing_ball()),
        default_pokemon_ball: l.default_pokemon_ball.unwrap_or(default_default_ball()),
        only_catch_missing: l.only_catch_missing.unwrap_or(false),
        skip_catching_pokemon: l.skip_catching_pokemon.unwrap_or(false),
        should_buy_pokeball: l.should_buy_pokeball.unwrap_or(false),
        pokeball_buy_amount: l.pokeball_buy_amount.unwrap_or(default_buy_amount()),
        stop_on_no_money: false,
    }
}

/// The stored form of settings: every value present.
pub open spec fn loader_from_config(c: PokeConfigView) -> PokeConfigLoaderView {
    PokeConfigLoaderView {
        missing_pokemon_ball: Some(c.missing_pokemon_ball),
        default_pokemon_ball: Some(c.default_pokemon_ball),
        only_catch_missing: Some(c.only_catch_missing),
        skip_catching_pokemon: Some(c.skip_catching_pokemon),
        should_buy_pokeball: Some(c.should_buy_pokeball),
        pokeball_buy_amount: Some(c.pokeball_buy_amount),
    }
}

/// The settings that the bot uses where none are stored.
pub fn default_poke_config() -> (r: PokeConfig)
    ensures
        r@ == default_config(),
{
    PokeConfig {
        missing_pokemon_ball: String::from_str("ultraball"),
        default_pokemon_ball: String::from_str("pokeball"),
        only_catch_missing: false,
        skip_catching_pokemon: false,
        should_buy_pokeball: false,
        pokeball_buy_amount: 10,
        stop_on_no_money: false,
    }
}

fn text_or(o: &Option<String>, default: &str) -> (r: String)
    ensures
        r@ == match o {
            Some(s) => s@,
            None => default@,
        },
{
    match o {
        Some(s) => s.clone(),
        None => String::from_str(default),
    }
}

/// The settings to run with, given the stored ones where they could be read.
/// Read settings give their values, each absent one its default, and nothing
/// is written. Where none could be read, the defaults are used and their
/// stored form is the second part of the result: it is to be written.
pub fn load_config(loaded: Option<PokeConfigLoader>) -> (r: (PokeConfig, Option<PokeConfigLoader>))
    ensures
        match loaded {
            Some(l) => r.0@ == config_from_loader(l@) && r.1 is None,
            None => r.0@ == default_config() && (r.1 matches Some(w) && w@ == loader_from_config(
                default_config(),
            )),
        },
{
    match loaded {
        Some(conf) => {
            let config = PokeConfig {
                missing_pokemon_ball: text_or(&conf.missing_pokemon_ball, "ultraball"),
                pokeball_buy_amount: match conf.pokeball_buy_amount {
                    Some(n) => n,
                    None => 10,
                },
                default_pokemon_ball: text_or(&conf.default_pokemon_ball, "pokeball"),
                only_catch_missing: match conf.only_catch_missing {
                    Some(b) => b,
                    None => false,
                },
                should_buy_pokeball: match conf.should_buy_pokeball {
                    Some(b) => b,
                    None => false,
                },
                skip_catching_pokemon: match conf.skip_catching_pokemon {
                    Some(b) => b,
                    None => false,
                },
                stop_on_no_money: false,
            };
            (config, None)
        },
        None => {
            let default_config = default_poke_config();
            let written = write_poke_config(&default_config);
            (default_config, Some(written))
        },
    }
}

/// The stored form of the settings, as they are written.
pub fn write_poke_config(config: &PokeConfig) -> (r: PokeConfigLoader)
    ensures
        r@ == loader_from_config(config@),
{
    PokeConfigLoader {
        missing_pokemon_ball: Some(config.missing_pokemon_ball.clone()),
        default_pokemon_ball: Some(config.default_pokemon_ball.clone()),
        pokeball_buy_amount: Some(config.pokeball_buy_amount),
        only_catch_missing: Some(config.only_catch_missing),
        should_buy_pokeball: Some(config.should_buy_pokeball),
        skip_catching_pokemon: Some(config.skip_catching_pokemon),
    }
}

/// The stored tokens where they could be read, else none: an error reading
/// them only means that the bot asks for new ones.
pub fn load_auth_config(loaded: Result<AuthConfig, String>) -> (r: Option<AuthConfig>)
    ensures
        match loaded {
            Ok(a) => r == Some(a),
            Err(_) => r is None,
        },
{
    match loaded {
        Ok(conf) => Some(conf),
        Err(_) => None,
    }
}

/// The tokens to store for an issued token: its access token and its refresh
/// token, which an issued token must hold.
pub fn write_auth_config(token: &UserToken) -> (r: AuthConfig)
    requires
        token.refresh_token is Some,
    ensures
        r.access_token@ == token.access_token@,
        r.refresh_token@ == token.refresh_token->0@,
{
    let refresh = match &token.refresh_token {
        Some(t) => t.clone(),
        None => String::new(),
    };
    AuthConfig { access_token: token.access_token.clone(), refresh_token: refresh }
}

/// The password with which the bot logs in to the chat.
pub open spec fn chat_password(access_token: Seq<char>) -> Seq<char> {
    "oauth:"@ + access_token
}

/// The login and password with which the bot logs in to the chat.
pub fn chat_credentials(token: &UserToken) -> (r: (String, String))
    ensures
        r.0@ == token.login@,
        r.1@ == chat_password(token.access_token@),
{
    (token.login.clone(), join_text("oauth:", token.access_token.as_str()))
}

} // verus!
