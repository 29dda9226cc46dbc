//! How the bot comes by a user token: the decisions between the calls to
//! the authorization service.

use vstd::prelude::*;
use crate::config::UserToken;

verus! {

/// A permission that the bot's token asks for.
#[derive(Clone, Copy, PartialEq, Eq, Debug)]
pub enum Scope {
    ChatEdit,
    ChatRead,
    UserWriteChat,
}

/// The permissions that the bot asks for, in order.
pub open spec fn bot_scopes() -> Seq<Scope> {
    seq![Scope::ChatEdit, Scope::ChatRead, Scope::UserWriteChat]
}

/// The permissions that the bot asks for, when it asks for a new token and
/// when it refreshes a stored one.
pub fn required_scopes() -> (r: Vec<Scope>)
    ensures
        r@ == bot_scopes(),
{
    let mut r: Vec<Scope> = Vec::new();
    r.push(Scope::ChatEdit);
    r.push(Scope::ChatRead);
    r.push(Scope::UserWriteChat);
    assert(r@ =~= bot_scopes());
    r
}

/// Where the token flow stands.
#[derive(Clone, Copy, PartialEq, Eq, Debug)]
pub enum TokenStage {
    /// Nothing done yet.
    Start,
    /// The stored token is being checked with the service.
    CheckingStored,
    /// The stored token is being refreshed.
    Refreshing,
    /// The refreshed token is being checked with the service.
    CheckingRefreshed,
    /// The flow is over.
    Finished,
}

/// What the last call of the flow gave.
#[derive(Clone, Copy, PartialEq, Eq, Debug)]
pub enum TokenEvent {
    /// The flow begins; whether tokens were stored.
    Begin { has_stored: bool },
    /// Whether the service accepted the stored token.
    StoredChecked { valid: bool },
    /// Whether refreshing the stored token succeeded.
    Refreshed { ok: bool },
    /// Whether the service accepted the refreshed token.
    RefreshedChecked { valid: bool },
}

/// Why the flow failed.
#[derive(Clone, Copy, PartialEq, Eq, Debug)]
pub enum TokenError {
    RefreshFailed,
    ValidationFailed,
    /// The event cannot follow the stage the flow is in.
    UnexpectedEvent,
}

/// What to do next.
#[derive(Clone, Copy, PartialEq, Eq, Debug)]
pub enum TokenAction {
    /// Ask the user for a new token (device flow); its outcome ends the flow.
    RequestNewToken,
    /// Check the stored token with the service.
    CheckStored,
    /// The stored token is good: use it.
    UseStored,
    /// Refresh the stored token, asking for the bot's scopes.
    RefreshStored,
    /// Check the refreshed token with the service.
    CheckRefreshed,
    /// Use the checked token, with the refresh token of the refreshed one.
    UseRefreshed,
    /// Give up.
    Fail(TokenError),
}

/// Whether the event is one that can follow the stage.
pub open spec fn accepts(stage: TokenStage, event: TokenEvent) -> bool {
    match (stage, event) {
        (TokenStage::Start, TokenEvent::Begin { .. }) => true,
        (TokenStage::CheckingStored, TokenEvent::StoredChecked { .. }) => true,
        (TokenStage::Refreshing, TokenEvent::Refreshed { .. }) => true,
        (TokenStage::CheckingRefreshed, TokenEvent::RefreshedChecked { .. }) => true,
        _ => false,
    }
}

/// The next stage and action of the flow.
/// - An event that cannot follow the stage fails the flow.
/// - No stored tokens: ask for a new token.
/// - Stored tokens: check them; accepted, use them; else refresh them.
/// - A failed refresh fails the flow; a refreshed token is checked, and
///   used where it is accepted, else the flow fails.
pub open spec fn token_transition(stage: TokenStage, event: TokenEvent) -> (TokenStage, TokenAction) {
    if !accepts(stage, event) {
        (TokenStage::Finished, TokenAction::Fail(TokenError::UnexpectedEvent))
    } else {
        accepted_transition(event)
    }
}

/// The next stage and action after an event that can follow the stage.
pub open spec fn accepted_transition(event: TokenEvent) -> (TokenStage, TokenAction) {
    match event {
        TokenEvent::Begin { has_stored } => if has_stored {
            (TokenStage::CheckingStored, TokenAction::CheckStored)
        } else {
            (TokenStage::Finished, TokenAction::RequestNewToken)
        },
        TokenEvent::StoredChecked { valid } => if valid {
            (TokenStage::Finished, TokenAction::UseStored)
        } else {
            (TokenStage::Refreshing, TokenAction::RefreshStored)
        },
        TokenEvent::Refreshed { ok } => if ok {
            (TokenStage::CheckingRefreshed, TokenAction::CheckRefreshed)
        } else {
            (TokenStage::Finished, TokenAction::Fail(TokenError::RefreshFailed))
        },
        TokenEvent::RefreshedChecked { valid } => if valid {
            (TokenStage::Finished, TokenAction::UseRefreshed)
        } else {
            (TokenStage::Finished, TokenAction::Fail(TokenError::ValidationFailed))
        },
    }
}

/// One step of the flow by which the bot comes by its user token: from the
/// stage and what the last call gave, the next stage and what to do.
pub fn get_user_token(stage: TokenStage, event: TokenEvent) -> (r: (TokenStage, TokenAction))
    ensures
        r == token_transition(stage, event),
{
    let fits = match (stage, event) {
        (TokenStage::Start, TokenEvent::Begin { .. }) => true,
        (TokenStage::CheckingStored, TokenEvent::StoredChecked { .. }) => true,
        (TokenStage::Refreshing, TokenEvent::Refreshed { .. }) => true,
        (TokenStage::CheckingRefreshed, TokenEvent::RefreshedChecked { .. }) => true,
        _ => false,
    };
    if !fits {
        return (TokenStage::Finished, TokenAction::Fail(TokenError::UnexpectedEvent));
    }
    match event {
        TokenEvent::Begin { has_stored } => {
            if has_stored {
                (TokenStage::CheckingStored, TokenAction::CheckStored)
            } else {
                (TokenStage::Finished, TokenAction::RequestNewToken)
            }
        },
        TokenEvent::StoredChecked { valid } => {
            if valid {
                (TokenStage::Finished, TokenAction::UseStored)
            } else {
                (TokenStage::Refreshing, TokenAction::RefreshStored)
            }
        },
        TokenEvent::Refreshed { ok } => {
            if ok {
                (TokenStage::CheckingRefreshed, TokenAction::CheckRefreshed)
            } else {
                (TokenStage::Finished, TokenAction::Fail(TokenError::RefreshFailed))
            }
        },
        TokenEvent::RefreshedChecked { valid } => {
            if valid {
                (TokenStage::Finished, TokenAction::UseRefreshed)
            } else {
                (TokenStage::Finished, TokenAction::Fail(TokenError::ValidationFailed))
            }
        },
    }
}

/// The token that the flow gives after a refresh: the token that the
/// service accepted on its check, with the refresh token of the refreshed
/// token (the check gives none of its own).
pub fn refreshed_result(checked: UserToken, refreshed: &UserToken) -> (r: UserToken)
    ensures
        r.login == checked.login,
        r.access_token == checked.access_token,
        r.refresh_token == refreshed.refresh_token,
{
    let refresh_token = match &refreshed.refresh_token {
        Some(t) => Some(t.clone()),
        None => None,
    };
    UserToken { login: checked.login, access_token: checked.access_token, refresh_token }
}

} // verus!
