//! Establishing a session: where the token comes from, and what the service
//! answers to it.

use crate::error::{DecodeError, DecodeErrorView, GamploError, GamploErrorView};
use crate::json::{Json, JsonValue};
use crate::player::{Player, PlayerView};
use vstd::prelude::*;

verus! {

/// What a look for the token in the page context found.
#[derive(Debug, Clone, PartialEq, Eq, Hash)]
pub enum TokenLookup {
    /// There is no page context to look in.
    NoWindow,
    /// The page context refused the look.
    AccessFailed,
    /// The page context holds no token.
    Undefined,
    /// The page context holds something under the token's name that is no
    /// string.
    NotAString,
    /// The page context holds this token.
    Found(String),
}

/// The model of a [`TokenLookup`].
pub ghost enum TokenLookupView {
    NoWindow,
    AccessFailed,
    Undefined,
    NotAString,
    Found(Seq<char>),
}

impl View for TokenLookup {
    type V = TokenLookupView;

    open spec fn view(&self) -> TokenLookupView {
        match self {
            TokenLookup::NoWindow => TokenLookupView::NoWindow,
            TokenLookup::AccessFailed => TokenLookupView::AccessFailed,
            TokenLookup::Undefined => TokenLookupView::Undefined,
            TokenLookup::NotAString => TokenLookupView::NotAString,
            TokenLookup::Found(token) => TokenLookupView::Found(token@),
        }
    }
}

/// The characters of a text that may be absent.
pub open spec fn optional_text(value: Option<String>) -> Option<Seq<char>> {
    match value {
        Some(text) => Some(text@),
        None => None,
    }
}

/// The token that a caller hands over itself: any token but the empty one,
/// which is no credential.
pub open spec fn supplied_token(token: Seq<char>) -> Result<Seq<char>, GamploErrorView> {
    if token.len() > 0 {
        Ok(token)
    } else {
        Err(GamploErrorView::TokenNotFound("the token is empty"@))
    }
}

/// The token that discovery settles on. The environment comes first, the
/// page context second; an empty token counts as none, and so does a page
/// value that is no string. Where neither holds a token, the error says
/// what the page context lacked.
pub open spec fn discovered_token(environment: Option<Seq<char>>, page: TokenLookupView) -> Result<
    Seq<char>,
    GamploErrorView,
> {
    if environment is Some && environment->0.len() > 0 {
        Ok(environment->0)
    } else {
        match page {
            TokenLookupView::NoWindow => Err(
                GamploErrorView::TokenNotFound("Failed to get window object"@),
            ),
            TokenLookupView::AccessFailed => Err(
                GamploErrorView::TokenNotFound("Failed to access GAMPLO_TOKEN from window"@),
            ),
            TokenLookupView::Undefined => Err(
                GamploErrorView::TokenNotFound(
                    "GAMPLO_TOKEN is not defined on the window object"@,
                ),
            ),
            TokenLookupView::NotAString => Err(
                GamploErrorView::TokenNotFound(
                    "GAMPLO_TOKEN on the window object is not a string"@,
                ),
            ),
            TokenLookupView::Found(token) => if token.len() > 0 {
                Ok(token)
            } else {
                Err(GamploErrorView::TokenNotFound("GAMPLO_TOKEN is empty"@))
            },
        }
    }
}

/// Settles on the token to log in with, from what the environment and the
/// page context hold. A token handed out is never empty.
pub fn get_token(environment: Option<String>, page: TokenLookup) -> (outcome: Result<
    String,
    GamploError,
>)
    ensures
        match outcome {
            Ok(token) => token@.len() > 0 && discovered_token(optional_text(environment), page@)
                == Ok::<Seq<char>, GamploErrorView>(token@),
            Err(error) => discovered_token(optional_text(environment), page@) == Err::<
                Seq<char>,
                GamploErrorView,
            >(error@),
        },
{
    match environment {
        Some(token) => {
            if !token.as_str().is_empty() {
                return Ok(token);
            }
        },
        None => {},
    }
    match page {
        TokenLookup::NoWindow => Err(
            GamploError::TokenNotFound("Failed to get window object".to_owned()),
        ),
        TokenLookup::AccessFailed => Err(
            GamploError::TokenNotFound("Failed to access GAMPLO_TOKEN from window".to_owned()),
        ),
        TokenLookup::Undefined => Err(
            GamploError::TokenNotFound(
                "GAMPLO_TOKEN is not defined on the window object".to_owned(),
            ),
        ),
        TokenLookup::NotAString => Err(
            GamploError::TokenNotFound(
                "GAMPLO_TOKEN on the window object is not a string".to_owned(),
            ),
        ),
        TokenLookup::Found(token) => if !token.as_str().is_empty() {
            Ok(token)
        } else {
            Err(GamploError::TokenNotFound("GAMPLO_TOKEN is empty".to_owned()))
        },
    }
}

/// The answer of the service to a token: the session identifier and, where
/// the service names one, the player who holds the session.
#[derive(Debug, Clone, PartialEq, Eq, Hash)]
pub struct AuthResponse {
    /// On the wire: `sessionId`.
    pub session_id: String,
    pub player: Option<Player>,
}

/// The model of an [`AuthResponse`].
pub ghost struct AuthResponseView {
    pub session_id: Seq<char>,
    pub player: Option<PlayerView>,
}

impl View for AuthResponse {
    type V = AuthResponseView;

    open spec fn view(&self) -> AuthResponseView {
        AuthResponseView {
            session_id: self.session_id@,
            player: match self.player {
                Some(player) => Some(player@),
                None => None,
            },
        }
    }
}

impl AuthResponseView {
    /// The `player` member: absent or `null` for no player, else a player
    /// record.
    pub open spec fn player_member(value: JsonValue) -> Result<
        Option<PlayerView>,
        DecodeErrorView,
    > {
        match value.get("player"@) {
            None => Ok(None),
            Some(JsonValue::Null) => Ok(None),
            Some(member) => match PlayerView::from_json(member) {
                Ok(player) => Ok(Some(player)),
                Err(_) => Err(DecodeErrorView::InvalidField("player"@)),
            },
        }
    }

    /// The answer that a JSON value stands for: an object whose `sessionId`
    /// is a string and whose `player` is a player record, `null` or absent.
    /// The first field at fault is the one reported.
    pub open spec fn from_json(value: JsonValue) -> Result<AuthResponseView, DecodeErrorView> {
        let session_id = value.string_member("sessionId"@);
        let player = Self::player_member(value);
        if !(value is Object) {
            Err(DecodeErrorView::NotAnObject)
        } else if session_id is Err {
            Err(session_id->Err_0)
        } else if player is Err {
            Err(player->Err_0)
        } else {
            Ok(AuthResponseView { session_id: session_id->Ok_0, player: player->Ok_0 })
        }
    }

    /// An answer whose `player` is `null` or absent, and whose `sessionId`
    /// is a string, decodes to that session without a player.
    pub proof fn lemma_no_player(value: JsonValue, session_id: Seq<char>)
        requires
            value is Object,
            value.get("sessionId"@) == Some(JsonValue::String(session_id)),
            value.get("player"@) is None || value.get("player"@) == Some(JsonValue::Null),
        ensures
            Self::from_json(value) == Ok::<AuthResponseView, DecodeErrorView>(
                AuthResponseView { session_id, player: None },
            ),
    {
    }
}

impl AuthResponse {
    /// Decodes the answer from a JSON value.
    pub fn from_json(value: &Json) -> (outcome: Result<AuthResponse, DecodeError>)
        ensures
            match outcome {
                Ok(auth) => AuthResponseView::from_json(value@) == Ok::<
                    AuthResponseView,
                    DecodeErrorView,
                >(auth@),
                Err(cause) => AuthResponseView::from_json(value@) == Err::<
                    AuthResponseView,
                    DecodeErrorView,
                >(cause@),
            },
    {
        if !value.is_object() {
            return Err(DecodeError::NotAnObject);
        }
        let session_id = value.string_member("sessionId")?;
        let player = match value.get("player") {
            None => None,
            Some(member) => if member.is_null() {
                None
            } else {
                match Player::from_json(member) {
                    Ok(player) => Some(player),
                    Err(_) => {
                        return Err(DecodeError::InvalidField("player".to_owned()));
                    },
                }
            },
        };
        Ok(AuthResponse { session_id, player })
    }
}

} // verus!
