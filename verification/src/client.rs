//! The client: one session, and for every operation of the service the
//! request to send and the reading of the answer.
//!
//! The client sends nothing itself. A caller takes the request of an
//! operation, performs it with whatever transport it has, and hands the
//! answer to the method of the same operation.

use crate::achievement::{
    achievement_views, Achievement, AchievementUnlockResponse, AchievementUnlockResponseView,
    AchievementView,
};
use crate::error::{
    optional_outcome_view, outcome_view, GamploError, GamploErrorView, JsonError,
};
use crate::json::{printed, Json, JsonNumber, JsonValue, NumberValue};
use crate::moderation::ModerationResult;
use crate::player::Player;
use crate::request::{
    decimal, decimal_text, evaluate_url_path, pairs_view, url_of, Method, Request, RequestView,
    SECRET_HEADER, SESSION_HEADER,
};
use crate::response::{
    achievements_outcome, auth_outcome, moderation_outcome, player_outcome, read_achievements,
    read_auth, read_player, read_save, read_save_delete, read_save_write, read_saves, read_unlock,
    save_delete_outcome, save_outcome, save_write_outcome, saves_outcome, unlock_outcome,
    NOT_FOUND,
};
use crate::save::{SaveData, SaveDeleteResponse, SaveWriteResponse, Saves};
use crate::session::{
    discovered_token, get_token, optional_text, supplied_token, AuthResponseView, TokenLookup,
};
use crate::wire::json_parse;
use vstd::prelude::*;

verus! {

/// The header that announces a JSON body.
pub open spec fn json_header() -> (Seq<char>, Seq<char>) {
    ("Content-Type"@, "application/json"@)
}

/// The header that carries the session.
pub open spec fn session_header(session: Seq<char>) -> (Seq<char>, Seq<char>) {
    (SESSION_HEADER@, session)
}

/// The text of an object with one member that is a string.
pub open spec fn one_string_object(key: Seq<char>, value: Seq<char>) -> Seq<char> {
    printed(JsonValue::Object(seq![(key, JsonValue::String(value))]))
}

/// The request that exchanges a token for a session.
pub open spec fn auth_request_of(token: Seq<char>) -> RequestView {
    RequestView {
        method: Method::Post,
        url: url_of("/api/sdk/auth"@),
        query: Seq::empty(),
        headers: seq![json_header()],
        body: Some(one_string_object("token"@, token)),
    }
}

/// A request that reads: no body, and the session as its only header.
pub open spec fn read_request_of(
    session: Seq<char>,
    path: Seq<char>,
    query: Seq<(Seq<char>, Seq<char>)>,
) -> RequestView {
    RequestView {
        method: Method::Get,
        url: url_of(path),
        query,
        headers: seq![session_header(session)],
        body: None,
    }
}

/// The query that names a save slot.
pub open spec fn slot_query(slot: u32) -> Seq<(Seq<char>, Seq<char>)> {
    seq![("slot"@, decimal_text(slot as nat))]
}

/// A request that posts a JSON body under the session.
pub open spec fn post_request_of(
    session: Seq<char>,
    path: Seq<char>,
    body: Seq<char>,
) -> RequestView {
    RequestView {
        method: Method::Post,
        url: url_of(path),
        query: Seq::empty(),
        headers: seq![json_header(), session_header(session)],
        body: Some(body),
    }
}

/// The request that unlocks an achievement as a privileged caller: as the
/// plain one, with the secret in a header of its own.
pub open spec fn secret_unlock_request_of(
    session: Seq<char>,
    achievement: Seq<char>,
    secret: Seq<char>,
) -> RequestView {
    RequestView {
        method: Method::Post,
        url: url_of("/api/sdk/achievements/unlock"@),
        query: Seq::empty(),
        headers: seq![json_header(), session_header(session), (SECRET_HEADER@, secret)],
        body: Some(one_string_object("key"@, achievement)),
    }
}

/// The body that writes a save slot: the data, and the slot where the caller
/// names one. Without a slot the service takes the first free one.
pub open spec fn save_body(slot: Option<u32>, data: JsonValue) -> JsonValue {
    match slot {
        Some(number) => JsonValue::Object(
            seq![
                ("data"@, data),
                ("slot"@, JsonValue::Number(NumberValue::PosInt(number as u64))),
            ],
        ),
        None => JsonValue::Object(seq![("data"@, data)]),
    }
}

/// The request that deletes a save slot.
pub open spec fn delete_request_of(session: Seq<char>, slot: u32) -> RequestView {
    RequestView {
        method: Method::Delete,
        url: url_of("/api/sdk/saves"@),
        query: slot_query(slot),
        headers: seq![session_header(session)],
        body: None,
    }
}

fn header(name: &str, value: &str) -> (pair: (String, String))
    ensures
        pair.0@ == name@,
        pair.1@ == value@,
{
    (name.to_owned(), value.to_owned())
}

fn one_string_body(key: &str, value: &str) -> (body: String)
    ensures
        body@ == one_string_object(key@, value@),
{
    let mut members: Vec<(String, Json)> = Vec::new();
    members.push((key.to_owned(), Json::String(value.to_owned())));
    let json = Json::Object(members);
    proof {
        reveal_with_fuel(crate::json::model, 2);
        assert(json@->Object_0 =~= seq![(key@, JsonValue::String(value@))]);
    }
    json.to_text()
}

/// A client of the service under one session. The session identifier is
/// obtained once, at login, and sent with every request after it.
#[derive(Debug, Clone)]
pub struct Gamplo {
    session_id: String,
}

impl Gamplo {
    /// The session identifier that the client holds.
    pub closed spec fn session(&self) -> Seq<char> {
        self.session_id@
    }

    /// The request that exchanges a token for a session.
    pub fn auth_request(token: &str) -> (request: Request)
        requires
            token@.len() > 0,
        ensures
            request@ == auth_request_of(token@),
    {
        let mut headers: Vec<(String, String)> = Vec::new();
        headers.push(header("Content-Type", "application/json"));
        let request = Request {
            method: Method::Post,
            url: evaluate_url_path("/api/sdk/auth"),
            query: Vec::new(),
            headers,
            body: Some(one_string_body("token", token)),
        };
        proof {
            assert(request@.query =~= Seq::empty());
            assert(request@.headers =~= seq![json_header()]);
        }
        request
    }

    /// The request that exchanges a token for a session, for a caller that
    /// has not looked at the token: nothing where the token is empty.
    pub fn checked_auth_request(token: &str) -> (request: Option<Request>)
        ensures
            request is Some <==> token@.len() > 0,
            request matches Some(made) ==> made@ == auth_request_of(token@),
    {
        if token.is_empty() {
            None
        } else {
            Some(Gamplo::auth_request(token))
        }
    }

    /// The request that exchanges a token that the caller supplies for a
    /// session, or the error where the token is empty.
    pub fn supplied_auth_request(token: &str) -> (outcome: Result<Request, GamploError>)
        ensures
            match outcome {
                Ok(request) => supplied_token(token@) is Ok && request@ == auth_request_of(token@),
                Err(error) => supplied_token(token@) == Err::<Seq<char>, GamploErrorView>(error@),
            },
    {
        match Gamplo::checked_auth_request(token) {
            Some(request) => Ok(request),
            None => Err(GamploError::TokenNotFound("the token is empty".to_owned())),
        }
    }

    /// The request that exchanges a discovered token for a session, or the
    /// error where discovery found no token.
    pub fn discovered_auth_request(environment: Option<String>, page: TokenLookup) -> (outcome:
        Result<Request, GamploError>)
        ensures
            match outcome {
                Ok(request) => discovered_token(optional_text(environment), page@) matches Ok(
                    token,
                ) && request@ == auth_request_of(token),
                Err(error) => discovered_token(optional_text(environment), page@) == Err::<
                    Seq<char>,
                    GamploErrorView,
                >(error@),
            },
    {
        match get_token(environment, page) {
            Ok(token) => Ok(Gamplo::auth_request(token.as_str())),
            Err(error) => Err(error),
        }
    }

    /// Makes a client from the answer to a token, and hands out the player
    /// that holds the session where the answer names one.
    pub fn from_token_with_player(response: &str) -> (outcome: Result<
        (Gamplo, Option<Player>),
        GamploError,
    >)
        ensures
            match outcome {
                Ok((client, player)) => auth_outcome(response@, json_parse(response@)) == Ok::<
                    AuthResponseView,
                    GamploErrorView,
                >(
                    AuthResponseView {
                        session_id: client.session(),
                        player: match player {
                            Some(held) => Some(held@),
                            None => None,
                        },
                    },
                ),
                Err(error) => auth_outcome(response@, json_parse(response@)) == Err::<
                    AuthResponseView,
                    GamploErrorView,
                >(error@),
            },
    {
        let parsed = match Json::parse(response) {
            Ok(parsed) => parsed,
            Err(cause) => {
                return Err(
                    GamploError::Deserialization {
                        target: "auth error response".to_owned(),
                        data: response.to_owned(),
                        source: JsonError::Syntax(cause),
                    },
                );
            },
        };
        match read_auth(response, &parsed) {
            Ok(auth) => Ok((Gamplo { session_id: auth.session_id }, auth.player)),
            Err(error) => Err(error),
        }
    }

    /// Makes a client from the answer to a token.
    pub fn from_token(response: &str) -> (outcome: Result<Gamplo, GamploError>)
        ensures
            match outcome {
                Ok(client) => auth_outcome(response@, json_parse(response@)) matches Ok(auth)
                    && auth.session_id == client.session(),
                Err(error) => auth_outcome(response@, json_parse(response@)) == Err::<
                    AuthResponseView,
                    GamploErrorView,
                >(error@),
            },
    {
        match Gamplo::from_token_with_player(response) {
            Ok(made) => Ok(made.0),
            Err(error) => Err(error),
        }
    }

    /// The session identifier that the client holds.
    pub fn session_id(&self) -> (session_id: &str)
        ensures
            session_id@ == self.session(),
    {
        self.session_id.as_str()
    }

    fn read_request(&self, path: &str, query: Vec<(String, String)>) -> (request: Request)
        ensures
            request@ == read_request_of(self.session(), path@, pairs_view(query@)),
    {
        let mut headers: Vec<(String, String)> = Vec::new();
        headers.push(header(SESSION_HEADER, self.session_id.as_str()));
        let request = Request {
            method: Method::Get,
            url: evaluate_url_path(path),
            query,
            headers,
            body: None,
        };
        proof {
            assert(request@.headers =~= seq![session_header(self.session())]);
        }
        request
    }

    fn post_request(&self, path: &str, body: String) -> (request: Request)
        ensures
            request@ == post_request_of(self.session(), path@, body@),
    {
        let mut headers: Vec<(String, String)> = Vec::new();
        headers.push(header("Content-Type", "application/json"));
        headers.push(header(SESSION_HEADER, self.session_id.as_str()));
        let request = Request {
            method: Method::Post,
            url: evaluate_url_path(path),
            query: Vec::new(),
            headers,
            body: Some(body),
        };
        proof {
            assert(request@.query =~= Seq::empty());
            assert(request@.headers =~= seq![json_header(), session_header(self.session())]);
        }
        request
    }

    fn slot_parameter(slot: u32) -> (query: Vec<(String, String)>)
        ensures
            pairs_view(query@) == slot_query(slot),
    {
        let mut query: Vec<(String, String)> = Vec::new();
        query.push(("slot".to_owned(), decimal(slot)));
        assert(pairs_view(query@) =~= slot_query(slot));
        query
    }

    /// The request that asks for the player who holds the session.
    pub fn get_player_request(&self) -> (request: Request)
        ensures
            request@ == read_request_of(self.session(), "/api/sdk/player"@, Seq::empty()),
    {
        let query: Vec<(String, String)> = Vec::new();
        assert(pairs_view(query@) =~= Seq::empty());
        self.read_request("/api/sdk/player", query)
    }

    /// Reads the answer to asking for the player. A `null` player is no
    /// error: the session has no player.
    pub fn get_player(&self, response: &str) -> (outcome: Result<Option<Player>, GamploError>)
        ensures
            optional_outcome_view(outcome) == player_outcome(response@, json_parse(response@)),
    {
        match Json::parse(response) {
            Ok(parsed) => read_player(response, &parsed),
            Err(cause) => Err(GamploError::Json(cause)),
        }
    }

    /// The request that asks for the achievements.
    pub fn get_achievements_request(&self) -> (request: Request)
        ensures
            request@ == read_request_of(self.session(), "/api/sdk/achievements"@, Seq::empty()),
    {
        let query: Vec<(String, String)> = Vec::new();
        assert(pairs_view(query@) =~= Seq::empty());
        self.read_request("/api/sdk/achievements", query)
    }

    /// Reads the answer to asking for the achievements. A response without
    /// the member `achievements` is an error, never an empty list.
    pub fn get_achievements(&self, response: &str) -> (outcome: Result<
        Vec<Achievement>,
        GamploError,
    >)
        ensures
            match outcome {
                Ok(list) => achievements_outcome(response@, json_parse(response@)) == Ok::<
                    Seq<AchievementView>,
                    GamploErrorView,
                >(achievement_views(list@)),
                Err(error) => achievements_outcome(response@, json_parse(response@)) == Err::<
                    Seq<AchievementView>,
                    GamploErrorView,
                >(error@),
            },
            json_parse(response@) matches Some(value) && value.get("achievements"@) is None ==> (
            outcome matches Err(GamploError::MissingField { field, response: raw }) && field@
                == "achievements"@ && raw@ == response@),
    {
        match Json::parse(response) {
            Ok(parsed) => read_achievements(response, &parsed),
            Err(cause) => Err(GamploError::Json(cause)),
        }
    }

    /// The request that asks for the save slots.
    pub fn get_saves_request(&self) -> (request: Request)
        ensures
            request@ == read_request_of(self.session(), "/api/sdk/saves"@, Seq::empty()),
    {
        let query: Vec<(String, String)> = Vec::new();
        assert(pairs_view(query@) =~= Seq::empty());
        self.read_request("/api/sdk/saves", query)
    }

    /// Reads the answer to asking for the save slots.
    pub fn get_saves(&self, response: &str) -> (outcome: Result<Saves, GamploError>)
        ensures
            outcome_view(outcome) == saves_outcome(response@, json_parse(response@)),
    {
        match Json::parse(response) {
            Ok(parsed) => read_saves(response, &parsed),
            Err(cause) => Err(
                GamploError::Deserialization {
                    target: "Saves".to_owned(),
                    data: response.to_owned(),
                    source: JsonError::Syntax(cause),
                },
            ),
        }
    }

    /// The request that asks for one save slot.
    pub fn get_save_request(&self, slot: u32) -> (request: Request)
        ensures
            request@ == read_request_of(self.session(), "/api/sdk/saves"@, slot_query(slot)),
    {
        self.read_request("/api/sdk/saves", Gamplo::slot_parameter(slot))
    }

    /// Reads the answer to asking for one save slot. The status that reports
    /// an empty slot gives nothing and is no error.
    pub fn get_save(&self, status: u16, response: &str) -> (outcome: Result<
        Option<SaveData>,
        GamploError,
    >)
        ensures
            optional_outcome_view(outcome) == save_outcome(
                status,
                response@,
                json_parse(response@),
            ),
            status == NOT_FOUND ==> outcome matches Ok(None),
    {
        if status == NOT_FOUND {
            return Ok(None);
        }
        match Json::parse(response) {
            Ok(parsed) => read_save(status, response, &parsed),
            Err(cause) => Err(
                GamploError::Deserialization {
                    target: "SaveData".to_owned(),
                    data: response.to_owned(),
                    source: JsonError::Syntax(cause),
                },
            ),
        }
    }

    /// The request that unlocks an achievement.
    pub fn unlock_achievement_request(&self, achievement: &str) -> (request: Request)
        ensures
            request@ == post_request_of(
                self.session(),
                "/api/sdk/achievements/unlock"@,
                one_string_object("key"@, achievement@),
            ),
    {
        self.post_request("/api/sdk/achievements/unlock", one_string_body("key", achievement))
    }

    /// Reads the answer to an unlock. Unless the answer says `success`, the
    /// unlock failed, whatever else the answer holds.
    pub fn unlock_achievement(&self, achievement: &str, response: &str) -> (outcome: Result<
        AchievementUnlockResponse,
        GamploError,
    >)
        ensures
            outcome_view(outcome) == unlock_outcome(
                achievement@,
                response@,
                json_parse(response@),
            ),
            outcome matches Ok(answer) ==> answer.success,
            json_parse(response@) matches Some(value) && value.get("success"@) != Some(
                JsonValue::Bool(true),
            ) ==> (outcome matches Err(GamploError::ApiError(_))),
            json_parse(response@) matches Some(value) && value.get("success"@) == Some(
                JsonValue::Bool(true),
            ) && AchievementUnlockResponseView::from_json(value) is Err ==> (
            outcome matches Err(GamploError::Deserialization { target, data, source })
                && target@ == "AchievementUnlockResponse"@ && data@ == response@
                && source@ is Shape),
    {
        match Json::parse(response) {
            Ok(parsed) => read_unlock(achievement, response, &parsed),
            Err(cause) => Err(GamploError::Json(cause)),
        }
    }

    /// The request that unlocks an achievement as a privileged caller. The
    /// secret must never reach a client-side context.
    pub fn unlock_achievement_with_secret_request(
        &self,
        achievement: &str,
        api_secret: &str,
    ) -> (request: Request)
        ensures
            request@ == secret_unlock_request_of(self.session(), achievement@, api_secret@),
    {
        let mut headers: Vec<(String, String)> = Vec::new();
        headers.push(header("Content-Type", "application/json"));
        headers.push(header(SESSION_HEADER, self.session_id.as_str()));
        headers.push(header(SECRET_HEADER, api_secret));
        let request = Request {
            method: Method::Post,
            url: evaluate_url_path("/api/sdk/achievements/unlock"),
            query: Vec::new(),
            headers,
            body: Some(one_string_body("key", achievement)),
        };
        proof {
            assert(request@.query =~= Seq::empty());
            assert(request@.headers =~= seq![
                json_header(),
                session_header(self.session()),
                (SECRET_HEADER@, api_secret@),
            ]);
        }
        request
    }

    /// Reads the answer to a privileged unlock, as that to a plain one.
    pub fn unlock_achievement_with_secret(&self, achievement: &str, response: &str) -> (outcome:
        Result<AchievementUnlockResponse, GamploError>)
        ensures
            outcome_view(outcome) == unlock_outcome(
                achievement@,
                response@,
                json_parse(response@),
            ),
            outcome matches Ok(answer) ==> answer.success,
    {
        self.unlock_achievement(achievement, response)
    }

    /// The request that writes a save slot: the slot named, or the first
    /// free one where none is named.
    pub fn save_request(&self, slot: Option<u32>, data: Json) -> (request: Request)
        ensures
            request@ == post_request_of(
                self.session(),
                "/api/sdk/saves"@,
                printed(save_body(slot, data@)),
            ),
    {
        let ghost payload = data@;
        let mut members: Vec<(String, Json)> = Vec::new();
        members.push(("data".to_owned(), data));
        match slot {
            Some(number) => {
                members.push(
                    ("slot".to_owned(), Json::Number(JsonNumber::PosInt(number as u64))),
                );
            },
            None => {},
        }
        let body = Json::Object(members);
        proof {
            reveal_with_fuel(crate::json::model, 2);
            assert(body@->Object_0 =~= save_body(slot, payload)->Object_0);
        }
        self.post_request("/api/sdk/saves", body.to_text())
    }

    /// Reads the answer to writing a save slot.
    pub fn save(&self, response: &str) -> (outcome: Result<SaveWriteResponse, GamploError>)
        ensures
            outcome_view(outcome) == save_write_outcome(response@, json_parse(response@)),
    {
        match Json::parse(response) {
            Ok(parsed) => read_save_write(response, &parsed),
            Err(cause) => Err(
                GamploError::Deserialization {
                    target: "SaveWriteResponse".to_owned(),
                    data: response.to_owned(),
                    source: JsonError::Syntax(cause),
                },
            ),
        }
    }

    /// The request that deletes a save slot.
    pub fn delete_save_request(&self, slot: u32) -> (request: Request)
        ensures
            request@ == delete_request_of(self.session(), slot),
    {
        let mut headers: Vec<(String, String)> = Vec::new();
        headers.push(header(SESSION_HEADER, self.session_id.as_str()));
        let request = Request {
            method: Method::Delete,
            url: evaluate_url_path("/api/sdk/saves"),
            query: Gamplo::slot_parameter(slot),
            headers,
            body: None,
        };
        proof {
            assert(request@.headers =~= seq![session_header(self.session())]);
        }
        request
    }

    /// Reads the answer to deleting a save slot.
    pub fn delete_save(&self, response: &str) -> (outcome: Result<SaveDeleteResponse, GamploError>)
        ensures
            outcome_view(outcome) == save_delete_outcome(response@, json_parse(response@)),
    {
        match Json::parse(response) {
            Ok(parsed) => read_save_delete(response, &parsed),
            Err(cause) => Err(
                GamploError::Deserialization {
                    target: "SaveDeleteResponse".to_owned(),
                    data: response.to_owned(),
                    source: JsonError::Syntax(cause),
                },
            ),
        }
    }

    /// The request that asks for the verdict on a text.
    pub fn moderate_request(&self, text: &str) -> (request: Request)
        ensures
            request@ == post_request_of(
                self.session(),
                "/api/sdk/moderate"@,
                one_string_object("text"@, text@),
            ),
    {
        self.post_request("/api/sdk/moderate", one_string_body("text", text))
    }

    /// Reads the verdict on a text: blocked or allowed, exactly one of them.
    pub fn moderate(&self, response: &str) -> (outcome: Result<ModerationResult, GamploError>)
        ensures
            outcome_view(outcome) == moderation_outcome(response@, json_parse(response@)),
            outcome matches Ok(verdict) ==> (verdict@ is Blocked) != (verdict@ is Allowed),
    {
        match Json::parse(response) {
            Ok(parsed) => Ok(ModerationResult::from_json(&parsed)),
            Err(cause) => Err(
                GamploError::Deserialization {
                    target: "ModerationResult".to_owned(),
                    data: response.to_owned(),
                    source: JsonError::Syntax(cause),
                },
            ),
        }
    }
}

} // verus!
