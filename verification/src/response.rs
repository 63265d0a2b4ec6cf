//! What the answers of the service amount to.
//!
//! For each operation a function of the response body and of the JSON
//! document read from it, if it is one, says what the caller gets: the typed
//! record or the error. The readers below compute it from a body that has
//! been read already.

use crate::achievement::{
    achievement_views, Achievement, AchievementUnlockResponse, AchievementUnlockResponseView,
    AchievementView,
};
use crate::error::{
    optional_outcome_view, outcome_view, GamploError, GamploErrorView, JsonError, JsonErrorView,
};
use crate::json::{printed, Json, JsonValue};
use crate::moderation::ModerationResultView;
use crate::player::{Player, PlayerView};
use crate::save::{
    SaveData, SaveDataView, SaveDeleteResponse, SaveDeleteResponseView, SaveWriteResponse,
    SaveWriteResponseView, Saves, SavesView,
};
use crate::session::{AuthResponse, AuthResponseView};
use crate::util::{error_of, get_error};
use crate::wire::json_fault;
use vstd::prelude::*;
use vstd::string::StringExecFns;

verus! {

/// The status with which the service reports that a save slot is empty.
pub const NOT_FOUND: u16 = 404;

/// The answer to a token. A body that is no JSON cannot be decoded; a body
/// that reports an error is a rejection with that reason, whatever else it
/// holds; any other body must decode as the session.
pub open spec fn auth_outcome(body: Seq<char>, parsed: Option<JsonValue>) -> Result<
    AuthResponseView,
    GamploErrorView,
> {
    match parsed {
        None => Err(
            GamploErrorView::Deserialization {
                target: "auth error response"@,
                data: body,
                source: JsonErrorView::Syntax(json_fault(body)),
            },
        ),
        Some(value) => match error_of(value) {
            Some(reason) => Err(GamploErrorView::Authentication(reason)),
            None => match AuthResponseView::from_json(value) {
                Ok(auth) => Ok(auth),
                Err(cause) => Err(
                    GamploErrorView::Deserialization {
                        target: "AuthResponse"@,
                        data: body,
                        source: JsonErrorView::Shape(cause),
                    },
                ),
            },
        },
    }
}

/// The answer to asking for the player: the member `player` of the body,
/// where `null` stands for no player and is no error.
pub open spec fn player_outcome(body: Seq<char>, parsed: Option<JsonValue>) -> Result<
    Option<PlayerView>,
    GamploErrorView,
> {
    match parsed {
        None => Err(GamploErrorView::Json(json_fault(body))),
        Some(value) => match value.get("player"@) {
            None => Err(GamploErrorView::MissingField { field: "player"@, response: body }),
            Some(JsonValue::Null) => Ok(None),
            Some(member) => match PlayerView::from_json(member) {
                Ok(player) => Ok(Some(player)),
                Err(cause) => Err(
                    GamploErrorView::Deserialization {
                        target: "Player"@,
                        data: printed(member),
                        source: JsonErrorView::Shape(cause),
                    },
                ),
            },
        },
    }
}

/// The answer to asking for the achievements: the member `achievements` of
/// the body. A body without it is an error, never an empty list.
pub open spec fn achievements_outcome(body: Seq<char>, parsed: Option<JsonValue>) -> Result<
    Seq<AchievementView>,
    GamploErrorView,
> {
    match parsed {
        None => Err(GamploErrorView::Json(json_fault(body))),
        Some(value) => match value.get("achievements"@) {
            None => Err(
                GamploErrorView::MissingField { field: "achievements"@, response: body },
            ),
            Some(member) => match AchievementView::list_from_json(member) {
                Ok(list) => Ok(list),
                Err(cause) => Err(
                    GamploErrorView::Deserialization {
                        target: "achievements"@,
                        data: printed(member),
                        source: JsonErrorView::Shape(cause),
                    },
                ),
            },
        },
    }
}

/// The answer to asking for the save slots: the whole body as the slots.
pub open spec fn saves_outcome(body: Seq<char>, parsed: Option<JsonValue>) -> Result<
    SavesView,
    GamploErrorView,
> {
    match parsed {
        None => Err(
            GamploErrorView::Deserialization {
                target: "Saves"@,
                data: body,
                source: JsonErrorView::Syntax(json_fault(body)),
            },
        ),
        Some(value) => match SavesView::from_json(value) {
            Ok(saves) => Ok(saves),
            Err(cause) => Err(
                GamploErrorView::Deserialization {
                    target: "Saves"@,
                    data: body,
                    source: JsonErrorView::Shape(cause),
                },
            ),
        },
    }
}

/// The answer to asking for one save slot. The status that reports an empty
/// slot gives nothing, whatever the body; under any other status the whole
/// body is the slot's content.
pub open spec fn save_outcome(status: u16, body: Seq<char>, parsed: Option<JsonValue>) -> Result<
    Option<SaveDataView>,
    GamploErrorView,
> {
    if status == NOT_FOUND {
        Ok(None)
    } else {
        match parsed {
            None => Err(
                GamploErrorView::Deserialization {
                    target: "SaveData"@,
                    data: body,
                    source: JsonErrorView::Syntax(json_fault(body)),
                },
            ),
            Some(value) => match SaveDataView::from_json(value) {
                Ok(save) => Ok(Some(save)),
                Err(cause) => Err(
                    GamploErrorView::Deserialization {
                        target: "SaveData"@,
                        data: body,
                        source: JsonErrorView::Shape(cause),
                    },
                ),
            },
        }
    }
}

/// The answer to writing a save slot: the whole body as the answer.
pub open spec fn save_write_outcome(body: Seq<char>, parsed: Option<JsonValue>) -> Result<
    SaveWriteResponseView,
    GamploErrorView,
> {
    match parsed {
        None => Err(
            GamploErrorView::Deserialization {
                target: "SaveWriteResponse"@,
                data: body,
                source: JsonErrorView::Syntax(json_fault(body)),
            },
        ),
        Some(value) => match SaveWriteResponseView::from_json(value) {
            Ok(answer) => Ok(answer),
            Err(cause) => Err(
                GamploErrorView::Deserialization {
                    target: "SaveWriteResponse"@,
                    data: body,
                    source: JsonErrorView::Shape(cause),
                },
            ),
        },
    }
}

/// The answer to deleting a save slot: the whole body as the answer.
pub open spec fn save_delete_outcome(body: Seq<char>, parsed: Option<JsonValue>) -> Result<
    SaveDeleteResponseView,
    GamploErrorView,
> {
    match parsed {
        None => Err(
            GamploErrorView::Deserialization {
                target: "SaveDeleteResponse"@,
                data: body,
                source: JsonErrorView::Syntax(json_fault(body)),
            },
        ),
        Some(value) => match SaveDeleteResponseView::from_json(value) {
            Ok(answer) => Ok(answer),
            Err(cause) => Err(
                GamploErrorView::Deserialization {
                    target: "SaveDeleteResponse"@,
                    data: body,
                    source: JsonErrorView::Shape(cause),
                },
            ),
        },
    }
}

/// The detail of a failed unlock: the achievement asked for and the raw
/// response.
pub open spec fn unlock_failure(achievement: Seq<char>, body: Seq<char>) -> Seq<char> {
    "Failed to unlock achievement: "@ + achievement + ", response: "@ + body
}

/// The answer to an unlock. The body is first looked at as plain JSON: unless
/// its member `success` is `true` the unlock failed, even where the rest has
/// the expected shape. Only then is the body decoded as the typed answer; a
/// body that says `success` and does not decode is reported with the raw
/// body, like every response that does not fit its record.
pub open spec fn unlock_outcome(
    achievement: Seq<char>,
    body: Seq<char>,
    parsed: Option<JsonValue>,
) -> Result<AchievementUnlockResponseView, GamploErrorView> {
    match parsed {
        None => Err(GamploErrorView::Json(json_fault(body))),
        Some(value) => if value.get("success"@) != Some(JsonValue::Bool(true)) {
            Err(GamploErrorView::ApiError(unlock_failure(achievement, body)))
        } else {
            match AchievementUnlockResponseView::from_json(value) {
                Ok(answer) => Ok(answer),
                Err(cause) => Err(
                    GamploErrorView::Deserialization {
                        target: "AchievementUnlockResponse"@,
                        data: body,
                        source: JsonErrorView::Shape(cause),
                    },
                ),
            }
        },
    }
}

/// The answer to moderating a text: every JSON body is a verdict.
pub open spec fn moderation_outcome(body: Seq<char>, parsed: Option<JsonValue>) -> Result<
    ModerationResultView,
    GamploErrorView,
> {
    match parsed {
        None => Err(
            GamploErrorView::Deserialization {
                target: "ModerationResult"@,
                data: body,
                source: JsonErrorView::Syntax(json_fault(body)),
            },
        ),
        Some(value) => Ok(ModerationResultView::from_json(value)),
    }
}

/// Reads the answer to a token from a body and the document read from it.
pub fn read_auth(body: &str, parsed: &Json) -> (outcome: Result<AuthResponse, GamploError>)
    ensures
        outcome_view(outcome) == auth_outcome(body@, Some(parsed@)),
{
    match get_error(parsed) {
        Some(reason) => Err(GamploError::Authentication(reason)),
        None => match AuthResponse::from_json(parsed) {
            Ok(auth) => Ok(auth),
            Err(cause) => Err(
                GamploError::Deserialization {
                    target: "AuthResponse".to_owned(),
                    data: body.to_owned(),
                    source: JsonError::Shape(cause),
                },
            ),
        },
    }
}

/// Reads the player from a body and the document read from it.
pub fn read_player(body: &str, parsed: &Json) -> (outcome: Result<Option<Player>, GamploError>)
    ensures
        optional_outcome_view(outcome) == player_outcome(body@, Some(parsed@)),
{
    match parsed.get("player") {
        None => Err(
            GamploError::MissingField { field: "player".to_owned(), response: body.to_owned() },
        ),
        Some(member) => if member.is_null() {
            Ok(None)
        } else {
            match Player::from_json(member) {
                Ok(player) => Ok(Some(player)),
                Err(cause) => Err(
                    GamploError::Deserialization {
                        target: "Player".to_owned(),
                        data: member.to_text(),
                        source: JsonError::Shape(cause),
                    },
                ),
            }
        },
    }
}

/// Reads the achievements from a body and the document read from it.
pub fn read_achievements(body: &str, parsed: &Json) -> (outcome: Result<
    Vec<Achievement>,
    GamploError,
>)
    ensures
        match outcome {
            Ok(list) => achievements_outcome(body@, Some(parsed@)) == Ok::<
                Seq<AchievementView>,
                GamploErrorView,
            >(achievement_views(list@)),
            Err(error) => achievements_outcome(body@, Some(parsed@)) == Err::<
                Seq<AchievementView>,
                GamploErrorView,
            >(error@),
        },
{
    match parsed.get("achievements") {
        None => Err(
            GamploError::MissingField {
                field: "achievements".to_owned(),
                response: body.to_owned(),
            },
        ),
        Some(member) => match Achievement::list_from_json(member) {
            Ok(list) => Ok(list),
            Err(cause) => Err(
                GamploError::Deserialization {
                    target: "achievements".to_owned(),
                    data: member.to_text(),
                    source: JsonError::Shape(cause),
                },
            ),
        },
    }
}

/// Reads the save slots from a body and the document read from it.
pub fn read_saves(body: &str, parsed: &Json) -> (outcome: Result<Saves, GamploError>)
    ensures
        outcome_view(outcome) == saves_outcome(body@, Some(parsed@)),
{
    match Saves::from_json(parsed) {
        Ok(saves) => Ok(saves),
        Err(cause) => Err(
            GamploError::Deserialization {
                target: "Saves".to_owned(),
                data: body.to_owned(),
                source: JsonError::Shape(cause),
            },
        ),
    }
}

/// Reads one save slot from the status of a response, its body and the
/// document read from the body.
pub fn read_save(status: u16, body: &str, parsed: &Json) -> (outcome: Result<
    Option<SaveData>,
    GamploError,
>)
    ensures
        optional_outcome_view(outcome) == save_outcome(status, body@, Some(parsed@)),
{
    if status == NOT_FOUND {
        return Ok(None);
    }
    match SaveData::from_json(parsed) {
        Ok(save) => Ok(Some(save)),
        Err(cause) => Err(
            GamploError::Deserialization {
                target: "SaveData".to_owned(),
                data: body.to_owned(),
                source: JsonError::Shape(cause),
            },
        ),
    }
}

/// Reads the answer to writing a slot from a body and the document read
/// from it.
pub fn read_save_write(body: &str, parsed: &Json) -> (outcome: Result<
    SaveWriteResponse,
    GamploError,
>)
    ensures
        outcome_view(outcome) == save_write_outcome(body@, Some(parsed@)),
{
    match SaveWriteResponse::from_json(parsed) {
        Ok(answer) => Ok(answer),
        Err(cause) => Err(
            GamploError::Deserialization {
                target: "SaveWriteResponse".to_owned(),
                data: body.to_owned(),
                source: JsonError::Shape(cause),
            },
        ),
    }
}

/// Reads the answer to deleting a slot from a body and the document read
/// from it.
pub fn read_save_delete(body: &str, parsed: &Json) -> (outcome: Result<
    SaveDeleteResponse,
    GamploError,
>)
    ensures
        outcome_view(outcome) == save_delete_outcome(body@, Some(parsed@)),
{
    match SaveDeleteResponse::from_json(parsed) {
        Ok(answer) => Ok(answer),
        Err(cause) => Err(
            GamploError::Deserialization {
                target: "SaveDeleteResponse".to_owned(),
                data: body.to_owned(),
                source: JsonError::Shape(cause),
            },
        ),
    }
}

/// Reads the answer to an unlock from a body and the document read from it.
pub fn read_unlock(achievement: &str, body: &str, parsed: &Json) -> (outcome: Result<
    AchievementUnlockResponse,
    GamploError,
>)
    ensures
        outcome_view(outcome) == unlock_outcome(achievement@, body@, Some(parsed@)),
        outcome matches Ok(answer) ==> answer.success && answer@.state()
            != crate::achievement::UnlockState::Failed,
{
    let succeeded = match parsed.get("success") {
        Some(member) => match member.as_bool() {
            Some(truth) => truth,
            None => false,
        },
        None => false,
    };
    if !succeeded {
        let mut detail = "Failed to unlock achievement: ".to_owned();
        detail.append(achievement);
        detail.append(", response: ");
        detail.append(body);
        return Err(GamploError::ApiError(detail));
    }
    match AchievementUnlockResponse::from_json(parsed) {
        Ok(answer) => Ok(answer),
        Err(cause) => Err(
            GamploError::Deserialization {
                target: "AchievementUnlockResponse".to_owned(),
                data: body.to_owned(),
                source: JsonError::Shape(cause),
            },
        ),
    }
}

} // verus!
