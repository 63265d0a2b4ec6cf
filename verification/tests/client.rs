use gamplo::error::{DecodeError, GamploError, JsonError};
use gamplo::json::{Json, JsonNumber};
use gamplo::player::Player;
use gamplo::request::{decimal, Method, Request};
use gamplo::response::{
    read_achievements, read_auth, read_player, read_save, read_save_delete, read_save_write,
    read_saves, read_unlock,
};
use gamplo::session::{AuthResponse, TokenLookup};
use gamplo::time::Timestamp;
use gamplo::util::get_error;
use gamplo::{evaluate_url_path, get_token, Gamplo, ModerationResult, GAMPLO_URL};

fn pair(name: &str, value: &str) -> (String, String) {
    (name.to_string(), value.to_string())
}

fn client() -> Gamplo {
    Gamplo::from_token(r#"{"sessionId":"abc","player":null}"#).unwrap()
}

#[test]
fn url_of_a_path() {
    assert_eq!(GAMPLO_URL, "https://gamplo.com");
    assert_eq!(evaluate_url_path("/api/sdk/player"), "https://gamplo.com/api/sdk/player");
    assert_eq!(evaluate_url_path(""), "https://gamplo.com");
}

#[test]
fn decimal_numerals() {
    assert_eq!(decimal(0), "0");
    assert_eq!(decimal(7), "7");
    assert_eq!(decimal(10), "10");
    assert_eq!(decimal(1905), "1905");
    assert_eq!(decimal(4294967295), "4294967295");
}

#[test]
fn auth_request_carries_the_token() {
    assert_eq!(
        Gamplo::auth_request("tok-1"),
        Request {
            method: Method::Post,
            url: "https://gamplo.com/api/sdk/auth".to_string(),
            query: vec![],
            headers: vec![pair("Content-Type", "application/json")],
            body: Some(r#"{"token":"tok-1"}"#.to_string()),
        }
    );
    assert_eq!(
        Gamplo::auth_request("a\"b\\c\n").body,
        Some(r#"{"token":"a\"b\\c\n"}"#.to_string())
    );
}

#[test]
fn session_is_established() {
    let (client, player) = Gamplo::from_token_with_player(
        r#"{"sessionId":"s-1","player":{"id":"p1","username":"jay","displayName":"Jay","image":"u"}}"#,
    )
    .unwrap();
    assert_eq!(client.session_id(), "s-1");
    assert_eq!(
        player,
        Some(Player {
            id: "p1".to_string(),
            username: "jay".to_string(),
            display_name: "Jay".to_string(),
            avatar_url: Some("u".to_string()),
        })
    );
    let (client, player) =
        Gamplo::from_token_with_player(r#"{"sessionId":"abc","player":null}"#).unwrap();
    assert_eq!(client.session_id(), "abc");
    assert_eq!(player, None);
    assert_eq!(Gamplo::from_token(r#"{"sessionId":"z"}"#).unwrap().session_id(), "z");
}

#[test]
fn session_is_refused() {
    match Gamplo::from_token_with_player(r#"{"error":"Invalid token"}"#) {
        Err(GamploError::Authentication(reason)) => assert_eq!(reason, "Invalid token"),
        other => panic!("unexpected: {:?}", other),
    }
    match Gamplo::from_token(r#"{"error":"expired","sessionId":"abc","player":null}"#) {
        Err(GamploError::Authentication(reason)) => assert_eq!(reason, "expired"),
        other => panic!("unexpected: {:?}", other),
    }
    match Gamplo::from_token("<html>") {
        Err(GamploError::Deserialization { target, data, source: JsonError::Syntax(_) }) => {
            assert_eq!(target, "auth error response");
            assert_eq!(data, "<html>");
        }
        other => panic!("unexpected: {:?}", other),
    }
    match Gamplo::from_token(r#"{"error":404}"#) {
        Err(GamploError::Deserialization { target, data, source: JsonError::Shape(cause) }) => {
            assert_eq!(target, "AuthResponse");
            assert_eq!(data, r#"{"error":404}"#);
            assert_eq!(cause, DecodeError::MissingField("sessionId".to_string()));
        }
        other => panic!("unexpected: {:?}", other),
    }
}

#[test]
fn auth_answer_from_a_document() {
    let body = r#"{"sessionId":"abc","player":null}"#;
    let parsed = Json::parse(body).unwrap();
    assert_eq!(
        read_auth(body, &parsed).unwrap(),
        AuthResponse { session_id: "abc".to_string(), player: None }
    );
    let refused = Json::Object(vec![("error".to_string(), Json::String("no".to_string()))]);
    assert!(matches!(read_auth("x", &refused), Err(GamploError::Authentication(reason)) if reason == "no"));
}

#[test]
fn error_member_is_read() {
    let read = |payload: &str| get_error(&Json::parse(payload).unwrap());
    assert_eq!(read(r#"{"error":"boom"}"#), Some("boom".to_string()));
    assert_eq!(read(r#"{"error":""}"#), Some(String::new()));
    assert_eq!(read(r#"{"error":null}"#), None);
    assert_eq!(read(r#"{"error":{"message":"boom"}}"#), None);
    assert_eq!(read(r#"{"errors":"boom"}"#), None);
    assert_eq!(read(r#"["error"]"#), None);
    assert_eq!(read(r#""error""#), None);
}

#[test]
fn token_discovery() {
    let found = |token: &str| TokenLookup::Found(token.to_string());
    assert_eq!(get_token(Some("env".to_string()), found("page")).unwrap(), "env");
    assert_eq!(get_token(Some("env".to_string()), TokenLookup::NoWindow).unwrap(), "env");
    assert_eq!(get_token(None, found("page")).unwrap(), "page");
    assert_eq!(get_token(Some(String::new()), found("page")).unwrap(), "page");
    let detail = |environment: Option<String>, page: TokenLookup| match get_token(environment, page) {
        Err(GamploError::TokenNotFound(detail)) => detail,
        other => panic!("unexpected: {:?}", other),
    };
    assert_eq!(detail(None, TokenLookup::NoWindow), "Failed to get window object");
    assert_eq!(
        detail(None, TokenLookup::AccessFailed),
        "Failed to access GAMPLO_TOKEN from window"
    );
    assert_eq!(
        detail(Some(String::new()), TokenLookup::Undefined),
        "GAMPLO_TOKEN is not defined on the window object"
    );
    assert_eq!(detail(None, found("")), "GAMPLO_TOKEN is empty");
    assert_eq!(
        detail(None, TokenLookup::NotAString),
        "GAMPLO_TOKEN on the window object is not a string"
    );
    assert_eq!(
        detail(Some(String::new()), TokenLookup::NotAString),
        "GAMPLO_TOKEN on the window object is not a string"
    );
    assert_eq!(get_token(Some("env".to_string()), TokenLookup::NotAString).unwrap(), "env");
}

#[test]
fn read_requests() {
    let client = client();
    let session = vec![pair("x-sdk-session", "abc")];
    assert_eq!(
        client.get_player_request(),
        Request {
            method: Method::Get,
            url: "https://gamplo.com/api/sdk/player".to_string(),
            query: vec![],
            headers: session.clone(),
            body: None,
        }
    );
    assert_eq!(
        client.get_achievements_request(),
        Request {
            method: Method::Get,
            url: "https://gamplo.com/api/sdk/achievements".to_string(),
            query: vec![],
            headers: session.clone(),
            body: None,
        }
    );
    assert_eq!(
        client.get_saves_request(),
        Request {
            method: Method::Get,
            url: "https://gamplo.com/api/sdk/saves".to_string(),
            query: vec![],
            headers: session.clone(),
            body: None,
        }
    );
    assert_eq!(
        client.get_save_request(12),
        Request {
            method: Method::Get,
            url: "https://gamplo.com/api/sdk/saves".to_string(),
            query: vec![pair("slot", "12")],
            headers: session.clone(),
            body: None,
        }
    );
    assert_eq!(
        client.delete_save_request(0),
        Request {
            method: Method::Delete,
            url: "https://gamplo.com/api/sdk/saves".to_string(),
            query: vec![pair("slot", "0")],
            headers: session,
            body: None,
        }
    );
}

#[test]
fn write_requests() {
    let client = client();
    let json_and_session =
        vec![pair("Content-Type", "application/json"), pair("x-sdk-session", "abc")];
    assert_eq!(
        client.unlock_achievement_request("first_blood"),
        Request {
            method: Method::Post,
            url: "https://gamplo.com/api/sdk/achievements/unlock".to_string(),
            query: vec![],
            headers: json_and_session.clone(),
            body: Some(r#"{"key":"first_blood"}"#.to_string()),
        }
    );
    assert_eq!(
        client.unlock_achievement_with_secret_request("first_blood", "hush"),
        Request {
            method: Method::Post,
            url: "https://gamplo.com/api/sdk/achievements/unlock".to_string(),
            query: vec![],
            headers: vec![
                pair("Content-Type", "application/json"),
                pair("x-sdk-session", "abc"),
                pair("x-api-secret", "hush"),
            ],
            body: Some(r#"{"key":"first_blood"}"#.to_string()),
        }
    );
    assert_eq!(
        client.moderate_request("hello there"),
        Request {
            method: Method::Post,
            url: "https://gamplo.com/api/sdk/moderate".to_string(),
            query: vec![],
            headers: json_and_session.clone(),
            body: Some(r#"{"text":"hello there"}"#.to_string()),
        }
    );
    let data = Json::Object(vec![("foo".to_string(), Json::String("bar".to_string()))]);
    assert_eq!(
        client.save_request(Some(3), data.clone()),
        Request {
            method: Method::Post,
            url: "https://gamplo.com/api/sdk/saves".to_string(),
            query: vec![],
            headers: json_and_session.clone(),
            body: Some(r#"{"data":{"foo":"bar"},"slot":3}"#.to_string()),
        }
    );
    assert_eq!(
        client.save_request(None, data).body,
        Some(r#"{"data":{"foo":"bar"}}"#.to_string())
    );
    assert_eq!(
        client.save_request(None, Json::Number(JsonNumber::PosInt(5))).body,
        Some(r#"{"data":5}"#.to_string())
    );
}

#[test]
fn player_answers() {
    let client = client();
    assert_eq!(client.get_player(r#"{"player":null}"#).unwrap(), None);
    let held = client
        .get_player(r#"{"player":{"id":"p1","username":"jay","displayName":"jay","image":null}}"#)
        .unwrap()
        .unwrap();
    assert_eq!(held.id, "p1");
    assert_eq!(held.avatar_url, None);
    match client.get_player(r#"{"user":null}"#) {
        Err(GamploError::MissingField { field, response }) => {
            assert_eq!(field, "player");
            assert_eq!(response, r#"{"user":null}"#);
        }
        other => panic!("unexpected: {:?}", other),
    }
    match client.get_player(r#"{"player":{"username":"jay","id":7}}"#) {
        Err(GamploError::Deserialization { target, data, source: JsonError::Shape(cause) }) => {
            assert_eq!(target, "Player");
            assert_eq!(data, r#"{"id":7,"username":"jay"}"#);
            assert_eq!(cause, DecodeError::InvalidField("id".to_string()));
        }
        other => panic!("unexpected: {:?}", other),
    }
    assert!(matches!(
        client.get_player("not json"),
        Err(GamploError::Json(_))
    ));
    let body = r#"{"player":"jay"}"#;
    match read_player(body, &Json::parse(body).unwrap()) {
        Err(GamploError::Deserialization { data, source: JsonError::Shape(cause), .. }) => {
            assert_eq!(data, r#""jay""#);
            assert_eq!(cause, DecodeError::NotAnObject);
        }
        other => panic!("unexpected: {:?}", other),
    }
}

#[test]
fn achievements_answers() {
    let client = client();
    let body = r#"{"achievements":[{"id":1,"key":"k","title":"t","description":"d","icon":"i","points":10,"hidden":false,"unlocked":true,"unlockedAt":"2024-01-02T03:04:05Z"}]}"#;
    let list = client.get_achievements(body).unwrap();
    assert_eq!(list.len(), 1);
    assert_eq!(list[0].key(), "k");
    assert_eq!(list[0].unlocked_at(), Timestamp::new(1704164645, 0).unwrap());
    assert_eq!(client.get_achievements(r#"{"achievements":[]}"#).unwrap(), vec![]);
    match client.get_achievements(r#"{"items":[]}"#) {
        Err(GamploError::MissingField { field, response }) => {
            assert_eq!(field, "achievements");
            assert_eq!(response, r#"{"items":[]}"#);
        }
        other => panic!("unexpected: {:?}", other),
    }
    match client.get_achievements("{}") {
        Err(GamploError::MissingField { field, .. }) => assert_eq!(field, "achievements"),
        other => panic!("unexpected: {:?}", other),
    }
    match client.get_achievements(r#"{"achievements":null}"#) {
        Err(GamploError::Deserialization { target, data, source: JsonError::Shape(cause) }) => {
            assert_eq!(target, "achievements");
            assert_eq!(data, "null");
            assert_eq!(cause, DecodeError::NotAnArray);
        }
        other => panic!("unexpected: {:?}", other),
    }
    let broken = r#"{"achievements":[{"id":1}]}"#;
    match read_achievements(broken, &Json::parse(broken).unwrap()) {
        Err(GamploError::Deserialization { data, source: JsonError::Shape(cause), .. }) => {
            assert_eq!(data, r#"[{"id":1}]"#);
            assert_eq!(cause, DecodeError::InvalidElement(0));
        }
        other => panic!("unexpected: {:?}", other),
    }
    assert!(matches!(client.get_achievements("["), Err(GamploError::Json(_))));
}

#[test]
fn saves_answers() {
    let client = client();
    let body = r#"{"saves":[{"slot":1,"sizeBytes":20,"createdAt":"2024-01-02T03:04:05Z","updatedAt":"2024-01-02T04:04:05+01:00"}],"maxSlots":3,"maxSizeBytes":1024}"#;
    let saves = client.get_saves(body).unwrap();
    assert_eq!(saves.max_slots, 3);
    assert_eq!(saves.max_size_bytes, 1024);
    assert_eq!(saves.saves.len(), 1);
    assert_eq!(saves.saves[0].slot, 1);
    assert_eq!(saves.saves[0].size_bytes, 20);
    assert_eq!(saves.saves[0].created_at, saves.saves[0].updated_at);
    assert_eq!(read_saves(body, &Json::parse(body).unwrap()).unwrap(), saves);
    match client.get_saves("{") {
        Err(GamploError::Deserialization { target, data, source: JsonError::Syntax(_) }) => {
            assert_eq!(target, "Saves");
            assert_eq!(data, "{");
        }
        other => panic!("unexpected: {:?}", other),
    }
    match client.get_saves(r#"{"saves":[]}"#) {
        Err(GamploError::Deserialization { target, data, source: JsonError::Shape(cause) }) => {
            assert_eq!(target, "Saves");
            assert_eq!(data, r#"{"saves":[]}"#);
            assert_eq!(cause, DecodeError::MissingField("maxSlots".to_string()));
        }
        other => panic!("unexpected: {:?}", other),
    }
}

#[test]
fn save_slot_answers() {
    let client = client();
    let body = r#"{"slot":2,"data":{"hp":10},"sizeBytes":9,"updatedAt":"2024-01-02T03:04:05Z"}"#;
    let save = client.get_save(200, body).unwrap().unwrap();
    assert_eq!(save.slot, 2);
    assert_eq!(save.data.to_text(), r#"{"hp":10}"#);
    assert_eq!(client.get_save(404, body).unwrap(), None);
    assert_eq!(client.get_save(404, "Not Found").unwrap(), None);
    assert_eq!(client.get_save(404, "").unwrap(), None);
    assert_eq!(read_save(404, body, &Json::Null).unwrap(), None);
    assert_eq!(read_save(200, body, &Json::parse(body).unwrap()).unwrap(), Some(save));
    match client.get_save(500, "oops") {
        Err(GamploError::Deserialization { target, data, source: JsonError::Syntax(_) }) => {
            assert_eq!(target, "SaveData");
            assert_eq!(data, "oops");
        }
        other => panic!("unexpected: {:?}", other),
    }
    match client.get_save(200, r#"{"slot":2}"#) {
        Err(GamploError::Deserialization { target, source: JsonError::Shape(cause), .. }) => {
            assert_eq!(target, "SaveData");
            assert_eq!(cause, DecodeError::MissingField("data".to_string()));
        }
        other => panic!("unexpected: {:?}", other),
    }
}

#[test]
fn save_write_and_delete_answers() {
    let client = client();
    let body = r#"{"success":true,"slot":0,"sizeBytes":17,"updatedAt":"2024-01-02T03:04:05Z"}"#;
    let written = client.save(body).unwrap();
    assert!(written.success);
    assert_eq!(written.slot, 0);
    assert_eq!(written.size_bytes, 17);
    assert_eq!(written.updated_at, Timestamp::new(1704164645, 0).unwrap());
    assert_eq!(read_save_write(body, &Json::parse(body).unwrap()).unwrap(), written);
    match client.save(r#"{"success":false}"#) {
        Err(GamploError::Deserialization { target, source: JsonError::Shape(cause), .. }) => {
            assert_eq!(target, "SaveWriteResponse");
            assert_eq!(cause, DecodeError::MissingField("slot".to_string()));
        }
        other => panic!("unexpected: {:?}", other),
    }
    assert!(matches!(
        client.save(""),
        Err(GamploError::Deserialization { source: JsonError::Syntax(_), .. })
    ));
    let body = r#"{"success":true,"deleted":true}"#;
    let deleted = client.delete_save(body).unwrap();
    assert!(deleted.success && deleted.deleted);
    assert_eq!(read_save_delete(body, &Json::parse(body).unwrap()).unwrap(), deleted);
    match client.delete_save("[]") {
        Err(GamploError::Deserialization { target, data, source: JsonError::Shape(cause) }) => {
            assert_eq!(target, "SaveDeleteResponse");
            assert_eq!(data, "[]");
            assert_eq!(cause, DecodeError::NotAnObject);
        }
        other => panic!("unexpected: {:?}", other),
    }
    assert!(matches!(
        client.delete_save("nope"),
        Err(GamploError::Deserialization { source: JsonError::Syntax(_), .. })
    ));
}

#[test]
fn unlock_answers() {
    let client = client();
    let body = r#"{"success":true,"alreadyUnlocked":false,"achievement":{"key":"k","title":"t","description":"d","icon":"i","points":5}}"#;
    let answer = client.unlock_achievement("k", body).unwrap();
    assert!(answer.success());
    assert!(!answer.already_unlocked());
    assert_eq!(answer.achievement().points(), 5);
    let again = client.unlock_achievement_with_secret("k", body).unwrap();
    assert_eq!(again.achievement(), answer.achievement());
    assert!(read_unlock("k", body, &Json::parse(body).unwrap()).is_ok());
}

#[test]
fn unlock_is_gated_on_success() {
    let client = client();
    let failed = r#"{"success":false,"alreadyUnlocked":false,"achievement":{"key":"k","title":"t","description":"d","icon":"i","points":5}}"#;
    match client.unlock_achievement("k", failed) {
        Err(GamploError::ApiError(detail)) => assert_eq!(
            detail,
            format!("Failed to unlock achievement: k, response: {}", failed)
        ),
        other => panic!("unexpected: {:?}", other),
    }
    for body in [r#"{"success":false,"reason":"locked"}"#, "{}", r#"{"success":"true"}"#, r#"{"success":1}"#, "[true]", "null"] {
        match client.unlock_achievement("first_blood", body) {
            Err(GamploError::ApiError(detail)) => assert_eq!(
                detail,
                format!("Failed to unlock achievement: first_blood, response: {}", body)
            ),
            other => panic!("unexpected: {:?}", other),
        }
        assert!(matches!(
            client.unlock_achievement_with_secret("first_blood", body),
            Err(GamploError::ApiError(_))
        ));
    }
    match client.unlock_achievement("first_blood", r#"{"success":true}"#) {
        Err(GamploError::Deserialization { target, data, source: JsonError::Shape(cause) }) => {
            assert_eq!(target, "AchievementUnlockResponse");
            assert_eq!(data, r#"{"success":true}"#);
            assert_eq!(cause, DecodeError::MissingField("alreadyUnlocked".to_string()));
        }
        other => panic!("unexpected: {:?}", other),
    }
    let half = r#"{"success":true,"alreadyUnlocked":false,"achievement":{"key":"k"}}"#;
    match client.unlock_achievement_with_secret("k", half) {
        Err(GamploError::Deserialization { target, data, source: JsonError::Shape(cause) }) => {
            assert_eq!(target, "AchievementUnlockResponse");
            assert_eq!(data, half);
            assert_eq!(cause, DecodeError::InvalidField("achievement".to_string()));
        }
        other => panic!("unexpected: {:?}", other),
    }
    match read_unlock("k", "[]", &Json::Object(vec![("success".to_string(), Json::Bool(true))])) {
        Err(GamploError::Deserialization { target, data, source: JsonError::Shape(cause) }) => {
            assert_eq!(target, "AchievementUnlockResponse");
            assert_eq!(data, "[]");
            assert_eq!(cause, DecodeError::MissingField("alreadyUnlocked".to_string()));
        }
        other => panic!("unexpected: {:?}", other),
    }
    assert!(matches!(
        client.unlock_achievement("k", "<html>"),
        Err(GamploError::Json(_))
    ));
}

#[test]
fn moderation_answers() {
    let client = client();
    assert_eq!(
        client.moderate(r#"{"blocked":true,"reason":"profanity"}"#).unwrap(),
        ModerationResult::Blocked { reason: Some("profanity".to_string()) }
    );
    assert_eq!(
        client.moderate(r#"{"blocked":true}"#).unwrap(),
        ModerationResult::Blocked { reason: None }
    );
    assert_eq!(client.moderate(r#"{"blocked":false}"#).unwrap(), ModerationResult::Allowed);
    assert_eq!(client.moderate("{}").unwrap(), ModerationResult::Allowed);
    for body in [r#"{"blocked":true,"reason":"x"}"#, r#"{"blocked":false,"reason":"x"}"#, "3"] {
        let verdict = client.moderate(body).unwrap();
        assert_ne!(verdict.is_blocked(), verdict == ModerationResult::Allowed);
        assert_eq!(ModerationResult::from_json(&Json::parse(body).unwrap()), verdict);
    }
    match client.moderate("blocked") {
        Err(GamploError::Deserialization { target, data, source: JsonError::Syntax(_) }) => {
            assert_eq!(target, "ModerationResult");
            assert_eq!(data, "blocked");
        }
        other => panic!("unexpected: {:?}", other),
    }
}

#[test]
fn discovered_token_opens_the_session() {
    let request =
        Gamplo::discovered_auth_request(Some("env".to_string()), TokenLookup::NoWindow).unwrap();
    assert_eq!(request, Gamplo::auth_request("env"));
    let request = Gamplo::discovered_auth_request(
        Some(String::new()),
        TokenLookup::Found("page".to_string()),
    )
    .unwrap();
    assert_eq!(request.body, Some(r#"{"token":"page"}"#.to_string()));
    match Gamplo::discovered_auth_request(None, TokenLookup::Undefined) {
        Err(GamploError::TokenNotFound(detail)) => {
            assert_eq!(detail, "GAMPLO_TOKEN is not defined on the window object")
        }
        other => panic!("unexpected: {:?}", other),
    }
}

#[test]
fn unlock_answer_that_succeeded_did_not_fail() {
    let client = client();
    let body = r#"{"success":true,"alreadyUnlocked":true,"achievement":{"key":"k","title":"t","description":"d","icon":"i","points":5}}"#;
    let answer = client.unlock_achievement("k", body).unwrap();
    assert_eq!(answer.state(), gamplo::achievement::UnlockState::AlreadyUnlocked);
}

#[test]
fn empty_token_makes_no_request() {
    assert_eq!(Gamplo::checked_auth_request(""), None);
    assert_eq!(Gamplo::checked_auth_request("t"), Some(Gamplo::auth_request("t")));
    assert_eq!(
        Gamplo::checked_auth_request(" ").unwrap().body,
        Some(r#"{"token":" "}"#.to_string())
    );
}

#[test]
fn supplied_token_opens_the_session() {
    assert_eq!(Gamplo::supplied_auth_request("t").unwrap(), Gamplo::auth_request("t"));
    match Gamplo::supplied_auth_request("") {
        Err(GamploError::TokenNotFound(detail)) => assert_eq!(detail, "the token is empty"),
        other => panic!("unexpected: {:?}", other),
    }
}

#[test]
fn page_value_that_is_no_string_is_no_token() {
    assert!(matches!(
        Gamplo::discovered_auth_request(None, TokenLookup::NotAString),
        Err(GamploError::TokenNotFound(_))
    ));
}

#[test]
fn rejected_bodies_carry_the_parser_message() {
    let client = client();
    match client.get_player("not json") {
        Err(GamploError::Json(cause)) => {
            assert_eq!(cause.message, "expected ident at line 1 column 2");
            assert_eq!(cause.message, cause.error.to_string());
        }
        other => panic!("unexpected: {:?}", other),
    }
    match client.get_saves("{") {
        Err(GamploError::Deserialization { source: JsonError::Syntax(cause), .. }) => {
            assert_eq!(cause.message, "EOF while parsing an object at line 1 column 1");
            assert_eq!(cause.message, cause.error.to_string());
        }
        other => panic!("unexpected: {:?}", other),
    }
}
