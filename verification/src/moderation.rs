//! The verdict of the service on a text.

use crate::json::{lemma_lookup_member, Json, JsonValue};
use vstd::prelude::*;

verus! {

/// The verdict on a text: blocked, with the reason where the service gave
/// one, or allowed. A verdict is exactly one of the two.
#[derive(Debug, Clone, PartialEq, Eq, Hash)]
pub enum ModerationResult {
    Blocked { reason: Option<String> },
    Allowed,
}

/// The model of a [`ModerationResult`].
pub ghost enum ModerationResultView {
    Blocked { reason: Option<Seq<char>> },
    Allowed,
}

impl View for ModerationResult {
    type V = ModerationResultView;

    open spec fn view(&self) -> ModerationResultView {
        match self {
            ModerationResult::Blocked { reason: Some(reason) } => ModerationResultView::Blocked {
                reason: Some(reason@),
            },
            ModerationResult::Blocked { reason: None } => ModerationResultView::Blocked {
                reason: None,
            },
            ModerationResult::Allowed => ModerationResultView::Allowed,
        }
    }
}

impl ModerationResultView {
    /// Whether the text was blocked.
    pub open spec fn is_blocked(self) -> bool {
        self is Blocked
    }

    /// The reason given for blocking; an allowed text has none.
    pub open spec fn reason(self) -> Option<Seq<char>> {
        match self {
            ModerationResultView::Blocked { reason } => reason,
            ModerationResultView::Allowed => None,
        }
    }

    /// The object that stands for the verdict on the wire.
    pub open spec fn to_json(self) -> JsonValue {
        match self {
            ModerationResultView::Blocked { reason } => JsonValue::Object(
                seq![
                    ("blocked"@, JsonValue::Bool(true)),
                    (
                        "reason"@,
                        match reason {
                            Some(text) => JsonValue::String(text),
                            None => JsonValue::Null,
                        },
                    ),
                ],
            ),
            ModerationResultView::Allowed => JsonValue::Object(
                seq![("blocked"@, JsonValue::Bool(false))],
            ),
        }
    }

    /// The verdict that a JSON value stands for: blocked where its member
    /// `blocked` is `true`, with the member `reason` where that is a string;
    /// allowed for every other value.
    pub open spec fn from_json(value: JsonValue) -> ModerationResultView {
        if value.get("blocked"@) == Some(JsonValue::Bool(true)) {
            ModerationResultView::Blocked {
                reason: match value.get("reason"@) {
                    Some(JsonValue::String(text)) => Some(text),
                    _ => None,
                },
            }
        } else {
            ModerationResultView::Allowed
        }
    }

    /// A verdict is blocked or allowed, never both and never neither, and
    /// only a blocked one carries a reason.
    pub proof fn lemma_exactly_one(self)
        ensures
            (self is Blocked) != (self is Allowed),
            self.is_blocked() <==> self is Blocked,
            self is Allowed ==> self.reason() is None,
    {
    }

    /// Every JSON value decodes to exactly one of the two verdicts, and to
    /// blocked just where its member `blocked` is `true`.
    pub proof fn lemma_decodes_to_one(value: JsonValue)
        ensures
            (Self::from_json(value) is Blocked) != (Self::from_json(value) is Allowed),
            Self::from_json(value) is Blocked <==> value.get("blocked"@) == Some(
                JsonValue::Bool(true),
            ),
    {
    }

    /// Encoding a verdict and decoding the result gives the verdict back.
    pub proof fn lemma_round_trip(self)
        ensures
            Self::from_json(self.to_json()) == self,
    {
        reveal_strlit("blocked");
        reveal_strlit("reason");
        assert("blocked"@.len() == 7 && "reason"@.len() == 6);
        let members = self.to_json()->Object_0;
        lemma_lookup_member(members, 0);
        if self is Blocked {
            lemma_lookup_member(members, 1);
        }
    }
}

impl ModerationResult {
    /// Whether the text was blocked.
    pub fn is_blocked(&self) -> (blocked: bool)
        ensures
            blocked == self@.is_blocked(),
    {
        match self {
            ModerationResult::Blocked { .. } => true,
            ModerationResult::Allowed => false,
        }
    }

    /// The reason given for blocking; an allowed text has none.
    pub fn reason(&self) -> (reason: Option<&String>)
        ensures
            reason matches Some(text) ==> self@.reason() == Some(text@),
            reason is None ==> self@.reason() is None,
    {
        match self {
            ModerationResult::Blocked { reason } => reason.as_ref(),
            ModerationResult::Allowed => None,
        }
    }

    /// Encodes the verdict as the object that stands for it on the wire.
    pub fn to_json(&self) -> (json: Json)
        ensures
            json@ == self@.to_json(),
            ModerationResultView::from_json(json@) == self@,
    {
        let mut members: Vec<(String, Json)> = Vec::new();
        match self {
            ModerationResult::Blocked { reason } => {
                let text = match reason {
                    Some(text) => Json::String(text.clone()),
                    None => Json::Null,
                };
                members.push(("blocked".to_owned(), Json::Bool(true)));
                members.push(("reason".to_owned(), text));
            },
            ModerationResult::Allowed => {
                members.push(("blocked".to_owned(), Json::Bool(false)));
            },
        }
        let json = Json::Object(members);
        proof {
            reveal_with_fuel(crate::json::model, 2);
            assert(json@->Object_0 =~= self@.to_json()->Object_0);
            self@.lemma_round_trip();
        }
        json
    }

    /// Decodes the verdict from a JSON value.
    pub fn from_json(value: &Json) -> (verdict: ModerationResult)
        ensures
            verdict@ == ModerationResultView::from_json(value@),
    {
        let blocked = match value.get("blocked") {
            Some(member) => match member.as_bool() {
                Some(truth) => truth,
                None => false,
            },
            None => false,
        };
        if blocked {
            let reason = match value.get("reason") {
                Some(member) => match member.as_str() {
                    Some(text) => Some(text.to_owned()),
                    None => None,
                },
                None => None,
            };
            ModerationResult::Blocked { reason }
        } else {
            ModerationResult::Allowed
        }
    }
}

} // verus!
