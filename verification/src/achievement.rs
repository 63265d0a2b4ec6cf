//! Achievements and the answer to an unlock.

use crate::decode::{lemma_list_of_fails, list_of};
use crate::error::{DecodeError, DecodeErrorView};
use crate::json::{elements_model, lemma_lookup_member, Json, JsonNumber, JsonValue, NumberValue};
use crate::time::Timestamp;
use vstd::prelude::*;

verus! {

/// An achievement of the game, with the player's progress on it. A `hidden`
/// achievement is handed out like any other; keeping it from view until it
/// is unlocked is left to the caller.
#[derive(Debug, Clone, PartialEq, Eq, Hash)]
pub struct Achievement {
    pub id: u32,
    pub key: String,
    pub title: String,
    pub description: String,
    /// On the wire: `icon`.
    pub icon_url: String,
    pub points: u32,
    pub hidden: bool,
    pub unlocked: bool,
    /// On the wire: `unlockedAt`.
    pub unlocked_at: Timestamp,
}

/// The model of an [`Achievement`].
pub ghost struct AchievementView {
    pub id: u32,
    pub key: Seq<char>,
    pub title: Seq<char>,
    pub description: Seq<char>,
    pub icon_url: Seq<char>,
    pub points: u32,
    pub hidden: bool,
    pub unlocked: bool,
    pub unlocked_at: Timestamp,
}

impl View for Achievement {
    type V = AchievementView;

    open spec fn view(&self) -> AchievementView {
        AchievementView {
            id: self.id,
            key: self.key@,
            title: self.title@,
            description: self.description@,
            icon_url: self.icon_url@,
            points: self.points,
            hidden: self.hidden,
            unlocked: self.unlocked,
            unlocked_at: self.unlocked_at,
        }
    }
}

impl AchievementView {
    /// The object that stands for the achievement on the wire.
    pub open spec fn to_json(self) -> JsonValue {
        JsonValue::Object(
            seq![
                ("id"@, JsonValue::Number(NumberValue::PosInt(self.id as u64))),
                ("key"@, JsonValue::String(self.key)),
                ("title"@, JsonValue::String(self.title)),
                ("description"@, JsonValue::String(self.description)),
                ("icon"@, JsonValue::String(self.icon_url)),
                ("points"@, JsonValue::Number(NumberValue::PosInt(self.points as u64))),
                ("hidden"@, JsonValue::Bool(self.hidden)),
                ("unlocked"@, JsonValue::Bool(self.unlocked)),
                ("unlockedAt"@, JsonValue::String(self.unlocked_at.text())),
            ],
        )
    }

    /// The achievement that a JSON value stands for. Every field is
    /// required; the first field at fault is the one reported.
    pub open spec fn from_json(value: JsonValue) -> Result<AchievementView, DecodeErrorView> {
        let id = value.u32_member("id"@);
        let key = value.string_member("key"@);
        let title = value.string_member("title"@);
        let description = value.string_member("description"@);
        let icon_url = value.string_member("icon"@);
        let points = value.u32_member("points"@);
        let hidden = value.bool_member("hidden"@);
        let unlocked = value.bool_member("unlocked"@);
        let unlocked_at = value.timestamp_member("unlockedAt"@);
        if !(value is Object) {
            Err(DecodeErrorView::NotAnObject)
        } else if id is Err {
            Err(id->Err_0)
        } else if key is Err {
            Err(key->Err_0)
        } else if title is Err {
            Err(title->Err_0)
        } else if description is Err {
            Err(description->Err_0)
        } else if icon_url is Err {
            Err(icon_url->Err_0)
        } else if points is Err {
            Err(points->Err_0)
        } else if hidden is Err {
            Err(hidden->Err_0)
        } else if unlocked is Err {
            Err(unlocked->Err_0)
        } else if unlocked_at is Err {
            Err(unlocked_at->Err_0)
        } else {
            Ok(
                AchievementView {
                    id: id->Ok_0,
                    key: key->Ok_0,
                    title: title->Ok_0,
                    description: description->Ok_0,
                    icon_url: icon_url->Ok_0,
                    points: points->Ok_0,
                    hidden: hidden->Ok_0,
                    unlocked: unlocked->Ok_0,
                    unlocked_at: unlocked_at->Ok_0,
                },
            )
        }
    }

    /// The decoder of one achievement, as a function.
    pub open spec fn decoder() -> spec_fn(JsonValue) -> Result<AchievementView, DecodeErrorView> {
        |value: JsonValue| AchievementView::from_json(value)
    }

    /// The achievements that a JSON value stands for: an array whose
    /// elements are achievements. The first element at fault is reported
    /// by its index.
    pub open spec fn list_from_json(value: JsonValue) -> Result<
        Seq<AchievementView>,
        DecodeErrorView,
    > {
        match value {
            JsonValue::Array(items) => list_of(items, Self::decoder()),
            _ => Err(DecodeErrorView::NotAnArray),
        }
    }

    /// Encoding an achievement and decoding the result gives the achievement
    /// back.
    pub proof fn lemma_round_trip(self)
        requires
            self.unlocked_at.wf(),
        ensures
            AchievementView::from_json(self.to_json()) == Ok::<AchievementView, DecodeErrorView>(
                self,
            ),
    {
        reveal_strlit("id");
        reveal_strlit("key");
        reveal_strlit("title");
        reveal_strlit("description");
        reveal_strlit("icon");
        reveal_strlit("points");
        reveal_strlit("hidden");
        reveal_strlit("unlocked");
        reveal_strlit("unlockedAt");
        assert("id"@.len() == 2 && "key"@.len() == 3 && "title"@.len() == 5
            && "description"@.len() == 11 && "icon"@.len() == 4 && "points"@.len() == 6
            && "hidden"@.len() == 6 && "unlocked"@.len() == 8 && "unlockedAt"@.len() == 10);
        assert("points"@[0] == 'p' && "hidden"@[0] == 'h');
        let members = self.to_json()->Object_0;
        lemma_lookup_member(members, 0);
        lemma_lookup_member(members, 1);
        lemma_lookup_member(members, 2);
        lemma_lookup_member(members, 3);
        lemma_lookup_member(members, 4);
        lemma_lookup_member(members, 5);
        lemma_lookup_member(members, 6);
        lemma_lookup_member(members, 7);
        lemma_lookup_member(members, 8);
        self.unlocked_at.lemma_read_text();
    }
}

/// The models of a sequence of achievements, one by one.
pub open spec fn achievement_views(list: Seq<Achievement>) -> Seq<AchievementView> {
    Seq::new(list.len(), |i: int| list[i]@)
}

impl Achievement {
    /// The identifier of the achievement.
    pub fn id(&self) -> (id: u32)
        ensures
            id == self@.id,
    {
        self.id
    }

    /// The key by which the game names the achievement.
    pub fn key(&self) -> (key: &str)
        ensures
            key@ == self@.key,
    {
        self.key.as_str()
    }

    /// The title shown to the player.
    pub fn title(&self) -> (title: &str)
        ensures
            title@ == self@.title,
    {
        self.title.as_str()
    }

    /// The description shown to the player.
    pub fn description(&self) -> (description: &str)
        ensures
            description@ == self@.description,
    {
        self.description.as_str()
    }

    /// The address of the icon.
    pub fn icon_url(&self) -> (icon_url: &str)
        ensures
            icon_url@ == self@.icon_url,
    {
        self.icon_url.as_str()
    }

    /// The points that the achievement is worth.
    pub fn points(&self) -> (points: u32)
        ensures
            points == self@.points,
    {
        self.points
    }

    /// Whether the achievement is hidden until it is unlocked.
    pub fn hidden(&self) -> (hidden: bool)
        ensures
            hidden == self@.hidden,
    {
        self.hidden
    }

    /// Whether the player has unlocked the achievement.
    pub fn unlocked(&self) -> (unlocked: bool)
        ensures
            unlocked == self@.unlocked,
    {
        self.unlocked
    }

    /// When the achievement was unlocked.
    pub fn unlocked_at(&self) -> (unlocked_at: Timestamp)
        ensures
            unlocked_at == self@.unlocked_at,
    {
        self.unlocked_at
    }

    /// Encodes the achievement as the object that stands for it on the wire.
    pub fn to_json(&self) -> (json: Json)
        ensures
            json@ == self@.to_json(),
            AchievementView::from_json(json@) == Ok::<AchievementView, DecodeErrorView>(self@),
    {
        let mut members: Vec<(String, Json)> = Vec::new();
        members.push(("id".to_owned(), Json::Number(JsonNumber::PosInt(self.id as u64))));
        members.push(("key".to_owned(), Json::String(self.key.clone())));
        members.push(("title".to_owned(), Json::String(self.title.clone())));
        members.push(("description".to_owned(), Json::String(self.description.clone())));
        members.push(("icon".to_owned(), Json::String(self.icon_url.clone())));
        members.push(("points".to_owned(), Json::Number(JsonNumber::PosInt(self.points as u64))));
        members.push(("hidden".to_owned(), Json::Bool(self.hidden)));
        members.push(("unlocked".to_owned(), Json::Bool(self.unlocked)));
        members.push(("unlockedAt".to_owned(), Json::String(self.unlocked_at.to_rfc3339())));
        let json = Json::Object(members);
        proof {
            reveal_with_fuel(crate::json::model, 2);
            assert(json@->Object_0 =~= self@.to_json()->Object_0);
            self@.lemma_round_trip();
        }
        json
    }

    /// Decodes an achievement from a JSON value.
    pub fn from_json(value: &Json) -> (outcome: Result<Achievement, DecodeError>)
        ensures
            match outcome {
                Ok(achievement) => AchievementView::from_json(value@) == Ok::<
                    AchievementView,
                    DecodeErrorView,
                >(achievement@),
                Err(cause) => AchievementView::from_json(value@) == Err::<
                    AchievementView,
                    DecodeErrorView,
                >(cause@),
            },
    {
        if !value.is_object() {
            return Err(DecodeError::NotAnObject);
        }
        let id = value.u32_member("id")?;
        let key = value.string_member("key")?;
        let title = value.string_member("title")?;
        let description = value.string_member("description")?;
        let icon_url = value.string_member("icon")?;
        let points = value.u32_member("points")?;
        let hidden = value.bool_member("hidden")?;
        let unlocked = value.bool_member("unlocked")?;
        let unlocked_at = value.timestamp_member("unlockedAt")?;
        Ok(
            Achievement {
                id,
                key,
                title,
                description,
                icon_url,
                points,
                hidden,
                unlocked,
                unlocked_at,
            },
        )
    }
}

impl Achievement {
    /// Decodes a list of achievements from a JSON value.
    pub fn list_from_json(value: &Json) -> (outcome: Result<Vec<Achievement>, DecodeError>)
        ensures
            match outcome {
                Ok(list) => AchievementView::list_from_json(value@) == Ok::<
                    Seq<AchievementView>,
                    DecodeErrorView,
                >(achievement_views(list@)),
                Err(cause) => AchievementView::list_from_json(value@) == Err::<
                    Seq<AchievementView>,
                    DecodeErrorView,
                >(cause@),
            },
    {
        let items = match value.as_array() {
            Some(items) => items,
            None => {
                return Err(DecodeError::NotAnArray);
            },
        };
        let ghost all = elements_model(items@);
        let mut list: Vec<Achievement> = Vec::new();
        let mut i: usize = 0;
        assert(achievement_views(list@) =~= Seq::empty());
        assert(all.take(0) =~= Seq::empty());
        while i < items.len()
            invariant
                i <= items.len(),
                all == elements_model(items@),
                value@ == JsonValue::Array(all),
                list_of(all.take(i as int), AchievementView::decoder()) == Ok::<
                    Seq<AchievementView>,
                    DecodeErrorView,
                >(achievement_views(list@)),
            decreases items.len() - i,
        {
            proof {
                let next = all.take(i + 1);
                assert(next.drop_last() =~= all.take(i as int));
                assert(next.last() == items[i as int]@);
            }
            match Achievement::from_json(&items[i]) {
                Ok(achievement) => {
                    let ghost before = achievement_views(list@);
                    list.push(achievement);
                    assert(achievement_views(list@) =~= before.push(achievement@));
                },
                Err(_) => {
                    proof {
                        lemma_list_of_fails(all, AchievementView::decoder(), i + 1);
                    }
                    return Err(DecodeError::InvalidElement(i));
                },
            }
            i += 1;
        }
        assert(all.take(i as int) =~= all);
        Ok(list)
    }
}

/// The fields of an achievement that the answer to an unlock carries.
#[derive(Debug, Clone, PartialEq, Eq, Hash)]
pub struct AchievementLite {
    pub key: String,
    pub title: String,
    pub description: String,
    /// On the wire: `icon`.
    pub icon_url: String,
    pub points: u32,
}

/// The model of an [`AchievementLite`].
pub ghost struct AchievementLiteView {
    pub key: Seq<char>,
    pub title: Seq<char>,
    pub description: Seq<char>,
    pub icon_url: Seq<char>,
    pub points: u32,
}

impl View for AchievementLite {
    type V = AchievementLiteView;

    open spec fn view(&self) -> AchievementLiteView {
        AchievementLiteView {
            key: self.key@,
            title: self.title@,
            description: self.description@,
            icon_url: self.icon_url@,
            points: self.points,
        }
    }
}

impl AchievementLiteView {
    /// The object that stands for the record on the wire.
    pub open spec fn to_json(self) -> JsonValue {
        JsonValue::Object(
            seq![
                ("key"@, JsonValue::String(self.key)),
                ("title"@, JsonValue::String(self.title)),
                ("description"@, JsonValue::String(self.description)),
                ("icon"@, JsonValue::String(self.icon_url)),
                ("points"@, JsonValue::Number(NumberValue::PosInt(self.points as u64))),
            ],
        )
    }

    /// The record that a JSON value stands for. Every field is required; the
    /// first field at fault is the one reported.
    pub open spec fn from_json(value: JsonValue) -> Result<AchievementLiteView, DecodeErrorView> {
        let key = value.string_member("key"@);
        let title = value.string_member("title"@);
        let description = value.string_member("description"@);
        let icon_url = value.string_member("icon"@);
        let points = value.u32_member("points"@);
        if !(value is Object) {
            Err(DecodeErrorView::NotAnObject)
        } else if key is Err {
            Err(key->Err_0)
        } else if title is Err {
            Err(title->Err_0)
        } else if description is Err {
            Err(description->Err_0)
        } else if icon_url is Err {
            Err(icon_url->Err_0)
        } else if points is Err {
            Err(points->Err_0)
        } else {
            Ok(
                AchievementLiteView {
                    key: key->Ok_0,
                    title: title->Ok_0,
                    description: description->Ok_0,
                    icon_url: icon_url->Ok_0,
                    points: points->Ok_0,
                },
            )
        }
    }

    /// Encoding the record and decoding the result gives the record back.
    pub proof fn lemma_round_trip(self)
        ensures
            AchievementLiteView::from_json(self.to_json()) == Ok::<
                AchievementLiteView,
                DecodeErrorView,
            >(self),
    {
        reveal_strlit("key");
        reveal_strlit("title");
        reveal_strlit("description");
        reveal_strlit("icon");
        reveal_strlit("points");
        assert("key"@.len() == 3 && "title"@.len() == 5 && "description"@.len() == 11
            && "icon"@.len() == 4 && "points"@.len() == 6);
        let members = self.to_json()->Object_0;
        lemma_lookup_member(members, 0);
        lemma_lookup_member(members, 1);
        lemma_lookup_member(members, 2);
        lemma_lookup_member(members, 3);
        lemma_lookup_member(members, 4);
    }
}

impl AchievementLite {
    /// The key by which the game names the achievement.
    pub fn key(&self) -> (key: &str)
        ensures
            key@ == self@.key,
    {
        self.key.as_str()
    }

    /// The title shown to the player.
    pub fn title(&self) -> (title: &str)
        ensures
            title@ == self@.title,
    {
        self.title.as_str()
    }

    /// The description shown to the player.
    pub fn description(&self) -> (description: &str)
        ensures
            description@ == self@.description,
    {
        self.description.as_str()
    }

    /// The address of the icon.
    pub fn icon_url(&self) -> (icon_url: &str)
        ensures
            icon_url@ == self@.icon_url,
    {
        self.icon_url.as_str()
    }

    /// The points that the achievement is worth.
    pub fn points(&self) -> (points: u32)
        ensures
            points == self@.points,
    {
        self.points
    }

    /// Encodes the record as the object that stands for it on the wire.
    pub fn to_json(&self) -> (json: Json)
        ensures
            json@ == self@.to_json(),
            AchievementLiteView::from_json(json@) == Ok::<AchievementLiteView, DecodeErrorView>(
                self@,
            ),
    {
        let mut members: Vec<(String, Json)> = Vec::new();
        members.push(("key".to_owned(), Json::String(self.key.clone())));
        members.push(("title".to_owned(), Json::String(self.title.clone())));
        members.push(("description".to_owned(), Json::String(self.description.clone())));
        members.push(("icon".to_owned(), Json::String(self.icon_url.clone())));
        members.push(("points".to_owned(), Json::Number(JsonNumber::PosInt(self.points as u64))));
        let json = Json::Object(members);
        proof {
            reveal_with_fuel(crate::json::model, 2);
            assert(json@->Object_0 =~= self@.to_json()->Object_0);
            self@.lemma_round_trip();
        }
        json
    }

    /// Decodes the record from a JSON value.
    pub fn from_json(value: &Json) -> (outcome: Result<AchievementLite, DecodeError>)
        ensures
            match outcome {
                Ok(achievement) => AchievementLiteView::from_json(value@) == Ok::<
                    AchievementLiteView,
                    DecodeErrorView,
                >(achievement@),
                Err(cause) => AchievementLiteView::from_json(value@) == Err::<
                    AchievementLiteView,
                    DecodeErrorView,
                >(cause@),
            },
    {
        if !value.is_object() {
            return Err(DecodeError::NotAnObject);
        }
        let key = value.string_member("key")?;
        let title = value.string_member("title")?;
        let description = value.string_member("description")?;
        let icon_url = value.string_member("icon")?;
        let points = value.u32_member("points")?;
        Ok(AchievementLite { key, title, description, icon_url, points })
    }
}

/// What an unlock did, as one of three cases.
#[derive(Debug, Clone, Copy, PartialEq, Eq, Hash)]
pub enum UnlockState {
    /// The service did not process the request.
    Failed,
    /// The achievement is unlocked now and was not before.
    Unlocked,
    /// The achievement had been unlocked before; nothing changed.
    AlreadyUnlocked,
}

/// The answer to an unlock. `success` with `already_unlocked` means that
/// nothing changed: the achievement had been unlocked before.
#[derive(Debug, Clone)]
pub struct AchievementUnlockResponse {
    /// Whether the request was processed; true also where the achievement
    /// had been unlocked before.
    pub success: bool,
    /// On the wire: `alreadyUnlocked`.
    pub already_unlocked: bool,
    /// The achievement that the request named.
    pub achievement: AchievementLite,
}

/// The model of an [`AchievementUnlockResponse`].
pub ghost struct AchievementUnlockResponseView {
    pub success: bool,
    pub already_unlocked: bool,
    pub achievement: AchievementLiteView,
}

impl View for AchievementUnlockResponse {
    type V = AchievementUnlockResponseView;

    open spec fn view(&self) -> AchievementUnlockResponseView {
        AchievementUnlockResponseView {
            success: self.success,
            already_unlocked: self.already_unlocked,
            achievement: self.achievement@,
        }
    }
}

impl AchievementUnlockResponseView {
    /// What the unlock did: failed without `success`; else unlocked now or
    /// unlocked before.
    pub open spec fn state(self) -> UnlockState {
        if !self.success {
            UnlockState::Failed
        } else if self.already_unlocked {
            UnlockState::AlreadyUnlocked
        } else {
            UnlockState::Unlocked
        }
    }

    /// The object that stands for the answer on the wire.
    pub open spec fn to_json(self) -> JsonValue {
        JsonValue::Object(
            seq![
                ("success"@, JsonValue::Bool(self.success)),
                ("alreadyUnlocked"@, JsonValue::Bool(self.already_unlocked)),
                ("achievement"@, self.achievement.to_json()),
            ],
        )
    }

    /// The `achievement` member of an answer: required, and itself a record.
    pub open spec fn achievement_member(value: JsonValue) -> Result<
        AchievementLiteView,
        DecodeErrorView,
    > {
        match value.get("achievement"@) {
            None => Err(DecodeErrorView::MissingField("achievement"@)),
            Some(member) => match AchievementLiteView::from_json(member) {
                Ok(achievement) => Ok(achievement),
                Err(_) => Err(DecodeErrorView::InvalidField("achievement"@)),
            },
        }
    }

    /// The answer that a JSON value stands for. Every field is required; the
    /// first field at fault is the one reported.
    pub open spec fn from_json(value: JsonValue) -> Result<
        AchievementUnlockResponseView,
        DecodeErrorView,
    > {
        let success = value.bool_member("success"@);
        let already_unlocked = value.bool_member("alreadyUnlocked"@);
        let achievement = Self::achievement_member(value);
        if !(value is Object) {
            Err(DecodeErrorView::NotAnObject)
        } else if success is Err {
            Err(success->Err_0)
        } else if already_unlocked is Err {
            Err(already_unlocked->Err_0)
        } else if achievement is Err {
            Err(achievement->Err_0)
        } else {
            Ok(
                AchievementUnlockResponseView {
                    success: success->Ok_0,
                    already_unlocked: already_unlocked->Ok_0,
                    achievement: achievement->Ok_0,
                },
            )
        }
    }

    /// Encoding an answer and decoding the result gives the answer back.
    pub proof fn lemma_round_trip(self)
        ensures
            AchievementUnlockResponseView::from_json(self.to_json()) == Ok::<
                AchievementUnlockResponseView,
                DecodeErrorView,
            >(self),
    {
        reveal_strlit("success");
        reveal_strlit("alreadyUnlocked");
        reveal_strlit("achievement");
        assert("success"@.len() == 7 && "alreadyUnlocked"@.len() == 15 && "achievement"@.len()
            == 11);
        let members = self.to_json()->Object_0;
        lemma_lookup_member(members, 0);
        lemma_lookup_member(members, 1);
        lemma_lookup_member(members, 2);
        self.achievement.lemma_round_trip();
    }
}

impl AchievementUnlockResponse {
    /// Whether the request was processed.
    pub fn success(&self) -> (success: bool)
        ensures
            success == self@.success,
    {
        self.success
    }

    /// Whether the achievement had been unlocked before.
    pub fn already_unlocked(&self) -> (already_unlocked: bool)
        ensures
            already_unlocked == self@.already_unlocked,
    {
        self.already_unlocked
    }

    /// The achievement that the request named.
    pub fn achievement(&self) -> (achievement: &AchievementLite)
        ensures
            achievement@ == self@.achievement,
    {
        &self.achievement
    }

    /// What the unlock did.
    pub fn state(&self) -> (state: UnlockState)
        ensures
            state == self@.state(),
    {
        if !self.success {
            UnlockState::Failed
        } else if self.already_unlocked {
            UnlockState::AlreadyUnlocked
        } else {
            UnlockState::Unlocked
        }
    }

    /// Encodes the answer as the object that stands for it on the wire.
    pub fn to_json(&self) -> (json: Json)
        ensures
            json@ == self@.to_json(),
            AchievementUnlockResponseView::from_json(json@) == Ok::<
                AchievementUnlockResponseView,
                DecodeErrorView,
            >(self@),
    {
        let mut members: Vec<(String, Json)> = Vec::new();
        members.push(("success".to_owned(), Json::Bool(self.success)));
        members.push(("alreadyUnlocked".to_owned(), Json::Bool(self.already_unlocked)));
        members.push(("achievement".to_owned(), self.achievement.to_json()));
        let json = Json::Object(members);
        proof {
            reveal_with_fuel(crate::json::model, 2);
            assert(json@->Object_0 =~= self@.to_json()->Object_0);
            self@.lemma_round_trip();
        }
        json
    }

    /// Decodes the answer from a JSON value.
    pub fn from_json(value: &Json) -> (outcome: Result<AchievementUnlockResponse, DecodeError>)
        ensures
            match outcome {
                Ok(answer) => AchievementUnlockResponseView::from_json(value@) == Ok::<
                    AchievementUnlockResponseView,
                    DecodeErrorView,
                >(answer@),
                Err(cause) => AchievementUnlockResponseView::from_json(value@) == Err::<
                    AchievementUnlockResponseView,
                    DecodeErrorView,
                >(cause@),
            },
    {
        if !value.is_object() {
            return Err(DecodeError::NotAnObject);
        }
        let success = value.bool_member("success")?;
        let already_unlocked = value.bool_member("alreadyUnlocked")?;
        let achievement = match value.get("achievement") {
            None => {
                return Err(DecodeError::MissingField("achievement".to_owned()));
            },
            Some(member) => match AchievementLite::from_json(member) {
                Ok(achievement) => achievement,
                Err(_) => {
                    return Err(DecodeError::InvalidField("achievement".to_owned()));
                },
            },
        };
        Ok(AchievementUnlockResponse { success, already_unlocked, achievement })
    }
}

} // verus!
