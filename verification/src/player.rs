//! The player record.

use crate::error::{DecodeError, DecodeErrorView};
use crate::json::{lemma_lookup_member, Json, JsonValue};
use vstd::prelude::*;

verus! {

/// A Gamplo player, as the service describes the holder of a session.
#[derive(Debug, Clone, PartialEq, Eq, Hash)]
pub struct Player {
    pub id: String,
    pub username: String,
    /// On the wire: `displayName`.
    pub display_name: String,
    /// On the wire: `image`; absent or `null` for a player without avatar.
    pub avatar_url: Option<String>,
}

/// The model of a [`Player`].
pub ghost struct PlayerView {
    pub id: Seq<char>,
    pub username: Seq<char>,
    pub display_name: Seq<char>,
    pub avatar_url: Option<Seq<char>>,
}

impl View for Player {
    type V = PlayerView;

    open spec fn view(&self) -> PlayerView {
        PlayerView {
            id: self.id@,
            username: self.username@,
            display_name: self.display_name@,
            avatar_url: match self.avatar_url {
                Some(url) => Some(url@),
                None => None,
            },
        }
    }
}

impl PlayerView {
    /// The object that stands for the player on the wire.
    pub open spec fn to_json(self) -> JsonValue {
        JsonValue::Object(
            seq![
                ("id"@, JsonValue::String(self.id)),
                ("username"@, JsonValue::String(self.username)),
                ("displayName"@, JsonValue::String(self.display_name)),
                (
                    "image"@,
                    match self.avatar_url {
                        Some(url) => JsonValue::String(url),
                        None => JsonValue::Null,
                    },
                ),
            ],
        )
    }

    /// The player that a JSON value stands for: an object whose `id`,
    /// `username` and `displayName` are strings and whose `image` is a
    /// string, `null` or absent. The first field at fault is the one
    /// reported.
    pub open spec fn from_json(value: JsonValue) -> Result<PlayerView, DecodeErrorView> {
        let id = value.string_member("id"@);
        let username = value.string_member("username"@);
        let display_name = value.string_member("displayName"@);
        let avatar_url = value.optional_string_member("image"@);
        if !(value is Object) {
            Err(DecodeErrorView::NotAnObject)
        } else if id is Err {
            Err(id->Err_0)
        } else if username is Err {
            Err(username->Err_0)
        } else if display_name is Err {
            Err(display_name->Err_0)
        } else if avatar_url is Err {
            Err(avatar_url->Err_0)
        } else {
            Ok(
                PlayerView {
                    id: id->Ok_0,
                    username: username->Ok_0,
                    display_name: display_name->Ok_0,
                    avatar_url: avatar_url->Ok_0,
                },
            )
        }
    }

    /// Encoding a player and decoding the result gives the player back.
    pub proof fn lemma_round_trip(self)
        ensures
            PlayerView::from_json(self.to_json()) == Ok::<PlayerView, DecodeErrorView>(self),
    {
        reveal_strlit("id");
        reveal_strlit("username");
        reveal_strlit("displayName");
        reveal_strlit("image");
        assert("id"@.len() == 2 && "username"@.len() == 8 && "displayName"@.len() == 11
            && "image"@.len() == 5);
        let members = self.to_json()->Object_0;
        lemma_lookup_member(members, 0);
        lemma_lookup_member(members, 1);
        lemma_lookup_member(members, 2);
        lemma_lookup_member(members, 3);
    }

    /// A payload whose avatar is absent or `null`, and whose other fields
    /// are in order, decodes to a player without avatar.
    pub proof fn lemma_absent_avatar(value: JsonValue)
        requires
            value is Object,
            value.string_member("id"@) is Ok,
            value.string_member("username"@) is Ok,
            value.string_member("displayName"@) is Ok,
            value.get("image"@) is None || value.get("image"@) == Some(JsonValue::Null),
        ensures
            PlayerView::from_json(value) matches Ok(player) && player.avatar_url is None,
    {
    }
}

impl Player {
    /// Encodes the player as the object that stands for it on the wire.
    pub fn to_json(&self) -> (json: Json)
        ensures
            json@ == self@.to_json(),
            PlayerView::from_json(json@) == Ok::<PlayerView, DecodeErrorView>(self@),
    {
        let image = match &self.avatar_url {
            Some(url) => Json::String(url.clone()),
            None => Json::Null,
        };
        let mut members: Vec<(String, Json)> = Vec::new();
        members.push(("id".to_owned(), Json::String(self.id.clone())));
        members.push(("username".to_owned(), Json::String(self.username.clone())));
        members.push(("displayName".to_owned(), Json::String(self.display_name.clone())));
        members.push(("image".to_owned(), image));
        let json = Json::Object(members);
        proof {
            reveal_with_fuel(crate::json::model, 2);
            assert(json@->Object_0 =~= self@.to_json()->Object_0);
            self@.lemma_round_trip();
        }
        json
    }

    /// Decodes a player from a JSON value.
    pub fn from_json(value: &Json) -> (outcome: Result<Player, DecodeError>)
        ensures
            match outcome {
                Ok(player) => PlayerView::from_json(value@) == Ok::<PlayerView, DecodeErrorView>(
                    player@,
                ),
                Err(cause) => PlayerView::from_json(value@) == Err::<PlayerView, DecodeErrorView>(
                    cause@,
                ),
            },
    {
        if !value.is_object() {
            return Err(DecodeError::NotAnObject);
        }
        let id = value.string_member("id")?;
        let username = value.string_member("username")?;
        let display_name = value.string_member("displayName")?;
        let avatar_url = value.optional_string_member("image")?;
        Ok(Player { id, username, display_name, avatar_url })
    }
}

} // verus!
