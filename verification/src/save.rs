//! Save slots: what a slot holds, the account's quota, and the answers to
//! writing and deleting.

use crate::decode::{lemma_list_of_all, lemma_list_of_fails, list_of};
use crate::error::{DecodeError, DecodeErrorView};
use crate::json::{elements_model, lemma_lookup_member, Json, JsonNumber, JsonValue, NumberValue};
use crate::time::Timestamp;
use vstd::prelude::*;

verus! {

/// What is known of one occupied save slot.
#[derive(Debug, Clone, PartialEq, Eq, Hash)]
pub struct SaveMetadata {
    pub slot: u32,
    /// On the wire: `sizeBytes`.
    pub size_bytes: u64,
    /// On the wire: `createdAt`.
    pub created_at: Timestamp,
    /// On the wire: `updatedAt`.
    pub updated_at: Timestamp,
}

/// The model of a [`SaveMetadata`].
pub ghost struct SaveMetadataView {
    pub slot: u32,
    pub size_bytes: u64,
    pub created_at: Timestamp,
    pub updated_at: Timestamp,
}

impl View for SaveMetadata {
    type V = SaveMetadataView;

    open spec fn view(&self) -> SaveMetadataView {
        SaveMetadataView {
            slot: self.slot,
            size_bytes: self.size_bytes,
            created_at: self.created_at,
            updated_at: self.updated_at,
        }
    }
}

impl SaveMetadataView {
    /// Both instants are valid.
    pub open spec fn wf(self) -> bool {
        self.created_at.wf() && self.updated_at.wf()
    }

    /// The object that stands for the record on the wire.
    pub open spec fn to_json(self) -> JsonValue {
        JsonValue::Object(
            seq![
                ("slot"@, JsonValue::Number(NumberValue::PosInt(self.slot as u64))),
                ("sizeBytes"@, JsonValue::Number(NumberValue::PosInt(self.size_bytes))),
                ("createdAt"@, JsonValue::String(self.created_at.text())),
                ("updatedAt"@, JsonValue::String(self.updated_at.text())),
            ],
        )
    }

    /// The record that a JSON value stands for. Every field is required; the
    /// first field at fault is the one reported.
    pub open spec fn from_json(value: JsonValue) -> Result<SaveMetadataView, DecodeErrorView> {
        let slot = value.u32_member("slot"@);
        let size_bytes = value.u64_member("sizeBytes"@);
        let created_at = value.timestamp_member("createdAt"@);
        let updated_at = value.timestamp_member("updatedAt"@);
        if !(value is Object) {
            Err(DecodeErrorView::NotAnObject)
        } else if slot is Err {
            Err(slot->Err_0)
        } else if size_bytes is Err {
            Err(size_bytes->Err_0)
        } else if created_at is Err {
            Err(created_at->Err_0)
        } else if updated_at is Err {
            Err(updated_at->Err_0)
        } else {
            Ok(
                SaveMetadataView {
                    slot: slot->Ok_0,
                    size_bytes: size_bytes->Ok_0,
                    created_at: created_at->Ok_0,
                    updated_at: updated_at->Ok_0,
                },
            )
        }
    }

    /// The decoder of one record, as a function.
    pub open spec fn decoder() -> spec_fn(JsonValue) -> Result<SaveMetadataView, DecodeErrorView> {
        |value: JsonValue| SaveMetadataView::from_json(value)
    }

    /// Encoding a record and decoding the result gives the record back.
    pub proof fn lemma_round_trip(self)
        requires
            self.wf(),
        ensures
            SaveMetadataView::from_json(self.to_json()) == Ok::<SaveMetadataView, DecodeErrorView>(
                self,
            ),
    {
        reveal_strlit("slot");
        reveal_strlit("sizeBytes");
        reveal_strlit("createdAt");
        reveal_strlit("updatedAt");
        assert("slot"@.len() == 4 && "sizeBytes"@.len() == 9 && "createdAt"@.len() == 9
            && "updatedAt"@.len() == 9);
        assert("sizeBytes"@[0] == 's' && "createdAt"@[0] == 'c' && "updatedAt"@[0] == 'u');
        let members = self.to_json()->Object_0;
        lemma_lookup_member(members, 0);
        lemma_lookup_member(members, 1);
        lemma_lookup_member(members, 2);
        lemma_lookup_member(members, 3);
        self.created_at.lemma_read_text();
        self.updated_at.lemma_read_text();
    }
}

/// The models of a sequence of records, one by one.
pub open spec fn metadata_views(records: Seq<SaveMetadata>) -> Seq<SaveMetadataView> {
    Seq::new(records.len(), |i: int| records[i]@)
}

impl SaveMetadata {
    /// Encodes the record as the object that stands for it on the wire.
    pub fn to_json(&self) -> (json: Json)
        ensures
            self@.wf(),
            json@ == self@.to_json(),
            SaveMetadataView::from_json(json@) == Ok::<SaveMetadataView, DecodeErrorView>(self@),
    {
        let mut members: Vec<(String, Json)> = Vec::new();
        members.push(("slot".to_owned(), Json::Number(JsonNumber::PosInt(self.slot as u64))));
        members.push(("sizeBytes".to_owned(), Json::Number(JsonNumber::PosInt(self.size_bytes))));
        members.push(("createdAt".to_owned(), Json::String(self.created_at.to_rfc3339())));
        members.push(("updatedAt".to_owned(), Json::String(self.updated_at.to_rfc3339())));
        let json = Json::Object(members);
        proof {
            reveal_with_fuel(crate::json::model, 2);
            assert(json@->Object_0 =~= self@.to_json()->Object_0);
            self@.lemma_round_trip();
        }
        json
    }

    /// Decodes the record from a JSON value.
    pub fn from_json(value: &Json) -> (outcome: Result<SaveMetadata, DecodeError>)
        ensures
            match outcome {
                Ok(record) => SaveMetadataView::from_json(value@) == Ok::<
                    SaveMetadataView,
                    DecodeErrorView,
                >(record@),
                Err(cause) => SaveMetadataView::from_json(value@) == Err::<
                    SaveMetadataView,
                    DecodeErrorView,
                >(cause@),
            },
    {
        if !value.is_object() {
            return Err(DecodeError::NotAnObject);
        }
        let slot = value.u32_member("slot")?;
        let size_bytes = value.u64_member("sizeBytes")?;
        let created_at = value.timestamp_member("createdAt")?;
        let updated_at = value.timestamp_member("updatedAt")?;
        Ok(SaveMetadata { slot, size_bytes, created_at, updated_at })
    }

    /// Decodes the elements of a list as records, in their order.
    pub fn list_from_json(items: &Vec<Json>) -> (outcome: Result<Vec<SaveMetadata>, DecodeError>)
        ensures
            match outcome {
                Ok(records) => list_of(elements_model(items@), SaveMetadataView::decoder()) == Ok::<
                    Seq<SaveMetadataView>,
                    DecodeErrorView,
                >(metadata_views(records@)),
                Err(cause) => list_of(elements_model(items@), SaveMetadataView::decoder()) == Err::<
                    Seq<SaveMetadataView>,
                    DecodeErrorView,
                >(cause@),
            },
    {
        let ghost all = elements_model(items@);
        let mut records: Vec<SaveMetadata> = Vec::new();
        let mut i: usize = 0;
        assert(metadata_views(records@) =~= Seq::empty());
        assert(all.take(0) =~= Seq::empty());
        while i < items.len()
            invariant
                i <= items.len(),
                all == elements_model(items@),
                list_of(all.take(i as int), SaveMetadataView::decoder()) == Ok::<
                    Seq<SaveMetadataView>,
                    DecodeErrorView,
                >(metadata_views(records@)),
            decreases items.len() - i,
        {
            proof {
                let next = all.take(i + 1);
                assert(next.drop_last() =~= all.take(i as int));
                assert(next.last() == items[i as int]@);
            }
            match SaveMetadata::from_json(&items[i]) {
                Ok(record) => {
                    let ghost before = metadata_views(records@);
                    records.push(record);
                    assert(metadata_views(records@) =~= before.push(record@));
                },
                Err(_) => {
                    proof {
                        lemma_list_of_fails(all, SaveMetadataView::decoder(), i + 1);
                    }
                    return Err(DecodeError::InvalidElement(i));
                },
            }
            i += 1;
        }
        assert(all.take(i as int) =~= all);
        Ok(records)
    }
}

/// The content of one save slot. `data` is whatever JSON the game stored;
/// the client does not look into it.
#[derive(Debug, Clone, PartialEq, Eq, Hash)]
pub struct SaveData {
    pub slot: u32,
    pub data: Json,
    /// On the wire: `sizeBytes`.
    pub size_bytes: u64,
    /// On the wire: `updatedAt`.
    pub updated_at: Timestamp,
}

/// The model of a [`SaveData`].
pub ghost struct SaveDataView {
    pub slot: u32,
    pub data: JsonValue,
    pub size_bytes: u64,
    pub updated_at: Timestamp,
}

impl View for SaveData {
    type V = SaveDataView;

    open spec fn view(&self) -> SaveDataView {
        SaveDataView {
            slot: self.slot,
            data: self.data@,
            size_bytes: self.size_bytes,
            updated_at: self.updated_at,
        }
    }
}

impl SaveDataView {
    /// The object that stands for the slot's content on the wire.
    pub open spec fn to_json(self) -> JsonValue {
        JsonValue::Object(
            seq![
                ("slot"@, JsonValue::Number(NumberValue::PosInt(self.slot as u64))),
                ("data"@, self.data),
                ("sizeBytes"@, JsonValue::Number(NumberValue::PosInt(self.size_bytes))),
                ("updatedAt"@, JsonValue::String(self.updated_at.text())),
            ],
        )
    }

    /// The content that a JSON value stands for. Every field is required,
    /// `data` with any value; the first field at fault is the one reported.
    pub open spec fn from_json(value: JsonValue) -> Result<SaveDataView, DecodeErrorView> {
        let slot = value.u32_member("slot"@);
        let data = value.any_member("data"@);
        let size_bytes = value.u64_member("sizeBytes"@);
        let updated_at = value.timestamp_member("updatedAt"@);
        if !(value is Object) {
            Err(DecodeErrorView::NotAnObject)
        } else if slot is Err {
            Err(slot->Err_0)
        } else if data is Err {
            Err(data->Err_0)
        } else if size_bytes is Err {
            Err(size_bytes->Err_0)
        } else if updated_at is Err {
            Err(updated_at->Err_0)
        } else {
            Ok(
                SaveDataView {
                    slot: slot->Ok_0,
                    data: data->Ok_0,
                    size_bytes: size_bytes->Ok_0,
                    updated_at: updated_at->Ok_0,
                },
            )
        }
    }

    /// Encoding a slot's content and decoding the result gives the content
    /// back.
    pub proof fn lemma_round_trip(self)
        requires
            self.updated_at.wf(),
        ensures
            SaveDataView::from_json(self.to_json()) == Ok::<SaveDataView, DecodeErrorView>(self),
    {
        reveal_strlit("slot");
        reveal_strlit("data");
        reveal_strlit("sizeBytes");
        reveal_strlit("updatedAt");
        assert("slot"@.len() == 4 && "data"@.len() == 4 && "sizeBytes"@.len() == 9
            && "updatedAt"@.len() == 9);
        assert("slot"@[0] == 's' && "data"@[0] == 'd');
        assert("sizeBytes"@[0] == 's' && "updatedAt"@[0] == 'u');
        let members = self.to_json()->Object_0;
        lemma_lookup_member(members, 0);
        lemma_lookup_member(members, 1);
        lemma_lookup_member(members, 2);
        lemma_lookup_member(members, 3);
        self.updated_at.lemma_read_text();
    }
}

impl SaveData {
    /// Encodes the slot's content as the object that stands for it on the
    /// wire.
    pub fn to_json(&self) -> (json: Json)
        ensures
            json@ == self@.to_json(),
            SaveDataView::from_json(json@) == Ok::<SaveDataView, DecodeErrorView>(self@),
    {
        let mut members: Vec<(String, Json)> = Vec::new();
        members.push(("slot".to_owned(), Json::Number(JsonNumber::PosInt(self.slot as u64))));
        members.push(("data".to_owned(), self.data.clone()));
        members.push(("sizeBytes".to_owned(), Json::Number(JsonNumber::PosInt(self.size_bytes))));
        members.push(("updatedAt".to_owned(), Json::String(self.updated_at.to_rfc3339())));
        let json = Json::Object(members);
        proof {
            reveal_with_fuel(crate::json::model, 2);
            assert(json@->Object_0 =~= self@.to_json()->Object_0);
            self@.lemma_round_trip();
        }
        json
    }

    /// Decodes a slot's content from a JSON value.
    pub fn from_json(value: &Json) -> (outcome: Result<SaveData, DecodeError>)
        ensures
            match outcome {
                Ok(save) => SaveDataView::from_json(value@) == Ok::<SaveDataView, DecodeErrorView>(
                    save@,
                ),
                Err(cause) => SaveDataView::from_json(value@) == Err::<
                    SaveDataView,
                    DecodeErrorView,
                >(cause@),
            },
    {
        if !value.is_object() {
            return Err(DecodeError::NotAnObject);
        }
        let slot = value.u32_member("slot")?;
        let data = value.any_member("data")?;
        let size_bytes = value.u64_member("sizeBytes")?;
        let updated_at = value.timestamp_member("updatedAt")?;
        Ok(SaveData { slot, data, size_bytes, updated_at })
    }
}

/// The account's save slots: the occupied ones in the order the service
/// lists them, and the quota.
#[derive(Debug, Clone, PartialEq, Eq, Hash)]
pub struct Saves {
    pub saves: Vec<SaveMetadata>,
    /// On the wire: `maxSlots`.
    pub max_slots: u32,
    /// On the wire: `maxSizeBytes`.
    pub max_size_bytes: u64,
}

/// The model of a [`Saves`].
pub ghost struct SavesView {
    pub saves: Seq<SaveMetadataView>,
    pub max_slots: u32,
    pub max_size_bytes: u64,
}

impl View for Saves {
    type V = SavesView;

    open spec fn view(&self) -> SavesView {
        SavesView {
            saves: metadata_views(self.saves@),
            max_slots: self.max_slots,
            max_size_bytes: self.max_size_bytes,
        }
    }
}

impl SavesView {
    /// Every slot's instants are valid.
    pub open spec fn wf(self) -> bool {
        forall|i: int| 0 <= i < self.saves.len() ==> (#[trigger] self.saves[i]).wf()
    }

    /// The array that stands for the occupied slots on the wire.
    pub open spec fn saves_to_json(self) -> Seq<JsonValue> {
        Seq::new(self.saves.len(), |i: int| self.saves[i].to_json())
    }

    /// The object that stands for the account's slots on the wire.
    pub open spec fn to_json(self) -> JsonValue {
        JsonValue::Object(
            seq![
                ("saves"@, JsonValue::Array(self.saves_to_json())),
                ("maxSlots"@, JsonValue::Number(NumberValue::PosInt(self.max_slots as u64))),
                ("maxSizeBytes"@, JsonValue::Number(NumberValue::PosInt(self.max_size_bytes))),
            ],
        )
    }

    /// The `saves` member: required, an array, each element a record.
    pub open spec fn saves_member(value: JsonValue) -> Result<
        Seq<SaveMetadataView>,
        DecodeErrorView,
    > {
        match value.get("saves"@) {
            None => Err(DecodeErrorView::MissingField("saves"@)),
            Some(JsonValue::Array(items)) => match list_of(items, SaveMetadataView::decoder()) {
                Ok(saves) => Ok(saves),
                Err(_) => Err(DecodeErrorView::InvalidField("saves"@)),
            },
            Some(_) => Err(DecodeErrorView::InvalidField("saves"@)),
        }
    }

    /// The slots that a JSON value stands for. Every field is required; the
    /// first field at fault is the one reported.
    pub open spec fn from_json(value: JsonValue) -> Result<SavesView, DecodeErrorView> {
        let saves = Self::saves_member(value);
        let max_slots = value.u32_member("maxSlots"@);
        let max_size_bytes = value.u64_member("maxSizeBytes"@);
        if !(value is Object) {
            Err(DecodeErrorView::NotAnObject)
        } else if saves is Err {
            Err(saves->Err_0)
        } else if max_slots is Err {
            Err(max_slots->Err_0)
        } else if max_size_bytes is Err {
            Err(max_size_bytes->Err_0)
        } else {
            Ok(
                SavesView {
                    saves: saves->Ok_0,
                    max_slots: max_slots->Ok_0,
                    max_size_bytes: max_size_bytes->Ok_0,
                },
            )
        }
    }

    /// Encoding the slots and decoding the result gives the slots back.
    pub proof fn lemma_round_trip(self)
        requires
            self.wf(),
        ensures
            SavesView::from_json(self.to_json()) == Ok::<SavesView, DecodeErrorView>(self),
    {
        reveal_strlit("saves");
        reveal_strlit("maxSlots");
        reveal_strlit("maxSizeBytes");
        assert("saves"@.len() == 5 && "maxSlots"@.len() == 8 && "maxSizeBytes"@.len() == 12);
        let members = self.to_json()->Object_0;
        lemma_lookup_member(members, 0);
        lemma_lookup_member(members, 1);
        lemma_lookup_member(members, 2);
        let items = self.saves_to_json();
        assert forall|i: int| 0 <= i < items.len() implies (SaveMetadataView::decoder())(
            #[trigger] items[i],
        ) == Ok::<SaveMetadataView, DecodeErrorView>(self.saves[i]) by {
            self.saves[i].lemma_round_trip();
        }
        lemma_list_of_all(items, SaveMetadataView::decoder(), self.saves);
    }
}

impl Saves {
    /// Encodes the slots as the object that stands for them on the wire.
    pub fn to_json(&self) -> (json: Json)
        ensures
            self@.wf(),
            json@ == self@.to_json(),
            SavesView::from_json(json@) == Ok::<SavesView, DecodeErrorView>(self@),
    {
        let mut items: Vec<Json> = Vec::new();
        let mut i: usize = 0;
        while i < self.saves.len()
            invariant
                i <= self.saves.len(),
                items.len() == i,
                forall|k: int| 0 <= k < i ==> (#[trigger] items[k])@ == self.saves[k]@.to_json(),
                forall|k: int| 0 <= k < i ==> (#[trigger] self.saves[k])@.wf(),
            decreases self.saves.len() - i,
        {
            let item = self.saves[i].to_json();
            items.push(item);
            i += 1;
        }
        let ghost array = Json::Array(items);
        assert(array@->Array_0 =~= self@.saves_to_json());
        let mut members: Vec<(String, Json)> = Vec::new();
        members.push(("saves".to_owned(), Json::Array(items)));
        members.push(
            ("maxSlots".to_owned(), Json::Number(JsonNumber::PosInt(self.max_slots as u64))),
        );
        members.push(
            ("maxSizeBytes".to_owned(), Json::Number(JsonNumber::PosInt(self.max_size_bytes))),
        );
        let json = Json::Object(members);
        proof {
            reveal_with_fuel(crate::json::model, 2);
            assert(json@->Object_0 =~= self@.to_json()->Object_0);
            self@.lemma_round_trip();
        }
        json
    }

    /// Decodes the slots from a JSON value.
    pub fn from_json(value: &Json) -> (outcome: Result<Saves, DecodeError>)
        ensures
            match outcome {
                Ok(saves) => SavesView::from_json(value@) == Ok::<SavesView, DecodeErrorView>(
                    saves@,
                ),
                Err(cause) => SavesView::from_json(value@) == Err::<SavesView, DecodeErrorView>(
                    cause@,
                ),
            },
    {
        if !value.is_object() {
            return Err(DecodeError::NotAnObject);
        }
        let saves = match value.get("saves") {
            None => {
                return Err(DecodeError::MissingField("saves".to_owned()));
            },
            Some(member) => match member.as_array() {
                None => {
                    return Err(DecodeError::InvalidField("saves".to_owned()));
                },
                Some(items) => match SaveMetadata::list_from_json(items) {
                    Ok(saves) => saves,
                    Err(_) => {
                        return Err(DecodeError::InvalidField("saves".to_owned()));
                    },
                },
            },
        };
        let max_slots = value.u32_member("maxSlots")?;
        let max_size_bytes = value.u64_member("maxSizeBytes")?;
        Ok(Saves { saves, max_slots, max_size_bytes })
    }
}

/// The answer to writing a save slot.
#[derive(Debug, Clone, PartialEq, Eq, Hash)]
pub struct SaveWriteResponse {
    pub success: bool,
    pub slot: u32,
    /// On the wire: `sizeBytes`.
    pub size_bytes: u64,
    /// On the wire: `updatedAt`.
    pub updated_at: Timestamp,
}

/// The model of a [`SaveWriteResponse`].
pub ghost struct SaveWriteResponseView {
    pub success: bool,
    pub slot: u32,
    pub size_bytes: u64,
    pub updated_at: Timestamp,
}

impl View for SaveWriteResponse {
    type V = SaveWriteResponseView;

    open spec fn view(&self) -> SaveWriteResponseView {
        SaveWriteResponseView {
            success: self.success,
            slot: self.slot,
            size_bytes: self.size_bytes,
            updated_at: self.updated_at,
        }
    }
}

impl SaveWriteResponseView {
    /// The object that stands for the answer on the wire.
    pub open spec fn to_json(self) -> JsonValue {
        JsonValue::Object(
            seq![
                ("success"@, JsonValue::Bool(self.success)),
                ("slot"@, JsonValue::Number(NumberValue::PosInt(self.slot as u64))),
                ("sizeBytes"@, JsonValue::Number(NumberValue::PosInt(self.size_bytes))),
                ("updatedAt"@, JsonValue::String(self.updated_at.text())),
            ],
        )
    }

    /// The answer that a JSON value stands for. Every field is required; the
    /// first field at fault is the one reported.
    pub open spec fn from_json(value: JsonValue) -> Result<SaveWriteResponseView, DecodeErrorView> {
        let success = value.bool_member("success"@);
        let slot = value.u32_member("slot"@);
        let size_bytes = value.u64_member("sizeBytes"@);
        let updated_at = value.timestamp_member("updatedAt"@);
        if !(value is Object) {
            Err(DecodeErrorView::NotAnObject)
        } else if success is Err {
            Err(success->Err_0)
        } else if slot is Err {
            Err(slot->Err_0)
        } else if size_bytes is Err {
            Err(size_bytes->Err_0)
        } else if updated_at is Err {
            Err(updated_at->Err_0)
        } else {
            Ok(
                SaveWriteResponseView {
                    success: success->Ok_0,
                    slot: slot->Ok_0,
                    size_bytes: size_bytes->Ok_0,
                    updated_at: updated_at->Ok_0,
                },
            )
        }
    }

    /// Encoding an answer and decoding the result gives the answer back.
    pub proof fn lemma_round_trip(self)
        requires
            self.updated_at.wf(),
        ensures
            SaveWriteResponseView::from_json(self.to_json()) == Ok::<
                SaveWriteResponseView,
                DecodeErrorView,
            >(self),
    {
        reveal_strlit("success");
        reveal_strlit("slot");
        reveal_strlit("sizeBytes");
        reveal_strlit("updatedAt");
        assert("success"@.len() == 7 && "slot"@.len() == 4 && "sizeBytes"@.len() == 9
            && "updatedAt"@.len() == 9);
        assert("sizeBytes"@[0] == 's' && "updatedAt"@[0] == 'u');
        let members = self.to_json()->Object_0;
        lemma_lookup_member(members, 0);
        lemma_lookup_member(members, 1);
        lemma_lookup_member(members, 2);
        lemma_lookup_member(members, 3);
        self.updated_at.lemma_read_text();
    }
}

impl SaveWriteResponse {
    /// Encodes the answer as the object that stands for it on the wire.
    pub fn to_json(&self) -> (json: Json)
        ensures
            json@ == self@.to_json(),
            SaveWriteResponseView::from_json(json@) == Ok::<
                SaveWriteResponseView,
                DecodeErrorView,
            >(self@),
    {
        let mut members: Vec<(String, Json)> = Vec::new();
        members.push(("success".to_owned(), Json::Bool(self.success)));
        members.push(("slot".to_owned(), Json::Number(JsonNumber::PosInt(self.slot as u64))));
        members.push(("sizeBytes".to_owned(), Json::Number(JsonNumber::PosInt(self.size_bytes))));
        members.push(("updatedAt".to_owned(), Json::String(self.updated_at.to_rfc3339())));
        let json = Json::Object(members);
        proof {
            reveal_with_fuel(crate::json::model, 2);
            assert(json@->Object_0 =~= self@.to_json()->Object_0);
            self@.lemma_round_trip();
        }
        json
    }

    /// Decodes the answer from a JSON value.
    pub fn from_json(value: &Json) -> (outcome: Result<SaveWriteResponse, DecodeError>)
        ensures
            match outcome {
                Ok(answer) => SaveWriteResponseView::from_json(value@) == Ok::<
                    SaveWriteResponseView,
                    DecodeErrorView,
                >(answer@),
                Err(cause) => SaveWriteResponseView::from_json(value@) == Err::<
                    SaveWriteResponseView,
                    DecodeErrorView,
                >(cause@),
            },
    {
        if !value.is_object() {
            return Err(DecodeError::NotAnObject);
        }
        let success = value.bool_member("success")?;
        let slot = value.u32_member("slot")?;
        let size_bytes = value.u64_member("sizeBytes")?;
        let updated_at = value.timestamp_member("updatedAt")?;
        Ok(SaveWriteResponse { success, slot, size_bytes, updated_at })
    }
}

/// The answer to deleting a save slot.
#[derive(Debug, Clone, PartialEq, Eq, Hash)]
pub struct SaveDeleteResponse {
    pub success: bool,
    pub deleted: bool,
}

/// The model of a [`SaveDeleteResponse`].
pub ghost struct SaveDeleteResponseView {
    pub success: bool,
    pub deleted: bool,
}

impl View for SaveDeleteResponse {
    type V = SaveDeleteResponseView;

    open spec fn view(&self) -> SaveDeleteResponseView {
        SaveDeleteResponseView { success: self.success, deleted: self.deleted }
    }
}

impl SaveDeleteResponseView {
    /// The object that stands for the answer on the wire.
    pub open spec fn to_json(self) -> JsonValue {
        JsonValue::Object(
            seq![
                ("success"@, JsonValue::Bool(self.success)),
                ("deleted"@, JsonValue::Bool(self.deleted)),
            ],
        )
    }

    /// The answer that a JSON value stands for. Both fields are required;
    /// the first field at fault is the one reported.
    pub open spec fn from_json(value: JsonValue) -> Result<
        SaveDeleteResponseView,
        DecodeErrorView,
    > {
        let success = value.bool_member("success"@);
        let deleted = value.bool_member("deleted"@);
        if !(value is Object) {
            Err(DecodeErrorView::NotAnObject)
        } else if success is Err {
            Err(success->Err_0)
        } else if deleted is Err {
            Err(deleted->Err_0)
        } else {
            Ok(SaveDeleteResponseView { success: success->Ok_0, deleted: deleted->Ok_0 })
        }
    }

    /// Encoding an answer and decoding the result gives the answer back.
    pub proof fn lemma_round_trip(self)
        ensures
            SaveDeleteResponseView::from_json(self.to_json()) == Ok::<
                SaveDeleteResponseView,
                DecodeErrorView,
            >(self),
    {
        reveal_strlit("success");
        reveal_strlit("deleted");
        assert("success"@.len() == 7 && "deleted"@.len() == 7);
        assert("success"@[0] == 's' && "deleted"@[0] == 'd');
        let members = self.to_json()->Object_0;
        lemma_lookup_member(members, 0);
        lemma_lookup_member(members, 1);
    }
}

impl SaveDeleteResponse {
    /// Encodes the answer as the object that stands for it on the wire.
    pub fn to_json(&self) -> (json: Json)
        ensures
            json@ == self@.to_json(),
            SaveDeleteResponseView::from_json(json@) == Ok::<
                SaveDeleteResponseView,
                DecodeErrorView,
            >(self@),
    {
        let mut members: Vec<(String, Json)> = Vec::new();
        members.push(("success".to_owned(), Json::Bool(self.success)));
        members.push(("deleted".to_owned(), Json::Bool(self.deleted)));
        let json = Json::Object(members);
        proof {
            reveal_with_fuel(crate::json::model, 2);
            assert(json@->Object_0 =~= self@.to_json()->Object_0);
            self@.lemma_round_trip();
        }
        json
    }

    /// Decodes the answer from a JSON value.
    pub fn from_json(value: &Json) -> (outcome: Result<SaveDeleteResponse, DecodeError>)
        ensures
            match outcome {
                Ok(answer) => SaveDeleteResponseView::from_json(value@) == Ok::<
                    SaveDeleteResponseView,
                    DecodeErrorView,
                >(answer@),
                Err(cause) => SaveDeleteResponseView::from_json(value@) == Err::<
                    SaveDeleteResponseView,
                    DecodeErrorView,
                >(cause@),
            },
    {
        if !value.is_object() {
            return Err(DecodeError::NotAnObject);
        }
        let success = value.bool_member("success")?;
        let deleted = value.bool_member("deleted")?;
        Ok(SaveDeleteResponse { success, deleted })
    }
}

} // verus!
