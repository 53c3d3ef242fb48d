//! The transport envelope `{"data":{"type":..,"attributes":{..}},"meta":{..}}`:
//! encoding an event into it and decoding it back.
use vstd::prelude::*;

use serde_json::{Map as JsonMap, Value};

use crate::error::{DeserializeError, SerializeError};
use crate::event::{entries_map, Event, EventMetadata, EventName, EventWithMetadata};
use crate::json::{
    as_string, into_object, json_keys, json_object, json_string, json_text, new_object, object_entries, object_keys,
    object_get, object_insert, object_remove, object_value, parse_json, parsed_json, render_json,
    string_value,
};

verus! {

/// Renders an event's fields as a JSON value (normally an object); `None`
/// where they cannot be rendered. The metadata field may be among them: the
/// encoder drops it.
pub trait ToAttributes {
    fn to_attributes(&self) -> Option<Value>;
}

/// Rebuilds a concrete event from its decoded attributes; `None` when they do
/// not fit the type.
pub trait FromAttributes: Sized {
    fn from_attributes(attributes: Value) -> Option<Self>;
}

/// Loosely-typed attributes stay as they are.
impl FromAttributes for Value {
    fn from_attributes(attributes: Value) -> Option<Value> {
        Some(attributes)
    }
}

/// The fields of a JSON value that is an object; no fields for any other value.
pub open spec fn fields_of(v: Value) -> Map<Seq<char>, Value> {
    match json_object(v) {
        Some(m) => m,
        None => Map::empty(),
    }
}

/// `v` is an object whose fields are the keys of `m`, each a string holding
/// the key's value in `m`.
pub open spec fn is_string_object(v: Value, m: Map<Seq<char>, Seq<char>>) -> bool {
    match json_object(v) {
        Some(o) => is_string_fields(o, m),
        None => false,
    }
}

/// The fields `o` are the keys of `m`, each a string holding the key's value
/// in `m`.
pub open spec fn is_string_fields(o: Map<Seq<char>, Value>, m: Map<Seq<char>, Seq<char>>) -> bool {
    &&& o.dom() == m.dom()
    &&& forall|k: Seq<char>| #[trigger] o.contains_key(k) ==> json_string(o[k]) == Some(m[k])
}

/// `v` is the envelope of an event named `name` with attribute fields
/// `fields` and metadata `meta`.
pub open spec fn is_envelope(
    v: Value,
    name: Seq<char>,
    fields: Map<Seq<char>, Value>,
    meta: Map<Seq<char>, Seq<char>>,
) -> bool {
    match json_object(v) {
        Some(root) => {
            &&& root.dom() == Set::<Seq<char>>::empty().insert("data"@).insert("meta"@)
            &&& is_string_object(root["meta"@], meta)
            &&& match json_object(root["data"@]) {
                Some(data) => {
                    &&& data.dom() == Set::<Seq<char>>::empty().insert("type"@).insert(
                        "attributes"@,
                    )
                    &&& json_string(data["type"@]) == Some(name)
                    &&& json_object(data["attributes"@]) == Some(fields)
                },
                None => false,
            }
        },
        None => false,
    }
}

/// The keys of `attributes` but `metadata`, in their order; none for a value
/// that is not an object.
pub open spec fn attribute_keys(attributes: Value) -> Seq<Seq<char>> {
    if json_object(attributes).is_some() {
        json_keys(attributes).filter(|x: Seq<char>| x != "metadata"@)
    } else {
        Seq::empty()
    }
}

/// The envelope value `v` keeps its keys in wire order: `data` then `meta`,
/// `type` then `attributes`, and the attribute keys as `keys`.
pub open spec fn has_wire_order(v: Value, keys: Seq<Seq<char>>) -> bool {
    &&& json_keys(v) == seq!["data"@, "meta"@]
    &&& json_keys(fields_of(v)["data"@]) == seq!["type"@, "attributes"@]
    &&& json_keys(data_fields(v)["attributes"@]) == keys
}

/// The fields of the envelope's `data` object.
pub open spec fn data_fields(root: Value) -> Map<Seq<char>, Value> {
    fields_of(fields_of(root)["data"@])
}

/// Why decoding the envelope value `root` fails, if it does: `data` must be
/// an object holding `attributes` and a string `type`.
pub open spec fn decode_error(root: Value) -> Option<DeserializeError> {
    if json_object(root).is_none() || !fields_of(root).contains_key("data"@) || json_object(
        fields_of(root)["data"@],
    ).is_none() || !data_fields(root).contains_key("attributes"@) {
        Some(DeserializeError::UnableToDeserializeEvent)
    } else if !data_fields(root).contains_key("type"@) || json_string(
        data_fields(root)["type"@],
    ).is_none() {
        Some(DeserializeError::MissingEventName)
    } else {
        None
    }
}

/// The event name that a well-formed envelope value carries.
pub open spec fn decoded_name(root: Value) -> Seq<char> {
    json_string(data_fields(root)["type"@]).unwrap()
}

/// `out` is what decoding gives for the attributes of `root`: where they are
/// an object and `root` has `meta`, the attributes with `meta` added as their
/// `metadata` field; otherwise the attributes as they are.
pub open spec fn is_decoded_attributes(root: Value, out: Value) -> bool {
    let attrs = data_fields(root)["attributes"@];
    if json_object(attrs).is_some() && fields_of(root).contains_key("meta"@) {
        json_object(out) == Some(fields_of(attrs).insert("metadata"@, fields_of(root)["meta"@]))
    } else {
        out == attrs
    }
}

proof fn lemma_envelope_keys_distinct()
    ensures
        "data"@ != "meta"@,
        "type"@ != "attributes"@,
{
    reveal_strlit("data");
    reveal_strlit("meta");
    reveal_strlit("type");
    reveal_strlit("attributes");
    assert("data"@[0] != "meta"@[0]);
    assert("type"@.len() != "attributes"@.len());
}

/// A decoded envelope.
pub struct EventDeserializable<T> {
    pub data: EventDeserializableData<T>,
}

/// The `data` part of a decoded envelope: the event's name (its dispatch
/// tag) and its attributes.
pub struct EventDeserializableData<T> {
    pub event_name: String,
    pub attributes: T,
}

/// The metadata as a JSON object of strings.
fn metadata_object(meta: &EventMetadata) -> (r: JsonMap<String, Value>)
    ensures
        is_string_fields(object_entries(r), meta@),
{
    let entries = meta.entries();
    let mut r = new_object();
    let mut i: usize = 0;
    while i < entries.len()
        invariant
            i <= entries.len(),
            object_entries(r).dom() == entries_map(entries@.subrange(0, i as int)).dom(),
            forall|k: Seq<char>| #[trigger]
                object_entries(r).contains_key(k) ==> json_string(object_entries(r)[k]) == Some(
                    entries_map(entries@.subrange(0, i as int))[k],
                ),
        decreases entries.len() - i,
    {
        let ghost before = entries@.subrange(0, i as int);
        assert(entries@.subrange(0, i as int + 1).drop_last() =~= before);
        let key = entries[i].0.clone();
        let value = string_value(entries[i].1.clone());
        object_insert(&mut r, key, value);
        i = i + 1;
        assert(object_entries(r).dom() =~= entries_map(entries@.subrange(0, i as int)).dom());
    }
    assert(entries@.subrange(0, i as int) =~= entries@);
    r
}

/// The envelope value of an event named `name` with the fields of
/// `attributes` and metadata `meta`. The `metadata` field is dropped from the
/// attributes, whatever else they hold; a non-object gives no attributes.
pub fn encode_value(name: &str, attributes: Value, meta: &EventMetadata) -> (r: Value)
    ensures
        is_envelope(r, name@, fields_of(attributes).remove("metadata"@), meta@),
        has_wire_order(r, attribute_keys(attributes)),
{
    let mut fields = match into_object(attributes) {
        Ok(m) => m,
        Err(_) => new_object(),
    };
    let ghost before = object_keys(fields);
    object_remove(&mut fields, "metadata");
    proof {
        assert(object_keys(fields) == before.filter(|x: Seq<char>| x != "metadata"@));
        if json_object(attributes).is_none() {
            assert(before.filter(|x: Seq<char>| x != "metadata"@) =~= Seq::<Seq<char>>::empty());
        }
        assert(object_keys(fields) == attribute_keys(attributes));
    }
    let mut data = new_object();
    object_insert(&mut data, String::from_str("type"), string_value(name.to_owned()));
    let fields_v = object_value(fields);
    object_insert(&mut data, String::from_str("attributes"), fields_v);
    let meta_fields = metadata_object(meta);
    let meta_v = object_value(meta_fields);
    let data_v = object_value(data);
    let mut root = new_object();
    object_insert(&mut root, String::from_str("data"), data_v);
    object_insert(&mut root, String::from_str("meta"), meta_v);
    let r = object_value(root);
    proof {
        lemma_envelope_keys_distinct();
        let rm = object_entries(root);
        assert(rm.dom() =~= Set::<Seq<char>>::empty().insert("data"@).insert("meta"@));
        let dm = object_entries(data);
        assert(dm.dom() =~= Set::<Seq<char>>::empty().insert("type"@).insert("attributes"@));
        assert(rm["data"@] == data_v);
        assert(rm["meta"@] == meta_v);
        assert(dm["attributes"@] == fields_v);
        assert(object_entries(fields) =~= fields_of(attributes).remove("metadata"@));
        assert(object_keys(root) =~= seq!["data"@, "meta"@]);
        assert(object_keys(data) =~= seq!["type"@, "attributes"@]);
    }
    r
}

/// The envelope of an event as compact JSON text; rendering never fails.
pub fn encode(name: &str, attributes: Value, meta: &EventMetadata) -> (r: Result<String, SerializeError>)
    ensures
        r matches Ok(s) && exists|v: Value|
            is_envelope(v, name@, fields_of(attributes).remove("metadata"@), meta@)
                && has_wire_order(v, attribute_keys(attributes)) && s@ == json_text(v),
{
    let v = encode_value(name, attributes, meta);
    match render_json(&v) {
        Some(s) => Ok(s),
        None => Err(SerializeError::UnableToSerializeEvent),
    }
}

/// Decodes an envelope value into the event name and its attributes, with
/// the envelope's `meta` merged back into object attributes as `metadata`.
pub fn decode_value(root: Value) -> (r: Result<EventDeserializable<Value>, DeserializeError>)
    ensures
        decode_error(root) matches Some(e) ==> (r matches Err(f) && f == e),
        decode_error(root) is None ==> (r matches Ok(d) && d.data.event_name@ == decoded_name(root)
            && is_decoded_attributes(root, d.data.attributes)),
{
    let root_fields = match into_object(root) {
        Ok(m) => m,
        Err(_) => {
            return Err(DeserializeError::UnableToDeserializeEvent);
        },
    };
    let data = match object_get(&root_fields, "data") {
        Some(d) => d,
        None => {
            return Err(DeserializeError::UnableToDeserializeEvent);
        },
    };
    let data_fields = match into_object(data) {
        Ok(m) => m,
        Err(_) => {
            return Err(DeserializeError::UnableToDeserializeEvent);
        },
    };
    let attributes = match object_get(&data_fields, "attributes") {
        Some(a) => a,
        None => {
            return Err(DeserializeError::UnableToDeserializeEvent);
        },
    };
    let name = match object_get(&data_fields, "type") {
        Some(t) => match as_string(&t) {
            Some(n) => n,
            None => {
                return Err(DeserializeError::MissingEventName);
            },
        },
        None => {
            return Err(DeserializeError::MissingEventName);
        },
    };
    let merged = match object_get(&root_fields, "meta") {
        Some(meta) => match into_object(attributes) {
            Ok(mut fields) => {
                object_insert(&mut fields, String::from_str("metadata"), meta);
                object_value(fields)
            },
            Err(a) => a,
        },
        None => attributes,
    };
    Ok(EventDeserializable { data: EventDeserializableData { event_name: name, attributes: merged } })
}

/// Decodes envelope text into the event name and the concrete event.
///
/// Fails with `UnableToDeserializeEvent` where the text is not JSON, with the
/// error of `decode_value` where the envelope is malformed, and with
/// `UnableToDowncastEvent` where the attributes do not fit `T`.
pub fn decode<T: FromAttributes>(raw_event: &str) -> (r: Result<EventDeserializable<T>, DeserializeError>)
    ensures
        parsed_json(raw_event@) is None ==> (r matches Err(e) && e
            == DeserializeError::UnableToDeserializeEvent),
        parsed_json(raw_event@) matches Some(v) ==> match decode_error(v) {
            Some(e) => r matches Err(f) && f == e,
            None => match r {
                Ok(d) => d.data.event_name@ == decoded_name(v),
                Err(f) => f == DeserializeError::UnableToDowncastEvent,
            },
        },
{
    let root = match parse_json(raw_event) {
        Some(v) => v,
        None => {
            return Err(DeserializeError::UnableToDeserializeEvent);
        },
    };
    let decoded = decode_value(root)?;
    match T::from_attributes(decoded.data.attributes) {
        Some(event) => Ok(
            EventDeserializable {
                data: EventDeserializableData { event_name: decoded.data.event_name, attributes: event },
            },
        ),
        None => Err(DeserializeError::UnableToDowncastEvent),
    }
}

/// Encodes events with their metadata and decodes them back, as JSON
/// envelopes.
pub struct SerdeJSONEventFormatter;

impl SerdeJSONEventFormatter {
    /// The envelope text of `event`: its name, its fields but metadata, and
    /// its metadata.
    pub fn serialize<T: Event + EventWithMetadata + ToAttributes>(&self, event: &T) -> (r: Result<String, SerializeError>)
        ensures
            r matches Err(e) ==> e == SerializeError::UnableToSerializeEvent,
    {
        match event.to_attributes() {
            Some(attributes) => encode(event.event_name(), attributes, event.metadata()),
            None => Err(SerializeError::UnableToSerializeEvent),
        }
    }

    /// The event that envelope text holds; see `decode`.
    pub fn deserialize<T: FromAttributes>(&self, raw_event: String) -> (r: Result<EventDeserializable<T>, DeserializeError>)
        ensures
            parsed_json(raw_event@) is None ==> (r matches Err(e) && e
                == DeserializeError::UnableToDeserializeEvent),
            parsed_json(raw_event@) matches Some(v) ==> match decode_error(v) {
                Some(e) => r matches Err(f) && f == e,
                None => match r {
                    Ok(d) => d.data.event_name@ == decoded_name(v),
                    Err(f) => f == DeserializeError::UnableToDowncastEvent,
                },
            },
    {
        decode(raw_event.as_str())
    }
}

/// Encodes events whose name is known from their type, with an empty `meta`.
pub struct SerdeJSONEventSerializer;

impl SerdeJSONEventSerializer {
    /// The envelope text of `event` under its type's name, with no metadata.
    pub fn serialize<T: EventName + ToAttributes>(&self, event: &T) -> (r: Result<String, SerializeError>)
        ensures
            r matches Err(e) ==> e == SerializeError::UnableToSerializeEvent,
    {
        match event.to_attributes() {
            Some(attributes) => {
                let none = EventMetadata::new();
                encode(T::static_event_name(), attributes, &none)
            },
            None => Err(SerializeError::UnableToSerializeEvent),
        }
    }
}

/// Encodes an event with its metadata into transport text.
pub trait EventSerializer {
    fn serialize<T: Event + EventWithMetadata + ToAttributes>(&self, event: &T) -> Result<String, SerializeError>;
}

/// Decodes transport text into an envelope of a concrete event.
pub trait EventDeserializer {
    fn deserialize<T: FromAttributes>(&self, raw_event: String) -> Result<EventDeserializable<T>, DeserializeError>;
}

impl EventSerializer for SerdeJSONEventFormatter {
    fn serialize<T: Event + EventWithMetadata + ToAttributes>(&self, event: &T) -> Result<String, SerializeError> {
        SerdeJSONEventFormatter::serialize(self, event)
    }
}

impl EventDeserializer for SerdeJSONEventFormatter {
    fn deserialize<T: FromAttributes>(&self, raw_event: String) -> Result<EventDeserializable<T>, DeserializeError> {
        SerdeJSONEventFormatter::deserialize(self, raw_event)
    }
}

/// Decoding what was encoded gives back the event's name, and its attributes
/// with the `metadata` field holding exactly the event's metadata entries;
/// the encoded attributes never hold a `metadata` field.
pub proof fn lemma_envelope_round_trip(
    v: Value,
    name: Seq<char>,
    attributes: Value,
    meta: Map<Seq<char>, Seq<char>>,
    out: Value,
)
    requires
        is_envelope(v, name, fields_of(attributes).remove("metadata"@), meta),
        is_decoded_attributes(v, out),
    ensures
        decode_error(v) is None,
        decoded_name(v) == name,
        !fields_of(data_fields(v)["attributes"@]).contains_key("metadata"@),
        forall|k: Seq<char>| k != "metadata"@ ==> (#[trigger] fields_of(out).contains_key(k)
            <==> fields_of(attributes).contains_key(k)),
        forall|k: Seq<char>| k != "metadata"@ && #[trigger] fields_of(out).contains_key(k)
            ==> fields_of(out)[k] == fields_of(attributes)[k],
        fields_of(out).contains_key("metadata"@),
        is_string_object(fields_of(out)["metadata"@], meta),
{
    let root = fields_of(v);
    assert(root.contains_key("data"@));
    assert(root.contains_key("meta"@));
    let data = data_fields(v);
    assert(data.contains_key("type"@));
    assert(data.contains_key("attributes"@));
}

} // verus!
