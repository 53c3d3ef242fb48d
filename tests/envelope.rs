use hermes::envelope::{
    decode, decode_value, encode, encode_value, FromAttributes,
    SerdeJSONEventFormatter, SerdeJSONEventSerializer, ToAttributes,
};
use hermes::error::{DeserializeError, SerializeError};
use hermes::event::{Event, EventMetadata, EventName, EventWithMetadata};
use serde_json::{Map as JsonMap, Value};

#[derive(Debug)]
struct SerializableEvent {
    id: String,
    metadata: EventMetadata,
}

impl Event for SerializableEvent {
    fn event_name(&self) -> &'static str {
        "serializable_event"
    }
}

impl EventWithMetadata for SerializableEvent {
    fn add_metadata(&mut self, key: String, value: String) {
        self.metadata.add(key, value);
    }

    fn get_metadata(&self, key: &str) -> Option<&String> {
        self.metadata.get(key)
    }

    fn metadata(&self) -> &EventMetadata {
        &self.metadata
    }

    fn drain_metadata(&mut self) -> EventMetadata {
        self.metadata.drain()
    }
}

fn metadata_value(metadata: &EventMetadata) -> Value {
    let mut m = JsonMap::new();
    for (k, v) in metadata.entries() {
        m.insert(k.clone(), Value::String(v.clone()));
    }
    Value::Object(m)
}

impl ToAttributes for SerializableEvent {
    fn to_attributes(&self) -> Option<Value> {
        let mut m = JsonMap::new();
        m.insert("id".to_string(), Value::String(self.id.clone()));
        m.insert("metadata".to_string(), metadata_value(&self.metadata));
        Some(Value::Object(m))
    }
}

impl FromAttributes for SerializableEvent {
    fn from_attributes(attributes: Value) -> Option<Self> {
        let object = attributes.as_object()?;
        let id = object.get("id")?.as_str()?.to_string();
        let mut metadata = EventMetadata::new();
        if let Some(meta) = object.get("metadata") {
            for (k, v) in meta.as_object()? {
                metadata.add(k.clone(), v.as_str()?.to_string());
            }
        }
        Some(SerializableEvent { id, metadata })
    }
}

struct NamedEvent {
    id: String,
}

impl EventName for NamedEvent {
    fn static_event_name() -> &'static str {
        "serializable_event"
    }
}

impl ToAttributes for NamedEvent {
    fn to_attributes(&self) -> Option<Value> {
        let mut m = JsonMap::new();
        m.insert("id".to_string(), Value::String(self.id.clone()));
        Some(Value::Object(m))
    }
}

struct Unrenderable;

impl EventName for Unrenderable {
    fn static_event_name() -> &'static str {
        "unrenderable"
    }
}

impl ToAttributes for Unrenderable {
    fn to_attributes(&self) -> Option<Value> {
        None
    }
}

#[test]
fn unrenderable_attributes_cannot_be_serialized() {
    assert_eq!(
        SerdeJSONEventSerializer.serialize(&Unrenderable).err(),
        Some(SerializeError::UnableToSerializeEvent)
    );
}

#[test]
fn serde_formatter_it_should_serialize_event_and_add_event_name() {
    let event = SerializableEvent { id: "1".to_string(), metadata: EventMetadata::default() };
    let serialized = SerdeJSONEventFormatter.serialize(&event);

    assert_eq!(
        serialized.unwrap(),
        "{\"data\":{\"type\":\"serializable_event\",\"attributes\":{\"id\":\"1\"}},\"meta\":{}}"
    )
}

#[test]
fn serde_serialize_it_should_serialize_event_and_add_event_name() {
    let event = NamedEvent { id: "1".to_string() };
    let serialized = SerdeJSONEventSerializer.serialize(&event);

    assert_eq!(
        serialized.unwrap(),
        "{\"data\":{\"type\":\"serializable_event\",\"attributes\":{\"id\":\"1\"}},\"meta\":{}}"
    )
}

#[test]
fn it_should_deserialize_event_and_add_event_name() {
    let json = "{\"data\":{\"type\":\"serializable_event\",\"attributes\":{\"id\":\"1\"}},\"meta\":{}}".to_string();

    let deserialized = SerdeJSONEventFormatter.deserialize::<SerializableEvent>(json);

    assert!(deserialized.is_ok());
    let deserializable = deserialized.unwrap();

    assert_eq!(deserializable.data.event_name, "serializable_event");
    assert_eq!(deserializable.data.attributes.id, "1");
}

#[test]
fn it_should_not_deserialize_event_when_json_is_not_equals() {
    let json = "{\"data\":{\"type\":\"serializable_event\",\"attributes\":{\"idd\":\"1\"}},\"meta\":{}}".to_string();

    let deserialized = SerdeJSONEventFormatter.deserialize::<SerializableEvent>(json);

    assert!(deserialized.is_err());
}

#[test]
fn metadata_goes_to_meta_and_never_into_attributes() {
    let mut event = SerializableEvent { id: "7".to_string(), metadata: EventMetadata::new() };
    event.add_metadata("trace".to_string(), "abc".to_string());
    let text = SerdeJSONEventFormatter.serialize(&event).unwrap();
    assert_eq!(
        text,
        "{\"data\":{\"type\":\"serializable_event\",\"attributes\":{\"id\":\"7\"}},\"meta\":{\"trace\":\"abc\"}}"
    );
}

#[test]
fn round_trip_keeps_fields_and_metadata() {
    let mut event = SerializableEvent { id: "42".to_string(), metadata: EventMetadata::new() };
    event.add_metadata("a".to_string(), "1".to_string());
    event.add_metadata("b".to_string(), "2".to_string());
    let text = SerdeJSONEventFormatter.serialize(&event).unwrap();
    let back = SerdeJSONEventFormatter.deserialize::<SerializableEvent>(text).unwrap();
    assert_eq!(back.data.event_name, "serializable_event");
    assert_eq!(back.data.attributes.id, "42");
    assert_eq!(back.data.attributes.get_metadata("a").map(|s| s.as_str()), Some("1"));
    assert_eq!(back.data.attributes.get_metadata("b").map(|s| s.as_str()), Some("2"));
    assert_eq!(back.data.attributes.get_metadata("c"), None);
}

#[test]
fn encode_value_drops_metadata_field_whatever_it_holds() {
    let mut attrs = JsonMap::new();
    attrs.insert("metadata".to_string(), Value::Bool(true));
    attrs.insert("x".to_string(), Value::Null);
    let v = encode_value("ev", Value::Object(attrs), &EventMetadata::new());
    let data = v.get("data").unwrap();
    assert_eq!(data.get("type").unwrap().as_str(), Some("ev"));
    let a = data.get("attributes").unwrap().as_object().unwrap();
    assert!(a.get("metadata").is_none());
    assert_eq!(a.get("x"), Some(&Value::Null));
}

#[test]
fn encode_of_non_object_attributes_gives_empty_attributes() {
    let text = encode("ev", Value::Bool(false), &EventMetadata::new()).unwrap();
    assert_eq!(text, "{\"data\":{\"type\":\"ev\",\"attributes\":{}},\"meta\":{}}");
}

#[test]
fn decode_merges_meta_into_attributes() {
    let v: Value = serde_json::from_str(
        "{\"data\":{\"type\":\"t\",\"attributes\":{\"id\":\"1\"}},\"meta\":{\"k\":\"v\"}}",
    )
    .unwrap();
    let d = decode_value(v).ok().unwrap();
    assert_eq!(d.data.event_name, "t");
    let a = d.data.attributes.as_object().unwrap();
    assert_eq!(a.get("id").unwrap().as_str(), Some("1"));
    assert_eq!(a.get("metadata").unwrap().get("k").unwrap().as_str(), Some("v"));
}

#[test]
fn decode_without_meta_keeps_attributes() {
    let v: Value =
        serde_json::from_str("{\"data\":{\"type\":\"t\",\"attributes\":{\"id\":\"1\"}}}").unwrap();
    let d = decode_value(v).ok().unwrap();
    let a = d.data.attributes.as_object().unwrap();
    assert!(a.get("metadata").is_none());
    assert_eq!(a.len(), 1);
}

#[test]
fn decode_errors() {
    assert_eq!(
        decode::<SerializableEvent>("not json").err(),
        Some(DeserializeError::UnableToDeserializeEvent)
    );
    assert_eq!(
        decode::<SerializableEvent>("[1,2]").err(),
        Some(DeserializeError::UnableToDeserializeEvent)
    );
    assert_eq!(
        decode::<SerializableEvent>("{\"meta\":{}}").err(),
        Some(DeserializeError::UnableToDeserializeEvent)
    );
    assert_eq!(
        decode::<SerializableEvent>("{\"data\":{\"type\":\"t\"},\"meta\":{}}").err(),
        Some(DeserializeError::UnableToDeserializeEvent)
    );
    assert_eq!(
        decode::<SerializableEvent>("{\"data\":{\"attributes\":{\"id\":\"1\"}},\"meta\":{}}").err(),
        Some(DeserializeError::MissingEventName)
    );
    assert_eq!(
        decode::<SerializableEvent>("{\"data\":{\"type\":3,\"attributes\":{\"id\":\"1\"}}}").err(),
        Some(DeserializeError::MissingEventName)
    );
    assert_eq!(
        decode::<SerializableEvent>("{\"data\":{\"type\":\"t\",\"attributes\":{\"idd\":\"1\"}}}").err(),
        Some(DeserializeError::UnableToDowncastEvent)
    );
}

#[test]
fn error_messages() {
    assert_eq!(SerializeError::UnableToSerializeEvent.message(), "Unable to serialize event");
    assert_eq!(DeserializeError::UnableToDeserializeEvent.message(), "Unable to deserialize event");
    assert_eq!(DeserializeError::MissingEventName.message(), "Missing event name");
    assert_eq!(DeserializeError::UnableToDowncastEvent.message(), "Unable to downcast event");
}

#[test]
fn attribute_keys_keep_their_order_without_metadata() {
    let mut attrs = JsonMap::new();
    attrs.insert("zeta".to_string(), Value::String("1".to_string()));
    attrs.insert("metadata".to_string(), Value::Null);
    attrs.insert("alpha".to_string(), Value::String("2".to_string()));
    let mut meta = EventMetadata::new();
    meta.add("k".to_string(), "v".to_string());
    let text = encode("ev", Value::Object(attrs), &meta).unwrap();
    assert_eq!(
        text,
        "{\"data\":{\"type\":\"ev\",\"attributes\":{\"zeta\":\"1\",\"alpha\":\"2\"}},\"meta\":{\"k\":\"v\"}}"
    );
}
