use azure_core::{Body, RequestContent};
use serde::ser::SerializeStruct;

#[derive(Debug)]
struct Expected {
    str: String,
    num: i32,
    b: bool,
}

impl serde::Serialize for Expected {
    fn serialize<S: serde::Serializer>(&self, serializer: S) -> Result<S::Ok, S::Error> {
        let mut s = serializer.serialize_struct("Expected", 3)?;
        s.serialize_field("str", &self.str)?;
        s.serialize_field("num", &self.num)?;
        s.serialize_field("b", &self.b)?;
        s.end()
    }
}

impl TryFrom<Expected> for RequestContent<Expected> {
    type Error = azure_core::Error;
    fn try_from(value: Expected) -> Result<Self, Self::Error> {
        let bytes = serde_json::to_vec(&value)
            .map_err(|e| azure_core::Error::new(azure_core::ErrorKind::DataConversion, e.to_string()))?;
        Ok(RequestContent::from(bytes))
    }
}

fn expected() -> RequestContent<Expected> {
    RequestContent::from(r#"{"str":"test","num":1,"b":true}"#.as_bytes().to_vec())
}

#[test]
fn tryfrom_t() {
    let actual = Expected {
        str: "test".to_string(),
        num: 1,
        b: true,
    };
    assert_eq!(expected(), actual.try_into().unwrap());
}

#[test]
fn tryfrom_bytes() {
    let actual: Vec<u8> = r#"{"str":"test","num":1,"b":true}"#.to_string().into_bytes();
    assert_eq!(expected(), actual.try_into().unwrap());
}

#[test]
fn tryfrom_vec() {
    let actual: Vec<u8> = r#"{"str":"test","num":1,"b":true}"#.bytes().collect();
    assert_eq!(expected(), actual.try_into().unwrap());
}

#[test]
fn tryfrom_str() {
    let actual = r#"{"str":"test","num":1,"b":true}"#;
    assert_eq!(expected(), actual.try_into().unwrap());
}

#[test]
fn fromstr_parse() {
    let actual: RequestContent<Expected> = r#"{"str":"test","num":1,"b":true}"#.parse().unwrap();
    assert_eq!(expected(), actual);
}

#[test]
fn content_differs_by_bytes() {
    let a: RequestContent<Expected> = RequestContent::from(b"{}".to_vec());
    let b: RequestContent<Expected> = RequestContent::from(b"[]".to_vec());
    assert_ne!(a, b);
    assert_eq!(a.body(), &b"{}".to_vec());
}

#[test]
fn content_becomes_a_body() {
    let c: RequestContent<Expected> = RequestContent::from(b"abc".to_vec());
    let body: Body = c.into();
    assert_eq!(body.len(), 3);
    assert!(!body.is_empty());
}
