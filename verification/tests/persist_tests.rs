use std::fmt;

use config_file::ConfigFormat;
use config_file::Decodable;
use config_file::Encodable;
use config_file::Error;
use config_file::FileRead;
use config_file::LoadConfigFile;
use config_file::Storable;
use config_file::StoreConfigFile;
use config_file::TomlError;
use config_file::XmlError;
use serde::de::IgnoredAny;
use serde::de::MapAccess;
use serde::de::Visitor;
use serde::ser::SerializeStruct;
use serde::Deserialize;
use serde::Deserializer;
use serde::Serialize;
use serde::Serializer;

const JSON_FIXTURE: &str = r#"{
  "host": "example.com",
  "port": 443,
  "tags": ["example", "test"],
  "inner": { "answer": 42 }
}"#;

const TOML_FIXTURE: &str = r#"host = "example.com"
port = 443
tags = ["example", "test"]

[inner]
answer = 42
"#;

const XML_FIXTURE: &str = "<TestConfig><host>example.com</host><port>443</port>\
<tags>example</tags><tags>test</tags><inner><answer>42</answer></inner></TestConfig>";

const YAML_FIXTURE: &str = r#"host: example.com
port: 443
tags:
  - example
  - test
inner:
  answer: 42
"#;

const RON_FIXTURE: &str = r#"(
    host: "example.com",
    port: 443,
    tags: ["example", "test"],
    inner: (answer: 42),
)"#;

#[derive(Debug, PartialEq, Eq, Default)]
struct TestConfig {
    host: String,
    port: u64,
    tags: Vec<String>,
    inner: TestConfigInner,
}

#[derive(Debug, PartialEq, Eq, Default)]
struct TestConfigInner {
    answer: u8,
}

impl TestConfig {
    fn example() -> Self {
        TestConfig {
            host: "example.com".to_string(),
            port: 443,
            tags: vec!["example".to_string(), "test".to_string()],
            inner: TestConfigInner { answer: 42 },
        }
    }
}

impl Serialize for TestConfigInner {
    fn serialize<S: Serializer>(&self, serializer: S) -> Result<S::Ok, S::Error> {
        let mut s = serializer.serialize_struct("TestConfigInner", 1)?;
        s.serialize_field("answer", &self.answer)?;
        s.end()
    }
}

impl Serialize for TestConfig {
    fn serialize<S: Serializer>(&self, serializer: S) -> Result<S::Ok, S::Error> {
        let mut s = serializer.serialize_struct("TestConfig", 4)?;
        s.serialize_field("host", &self.host)?;
        s.serialize_field("port", &self.port)?;
        s.serialize_field("tags", &self.tags)?;
        s.serialize_field("inner", &self.inner)?;
        s.end()
    }
}

struct InnerVisitor;

impl<'de> Visitor<'de> for InnerVisitor {
    type Value = TestConfigInner;

    fn expecting(&self, formatter: &mut fmt::Formatter) -> fmt::Result {
        formatter.write_str("struct TestConfigInner")
    }

    fn visit_map<A: MapAccess<'de>>(self, mut map: A) -> Result<Self::Value, A::Error> {
        let mut answer: Option<u8> = None;
        while let Some(key) = map.next_key::<String>()? {
            if key == "answer" {
                answer = Some(map.next_value()?);
            } else {
                map.next_value::<IgnoredAny>()?;
            }
        }
        let answer =
            answer.ok_or_else(|| <A::Error as serde::de::Error>::missing_field("answer"))?;
        Ok(TestConfigInner { answer })
    }
}

impl<'de> Deserialize<'de> for TestConfigInner {
    fn deserialize<D: Deserializer<'de>>(deserializer: D) -> Result<Self, D::Error> {
        deserializer.deserialize_struct("TestConfigInner", &["answer"], InnerVisitor)
    }
}

struct ConfigVisitor;

impl<'de> Visitor<'de> for ConfigVisitor {
    type Value = TestConfig;

    fn expecting(&self, formatter: &mut fmt::Formatter) -> fmt::Result {
        formatter.write_str("struct TestConfig")
    }

    fn visit_map<A: MapAccess<'de>>(self, mut map: A) -> Result<Self::Value, A::Error> {
        let mut host: Option<String> = None;
        let mut port: Option<u64> = None;
        let mut tags: Option<Vec<String>> = None;
        let mut inner: Option<TestConfigInner> = None;
        while let Some(key) = map.next_key::<String>()? {
            match key.as_str() {
                "host" => host = Some(map.next_value()?),
                "port" => port = Some(map.next_value()?),
                "tags" => tags = Some(map.next_value()?),
                "inner" => inner = Some(map.next_value()?),
                _ => {
                    map.next_value::<IgnoredAny>()?;
                }
            }
        }
        let host = host.ok_or_else(|| <A::Error as serde::de::Error>::missing_field("host"))?;
        let port = port.ok_or_else(|| <A::Error as serde::de::Error>::missing_field("port"))?;
        let tags = tags.ok_or_else(|| <A::Error as serde::de::Error>::missing_field("tags"))?;
        let inner = inner.ok_or_else(|| <A::Error as serde::de::Error>::missing_field("inner"))?;
        Ok(TestConfig {
            host,
            port,
            tags,
            inner,
        })
    }
}

impl<'de> Deserialize<'de> for TestConfig {
    fn deserialize<D: Deserializer<'de>>(deserializer: D) -> Result<Self, D::Error> {
        deserializer.deserialize_struct(
            "TestConfig",
            &["host", "port", "tags", "inner"],
            ConfigVisitor,
        )
    }
}

#[allow(deprecated)]
fn encode_with<T: Serialize>(value: &T, format: ConfigFormat) -> Result<String, String> {
    match format {
        ConfigFormat::Json => serde_json::to_string_pretty(value).map_err(|e| e.to_string()),
        ConfigFormat::Toml => toml::to_string_pretty(value).map_err(|e| e.to_string()),
        ConfigFormat::Xml => quick_xml::se::to_string(value).map_err(|e| e.to_string()),
        ConfigFormat::Yaml => serde_yml::to_string(value).map_err(|e| e.to_string()),
        ConfigFormat::Ron => {
            ron::ser::to_string_pretty(value, ron::ser::PrettyConfig::default())
                .map_err(|e| e.to_string())
        }
    }
}

#[allow(deprecated)]
fn decode_with<T: serde::de::DeserializeOwned + 'static>(
    text: &str,
    format: ConfigFormat,
) -> Result<T, String> {
    match format {
        ConfigFormat::Json => serde_json::from_str(text).map_err(|e| e.to_string()),
        ConfigFormat::Toml => toml::from_str(text).map_err(|e| e.to_string()),
        ConfigFormat::Xml => quick_xml::de::from_str(text).map_err(|e| e.to_string()),
        ConfigFormat::Yaml => serde_yml::from_str(text).map_err(|e| e.to_string()),
        ConfigFormat::Ron => ron::de::from_str(text).map_err(|e| e.to_string()),
    }
}

impl Encodable for TestConfig {
    fn encode(&self, format: ConfigFormat) -> Result<String, String> {
        encode_with(self, format)
    }
}

impl Decodable for TestConfig {
    fn decode(text: &str, format: ConfigFormat) -> Result<Self, String> {
        decode_with(text, format)
    }
}

#[derive(Debug)]
struct TestStorable {
    path: String,
}

impl Serialize for TestStorable {
    fn serialize<S: Serializer>(&self, serializer: S) -> Result<S::Ok, S::Error> {
        let mut s = serializer.serialize_struct("TestStorable", 1)?;
        s.serialize_field("path", &self.path)?;
        s.end()
    }
}

impl Encodable for TestStorable {
    fn encode(&self, format: ConfigFormat) -> Result<String, String> {
        encode_with(self, format)
    }
}

impl Storable for TestStorable {
    fn path(&self) -> String {
        self.path.clone()
    }
}

/// A record whose codec refuses to encode it, at every format.
struct Refusing;

impl Encodable for Refusing {
    fn encode(&self, _format: ConfigFormat) -> Result<String, String> {
        Err("refused by the codec".to_string())
    }
}

/// A record that serializes to a bare integer, which TOML cannot represent
/// at the top level.
struct NotATable;

impl Serialize for NotATable {
    fn serialize<S: Serializer>(&self, serializer: S) -> Result<S::Ok, S::Error> {
        serializer.serialize_u64(443)
    }
}

impl Encodable for NotATable {
    fn encode(&self, format: ConfigFormat) -> Result<String, String> {
        encode_with(self, format)
    }
}

fn test_read_with_extension(extension: &str, fixture: &str) {
    let path = format!("testdata/config.{}", extension);
    let config = TestConfig::load(&path, FileRead::Content(fixture.to_string()));
    assert_eq!(config.unwrap().unwrap(), TestConfig::example());
}

fn test_write_with_extension(extension: &str) {
    let path = format!("config.{}", extension);
    let text = TestConfig::example().store(&path).unwrap();
    let loaded = TestConfig::load(&path, FileRead::Content(text));
    assert_eq!(TestConfig::example(), loaded.unwrap().unwrap());
}

#[test]
fn test_unknown() {
    let config = TestConfig::load("/tmp/foobar", FileRead::Missing);
    assert!(matches!(config, Err(Error::UnsupportedFormat)));
}

#[test]
fn test_file_not_found() {
    let config = TestConfig::load("/tmp/foobar.toml", FileRead::Missing);
    assert!(config.unwrap().is_none());
}

#[test]
fn test_json() {
    test_read_with_extension("json", JSON_FIXTURE);
    test_write_with_extension("json");
}

#[test]
fn test_toml() {
    test_read_with_extension("toml", TOML_FIXTURE);
    test_write_with_extension("toml");
}

#[test]
fn test_xml() {
    test_read_with_extension("xml", XML_FIXTURE);
    test_write_with_extension("xml");
}

#[test]
fn test_yaml() {
    test_read_with_extension("yml", YAML_FIXTURE);
    test_write_with_extension("yaml");
}

#[test]
fn test_ron() {
    test_read_with_extension("ron", RON_FIXTURE);
    test_write_with_extension("ron");
}

#[test]
fn test_store_without_overwrite() {
    // The target file is observed as already existing.
    let result = TestConfig::example().store_without_overwrite(
        "test_store_without_overwrite.toml",
        true,
    );
    assert!(result.is_err());
}

#[test]
fn test_store_load_with_specific_format() {
    let text = TestConfig::example()
        .store_with_specific_format(ConfigFormat::Yaml)
        .unwrap();
    let by_extension = TestConfig::load(
        "test_store_load_with_specific_format.toml",
        FileRead::Content(text.clone()),
    );
    assert!(by_extension.is_err());
    let by_format = TestConfig::load_with_specific_format(FileRead::Content(text), ConfigFormat::Yaml);
    assert!(by_format.is_ok());
}

#[test]
fn test_load_or_default() {
    let loaded = TestConfig::load_or_default("test_load_or_default.toml", FileRead::Missing)
        .expect("load_or_default failed");
    assert_eq!(loaded, TestConfig::default());
}

#[test]
fn test_store() {
    let stored = Storable::store(&TestStorable {
        path: "test_store.toml".to_string(),
    });
    assert!(stored.is_ok());
}

#[test]
fn no_overwrite_reports_file_exists() {
    let result = TestConfig::example().store_without_overwrite("present.json", true);
    assert!(matches!(result, Err(Error::FileExists)));
    assert!(matches!(
        Storable::store_without_overwrite(
            &TestStorable {
                path: "present.toml".to_string(),
            },
            true,
        ),
        Err(Error::FileExists)
    ));
}

#[test]
fn read_failure_propagates_diagnostic() {
    let result = TestConfig::load(
        "config.toml",
        FileRead::Failed("permission denied".to_string()),
    );
    match result {
        Err(Error::FileAccess(message)) => assert_eq!(message, "permission denied"),
        _ => panic!("expected a file access error"),
    }
}

#[test]
fn unknown_extension_beats_read_outcome() {
    let result = TestConfig::load(
        "x.unknownext",
        FileRead::Content("host = \"h\"".to_string()),
    );
    assert!(matches!(result, Err(Error::UnsupportedFormat)));
}

#[test]
fn decode_failure_reports_the_format_error() {
    assert!(matches!(
        TestConfig::load("c.json", FileRead::Content("{broken".to_string())),
        Err(Error::Json(_))
    ));
    assert!(matches!(
        TestConfig::load("c.toml", FileRead::Content("= nonsense".to_string())),
        Err(Error::Toml(TomlError::DeserializationError(_)))
    ));
    assert!(matches!(
        TestConfig::load("c.xml", FileRead::Content("<unclosed".to_string())),
        Err(Error::Xml(XmlError::DeserializationError(_)))
    ));
    assert!(matches!(
        TestConfig::load("c.yaml", FileRead::Content("[unclosed".to_string())),
        Err(Error::Yaml(_))
    ));
    assert!(matches!(
        TestConfig::load("c.ron", FileRead::Content("(unclosed".to_string())),
        Err(Error::Ron(_))
    ));
}

#[test]
fn load_or_default_propagates_other_failures() {
    let result = TestConfig::load_or_default("c.toml", FileRead::Failed("boom".to_string()));
    assert!(matches!(result, Err(Error::FileAccess(_))));
    let loaded = TestConfig::load_or_default("c.toml", FileRead::Content(TOML_FIXTURE.to_string()));
    assert_eq!(loaded.unwrap(), TestConfig::example());
}

#[test]
fn storable_stores_at_its_own_path() {
    let record = TestStorable {
        path: "self_described.json".to_string(),
    };
    let text = Storable::store(&record).unwrap();
    assert!(text.contains("self_described.json"));
    let explicit = Storable::store_with_specific_format(&record, ConfigFormat::Ron).unwrap();
    assert!(explicit.contains("self_described.json"));
}

#[test]
fn encode_failure_reports_the_format_error() {
    assert!(matches!(
        Refusing.store_with_specific_format(ConfigFormat::Json),
        Err(Error::Json(_))
    ));
    assert!(matches!(
        Refusing.store_with_specific_format(ConfigFormat::Toml),
        Err(Error::Toml(TomlError::SerializationError(_)))
    ));
    assert!(matches!(
        Refusing.store_with_specific_format(ConfigFormat::Xml),
        Err(Error::Xml(XmlError::SerializationError(_)))
    ));
    assert!(matches!(
        Refusing.store_with_specific_format(ConfigFormat::Yaml),
        Err(Error::Yaml(_))
    ));
    assert!(matches!(
        Refusing.store_with_specific_format(ConfigFormat::Ron),
        Err(Error::Ron(_))
    ));
    assert!(matches!(Refusing.store("refused.json"), Err(Error::Json(_))));
}

#[test]
fn toml_rejects_a_record_that_is_no_table() {
    let result = NotATable.store_with_specific_format(ConfigFormat::Toml);
    assert!(matches!(
        result,
        Err(Error::Toml(TomlError::SerializationError(_)))
    ));
}

#[test]
fn error_messages_name_the_failure() {
    assert_eq!(Error::FileExists.message(), "file already exists");
    assert_eq!(Error::UnsupportedFormat.message(), "don't know how to parse file");
    assert_eq!(
        Error::FileAccess("denied".to_string()).message(),
        "couldn't read or write config file"
    );
    assert_eq!(
        Error::Toml(TomlError::SerializationError("x".to_string())).message(),
        "couldn't parse TOML file"
    );
}
