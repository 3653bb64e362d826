use vstd::prelude::*;
use vstd::string::StringExecFns;
use std::collections::HashMap;

verus! {

/// The formats a configuration text may be written in.
#[derive(Debug, Clone, Copy, PartialEq, Eq, Structural)]
pub enum ConfigFormat {
    Json,
    Toml,
    Yaml,
}

/// A configuration value. A number is kept as the text it was written as.
#[derive(Debug)]
pub enum ConfigValueEnum<T> {
    String(String),
    Number(String),
    Boolean(bool),
    Array(Vec<T>),
    Object(HashMap<String, T>),
}

/// An error about a configuration, with its message.
#[derive(Debug, Clone)]
pub struct ConfigError {
    pub message: String,
}

/// Text shown before every configuration error message.
pub const CONFIG_ERROR_PREFIX: &'static str = "配置错误: ";

impl ConfigError {
    /// An error with this message.
    pub fn new(message: &str) -> (r: ConfigError)
        ensures
            r.message@ == message@,
    {
        ConfigError { message: message.to_owned() }
    }

    /// The error as it is shown to a user.
    pub fn to_string(&self) -> (r: String)
        ensures
            r@ == CONFIG_ERROR_PREFIX@ + self.message@,
    {
        let mut r = CONFIG_ERROR_PREFIX.to_owned();
        r.append(self.message.as_str());
        r
    }
}

/// Reads a configuration text into a value.
pub trait ConfigParser<T> {
    fn parse(&self, input: &str) -> Result<T, ConfigError>;
}

/// Reader for JSON configuration text.
pub struct JsonParser;

/// Reader for TOML configuration text.
pub struct TomlParser;

/// Reader for YAML configuration text.
pub struct YamlParser;

/// What every reader makes of a text: the text itself, as a string value.
pub open spec fn parsed_as_text(input: &str, r: Result<ConfigValueEnum<String>, ConfigError>) -> bool {
    r matches Ok(ConfigValueEnum::String(s)) && s@ == input@
}

impl JsonParser {
    /// Keeps the whole text as one string value.
    pub fn parse_text(&self, input: &str) -> (r: Result<ConfigValueEnum<String>, ConfigError>)
        ensures
            parsed_as_text(input, r),
    {
        Ok(ConfigValueEnum::String(input.to_owned()))
    }
}

impl TomlParser {
    /// Keeps the whole text as one string value.
    pub fn parse_text(&self, input: &str) -> (r: Result<ConfigValueEnum<String>, ConfigError>)
        ensures
            parsed_as_text(input, r),
    {
        Ok(ConfigValueEnum::String(input.to_owned()))
    }
}

impl YamlParser {
    /// Keeps the whole text as one string value.
    pub fn parse_text(&self, input: &str) -> (r: Result<ConfigValueEnum<String>, ConfigError>)
        ensures
            parsed_as_text(input, r),
    {
        Ok(ConfigValueEnum::String(input.to_owned()))
    }
}

impl ConfigParser<ConfigValueEnum<String>> for JsonParser {
    fn parse(&self, input: &str) -> Result<ConfigValueEnum<String>, ConfigError> {
        self.parse_text(input)
    }
}

impl ConfigParser<ConfigValueEnum<String>> for TomlParser {
    fn parse(&self, input: &str) -> Result<ConfigValueEnum<String>, ConfigError> {
        self.parse_text(input)
    }
}

impl ConfigParser<ConfigValueEnum<String>> for YamlParser {
    fn parse(&self, input: &str) -> Result<ConfigValueEnum<String>, ConfigError> {
        self.parse_text(input)
    }
}

/// Reads `input` with the reader of `format`.
pub fn parse_config_value(format: ConfigFormat, input: &str) -> (r: Result<
    ConfigValueEnum<String>,
    ConfigError,
>)
    ensures
        parsed_as_text(input, r),
{
    match format {
        ConfigFormat::Json => JsonParser.parse_text(input),
        ConfigFormat::Toml => TomlParser.parse_text(input),
        ConfigFormat::Yaml => YamlParser.parse_text(input),
    }
}

/// Message for an empty string value.
pub const EMPTY_STRING_MESSAGE: &'static str = "字符串值不能为空";

/// Message for an empty array.
pub const EMPTY_ARRAY_MESSAGE: &'static str = "数组不能为空";

/// Message for an empty object.
pub const EMPTY_OBJECT_MESSAGE: &'static str = "对象不能为空";

/// Message for a value that is not a string.
pub const NOT_A_STRING_MESSAGE: &'static str = "无法将配置值转换为字符串";

/// The message `validate` gives for a value, or `None` when the value passes.
pub open spec fn validation_message(v: &ConfigValueEnum<String>) -> Option<Seq<char>> {
    match v {
        ConfigValueEnum::String(s) => if s@.len() == 0 {
            Some(EMPTY_STRING_MESSAGE@)
        } else {
            None
        },
        ConfigValueEnum::Array(a) => if a@.len() == 0 {
            Some(EMPTY_ARRAY_MESSAGE@)
        } else {
            None
        },
        ConfigValueEnum::Object(o) => if o@.is_empty() {
            Some(EMPTY_OBJECT_MESSAGE@)
        } else {
            None
        },
        _ => None,
    }
}

impl ConfigValueEnum<String> {
    /// Rejects an empty string, an empty array and an empty object.
    pub fn validate(&self) -> (r: Result<(), ConfigError>)
        ensures
            match validation_message(self) {
                None => r is Ok,
                Some(m) => r matches Err(e) && e.message@ == m,
            },
    {
        match self {
            ConfigValueEnum::String(s) => {
                if s.as_str().is_empty() {
                    Err(ConfigError::new(EMPTY_STRING_MESSAGE))
                } else {
                    Ok(())
                }
            },
            ConfigValueEnum::Array(arr) => {
                if arr.is_empty() {
                    Err(ConfigError::new(EMPTY_ARRAY_MESSAGE))
                } else {
                    Ok(())
                }
            },
            ConfigValueEnum::Object(obj) => {
                if obj.is_empty() {
                    Err(ConfigError::new(EMPTY_OBJECT_MESSAGE))
                } else {
                    Ok(())
                }
            },
            _ => Ok(()),
        }
    }

    /// The value used when none is configured: the string `default`.
    pub fn default_value() -> (r: ConfigValueEnum<String>)
        ensures
            r matches ConfigValueEnum::String(s) && s@ == "default"@,
    {
        ConfigValueEnum::String("default".to_owned())
    }

    /// The text of a string value; any other value is an error.
    pub fn to_text(&self) -> (r: Result<String, ConfigError>)
        ensures
            match self {
                ConfigValueEnum::String(s) => r matches Ok(t) && t == *s,
                _ => r matches Err(e) && e.message@ == NOT_A_STRING_MESSAGE@,
            },
    {
        match self {
            ConfigValueEnum::String(s) => Ok(s.clone()),
            _ => Err(ConfigError::new(NOT_A_STRING_MESSAGE)),
        }
    }
}

impl<'a> TryFrom<&'a ConfigValueEnum<String>> for String {
    type Error = ConfigError;

    /// The text of a string value, as `ConfigValueEnum::to_text` gives it.
    fn try_from(value: &'a ConfigValueEnum<String>) -> (r: Result<String, ConfigError>)
        ensures
            match value {
                ConfigValueEnum::String(s) => r == Ok::<String, ConfigError>(*s),
                _ => r matches Err(e) && e.message@ == NOT_A_STRING_MESSAGE@,
            },
    {
        value.to_text()
    }
}

/// The conversion's contract is the `ensures` of `try_from` above. No spec function can
/// name its error value: a `String` built from a literal is known only by its text.
impl<'a> vstd::std_specs::convert::TryFromSpecImpl<&'a ConfigValueEnum<String>> for String {
    open spec fn obeys_try_from_spec() -> bool {
        false
    }

    open spec fn try_from_spec(v: &'a ConfigValueEnum<String>) -> Result<String, ConfigError> {
        arbitrary()
    }
}

/// Text put before the reason when a parsed value has the wrong kind.
pub const CONVERSION_PREFIX: &'static str = "类型转换失败: ";

/// Reads `input` with the reader of `format` and takes the text of the string
/// value it gives.
pub fn parse_config(format: ConfigFormat, input: &str) -> (r: Result<String, ConfigError>)
    ensures
        r matches Ok(t) && t@ == input@,
{
    let value = match parse_config_value(format, input) {
        Ok(v) => v,
        Err(e) => return Err(e),
    };
    match value.to_text() {
        Ok(t) => Ok(t),
        Err(e) => {
            let mut m = CONVERSION_PREFIX.to_owned();
            m.append(e.to_string().as_str());
            Err(ConfigError { message: m })
        },
    }
}

} // verus!
