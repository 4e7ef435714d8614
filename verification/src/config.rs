//! Site configuration: three required string values read from a TOML
//! document. Parsing is delegated to the toml crate; which keys are
//! required, and in what order a missing one is reported, is decided here.

use vstd::prelude::*;

verus! {

/// The site configuration shared read-only by every document.
#[derive(Debug)]
pub struct Config {
    pub title: String,
    pub copyright: String,
    pub template_path: String,
}

/// Why loading the configuration failed.
#[derive(Debug)]
pub enum ConfigError {
    /// The text is not well-formed TOML; holds the parser's message.
    Unparseable(String),
    /// A required key is missing or its value is not a string; holds the key.
    MissingKey(String),
}

/// Whether `text` parses as a TOML document: the toml crate's parser is a
/// function of the text alone.
pub uninterp spec fn toml_parse_ok(text: Seq<char>) -> bool;

/// The string value at top-level key `key` of the TOML document `text`, if
/// the text parses and holds a string there; a function of the text and the
/// key alone.
pub uninterp spec fn toml_str_at(text: Seq<char>, key: Seq<char>) -> Option<Seq<char>>;

/// Relies on str::parse::<toml::Table> (the toml crate's FromStr impl):
/// parsing with it either succeeds or returns an error, deterministically
/// in the text; the error is the parser's message.
#[verifier::external_body]
fn toml_check(text: &str) -> (r: Result<(), String>)
    ensures
        r is Ok <==> toml_parse_ok(text@),
{
    match text.parse::<toml::Table>() {
        Ok(_) => Ok(()),
        Err(e) => Err(e.to_string()),
    }
}

/// Relies on str::parse::<toml::Table>, toml::Map::get and
/// toml::Value::as_str: re-parses the text and looks the key up at top
/// level; all three are functions of their arguments, and a text that does
/// not parse holds no value.
#[verifier::external_body]
fn toml_lookup(text: &str, key: &str) -> (r: Option<String>)
    ensures
        r.deep_view() == toml_str_at(text@, key@),
        !toml_parse_ok(text@) ==> r is None,
{
    match text.parse::<toml::Table>() {
        Ok(t) => t.get(key).and_then(|x| x.as_str()).map(str::to_string),
        Err(_) => None,
    }
}

/// Builds the configuration from the three looked-up values: succeeds
/// exactly when all three are present, and otherwise names the first
/// missing key, in the order title, copyright, template-path.
pub fn config_from_parts(
    title: Option<String>,
    copyright: Option<String>,
    template_path: Option<String>,
) -> (r: Result<Config, ConfigError>)
    ensures
        title is None ==> (r matches Err(ConfigError::MissingKey(k)) && k@ == "title"@),
        title is Some && copyright is None ==> (r matches Err(ConfigError::MissingKey(k))
            && k@ == "copyright"@),
        title is Some && copyright is Some && template_path is None ==> (r matches Err(
            ConfigError::MissingKey(k),
        ) && k@ == "template-path"@),
        title is Some && copyright is Some && template_path is Some ==> (r matches Ok(c)
            && c.title == title.unwrap() && c.copyright == copyright.unwrap()
            && c.template_path == template_path.unwrap()),
{
    let title = match title {
        Some(t) => t,
        None => {
            return Err(ConfigError::MissingKey("title".to_owned()));
        },
    };
    let copyright = match copyright {
        Some(c) => c,
        None => {
            return Err(ConfigError::MissingKey("copyright".to_owned()));
        },
    };
    let template_path = match template_path {
        Some(p) => p,
        None => {
            return Err(ConfigError::MissingKey("template-path".to_owned()));
        },
    };
    Ok(Config { title, copyright, template_path })
}

/// Parses configuration text: a TOML document with required string keys
/// `title`, `copyright` and `template-path`. Text that is not TOML is
/// reported with the parser's message; the first missing or non-string key,
/// in that order, is reported by name; otherwise the configuration holds
/// exactly the three looked-up strings.
pub fn parse_config(text: &str) -> (r: Result<Config, ConfigError>)
    ensures
        !toml_parse_ok(text@) ==> r matches Err(ConfigError::Unparseable(_)),
        toml_parse_ok(text@) && toml_str_at(text@, "title"@) is None ==> (r matches Err(
            ConfigError::MissingKey(k),
        ) && k@ == "title"@),
        toml_parse_ok(text@) && toml_str_at(text@, "title"@) is Some && toml_str_at(
            text@,
            "copyright"@,
        ) is None ==> (r matches Err(ConfigError::MissingKey(k)) && k@ == "copyright"@),
        toml_parse_ok(text@) && toml_str_at(text@, "title"@) is Some && toml_str_at(
            text@,
            "copyright"@,
        ) is Some && toml_str_at(text@, "template-path"@) is None ==> (r matches Err(
            ConfigError::MissingKey(k),
        ) && k@ == "template-path"@),
        toml_parse_ok(text@) && toml_str_at(text@, "title"@) is Some && toml_str_at(
            text@,
            "copyright"@,
        ) is Some && toml_str_at(text@, "template-path"@) is Some ==> (r matches Ok(c)
            && c.title@ == toml_str_at(text@, "title"@).unwrap() && c.copyright@ == toml_str_at(
            text@,
            "copyright"@,
        ).unwrap() && c.template_path@ == toml_str_at(text@, "template-path"@).unwrap()),
{
    if let Err(m) = toml_check(text) {
        return Err(ConfigError::Unparseable(m));
    }
    let title = toml_lookup(text, "title");
    let copyright = toml_lookup(text, "copyright");
    let template_path = toml_lookup(text, "template-path");
    config_from_parts(title, copyright, template_path)
}

} // verus!
