use vstd::prelude::*;
use vstd::string::StringExecFns;

use crate::error::{ConfigError, Error};
use crate::export::{format_extension, format_named, path_with_extension, plan_export, ExportPlan};

verus! {

/// Parameters that a script may change between exports.
#[derive(Debug, Clone)]
pub struct ImageConfig {
    pub size: u32,
    pub format: String,
    pub foreground: String,
    pub background: String,
}

/// The default configuration: 512 pixels, `svg`, white on black.
pub open spec fn default_config_spec(c: ImageConfig) -> bool {
    &&& c.size == 512
    &&& c.format@ == "svg"@
    &&& c.foreground@ == "#ffffff"@
    &&& c.background@ == "#000000"@
}

impl Default for ImageConfig {
    fn default() -> (r: Self)
        ensures
            default_config_spec(r),
    {
        proof {
            reveal_strlit("svg");
            reveal_strlit("#ffffff");
            reveal_strlit("#000000");
        }
        ImageConfig {
            size: 512,
            format: String::from_str("svg"),
            foreground: String::from_str("#ffffff"),
            background: String::from_str("#000000"),
        }
    }
}

/// A value handed to `set_config` by a script.
#[derive(Debug, Clone)]
pub enum ConfigValue {
    Integer(i64),
    Text(String),
    /// Any other kind of script value (a table, a boolean, nil, ...).
    Other,
}

/// The configuration store of one scripting session.
pub struct LuaAPI {
    config: ImageConfig,
}

/// A save request together with the configuration captured when it was made.
#[derive(Debug, Clone)]
pub struct SaveJob {
    pub config: ImageConfig,
    pub output_path: String,
    pub image: String,
}

/// The keys that `set_config` accepts.
pub open spec fn known_key(key: Seq<char>) -> bool {
    key == "size"@ || key == "format"@ || key == "foreground"@ || key == "background"@
}

/// The configuration after `set_config(key, value)`; a value of the wrong kind
/// for a known key leaves the configuration as it was.
pub open spec fn config_after_set(c: ImageConfig, key: Seq<char>, value: ConfigValue) -> ImageConfig {
    match value {
        ConfigValue::Integer(i) => if key == "size"@ {
            ImageConfig { size: #[verifier::truncate] (i as u32), ..c }
        } else {
            c
        },
        ConfigValue::Text(s) => if key == "format"@ {
            ImageConfig { format: s, ..c }
        } else if key == "foreground"@ {
            ImageConfig { foreground: s, ..c }
        } else if key == "background"@ {
            ImageConfig { background: s, ..c }
        } else {
            c
        },
        ConfigValue::Other => c,
    }
}

fn is_key(key: &str, name: &str) -> (r: bool)
    ensures
        r == (key@ == name@),
{
    let k = String::from_str(key);
    let n = String::from_str(name);
    k == n
}

impl LuaAPI {
    pub closed spec fn config_spec(&self) -> ImageConfig {
        self.config
    }

    /// A store holding the default configuration.
    pub fn new() -> (r: Self)
        ensures
            default_config_spec(r.config_spec()),
    {
        LuaAPI { config: ImageConfig::default() }
    }

    /// A snapshot of the current configuration.
    pub fn get_config(&self) -> (r: ImageConfig)
        ensures
            r == self.config_spec(),
    {
        ImageConfig {
            size: self.config.size,
            format: self.config.format.clone(),
            foreground: self.config.foreground.clone(),
            background: self.config.background.clone(),
        }
    }

    /// Sets one configuration value. An unknown key is an error and changes
    /// nothing; a value of the wrong kind for a known key is ignored.
    pub fn set_config(&mut self, key: &str, value: ConfigValue) -> (r: Result<(), ConfigError>)
        ensures
            known_key(key@) <==> r is Ok,
            r matches Err(ConfigError::UnknownKey(k)) ==> k@ == key@,
            r is Ok ==> final(self).config_spec() == config_after_set(old(self).config_spec(), key@, value),
            r is Err ==> final(self).config_spec() == old(self).config_spec(),
    {
        proof {
            reveal_strlit("size");
            reveal_strlit("format");
            reveal_strlit("foreground");
            reveal_strlit("background");
            assert("format"@.len() != "size"@.len());
            assert("foreground"@.len() != "size"@.len());
            assert("background"@.len() != "size"@.len());
            assert("foreground"@.len() != "format"@.len());
            assert("background"@.len() != "format"@.len());
            assert("foreground"@[0] != "background"@[0]);
        }
        if is_key(key, "size") {
            if let ConfigValue::Integer(i) = value {
                self.config.size = #[verifier::truncate] (i as u32);
            }
            Ok(())
        } else if is_key(key, "format") {
            if let ConfigValue::Text(s) = value {
                self.config.format = s;
            }
            Ok(())
        } else if is_key(key, "foreground") {
            if let ConfigValue::Text(s) = value {
                self.config.foreground = s;
            }
            Ok(())
        } else if is_key(key, "background") {
            if let ConfigValue::Text(s) = value {
                self.config.background = s;
            }
            Ok(())
        } else {
            Err(ConfigError::UnknownKey(String::from_str(key)))
        }
    }

    /// Captures the configuration for a save: later changes to the store do not
    /// reach the returned job.
    pub fn begin_save(&self, output_path: String, image: String) -> (r: SaveJob)
        ensures
            r.config == self.config_spec(),
            r.output_path == output_path,
            r.image == image,
    {
        SaveJob { config: self.get_config(), output_path, image }
    }
}

impl SaveJob {
    /// The export plan of the job, from its captured format and size and its
    /// output path.
    pub fn plan(&self) -> (r: Result<ExportPlan, Error>)
        ensures
            r is Ok <==> format_named(self.config.format@) is Some,
            format_named(self.config.format@) is None ==> (r matches Err(Error::UnsupportedFormat(n))
                && n@ == self.config.format@),
            r matches Ok(p) ==> {
                &&& Some(p.format) == format_named(self.config.format@)
                &&& p.size == self.config.size
                &&& p.destination matches Some(d) && d@ == path_with_extension(
                    self.output_path@,
                    format_extension(p.format),
                )
            },
    {
        plan_export(self.config.format.as_str(), self.config.size, Some(self.output_path.as_str()))
    }
}

} // verus!
