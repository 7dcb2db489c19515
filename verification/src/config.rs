//! The filter's configuration: the raw fields as they arrive, the validated
//! structure, and the rules that lead from one to the other.
use vstd::hash_map::StringHashMap;
use vstd::prelude::*;
use vstd::string::*;

verus! {

/// The cache lifetime used when the configuration names none: a day.
pub const DEFAULT_CACHE_SECONDS: u64 = 86400;

/// What one field of the raw configuration holds.
pub enum ConfigValue {
    /// An explicit null.
    Null,
    /// A text.
    Text(String),
    /// A number, by its sign and its whole seconds.
    Number { negative: bool, seconds: u64 },
    /// Anything else: a boolean, a list, a nested structure.
    Other,
}

/// The raw configuration: values by field name.
pub struct ConfigFields {
    map: StringHashMap<ConfigValue>,
}

impl View for ConfigFields {
    type V = Map<Seq<char>, ConfigValue>;

    closed spec fn view(&self) -> Map<Seq<char>, ConfigValue> {
        self.map@
    }
}

impl ConfigFields {
    /// A configuration without fields.
    pub fn new() -> (fields: ConfigFields)
        ensures
            fields@ == Map::<Seq<char>, ConfigValue>::empty(),
    {
        ConfigFields { map: StringHashMap::new() }
    }

    /// Sets the field `name` to `value`, replacing what it held.
    pub fn insert(&mut self, name: String, value: ConfigValue)
        ensures
            final(self)@ == old(self)@.insert(name@, value),
    {
        self.map.insert(name, value);
    }

    /// The value of the field `name`, if the configuration has it.
    pub fn get(&self, name: &str) -> (value: Option<&ConfigValue>)
        ensures
            match value {
                Some(v) => self@.contains_key(name@) && *v == self@[name@],
                None => !self@.contains_key(name@),
            },
    {
        self.map.get(name)
    }

    /// Removes the field `name`; a configuration without it stays as it is.
    pub fn remove(&mut self, name: &str)
        ensures
            final(self)@ == old(self)@.remove(name@),
    {
        self.map.remove(name);
    }
}

/// The validated configuration. It is built once and only read afterwards.
#[derive(Debug)]
pub struct FilterConfig {
    /// A constant header value; when not empty it is served as it is.
    pub burst_header: String,
    /// How long a fetched value is kept before the next refresh, in seconds.
    pub cache_seconds: u64,
    /// The authority to set when calling the service that provides values.
    pub service_authority: String,
    /// The upstream cluster to call.
    pub service_cluster: String,
    /// The path to call on that service.
    pub service_path: String,
    /// The user agent to match; empty matches every request.
    pub user_agent: String,
    /// The namespace appended to the path, with the deployment.
    pub namespace: String,
    /// The deployment appended to the path, with the namespace.
    pub deployment: String,
}

/// A `FilterConfig` as plain values.
pub struct FilterConfigView {
    pub burst_header: Seq<char>,
    pub cache_seconds: u64,
    pub service_authority: Seq<char>,
    pub service_cluster: Seq<char>,
    pub service_path: Seq<char>,
    pub user_agent: Seq<char>,
    pub namespace: Seq<char>,
    pub deployment: Seq<char>,
}

impl View for FilterConfig {
    type V = FilterConfigView;

    open spec fn view(&self) -> FilterConfigView {
        FilterConfigView {
            burst_header: self.burst_header@,
            cache_seconds: self.cache_seconds,
            service_authority: self.service_authority@,
            service_cluster: self.service_cluster@,
            service_path: self.service_path@,
            user_agent: self.user_agent@,
            namespace: self.namespace@,
            deployment: self.deployment@,
        }
    }
}

/// Why a configuration was rejected.
#[derive(Debug)]
pub enum FilterConfigError {
    /// There is no configuration at all.
    Missing,
    /// A field is missing or holds a value of the wrong kind; the text says
    /// which.
    Format(String),
}

/// A `FilterConfigError` as plain values.
pub enum ConfigFault {
    Missing,
    Format(Seq<char>),
}

impl View for FilterConfigError {
    type V = ConfigFault;

    open spec fn view(&self) -> ConfigFault {
        match self {
            FilterConfigError::Missing => ConfigFault::Missing,
            FilterConfigError::Format(s) => ConfigFault::Format(s@),
        }
    }
}

/// What a text field yields: an absent or null field is the empty text, a text
/// is itself, anything else is a format fault that names the field.
pub open spec fn string_field(fields: Map<Seq<char>, ConfigValue>, key: Seq<char>) -> Result<
    Seq<char>,
    ConfigFault,
> {
    if !fields.contains_key(key) {
        Ok(Seq::empty())
    } else {
        match fields[key] {
            ConfigValue::Null => Ok(Seq::empty()),
            ConfigValue::Text(s) => Ok(s@),
            _ => Err(ConfigFault::Format(key + " is not a string"@)),
        }
    }
}

/// What a required text field yields: its text when it holds one that is not
/// empty. A field that is absent, null or empty is a fault that calls the
/// field missing; a value that is no text is the fault of `string_field`.
pub open spec fn required_field(fields: Map<Seq<char>, ConfigValue>, key: Seq<char>) -> Result<
    Seq<char>,
    ConfigFault,
> {
    match string_field(fields, key) {
        Ok(text) => if text.len() == 0 {
            Err(ConfigFault::Format(key + " is missing"@))
        } else {
            Ok(text)
        },
        Err(fault) => Err(fault),
    }
}

/// What a duration field yields: nothing when absent, the whole seconds of a
/// number that is not negative, and a format fault that names the field for a
/// negative number or a value that is no number.
pub open spec fn duration_field(fields: Map<Seq<char>, ConfigValue>, key: Seq<char>) -> Result<
    Option<u64>,
    ConfigFault,
> {
    if !fields.contains_key(key) {
        Ok(None)
    } else {
        match fields[key] {
            ConfigValue::Number { negative, seconds } => if negative {
                Err(
                    ConfigFault::Format(
                        key + " is not a duration, since it has a negative value"@,
                    ),
                )
            } else {
                Ok(Some(seconds))
            },
            _ => Err(ConfigFault::Format(key + " is not a duration"@)),
        }
    }
}

/// The first fault among the fields, in the order in which they are read.
/// The cluster, the path and the authority of the refresh call are required;
/// the other texts may be absent.
pub open spec fn first_fault(fields: Map<Seq<char>, ConfigValue>) -> Option<ConfigFault> {
    if string_field(fields, "burst_header"@) is Err {
        Some(string_field(fields, "burst_header"@)->Err_0)
    } else if required_field(fields, "service_cluster"@) is Err {
        Some(required_field(fields, "service_cluster"@)->Err_0)
    } else if required_field(fields, "service_path"@) is Err {
        Some(required_field(fields, "service_path"@)->Err_0)
    } else if string_field(fields, "user_agent"@) is Err {
        Some(string_field(fields, "user_agent"@)->Err_0)
    } else if required_field(fields, "service_authority"@) is Err {
        Some(required_field(fields, "service_authority"@)->Err_0)
    } else if string_field(fields, "namespace"@) is Err {
        Some(string_field(fields, "namespace"@)->Err_0)
    } else if string_field(fields, "deployment"@) is Err {
        Some(string_field(fields, "deployment"@)->Err_0)
    } else if duration_field(fields, "cache_seconds"@) is Err {
        Some(duration_field(fields, "cache_seconds"@)->Err_0)
    } else {
        None
    }
}

/// The configuration that the fields describe, or the first fault in them.
/// Only the optional texts and the cache lifetime have defaults: the empty
/// text, and a day.
pub open spec fn parsed_config(fields: Map<Seq<char>, ConfigValue>) -> Result<
    FilterConfigView,
    ConfigFault,
> {
    match first_fault(fields) {
        Some(fault) => Err(fault),
        None => Ok(
            FilterConfigView {
                burst_header: string_field(fields, "burst_header"@)->Ok_0,
                cache_seconds: match duration_field(fields, "cache_seconds"@)->Ok_0 {
                    Some(seconds) => seconds,
                    None => DEFAULT_CACHE_SECONDS,
                },
                service_authority: required_field(fields, "service_authority"@)->Ok_0,
                service_cluster: required_field(fields, "service_cluster"@)->Ok_0,
                service_path: required_field(fields, "service_path"@)->Ok_0,
                user_agent: string_field(fields, "user_agent"@)->Ok_0,
                namespace: string_field(fields, "namespace"@)->Ok_0,
                deployment: string_field(fields, "deployment"@)->Ok_0,
            },
        ),
    }
}

/// A configuration that is accepted names the cluster, the path and the
/// authority of the refresh call: none of them is empty.
pub proof fn lemma_accepted_config_is_complete(fields: Map<Seq<char>, ConfigValue>)
    requires
        parsed_config(fields) is Ok,
    ensures
        parsed_config(fields)->Ok_0.service_cluster.len() > 0,
        parsed_config(fields)->Ok_0.service_path.len() > 0,
        parsed_config(fields)->Ok_0.service_authority.len() > 0,
{
}

/// A configuration that lacks a required field is rejected, whatever else it
/// holds.
pub proof fn lemma_incomplete_config_is_rejected(fields: Map<Seq<char>, ConfigValue>)
    requires
        !fields.contains_key("service_cluster"@) || !fields.contains_key("service_path"@)
            || !fields.contains_key("service_authority"@),
    ensures
        parsed_config(fields) is Err,
{
}

/// What validation yields for a configuration as the host hands it over:
/// absent, unreadable with the reader's complaint, or read into fields.
pub open spec fn validated(raw: Option<Result<Map<Seq<char>, ConfigValue>, Seq<char>>>) -> Result<
    FilterConfigView,
    ConfigFault,
> {
    match raw {
        None => Err(ConfigFault::Missing),
        Some(Err(complaint)) => Err(ConfigFault::Format(complaint)),
        Some(Ok(fields)) => parsed_config(fields),
    }
}

/// The path of the refresh call: the service path, followed by
/// `/namespace/deployment` when both are configured.
pub open spec fn fetch_path(config: FilterConfigView) -> Seq<char> {
    if config.namespace.len() > 0 && config.deployment.len() > 0 {
        config.service_path + seq!['/'] + config.namespace + seq!['/'] + config.deployment
    } else {
        config.service_path
    }
}

/// The text of an error, as it is logged.
pub open spec fn fault_message(fault: ConfigFault) -> Seq<char> {
    match fault {
        ConfigFault::Missing => "Filter Config Missing"@,
        ConfigFault::Format(s) => "Format: "@ + s,
    }
}

impl FilterConfigError {
    /// The text of this error.
    pub fn message(&self) -> (text: String)
        ensures
            text@ == fault_message(self@),
    {
        match self {
            FilterConfigError::Missing => String::from_str("Filter Config Missing"),
            FilterConfigError::Format(s) => String::from_str("Format: ").concat(s.as_str()),
        }
    }
}

/// Takes the text field `key` out of `fields`.
pub fn take_string_field(fields: &mut ConfigFields, key: &str) -> (r: Result<
    String,
    FilterConfigError,
>)
    ensures
        final(fields)@ == old(fields)@.remove(key@),
        match r {
            Ok(s) => string_field(old(fields)@, key@) == Ok::<Seq<char>, ConfigFault>(s@),
            Err(e) => string_field(old(fields)@, key@) == Err::<Seq<char>, ConfigFault>(e@),
        },
{
    let r = match fields.get(key) {
        None => Ok(String::new()),
        Some(ConfigValue::Null) => Ok(String::new()),
        Some(ConfigValue::Text(s)) => Ok(s.clone()),
        Some(_) => Err(FilterConfigError::Format(String::from_str(key).concat(" is not a string"))),
    };
    fields.remove(key);
    r
}

/// Takes the required text field `key` out of `fields`.
pub fn take_required_field(fields: &mut ConfigFields, key: &str) -> (r: Result<
    String,
    FilterConfigError,
>)
    ensures
        final(fields)@ == old(fields)@.remove(key@),
        match r {
            Ok(s) => required_field(old(fields)@, key@) == Ok::<Seq<char>, ConfigFault>(s@),
            Err(e) => required_field(old(fields)@, key@) == Err::<Seq<char>, ConfigFault>(e@),
        },
{
    let text = take_string_field(fields, key)?;
    if text.as_str().is_empty() {
        Err(FilterConfigError::Format(String::from_str(key).concat(" is missing")))
    } else {
        Ok(text)
    }
}

/// Takes the duration field `key` out of `fields`, in seconds.
pub fn take_duration_field(fields: &mut ConfigFields, key: &str) -> (r: Result<
    Option<u64>,
    FilterConfigError,
>)
    ensures
        final(fields)@ == old(fields)@.remove(key@),
        match r {
            Ok(d) => duration_field(old(fields)@, key@) == Ok::<Option<u64>, ConfigFault>(d),
            Err(e) => duration_field(old(fields)@, key@) == Err::<Option<u64>, ConfigFault>(e@),
        },
{
    let r = match fields.get(key) {
        None => Ok(None),
        Some(ConfigValue::Number { negative, seconds }) => {
            if *negative {
                Err(
                    FilterConfigError::Format(
                        String::from_str(key).concat(
                            " is not a duration, since it has a negative value",
                        ),
                    ),
                )
            } else {
                Ok(Some(*seconds))
            }
        },
        Some(_) => Err(
            FilterConfigError::Format(String::from_str(key).concat(" is not a duration")),
        ),
    };
    fields.remove(key);
    r
}

/// The field names are pairwise different, so taking one field leaves the
/// others as they were.
proof fn lemma_field_names_differ()
    ensures
        "burst_header"@.len() == 12,
        "service_cluster"@.len() == 15,
        "service_path"@.len() == 12,
        "user_agent"@.len() == 10,
        "service_authority"@.len() == 17,
        "namespace"@.len() == 9,
        "deployment"@.len() == 10,
        "cache_seconds"@.len() == 13,
        "burst_header"@[0] == 'b',
        "service_path"@[0] == 's',
        "user_agent"@[0] == 'u',
        "deployment"@[0] == 'd',
{
    reveal_strlit("burst_header");
    reveal_strlit("service_cluster");
    reveal_strlit("service_path");
    reveal_strlit("user_agent");
    reveal_strlit("service_authority");
    reveal_strlit("namespace");
    reveal_strlit("deployment");
    reveal_strlit("cache_seconds");
}

impl FilterConfig {
    /// Builds the configuration from its raw fields. The cluster, the path
    /// and the authority of the refresh call are required; the other texts
    /// default to the empty text and the cache lifetime to a day. The first
    /// field that is missing or holds the wrong kind of value rejects the
    /// whole.
    pub fn try_from(value: ConfigFields) -> (r: Result<FilterConfig, FilterConfigError>)
        ensures
            match r {
                Ok(config) => parsed_config(value@) == Ok::<FilterConfigView, ConfigFault>(
                    config@,
                ),
                Err(e) => parsed_config(value@) == Err::<FilterConfigView, ConfigFault>(e@),
            },
    {
        proof {
            lemma_field_names_differ();
        }
        let mut fields = value;
        let burst_header = take_string_field(&mut fields, "burst_header")?;
        let service_cluster = take_required_field(&mut fields, "service_cluster")?;
        let service_path = take_required_field(&mut fields, "service_path")?;
        let user_agent = take_string_field(&mut fields, "user_agent")?;
        let service_authority = take_required_field(&mut fields, "service_authority")?;
        let namespace = take_string_field(&mut fields, "namespace")?;
        let deployment = take_string_field(&mut fields, "deployment")?;
        let cache_seconds = match take_duration_field(&mut fields, "cache_seconds")? {
            Some(seconds) => seconds,
            None => DEFAULT_CACHE_SECONDS,
        };
        Ok(
            FilterConfig {
                burst_header,
                cache_seconds,
                service_authority,
                service_cluster,
                service_path,
                user_agent,
                namespace,
                deployment,
            },
        )
    }

    /// The path of the refresh call.
    pub fn fetch_path(&self) -> (path: String)
        ensures
            path@ == fetch_path(self@),
    {
        if self.namespace.as_str().is_empty() || self.deployment.as_str().is_empty() {
            self.service_path.clone()
        } else {
            proof {
                reveal_strlit("/");
                assert("/"@ =~= seq!['/']);
            }
            self.service_path.clone().concat("/").concat(self.namespace.as_str()).concat(
                "/",
            ).concat(self.deployment.as_str())
        }
    }
}

/// Validates a configuration as the host hands it over: an absent one is
/// missing, an unreadable one is a format error with the reader's complaint,
/// and one that was read is built from its fields.
pub fn validate(raw: Option<Result<ConfigFields, String>>) -> (r: Result<
    FilterConfig,
    FilterConfigError,
>)
    ensures
        match r {
            Ok(config) => validated(raw_view(raw)) == Ok::<FilterConfigView, ConfigFault>(
                config@,
            ),
            Err(e) => validated(raw_view(raw)) == Err::<FilterConfigView, ConfigFault>(e@),
        },
{
    match raw {
        None => Err(FilterConfigError::Missing),
        Some(Err(complaint)) => Err(FilterConfigError::Format(complaint)),
        Some(Ok(fields)) => FilterConfig::try_from(fields),
    }
}

/// A configuration as the host hands it over, as plain values.
pub open spec fn raw_view(raw: Option<Result<ConfigFields, String>>) -> Option<
    Result<Map<Seq<char>, ConfigValue>, Seq<char>>,
> {
    match raw {
        None => None,
        Some(Err(complaint)) => Some(Err(complaint@)),
        Some(Ok(fields)) => Some(Ok(fields@)),
    }
}

} // verus!
