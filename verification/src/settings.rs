//! What an invocation is configured with.

use vstd::prelude::*;
use vstd::string::StringExecFns;

verus! {

/// How the cloud clients are set up.
#[derive(Clone, Debug, PartialEq, Eq)]
pub struct Opt {
    /// The region to work in, where one is asked for.
    pub region: Option<String>,
    /// Whether to report the client version and the region chosen.
    pub verbose: bool,
}

/// The region that is worked in where none is asked for and none is
/// configured.
pub const DEFAULT_REGION: &'static str = "us-east-1";

/// What the worker needs to be told from outside. It is put together once,
/// before any request is looked at.
#[derive(Clone, Debug, PartialEq, Eq)]
pub struct Config {
    /// The key for the language and image models.
    pub api_key: String,
    /// The table that recipes are stored in.
    pub table_name: String,
    /// The bucket that pictures are uploaded to.
    pub bucket_name: String,
    /// The region of the bucket.
    pub region: String,
    /// The key for the service that converts pictures.
    pub conversion_key: String,
}

/// The setting that is missing.
#[derive(Clone, Copy, Debug, PartialEq, Eq, Structural)]
pub enum ConfigError {
    ApiKey,
    TableName,
    BucketName,
    Region,
    ConversionKey,
}

pub struct ConfigView {
    pub api_key: Seq<char>,
    pub table_name: Seq<char>,
    pub bucket_name: Seq<char>,
    pub region: Seq<char>,
    pub conversion_key: Seq<char>,
}

impl View for Config {
    type V = ConfigView;

    open spec fn view(&self) -> ConfigView {
        ConfigView {
            api_key: self.api_key@,
            table_name: self.table_name@,
            bucket_name: self.bucket_name@,
            region: self.region@,
            conversion_key: self.conversion_key@,
        }
    }
}

/// The configuration that the five settings make: all five have to be
/// there. The first that is missing, in the order of the parameters, is the
/// one reported.
pub open spec fn configured(
    api_key: Option<Seq<char>>,
    table_name: Option<Seq<char>>,
    bucket_name: Option<Seq<char>>,
    region: Option<Seq<char>>,
    conversion_key: Option<Seq<char>>,
) -> Result<ConfigView, ConfigError> {
    match (api_key, table_name, bucket_name, region, conversion_key) {
        (
            Some(api_key),
            Some(table_name),
            Some(bucket_name),
            Some(region),
            Some(conversion_key),
        ) => Ok(ConfigView { api_key, table_name, bucket_name, region, conversion_key }),
        (None, _, _, _, _) => Err(ConfigError::ApiKey),
        (_, None, _, _, _) => Err(ConfigError::TableName),
        (_, _, None, _, _) => Err(ConfigError::BucketName),
        (_, _, _, None, _) => Err(ConfigError::Region),
        _ => Err(ConfigError::ConversionKey),
    }
}

impl ConfigError {
    /// The report on the missing setting, in words.
    pub open spec fn description(self) -> Seq<char> {
        match self {
            ConfigError::ApiKey => "API Key Not Set"@,
            ConfigError::TableName => "Table Name Not Set"@,
            ConfigError::BucketName => "Bucket Name Not Set"@,
            ConfigError::Region => "Region Not Set"@,
            ConfigError::ConversionKey => "Conversion API Key Not Set"@,
        }
    }

    /// The report on the missing setting, in words.
    pub fn message(&self) -> (text: String)
        ensures
            text@ == self.description(),
    {
        match self {
            ConfigError::ApiKey => String::from_str("API Key Not Set"),
            ConfigError::TableName => String::from_str("Table Name Not Set"),
            ConfigError::BucketName => String::from_str("Bucket Name Not Set"),
            ConfigError::Region => String::from_str("Region Not Set"),
            ConfigError::ConversionKey => String::from_str("Conversion API Key Not Set"),
        }
    }
}

impl Config {
    /// The configuration that the five settings make: see [`configured`].
    pub fn new(
        api_key: Option<String>,
        table_name: Option<String>,
        bucket_name: Option<String>,
        region: Option<String>,
        conversion_key: Option<String>,
    ) -> (config: Result<Config, ConfigError>)
        ensures
            match configured(
                api_key.deep_view(),
                table_name.deep_view(),
                bucket_name.deep_view(),
                region.deep_view(),
                conversion_key.deep_view(),
            ) {
                Ok(settings) => config is Ok && config->Ok_0@ == settings,
                Err(missing) => config == Err::<Config, ConfigError>(missing),
            },
    {
        let api_key = match api_key {
            Some(api_key) => api_key,
            None => return Err(ConfigError::ApiKey),
        };
        let table_name = match table_name {
            Some(table_name) => table_name,
            None => return Err(ConfigError::TableName),
        };
        let bucket_name = match bucket_name {
            Some(bucket_name) => bucket_name,
            None => return Err(ConfigError::BucketName),
        };
        let region = match region {
            Some(region) => region,
            None => return Err(ConfigError::Region),
        };
        let conversion_key = match conversion_key {
            Some(conversion_key) => conversion_key,
            None => return Err(ConfigError::ConversionKey),
        };
        Ok(Config { api_key, table_name, bucket_name, region, conversion_key })
    }
}

impl Opt {
    /// The region to work in: the one asked for; failing that, the one that
    /// is configured; failing that, [`DEFAULT_REGION`].
    pub fn region_or(&self, configured: Option<String>) -> (region: String)
        ensures
            region@ == match (self.region, configured) {
                (Some(asked), _) => asked@,
                (None, Some(found)) => found@,
                (None, None) => DEFAULT_REGION@,
            },
    {
        match &self.region {
            Some(asked) => asked.clone(),
            None => match configured {
                Some(found) => found,
                None => String::from_str(DEFAULT_REGION),
            },
        }
    }
}

} // verus!
