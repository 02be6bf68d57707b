use vstd::prelude::*;
use crate::text::text_of;

verus! {

/// The settings of the storage service, fixed for one run.
#[derive(Clone, Debug, PartialEq, Eq)]
pub struct StorageConfig {
    pub domain: String,
    pub bucket: String,
    pub region: String,
    pub prefix: String,
    pub access_key_id: String,
    pub secret_access_key: String,
}

/// The settings as texts.
pub struct StorageSettings {
    pub domain: Seq<char>,
    pub bucket: Seq<char>,
    pub region: Seq<char>,
    pub prefix: Seq<char>,
    pub access_key_id: Seq<char>,
    pub secret_access_key: Seq<char>,
}

impl View for StorageConfig {
    type V = StorageSettings;

    open spec fn view(&self) -> StorageSettings {
        StorageSettings {
            domain: self.domain@,
            bucket: self.bucket@,
            region: self.region@,
            prefix: self.prefix@,
            access_key_id: self.access_key_id@,
            secret_access_key: self.secret_access_key@,
        }
    }
}

/// What a settings file held under its `s3` table: each field if it was there.
#[derive(Clone, Debug, PartialEq, Eq)]
pub struct ConfigFields {
    pub domain: Option<String>,
    pub bucket: Option<String>,
    pub region: Option<String>,
    pub prefix: Option<String>,
    pub access_key_id: Option<String>,
    pub secret_access_key: Option<String>,
}

/// The fields of a settings file as optional texts.
pub struct FieldTexts {
    pub domain: Option<Seq<char>>,
    pub bucket: Option<Seq<char>>,
    pub region: Option<Seq<char>>,
    pub prefix: Option<Seq<char>>,
    pub access_key_id: Option<Seq<char>>,
    pub secret_access_key: Option<Seq<char>>,
}

impl View for ConfigFields {
    type V = FieldTexts;

    open spec fn view(&self) -> FieldTexts {
        FieldTexts {
            domain: text_of(self.domain),
            bucket: text_of(self.bucket),
            region: text_of(self.region),
            prefix: text_of(self.prefix),
            access_key_id: text_of(self.access_key_id),
            secret_access_key: text_of(self.secret_access_key),
        }
    }
}

/// One of the six required settings.
#[derive(Clone, Copy, Debug, PartialEq, Eq, Structural)]
pub enum ConfigField {
    Domain,
    Bucket,
    Region,
    Prefix,
    AccessKeyId,
    SecretAccessKey,
}

impl ConfigField {
    /// The key of the setting in the settings file.
    pub open spec fn key(self) -> Seq<char> {
        match self {
            ConfigField::Domain => "domain"@,
            ConfigField::Bucket => "bucket"@,
            ConfigField::Region => "region"@,
            ConfigField::Prefix => "prefix"@,
            ConfigField::AccessKeyId => "access_key_id"@,
            ConfigField::SecretAccessKey => "secret_access_key"@,
        }
    }

    /// The key of the setting in the settings file.
    pub fn name(self) -> (name: &'static str)
        ensures
            name@ == self.key(),
    {
        match self {
            ConfigField::Domain => "domain",
            ConfigField::Bucket => "bucket",
            ConfigField::Region => "region",
            ConfigField::Prefix => "prefix",
            ConfigField::AccessKeyId => "access_key_id",
            ConfigField::SecretAccessKey => "secret_access_key",
        }
    }
}

/// The first required setting that is absent, in the order of declaration.
pub open spec fn first_missing(fields: FieldTexts) -> Option<ConfigField> {
    if fields.domain is None {
        Some(ConfigField::Domain)
    } else if fields.bucket is None {
        Some(ConfigField::Bucket)
    } else if fields.region is None {
        Some(ConfigField::Region)
    } else if fields.prefix is None {
        Some(ConfigField::Prefix)
    } else if fields.access_key_id is None {
        Some(ConfigField::AccessKeyId)
    } else if fields.secret_access_key is None {
        Some(ConfigField::SecretAccessKey)
    } else {
        None
    }
}

/// The settings that complete fields stand for.
pub open spec fn settings_of(fields: FieldTexts) -> StorageSettings
    recommends
        first_missing(fields) is None,
{
    StorageSettings {
        domain: fields.domain->0,
        bucket: fields.bucket->0,
        region: fields.region->0,
        prefix: fields.prefix->0,
        access_key_id: fields.access_key_id->0,
        secret_access_key: fields.secret_access_key->0,
    }
}

/// Accepts the fields of a settings file exactly when all six are present, and names
/// the first absent one otherwise.
pub fn check_fields(fields: ConfigFields) -> (checked: Result<StorageConfig, ConfigField>)
    ensures
        match first_missing(fields@) {
            Some(field) => checked == Err::<StorageConfig, ConfigField>(field),
            None => checked matches Ok(config) && config@ == settings_of(fields@),
        },
{
    let ConfigFields { domain, bucket, region, prefix, access_key_id, secret_access_key } = fields;
    let domain = match domain {
        Some(v) => v,
        None => { return Err(ConfigField::Domain); },
    };
    let bucket = match bucket {
        Some(v) => v,
        None => { return Err(ConfigField::Bucket); },
    };
    let region = match region {
        Some(v) => v,
        None => { return Err(ConfigField::Region); },
    };
    let prefix = match prefix {
        Some(v) => v,
        None => { return Err(ConfigField::Prefix); },
    };
    let access_key_id = match access_key_id {
        Some(v) => v,
        None => { return Err(ConfigField::AccessKeyId); },
    };
    let secret_access_key = match secret_access_key {
        Some(v) => v,
        None => { return Err(ConfigField::SecretAccessKey); },
    };
    Ok(StorageConfig { domain, bucket, region, prefix, access_key_id, secret_access_key })
}

} // verus!
