use vstd::prelude::*;
use crate::config::StorageConfig;
use crate::config::StorageSettings;
use crate::identifier::draw_identifier;
use crate::identifier::is_identifier_text;
use crate::paths::local_output_path;
use crate::paths::local_page_path;
use crate::storage::object_key;
use crate::storage::object_key_text;

verus! {

/// Where a rendered page goes: a file beside the source, or an object in a bucket.
#[derive(Clone, Debug, PartialEq, Eq)]
pub enum PublishTarget {
    Local { path: String },
    Remote { bucket: String, key: String, domain: String, id: String },
}

/// A target as texts.
pub enum TargetTexts {
    Local { path: Seq<char> },
    Remote { bucket: Seq<char>, key: Seq<char>, domain: Seq<char>, id: Seq<char> },
}

impl View for PublishTarget {
    type V = TargetTexts;

    open spec fn view(&self) -> TargetTexts {
        match *self {
            PublishTarget::Local { path } => TargetTexts::Local { path: path@ },
            PublishTarget::Remote { bucket, key, domain, id } => TargetTexts::Remote {
                bucket: bucket@,
                key: key@,
                domain: domain@,
                id: id@,
            },
        }
    }
}

/// The target of a page: with local output, the source path with the page extension;
/// else the configured bucket and domain, with the key made from the identifier.
pub open spec fn target_for(
    local_output: bool,
    source_path: Seq<char>,
    config: StorageSettings,
    id: Seq<char>,
) -> TargetTexts {
    if local_output {
        TargetTexts::Local { path: local_page_path(source_path) }
    } else {
        TargetTexts::Remote {
            bucket: config.bucket,
            key: object_key_text(config.prefix, id),
            domain: config.domain,
            id,
        }
    }
}

/// Resolves the target for an identifier that was drawn already. With local output
/// the identifier is not used.
pub fn resolve_with(local_output: bool, source_path: &str, config: &StorageConfig, id: &str) -> (target:
    PublishTarget)
    ensures
        target@ == target_for(local_output, source_path@, config@, id@),
{
    if local_output {
        PublishTarget::Local { path: local_output_path(source_path) }
    } else {
        PublishTarget::Remote {
            bucket: config.bucket.clone(),
            key: object_key(config.prefix.as_str(), id),
            domain: config.domain.clone(),
            id: String::from_str(id),
        }
    }
}

/// Resolves the target of a page. A remote target gets a fresh identifier; a local
/// one draws none.
pub fn resolve(local_output: bool, source_path: &str, config: &StorageConfig) -> (target:
    PublishTarget)
    ensures
        local_output ==> target@ == (TargetTexts::Local { path: local_page_path(source_path@) }),
        !local_output ==> exists|id: Seq<char>|
            is_identifier_text(id) && target@ == target_for(false, source_path@, config@, id),
{
    if local_output {
        resolve_with(true, source_path, config, "")
    } else {
        let id = draw_identifier();
        let target = resolve_with(false, source_path, config, id.as_str());
        assert(is_identifier_text(id@) && target@ == target_for(
            false,
            source_path@,
            config@,
            id@,
        ));
        target
    }
}

} // verus!
