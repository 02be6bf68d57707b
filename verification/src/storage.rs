use vstd::prelude::*;
use crate::config::StorageConfig;
use crate::config::StorageSettings;
use crate::text::lemma_framed_distinct;
use crate::text::lemma_strip_trailing_appended;
use crate::text::repeated;
use crate::text::strip_trailing;
use crate::text::trim_trailing_slashes;

verus! {

/// The content type of every published page.
pub const CONTENT_TYPE: &'static str = "text/html";

/// The address of the storage service in a region.
pub open spec fn endpoint_text(region: Seq<char>) -> Seq<char> {
    "https://s3."@ + region + ".backblazeb2.com"@
}

/// The key of a document's object: the prefix without the slashes at its end, the
/// segment `p`, the identifier, and the default document's name.
pub open spec fn object_key_text(prefix: Seq<char>, id: Seq<char>) -> Seq<char> {
    strip_trailing(prefix, '/') + "/p/"@ + id + "/index.html"@
}

/// The public address of a document: the domain, the segment `p`, the identifier.
pub open spec fn public_url_text(domain: Seq<char>, id: Seq<char>) -> Seq<char> {
    domain + "/p/"@ + id
}

/// The address of the storage service in `region`.
pub fn endpoint_url(region: &str) -> (url: String)
    ensures
        url@ == endpoint_text(region@),
{
    let mut url = String::from_str("https://s3.");
    url.append(region);
    url.append(".backblazeb2.com");
    url
}

/// The key under which the document with identifier `id` is stored.
pub fn object_key(prefix: &str, id: &str) -> (key: String)
    ensures
        key@ == object_key_text(prefix@, id@),
{
    let mut key = trim_trailing_slashes(prefix);
    key.append("/p/");
    key.append(id);
    key.append("/index.html");
    key
}

/// The address under which the document with identifier `id` is read.
pub fn public_url(domain: &str, id: &str) -> (url: String)
    ensures
        url@ == public_url_text(domain@, id@),
{
    let mut url = String::from_str(domain);
    url.append("/p/");
    url.append(id);
    url
}

/// One upload: a single authenticated, path-style PUT of `body` to `bucket`/`key`.
#[derive(Clone, Debug, PartialEq, Eq)]
pub struct UploadRequest {
    pub endpoint: String,
    pub region: String,
    pub bucket: String,
    pub key: String,
    pub content_type: String,
    pub access_key_id: String,
    pub secret_access_key: String,
    pub body: String,
}

/// An upload as texts.
pub struct UploadTexts {
    pub endpoint: Seq<char>,
    pub region: Seq<char>,
    pub bucket: Seq<char>,
    pub key: Seq<char>,
    pub content_type: Seq<char>,
    pub access_key_id: Seq<char>,
    pub secret_access_key: Seq<char>,
    pub body: Seq<char>,
}

impl View for UploadRequest {
    type V = UploadTexts;

    open spec fn view(&self) -> UploadTexts {
        UploadTexts {
            endpoint: self.endpoint@,
            region: self.region@,
            bucket: self.bucket@,
            key: self.key@,
            content_type: self.content_type@,
            access_key_id: self.access_key_id@,
            secret_access_key: self.secret_access_key@,
            body: self.body@,
        }
    }
}

/// The upload of a page for given settings and identifier.
pub open spec fn upload_for(config: StorageSettings, id: Seq<char>, page: Seq<char>) -> UploadTexts {
    UploadTexts {
        endpoint: endpoint_text(config.region),
        region: config.region,
        bucket: config.bucket,
        key: object_key_text(config.prefix, id),
        content_type: CONTENT_TYPE@,
        access_key_id: config.access_key_id,
        secret_access_key: config.secret_access_key,
        body: page,
    }
}

/// Describes the one upload that publishes `page` under the identifier `id`.
pub fn upload_request(config: &StorageConfig, id: &str, page: String) -> (request: UploadRequest)
    ensures
        request@ == upload_for(config@, id@, page@),
{
    UploadRequest {
        endpoint: endpoint_url(config.region.as_str()),
        region: config.region.clone(),
        bucket: config.bucket.clone(),
        key: object_key(config.prefix.as_str(), id),
        content_type: String::from_str(CONTENT_TYPE),
        access_key_id: config.access_key_id.clone(),
        secret_access_key: config.secret_access_key.clone(),
        body: page,
    }
}

/// Different identifiers give different object keys and different public addresses,
/// whatever the prefix and the domain.
pub proof fn lemma_distinct_identifiers(
    prefix: Seq<char>,
    domain: Seq<char>,
    first: Seq<char>,
    second: Seq<char>,
)
    requires
        first != second,
    ensures
        object_key_text(prefix, first) != object_key_text(prefix, second),
        public_url_text(domain, first) != public_url_text(domain, second),
{
    lemma_framed_distinct(strip_trailing(prefix, '/') + "/p/"@, first, second, "/index.html"@);
    lemma_framed_distinct(domain + "/p/"@, first, second, Seq::<char>::empty());
    assert(domain + "/p/"@ + first + Seq::<char>::empty() =~= public_url_text(domain, first));
    assert(domain + "/p/"@ + second + Seq::<char>::empty() =~= public_url_text(domain, second));
}

/// Slashes at the end of the prefix do not change the key: for a prefix `base` that
/// does not end in a slash, followed by any number of slashes, the key is `base`,
/// `/p/`, the identifier and `/index.html`.
pub proof fn lemma_key_ignores_trailing_slashes(base: Seq<char>, slashes: nat, id: Seq<char>)
    requires
        base.len() == 0 || base.last() != '/',
    ensures
        object_key_text(base + repeated('/', slashes), id) == base + "/p/"@ + id + "/index.html"@,
{
    lemma_strip_trailing_appended(base, '/', slashes);
}

} // verus!
