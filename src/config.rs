use vstd::prelude::*;
use crate::error::{ApplicationError, StorageError};
use crate::upload::text_is;

verus! {

/// The process-wide upload policy.
#[derive(Debug, Clone)]
pub struct GlobalConfig {
    pub mime_types: Vec<String>,
    pub max_size: u64,
    pub chunk_size: u64,
    pub temp_file_life: u64,
    pub default_quota: u64,
}

/// The storage backends that a server instance can use.
#[derive(Debug, Clone, Copy, PartialEq, Eq, Structural)]
pub enum Provider {
    GDrive,
    Supabase,
}

/// The provider that a stored configuration names.
pub open spec fn provider_of(s: Seq<char>) -> Option<Provider> {
    if s == "gdrive"@ {
        Some(Provider::GDrive)
    } else if s == "supabase"@ {
        Some(Provider::Supabase)
    } else {
        None
    }
}

impl Provider {
    /// Reads a provider from its stored name (`gdrive` or `supabase`).
    pub fn parse(s: &str) -> (r: Option<Provider>)
        ensures
            r == provider_of(s@),
    {
        if text_is(s, "gdrive") {
            Some(Provider::GDrive)
        } else if text_is(s, "supabase") {
            Some(Provider::Supabase)
        } else {
            None
        }
    }

    /// The stored name of the provider.
    pub fn name(&self) -> (r: String)
        ensures
            r@ == (match *self {
                Provider::GDrive => "gdrive"@,
                Provider::Supabase => "supabase"@,
            }),
    {
        match self {
            Provider::GDrive => "gdrive".to_owned(),
            Provider::Supabase => "supabase".to_owned(),
        }
    }
}

/// The configuration of this server instance.
#[derive(Debug, Clone)]
pub struct LocalConfig {
    pub provider: Provider,
    pub server_name: String,
    pub server_url: String,
    pub server_id: String,
}

#[derive(Debug, Clone)]
pub struct GDriveSecrets {
    pub folder_id: String,
    pub google_credentials: String,
}

#[derive(Debug, Clone)]
pub struct SupabaseSecrets {
    pub endpoint: String,
    pub region: String,
    pub access_key_id: String,
    pub secret_access_key: String,
    pub bucket_name: String,
}

/// The credentials of the service and of each provider it may use.
#[derive(Debug, Clone)]
pub struct Secrets {
    pub db_password: String,
    pub db_username: String,
    pub vk_secret: String,
    pub gdrive_secrets: Option<GDriveSecrets>,
    pub supabase_secrets: Option<SupabaseSecrets>,
}

/// Whether `c` has the Unicode `White_Space` property, which is what
/// `str::trim` removes.
pub open spec fn is_white_space(c: char) -> bool {
    let u = c as u32;
    (0x9 <= u <= 0xd) || u == 0x20 || u == 0x85 || u == 0xa0 || u == 0x1680 || (0x2000 <= u
        <= 0x200a) || u == 0x2028 || u == 0x2029 || u == 0x202f || u == 0x205f || u == 0x3000
}

/// `s` without its leading white space.
pub open spec fn trim_start_of(s: Seq<char>) -> Seq<char>
    decreases s.len(),
{
    if s.len() > 0 && is_white_space(s[0]) {
        trim_start_of(s.drop_first())
    } else {
        s
    }
}

/// `s` without its trailing white space.
pub open spec fn trim_end_of(s: Seq<char>) -> Seq<char>
    decreases s.len(),
{
    if s.len() > 0 && is_white_space(s.last()) {
        trim_end_of(s.drop_last())
    } else {
        s
    }
}

/// The text that `str::trim` leaves of `s`: without leading and trailing
/// white space.
pub open spec fn trimmed(s: Seq<char>) -> Seq<char> {
    trim_end_of(trim_start_of(s))
}

/// What is left after the leading white space is gone starts with no white
/// space.
proof fn lemma_trim_start_clean(s: Seq<char>)
    ensures
        trim_start_of(s).len() == 0 || !is_white_space(trim_start_of(s)[0]),
    decreases s.len(),
{
    if s.len() > 0 && is_white_space(s[0]) {
        lemma_trim_start_clean(s.drop_first());
    }
}

/// Trimming the end keeps a prefix, which ends with no white space.
proof fn lemma_trim_end_prefix(s: Seq<char>)
    ensures
        trim_end_of(s).len() <= s.len(),
        trim_end_of(s) == s.subrange(0, trim_end_of(s).len() as int),
        trim_end_of(s).len() == 0 || !is_white_space(trim_end_of(s).last()),
    decreases s.len(),
{
    if s.len() > 0 && is_white_space(s.last()) {
        lemma_trim_end_prefix(s.drop_last());
        let t = trim_end_of(s.drop_last());
        assert(s.drop_last().subrange(0, t.len() as int) == s.subrange(0, t.len() as int));
    } else {
        assert(s.subrange(0, s.len() as int) == s);
    }
}

/// Trimming a trimmed text changes nothing, so cleaning secrets twice gives
/// what cleaning them once gives.
pub proof fn lemma_trimmed_idempotent(s: Seq<char>)
    ensures
        trimmed(trimmed(s)) == trimmed(s),
{
    let u = trim_start_of(s);
    let t = trimmed(s);
    lemma_trim_start_clean(s);
    lemma_trim_end_prefix(u);
    if t.len() > 0 {
        assert(t[0] == u[0]);
    }
    assert(trim_start_of(t) == t);
    assert(trim_end_of(t) == t);
}

/// Relies on `str::trim`: the text without leading and trailing white space.
#[verifier::external_body]
fn trim_text(s: &str) -> (r: String)
    ensures
        r@ == trimmed(s@),
{
    s.trim().to_string()
}

/// The entries of `c` that are not blank, in their order.
pub open spec fn non_blank(c: Seq<String>) -> Seq<String>
    decreases c.len(),
{
    if c.len() == 0 {
        Seq::empty()
    } else {
        let rest = non_blank(c.drop_last());
        if trimmed(c.last()@).len() > 0 {
            rest.push(c.last())
        } else {
            rest
        }
    }
}

/// The largest value a signed 64-bit store column holds.
pub const STORE_MAX: u64 = 0x7fff_ffff_ffff_ffff;

/// An optional value capped at `STORE_MAX`.
pub open spec fn capped(v: Option<u64>) -> Option<u64> {
    match v {
        Some(x) => Some(if x > STORE_MAX { STORE_MAX } else { x }),
        None => None,
    }
}

pub fn cap(v: Option<u64>) -> (r: Option<u64>)
    ensures
        r == capped(v),
{
    match v {
        Some(x) => Some(if x > STORE_MAX { STORE_MAX } else { x }),
        None => None,
    }
}

/// A copy of a list of texts.
pub fn clone_texts(v: &Vec<String>) -> (r: Vec<String>)
    ensures
        r@ == v@,
{
    let mut out: Vec<String> = Vec::new();
    let mut i: usize = 0;
    while i < v.len()
        invariant
            i <= v@.len(),
            out@ == v@.subrange(0, i as int),
        decreases v.len() - i,
    {
        out.push(v[i].clone());
        i = i + 1;
        assert(out@ == v@.subrange(0, i as int));
    }
    assert(v@.subrange(0, v@.len() as int) == v@);
    out
}

/// A partial update of the upload policy: absent fields stay as they are.
#[derive(Debug, Clone)]
pub struct GlobalConfigDTO {
    pub mime_types: Option<Vec<String>>,
    pub max_size: Option<u64>,
    pub chunk_size: Option<u64>,
    pub temp_file_life: Option<u64>,
    pub default_quota: Option<u64>,
}

impl GlobalConfigDTO {
    /// Drops blank MIME types and caps each size at what the store holds.
    pub fn sanitize(&mut self)
        ensures
            match old(self).mime_types {
                Some(v) => final(self).mime_types matches Some(w) && w@ == non_blank(v@),
                None => final(self).mime_types is None,
            },
            final(self).max_size == capped(old(self).max_size),
            final(self).chunk_size == capped(old(self).chunk_size),
            final(self).temp_file_life == capped(old(self).temp_file_life),
            final(self).default_quota == capped(old(self).default_quota),
    {
        let kept = match &self.mime_types {
            Some(v) => {
                let mut out: Vec<String> = Vec::new();
                let mut i: usize = 0;
                while i < v.len()
                    invariant
                        i <= v@.len(),
                        out@ == non_blank(v@.subrange(0, i as int)),
                    decreases v.len() - i,
                {
                    let ghost prefix = v@.subrange(0, i + 1);
                    assert(prefix.drop_last() == v@.subrange(0, i as int));
                    assert(prefix.last() == v@[i as int]);
                    let t = trim_text(v[i].as_str());
                    if t.as_str().unicode_len() > 0 {
                        out.push(v[i].clone());
                    }
                    i = i + 1;
                }
                assert(v@.subrange(0, v@.len() as int) == v@);
                Some(out)
            },
            None => None,
        };
        self.mime_types = kept;
        self.max_size = cap(self.max_size);
        self.chunk_size = cap(self.chunk_size);
        self.temp_file_life = cap(self.temp_file_life);
        self.default_quota = cap(self.default_quota);
    }

    /// The update that sets every field to the value `value` holds.
    pub fn from(value: GlobalConfig) -> (r: GlobalConfigDTO)
        ensures
            r.mime_types == Some(value.mime_types),
            r.max_size == Some(value.max_size),
            r.chunk_size == Some(value.chunk_size),
            r.temp_file_life == Some(value.temp_file_life),
            r.default_quota == Some(value.default_quota),
    {
        GlobalConfigDTO {
            mime_types: Some(value.mime_types),
            max_size: Some(value.max_size),
            chunk_size: Some(value.chunk_size),
            temp_file_life: Some(value.temp_file_life),
            default_quota: Some(value.default_quota),
        }
    }
}

/// A number that is absent counts as zero.
pub open spec fn or_zero(v: Option<u64>) -> u64 {
    match v {
        Some(x) => x,
        None => 0,
    }
}

pub(crate) fn unwrap_or_zero(v: Option<u64>) -> (r: u64)
    ensures
        r == or_zero(v),
{
    match v {
        Some(x) => x,
        None => 0,
    }
}

/// A text that is absent counts as empty.
pub open spec fn or_empty(v: Option<String>) -> Seq<char> {
    match v {
        Some(s) => s@,
        None => Seq::empty(),
    }
}

pub(crate) fn unwrap_or_empty(v: Option<String>) -> (r: String)
    ensures
        r@ == or_empty(v),
{
    match v {
        Some(s) => s,
        None => String::new(),
    }
}

impl GlobalConfig {
    /// The policy that a stored update describes; absent fields are empty or
    /// zero.
    pub fn from(value: GlobalConfigDTO) -> (r: GlobalConfig)
        ensures
            r.mime_types@ == (match value.mime_types {
                Some(v) => v@,
                None => Seq::empty(),
            }),
            r.max_size == or_zero(value.max_size),
            r.chunk_size == or_zero(value.chunk_size),
            r.temp_file_life == or_zero(value.temp_file_life),
            r.default_quota == or_zero(value.default_quota),
    {
        GlobalConfig {
            mime_types: match value.mime_types {
                Some(v) => v,
                None => Vec::new(),
            },
            max_size: unwrap_or_zero(value.max_size),
            chunk_size: unwrap_or_zero(value.chunk_size),
            temp_file_life: unwrap_or_zero(value.temp_file_life),
            default_quota: unwrap_or_zero(value.default_quota),
        }
    }
}

/// A partial update of an instance's configuration.
#[derive(Debug, Clone, Default)]
pub struct LocalConfigDTO {
    pub provider: Option<Provider>,
    pub server_name: Option<String>,
    pub server_url: Option<String>,
}

impl LocalConfigDTO {
    /// Nothing in an instance update needs cleaning: it is kept as it is.
    pub fn sanitize(&mut self)
        ensures
            *final(self) == *old(self),
    {
    }

    pub fn from(value: LocalConfig) -> (r: LocalConfigDTO)
        ensures
            r.provider == Some(value.provider),
            r.server_name == Some(value.server_name),
            r.server_url == Some(value.server_url),
    {
        LocalConfigDTO {
            provider: Some(value.provider),
            server_name: Some(value.server_name),
            server_url: Some(value.server_url),
        }
    }
}

impl LocalConfig {
    /// The configuration that a stored update describes: the provider
    /// defaults to Google Drive, texts to empty; the server id is not part
    /// of the update and is left empty.
    pub fn from(value: LocalConfigDTO) -> (r: LocalConfig)
        ensures
            r.provider == (match value.provider {
                Some(p) => p,
                None => Provider::GDrive,
            }),
            r.server_name@ == or_empty(value.server_name),
            r.server_url@ == or_empty(value.server_url),
            r.server_id@ == Seq::<char>::empty(),
    {
        LocalConfig {
            provider: match value.provider {
                Some(p) => p,
                None => Provider::GDrive,
            },
            server_name: unwrap_or_empty(value.server_name),
            server_url: unwrap_or_empty(value.server_url),
            server_id: String::new(),
        }
    }
}

/// A partial update of the secrets.
#[derive(Debug, Clone)]
pub struct SecretsDTO {
    pub db_password: Option<String>,
    pub db_username: Option<String>,
    pub vk_secret: Option<String>,
    pub gdrive_secrets: Option<GDriveSecrets>,
    pub supabase_secrets: Option<SupabaseSecrets>,
}

/// An optional text with white space trimmed from both ends.
pub open spec fn trimmed_opt(v: Option<String>) -> Option<Seq<char>> {
    match v {
        Some(s) => Some(trimmed(s@)),
        None => None,
    }
}

fn trim_opt(v: &Option<String>) -> (r: Option<String>)
    ensures
        crate::token::opt_view(r) == trimmed_opt(*v),
{
    match v {
        Some(s) => Some(trim_text(s.as_str())),
        None => None,
    }
}

impl SecretsDTO {
    /// Trims white space from the database credentials and the shared
    /// secret.
    pub fn sanitize(&mut self)
        ensures
            crate::token::opt_view(final(self).db_password) == trimmed_opt(old(self).db_password),
            crate::token::opt_view(final(self).db_username) == trimmed_opt(old(self).db_username),
            crate::token::opt_view(final(self).vk_secret) == trimmed_opt(old(self).vk_secret),
            final(self).gdrive_secrets == old(self).gdrive_secrets,
            final(self).supabase_secrets == old(self).supabase_secrets,
    {
        self.db_password = trim_opt(&self.db_password);
        self.db_username = trim_opt(&self.db_username);
        self.vk_secret = trim_opt(&self.vk_secret);
    }

    pub fn from(value: Secrets) -> (r: SecretsDTO)
        ensures
            r.db_password == Some(value.db_password),
            r.db_username == Some(value.db_username),
            r.vk_secret == Some(value.vk_secret),
            r.gdrive_secrets == value.gdrive_secrets,
            r.supabase_secrets == value.supabase_secrets,
    {
        SecretsDTO {
            db_password: Some(value.db_password),
            db_username: Some(value.db_username),
            vk_secret: Some(value.vk_secret),
            gdrive_secrets: value.gdrive_secrets,
            supabase_secrets: value.supabase_secrets,
        }
    }
}

impl Secrets {
    /// The secrets that a stored update describes; absent texts are empty.
    pub fn from(value: SecretsDTO) -> (r: Secrets)
        ensures
            r.db_password@ == or_empty(value.db_password),
            r.db_username@ == or_empty(value.db_username),
            r.vk_secret@ == or_empty(value.vk_secret),
            r.gdrive_secrets == value.gdrive_secrets,
            r.supabase_secrets == value.supabase_secrets,
    {
        Secrets {
            db_password: unwrap_or_empty(value.db_password),
            db_username: unwrap_or_empty(value.db_username),
            vk_secret: unwrap_or_empty(value.vk_secret),
            gdrive_secrets: value.gdrive_secrets,
            supabase_secrets: value.supabase_secrets,
        }
    }
}

/// A provider together with the credentials it is opened with.
#[derive(Debug, Clone)]
pub enum StorageBackend {
    GDrive(GDriveSecrets),
    Supabase(SupabaseSecrets),
}

/// Picks the credentials for `provider`; a provider whose credentials are
/// missing cannot be opened.
pub fn create_storage_service(provider: &Provider, secrets: &Secrets) -> (r: Result<
    StorageBackend,
    StorageError,
>)
    ensures
        match *provider {
            Provider::GDrive => match secrets.gdrive_secrets {
                Some(g) => r matches Ok(StorageBackend::GDrive(h)) && h == g,
                None => r matches Err(StorageError::InvalidCredentials(m)) && m@
                    == "GDrive secrets not found"@,
            },
            Provider::Supabase => match secrets.supabase_secrets {
                Some(g) => r matches Ok(StorageBackend::Supabase(h)) && h == g,
                None => r matches Err(StorageError::InvalidCredentials(m)) && m@
                    == "Supabase secrets not found"@,
            },
        },
{
    match provider {
        Provider::GDrive => match &secrets.gdrive_secrets {
            Some(g) => Ok(
                StorageBackend::GDrive(
                    GDriveSecrets {
                        folder_id: g.folder_id.clone(),
                        google_credentials: g.google_credentials.clone(),
                    },
                ),
            ),
            None => Err(StorageError::InvalidCredentials("GDrive secrets not found".to_owned())),
        },
        Provider::Supabase => match &secrets.supabase_secrets {
            Some(g) => Ok(
                StorageBackend::Supabase(
                    SupabaseSecrets {
                        endpoint: g.endpoint.clone(),
                        region: g.region.clone(),
                        access_key_id: g.access_key_id.clone(),
                        secret_access_key: g.secret_access_key.clone(),
                        bucket_name: g.bucket_name.clone(),
                    },
                ),
            ),
            None => Err(StorageError::InvalidCredentials("Supabase secrets not found".to_owned())),
        },
    }
}

/// Checks that an instance update addresses this server.
pub fn check_instance_target(path_id: &String, own_id: &String) -> (r: Result<(), ApplicationError>)
    ensures
        r is Ok <==> path_id@ == own_id@,
        r is Err ==> r->Err_0 matches ApplicationError::BadRequest(_),
{
    if *path_id == *own_id {
        Ok(())
    } else {
        Err(ApplicationError::BadRequest("Invalid server ID".to_owned()))
    }
}

/// Decides what an instance update does to the active provider: nothing
/// where the provider stays the same; otherwise the backend to swap in, or an
/// internal error where its credentials are missing.
pub fn plan_provider_swap(old_provider: Provider, updated: &LocalConfig, secrets: &Secrets) -> (r:
    Result<Option<StorageBackend>, ApplicationError>)
    ensures
        old_provider == updated.provider ==> r == Ok::<Option<StorageBackend>, ApplicationError>(
            None,
        ),
        old_provider != updated.provider ==> match updated.provider {
            Provider::GDrive => match secrets.gdrive_secrets {
                Some(g) => r matches Ok(Some(StorageBackend::GDrive(h))) && h == g,
                None => r matches Err(ApplicationError::InternalError(m)) && m@
                    == "Failed to create storage service for the new provider"@,
            },
            Provider::Supabase => match secrets.supabase_secrets {
                Some(g) => r matches Ok(Some(StorageBackend::Supabase(h))) && h == g,
                None => r matches Err(ApplicationError::InternalError(m)) && m@
                    == "Failed to create storage service for the new provider"@,
            },
        },
{
    if old_provider == updated.provider {
        return Ok(None);
    }
    match create_storage_service(&updated.provider, secrets) {
        Ok(b) => Ok(Some(b)),
        Err(_) => Err(ApplicationError::InternalError(
            "Failed to create storage service for the new provider".to_owned(),
        )),
    }
}

/// The policy as the health report shows it.
#[derive(Debug, Clone)]
pub struct HealthConfigInfo {
    pub max_size: u64,
    pub default_quota: u64,
    pub temp_file_life: u64,
    pub allowed_mime_types: Vec<String>,
}

impl HealthConfigInfo {
    pub fn from_config(c: &GlobalConfig) -> (r: HealthConfigInfo)
        ensures
            r.max_size == c.max_size,
            r.default_quota == c.default_quota,
            r.temp_file_life == c.temp_file_life,
            r.allowed_mime_types@ == c.mime_types@,
    {
        HealthConfigInfo {
            max_size: c.max_size,
            default_quota: c.default_quota,
            temp_file_life: c.temp_file_life,
            allowed_mime_types: clone_texts(&c.mime_types),
        }
    }
}

} // verus!
