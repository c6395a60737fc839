//! Configuration validator: resolves the required external-service settings
//! from a snapshot of the process environment, applies per-setting defaults,
//! and aggregates one violation sentence per missing setting so that an
//! operator sees every problem in a single run.

use vstd::prelude::*;

verus! {

/// The raw environment values the validator reads, looked up once at process
/// start. `None` means the variable is unset; `Some("")` means it is set to
/// the empty string, which is a distinct, representable state.
pub struct EnvSnapshot {
    /// Object-storage access key.
    pub s3_access_key: Option<String>,
    /// Object-storage secret key.
    pub s3_secret_key: Option<String>,
    /// Object-storage endpoint URL.
    pub s3_url: Option<String>,
    /// Base URL of the recognition-authority service.
    pub pam_url: Option<String>,
}

/// Mathematical model of an environment snapshot.
pub struct EnvSnapshotView {
    pub s3_access_key: Option<Seq<char>>,
    pub s3_secret_key: Option<Seq<char>>,
    pub s3_url: Option<Seq<char>>,
    pub pam_url: Option<Seq<char>>,
}

pub open spec fn opt_view(v: Option<String>) -> Option<Seq<char>> {
    match v {
        Option::Some(s) => Option::Some(s@),
        Option::None => Option::None,
    }
}

impl View for EnvSnapshot {
    type V = EnvSnapshotView;

    open spec fn view(&self) -> EnvSnapshotView {
        EnvSnapshotView {
            s3_access_key: opt_view(self.s3_access_key),
            s3_secret_key: opt_view(self.s3_secret_key),
            s3_url: opt_view(self.s3_url),
            pam_url: opt_view(self.pam_url),
        }
    }
}

/// What an environment lookup resolves to: the value verbatim when the
/// variable is set (even to the empty string), the default exactly when it
/// is absent.
pub open spec fn resolved(value: Option<Seq<char>>, default: Seq<char>) -> Seq<char> {
    match value {
        Option::Some(v) => v,
        Option::None => default,
    }
}

/// Resolves one environment lookup: the value verbatim when set, `default`
/// exactly when absent. Absence is a valid outcome, not an error.
pub fn get_env_variable(value: &Option<String>, default: String) -> (r: String)
    ensures
        r@ == resolved(opt_view(*value), default@),
{
    match value {
        Option::Some(v) => v.clone(),
        Option::None => default,
    }
}

/// Development default for the object-storage endpoint, used only when the
/// corresponding variable is unset.
pub open spec fn spec_default_s3_url() -> Seq<char> {
    "https://pam-dev.sfo3.digitaloceanspaces.com"@
}

pub open spec fn spec_s3_access_key(env: EnvSnapshotView) -> Seq<char> {
    resolved(env.s3_access_key, Seq::<char>::empty())
}

pub open spec fn spec_s3_secret_key(env: EnvSnapshotView) -> Seq<char> {
    resolved(env.s3_secret_key, Seq::<char>::empty())
}

pub open spec fn spec_s3_url(env: EnvSnapshotView) -> Seq<char> {
    resolved(env.s3_url, spec_default_s3_url())
}

pub open spec fn spec_pam_url(env: EnvSnapshotView) -> Seq<char> {
    resolved(env.pam_url, Seq::<char>::empty())
}

/// Gets the object-storage access key; no safe default exists, so an unset
/// variable resolves to the empty string.
pub fn get_s3_access_key(env: &EnvSnapshot) -> (r: String)
    ensures
        r@ == spec_s3_access_key(env@),
{
    get_env_variable(&env.s3_access_key, String::new())
}

/// Gets the object-storage secret key; no safe default exists, so an unset
/// variable resolves to the empty string.
pub fn get_s3_secret_key(env: &EnvSnapshot) -> (r: String)
    ensures
        r@ == spec_s3_secret_key(env@),
{
    get_env_variable(&env.s3_secret_key, String::new())
}

/// Gets the object-storage endpoint URL; an unset variable resolves to the
/// fixed development endpoint.
pub fn get_s3_url(env: &EnvSnapshot) -> (r: String)
    ensures
        r@ == spec_s3_url(env@),
{
    get_env_variable(&env.s3_url, ("https://pam-dev.sfo3.digitaloceanspaces.com").to_owned())
}

/// Gets the recognition-authority base URL; no safe default exists, so an
/// unset variable resolves to the empty string.
pub fn get_pam_url(env: &EnvSnapshot) -> (r: String)
    ensures
        r@ == spec_pam_url(env@),
{
    get_env_variable(&env.pam_url, String::new())
}

} // verus!
