//! The startup gate: every required setting is inspected — never just the
//! first failing one — and each missing setting contributes its own sentence
//! to the aggregated diagnostic, in a fixed enumeration order.

use vstd::prelude::*;
use crate::config::{
    EnvSnapshot, EnvSnapshotView, get_pam_url, get_s3_access_key, get_s3_secret_key, get_s3_url,
    spec_pam_url, spec_s3_access_key, spec_s3_secret_key, spec_s3_url,
};
use crate::report::ValidationReport;

verus! {

/// Process exit status reserved for a failed configuration validation,
/// distinct from the codes a generic runtime fault produces.
pub const CONFIG_FAILURE_EXIT_CODE: i32 = -501;

pub open spec fn spec_access_key_message() -> Seq<char> {
    "The S3 Access Key has not been set. We require this key to be set to continue running. Please refer to our documentation to see how to set this environment variable.\n"@
}

pub open spec fn spec_secret_key_message() -> Seq<char> {
    "The S3 Secret Key has not been set. We require this key to be set to continue running. Please refer to our documentation to see how to set this environment variable.\r\n"@
}

pub open spec fn spec_s3_url_message() -> Seq<char> {
    "The S3 Url has not been set. We require the URL to be set to continue running. Please refer to our documentation to see how to set this environment variable.\r\n"@
}

pub open spec fn spec_pam_url_message() -> Seq<char> {
    "The API base URL is empty. It is required to be set, to interact, test and authorize with our database. Please refer to our documentation to see how to set this environment variable.\r\n"@
}

/// A required setting is missing when its resolved value is empty.
pub open spec fn spec_access_key_missing(env: EnvSnapshotView) -> bool {
    spec_s3_access_key(env).len() == 0
}

pub open spec fn spec_secret_key_missing(env: EnvSnapshotView) -> bool {
    spec_s3_secret_key(env).len() == 0
}

pub open spec fn spec_s3_url_missing(env: EnvSnapshotView) -> bool {
    spec_s3_url(env).len() == 0
}

pub open spec fn spec_pam_url_missing(env: EnvSnapshotView) -> bool {
    spec_pam_url(env).len() == 0
}

/// The violation sentences one validation pass collects: one per missing
/// required setting, in the fixed enumeration order (access key, secret key,
/// endpoint URL, authority-API base URL).
pub open spec fn spec_violations(env: EnvSnapshotView) -> Seq<Seq<char>> {
    let msgs = Seq::<Seq<char>>::empty();
    let msgs = if spec_access_key_missing(env) {
        msgs.push(spec_access_key_message())
    } else {
        msgs
    };
    let msgs = if spec_secret_key_missing(env) {
        msgs.push(spec_secret_key_message())
    } else {
        msgs
    };
    let msgs = if spec_s3_url_missing(env) {
        msgs.push(spec_s3_url_message())
    } else {
        msgs
    };
    let msgs = if spec_pam_url_missing(env) {
        msgs.push(spec_pam_url_message())
    } else {
        msgs
    };
    msgs
}

/// Resolves every required setting and collects one explanatory sentence per
/// missing one. The pass never stops at the first problem: the report lists
/// them all, so an operator can fix everything in one run. An empty report
/// means startup may proceed.
pub fn validate_client_configuration(env: &EnvSnapshot) -> (report: ValidationReport)
    ensures
        report@ == spec_violations(env@),
{
    let mut report = ValidationReport::new();

    if get_s3_access_key(env).as_str().is_empty() {
        report.add_violation(("The S3 Access Key has not been set. We require this key to be set to continue running. Please refer to our documentation to see how to set this environment variable.\n").to_owned());
    }

    if get_s3_secret_key(env).as_str().is_empty() {
        report.add_violation(("The S3 Secret Key has not been set. We require this key to be set to continue running. Please refer to our documentation to see how to set this environment variable.\r\n").to_owned());
    }

    if get_s3_url(env).as_str().is_empty() {
        report.add_violation(("The S3 Url has not been set. We require the URL to be set to continue running. Please refer to our documentation to see how to set this environment variable.\r\n").to_owned());
    }

    if get_pam_url(env).as_str().is_empty() {
        report.add_violation(("The API base URL is empty. It is required to be set, to interact, test and authorize with our database. Please refer to our documentation to see how to set this environment variable.\r\n").to_owned());
    }

    report
}

/// How many required settings are missing from a snapshot.
pub open spec fn spec_missing_count(env: EnvSnapshotView) -> int {
    (if spec_access_key_missing(env) { 1int } else { 0 })
    + (if spec_secret_key_missing(env) { 1int } else { 0 })
    + (if spec_s3_url_missing(env) { 1int } else { 0 })
    + (if spec_pam_url_missing(env) { 1int } else { 0 })
}

/// The four violation sentences are pairwise distinct, so no two settings
/// ever contribute the same line to the diagnostic.
pub proof fn lemma_messages_distinct()
    ensures
        spec_access_key_message() != spec_secret_key_message(),
        spec_access_key_message() != spec_s3_url_message(),
        spec_access_key_message() != spec_pam_url_message(),
        spec_secret_key_message() != spec_s3_url_message(),
        spec_secret_key_message() != spec_pam_url_message(),
        spec_s3_url_message() != spec_pam_url_message(),
{
    reveal_strlit("The S3 Access Key has not been set. We require this key to be set to continue running. Please refer to our documentation to see how to set this environment variable.\n");
    reveal_strlit("The S3 Secret Key has not been set. We require this key to be set to continue running. Please refer to our documentation to see how to set this environment variable.\r\n");
    reveal_strlit("The S3 Url has not been set. We require the URL to be set to continue running. Please refer to our documentation to see how to set this environment variable.\r\n");
    reveal_strlit("The API base URL is empty. It is required to be set, to interact, test and authorize with our database. Please refer to our documentation to see how to set this environment variable.\r\n");
    assert(spec_access_key_message()[7] == 'A');
    assert(spec_secret_key_message()[7] == 'S');
    assert(spec_s3_url_message()[7] == 'U');
    assert(spec_access_key_message()[4] == 'S');
    assert(spec_secret_key_message()[4] == 'S');
    assert(spec_s3_url_message()[4] == 'S');
    assert(spec_pam_url_message()[4] == 'A');
}

/// Law: one validation pass reports exactly one distinct violation sentence
/// per missing required setting — no duplicates, no omissions — and nothing
/// else, in the fixed enumeration order.
pub proof fn lemma_report_exactly_one_sentence_per_missing_setting(env: EnvSnapshotView)
    ensures
        spec_violations(env).contains(spec_access_key_message()) <==> spec_access_key_missing(env),
        spec_violations(env).contains(spec_secret_key_message()) <==> spec_secret_key_missing(env),
        spec_violations(env).contains(spec_s3_url_message()) <==> spec_s3_url_missing(env),
        spec_violations(env).contains(spec_pam_url_message()) <==> spec_pam_url_missing(env),
        spec_violations(env).no_duplicates(),
        spec_violations(env).len() == spec_missing_count(env),
        forall|i: int| 0 <= i < spec_violations(env).len() ==> (
            #[trigger] spec_violations(env)[i] == spec_access_key_message()
            || spec_violations(env)[i] == spec_secret_key_message()
            || spec_violations(env)[i] == spec_s3_url_message()
            || spec_violations(env)[i] == spec_pam_url_message()
        ),
{
    lemma_messages_distinct();
    let a = spec_access_key_missing(env);
    let b = spec_secret_key_missing(env);
    let c = spec_s3_url_missing(env);
    let d = spec_pam_url_missing(env);
    let v = spec_violations(env);
    if a {
        assert(v[0] == spec_access_key_message());
    }
    if b {
        let i = if a { 1int } else { 0 };
        assert(v[i] == spec_secret_key_message());
    }
    if c {
        let i = (if a { 1int } else { 0 }) + (if b { 1int } else { 0 });
        assert(v[i] == spec_s3_url_message());
    }
    if d {
        let i = (if a { 1int } else { 0 }) + (if b { 1int } else { 0 })
            + (if c { 1int } else { 0 });
        assert(v[i] == spec_pam_url_message());
    }
}

/// Law: the validation pass finds nothing — and so the server may start —
/// exactly when all four required settings resolve to non-empty values.
pub proof fn lemma_report_empty_iff_all_settings_present(env: EnvSnapshotView)
    ensures
        spec_violations(env).len() == 0 <==> (
            !spec_access_key_missing(env)
            && !spec_secret_key_missing(env)
            && !spec_s3_url_missing(env)
            && !spec_pam_url_missing(env)
        ),
{
}

} // verus!
