//! Kubeconfig safety: which paths hold credentials, whether a kubeconfig may be used, and
//! what of its text may be logged.

use crate::text::{
    contains, ends_with, extend_str, from_chars, lemma_find_from_props, matches_at,
    matches_at_chars, push_string, str_contains, str_ends_with, str_eq, strings_view, to_chars,
};
use vstd::prelude::*;

verus! {

/// A path that names a credentials file or lies in a directory of secrets.
pub open spec fn sensitive_path(p: Seq<char>) -> bool {
    ||| ends_with(p, ".kubeconfig"@)
    ||| ends_with(p, ".docker/config.json"@)
    ||| ends_with(p, ".aws/credentials"@)
    ||| ends_with(p, ".gcloud/credentials.json"@)
    ||| ends_with(p, ".azure/credentials"@)
    ||| contains(p, ".ssh"@)
    ||| contains(p, ".aws"@)
    ||| contains(p, ".gnupg"@)
    ||| contains(p, ".kube"@)
    ||| contains(p, ".docker"@)
    ||| contains(p, ".azure"@)
    ||| contains(p, ".secrets"@)
    ||| contains(p, ".vault"@)
}

/// Whether a path (as text) is sensitive and should be protected.
pub fn is_sensitive_path(path: &str) -> (b: bool)
    ensures
        b == sensitive_path(path@),
{
    str_ends_with(path, ".kubeconfig") || str_ends_with(path, ".docker/config.json")
        || str_ends_with(path, ".aws/credentials") || str_ends_with(
        path,
        ".gcloud/credentials.json",
    ) || str_ends_with(path, ".azure/credentials") || str_contains(path, ".ssh")
        || str_contains(path, ".aws") || str_contains(path, ".gnupg") || str_contains(
        path,
        ".kube",
    ) || str_contains(path, ".docker") || str_contains(path, ".azure") || str_contains(
        path,
        ".secrets",
    ) || str_contains(path, ".vault")
}

/// Why a kubeconfig path was refused.
#[derive(Debug, Clone, PartialEq, Eq)]
pub enum KubeconfigPathError {
    /// The path does not exist.
    NotFound,
    /// The path is not a regular file.
    NotAFile,
    /// The path could not be made canonical; carries the reason.
    Canonicalize(String),
    /// An allowed path could not be made canonical; carries the reason.
    CanonicalizeAllowed(String),
    /// The path is not among the allowed ones.
    NotAllowed,
}

/// What the file system said about a path, in the order the checks ask it.
pub struct PathFacts {
    pub exists: bool,
    pub is_file: bool,
    /// The canonical form of the path, or why it has none.
    pub canonical: Result<String, String>,
}

/// The first allowed entry that either fails to canonicalize or equals `c`.
pub open spec fn first_allowed_decision(c: Seq<char>, allowed: Seq<Result<String, String>>) -> Option<
    Result<(), Seq<char>>,
>
    decreases allowed.len(),
{
    if allowed.len() == 0 {
        None
    } else {
        match allowed[0] {
            Err(e) => Some(Err(e@)),
            Ok(a) => if a@ == c {
                Some(Ok(()))
            } else {
                first_allowed_decision(c, allowed.drop_first())
            },
        }
    }
}

/// The verdict on a kubeconfig path, as plain values: `Ok` or the error with its reason.
pub enum PathVerdict {
    Accepted,
    NotFound,
    NotAFile,
    Canonicalize(Seq<char>),
    CanonicalizeAllowed(Seq<char>),
    NotAllowed,
}

pub open spec fn path_verdict(facts: PathFacts, allowed: Seq<Result<String, String>>) -> PathVerdict {
    if !facts.exists {
        PathVerdict::NotFound
    } else if !facts.is_file {
        PathVerdict::NotAFile
    } else {
        match facts.canonical {
            Err(e) => PathVerdict::Canonicalize(e@),
            Ok(c) => match first_allowed_decision(c@, allowed) {
                Some(Ok(())) => PathVerdict::Accepted,
                Some(Err(e)) => PathVerdict::CanonicalizeAllowed(e),
                None => if allowed.len() == 0 {
                    PathVerdict::Accepted
                } else {
                    PathVerdict::NotAllowed
                },
            },
        }
    }
}

pub open spec fn verdict_of(r: Result<(), KubeconfigPathError>) -> PathVerdict {
    match r {
        Ok(()) => PathVerdict::Accepted,
        Err(KubeconfigPathError::NotFound) => PathVerdict::NotFound,
        Err(KubeconfigPathError::NotAFile) => PathVerdict::NotAFile,
        Err(KubeconfigPathError::Canonicalize(e)) => PathVerdict::Canonicalize(e@),
        Err(KubeconfigPathError::CanonicalizeAllowed(e)) => PathVerdict::CanonicalizeAllowed(e@),
        Err(KubeconfigPathError::NotAllowed) => PathVerdict::NotAllowed,
    }
}

/// Decides whether a kubeconfig may be used: it must exist, be a file and canonicalize; then
/// it is accepted when it equals the canonical form of an allowed path (scanned in order, the
/// first that fails to canonicalize ending the scan), or when no path is listed at all.
/// `allowed` holds the canonical form of each allowed path, or why it has none.
pub fn validate_kubeconfig_path(facts: &PathFacts, allowed: &Vec<Result<String, String>>) -> (r:
    Result<(), KubeconfigPathError>)
    ensures
        verdict_of(r) == path_verdict(*facts, allowed@),
{
    if !facts.exists {
        return Err(KubeconfigPathError::NotFound);
    }
    if !facts.is_file {
        return Err(KubeconfigPathError::NotAFile);
    }
    let canonical = match &facts.canonical {
        Ok(c) => c,
        Err(e) => {
            return Err(KubeconfigPathError::Canonicalize(e.clone()));
        },
    };
    let mut i: usize = 0;
    assert(allowed@.skip(0) =~= allowed@);
    while i < allowed.len()
        invariant
            i <= allowed@.len(),
            facts.exists && facts.is_file,
            facts.canonical == Ok::<String, String>(*canonical),
            first_allowed_decision(canonical@, allowed@) == first_allowed_decision(
                canonical@,
                allowed@.skip(i as int),
            ),
        decreases allowed.len() - i,
    {
        assert(allowed@.skip(i as int).drop_first() =~= allowed@.skip(i + 1));
        assert(allowed@.skip(i as int)[0] == allowed@[i as int]);
        match &allowed[i] {
            Err(e) => {
                return Err(KubeconfigPathError::CanonicalizeAllowed(e.clone()));
            },
            Ok(a) => {
                if str_eq(a.as_str(), canonical.as_str()) {
                    return Ok(());
                }
            },
        }
        i = i + 1;
    }
    assert(allowed@.skip(i as int) =~= Seq::<Result<String, String>>::empty());
    if allowed.len() == 0 {
        Ok(())
    } else {
        Err(KubeconfigPathError::NotAllowed)
    }
}

/// The credentials a kubeconfig embeds, each named once, in a fixed order.
pub open spec fn credential_issues(content: Seq<char>) -> Seq<Seq<char>> {
    (if contains(content, "password:"@) {
        seq!["embedded password"@]
    } else {
        Seq::empty()
    }) + (if contains(content, "token:"@) {
        seq!["embedded token"@]
    } else {
        Seq::empty()
    }) + (if contains(content, "client-secret:"@) {
        seq!["embedded client secret"@]
    } else {
        Seq::empty()
    }) + (if contains(content, "aws_access_key"@) {
        seq!["AWS credentials"@]
    } else {
        Seq::empty()
    })
}

/// Names the credentials embedded in kubeconfig text.
pub fn check_embedded_credentials(content: &str) -> (issues: Vec<String>)
    ensures
        strings_view(issues@) == credential_issues(content@),
{
    let mut issues: Vec<String> = Vec::new();
    if str_contains(content, "password:") {
        push_string(&mut issues, "embedded password");
    }
    if str_contains(content, "token:") {
        push_string(&mut issues, "embedded token");
    }
    if str_contains(content, "client-secret:") {
        push_string(&mut issues, "embedded client secret");
    }
    if str_contains(content, "aws_access_key") {
        push_string(&mut issues, "AWS credentials");
    }
    assert(strings_view(issues@) =~= credential_issues(content@));
    issues
}

/// A credential key starts at position `i` of kubeconfig text.
pub open spec fn credential_key_at(s: Seq<char>, i: int) -> bool {
    ||| matches_at(s, "password:"@, i)
    ||| matches_at(s, "token:"@, i)
    ||| matches_at(s, "client-secret:"@, i)
    ||| matches_at(s, "aws_access_key"@, i)
    ||| matches_at(s, "aws_secret_key"@, i)
}

/// The end of the line that holds position `j`: the index of the next line break at or after
/// `j`, or the end of the text.
pub open spec fn line_end(s: Seq<char>, j: nat) -> nat
    decreases s.len() - j,
{
    if j >= s.len() {
        s.len()
    } else if s[j as int] == '\n' {
        j
    } else {
        line_end(s, j + 1)
    }
}

/// Kubeconfig text from position `i` on, fit for a log: wherever a credential key starts, the
/// key and the rest of its line (the secret) are replaced by `[REDACTED]`; the line break and
/// the other lines stay.
pub open spec fn redacted_from(s: Seq<char>, i: nat) -> Seq<char>
    decreases s.len() - i,
{
    if i >= s.len() {
        Seq::empty()
    } else if credential_key_at(s, i as int) {
        let e = line_end(s, i + 1);
        if i < e <= s.len() {
            "[REDACTED]"@ + redacted_from(s, e)
        } else {
            "[REDACTED]"@
        }
    } else {
        seq![s[i as int]] + redacted_from(s, i + 1)
    }
}

/// Kubeconfig text fit for a log: every credential key and the secret after it on its line are
/// replaced by `[REDACTED]`.
pub open spec fn sanitized(content: Seq<char>) -> Seq<char> {
    redacted_from(content, 0)
}

proof fn lemma_line_end_bounds(s: Seq<char>, j: nat)
    ensures
        j <= s.len() ==> j <= line_end(s, j) <= s.len(),
    decreases s.len() - j,
{
    if j < s.len() && s[j as int] != '\n' {
        lemma_line_end_bounds(s, j + 1);
    }
}

/// The end of the line that holds position `j`.
fn line_end_index(v: &[char], j: usize) -> (e: usize)
    requires
        j <= v@.len(),
    ensures
        e == line_end(v@, j as nat),
{
    let mut k = j;
    while k < v.len() && v[k] != '\n'
        invariant
            j <= k <= v@.len(),
            line_end(v@, j as nat) == line_end(v@, k as nat),
        decreases v@.len() - k,
    {
        k = k + 1;
    }
    k
}

/// Kubeconfig text fit for a log.
pub fn sanitize_for_logging(content: &str) -> (r: String)
    ensures
        r@ == sanitized(content@),
{
    let v = to_chars(content);
    let password = to_chars("password:");
    let token = to_chars("token:");
    let client_secret = to_chars("client-secret:");
    let access_key = to_chars("aws_access_key");
    let secret_key = to_chars("aws_secret_key");
    let mut out: Vec<char> = Vec::new();
    let mut i: usize = 0;
    assert(out@ + redacted_from(v@, 0) =~= sanitized(content@));
    while i < v.len()
        invariant
            v@ == content@,
            password@ == "password:"@,
            token@ == "token:"@,
            client_secret@ == "client-secret:"@,
            access_key@ == "aws_access_key"@,
            secret_key@ == "aws_secret_key"@,
            i <= v@.len(),
            out@ + redacted_from(v@, i as nat) == sanitized(content@),
        decreases v@.len() - i,
    {
        let at_key = matches_at_chars(v.as_slice(), password.as_slice(), i)
            || matches_at_chars(v.as_slice(), token.as_slice(), i)
            || matches_at_chars(v.as_slice(), client_secret.as_slice(), i)
            || matches_at_chars(v.as_slice(), access_key.as_slice(), i)
            || matches_at_chars(v.as_slice(), secret_key.as_slice(), i);
        let ghost before = out@;
        if at_key {
            let e = line_end_index(v.as_slice(), i + 1);
            proof {
                lemma_line_end_bounds(v@, (i + 1) as nat);
            }
            extend_str(&mut out, "[REDACTED]");
            assert(out@ + redacted_from(v@, e as nat) =~= before + redacted_from(v@, i as nat));
            i = e;
        } else {
            out.push(v[i]);
            assert(out@ + redacted_from(v@, (i + 1) as nat) =~= before + redacted_from(
                v@,
                i as nat,
            ));
            i = i + 1;
        }
    }
    assert(out@ =~= sanitized(content@));
    from_chars(out.as_slice())
}

proof fn lemma_no_key_kept(s: Seq<char>, i: nat)
    requires
        forall|j: int| 0 <= j ==> !credential_key_at(s, j),
    ensures
        redacted_from(s, i) == (if i <= s.len() { s.skip(i as int) } else { Seq::empty() }),
    decreases s.len() - i,
{
    if i < s.len() {
        lemma_no_key_kept(s, i + 1);
        assert(seq![s[i as int]] + s.skip(i + 1int) =~= s.skip(i as int));
    } else if i == s.len() {
        assert(s.skip(i as int) =~= Seq::<char>::empty());
    }
}

/// Sanitizing leaves alone kubeconfig text that embeds no credential: text in which the
/// credential check finds nothing, and that holds no `aws_secret_key`, is logged as it is.
pub proof fn clean_kubeconfig_is_logged_unchanged(content: Seq<char>)
    requires
        credential_issues(content).len() == 0,
        !contains(content, "aws_secret_key"@),
    ensures
        sanitized(content) == content,
{
    assert(!contains(content, "password:"@));
    assert(!contains(content, "token:"@));
    assert(!contains(content, "client-secret:"@));
    assert(!contains(content, "aws_access_key"@));
    lemma_find_from_props(content, "password:"@, 0);
    lemma_find_from_props(content, "token:"@, 0);
    lemma_find_from_props(content, "client-secret:"@, 0);
    lemma_find_from_props(content, "aws_access_key"@, 0);
    lemma_find_from_props(content, "aws_secret_key"@, 0);
    lemma_no_key_kept(content, 0);
    assert(content.skip(0) =~= content);
}

} // verus!
