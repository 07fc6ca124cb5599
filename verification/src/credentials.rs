//! Credentials in the secret store: how each is addressed, what is asked of
//! the store for a request, and what the store's answer means.

use crate::digest::{
    hex_encode,
    hex_text,
    lemma_hex_text_injective,
    lemma_hex_text_len,
    lemma_hex_text_no_colon,
    sha256,
    sha256_digest,
};
use crate::project::{located_root, no_project_text, resolve_project_root};
use crate::text::{blank, is_blank, opt_as_str, opt_str_text, opt_text, texts, trim, trimmed};
use vstd::prelude::*;
use vstd::utf8::encode_utf8;

verus! {

/// The target that a credential belongs to.
#[derive(Clone, Copy, Debug, PartialEq, Eq, Structural)]
pub enum CredentialTarget {
    Ftp,
    Netlify,
    Vercel,
    Git,
}

/// What sort of secret a credential is.
#[derive(Clone, Copy, Debug, PartialEq, Eq, Structural)]
pub enum CredentialKind {
    Password,
    Token,
}

impl CredentialTarget {
    /// The name of the target in a credential key.
    pub open spec fn name(&self) -> Seq<char> {
        match self {
            CredentialTarget::Ftp => "ftp"@,
            CredentialTarget::Netlify => "netlify"@,
            CredentialTarget::Vercel => "vercel"@,
            CredentialTarget::Git => "git"@,
        }
    }

    /// The name of the target in a credential key.
    pub fn as_str(&self) -> (s: &'static str)
        ensures
            s@ == self.name(),
    {
        match self {
            CredentialTarget::Ftp => "ftp",
            CredentialTarget::Netlify => "netlify",
            CredentialTarget::Vercel => "vercel",
            CredentialTarget::Git => "git",
        }
    }
}

impl CredentialKind {
    /// The name of the kind in a credential key.
    pub open spec fn name(&self) -> Seq<char> {
        match self {
            CredentialKind::Password => "password"@,
            CredentialKind::Token => "token"@,
        }
    }

    /// The name of the kind in a credential key.
    pub fn as_str(&self) -> (s: &'static str)
        ensures
            s@ == self.name(),
    {
        match self {
            CredentialKind::Password => "password",
            CredentialKind::Token => "token",
        }
    }
}

/// A request to read or delete a credential.
#[derive(Debug)]
pub struct CredentialRequest {
    pub file_path: String,
    pub target: CredentialTarget,
    pub profile: Option<String>,
    pub kind: CredentialKind,
}

/// A request to store a credential.
#[derive(Debug)]
pub struct CredentialSetRequest {
    pub file_path: String,
    pub target: CredentialTarget,
    pub profile: Option<String>,
    pub kind: CredentialKind,
    pub value: String,
}

/// The profile's place in a key: its name, or `default` where none is given.
pub open spec fn profile_part(profile: Option<Seq<char>>) -> Seq<char> {
    match profile {
        Some(name) => name,
        None => "default"@,
    }
}

/// The project's place in a key: the digest of its root path, in
/// hexadecimal notation.
pub open spec fn root_part(project_root: Seq<char>) -> Seq<char> {
    hex_text(sha256_digest(encode_utf8(project_root)))
}

/// The start of a key: the names of target and kind, each followed by a
/// colon.
pub open spec fn key_head(target: CredentialTarget, kind: CredentialKind) -> Seq<char> {
    target.name() + ":"@ + kind.name() + ":"@
}

/// The key under which a credential lies in the secret store:
/// `target:kind:profile:digest`.
pub open spec fn key_text(
    project_root: Seq<char>,
    target: CredentialTarget,
    profile: Option<Seq<char>>,
    kind: CredentialKind,
) -> Seq<char> {
    key_head(target, kind) + profile_part(profile) + ":"@ + root_part(project_root)
}

/// The number of hexadecimal digits that stand for the project in a key.
pub open spec fn root_part_len() -> nat {
    64
}

/// Derives the key under which a credential lies in the secret store. The
/// project's part of it has 64 hexadecimal digits.
pub fn credential_key(
    project_root: &str,
    target: CredentialTarget,
    profile: Option<&str>,
    kind: CredentialKind,
) -> (key: String)
    ensures
        key@ == key_text(project_root@, target, opt_str_text(profile), kind),
        root_part(project_root@).len() == root_part_len(),
        key@.len() == key_head(target, kind).len() + profile_part(opt_str_text(profile)).len() + 1
            + root_part_len(),
{
    let digest = sha256(project_root.as_bytes());
    let hash = hex_encode(&digest);
    proof {
        lemma_hex_text_len(digest@);
    }
    let profile_name = match profile {
        Some(name) => name,
        None => "default",
    };
    let mut key = String::from_str(target.as_str());
    key.append(":");
    key.append(kind.as_str());
    key.append(":");
    key.append(profile_name);
    key.append(":");
    key.append(hash.as_str());
    proof {
        reveal_strlit(":");
    }
    key
}

proof fn lemma_key_head(target: CredentialTarget, kind: CredentialKind)
    ensures
        key_head(target, kind).len() == target.name().len() + kind.name().len() + 2,
        key_head(target, kind)[0] == target.name()[0],
        key_head(target, kind)[target.name().len() as int + 1] == kind.name()[0],
        target.name().len() >= 3,
        kind.name().len() >= 5,
        target.name()[0] == match target {
            CredentialTarget::Ftp => 'f',
            CredentialTarget::Netlify => 'n',
            CredentialTarget::Vercel => 'v',
            CredentialTarget::Git => 'g',
        },
        kind.name()[0] == match kind {
            CredentialKind::Password => 'p',
            CredentialKind::Token => 't',
        },
{
    reveal_strlit("ftp");
    reveal_strlit("netlify");
    reveal_strlit("vercel");
    reveal_strlit("git");
    reveal_strlit("password");
    reveal_strlit("token");
    reveal_strlit(":");
}

/// Two keys are equal exactly when they agree in target, kind, profile
/// part and project digest. So the same inputs give the same key, and a
/// key changes with the target, with the kind, with the profile (where
/// `default` stands for no profile), and with the project root as far as
/// the digest tells roots apart.
pub proof fn lemma_key_injective(
    root_a: Seq<char>,
    target_a: CredentialTarget,
    profile_a: Option<Seq<char>>,
    kind_a: CredentialKind,
    root_b: Seq<char>,
    target_b: CredentialTarget,
    profile_b: Option<Seq<char>>,
    kind_b: CredentialKind,
)
    ensures
        key_text(root_a, target_a, profile_a, kind_a) == key_text(
            root_b,
            target_b,
            profile_b,
            kind_b,
        ) <==> {
            &&& target_a == target_b
            &&& kind_a == kind_b
            &&& profile_part(profile_a) == profile_part(profile_b)
            &&& sha256_digest(encode_utf8(root_a)) == sha256_digest(encode_utf8(root_b))
        },
{
    let ka = key_text(root_a, target_a, profile_a, kind_a);
    let kb = key_text(root_b, target_b, profile_b, kind_b);
    if ka == kb {
        reveal_strlit(":");
        lemma_key_head(target_a, kind_a);
        lemma_key_head(target_b, kind_b);
        let ha = key_head(target_a, kind_a);
        let hb = key_head(target_b, kind_b);
        assert(ka[0] == ha[0]);
        assert(kb[0] == hb[0]);
        assert(target_a == target_b);
        let at = target_a.name().len() as int + 1;
        assert(ka[at] == ha[at]);
        assert(kb[at] == hb[at]);
        assert(kind_a == kind_b);
        let pa = profile_part(profile_a);
        let pb = profile_part(profile_b);
        let h = ha.len() as int;
        let xa = root_part(root_a);
        let xb = root_part(root_b);
        let n = ka.len() as int;
        assert(n == h + pa.len() + 1 + xa.len());
        assert(n == h + pb.len() + 1 + xb.len());
        assert(ka[n - xa.len() - 1] == ':');
        assert(kb[n - xb.len() - 1] == ':');
        if xa.len() < xb.len() {
            let i = n - xa.len() - 1;
            assert(kb[i] == xb[i - (n - xb.len())]);
            lemma_hex_text_no_colon(sha256_digest(encode_utf8(root_b)), i - (n - xb.len()));
        }
        if xb.len() < xa.len() {
            let i = n - xb.len() - 1;
            assert(ka[i] == xa[i - (n - xa.len())]);
            lemma_hex_text_no_colon(sha256_digest(encode_utf8(root_a)), i - (n - xa.len()));
        }
        assert(xa.len() == xb.len());
        assert(pa =~= ka.subrange(h, h + pa.len()));
        assert(pb =~= kb.subrange(h, h + pb.len()));
        assert(xa =~= ka.subrange(n - xa.len(), n));
        assert(xb =~= kb.subrange(n - xb.len(), n));
        lemma_hex_text_injective(
            sha256_digest(encode_utf8(root_a)),
            sha256_digest(encode_utf8(root_b)),
        );
    }
}

/// The namespace of this application in the secret store.
pub const SERVICE: &'static str = "ernest";

/// What is asked of the secret store.
#[derive(Debug)]
pub enum VaultCommand {
    Read { key: String },
    Write { key: String, value: String },
    Delete { key: String },
}

/// A command to the secret store, as text.
pub enum VaultOp {
    Read { key: Seq<char> },
    Write { key: Seq<char>, value: Seq<char> },
    Delete { key: Seq<char> },
}

impl View for VaultCommand {
    type V = VaultOp;

    open spec fn view(&self) -> VaultOp {
        match self {
            VaultCommand::Read { key } => VaultOp::Read { key: key@ },
            VaultCommand::Write { key, value } => VaultOp::Write { key: key@, value: value@ },
            VaultCommand::Delete { key } => VaultOp::Delete { key: key@ },
        }
    }
}

/// Why the secret store did not do what was asked. `no_entry` tells that
/// nothing lies under the key; `message` is the store's own text.
#[derive(Debug)]
pub struct VaultError {
    pub no_entry: bool,
    pub message: String,
}

/// What to ask of the store in order to read a credential of the project
/// that the probes found: the value under the credential's key. Without a
/// project there is nothing to ask.
pub fn lookup_credential(
    candidates: &Vec<String>,
    has_config: &Vec<bool>,
    target: CredentialTarget,
    profile: Option<&str>,
    kind: CredentialKind,
) -> (r: Result<VaultCommand, String>)
    ensures
        match located_root(texts(candidates@), has_config@) {
            Some(root) => r is Ok && r->Ok_0@ == (VaultOp::Read {
                key: key_text(root, target, opt_str_text(profile), kind),
            }),
            None => r is Err && r->Err_0@ == no_project_text(),
        },
{
    match resolve_project_root(candidates, has_config) {
        Ok(root) => Ok(
            VaultCommand::Read { key: credential_key(root.as_str(), target, profile, kind) },
        ),
        Err(e) => Err(e),
    }
}

/// What to ask of the store for a request to read a credential.
pub fn get_credential(
    request: &CredentialRequest,
    candidates: &Vec<String>,
    has_config: &Vec<bool>,
) -> (r: Result<VaultCommand, String>)
    ensures
        match located_root(texts(candidates@), has_config@) {
            Some(root) => r is Ok && r->Ok_0@ == (VaultOp::Read {
                key: key_text(
                    root,
                    request.target,
                    opt_text(request.profile),
                    request.kind,
                ),
            }),
            None => r is Err && r->Err_0@ == no_project_text(),
        },
{
    lookup_credential(
        candidates,
        has_config,
        request.target,
        opt_as_str(&request.profile),
        request.kind,
    )
}

/// The message for a value that is empty or white space only.
pub open spec fn empty_value_text() -> Seq<char> {
    "Credential value is empty"@
}

/// What to ask of the store for a request to store a credential: to put
/// the value, without the white space around it, under the credential's
/// key. A blank value is refused first, then a document without a project.
pub fn set_credential(
    request: &CredentialSetRequest,
    candidates: &Vec<String>,
    has_config: &Vec<bool>,
) -> (r: Result<VaultCommand, String>)
    ensures
        is_blank(request.value@) ==> r is Err && r->Err_0@ == empty_value_text(),
        !is_blank(request.value@) ==> match located_root(texts(candidates@), has_config@) {
            Some(root) => r is Ok && r->Ok_0@ == (VaultOp::Write {
                key: key_text(
                    root,
                    request.target,
                    opt_text(request.profile),
                    request.kind,
                ),
                value: trimmed(request.value@),
            }),
            None => r is Err && r->Err_0@ == no_project_text(),
        },
{
    if blank(request.value.as_str()) {
        return Err(String::from_str("Credential value is empty"));
    }
    match resolve_project_root(candidates, has_config) {
        Ok(root) => {
            let key = credential_key(
                root.as_str(),
                request.target,
                opt_as_str(&request.profile),
                request.kind,
            );
            Ok(VaultCommand::Write { key, value: trim(request.value.as_str()) })
        },
        Err(e) => Err(e),
    }
}

/// What to ask of the store for a request to delete a credential.
pub fn delete_credential(
    request: &CredentialRequest,
    candidates: &Vec<String>,
    has_config: &Vec<bool>,
) -> (r: Result<VaultCommand, String>)
    ensures
        match located_root(texts(candidates@), has_config@) {
            Some(root) => r is Ok && r->Ok_0@ == (VaultOp::Delete {
                key: key_text(
                    root,
                    request.target,
                    opt_text(request.profile),
                    request.kind,
                ),
            }),
            None => r is Err && r->Err_0@ == no_project_text(),
        },
{
    match resolve_project_root(candidates, has_config) {
        Ok(root) => {
            let key = credential_key(
                root.as_str(),
                request.target,
                opt_as_str(&request.profile),
                request.kind,
            );
            Ok(VaultCommand::Delete { key })
        },
        Err(e) => Err(e),
    }
}

/// What the store's answer to a read means: the value, or none where
/// nothing lies under the key, which is no error; any other failure is
/// passed on with the store's text.
pub fn lookup_outcome(reply: Result<String, VaultError>) -> (r: Result<Option<String>, String>)
    ensures
        match reply {
            Ok(value) => r == Ok::<Option<String>, String>(Some(value)),
            Err(e) => if e.no_entry {
                r == Ok::<Option<String>, String>(None)
            } else {
                r == Err::<Option<String>, String>(e.message)
            },
        },
{
    match reply {
        Ok(value) => Ok(Some(value)),
        Err(e) => if e.no_entry {
            Ok(None)
        } else {
            Err(e.message)
        },
    }
}

/// What the store's answer to a write means: any failure is passed on with
/// the store's text.
pub fn store_outcome(reply: Result<(), VaultError>) -> (r: Result<(), String>)
    ensures
        match reply {
            Ok(_) => r is Ok,
            Err(e) => r == Err::<(), String>(e.message),
        },
{
    match reply {
        Ok(_) => Ok(()),
        Err(e) => Err(e.message),
    }
}

/// What the store's answer to a deletion means: done, also where nothing
/// lay under the key; any other failure is passed on with the store's text.
pub fn delete_outcome(reply: Result<(), VaultError>) -> (r: Result<(), String>)
    ensures
        match reply {
            Ok(_) => r is Ok,
            Err(e) => if e.no_entry {
                r is Ok
            } else {
                r == Err::<(), String>(e.message)
            },
        },
{
    match reply {
        Ok(_) => Ok(()),
        Err(e) => if e.no_entry {
            Ok(())
        } else {
            Err(e.message)
        },
    }
}

/// A secret store that keeps one value for each key: what it holds after
/// `op`.
pub open spec fn store_after(store: Map<Seq<char>, Seq<char>>, op: VaultOp) -> Map<
    Seq<char>,
    Seq<char>,
> {
    match op {
        VaultOp::Read { key } => store,
        VaultOp::Write { key, value } => store.insert(key, value),
        VaultOp::Delete { key } => store.remove(key),
    }
}

/// What such a store holds under `key`, if anything.
pub open spec fn store_holds(store: Map<Seq<char>, Seq<char>>, key: Seq<char>) -> Option<
    Seq<char>,
> {
    if store.contains_key(key) {
        Some(store[key])
    } else {
        None
    }
}

/// In a store that keeps one value for each key, a credential that was
/// stored is read back as the value without the white space around it, and
/// one that was deleted is read back as absent.
pub proof fn lemma_store_round_trip(
    store: Map<Seq<char>, Seq<char>>,
    project_root: Seq<char>,
    target: CredentialTarget,
    profile: Option<Seq<char>>,
    kind: CredentialKind,
    value: Seq<char>,
)
    ensures
        ({
            let key = key_text(project_root, target, profile, kind);
            let written = store_after(store, VaultOp::Write { key, value: trimmed(value) });
            store_holds(store_after(written, VaultOp::Read { key }), key) == Some(trimmed(value))
        }),
        ({
            let key = key_text(project_root, target, profile, kind);
            let deleted = store_after(store, VaultOp::Delete { key });
            store_holds(store_after(deleted, VaultOp::Read { key }), key) is None
        }),
{
}

/// In a store that keeps one value for each key, deleting a credential
/// that is absent changes nothing, and deleting twice is deleting once.
pub proof fn lemma_delete_idempotent(store: Map<Seq<char>, Seq<char>>, key: Seq<char>)
    ensures
        !store.contains_key(key) ==> store_after(store, VaultOp::Delete { key }) == store,
        store_after(store_after(store, VaultOp::Delete { key }), VaultOp::Delete { key })
            == store_after(store, VaultOp::Delete { key }),
{
    let once = store_after(store, VaultOp::Delete { key });
    assert(store_after(once, VaultOp::Delete { key }) =~= once);
    if !store.contains_key(key) {
        assert(once =~= store);
    }
}

} // verus!
