//! WebAuthn virtual-authenticator credentials: options and the parameters
//! of the `credentialsCreate` and `credentialsGet` requests.

use vstd::prelude::*;
use crate::text::owned;

verus! {

/// A virtual WebAuthn credential (passkey) held by the virtual authenticator.
#[derive(Debug, Clone)]
pub struct VirtualCredential {
    /// Base64url credential ID.
    pub id: String,
    /// Relying-party ID the credential is scoped to.
    pub rp_id: String,
    /// Base64url user handle (empty when it has none).
    pub user_handle: String,
    /// Base64url-encoded PKCS#8 private key.
    pub private_key: String,
    /// Base64url-encoded public key.
    pub public_key: String,
}

/// Optional fields for creating a credential; the authenticator generates
/// the ones left unset.
#[derive(Debug, Clone)]
pub struct CredentialsCreateOptions {
    pub id: Option<String>,
    pub user_handle: Option<String>,
    pub private_key: Option<String>,
    pub public_key: Option<String>,
}

impl Default for CredentialsCreateOptions {
    fn default() -> (r: CredentialsCreateOptions)
        ensures
            r.id is None && r.user_handle is None && r.private_key is None && r.public_key is None,
    {
        CredentialsCreateOptions { id: None, user_handle: None, private_key: None, public_key: None }
    }
}

/// The view of an optional string.
pub open spec fn opt_view(o: Option<String>) -> Option<Seq<char>> {
    match o {
        Some(s) => Some(s@),
        None => None,
    }
}

impl CredentialsCreateOptions {
    /// Sets an explicit credential ID.
    pub fn id(self, id: &str) -> (r: Self)
        ensures
            opt_view(r.id) == Some(id@),
            r.user_handle == self.user_handle && r.private_key == self.private_key && r.public_key
                == self.public_key,
    {
        CredentialsCreateOptions { id: Some(owned(id)), ..self }
    }

    /// Sets the user handle.
    pub fn user_handle(self, user_handle: &str) -> (r: Self)
        ensures
            opt_view(r.user_handle) == Some(user_handle@),
            r.id == self.id && r.private_key == self.private_key && r.public_key == self.public_key,
    {
        CredentialsCreateOptions { user_handle: Some(owned(user_handle)), ..self }
    }

    /// Imports a specific private key.
    pub fn private_key(self, private_key: &str) -> (r: Self)
        ensures
            opt_view(r.private_key) == Some(private_key@),
            r.id == self.id && r.user_handle == self.user_handle && r.public_key == self.public_key,
    {
        CredentialsCreateOptions { private_key: Some(owned(private_key)), ..self }
    }

    /// Imports a specific public key.
    pub fn public_key(self, public_key: &str) -> (r: Self)
        ensures
            opt_view(r.public_key) == Some(public_key@),
            r.id == self.id && r.user_handle == self.user_handle && r.private_key
                == self.private_key,
    {
        CredentialsCreateOptions { public_key: Some(owned(public_key)), ..self }
    }
}

/// Filters for listing credentials; unset filters match everything.
#[derive(Debug, Clone)]
pub struct CredentialsGetOptions {
    pub rp_id: Option<String>,
    pub id: Option<String>,
}

impl Default for CredentialsGetOptions {
    fn default() -> (r: CredentialsGetOptions)
        ensures
            r.rp_id is None && r.id is None,
    {
        CredentialsGetOptions { rp_id: None, id: None }
    }
}

impl CredentialsGetOptions {
    /// Filters by relying-party ID.
    pub fn rp_id(self, rp_id: &str) -> (r: Self)
        ensures
            opt_view(r.rp_id) == Some(rp_id@),
            r.id == self.id,
    {
        CredentialsGetOptions { rp_id: Some(owned(rp_id)), ..self }
    }

    /// Filters by credential ID.
    pub fn id(self, id: &str) -> (r: Self)
        ensures
            opt_view(r.id) == Some(id@),
            r.rp_id == self.rp_id,
    {
        CredentialsGetOptions { id: Some(owned(id)), ..self }
    }
}

/// The view of a list of request parameters.
pub open spec fn params_view(v: Seq<(&'static str, String)>) -> Seq<(Seq<char>, Seq<char>)> {
    v.map_values(|p: (&'static str, String)| (p.0@, p.1@))
}

/// One parameter when the value is set, none otherwise.
pub open spec fn opt_param(key: Seq<char>, v: Option<String>) -> Seq<(Seq<char>, Seq<char>)> {
    match v {
        Some(s) => seq![(key, s@)],
        None => Seq::empty(),
    }
}

/// The `credentialsCreate` parameters: `rpId`, then each option that is set.
pub open spec fn create_params_spec(rp_id: Seq<char>, o: Option<CredentialsCreateOptions>) -> Seq<
    (Seq<char>, Seq<char>),
> {
    seq![("rpId"@, rp_id)] + match o {
        None => Seq::empty(),
        Some(o) => opt_param("id"@, o.id) + opt_param("userHandle"@, o.user_handle) + opt_param(
            "privateKey"@,
            o.private_key,
        ) + opt_param("publicKey"@, o.public_key),
    }
}

fn push_opt(v: &mut Vec<(&'static str, String)>, key: &'static str, value: Option<String>)
    ensures
        params_view(final(v)@) == params_view(old(v)@) + opt_param(key@, value),
{
    let ghost before = params_view(v@);
    match value {
        Some(s) => {
            v.push((key, s));
        },
        None => {},
    }
    assert(params_view(v@) =~= before + opt_param(key@, value));
}

/// The parameters of a `credentialsCreate` request.
pub fn create_params(rp_id: &str, options: Option<CredentialsCreateOptions>) -> (r: Vec<
    (&'static str, String),
>)
    ensures
        params_view(r@) == create_params_spec(rp_id@, options),
{
    let mut v: Vec<(&'static str, String)> = Vec::new();
    v.push(("rpId", owned(rp_id)));
    let ghost first = params_view(v@);
    assert(first =~= seq![("rpId"@, rp_id@)]);
    match options {
        None => {
            assert(params_view(v@) =~= create_params_spec(rp_id@, options));
        },
        Some(o) => {
            let ghost oo = o;
            push_opt(&mut v, "id", o.id);
            push_opt(&mut v, "userHandle", o.user_handle);
            push_opt(&mut v, "privateKey", o.private_key);
            push_opt(&mut v, "publicKey", o.public_key);
            assert(params_view(v@) =~= create_params_spec(rp_id@, Some(oo)));
        },
    }
    v
}

/// The `credentialsGet` parameters: each filter that is set.
pub open spec fn get_params_spec(o: Option<CredentialsGetOptions>) -> Seq<(Seq<char>, Seq<char>)> {
    match o {
        None => Seq::empty(),
        Some(o) => opt_param("rpId"@, o.rp_id) + opt_param("id"@, o.id),
    }
}

/// The parameters of a `credentialsGet` request.
pub fn get_params(options: Option<CredentialsGetOptions>) -> (r: Vec<(&'static str, String)>)
    ensures
        params_view(r@) == get_params_spec(options),
{
    let mut v: Vec<(&'static str, String)> = Vec::new();
    match options {
        None => {
            assert(params_view(v@) =~= get_params_spec(options));
        },
        Some(o) => {
            let ghost oo = o;
            assert(params_view(v@) =~= Seq::<(Seq<char>, Seq<char>)>::empty());
            push_opt(&mut v, "rpId", o.rp_id);
            push_opt(&mut v, "id", o.id);
            assert(params_view(v@) =~= get_params_spec(Some(oo)));
        },
    }
    v
}

} // verus!
