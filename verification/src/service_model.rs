//! An in-memory model of the service's identity-configuration and
//! client-secret semantics, on a non-premium tier: attach refuses an
//! identity that is already configured, revoke is an idempotent no-op on
//! an already-revoked identity, retrieval reproduces the attached limits
//! exactly, trusted-IP lists always come back as the two canonical
//! defaults whatever a request carried, and a client secret's plaintext
//! exists only in the creation answer — the stored record keeps metadata
//! alone. The protocol-level laws the client relies on are stated and
//! proved against this model.

use vstd::prelude::*;

use crate::api_response::ApiResponse;
use crate::secret_guard::SecretGuard;
use crate::universal_auth::IdentityConfigRequestData;
use crate::utils::{
    dec_str, lemma_append_cancels_prefix, lemma_dec_str_injective, lemma_dec_str_nonempty,
    default_access_token_trusted_ip_form_data_vectors,
    default_client_secret_trusted_ip_form_data_vectors, default_trusted_ips_view, u64_to_string,
    IndentityUniversalAuth, IndentityUniversalAuthData, UniversalAuthClientSecret,
    UniversalAuthClientSecretData,
};

verus! {

// ------------------------------------------------------------------
// Association sequences: the model's store

/// The value the last entry with the given key holds, if any.
pub open spec fn assoc_lookup<T>(s: Seq<(String, T)>, key: Seq<char>) -> Option<T>
    decreases s.len(),
{
    if s.len() == 0 {
        None
    } else if s.last().0@ == key {
        Some(s.last().1)
    } else {
        assoc_lookup(s.drop_last(), key)
    }
}

/// The sequence without every entry of the given key, order otherwise
/// kept.
pub open spec fn assoc_remove<T>(s: Seq<(String, T)>, key: Seq<char>) -> Seq<(String, T)>
    decreases s.len(),
{
    if s.len() == 0 {
        s
    } else {
        let rest = assoc_remove(s.drop_last(), key);
        if s.last().0@ == key {
            rest
        } else {
            rest.push(s.last())
        }
    }
}

/// A key found at the last matching position determines the lookup.
proof fn lemma_assoc_lookup_at<T>(s: Seq<(String, T)>, key: Seq<char>, i: int)
    requires
        0 <= i < s.len(),
        s[i].0@ == key,
        forall|j: int| i < j < s.len() ==> s[j].0@ != key,
    ensures
        assoc_lookup(s, key) == Some(s[i].1),
    decreases s.len(),
{
    if i == s.len() - 1 {
    } else {
        lemma_assoc_lookup_at(s.drop_last(), key, i);
    }
}

/// With no entry of the key, the lookup is empty.
proof fn lemma_assoc_lookup_none<T>(s: Seq<(String, T)>, key: Seq<char>)
    requires
        forall|j: int| 0 <= j < s.len() ==> s[j].0@ != key,
    ensures
        assoc_lookup(s, key) is None,
    decreases s.len(),
{
    if s.len() > 0 {
        lemma_assoc_lookup_none(s.drop_last(), key);
    }
}

/// After a removal the key is gone.
pub proof fn lemma_assoc_remove_removes<T>(s: Seq<(String, T)>, key: Seq<char>)
    ensures
        assoc_lookup(assoc_remove(s, key), key) is None,
    decreases s.len(),
{
    if s.len() > 0 {
        lemma_assoc_remove_removes(s.drop_last(), key);
        let rest = assoc_remove(s.drop_last(), key);
        if s.last().0@ != key {
            assert(rest.push(s.last()).drop_last() =~= rest);
            assert(rest.push(s.last()).last() == s.last());
        }
    }
}

/// A removal leaves every other key's lookup unchanged.
pub proof fn lemma_assoc_remove_preserves<T>(s: Seq<(String, T)>, key: Seq<char>, other: Seq<char>)
    requires
        other != key,
    ensures
        assoc_lookup(assoc_remove(s, key), other) == assoc_lookup(s, other),
    decreases s.len(),
{
    if s.len() > 0 {
        lemma_assoc_remove_preserves(s.drop_last(), key, other);
        let rest = assoc_remove(s.drop_last(), key);
        if s.last().0@ != key {
            assert(rest.push(s.last()).drop_last() =~= rest);
            assert(rest.push(s.last()).last() == s.last());
        }
    }
}

/// Removing a key that has no entry changes nothing.
pub proof fn lemma_assoc_remove_absent<T>(s: Seq<(String, T)>, key: Seq<char>)
    requires
        assoc_lookup(s, key) is None,
    ensures
        assoc_remove(s, key) == s,
    decreases s.len(),
{
    if s.len() > 0 {
        lemma_assoc_remove_absent(s.drop_last(), key);
        assert(assoc_remove(s, key) =~= s);
    }
}

/// Removing twice is removing once: the second removal finds nothing
/// left to remove.
pub proof fn lemma_assoc_remove_idempotent<T>(s: Seq<(String, T)>, key: Seq<char>)
    ensures
        assoc_remove(assoc_remove(s, key), key) == assoc_remove(s, key),
{
    lemma_assoc_remove_removes(s, key);
    lemma_assoc_remove_absent(assoc_remove(s, key), key);
}

// ------------------------------------------------------------------
// The stored records

/// What the model keeps per configured identity. The limits are the ones
/// the attach or update carried; the trusted-IP lists are not stored at
/// all — on this tier the service reports the canonical defaults
/// whatever a request said.
pub struct ConfigRecord {
    pub id: String,
    pub client_id: String,
    pub access_token_ttl: u64,
    pub access_token_max_ttl: u64,
    pub access_token_num_uses_limit: u64,
    pub created_at: String,
    pub updated_at: String,
}

/// What the model keeps per client secret: metadata alone. Deliberately
/// no plaintext field — the plaintext exists only in the creation
/// answer, and nothing the model stores can ever return it again.
pub struct SecretRecord {
    pub identity_id: String,
    pub description: String,
    pub prefix: String,
    pub num_uses: u64,
    pub num_uses_limit: u64,
    pub ttl: u64,
    pub revoked: bool,
    pub created_at: String,
    pub updated_at: String,
}

/// Copy a configuration record; the copy equals the original.
fn copy_config_record(r: &ConfigRecord) -> (c: ConfigRecord)
    ensures
        c == *r,
{
    ConfigRecord {
        id: r.id.clone(),
        client_id: r.client_id.clone(),
        access_token_ttl: r.access_token_ttl,
        access_token_max_ttl: r.access_token_max_ttl,
        access_token_num_uses_limit: r.access_token_num_uses_limit,
        created_at: r.created_at.clone(),
        updated_at: r.updated_at.clone(),
    }
}

/// Copy a secret record; the copy equals the original.
fn copy_secret_record(r: &SecretRecord) -> (c: SecretRecord)
    ensures
        c == *r,
{
    SecretRecord {
        identity_id: r.identity_id.clone(),
        description: r.description.clone(),
        prefix: r.prefix.clone(),
        num_uses: r.num_uses,
        num_uses_limit: r.num_uses_limit,
        ttl: r.ttl,
        revoked: r.revoked,
        created_at: r.created_at.clone(),
        updated_at: r.updated_at.clone(),
    }
}

/// Find the index of the last entry with the given key.
fn assoc_find_index<T>(v: &Vec<(String, T)>, key: &String) -> (r: Option<usize>)
    ensures
        match r {
            Some(i) => 0 <= i < v@.len() && v@[i as int].0@ == key@ && (forall|j: int|
                i < j < v@.len() ==> v@[j].0@ != key@),
            None => forall|j: int| 0 <= j < v@.len() ==> v@[j].0@ != key@,
        },
{
    let mut i: usize = v.len();
    while i > 0
        invariant
            i <= v@.len(),
            forall|j: int| i <= j < v@.len() ==> v@[j].0@ != key@,
        decreases i,
    {
        i = i - 1;
        if v[i].0.eq(key) {
            return Some(i);
        }
    }
    None
}

/// Remove every configuration entry with the given key, keeping order.
fn remove_config_entries(v: &Vec<(String, ConfigRecord)>, key: &String) -> (r: Vec<
    (String, ConfigRecord),
>)
    ensures
        r@ == assoc_remove(v@, key@),
{
    let mut out: Vec<(String, ConfigRecord)> = Vec::new();
    let mut i: usize = 0;
    while i < v.len()
        invariant
            i <= v@.len(),
            out@ == assoc_remove(v@.take(i as int), key@),
        decreases v@.len() - i,
    {
        proof {
            assert(v@.take(i as int + 1).drop_last() =~= v@.take(i as int));
            assert(v@.take(i as int + 1).last() == v@[i as int]);
        }
        if !v[i].0.eq(key) {
            let pair = (v[i].0.clone(), copy_config_record(&v[i].1));
            assert(pair == v@[i as int]);
            out.push(pair);
        }
        i = i + 1;
    }
    proof {
        assert(v@.take(v@.len() as int) =~= v@);
    }
    out
}

/// Remove every secret entry with the given key, keeping order.
fn remove_secret_entries(v: &Vec<(String, SecretRecord)>, key: &String) -> (r: Vec<
    (String, SecretRecord),
>)
    ensures
        r@ == assoc_remove(v@, key@),
{
    let mut out: Vec<(String, SecretRecord)> = Vec::new();
    let mut i: usize = 0;
    while i < v.len()
        invariant
            i <= v@.len(),
            out@ == assoc_remove(v@.take(i as int), key@),
        decreases v@.len() - i,
    {
        proof {
            assert(v@.take(i as int + 1).drop_last() =~= v@.take(i as int));
            assert(v@.take(i as int + 1).last() == v@[i as int]);
        }
        if !v[i].0.eq(key) {
            let pair = (v[i].0.clone(), copy_secret_record(&v[i].1));
            assert(pair == v@[i as int]);
            out.push(pair);
        }
        i = i + 1;
    }
    proof {
        assert(v@.take(v@.len() as int) =~= v@);
    }
    out
}

// ------------------------------------------------------------------
// The model service

/// The rejection the model answers an attach on an already-configured
/// identity with.
fn model_conflict_response() -> (r: ApiResponse)
    ensures
        r is BadRequest,
{
    ApiResponse::BadRequest {
        req_id: String::from_str("model"),
        status_code: 400,
        message: String::from_str("configuration already attached"),
        error: String::from_str("bad request"),
    }
}

/// The rejection the model answers a read of something absent with:
/// the missing-resource shape, which carries no request id.
fn model_not_found_response() -> (r: ApiResponse)
    ensures
        r is NotFound,
{
    ApiResponse::NotFound {
        error: String::from_str("not found"),
        message: String::from_str("no such resource"),
        status_code: 404,
    }
}

/// The in-memory service state: the configured identities, the client
/// secrets' metadata, and a counter for fresh ids.
pub struct MockAuthService {
    pub configs: Vec<(String, ConfigRecord)>,
    pub secrets: Vec<(String, SecretRecord)>,
    pub next_id: u64,
}

impl MockAuthService {
    /// A fresh service with nothing configured.
    pub fn new() -> (s: MockAuthService)
        ensures
            s.configs@.len() == 0,
            s.secrets@.len() == 0,
            s.next_id == 0,
    {
        MockAuthService { configs: Vec::new(), secrets: Vec::new(), next_id: 0 }
    }

    /// Attach a configuration to an identity. Refused — state untouched —
    /// when the identity already has one: attaching is not idempotent,
    /// and the refusal is an expected outcome, not a fault. On success
    /// the answer echoes the requested limits and reports the canonical
    /// default trusted-IP lists, whatever the request carried.
    pub fn attach(&mut self, identity_id: &str, data: &IdentityConfigRequestData) -> (r: Result<
        IndentityUniversalAuth,
        ApiResponse,
    >)
        requires
            old(self).next_id < u64::MAX,
        ensures
            r is Ok <==> assoc_lookup(old(self).configs@, identity_id@) is None,
            r matches Err(resp) ==> *final(self) == *old(self) && resp is BadRequest,
            r is Ok ==> final(self).configs@.len() == old(self).configs@.len() + 1 && final(self).configs@.drop_last() == old(self).configs@ && final(self).configs@.last().0@
                == identity_id@ && final(self).configs@.last().1.access_token_ttl
                == data.access_token_ttl && final(self).configs@.last().1.access_token_max_ttl
                == data.access_token_max_ttl && final(self).configs@.last().1.access_token_num_uses_limit == data.access_token_num_uses_limit
                && final(self).secrets@ == old(self).secrets@ && final(self).next_id == old(self).next_id + 1,
            r matches Ok(c) ==> c@.access_token_ttl == data.access_token_ttl
                && c@.access_token_max_ttl == data.access_token_max_ttl
                && c@.access_token_num_uses_limit == data.access_token_num_uses_limit
                && c@.access_token_trusted_ips == default_trusted_ips_view()
                && c@.client_secret_trusted_ips == default_trusted_ips_view() && c@.identity_id
                == identity_id@ && c@.id.len() > 0 && c@.client_id.len() > 0 && c@.created_at.len()
                > 0 && c@.updated_at.len() > 0,
    {
        let key = String::from_str(identity_id);
        match assoc_find_index(&self.configs, &key) {
            Some(i) => {
                proof {
                    lemma_assoc_lookup_at(self.configs@, key@, i as int);
                }
                Err(model_conflict_response())
            },
            None => {
                proof {
                    lemma_assoc_lookup_none(self.configs@, key@);
                    lemma_dec_str_nonempty(self.next_id as nat);
                    reveal_strlit("ua-");
                    reveal_strlit("client-");
                    reveal_strlit("t-");
                }
                let n = self.next_id;
                self.next_id = n + 1;
                let serial = u64_to_string(n);
                let mut id = String::from_str("ua-");
                id.append(serial.as_str());
                let mut client_id = String::from_str("client-");
                client_id.append(serial.as_str());
                let mut stamp = String::from_str("t-");
                stamp.append(serial.as_str());
                let record = ConfigRecord {
                    id: id.clone(),
                    client_id: client_id.clone(),
                    access_token_ttl: data.access_token_ttl,
                    access_token_max_ttl: data.access_token_max_ttl,
                    access_token_num_uses_limit: data.access_token_num_uses_limit,
                    created_at: stamp.clone(),
                    updated_at: stamp.clone(),
                };
                let result = IndentityUniversalAuth {
                    identity_universal_auth: IndentityUniversalAuthData {
                        access_token_max_ttl: data.access_token_max_ttl,
                        access_token_num_uses_limit: data.access_token_num_uses_limit,
                        access_token_ttl: data.access_token_ttl,
                        access_token_trusted_ips:
                            default_access_token_trusted_ip_form_data_vectors(),
                        client_id: SecretGuard::new(client_id),
                        client_secret_trusted_ips:
                            default_client_secret_trusted_ip_form_data_vectors(),
                        created_at: stamp.clone(),
                        id,
                        identity_id: key.clone(),
                        updated_at: stamp,
                    },
                };
                self.configs.push((key, record));
                Ok(result)
            },
        }
    }

    /// Read an identity's configuration. Never mutates; an identity
    /// without one — never configured, or revoked — answers with the
    /// missing-resource shape. The reported limits are exactly the
    /// stored ones, and the trusted-IP lists are always the canonical
    /// defaults.
    pub fn retrieve(&self, identity_id: &str) -> (r: Result<IndentityUniversalAuth, ApiResponse>)
        ensures
            r is Ok <==> assoc_lookup(self.configs@, identity_id@) is Some,
            r matches Ok(c) ==> c@.access_token_ttl == assoc_lookup(
                self.configs@,
                identity_id@,
            ).unwrap().access_token_ttl && c@.access_token_max_ttl == assoc_lookup(
                self.configs@,
                identity_id@,
            ).unwrap().access_token_max_ttl && c@.access_token_num_uses_limit == assoc_lookup(
                self.configs@,
                identity_id@,
            ).unwrap().access_token_num_uses_limit && c@.access_token_trusted_ips
                == default_trusted_ips_view() && c@.client_secret_trusted_ips
                == default_trusted_ips_view() && c@.identity_id == identity_id@ && c@.client_id
                == assoc_lookup(self.configs@, identity_id@).unwrap().client_id@ && c@.id
                == assoc_lookup(self.configs@, identity_id@).unwrap().id@ && c@.created_at
                == assoc_lookup(self.configs@, identity_id@).unwrap().created_at@ && c@.updated_at
                == assoc_lookup(self.configs@, identity_id@).unwrap().updated_at@,
            r matches Err(resp) ==> resp is NotFound,
    {
        let key = String::from_str(identity_id);
        match assoc_find_index(&self.configs, &key) {
            Some(i) => {
                proof {
                    lemma_assoc_lookup_at(self.configs@, key@, i as int);
                }
                let rec = &self.configs[i].1;
                Ok(
                    IndentityUniversalAuth {
                        identity_universal_auth: IndentityUniversalAuthData {
                            access_token_max_ttl: rec.access_token_max_ttl,
                            access_token_num_uses_limit: rec.access_token_num_uses_limit,
                            access_token_ttl: rec.access_token_ttl,
                            access_token_trusted_ips:
                                default_access_token_trusted_ip_form_data_vectors(),
                            client_id: SecretGuard::new(rec.client_id.clone()),
                            client_secret_trusted_ips:
                                default_client_secret_trusted_ip_form_data_vectors(),
                            created_at: rec.created_at.clone(),
                            id: rec.id.clone(),
                            identity_id: key.clone(),
                            updated_at: rec.updated_at.clone(),
                        },
                    },
                )
            },
            None => {
                proof {
                    lemma_assoc_lookup_none(self.configs@, key@);
                }
                Err(model_not_found_response())
            },
        }
    }

    /// Update an identity's existing configuration in place: the
    /// mutation path, which succeeds exactly when a configuration is
    /// attached and replaces its limits with the request's.
    pub fn update(&mut self, identity_id: &str, data: &IdentityConfigRequestData) -> (r: Result<
        IndentityUniversalAuth,
        ApiResponse,
    >)
        ensures
            r is Ok <==> assoc_lookup(old(self).configs@, identity_id@) is Some,
            r matches Err(resp) ==> *final(self) == *old(self) && resp is NotFound,
            r is Ok ==> final(self).configs@.len() == assoc_remove(
                old(self).configs@,
                identity_id@,
            ).len() + 1 && final(self).configs@.drop_last() == assoc_remove(
                old(self).configs@,
                identity_id@,
            ) && final(self).configs@.last().0@ == identity_id@ && final(self).configs@.last().1.access_token_ttl == data.access_token_ttl && final(self).configs@.last().1.access_token_max_ttl == data.access_token_max_ttl && final(self).configs@.last().1.access_token_num_uses_limit == data.access_token_num_uses_limit
                && final(self).secrets@ == old(self).secrets@ && final(self).next_id == old(self).next_id,
            r matches Ok(c) ==> c@.access_token_ttl == data.access_token_ttl
                && c@.access_token_max_ttl == data.access_token_max_ttl
                && c@.access_token_num_uses_limit == data.access_token_num_uses_limit
                && c@.access_token_trusted_ips == default_trusted_ips_view()
                && c@.client_secret_trusted_ips == default_trusted_ips_view() && c@.identity_id
                == identity_id@,
    {
        let key = String::from_str(identity_id);
        match assoc_find_index(&self.configs, &key) {
            Some(i) => {
                proof {
                    lemma_assoc_lookup_at(self.configs@, key@, i as int);
                }
                let old_rec = copy_config_record(&self.configs[i].1);
                let mut stamp = String::from_str("t-");
                stamp.append(u64_to_string(self.next_id).as_str());
                let record = ConfigRecord {
                    id: old_rec.id,
                    client_id: old_rec.client_id.clone(),
                    access_token_ttl: data.access_token_ttl,
                    access_token_max_ttl: data.access_token_max_ttl,
                    access_token_num_uses_limit: data.access_token_num_uses_limit,
                    created_at: old_rec.created_at.clone(),
                    updated_at: stamp.clone(),
                };
                let result = IndentityUniversalAuth {
                    identity_universal_auth: IndentityUniversalAuthData {
                        access_token_max_ttl: data.access_token_max_ttl,
                        access_token_num_uses_limit: data.access_token_num_uses_limit,
                        access_token_ttl: data.access_token_ttl,
                        access_token_trusted_ips:
                            default_access_token_trusted_ip_form_data_vectors(),
                        client_id: SecretGuard::new(old_rec.client_id),
                        client_secret_trusted_ips:
                            default_client_secret_trusted_ip_form_data_vectors(),
                        created_at: old_rec.created_at,
                        id: record.id.clone(),
                        identity_id: key.clone(),
                        updated_at: stamp,
                    },
                };
                let remaining = remove_config_entries(&self.configs, &key);
                self.configs = remaining;
                self.configs.push((key, record));
                Ok(result)
            },
            None => {
                proof {
                    lemma_assoc_lookup_none(self.configs@, key@);
                }
                Err(model_not_found_response())
            },
        }
    }

    /// Revoke an identity's configuration. Always succeeds: revoking an
    /// already-revoked identity is a no-op with the same success
    /// outcome, never an error — the end state, no attached
    /// configuration, is unchanged. The snapshot of the configuration
    /// that was removed comes back when there was one.
    pub fn revoke(&mut self, identity_id: &str) -> (r: Result<
        Option<IndentityUniversalAuth>,
        ApiResponse,
    >)
        ensures
            r is Ok,
            final(self).configs@ == assoc_remove(old(self).configs@, identity_id@),
            final(self).secrets@ == old(self).secrets@,
            r matches Ok(snapshot) ==> (snapshot is Some <==> assoc_lookup(
                old(self).configs@,
                identity_id@,
            ) is Some),
            r matches Ok(snapshot) && snapshot matches Some(c) ==> c@.access_token_ttl
                == assoc_lookup(old(self).configs@, identity_id@).unwrap().access_token_ttl
                && c@.access_token_max_ttl == assoc_lookup(
                old(self).configs@,
                identity_id@,
            ).unwrap().access_token_max_ttl && c@.access_token_num_uses_limit == assoc_lookup(
                old(self).configs@,
                identity_id@,
            ).unwrap().access_token_num_uses_limit && c@.identity_id == identity_id@
                && c@.created_at == assoc_lookup(
                old(self).configs@,
                identity_id@,
            ).unwrap().created_at@ && c@.updated_at == assoc_lookup(
                old(self).configs@,
                identity_id@,
            ).unwrap().updated_at@,
            final(self).next_id == old(self).next_id,
    {
        let key = String::from_str(identity_id);
        match assoc_find_index(&self.configs, &key) {
            Some(i) => {
                proof {
                    lemma_assoc_lookup_at(self.configs@, key@, i as int);
                }
                let rec = &self.configs[i].1;
                let snapshot = IndentityUniversalAuth {
                    identity_universal_auth: IndentityUniversalAuthData {
                        access_token_max_ttl: rec.access_token_max_ttl,
                        access_token_num_uses_limit: rec.access_token_num_uses_limit,
                        access_token_ttl: rec.access_token_ttl,
                        access_token_trusted_ips:
                            default_access_token_trusted_ip_form_data_vectors(),
                        client_id: SecretGuard::new(rec.client_id.clone()),
                        client_secret_trusted_ips:
                            default_client_secret_trusted_ip_form_data_vectors(),
                        created_at: rec.created_at.clone(),
                        id: rec.id.clone(),
                        identity_id: key.clone(),
                        updated_at: rec.updated_at.clone(),
                    },
                };
                let remaining = remove_config_entries(&self.configs, &key);
                self.configs = remaining;
                Ok(Some(snapshot))
            },
            None => {
                proof {
                    lemma_assoc_lookup_none(self.configs@, key@);
                    lemma_assoc_remove_absent(self.configs@, key@);
                }
                Ok(None)
            },
        }
    }

    /// Create a rotating client secret for a configured identity. The
    /// answer carries the plaintext exactly once — the stored record
    /// keeps metadata alone, so nothing the model holds can return the
    /// plaintext again.
    pub fn create_client_secret(
        &mut self,
        identity_id: &str,
        description: &str,
        num_uses_limit: u64,
        ttl: u64,
    ) -> (r: Result<UniversalAuthClientSecret, ApiResponse>)
        requires
            old(self).next_id < u64::MAX,
        ensures
            r is Ok <==> assoc_lookup(old(self).configs@, identity_id@) is Some,
            r matches Err(resp) ==> *final(self) == *old(self) && resp is NotFound,
            r matches Ok(cs) ==> cs.client_secret@ == "secret-"@ + dec_str(
                old(self).next_id as nat,
            ) && cs.client_secret@.len() > 0 && cs.client_secret_data@.id == "cs-"@ + dec_str(
                old(self).next_id as nat,
            ) && cs.client_secret_data@.description == description@
                && cs.client_secret_data@.client_secret_num_uses_limit == num_uses_limit
                && cs.client_secret_data@.client_secret_ttl == ttl
                && cs.client_secret_data@.client_secret_num_uses == 0
                && !cs.client_secret_data@.is_client_secret_revoked
                && cs.client_secret_data@.identity_ua_id == identity_id@
                && cs.client_secret_data@.created_at == "t-"@ + dec_str(old(self).next_id as nat)
                && cs.client_secret_data@.updated_at == "t-"@ + dec_str(old(self).next_id as nat),
            r is Ok ==> final(self).secrets@.len() == old(self).secrets@.len() + 1 && final(self).secrets@.drop_last() == old(self).secrets@ && final(self).secrets@.last().0@ == "cs-"@
                + dec_str(old(self).next_id as nat) && final(self).secrets@.last().1.identity_id@
                == identity_id@ && final(self).secrets@.last().1.description@ == description@
                && final(self).secrets@.last().1.num_uses_limit == num_uses_limit && final(self).secrets@.last().1.ttl == ttl && !final(self).secrets@.last().1.revoked && final(self).secrets@.last().1.created_at@ == "t-"@ + dec_str(old(self).next_id as nat)
                && final(self).secrets@.last().1.updated_at@ == "t-"@ + dec_str(
                old(self).next_id as nat,
            ) && final(self).configs@ == old(self).configs@ && final(self).next_id == old(self).next_id + 1,
    {
        let key = String::from_str(identity_id);
        match assoc_find_index(&self.configs, &key) {
            None => {
                proof {
                    lemma_assoc_lookup_none(self.configs@, key@);
                }
                Err(model_not_found_response())
            },
            Some(i) => {
                proof {
                    lemma_assoc_lookup_at(self.configs@, key@, i as int);
                    lemma_dec_str_nonempty(self.next_id as nat);
                    reveal_strlit("secret-");
                    reveal_strlit("cs-");
                    reveal_strlit("t-");
                }
                let n = self.next_id;
                self.next_id = n + 1;
                let serial = u64_to_string(n);
                let mut secret_id = String::from_str("cs-");
                secret_id.append(serial.as_str());
                let mut plaintext = String::from_str("secret-");
                plaintext.append(serial.as_str());
                let mut stamp = String::from_str("t-");
                stamp.append(serial.as_str());
                let record = SecretRecord {
                    identity_id: key,
                    description: String::from_str(description),
                    prefix: String::from_str("cs"),
                    num_uses: 0,
                    num_uses_limit,
                    ttl,
                    revoked: false,
                    created_at: stamp.clone(),
                    updated_at: stamp.clone(),
                };
                let result = UniversalAuthClientSecret {
                    client_secret: SecretGuard::new(plaintext),
                    client_secret_data: UniversalAuthClientSecretData {
                        client_secret_num_uses: 0,
                        client_secret_num_uses_limit: num_uses_limit,
                        client_secret_prefix: record.prefix.clone(),
                        client_secret_ttl: ttl,
                        created_at: stamp.clone(),
                        description: record.description.clone(),
                        id: secret_id.clone(),
                        identity_ua_id: record.identity_id.clone(),
                        is_client_secret_revoked: false,
                        updated_at: stamp,
                    },
                };
                self.secrets.push((secret_id, record));
                Ok(result)
            },
        }
    }

    /// Read a client secret's metadata by id. The answer's type has no
    /// secret-value field: only creation ever returns the plaintext, and
    /// the model does not store it.
    pub fn get_client_secret_by_id(&self, client_secret_id: &str) -> (r: Result<
        UniversalAuthClientSecretData,
        ApiResponse,
    >)
        ensures
            r is Ok <==> assoc_lookup(self.secrets@, client_secret_id@) is Some,
            r matches Ok(d) ==> d@.id == client_secret_id@ && d@.description == assoc_lookup(
                self.secrets@,
                client_secret_id@,
            ).unwrap().description@ && d@.client_secret_num_uses_limit == assoc_lookup(
                self.secrets@,
                client_secret_id@,
            ).unwrap().num_uses_limit && d@.client_secret_ttl == assoc_lookup(
                self.secrets@,
                client_secret_id@,
            ).unwrap().ttl && d@.is_client_secret_revoked == assoc_lookup(
                self.secrets@,
                client_secret_id@,
            ).unwrap().revoked && d@.identity_ua_id == assoc_lookup(
                self.secrets@,
                client_secret_id@,
            ).unwrap().identity_id@,
            r matches Err(resp) ==> resp is NotFound,
    {
        let key = String::from_str(client_secret_id);
        match assoc_find_index(&self.secrets, &key) {
            Some(i) => {
                proof {
                    lemma_assoc_lookup_at(self.secrets@, key@, i as int);
                }
                let rec = &self.secrets[i].1;
                Ok(
                    UniversalAuthClientSecretData {
                        client_secret_num_uses: rec.num_uses,
                        client_secret_num_uses_limit: rec.num_uses_limit,
                        client_secret_prefix: rec.prefix.clone(),
                        client_secret_ttl: rec.ttl,
                        created_at: rec.created_at.clone(),
                        description: rec.description.clone(),
                        id: key,
                        identity_ua_id: rec.identity_id.clone(),
                        is_client_secret_revoked: rec.revoked,
                        updated_at: rec.updated_at.clone(),
                    },
                )
            },
            None => {
                proof {
                    lemma_assoc_lookup_none(self.secrets@, key@);
                }
                Err(model_not_found_response())
            },
        }
    }

    /// Revoke a client secret: it becomes permanently unusable for
    /// login. Always succeeds, in the same no-op sense as revoking an
    /// identity's configuration; revoking an unknown or already-revoked
    /// secret changes nothing and is not an error.
    pub fn revoke_client_secret(&mut self, client_secret_id: &str) -> (r: Result<(), ApiResponse>)
        ensures
            r is Ok,
            final(self).configs@ == old(self).configs@,
            assoc_lookup(old(self).secrets@, client_secret_id@) is None ==> final(self).secrets@
                == old(self).secrets@,
            assoc_lookup(old(self).secrets@, client_secret_id@) is Some ==> final(self).secrets@.drop_last() == assoc_remove(old(self).secrets@, client_secret_id@) && final(self).secrets@.len() == assoc_remove(old(self).secrets@, client_secret_id@).len() + 1
                && final(self).secrets@.last().0@ == client_secret_id@ && final(self).secrets@.last().1.revoked && final(self).secrets@.last().1.identity_id
                == assoc_lookup(old(self).secrets@, client_secret_id@).unwrap().identity_id
                && final(self).secrets@.last().1.description == assoc_lookup(
                old(self).secrets@,
                client_secret_id@,
            ).unwrap().description && final(self).secrets@.last().1.num_uses_limit
                == assoc_lookup(old(self).secrets@, client_secret_id@).unwrap().num_uses_limit
                && final(self).secrets@.last().1.ttl == assoc_lookup(
                old(self).secrets@,
                client_secret_id@,
            ).unwrap().ttl && final(self).secrets@.last().1.created_at == assoc_lookup(
                old(self).secrets@,
                client_secret_id@,
            ).unwrap().created_at && final(self).secrets@.last().1.updated_at == assoc_lookup(
                old(self).secrets@,
                client_secret_id@,
            ).unwrap().updated_at,
            final(self).next_id == old(self).next_id,
    {
        let key = String::from_str(client_secret_id);
        match assoc_find_index(&self.secrets, &key) {
            Some(i) => {
                proof {
                    lemma_assoc_lookup_at(self.secrets@, key@, i as int);
                }
                let mut rec = copy_secret_record(&self.secrets[i].1);
                rec.revoked = true;
                let remaining = remove_secret_entries(&self.secrets, &key);
                self.secrets = remaining;
                self.secrets.push((key, rec));
                Ok(())
            },
            None => {
                proof {
                    lemma_assoc_lookup_none(self.secrets@, key@);
                }
                Ok(())
            },
        }
    }
}

// ------------------------------------------------------------------
// The protocol laws

/// Round trip: a retrieve right after a successful attach reproduces the
/// attached record — in particular the TTL, max-TTL and use-limit the
/// attach carried — exactly. The premises are the very shape
/// `MockAuthService::attach` leaves the store in; lookup then finds
/// exactly the appended record, which `MockAuthService::retrieve`
/// reports field for field.
pub proof fn lemma_attach_then_retrieve(
    old_configs: Seq<(String, ConfigRecord)>,
    new_configs: Seq<(String, ConfigRecord)>,
    identity: Seq<char>,
)
    requires
        new_configs.len() == old_configs.len() + 1,
        new_configs.drop_last() == old_configs,
        new_configs.last().0@ == identity,
    ensures
        assoc_lookup(new_configs, identity) == Some(new_configs.last().1),
{
}

/// Attaching is not idempotent: after one successful attach the identity
/// is configured, so by `MockAuthService::attach`'s contract a second
/// attach without an intervening revoke is refused, with the state left
/// untouched.
pub proof fn lemma_attach_twice_refused(
    old_configs: Seq<(String, ConfigRecord)>,
    new_configs: Seq<(String, ConfigRecord)>,
    identity: Seq<char>,
)
    requires
        new_configs.len() == old_configs.len() + 1,
        new_configs.drop_last() == old_configs,
        new_configs.last().0@ == identity,
    ensures
        assoc_lookup(new_configs, identity) is Some,
{
}

/// Revoking is idempotent: `MockAuthService::revoke` always succeeds and
/// leaves the store with every entry of the identity removed, so a
/// second revoke succeeds too and changes nothing — the end state, no
/// attached configuration, is the same after one revoke and after two.
pub proof fn lemma_revoke_twice_is_noop(configs: Seq<(String, ConfigRecord)>, identity: Seq<char>)
    ensures
        assoc_remove(assoc_remove(configs, identity), identity) == assoc_remove(configs, identity),
        assoc_lookup(assoc_remove(configs, identity), identity) is None,
{
    lemma_assoc_remove_idempotent(configs, identity);
    lemma_assoc_remove_removes(configs, identity);
}

/// Revocation of a client secret is permanent: the ids the model mints
/// embed a serial drawn from `next_id`, which only ever grows, and the
/// decimal rendering of a serial determines it — so a secret the
/// service later creates carries a fresh id, and its record can never
/// shadow a revoked secret's record. The revoked record's lookup, with
/// `revoked` set, is exactly what every later read keeps reporting.
pub proof fn lemma_revoked_secret_never_shadowed(
    secrets: Seq<(String, SecretRecord)>,
    new_entry: (String, SecretRecord),
    revoked_id: Seq<char>,
    m: nat,
    n: nat,
)
    requires
        revoked_id == "cs-"@ + dec_str(m),
        new_entry.0@ == "cs-"@ + dec_str(n),
        m != n,
    ensures
        new_entry.0@ != revoked_id,
        assoc_lookup(secrets.push(new_entry), revoked_id) == assoc_lookup(secrets, revoked_id),
{
    if new_entry.0@ == revoked_id {
        lemma_append_cancels_prefix("cs-"@, dec_str(m), dec_str(n));
        lemma_dec_str_injective(m, n);
    }
    assert(secrets.push(new_entry).last() == new_entry);
    assert(secrets.push(new_entry).drop_last() =~= secrets);
}

/// Revoking one identity leaves every other identity's configuration
/// exactly as it was.
pub proof fn lemma_revoke_preserves_others(
    configs: Seq<(String, ConfigRecord)>,
    identity: Seq<char>,
    other: Seq<char>,
)
    requires
        other != identity,
    ensures
        assoc_lookup(assoc_remove(configs, identity), other) == assoc_lookup(configs, other),
{
    lemma_assoc_remove_preserves(configs, identity, other);
}

} // verus!
