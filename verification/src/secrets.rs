//! Stored secrets as the service returns them: the record of one secret,
//! its tags and metadata, and the in-memory searches over them. The
//! retrieval call itself is a single authenticated GET the caller
//! performs; here stand the URL construction, the decoding of its
//! answer, and the verified searches.

use vstd::prelude::*;

use crate::api_response::{classifiable, classify_body, fields_of_body};
use crate::error_handling::UniversalAuthError;
use crate::json_fields::{
    json_bool_field2, json_bool2_of, json_kv_list_field2, json_kv_list_of, json_str_field2,
    json_str2_of, json_tag_list_field2, json_tag_list_of, json_u64_field2, json_u64_2_of,
};
use crate::secret_guard::SecretGuard;
use crate::error_handling::ResponseFailure;
use crate::universal_auth::{classified_failure, unclassifiable_error};

verus! {

/// A tag attached to a stored secret.
#[derive(Debug)]
pub struct InfisicalSecretTag {
    pub color: String,
    pub id: String,
    pub name: String,
    pub slug: String,
}

/// A tag at the specification level.
pub ghost struct TagView {
    pub color: Seq<char>,
    pub id: Seq<char>,
    pub name: Seq<char>,
    pub slug: Seq<char>,
}

impl View for InfisicalSecretTag {
    type V = TagView;

    open spec fn view(&self) -> TagView {
        TagView { color: self.color@, id: self.id@, name: self.name@, slug: self.slug@ }
    }
}

/// One key/value metadata entry of a stored secret.
#[derive(Debug)]
pub struct InfisicalSecretMetadata {
    pub key: String,
    pub value: String,
}

/// A metadata entry at the specification level.
pub ghost struct MetadataView {
    pub key: Seq<char>,
    pub value: Seq<char>,
}

impl View for InfisicalSecretMetadata {
    type V = MetadataView;

    open spec fn view(&self) -> MetadataView {
        MetadataView { key: self.key@, value: self.value@ }
    }
}

/// A stored secret's record. The secret value itself sits behind a
/// [`SecretGuard`].
pub struct InfisicalSecretData {
    pub u_id: String,
    pub created_at: String,
    pub environment: String,
    pub id: String,
    pub secret_comment: String,
    pub secret_key: String,
    pub secret_metadata: Vec<InfisicalSecretMetadata>,
    pub secret_reminder_note: String,
    pub secret_reminder_repeat_days: u64,
    pub secret_value: SecretGuard,
    pub skip_multiline_encoding: Option<bool>,
    pub tags: Vec<InfisicalSecretTag>,
    pub type_: String,
    pub updated_at: String,
    pub version: u64,
    pub workspace: String,
}

/// A retrieved secret.
pub struct InfisicalSecret {
    pub data: InfisicalSecretData,
}

// ------------------------------------------------------------------
// Searches

/// The metadata entries with the given key, in order.
pub open spec fn metadata_with_key(s: Seq<MetadataView>, key: Seq<char>) -> Seq<MetadataView>
    decreases s.len(),
{
    if s.len() == 0 {
        s
    } else {
        let rest = metadata_with_key(s.drop_last(), key);
        if s.last().key == key {
            rest.push(s.last())
        } else {
            rest
        }
    }
}

/// Whether a tag matches a search: a given id must match exactly;
/// without one, any of colour, name or slug matching its given value —
/// an omitted value standing for the empty string — selects the tag.
pub open spec fn tag_matches(
    t: TagView,
    tag_id: Option<Seq<char>>,
    tag_color: Option<Seq<char>>,
    tag_name: Option<Seq<char>>,
    tag_slug: Option<Seq<char>>,
) -> bool {
    match tag_id {
        Some(id) => t.id == id,
        None => t.color == opt_or_empty(tag_color) || t.name == opt_or_empty(tag_name) || t.slug
            == opt_or_empty(tag_slug),
    }
}

/// An optional search value, with the empty string for an omitted one.
pub open spec fn opt_or_empty(o: Option<Seq<char>>) -> Seq<char> {
    match o {
        Some(s) => s,
        None => Seq::empty(),
    }
}

/// The tags matching a search, in order.
pub open spec fn tags_matching(
    s: Seq<TagView>,
    tag_id: Option<Seq<char>>,
    tag_color: Option<Seq<char>>,
    tag_name: Option<Seq<char>>,
    tag_slug: Option<Seq<char>>,
) -> Seq<TagView>
    decreases s.len(),
{
    if s.len() == 0 {
        s
    } else {
        let rest = tags_matching(s.drop_last(), tag_id, tag_color, tag_name, tag_slug);
        if tag_matches(s.last(), tag_id, tag_color, tag_name, tag_slug) {
            rest.push(s.last())
        } else {
            rest
        }
    }
}

impl InfisicalSecret {
    /// The metadata entries carrying the given key, in their stored
    /// order.
    pub fn get_secret_metadata(&self, metadata_key: &str) -> (r: Vec<InfisicalSecretMetadata>)
        ensures
            r@.map_values(|m: InfisicalSecretMetadata| m@) == metadata_with_key(
                self.data.secret_metadata@.map_values(|m: InfisicalSecretMetadata| m@),
                metadata_key@,
            ),
    {
        let key = String::from_str(metadata_key);
        let entries = &self.data.secret_metadata;
        let ghost all = entries@.map_values(|m: InfisicalSecretMetadata| m@);
        let mut out: Vec<InfisicalSecretMetadata> = Vec::new();
        let mut i: usize = 0;
        while i < entries.len()
            invariant
                i <= entries@.len(),
                all == entries@.map_values(|m: InfisicalSecretMetadata| m@),
                all.len() == entries@.len(),
                key@ == metadata_key@,
                forall|j: int| 0 <= j < entries@.len() ==> all[j] == #[trigger] entries@[j]@,
                out@.map_values(|m: InfisicalSecretMetadata| m@) == metadata_with_key(
                    all.take(i as int),
                    metadata_key@,
                ),
            decreases entries@.len() - i,
        {
            proof {
                assert(all.take(i as int + 1).drop_last() =~= all.take(i as int));
                assert(all.take(i as int + 1).last() == all[i as int]);
            }
            if entries[i].key.eq(&key) {
                let copy = InfisicalSecretMetadata {
                    key: entries[i].key.clone(),
                    value: entries[i].value.clone(),
                };
                out.push(copy);
                proof {
                    assert(out@.map_values(|m: InfisicalSecretMetadata| m@) =~= metadata_with_key(
                        all.take(i as int + 1),
                        metadata_key@,
                    ));
                }
            }
            i = i + 1;
        }
        proof {
            assert(all.take(all.len() as int) =~= all);
        }
        out
    }

    /// The tags matching a search, in their stored order: a given id
    /// selects exactly the tags with that id; without one, a tag is
    /// selected when its colour, name or slug equals the respective
    /// given value, an omitted value standing for the empty string.
    pub fn search_tags(
        &self,
        tag_id: Option<&str>,
        tag_color: Option<&str>,
        tag_name: Option<&str>,
        tag_slug: Option<&str>,
    ) -> (r: Vec<InfisicalSecretTag>)
        ensures
            r@.map_values(|t: InfisicalSecretTag| t@) == tags_matching(
                self.data.tags@.map_values(|t: InfisicalSecretTag| t@),
                match tag_id {
                    Some(s) => Some(s@),
                    None => None,
                },
                match tag_color {
                    Some(s) => Some(s@),
                    None => None,
                },
                match tag_name {
                    Some(s) => Some(s@),
                    None => None,
                },
                match tag_slug {
                    Some(s) => Some(s@),
                    None => None,
                },
            ),
    {
        let ghost g_id = match tag_id {
            Some(s) => Some(s@),
            None => None,
        };
        let ghost g_color = match tag_color {
            Some(s) => Some(s@),
            None => None,
        };
        let ghost g_name = match tag_name {
            Some(s) => Some(s@),
            None => None,
        };
        let ghost g_slug = match tag_slug {
            Some(s) => Some(s@),
            None => None,
        };
        let entries = &self.data.tags;
        let ghost all = entries@.map_values(|t: InfisicalSecretTag| t@);
        let mut out: Vec<InfisicalSecretTag> = Vec::new();
        let mut i: usize = 0;
        while i < entries.len()
            invariant
                i <= entries@.len(),
                all == entries@.map_values(|t: InfisicalSecretTag| t@),
                all.len() == entries@.len(),
                forall|j: int| 0 <= j < entries@.len() ==> all[j] == #[trigger] entries@[j]@,
                g_id == (match tag_id {
                    Some(s) => Some(s@),
                    None => None,
                }),
                g_color == (match tag_color {
                    Some(s) => Some(s@),
                    None => None,
                }),
                g_name == (match tag_name {
                    Some(s) => Some(s@),
                    None => None,
                }),
                g_slug == (match tag_slug {
                    Some(s) => Some(s@),
                    None => None,
                }),
                out@.map_values(|t: InfisicalSecretTag| t@) == tags_matching(
                    all.take(i as int),
                    g_id,
                    g_color,
                    g_name,
                    g_slug,
                ),
            decreases entries@.len() - i,
        {
            proof {
                assert(all.take(i as int + 1).drop_last() =~= all.take(i as int));
                assert(all.take(i as int + 1).last() == all[i as int]);
            }
            let entry = &entries[i];
            proof {
                assert(all[i as int] == entries@[i as int]@);
            }
            let selected: bool = match tag_id {
                Some(id) => string_eq_str(&entry.id, id),
                None => {
                    let color_hit = match tag_color {
                        Some(c) => string_eq_str(&entry.color, c),
                        None => string_is_empty(&entry.color),
                    };
                    let name_hit = match tag_name {
                        Some(n) => string_eq_str(&entry.name, n),
                        None => string_is_empty(&entry.name),
                    };
                    let slug_hit = match tag_slug {
                        Some(sl) => string_eq_str(&entry.slug, sl),
                        None => string_is_empty(&entry.slug),
                    };
                    color_hit || name_hit || slug_hit
                },
            };
            assert(selected == tag_matches(all[i as int], g_id, g_color, g_name, g_slug));
            if selected {
                let copy = InfisicalSecretTag {
                    color: entry.color.clone(),
                    id: entry.id.clone(),
                    name: entry.name.clone(),
                    slug: entry.slug.clone(),
                };
                out.push(copy);
                proof {
                    assert(out@.map_values(|t: InfisicalSecretTag| t@) =~= tags_matching(
                        all.take(i as int + 1),
                        g_id,
                        g_color,
                        g_name,
                        g_slug,
                    ));
                }
            }
            i = i + 1;
        }
        proof {
            assert(all.take(all.len() as int) =~= all);
        }
        out
    }
}

// ------------------------------------------------------------------
// Retrieval

/// A stored secret's record at the specification level.
pub ghost struct SecretDataView {
    pub u_id: Seq<char>,
    pub created_at: Seq<char>,
    pub environment: Seq<char>,
    pub id: Seq<char>,
    pub secret_comment: Seq<char>,
    pub secret_key: Seq<char>,
    pub secret_metadata: Seq<MetadataView>,
    pub secret_reminder_note: Seq<char>,
    pub secret_reminder_repeat_days: u64,
    pub secret_value: Seq<char>,
    pub skip_multiline_encoding: Option<bool>,
    pub tags: Seq<TagView>,
    pub type_: Seq<char>,
    pub updated_at: Seq<char>,
    pub version: u64,
    pub workspace: Seq<char>,
}

impl View for InfisicalSecretData {
    type V = SecretDataView;

    open spec fn view(&self) -> SecretDataView {
        SecretDataView {
            u_id: self.u_id@,
            created_at: self.created_at@,
            environment: self.environment@,
            id: self.id@,
            secret_comment: self.secret_comment@,
            secret_key: self.secret_key@,
            secret_metadata: self.secret_metadata@.map_values(|m: InfisicalSecretMetadata| m@),
            secret_reminder_note: self.secret_reminder_note@,
            secret_reminder_repeat_days: self.secret_reminder_repeat_days,
            secret_value: self.secret_value@,
            skip_multiline_encoding: self.skip_multiline_encoding,
            tags: self.tags@.map_values(|t: InfisicalSecretTag| t@),
            type_: self.type_@,
            updated_at: self.updated_at@,
            version: self.version,
            workspace: self.workspace@,
        }
    }
}

/// The metadata views of extracted key/value pairs.
pub open spec fn kv_views(s: Seq<(Seq<char>, Seq<char>)>) -> Seq<MetadataView> {
    s.map_values(|t: (Seq<char>, Seq<char>)| MetadataView { key: t.0, value: t.1 })
}

/// The tag views of extracted tag tuples.
pub open spec fn tag_views(s: Seq<(Seq<char>, Seq<char>, Seq<char>, Seq<char>)>) -> Seq<TagView> {
    s.map_values(
        |t: (Seq<char>, Seq<char>, Seq<char>, Seq<char>)| TagView {
            color: t.0,
            id: t.1,
            name: t.2,
            slug: t.3,
        },
    )
}

/// The raw endpoint a stored secret is read from:
/// `{host}/api/v3/secrets/raw/{secret}` with the workspace, environment
/// (empty when omitted) and secret path (`/` when omitted) as query
/// parameters.
pub open spec fn secret_raw_url_view(
    host: Seq<char>,
    secret: Seq<char>,
    workspace_id: Seq<char>,
    environment: Option<Seq<char>>,
    secret_path: Option<Seq<char>>,
) -> Seq<char> {
    host + "/api/v3/secrets/raw/"@ + secret + "?workspaceId="@ + workspace_id + "&environment="@
        + opt_or_empty(environment) + "&secretPath="@ + (match secret_path {
        Some(p) => p,
        None => "/"@,
    })
}

/// Construct the raw-secret endpoint URL.
pub fn construct_secret_raw_url(
    host: &str,
    secret: &str,
    workspace_id: &str,
    environment: Option<&str>,
    secret_path: Option<&str>,
) -> (r: String)
    ensures
        r@ == secret_raw_url_view(
            host@,
            secret@,
            workspace_id@,
            match environment {
                Some(e) => Some(e@),
                None => None,
            },
            match secret_path {
                Some(p) => Some(p@),
                None => None,
            },
        ),
{
    let mut url = String::from_str(host);
    url.append("/api/v3/secrets/raw/");
    url.append(secret);
    url.append("?workspaceId=");
    url.append(workspace_id);
    url.append("&environment=");
    match environment {
        Some(e) => {
            url.append(e);
        },
        None => {
            proof {
                assert(url@ + Seq::<char>::empty() =~= url@);
            }
        },
    }
    url.append("&secretPath=");
    match secret_path {
        Some(p) => {
            url.append(p);
        },
        None => {
            url.append("/");
        },
    }
    url
}

/// The secret record a success body carries, nested under `secret` — if
/// every required field is present. `skipMultilineEncoding` alone is
/// optional.
pub open spec fn secret_of_body(body: Seq<u8>) -> Option<SecretDataView> {
    let outer = "secret"@;
    if json_str2_of(body, outer, "_id"@) is Some && json_str2_of(body, outer, "createdAt"@) is Some
        && json_str2_of(body, outer, "environment"@) is Some && json_str2_of(body, outer, "id"@)
        is Some && json_str2_of(body, outer, "secretComment"@) is Some && json_str2_of(
        body,
        outer,
        "secretKey"@,
    ) is Some && json_kv_list_of(body, outer, "secretMetadata"@) is Some && json_str2_of(
        body,
        outer,
        "secretReminderNote"@,
    ) is Some && json_u64_2_of(body, outer, "secretReminderRepeatDays"@) is Some && json_str2_of(
        body,
        outer,
        "secretValue"@,
    ) is Some && json_tag_list_of(body, outer, "tags"@) is Some && json_str2_of(
        body,
        outer,
        "type"@,
    ) is Some && json_str2_of(body, outer, "updatedAt"@) is Some && json_u64_2_of(
        body,
        outer,
        "version"@,
    ) is Some && json_str2_of(body, outer, "workspace"@) is Some {
        Some(
            SecretDataView {
                u_id: json_str2_of(body, outer, "_id"@).unwrap(),
                created_at: json_str2_of(body, outer, "createdAt"@).unwrap(),
                environment: json_str2_of(body, outer, "environment"@).unwrap(),
                id: json_str2_of(body, outer, "id"@).unwrap(),
                secret_comment: json_str2_of(body, outer, "secretComment"@).unwrap(),
                secret_key: json_str2_of(body, outer, "secretKey"@).unwrap(),
                secret_metadata: kv_views(json_kv_list_of(body, outer, "secretMetadata"@).unwrap()),
                secret_reminder_note: json_str2_of(body, outer, "secretReminderNote"@).unwrap(),
                secret_reminder_repeat_days: json_u64_2_of(
                    body,
                    outer,
                    "secretReminderRepeatDays"@,
                ).unwrap(),
                secret_value: json_str2_of(body, outer, "secretValue"@).unwrap(),
                skip_multiline_encoding: json_bool2_of(body, outer, "skipMultilineEncoding"@),
                tags: tag_views(json_tag_list_of(body, outer, "tags"@).unwrap()),
                type_: json_str2_of(body, outer, "type"@).unwrap(),
                updated_at: json_str2_of(body, outer, "updatedAt"@).unwrap(),
                version: json_u64_2_of(body, outer, "version"@).unwrap(),
                workspace: json_str2_of(body, outer, "workspace"@).unwrap(),
            },
        )
    } else {
        None
    }
}

/// Decode extracted key/value pairs into metadata entries.
fn convert_metadata(v: &Vec<(String, String)>) -> (r: Vec<InfisicalSecretMetadata>)
    ensures
        r@.map_values(|m: InfisicalSecretMetadata| m@) == kv_views(
            v@.map_values(|t: (String, String)| (t.0@, t.1@)),
        ),
{
    let mut out: Vec<InfisicalSecretMetadata> = Vec::new();
    let mut i: usize = 0;
    while i < v.len()
        invariant
            i <= v@.len(),
            out@.len() == i as nat,
            forall|j: int| 0 <= j < i ==> #[trigger] out@[j]@ == kv_views(
                v@.map_values(|t: (String, String)| (t.0@, t.1@)),
            )[j],
        decreases v@.len() - i,
    {
        let entry = InfisicalSecretMetadata { key: v[i].0.clone(), value: v[i].1.clone() };
        out.push(entry);
        i = i + 1;
    }
    proof {
        assert(out@.map_values(|m: InfisicalSecretMetadata| m@) =~= kv_views(
            v@.map_values(|t: (String, String)| (t.0@, t.1@)),
        ));
    }
    out
}

/// Decode extracted tag tuples into tags.
fn convert_tags(v: &Vec<(String, String, String, String)>) -> (r: Vec<InfisicalSecretTag>)
    ensures
        r@.map_values(|t: InfisicalSecretTag| t@) == tag_views(
            v@.map_values(|t: (String, String, String, String)| (t.0@, t.1@, t.2@, t.3@)),
        ),
{
    let mut out: Vec<InfisicalSecretTag> = Vec::new();
    let mut i: usize = 0;
    while i < v.len()
        invariant
            i <= v@.len(),
            out@.len() == i as nat,
            forall|j: int| 0 <= j < i ==> #[trigger] out@[j]@ == tag_views(
                v@.map_values(|t: (String, String, String, String)| (t.0@, t.1@, t.2@, t.3@)),
            )[j],
        decreases v@.len() - i,
    {
        let entry = InfisicalSecretTag {
            color: v[i].0.clone(),
            id: v[i].1.clone(),
            name: v[i].2.clone(),
            slug: v[i].3.clone(),
        };
        out.push(entry);
        i = i + 1;
    }
    proof {
        assert(out@.map_values(|t: InfisicalSecretTag| t@) =~= tag_views(
            v@.map_values(|t: (String, String, String, String)| (t.0@, t.1@, t.2@, t.3@)),
        ));
    }
    out
}

/// The error owed when the service refuses to return a stored secret.
pub open spec fn retrieve_secret_rejection_error(
    secret: Seq<char>,
    body: Seq<u8>,
    e: UniversalAuthError,
) -> bool {
    e matches UniversalAuthError::RetrieveSecretError { secret: s, api_version, error } && s@
        == secret && api_version@ == "v3"@ && classified_failure(body, error)
}

/// The error owed when a stored-secret read's success answer does not
/// decode: still the read's own variant, carrying the malformed kind.
pub open spec fn retrieve_secret_malformed_error(secret: Seq<char>, e: UniversalAuthError) -> bool {
    e matches UniversalAuthError::RetrieveSecretError { secret: s, api_version, error } && s@
        == secret && api_version@ == "v3"@ && error is MalformedResponse
}

/// Turn the service's answer to a raw-secret read into the decoded
/// secret or a classified error.
pub fn get_secret_outcome(secret: &str, status: u16, body: &[u8]) -> (r: Result<
    InfisicalSecret,
    UniversalAuthError,
>)
    ensures
        r is Ok <==> (status == 200 && secret_of_body(body@) is Some),
        r matches Ok(s) ==> Some(s.data@) == secret_of_body(body@),
        status == 200 && secret_of_body(body@) is None ==> (r matches Err(e)
            && retrieve_secret_malformed_error(secret@, e)),
        status != 200 && classifiable(fields_of_body(body@)) ==> (r matches Err(e)
            && retrieve_secret_rejection_error(secret@, body@, e)),
        status != 200 && !classifiable(fields_of_body(body@)) ==> (r matches Err(e)
            && unclassifiable_error(status, secret@, "v3"@, e)),
{
    if status != 200 {
        match classify_body(body) {
            Some(resp) => Err(
                UniversalAuthError::RetrieveSecretError {
                    secret: String::from_str(secret),
                    api_version: String::from_str("v3"),
                    error: ResponseFailure::Rejection { error: resp },
                },
            ),
            None => Err(
                UniversalAuthError::UnclassifiableResponse {
                    status,
                    identity: String::from_str(secret),
                    api_version: String::from_str("v3"),
                },
            ),
        }
    } else {
        let u_id = json_str_field2(body, "secret", "_id");
        let created_at = json_str_field2(body, "secret", "createdAt");
        let environment = json_str_field2(body, "secret", "environment");
        let id = json_str_field2(body, "secret", "id");
        let secret_comment = json_str_field2(body, "secret", "secretComment");
        let secret_key = json_str_field2(body, "secret", "secretKey");
        let metadata = json_kv_list_field2(body, "secret", "secretMetadata");
        let reminder_note = json_str_field2(body, "secret", "secretReminderNote");
        let reminder_days = json_u64_field2(body, "secret", "secretReminderRepeatDays");
        let secret_value = json_str_field2(body, "secret", "secretValue");
        let skip_multiline = json_bool_field2(body, "secret", "skipMultilineEncoding");
        let tags = json_tag_list_field2(body, "secret", "tags");
        let type_ = json_str_field2(body, "secret", "type");
        let updated_at = json_str_field2(body, "secret", "updatedAt");
        let version = json_u64_field2(body, "secret", "version");
        let workspace = json_str_field2(body, "secret", "workspace");
        match (u_id, created_at, environment, id, secret_comment, secret_key, metadata,
            reminder_note, reminder_days, secret_value, tags, type_, updated_at, version,
            workspace,
        ) {
            (
                Some(u_id),
                Some(created_at),
                Some(environment),
                Some(id),
                Some(secret_comment),
                Some(secret_key),
                Some(metadata),
                Some(reminder_note),
                Some(reminder_days),
                Some(secret_value),
                Some(tags),
                Some(type_),
                Some(updated_at),
                Some(version),
                Some(workspace),
            ) => Ok(
                InfisicalSecret {
                    data: InfisicalSecretData {
                        u_id,
                        created_at,
                        environment,
                        id,
                        secret_comment,
                        secret_key,
                        secret_metadata: convert_metadata(&metadata),
                        secret_reminder_note: reminder_note,
                        secret_reminder_repeat_days: reminder_days,
                        secret_value: SecretGuard::new(secret_value),
                        skip_multiline_encoding: skip_multiline,
                        tags: convert_tags(&tags),
                        type_,
                        updated_at,
                        version,
                        workspace,
                    },
                },
            ),
            _ => Err(
                UniversalAuthError::RetrieveSecretError {
                    secret: String::from_str(secret),
                    api_version: String::from_str("v3"),
                    error: ResponseFailure::MalformedResponse,
                },
            ),
        }
    }
}

/// Whether a string equals a string slice, by contents.
fn string_eq_str(s: &String, t: &str) -> (r: bool)
    ensures
        r == (s@ == t@),
{
    let u = String::from_str(t);
    s.eq(&u)
}

/// Whether a string is the empty sequence.
fn string_is_empty(s: &String) -> (r: bool)
    ensures
        r == (s@ == Seq::<char>::empty()),
{
    let r = s.as_str().is_empty();
    proof {
        if s@.len() == 0 {
            assert(s@ =~= Seq::<char>::empty());
        } else {
            assert(Seq::<char>::empty().len() == 0);
        }
    }
    r
}

} // verus!
