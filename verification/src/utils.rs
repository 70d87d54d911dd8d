//! The data types of the Universal Auth subsystem — credentials, access
//! tokens, identity configurations, client secrets, trusted IPs — with
//! their specification-level views, the canonical default values, and the
//! endpoint URL constructors.

use vstd::prelude::*;

use crate::secret_guard::SecretGuard;

verus! {

/// Infisical's platform-wide default for token time-to-live fields, in
/// seconds (30 days). The service substitutes it whenever a caller omits
/// an explicit TTL or max-TTL.
pub const INFISICAL_DEFAULT_TIME_TO_LIVE: u64 = 2592000;

// ------------------------------------------------------------------
// Trusted IPs

/// A trusted-IP entry of the client-secret scope: the address, its CIDR
/// prefix length, and the address family (`"ipv4"` or `"ipv6"`).
#[derive(Debug)]
pub struct ClientSecretTrustedIp {
    pub ip_address: String,
    pub prefix: u8,
    pub type_: String,
}

/// A trusted-IP entry of the access-token scope.
#[derive(Debug)]
pub struct AccessTokenTrustedIp {
    pub ip_address: String,
    pub prefix: u8,
    pub type_: String,
}

/// A trusted-IP entry at the specification level.
pub ghost struct TrustedIpView {
    pub ip_address: Seq<char>,
    pub prefix: u8,
    pub type_: Seq<char>,
}

impl View for ClientSecretTrustedIp {
    type V = TrustedIpView;

    open spec fn view(&self) -> TrustedIpView {
        TrustedIpView { ip_address: self.ip_address@, prefix: self.prefix, type_: self.type_@ }
    }
}

impl View for AccessTokenTrustedIp {
    type V = TrustedIpView;

    open spec fn view(&self) -> TrustedIpView {
        TrustedIpView { ip_address: self.ip_address@, prefix: self.prefix, type_: self.type_@ }
    }
}

/// The canonical IPv4 default entry: `0.0.0.0`, "anywhere".
pub open spec fn default_ipv4_view() -> TrustedIpView {
    TrustedIpView { ip_address: "0.0.0.0"@, prefix: 0, type_: "ipv4"@ }
}

/// The canonical IPv6 default entry: `::`, "anywhere".
pub open spec fn default_ipv6_view() -> TrustedIpView {
    TrustedIpView { ip_address: "::"@, prefix: 0, type_: "ipv6"@ }
}

/// The trusted-IP list the service substitutes when the caller supplies
/// none: exactly the two canonical "anywhere" entries.
pub open spec fn default_trusted_ips_view() -> Seq<TrustedIpView> {
    seq![default_ipv4_view(), default_ipv6_view()]
}

impl ClientSecretTrustedIp {
    /// The canonical IPv4 default entry.
    pub fn default_ipv4() -> (r: ClientSecretTrustedIp)
        ensures
            r@ == default_ipv4_view(),
    {
        ClientSecretTrustedIp {
            ip_address: String::from_str("0.0.0.0"),
            prefix: 0,
            type_: String::from_str("ipv4"),
        }
    }

    /// The canonical IPv6 default entry.
    pub fn default_ipv6() -> (r: ClientSecretTrustedIp)
        ensures
            r@ == default_ipv6_view(),
    {
        ClientSecretTrustedIp {
            ip_address: String::from_str("::"),
            prefix: 0,
            type_: String::from_str("ipv6"),
        }
    }
}

impl AccessTokenTrustedIp {
    /// The canonical IPv4 default entry.
    pub fn default_ipv4() -> (r: AccessTokenTrustedIp)
        ensures
            r@ == default_ipv4_view(),
    {
        AccessTokenTrustedIp {
            ip_address: String::from_str("0.0.0.0"),
            prefix: 0,
            type_: String::from_str("ipv4"),
        }
    }

    /// The canonical IPv6 default entry.
    pub fn default_ipv6() -> (r: AccessTokenTrustedIp)
        ensures
            r@ == default_ipv6_view(),
    {
        AccessTokenTrustedIp {
            ip_address: String::from_str("::"),
            prefix: 0,
            type_: String::from_str("ipv6"),
        }
    }
}

/// The default trusted-IP list of the client-secret scope, as sent on the
/// wire when the caller supplies no override.
pub fn default_client_secret_trusted_ip_form_data_vectors() -> (r: Vec<ClientSecretTrustedIp>)
    ensures
        r@.map_values(|ip: ClientSecretTrustedIp| ip@) == default_trusted_ips_view(),
{
    let mut v: Vec<ClientSecretTrustedIp> = Vec::new();
    v.push(ClientSecretTrustedIp::default_ipv4());
    v.push(ClientSecretTrustedIp::default_ipv6());
    proof {
        assert(v@.map_values(|ip: ClientSecretTrustedIp| ip@) =~= default_trusted_ips_view());
    }
    v
}

/// The default trusted-IP list of the access-token scope.
pub fn default_access_token_trusted_ip_form_data_vectors() -> (r: Vec<AccessTokenTrustedIp>)
    ensures
        r@.map_values(|ip: AccessTokenTrustedIp| ip@) == default_trusted_ips_view(),
{
    let mut v: Vec<AccessTokenTrustedIp> = Vec::new();
    v.push(AccessTokenTrustedIp::default_ipv4());
    v.push(AccessTokenTrustedIp::default_ipv6());
    proof {
        assert(v@.map_values(|ip: AccessTokenTrustedIp| ip@) =~= default_trusted_ips_view());
    }
    v
}

// ------------------------------------------------------------------
// Credentials

/// The "username and password" of the Universal Auth method: a client
/// id/secret pair bound to an identity, plus the endpoint API version.
/// The client secret sits behind a [`SecretGuard`]: reading it takes an
/// explicit `expose`, and its memory is zeroed on drop.
pub struct UniversalAuthCredentials {
    pub client_id: String,
    pub client_secret: SecretGuard,
    pub identity_id: String,
    pub version: String,
}

/// A credential set at the specification level.
pub ghost struct CredentialsView {
    pub client_id: Seq<char>,
    pub client_secret: Seq<char>,
    pub identity_id: Seq<char>,
    pub version: Seq<char>,
}

impl View for UniversalAuthCredentials {
    type V = CredentialsView;

    open spec fn view(&self) -> CredentialsView {
        CredentialsView {
            client_id: self.client_id@,
            client_secret: self.client_secret@,
            identity_id: self.identity_id@,
            version: self.version@,
        }
    }
}

/// Which authentication method a caller drives, with the credentials it
/// needs. Each method names the path segment its endpoints live under.
pub enum AuthMethod {
    Universal { credentials: UniversalAuthCredentials },
    Token { token: String, identity_id: String },
}

impl AuthMethod {
    /// The path segment of the method's endpoints.
    pub fn display_string(&self) -> (r: String)
        ensures
            self is Universal ==> r@ == "universal-auth"@,
            self is Token ==> r@ == "token"@,
    {
        match self {
            AuthMethod::Universal { .. } => String::from_str("universal-auth"),
            AuthMethod::Token { .. } => String::from_str("token"),
        }
    }
}

// ------------------------------------------------------------------
// Access tokens

/// The fields of a freshly exchanged access token. The token string — the
/// actual secret material — sits behind a [`SecretGuard`].
pub struct UniversalAuthAccessTokenData {
    pub access_token: SecretGuard,
    pub access_token_max_ttl: u64,
    pub expires_in: u64,
    pub token_type: String,
}

/// Access-token data at the specification level.
pub ghost struct AccessTokenDataView {
    pub access_token: Seq<char>,
    pub access_token_max_ttl: u64,
    pub expires_in: u64,
    pub token_type: Seq<char>,
}

impl View for UniversalAuthAccessTokenData {
    type V = AccessTokenDataView;

    open spec fn view(&self) -> AccessTokenDataView {
        AccessTokenDataView {
            access_token: self.access_token@,
            access_token_max_ttl: self.access_token_max_ttl,
            expires_in: self.expires_in,
            token_type: self.token_type@,
        }
    }
}

/// The live session a successful login returns: the token data plus the
/// API version it was obtained under. All further operations authenticate
/// with it.
pub struct UniversalAuthAccessToken {
    pub data: UniversalAuthAccessTokenData,
    pub version: String,
}

impl Default for UniversalAuthAccessTokenData {
    /// An empty token record: every field its zero value, the guarded
    /// token the empty string.
    fn default() -> (d: UniversalAuthAccessTokenData)
        ensures
            d@.access_token.len() == 0,
            d@.access_token_max_ttl == 0,
            d@.expires_in == 0,
            d@.token_type.len() == 0,
    {
        UniversalAuthAccessTokenData {
            access_token: SecretGuard::new(String::new()),
            access_token_max_ttl: 0,
            expires_in: 0,
            token_type: String::new(),
        }
    }
}

impl UniversalAuthAccessToken {
    /// The bearer token itself, read through the guard's explicit expose.
    pub fn access_token(&self) -> (r: &str)
        ensures
            r@ == self.data@.access_token,
    {
        self.data.access_token.expose().as_str()
    }

    /// The declared upper bound on the token's time-to-live, in seconds.
    pub fn access_token_max_ttl(&self) -> (r: &u64)
        ensures
            r == self.data.access_token_max_ttl,
    {
        &self.data.access_token_max_ttl
    }

    /// Seconds until the token expires, as declared by the service.
    pub fn expires_in(&self) -> (r: &u64)
        ensures
            r == self.data.expires_in,
    {
        &self.data.expires_in
    }

    /// The token's type, conventionally `Bearer`.
    pub fn token_type(&self) -> (r: &str)
        ensures
            r@ == self.data@.token_type,
    {
        self.data.token_type.as_str()
    }
}

// ------------------------------------------------------------------
// Identity configurations

/// A per-identity Universal Auth configuration, as the service reports
/// it. The embedded client id sits behind a [`SecretGuard`].
pub struct IndentityUniversalAuthData {
    pub access_token_max_ttl: u64,
    pub access_token_num_uses_limit: u64,
    pub access_token_ttl: u64,
    pub access_token_trusted_ips: Vec<AccessTokenTrustedIp>,
    pub client_id: SecretGuard,
    pub client_secret_trusted_ips: Vec<ClientSecretTrustedIp>,
    pub created_at: String,
    pub id: String,
    pub identity_id: String,
    pub updated_at: String,
}

/// An identity configuration at the specification level.
pub ghost struct IdentityConfigView {
    pub access_token_max_ttl: u64,
    pub access_token_num_uses_limit: u64,
    pub access_token_ttl: u64,
    pub access_token_trusted_ips: Seq<TrustedIpView>,
    pub client_id: Seq<char>,
    pub client_secret_trusted_ips: Seq<TrustedIpView>,
    pub created_at: Seq<char>,
    pub id: Seq<char>,
    pub identity_id: Seq<char>,
    pub updated_at: Seq<char>,
}

impl View for IndentityUniversalAuthData {
    type V = IdentityConfigView;

    open spec fn view(&self) -> IdentityConfigView {
        IdentityConfigView {
            access_token_max_ttl: self.access_token_max_ttl,
            access_token_num_uses_limit: self.access_token_num_uses_limit,
            access_token_ttl: self.access_token_ttl,
            access_token_trusted_ips: self.access_token_trusted_ips@.map_values(
                |ip: AccessTokenTrustedIp| ip@,
            ),
            client_id: self.client_id@,
            client_secret_trusted_ips: self.client_secret_trusted_ips@.map_values(
                |ip: ClientSecretTrustedIp| ip@,
            ),
            created_at: self.created_at@,
            id: self.id@,
            identity_id: self.identity_id@,
            updated_at: self.updated_at@,
        }
    }
}

/// The envelope the identity endpoints answer with: the configuration
/// record itself.
pub struct IndentityUniversalAuth {
    pub identity_universal_auth: IndentityUniversalAuthData,
}

impl View for IndentityUniversalAuth {
    type V = IdentityConfigView;

    open spec fn view(&self) -> IdentityConfigView {
        self.identity_universal_auth@
    }
}

impl IndentityUniversalAuth {
    /// The configuration's max-TTL for issued access tokens, in seconds.
    pub fn access_token_max_ttl(&self) -> (r: &u64)
        ensures
            r == self@.access_token_max_ttl,
    {
        &self.identity_universal_auth.access_token_max_ttl
    }

    /// The configuration's use limit for issued access tokens; `0` means
    /// unlimited uses.
    pub fn access_token_num_uses_limit(&self) -> (r: &u64)
        ensures
            r == self@.access_token_num_uses_limit,
    {
        &self.identity_universal_auth.access_token_num_uses_limit
    }

    /// The configuration's TTL for issued access tokens, in seconds.
    pub fn access_token_ttl(&self) -> (r: &u64)
        ensures
            r == self@.access_token_ttl,
    {
        &self.identity_universal_auth.access_token_ttl
    }

    /// The trusted-IP list of the access-token scope.
    pub fn access_token_trusted_ips(&self) -> (r: &Vec<AccessTokenTrustedIp>)
        ensures
            r@.map_values(|ip: AccessTokenTrustedIp| ip@) == self@.access_token_trusted_ips,
    {
        &self.identity_universal_auth.access_token_trusted_ips
    }

    /// The identity's client id, read through the guard's explicit
    /// expose.
    pub fn client_id(&self) -> (r: &str)
        ensures
            r@ == self@.client_id,
    {
        self.identity_universal_auth.client_id.expose().as_str()
    }

    /// The trusted-IP list of the client-secret scope.
    pub fn client_secret_trusted_ips(&self) -> (r: &Vec<ClientSecretTrustedIp>)
        ensures
            r@.map_values(|ip: ClientSecretTrustedIp| ip@) == self@.client_secret_trusted_ips,
    {
        &self.identity_universal_auth.client_secret_trusted_ips
    }

    /// When the configuration was created, as the service's timestamp
    /// string.
    pub fn created_at(&self) -> (r: &str)
        ensures
            r@ == self@.created_at,
    {
        self.identity_universal_auth.created_at.as_str()
    }

    /// The configuration record's own id.
    pub fn id(&self) -> (r: &str)
        ensures
            r@ == self@.id,
    {
        self.identity_universal_auth.id.as_str()
    }

    /// The identity the configuration is attached to.
    pub fn identity_id(&self) -> (r: &str)
        ensures
            r@ == self@.identity_id,
    {
        self.identity_universal_auth.identity_id.as_str()
    }

    /// When the configuration was last updated, as the service's
    /// timestamp string.
    pub fn updated_at(&self) -> (r: &str)
        ensures
            r@ == self@.updated_at,
    {
        self.identity_universal_auth.updated_at.as_str()
    }
}

// ------------------------------------------------------------------
// Client secrets

/// The metadata of one rotating client secret — everything but the secret
/// value, which the service returns only at creation time.
pub struct UniversalAuthClientSecretData {
    pub client_secret_num_uses: u64,
    pub client_secret_num_uses_limit: u64,
    pub client_secret_prefix: String,
    pub client_secret_ttl: u64,
    pub created_at: String,
    pub description: String,
    pub id: String,
    pub identity_ua_id: String,
    pub is_client_secret_revoked: bool,
    pub updated_at: String,
}

/// Client-secret metadata at the specification level.
pub ghost struct ClientSecretDataView {
    pub client_secret_num_uses: u64,
    pub client_secret_num_uses_limit: u64,
    pub client_secret_prefix: Seq<char>,
    pub client_secret_ttl: u64,
    pub created_at: Seq<char>,
    pub description: Seq<char>,
    pub id: Seq<char>,
    pub identity_ua_id: Seq<char>,
    pub is_client_secret_revoked: bool,
    pub updated_at: Seq<char>,
}

impl View for UniversalAuthClientSecretData {
    type V = ClientSecretDataView;

    open spec fn view(&self) -> ClientSecretDataView {
        ClientSecretDataView {
            client_secret_num_uses: self.client_secret_num_uses,
            client_secret_num_uses_limit: self.client_secret_num_uses_limit,
            client_secret_prefix: self.client_secret_prefix@,
            client_secret_ttl: self.client_secret_ttl,
            created_at: self.created_at@,
            description: self.description@,
            id: self.id@,
            identity_ua_id: self.identity_ua_id@,
            is_client_secret_revoked: self.is_client_secret_revoked,
            updated_at: self.updated_at@,
        }
    }
}

/// A freshly created client secret: the one-time plaintext value behind a
/// [`SecretGuard`], plus its metadata. The service never returns the
/// plaintext again; later reads yield [`UniversalAuthClientSecretData`]
/// alone.
pub struct UniversalAuthClientSecret {
    pub client_secret: SecretGuard,
    pub client_secret_data: UniversalAuthClientSecretData,
}

/// A list of client-secret metadata records.
pub struct UniversalAuthClientSecretDataList {
    pub client_secret_data: Vec<UniversalAuthClientSecretData>,
}

// ------------------------------------------------------------------
// Decimal rendering

/// The decimal digit character for a value below ten.
pub open spec fn digit_char(d: nat) -> char {
    if d == 0 {
        '0'
    } else if d == 1 {
        '1'
    } else if d == 2 {
        '2'
    } else if d == 3 {
        '3'
    } else if d == 4 {
        '4'
    } else if d == 5 {
        '5'
    } else if d == 6 {
        '6'
    } else if d == 7 {
        '7'
    } else if d == 8 {
        '8'
    } else {
        '9'
    }
}

/// The decimal rendering of a natural number, most significant digit
/// first, without leading zeros (except for zero itself).
pub open spec fn dec_str(n: nat) -> Seq<char>
    decreases n,
{
    if n < 10 {
        seq![digit_char(n)]
    } else {
        dec_str(n / 10).push(digit_char(n % 10))
    }
}

/// The decimal rendering is never empty.
pub proof fn lemma_dec_str_nonempty(n: nat)
    ensures
        dec_str(n).len() >= 1,
    decreases n,
{
    if n >= 10 {
        lemma_dec_str_nonempty(n / 10);
    }
}

/// Distinct numbers render to distinct decimals: the rendering has no
/// leading zeros, so it determines the number.
pub proof fn lemma_dec_str_injective(a: nat, b: nat)
    requires
        dec_str(a) == dec_str(b),
    ensures
        a == b,
    decreases a,
{
    if a < 10 && b < 10 {
        assert(dec_str(a)[0] == digit_char(a));
        assert(dec_str(b)[0] == digit_char(b));
    } else if a >= 10 && b >= 10 {
        assert(dec_str(a).last() == digit_char(a % 10));
        assert(dec_str(b).last() == digit_char(b % 10));
        assert(dec_str(a).drop_last() =~= dec_str(a / 10));
        assert(dec_str(b).drop_last() =~= dec_str(b / 10));
        lemma_dec_str_injective(a / 10, b / 10);
        assert(a % 10 == b % 10);
        vstd::arithmetic::div_mod::lemma_fundamental_div_mod(a as int, 10);
        vstd::arithmetic::div_mod::lemma_fundamental_div_mod(b as int, 10);
    } else if a < 10 {
        lemma_dec_str_nonempty(b / 10);
        assert(dec_str(b).len() >= 2);
    } else {
        lemma_dec_str_nonempty(a / 10);
        assert(dec_str(a).len() >= 2);
    }
}

/// Appending to a common prefix keeps sequences apart: equal results
/// force equal suffixes.
pub proof fn lemma_append_cancels_prefix(p: Seq<char>, x: Seq<char>, y: Seq<char>)
    requires
        p + x == p + y,
    ensures
        x == y,
{
    broadcast use vstd::seq::axiom_seq_add_index2;

    assert(x.len() == y.len()) by {
        assert((p + x).len() == p.len() + x.len());
        assert((p + y).len() == p.len() + y.len());
    }
    assert forall|i: int| 0 <= i < x.len() implies x[i] == y[i] by {
        assert((p + x)[p.len() + i] == x[i]);
        assert((p + y)[p.len() + i] == y[i]);
    }
    assert(x =~= y);
}

/// The one-character string for a decimal digit.
fn digit_str(d: u64) -> (r: &'static str)
    requires
        d < 10,
    ensures
        r@ == seq![digit_char(d as nat)],
{
    if d == 0 {
        let r = "0";
        proof {
            reveal_strlit("0");
            assert(r@ =~= seq![digit_char(0 as nat)]);
        }
        r
    } else if d == 1 {
        let r = "1";
        proof {
            reveal_strlit("1");
            assert(r@ =~= seq![digit_char(1 as nat)]);
        }
        r
    } else if d == 2 {
        let r = "2";
        proof {
            reveal_strlit("2");
            assert(r@ =~= seq![digit_char(2 as nat)]);
        }
        r
    } else if d == 3 {
        let r = "3";
        proof {
            reveal_strlit("3");
            assert(r@ =~= seq![digit_char(3 as nat)]);
        }
        r
    } else if d == 4 {
        let r = "4";
        proof {
            reveal_strlit("4");
            assert(r@ =~= seq![digit_char(4 as nat)]);
        }
        r
    } else if d == 5 {
        let r = "5";
        proof {
            reveal_strlit("5");
            assert(r@ =~= seq![digit_char(5 as nat)]);
        }
        r
    } else if d == 6 {
        let r = "6";
        proof {
            reveal_strlit("6");
            assert(r@ =~= seq![digit_char(6 as nat)]);
        }
        r
    } else if d == 7 {
        let r = "7";
        proof {
            reveal_strlit("7");
            assert(r@ =~= seq![digit_char(7 as nat)]);
        }
        r
    } else if d == 8 {
        let r = "8";
        proof {
            reveal_strlit("8");
            assert(r@ =~= seq![digit_char(8 as nat)]);
        }
        r
    } else {
        let r = "9";
        proof {
            reveal_strlit("9");
            assert(r@ =~= seq![digit_char(9 as nat)]);
        }
        r
    }
}

/// Render a number in decimal.
pub fn u64_to_string(n: u64) -> (r: String)
    ensures
        r@ == dec_str(n as nat),
    decreases n,
{
    if n < 10 {
        String::from_str(digit_str(n))
    } else {
        let mut s = u64_to_string(n / 10);
        s.append(digit_str(n % 10));
        proof {
            assert(s@ =~= dec_str(n as nat));
        }
        s
    }
}

// ------------------------------------------------------------------
// Endpoint URLs

/// The token-auth endpoint for a given action:
/// `{host}/api/{version}/auth/token/{action}`.
pub open spec fn token_endpoint_url_view(
    host: Seq<char>,
    version: Seq<char>,
    endpoint_action: Seq<char>,
) -> Seq<char> {
    host + "/api/"@ + version + "/auth/token/"@ + endpoint_action
}

/// Construct the token-auth endpoint URL for an action.
pub fn construct_universal_auth_token_endpoint_url(
    host: &str,
    version: &str,
    endpoint_action: &str,
) -> (r: String)
    ensures
        r@ == token_endpoint_url_view(host@, version@, endpoint_action@),
{
    let mut url = String::from_str(host);
    url.append("/api/");
    url.append(version);
    url.append("/auth/token/");
    url.append(endpoint_action);
    url
}

/// The login endpoint: `{host}/api/{version}/auth/universal-auth/login`.
pub open spec fn login_url_view(host: Seq<char>, version: Seq<char>) -> Seq<char> {
    host + "/api/"@ + version + "/auth/universal-auth/login"@
}

/// Construct the login endpoint URL.
pub fn construct_login_url(host: &str, version: &str) -> (r: String)
    ensures
        r@ == login_url_view(host@, version@),
{
    let mut url = String::from_str(host);
    url.append("/api/");
    url.append(version);
    url.append("/auth/universal-auth/login");
    url
}

/// The identity endpoint:
/// `{host}/api/{version}/auth/universal-auth/identities/{identity_id}`.
pub open spec fn identity_endpoint_url_view(
    host: Seq<char>,
    version: Seq<char>,
    identity_id: Seq<char>,
) -> Seq<char> {
    host + "/api/"@ + version + "/auth/universal-auth/identities/"@ + identity_id
}

/// Construct the identity endpoint URL.
pub fn construct_identity_endpoint_url(host: &str, version: &str, identity_id: &str) -> (r: String)
    ensures
        r@ == identity_endpoint_url_view(host@, version@, identity_id@),
{
    let mut url = String::from_str(host);
    url.append("/api/");
    url.append(version);
    url.append("/auth/universal-auth/identities/");
    url.append(identity_id);
    url
}

/// The client-secrets collection endpoint of an identity, or — with a
/// secret id — one secret's endpoint.
pub open spec fn client_secret_url_view(
    host: Seq<char>,
    version: Seq<char>,
    identity_id: Seq<char>,
    client_secret_id: Option<Seq<char>>,
) -> Seq<char> {
    match client_secret_id {
        Some(id) => identity_endpoint_url_view(host, version, identity_id) + "/client-secrets"@
            + "/"@ + id,
        None => identity_endpoint_url_view(host, version, identity_id) + "/client-secrets"@,
    }
}

/// Construct a client-secrets endpoint URL.
pub fn construct_client_secret_url(
    host: &str,
    version: &str,
    identity_id: &str,
    client_secret_id: Option<&str>,
) -> (r: String)
    ensures
        r@ == client_secret_url_view(
            host@,
            version@,
            identity_id@,
            match client_secret_id {
                Some(id) => Some(id@),
                None => None,
            },
        ),
{
    let mut url = construct_identity_endpoint_url(host, version, identity_id);
    url.append("/client-secrets");
    match client_secret_id {
        Some(id) => {
            url.append("/");
            url.append(id);
        },
        None => {},
    }
    url
}

} // verus!
