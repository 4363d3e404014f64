//! What the client is started with: the node's address and the credential.

use vstd::prelude::*;
use vstd::string::{StrSliceExecFns, StringExecFns};

verus! {

/// How a node is reached.
#[derive(Clone, Copy, Debug, PartialEq, Eq, Structural)]
pub enum Transport {
    /// Request and response only.
    Http,
    /// Requests, responses and subscriptions.
    WebSocket,
}

/// Why a configuration was refused.
#[derive(Clone, Copy, Debug, PartialEq, Eq, Structural)]
pub enum ConfigError {
    /// A token was given and it is the empty string.
    EmptyToken,
    /// The address names no transport that the client speaks.
    UnsupportedScheme,
    /// The address names a transport that cannot carry a subscription.
    SubscriptionUnsupported,
}

/// `s` begins with `prefix`.
pub open spec fn has_prefix(s: Seq<char>, prefix: Seq<char>) -> bool {
    prefix.len() <= s.len() && s.subrange(0, prefix.len() as int) == prefix
}

/// The transport that an address selects by its scheme, the part before
/// the first colon: `http` and `https` select request and response, `ws`
/// and `wss` a connection that also carries subscriptions. Any other
/// address selects none.
pub open spec fn spec_transport(url: Seq<char>) -> Option<Transport> {
    if has_prefix(url, "http:"@) || has_prefix(url, "https:"@) {
        Some(Transport::Http)
    } else if has_prefix(url, "ws:"@) || has_prefix(url, "wss:"@) {
        Some(Transport::WebSocket)
    } else {
        None
    }
}

/// Whether `s` begins with `prefix`.
pub fn starts_with(s: &str, prefix: &str) -> (r: bool)
    ensures
        r == has_prefix(s@, prefix@),
{
    let n = prefix.unicode_len();
    if s.unicode_len() < n {
        return false;
    }
    let mut i: usize = 0;
    while i < n
        invariant
            n == prefix@.len(),
            n <= s@.len(),
            i <= n,
            forall|j: int| 0 <= j < i ==> s@[j] == prefix@[j],
        decreases n - i,
    {
        if s.get_char(i) != prefix.get_char(i) {
            assert(s@.subrange(0, n as int)[i as int] != prefix@[i as int]);
            return false;
        }
        i += 1;
    }
    assert(s@.subrange(0, n as int) =~= prefix@);
    true
}

/// The transport that an address selects, if any.
pub fn transport_of(url: &str) -> (r: Option<Transport>)
    ensures
        r == spec_transport(url@),
{
    if starts_with(url, "http:") || starts_with(url, "https:") {
        Some(Transport::Http)
    } else if starts_with(url, "ws:") || starts_with(url, "wss:") {
        Some(Transport::WebSocket)
    } else {
        None
    }
}

/// The address used where none is given.
pub fn default_url() -> (r: String)
    ensures
        r@ == "ws://localhost:26658"@,
        spec_transport(r@) == Some(Transport::WebSocket),
{
    proof {
        reveal_strlit("ws://localhost:26658");
        reveal_strlit("http:");
        reveal_strlit("https:");
        reveal_strlit("ws:");
        let url = "ws://localhost:26658"@;
        assert(url.subrange(0, 3) =~= "ws:"@);
        assert(url.subrange(0, 5)[0] != "http:"@[0]);
        assert(url.subrange(0, 6)[0] != "https:"@[0]);
    }
    String::from_str("ws://localhost:26658")
}

/// The text that the standard library's `Debug` formatting gives a string:
/// the string between double quotes, with escapes for quotes, backslashes
/// and characters that do not print.
pub uninterp spec fn debug_text(s: Seq<char>) -> Seq<char>;

/// Formats a string with the standard library's `{:?}`. The contract names
/// the outcome and claims that it depends on the characters alone.
#[verifier::external_body]
fn debug_quoted(s: &str) -> (r: String)
    ensures
        r@ == debug_text(s@),
{
    format!("{:?}", s)
}

/// The line that shows the token, given the token's quoted form.
pub open spec fn spec_token_line(quoted: Option<Seq<char>>) -> Seq<char> {
    match quoted {
        Some(q) => "Token: Some("@ + q + ")"@,
        None => "Token: None"@,
    }
}

/// The line that shows the address.
pub open spec fn spec_url_line(url: Seq<char>) -> Seq<char> {
    "URL: "@ + url
}

/// The first line of the warning that is shown where no token is given.
pub open spec fn warning_head() -> Seq<char> {
    "WARNING: The authentication token is not provided. Make sure the light node is running with --rpc.skip-auth"@
}

/// The second line of the warning: how to start such a node.
pub open spec fn warning_example() -> Seq<char> {
    "  i.e. `celestia light start --core.ip rpc.celestia.pops.one --p2p.network celestia --rpc.skip-auth`"@
}

/// The third line of the warning: how to hand over a token instead.
pub open spec fn warning_remedy() -> Seq<char> {
    "  If you are running a full node, you can set the token with `export CELESTIA_NODE_AUTH_TOKEN=<token>`"@
}

/// The lines shown at start: the address, the token, and where no token is
/// given the warning, closed by an empty line.
pub open spec fn spec_banner(url: Seq<char>, token: Option<Seq<char>>) -> Seq<Seq<char>> {
    match token {
        Some(t) => seq![spec_url_line(url), spec_token_line(Some(debug_text(t)))],
        None => seq![
            spec_url_line(url),
            spec_token_line(None),
            warning_head(),
            warning_example(),
            warning_remedy(),
            Seq::empty(),
        ],
    }
}

/// The texts of some lines.
pub open spec fn texts(lines: Seq<String>) -> Seq<Seq<char>> {
    lines.map_values(|l: String| l@)
}

/// The line that shows the token, given the token's quoted form.
pub fn token_line(quoted: Option<&str>) -> (r: String)
    ensures
        r@ == spec_token_line(
            match quoted {
                Some(q) => Some(q@),
                None => None,
            },
        ),
{
    match quoted {
        Some(q) => String::from_str("Token: Some(").concat(q).concat(")"),
        None => String::from_str("Token: None"),
    }
}

/// A credential: a bearer token that is not empty.
#[derive(Debug, PartialEq, Eq)]
pub struct AuthToken {
    value: String,
}

impl View for AuthToken {
    type V = Seq<char>;

    closed spec fn view(&self) -> Seq<char> {
        self.value@
    }
}

impl AuthToken {
    #[verifier::type_invariant]
    spec fn inv(&self) -> bool {
        self.value@.len() > 0
    }

    /// The token of `value`, unless `value` is empty.
    pub fn new(value: String) -> (r: Result<AuthToken, ConfigError>)
        ensures
            value@.len() > 0 ==> r is Ok && r->Ok_0@ == value@,
            value@.len() == 0 ==> r == Err::<AuthToken, ConfigError>(ConfigError::EmptyToken),
    {
        if value.as_str().is_empty() {
            Err(ConfigError::EmptyToken)
        } else {
            Ok(AuthToken { value })
        }
    }

    /// The token as it is sent. It is never empty.
    pub fn as_str(&self) -> (r: &str)
        ensures
            r@ == self@,
            r@.len() > 0,
    {
        proof {
            use_type_invariant(self);
        }
        self.value.as_str()
    }
}

/// The texts of the tokens: an absent token stays absent.
pub open spec fn token_text(token: Option<AuthToken>) -> Option<Seq<char>> {
    match token {
        Some(t) => Some(t@),
        None => None,
    }
}

/// The text of a token as it was given, if one was given.
pub open spec fn given_text(token: Option<String>) -> Option<Seq<char>> {
    match token {
        Some(t) => Some(t@),
        None => None,
    }
}

/// What becomes of a token as it was given: an absent token stays absent, a
/// present token is kept character for character, and a token that is
/// present and empty is refused.
pub open spec fn spec_accept_token(given: Option<Seq<char>>) -> Result<
    Option<Seq<char>>,
    ConfigError,
> {
    match given {
        None => Ok(None),
        Some(t) => if t.len() == 0 {
            Err(ConfigError::EmptyToken)
        } else {
            Ok(Some(t))
        },
    }
}

/// The token passes through unchanged. Where a configuration is made, it
/// holds a token exactly when one was given, and then the very token that
/// was given; the empty token never gets that far, and nothing else is
/// refused.
pub proof fn lemma_token_passes_through(given: Option<Seq<char>>)
    ensures
        spec_accept_token(given) is Err <==> given == Some(Seq::<char>::empty()),
        spec_accept_token(given) is Ok ==> spec_accept_token(given)->Ok_0 == given,
        spec_accept_token(given) is Ok ==> spec_accept_token(given)->Ok_0 != Some(
            Seq::<char>::empty(),
        ),
{
    if given is Some {
        let t = given->Some_0;
        if t.len() == 0 {
            assert(t =~= Seq::<char>::empty());
        }
    }
}

/// What the client was started with.
#[derive(Debug, PartialEq, Eq)]
pub struct ClientConfig {
    url: String,
    token: Option<AuthToken>,
}

impl ClientConfig {
    /// The node's address.
    pub closed spec fn spec_url(&self) -> Seq<char> {
        self.url@
    }

    /// The token, if one was given.
    pub closed spec fn spec_token(&self) -> Option<Seq<char>> {
        token_text(self.token)
    }

    /// The configuration of an address and a token as they were given. The
    /// address is kept as it is and the token is judged by
    /// [`spec_accept_token`]: only a token that is present and empty is
    /// refused.
    pub fn new(url: String, token: Option<String>) -> (r: Result<ClientConfig, ConfigError>)
        ensures
            match spec_accept_token(given_text(token)) {
                Ok(kept) => r is Ok && r->Ok_0.spec_url() == url@ && r->Ok_0.spec_token()
                    == kept,
                Err(e) => r == Err::<ClientConfig, ConfigError>(e),
            },
    {
        match token {
            None => Ok(ClientConfig { url, token: None }),
            Some(t) => match AuthToken::new(t) {
                Ok(token) => Ok(ClientConfig { url, token: Some(token) }),
                Err(e) => Err(e),
            },
        }
    }

    /// The node's address.
    pub fn url(&self) -> (r: &str)
        ensures
            r@ == self.spec_url(),
    {
        self.url.as_str()
    }

    /// The token to send with every request: the one that was given, and
    /// none where none was given. A token that is sent is never empty.
    pub fn bearer(&self) -> (r: Option<&str>)
        ensures
            match self.spec_token() {
                Some(t) => r is Some && r->Some_0@ == t && t.len() > 0,
                None => r is None,
            },
    {
        match &self.token {
            Some(t) => Some(t.as_str()),
            None => None,
        }
    }

    /// The transport that the address selects, if any.
    pub fn transport(&self) -> (r: Option<Transport>)
        ensures
            r == spec_transport(self.spec_url()),
    {
        transport_of(self.url.as_str())
    }

    /// Whether the header feed can be had at this address: only a
    /// connection that carries subscriptions will do.
    pub fn check_subscription(&self) -> (r: Result<(), ConfigError>)
        ensures
            r == match spec_transport(self.spec_url()) {
                Some(Transport::WebSocket) => Ok::<(), ConfigError>(()),
                Some(Transport::Http) => Err(ConfigError::SubscriptionUnsupported),
                None => Err(ConfigError::UnsupportedScheme),
            },
    {
        match self.transport() {
            Some(Transport::WebSocket) => Ok(()),
            Some(Transport::Http) => Err(ConfigError::SubscriptionUnsupported),
            None => Err(ConfigError::UnsupportedScheme),
        }
    }

    /// Whether a blob can be submitted and read back at this address: any
    /// transport that the client speaks will do.
    pub fn check_request(&self) -> (r: Result<(), ConfigError>)
        ensures
            r == match spec_transport(self.spec_url()) {
                Some(_) => Ok::<(), ConfigError>(()),
                None => Err(ConfigError::UnsupportedScheme),
            },
    {
        match self.transport() {
            Some(_) => Ok(()),
            None => Err(ConfigError::UnsupportedScheme),
        }
    }

    /// The lines to show at start.
    pub fn banner(&self) -> (r: Vec<String>)
        ensures
            texts(r@) == spec_banner(self.spec_url(), self.spec_token()),
    {
        let mut lines: Vec<String> = Vec::new();
        lines.push(String::from_str("URL: ").concat(self.url.as_str()));
        match &self.token {
            Some(t) => {
                let quoted = debug_quoted(t.as_str());
                lines.push(token_line(Some(quoted.as_str())));
            },
            None => {
                lines.push(token_line(None));
                lines.push(
                    String::from_str(
                        "WARNING: The authentication token is not provided. Make sure the light node is running with --rpc.skip-auth",
                    ),
                );
                lines.push(
                    String::from_str(
                        "  i.e. `celestia light start --core.ip rpc.celestia.pops.one --p2p.network celestia --rpc.skip-auth`",
                    ),
                );
                lines.push(
                    String::from_str(
                        "  If you are running a full node, you can set the token with `export CELESTIA_NODE_AUTH_TOKEN=<token>`",
                    ),
                );
                lines.push(String::new());
            },
        }
        assert(texts(lines@) =~= spec_banner(self.spec_url(), self.spec_token()));
        lines
    }
}

} // verus!
