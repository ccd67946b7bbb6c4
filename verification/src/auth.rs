//! Credentials of the callers of the control plane.

use crate::text::{characters, same_text};
use vstd::prelude::*;
use vstd::string::*;

verus! {

/// Who calls the control plane.
#[derive(Clone, Copy, Debug, PartialEq, Eq, Structural)]
pub enum CallerRole {
    Operator,
    Proxy,
    Sidecar,
}

/// A character that a bearer token may hold: visible ASCII.
pub open spec fn token_character(character: char) -> bool {
    '!' <= character <= '~'
}

/// A text that can be sent as a bearer token.
pub open spec fn bearer_token(secret: Seq<char>) -> bool {
    secret.len() > 0 && forall|i: int| 0 <= i < secret.len() ==> token_character(#[trigger] secret[i])
}

/// A token that cannot be sent in an authorization header.
#[derive(Clone, Debug, PartialEq, Eq)]
pub struct InvalidBearerToken {
    pub name: String,
}

/// A secret that authenticates a caller.
#[derive(Clone, Debug, PartialEq, Eq)]
pub struct BearerToken {
    secret: String,
}

impl View for BearerToken {
    type V = Seq<char>;

    closed spec fn view(&self) -> Seq<char> {
        self.secret@
    }
}

fn is_bearer_token(secret: &str) -> (result: bool)
    ensures
        result == bearer_token(secret@),
{
    let list = characters(secret);
    if list.len() == 0 {
        return false;
    }
    let mut index: usize = 0;
    while index < list.len()
        invariant
            index <= list.len(),
            list@ == secret@,
            forall|i: int| 0 <= i < index ==> token_character(#[trigger] secret@[i]),
        decreases list.len() - index,
    {
        if list[index] < '!' || list[index] > '~' {
            assert(!token_character(secret@[index as int]));
            return false;
        }
        index = index + 1;
    }
    true
}

impl BearerToken {
    /// The token that a secret makes. `name` tells an operator which one it is.
    pub fn new(name: &str, secret: &str) -> (token: Result<BearerToken, InvalidBearerToken>)
        ensures
            match token {
                Ok(token) => bearer_token(secret@) && token@ == secret@,
                Err(error) => !bearer_token(secret@) && error.name@ == name@,
            },
    {
        if is_bearer_token(secret) {
            Ok(BearerToken { secret: secret.to_owned() })
        } else {
            Err(InvalidBearerToken { name: name.to_owned() })
        }
    }

    /// The secret itself.
    pub fn as_secret_str(&self) -> (secret: &str)
        ensures
            secret@ == self@,
    {
        self.secret.as_str()
    }

    /// What a caller sends in its authorization header.
    pub fn authorization_header_value(&self) -> (value: String)
        ensures
            value@ == "Bearer "@ + self@,
    {
        "Bearer ".to_owned().concat(self.secret.as_str())
    }

    /// The same token once more.
    pub fn duplicate(&self) -> (token: BearerToken)
        ensures
            token@ == self@,
    {
        BearerToken { secret: self.secret.clone() }
    }

    /// Whether two tokens hold the same secret.
    pub fn same(&self, other: &BearerToken) -> (same: bool)
        ensures
            same == (self@ == other@),
    {
        same_text(self.secret.as_str(), other.secret.as_str())
    }
}

/// Tokens that cannot tell the callers apart.
#[derive(Clone, Copy, Debug, PartialEq, Eq, Structural)]
pub enum InvalidStaticBearerTokens {
    /// The token of a role cannot be sent.
    InvalidToken { role: CallerRole },
    /// Two roles have one token.
    DuplicateToken { first: CallerRole, second: CallerRole },
}

impl InvalidStaticBearerTokens {
    /// The sentence that tells an operator what is wrong.
    pub fn to_text(&self) -> (sentence: String)
        ensures
            sentence@ == (match self {
                InvalidStaticBearerTokens::InvalidToken { role } => role_word(*role)
                    + " bearer token must be visible ASCII"@,
                InvalidStaticBearerTokens::DuplicateToken { first, second } => role_word(*first)
                    + " and "@ + role_word(*second) + " bearer tokens must differ"@,
            }),
    {
        match self {
            InvalidStaticBearerTokens::InvalidToken { role } => role.as_str().to_owned().concat(
                " bearer token must be visible ASCII",
            ),
            InvalidStaticBearerTokens::DuplicateToken { first, second } => {
                first.as_str().to_owned().concat(" and ").concat(second.as_str()).concat(
                    " bearer tokens must differ",
                )
            },
        }
    }
}

/// The word for a role.
pub open spec fn role_word(role: CallerRole) -> Seq<char> {
    match role {
        CallerRole::Operator => "operator"@,
        CallerRole::Proxy => "proxy"@,
        CallerRole::Sidecar => "sidecar"@,
    }
}

impl CallerRole {
    /// The word for the role.
    pub fn as_str(self) -> (word: &'static str)
        ensures
            word@ == role_word(self),
    {
        match self {
            CallerRole::Operator => "operator",
            CallerRole::Proxy => "proxy",
            CallerRole::Sidecar => "sidecar",
        }
    }
}

/// One token for each role.
#[derive(Debug, PartialEq, Eq)]
pub struct StaticBearerTokens {
    operator: BearerToken,
    proxy: BearerToken,
    sidecar: BearerToken,
}

/// The mathematical model of [`StaticBearerTokens`].
#[verifier::ext_equal]
pub struct TokensView {
    pub operator: Seq<char>,
    pub proxy: Seq<char>,
    pub sidecar: Seq<char>,
}

impl TokensView {
    /// The token of a role.
    pub open spec fn of(self, role: CallerRole) -> Seq<char> {
        match role {
            CallerRole::Operator => self.operator,
            CallerRole::Proxy => self.proxy,
            CallerRole::Sidecar => self.sidecar,
        }
    }
}

impl View for StaticBearerTokens {
    type V = TokensView;

    closed spec fn view(&self) -> TokensView {
        TokensView { operator: self.operator@, proxy: self.proxy@, sidecar: self.sidecar@ }
    }
}

/// What is wrong with tokens: one that cannot be sent, else two that are one.
pub open spec fn tokens_fault(tokens: TokensView) -> Option<InvalidStaticBearerTokens> {
    if !bearer_token(tokens.operator) {
        Some(InvalidStaticBearerTokens::InvalidToken { role: CallerRole::Operator })
    } else if !bearer_token(tokens.proxy) {
        Some(InvalidStaticBearerTokens::InvalidToken { role: CallerRole::Proxy })
    } else if !bearer_token(tokens.sidecar) {
        Some(InvalidStaticBearerTokens::InvalidToken { role: CallerRole::Sidecar })
    } else if tokens.operator == tokens.proxy {
        Some(
            InvalidStaticBearerTokens::DuplicateToken {
                first: CallerRole::Operator,
                second: CallerRole::Proxy,
            },
        )
    } else if tokens.operator == tokens.sidecar {
        Some(
            InvalidStaticBearerTokens::DuplicateToken {
                first: CallerRole::Operator,
                second: CallerRole::Sidecar,
            },
        )
    } else if tokens.proxy == tokens.sidecar {
        Some(
            InvalidStaticBearerTokens::DuplicateToken {
                first: CallerRole::Proxy,
                second: CallerRole::Sidecar,
            },
        )
    } else {
        None
    }
}

/// A token tells its role: no two roles that got past the checks share one.
pub proof fn law_token_tells_the_role(tokens: TokensView, left: CallerRole, right: CallerRole)
    requires
        tokens_fault(tokens) is None,
    ensures
        bearer_token(tokens.of(left)),
        tokens.of(left) == tokens.of(right) ==> left == right,
{
}

impl Clone for StaticBearerTokens {
    fn clone(&self) -> (copy: StaticBearerTokens)
        ensures
            copy@ == self@,
    {
        proof {
            use_type_invariant(self);
        }
        StaticBearerTokens {
            operator: self.operator.duplicate(),
            proxy: self.proxy.duplicate(),
            sidecar: self.sidecar.duplicate(),
        }
    }
}

impl StaticBearerTokens {
    #[verifier::type_invariant]
    spec fn told_apart(self) -> bool {
        tokens_fault(self@) is None
    }

    /// The tokens of the three roles, if they can be sent and told apart.
    pub fn new(operator: &str, proxy: &str, sidecar: &str) -> (tokens: Result<
        StaticBearerTokens,
        InvalidStaticBearerTokens,
    >)
        ensures
            ({
                let asked = TokensView { operator: operator@, proxy: proxy@, sidecar: sidecar@ };
                match tokens {
                    Ok(tokens) => tokens@ == asked && tokens_fault(asked) is None,
                    Err(fault) => tokens_fault(asked) == Some(fault),
                }
            }),
    {
        let operator = match BearerToken::new("operator", operator) {
            Ok(token) => token,
            Err(_) => {
                return Err(
                    InvalidStaticBearerTokens::InvalidToken { role: CallerRole::Operator },
                );
            },
        };
        let proxy = match BearerToken::new("proxy", proxy) {
            Ok(token) => token,
            Err(_) => {
                return Err(InvalidStaticBearerTokens::InvalidToken { role: CallerRole::Proxy });
            },
        };
        let sidecar = match BearerToken::new("sidecar", sidecar) {
            Ok(token) => token,
            Err(_) => {
                return Err(InvalidStaticBearerTokens::InvalidToken { role: CallerRole::Sidecar });
            },
        };
        if operator.same(&proxy) {
            return Err(
                InvalidStaticBearerTokens::DuplicateToken {
                    first: CallerRole::Operator,
                    second: CallerRole::Proxy,
                },
            );
        }
        if operator.same(&sidecar) {
            return Err(
                InvalidStaticBearerTokens::DuplicateToken {
                    first: CallerRole::Operator,
                    second: CallerRole::Sidecar,
                },
            );
        }
        if proxy.same(&sidecar) {
            return Err(
                InvalidStaticBearerTokens::DuplicateToken {
                    first: CallerRole::Proxy,
                    second: CallerRole::Sidecar,
                },
            );
        }
        Ok(StaticBearerTokens { operator, proxy, sidecar })
    }

    /// The token of a role.
    pub fn token_for(&self, role: CallerRole) -> (token: &BearerToken)
        ensures
            token@ == self@.of(role),
            tokens_fault(self@) is None,
    {
        proof {
            use_type_invariant(self);
        }
        match role {
            CallerRole::Operator => &self.operator,
            CallerRole::Proxy => &self.proxy,
            CallerRole::Sidecar => &self.sidecar,
        }
    }
}

/// How callers show who they are.
#[derive(Clone, Debug, PartialEq, Eq)]
pub enum AuthConfig {
    /// They do not.
    NoAuth,
    /// By the token of their role.
    StaticBearerTokens(StaticBearerTokens),
}

impl View for AuthConfig {
    type V = Option<TokensView>;

    open spec fn view(&self) -> Option<TokensView> {
        match self {
            AuthConfig::NoAuth => None,
            AuthConfig::StaticBearerTokens(tokens) => Some(tokens@),
        }
    }
}

impl AuthConfig {
    /// The token that sidecars get, where callers show one.
    pub fn sidecar_bearer_token(&self) -> (token: Option<&BearerToken>)
        ensures
            match (self@, token) {
                (None, None) => true,
                (Some(tokens), Some(token)) => token@ == tokens.sidecar,
                _ => false,
            },
    {
        match self {
            AuthConfig::NoAuth => None,
            AuthConfig::StaticBearerTokens(tokens) => Some(tokens.token_for(CallerRole::Sidecar)),
        }
    }

    /// Whether callers show who they are.
    pub fn is_configured(&self) -> (configured: bool)
        ensures
            configured == (self@ is Some),
    {
        match self {
            AuthConfig::NoAuth => false,
            AuthConfig::StaticBearerTokens(_) => true,
        }
    }
}

} // verus!
