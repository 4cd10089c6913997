//! The auth strategies: how an outgoing request to a provider is
//! credentialed. The OAuth-exchange strategy reads the token lifecycle
//! manager's cached value; the static-key strategy attaches a pre-shared
//! secret. Neither touches the network when decorating a request.
use vstd::prelude::*;

use crate::json::Json;
use crate::json::JsonV;
use crate::json::lookup;
use crate::json::vlookup;
use crate::strutil::spec_decimal;
use crate::strutil::u16_decimal;
use crate::token::AuthToken;
use crate::token::TokenInterceptor;
use crate::LlmError;

verus! {

/// Where the OAuth-style provider exchanges credentials for tokens.
pub fn gigachat_auth_url() -> (r: String)
    ensures
        r@ == "https://ngw.devices.sberbank.ru:9443/api/v2/oauth"@,
{
    "https://ngw.devices.sberbank.ru:9443/api/v2/oauth".to_owned()
}

/// The scope sent with a token exchange when none is configured.
pub fn default_exchange_scope() -> (r: String)
    ensures
        r@ == "GIGACHAT_API_PERS"@,
{
    "GIGACHAT_API_PERS".to_owned()
}

/// The configured scope, or the default one.
pub fn effective_scope(scope: Option<String>) -> (r: String)
    ensures
        scope matches Some(s) ==> r@ == s@,
        scope is None ==> r@ == "GIGACHAT_API_PERS"@,
{
    match scope {
        Some(s) => s,
        None => default_exchange_scope(),
    }
}

/// Everything a token exchange call needs: where to post, which headers to
/// attach, and the form fields of the body.
#[derive(Debug)]
pub struct AuthRequest {
    pub url: String,
    pub headers: Vec<(String, String)>,
    pub form: Vec<(String, String)>,
}

/// Builds the token exchange request: `Authorization: Basic <credential>`,
/// a caller-supplied request id, and the scope as a form field.
pub fn build_auth_request(credential: &str, scope: &str, auth_url: &str, request_id: &str) -> (r:
    AuthRequest)
    ensures
        r.url@ == auth_url@,
        r.headers.deep_view() =~= seq![
            ("Accept"@, "application/json"@),
            ("RqUID"@, request_id@),
            ("Authorization"@, "Basic "@ + credential@),
        ],
        r.form.deep_view() =~= seq![("scope"@, scope@)],
{
    let mut headers: Vec<(String, String)> = Vec::new();
    headers.push(("Accept".to_owned(), "application/json".to_owned()));
    headers.push(("RqUID".to_owned(), request_id.to_owned()));
    let mut basic = "Basic ".to_owned();
    basic.append(credential);
    headers.push(("Authorization".to_owned(), basic));
    let mut form: Vec<(String, String)> = Vec::new();
    form.push(("scope".to_owned(), scope.to_owned()));
    AuthRequest { url: auth_url.to_owned(), headers, form }
}

/// The exchange payload is well-formed: an object with a non-empty
/// `access_token` string and an integer `expires_at` (milliseconds).
pub open spec fn spec_auth_payload_ok(j: JsonV) -> bool {
    &&& j matches JsonV::Obj(fs)
    &&& vlookup(fs, "access_token"@) matches Some(t) && t matches JsonV::Str(tok) && tok.len() > 0
    &&& vlookup(fs, "expires_at"@) matches Some(e) && e is Int
}

/// Validates the token exchange's outcome: a success status whose payload
/// carries a non-empty `access_token` and an `expires_at` instant yields
/// the token; anything else is an authentication failure, and a
/// non-success status is reported in the error's detail.
pub fn parse_auth_response(status: u16, body: &Json) -> (r: Result<AuthToken, LlmError>)
    ensures
        r is Ok <==> (200 <= status < 300 && spec_auth_payload_ok(body.deep_view())),
        r matches Ok(t) ==> (body.deep_view() matches JsonV::Obj(fs) && vlookup(
            fs,
            "access_token"@,
        ) == Some(JsonV::Str(t.access_token@)) && vlookup(fs, "expires_at"@) == Some(
            JsonV::Int(t.expires_at_ms),
        ) && t.access_token@.len() > 0),
        r matches Err(e) ==> e is Auth,
        !(200 <= status < 300) ==> (r matches Err(e) && e matches LlmError::Auth(d) && d@
            == "exchange returned status "@ + spec_decimal(status as int)),
    {
        if status < 200 || status >= 300 {
            let mut detail = "exchange returned status ".to_owned();
            let rendered = u16_decimal(status);
            detail.append(rendered.as_str());
            return Err(LlmError::Auth(detail));
        }
        match body {
            Json::Obj(fields) => {
                proof {
                    crate::json::lemma_json_view_fields(fields@);
                    assert(*body == Json::Obj(*fields));
                    assert(crate::json::json_view_fields(fields@) =~= fields.deep_view());
                }
                let tok: String = match lookup(fields, &"access_token".to_owned()) {
                    Some(j) => match j {
                        Json::Str(s) => s.clone(),
                        _ => {
                            return Err(LlmError::Auth("missing access_token".to_owned()));
                        },
                    },
                    _ => {
                        return Err(LlmError::Auth("missing access_token".to_owned()));
                    },
                };
                if tok.as_str().is_empty() {
                    return Err(LlmError::Auth("empty access token".to_owned()));
                }
                let expires_at_ms: i64 = match lookup(fields, &"expires_at".to_owned()) {
                    Some(j) => match j {
                        Json::Int(e) => *e,
                        _ => {
                            return Err(LlmError::Auth("missing expires_at".to_owned()));
                        },
                    },
                    _ => {
                        return Err(LlmError::Auth("missing expires_at".to_owned()));
                    },
                };
                Ok(AuthToken { access_token: tok, expires_at_ms })
            },
            _ => Err(LlmError::Auth("exchange payload is not an object".to_owned())),
        }
    }

/// A capability to credential outgoing requests: appends whatever the
/// upstream needs to a request's header list, from cached state only.
pub trait AuthProvider {
    /// The bearer value this strategy attaches.
    spec fn bearer_spec(&self) -> Seq<char>;

    /// Appends `Authorization: Bearer <credential>` to the headers.
    fn with_auth(&self, headers: &mut Vec<(String, String)>)
        ensures
            final(headers).deep_view() == old(headers).deep_view().push(
                ("Authorization"@, "Bearer "@ + self.bearer_spec()),
            ),
    ;
}

/// The OAuth-exchange strategy: reads the token lifecycle manager's cached
/// value on every request.
#[derive(Clone, Debug)]
pub struct GigaChatAuth {
    pub token_interceptor: TokenInterceptor,
}

impl GigaChatAuth {
    /// Wraps an already-initialized token lifecycle manager.
    pub fn new(token_interceptor: TokenInterceptor) -> (r: GigaChatAuth)
        ensures
            r.token_interceptor == token_interceptor,
    {
        GigaChatAuth { token_interceptor }
    }
}

impl AuthProvider for GigaChatAuth {
    open spec fn bearer_spec(&self) -> Seq<char> {
        self.token_interceptor.token_spec()
    }

    fn with_auth(&self, headers: &mut Vec<(String, String)>) {
        let token = self.token_interceptor.get_token();
        let mut bearer = "Bearer ".to_owned();
        bearer.append(token.as_str());
        let h = ("Authorization".to_owned(), bearer);
        let ghost hm = h;
        let ghost pre = *headers;
        headers.push(h);
        proof {
            crate::lemma_deep_view_push(pre, *headers, hm);
            assert(headers.deep_view() =~= old(headers).deep_view().push(
                ("Authorization"@, "Bearer "@ + self.bearer_spec()),
            ));
        }
    }
}

/// The static-key strategy: a pre-shared secret, no exchange step.
#[derive(Clone, Debug)]
pub struct DeepseekAuth {
    pub api_key: String,
}

impl AuthProvider for DeepseekAuth {
    open spec fn bearer_spec(&self) -> Seq<char> {
        self.api_key@
    }

    fn with_auth(&self, headers: &mut Vec<(String, String)>) {
        let mut bearer = "Bearer ".to_owned();
        bearer.append(self.api_key.as_str());
        let h = ("Authorization".to_owned(), bearer);
        let ghost hm = h;
        let ghost pre = *headers;
        headers.push(h);
        proof {
            crate::lemma_deep_view_push(pre, *headers, hm);
            assert(headers.deep_view() =~= old(headers).deep_view().push(
                ("Authorization"@, "Bearer "@ + self.bearer_spec()),
            ));
        }
    }
}

} // verus!
