use vstd::prelude::*;
use vstd::string::StringSliceAdditionalSpecFns;
use crate::errors::GenericError;
use crate::models::ShortUrlModel;
use crate::schemas::{ApplicationSettings, CreateUrlRequest, CreateUrlResponseData, GenericResponse};
use crate::shortcode::{generate_short_url, is_short_code};
use crate::store::{find_url, holds_code, lemma_find_absent, lemma_find_after_insert, UrlStore};
use crate::token::{decode_token_at, is_expired, now_unix, token_claims};
use crate::text::push_str;

verus! {

/// The public address of a short code.
pub open spec fn address(domain: Seq<char>, code: Seq<char>) -> Seq<char> {
    "https://"@ + domain + "/"@ + code
}

/// Builds `https://{domain}/{code}`.
pub fn short_url_address(domain: &str, code: &str) -> (r: String)
    ensures
        r@ == address(domain@, code@),
{
    let mut s = "https://".to_owned();
    push_str(&mut s, domain);
    push_str(&mut s, "/");
    push_str(&mut s, code);
    s
}

/// `r` reports a new short URL for `code` under `domain`.
pub open spec fn is_shortened(r: Result<GenericResponse<CreateUrlResponseData>, GenericError>, domain: Seq<char>, code: Seq<char>) -> bool {
    &&& r matches Ok(resp)
    &&& resp.status
    &&& resp.customer_message@ == "Successfully created short url"@
    &&& resp.code@ == "200"@
    &&& resp.data matches Some(d)
    &&& d.short_url@ == address(domain, code)
}

/// `r` reports that the store refused the record, without its cause.
pub open spec fn is_store_failure(r: Result<GenericResponse<CreateUrlResponseData>, GenericError>) -> bool {
    r matches Err(GenericError::ValidationError(m)) && m@ == "Internal Server Error"@
}

/// `after` is `before` with one record added for `code`.
pub open spec fn inserted_record(
    before: Seq<ShortUrlModel>,
    after: Seq<ShortUrlModel>,
    original_url: Seq<char>,
    code: Seq<char>,
    user_id: u128,
    created_on: i64,
) -> bool {
    &&& after.len() == before.len() + 1
    &&& after.drop_last() == before
    &&& after.last().short_url@ == code
    &&& after.last().original_url@ == original_url
    &&& after.last().user_id == user_id
    &&& after.last().created_on == created_on
}

/// What shortening with the given code does to the store and returns.
pub open spec fn shortened_with(
    before: UrlStore,
    after: UrlStore,
    r: Result<GenericResponse<CreateUrlResponseData>, GenericError>,
    user_id: u128,
    original_url: Seq<char>,
    domain: Seq<char>,
    code: Seq<char>,
    created_on: i64,
) -> bool {
    &&& after.wf()
    &&& if !holds_code(before@, code) && before.next_id() < i32::MAX {
        is_shortened(r, domain, code) && inserted_record(before@, after@, original_url, code, user_id, created_on)
    } else {
        is_store_failure(r) && after@ == before@
    }
}

/// The answer to a shorten request once the store has taken or refused the record.
pub fn shorten_response(domain: &str, short_code: &str, inserted: bool) -> (r: Result<GenericResponse<CreateUrlResponseData>, GenericError>)
    ensures
        inserted ==> is_shortened(r, domain@, short_code@),
        !inserted ==> is_store_failure(r),
{
    if inserted {
        let data = CreateUrlResponseData { short_url: short_url_address(domain, short_code) };
        Ok(GenericResponse::success("Successfully created short url", Some(data)))
    } else {
        Err(GenericError::ValidationError("Internal Server Error".to_owned()))
    }
}

/// Stores `original_url` under the given code for `user_id`, and answers.
pub fn shorten_with_code(
    store: &mut UrlStore,
    user_id: u128,
    original_url: &str,
    domain: &str,
    code: &str,
    created_on: i64,
) -> (r: Result<GenericResponse<CreateUrlResponseData>, GenericError>)
    requires
        old(store).wf(),
    ensures
        shortened_with(*old(store), *final(store), r, user_id, original_url@, domain@, code@, created_on),
{
    let inserted = store.insert_url(original_url, code, user_id, created_on);
    shorten_response(domain, code, inserted.is_ok())
}

/// Handles a shorten request for the authenticated `user_id`: draws a code,
/// stores the record stamped `created_on`, and answers with its address.
/// If the drawn code is taken already the request fails: there is no second draw.
pub fn create_short_url(
    store: &mut UrlStore,
    user_id: Option<u128>,
    req: &CreateUrlRequest,
    application: &ApplicationSettings,
    created_on: i64,
) -> (r: Result<GenericResponse<CreateUrlResponseData>, GenericError>)
    requires
        old(store).wf(),
    ensures
        user_id is None ==> final(store)@ == old(store)@ && final(store).wf()
            && (r matches Err(GenericError::ValidationError(m)) && m@ == "User ID not found"@),
        user_id matches Some(u) ==> exists|code: Seq<char>| is_short_code(code)
            && shortened_with(*old(store), *final(store), r, u, req.original_url@, application.domain@, code, created_on),
{
    match user_id {
        None => Err(GenericError::ValidationError("User ID not found".to_owned())),
        Some(u) => {
            let code = generate_short_url();
            shorten_with_code(store, u, req.original_url.as_str(), application.domain.as_str(), code.as_str(), created_on)
        },
    }
}

/// Shortening and then redirecting on the code returns the URL that was given,
/// unchanged.
pub proof fn lemma_shorten_then_redirect(
    before: Seq<ShortUrlModel>,
    after: Seq<ShortUrlModel>,
    original_url: Seq<char>,
    code: Seq<char>,
    user_id: u128,
    created_on: i64,
)
    requires
        inserted_record(before, after, original_url, code, user_id, created_on),
    ensures
        find_url(after, code) == Some(original_url),
{
    assert(after == before.push(after.last()));
    lemma_find_after_insert(before, after.last());
}

/// A redirect on a code that was never stored answers "not found", not an error.
pub proof fn lemma_never_inserted_not_found(recs: Seq<ShortUrlModel>, code: Seq<char>, r: RedirectResponse)
    requires
        !holds_code(recs, code),
    ensures
        redirects_to(r, find_url(recs, code)) <==> r matches RedirectResponse::NotFound,
{
    lemma_find_absent(recs, code);
}

/// What a redirect request is answered with.
pub enum RedirectResponse {
    /// 302, with the stored URL as `Location`.
    Found(String),
    /// 404: no record holds the code.
    NotFound,
    /// 500: the store failed.
    InternalError,
}

impl RedirectResponse {
    /// HTTP status of this answer.
    pub fn status_code(&self) -> (r: u16)
        ensures
            self matches RedirectResponse::Found(_) ==> r == 302,
            self matches RedirectResponse::NotFound ==> r == 404,
            self matches RedirectResponse::InternalError ==> r == 500,
    {
        match self {
            RedirectResponse::Found(_) => 302,
            RedirectResponse::NotFound => 404,
            RedirectResponse::InternalError => 500,
        }
    }
}

/// `r` answers a lookup that found `url`, or nothing.
pub open spec fn redirects_to(r: RedirectResponse, url: Option<Seq<char>>) -> bool {
    match url {
        Some(u) => r matches RedirectResponse::Found(x) && x@ == u,
        None => r matches RedirectResponse::NotFound,
    }
}

/// The answer to a redirect request, given what the store's lookup gave.
pub fn redirect_outcome(lookup: Result<Option<String>, ()>) -> (r: RedirectResponse)
    ensures
        lookup matches Ok(found) ==> redirects_to(r, match found {
            Some(u) => Some(u@),
            None => None,
        }),
        lookup is Err ==> r matches RedirectResponse::InternalError,
{
    match lookup {
        Ok(Some(u)) => RedirectResponse::Found(u),
        Ok(None) => RedirectResponse::NotFound,
        Err(()) => RedirectResponse::InternalError,
    }
}

/// Handles a redirect request for `short_url`. Needs no authentication.
pub fn redirect_short_url(store: &UrlStore, short_url: &str) -> (r: RedirectResponse)
    requires
        store.wf(),
    ensures
        redirects_to(r, find_url(store@, short_url@)),
{
    redirect_outcome(Ok(store.get_original_url(short_url)))
}

/// Why the auth gate stops a request with this `Authorization` header at `now`,
/// or `None` if it lets the request through.
pub open spec fn gate_refusal(header: Option<Seq<char>>, key: Seq<u8>, now: u64) -> Option<Seq<char>> {
    match header {
        None => Some("Missing authorization token"@),
        Some(t) => match token_claims(t, key) {
            None => Some("Invalid Token"@),
            Some(c) => if is_expired(c.1, now) { Some("Token expired"@) } else { None },
        },
    }
}

/// Subject carried by an admitted request.
pub open spec fn gate_subject(header: Option<Seq<char>>, key: Seq<u8>) -> u128 {
    match header {
        Some(t) => match token_claims(t, key) {
            Some(c) => c.0,
            None => 0,
        },
        None => 0,
    }
}

/// `r` is the auth gate's verdict on an `Authorization` header at `now`.
pub open spec fn gate_verdict(r: Result<u128, GenericError>, header: Option<Seq<char>>, key: Seq<u8>, now: u64) -> bool {
    match gate_refusal(header, key, now) {
        Some(m) => r matches Err(GenericError::InvalidJWT(x)) && x@ == m,
        None => r == Ok::<u128, GenericError>(gate_subject(header, key)),
    }
}

/// The view of an optional header value.
pub open spec fn header_view(header: Option<&str>) -> Option<Seq<char>> {
    match header {
        Some(t) => Some(t@),
        None => None,
    }
}

/// The auth gate at the instant `now`: the subject of a valid bearer token in the
/// `Authorization` header, or the refusal that stops the request.
pub fn authenticate_at(header: Option<&str>, secret: &str, now: u64) -> (r: Result<u128, GenericError>)
    ensures
        gate_verdict(r, header_view(header), secret.spec_bytes(), now),
{
    match header {
        None => Err(GenericError::InvalidJWT("Missing authorization token".to_owned())),
        Some(token) => match decode_token_at(token, secret, now) {
            Ok(sub) => Ok(sub),
            Err(e) => Err(GenericError::InvalidJWT(e.message())),
        },
    }
}

/// The auth gate at the current wall-clock time.
pub fn authenticate(header: Option<&str>, secret: &str) -> (r: Result<u128, GenericError>)
    ensures
        exists|now: u64| gate_verdict(r, header_view(header), secret.spec_bytes(), now),
{
    let clock = now_unix();
    let now: u64 = if clock < 0 { 0 } else { clock as u64 };
    authenticate_at(header, secret, now)
}

/// A shorten request as the service runs it at `now`: the auth gate first, then
/// the handler for the subject it lets through. A refused request is answered
/// with 401 and leaves the store untouched.
pub fn shorten_authorized(
    store: &mut UrlStore,
    authorization: Option<&str>,
    secret: &str,
    now: u64,
    req: &CreateUrlRequest,
    application: &ApplicationSettings,
    created_on: i64,
) -> (r: Result<GenericResponse<CreateUrlResponseData>, GenericError>)
    requires
        old(store).wf(),
    ensures
        gate_refusal(header_view(authorization), secret.spec_bytes(), now) matches Some(m) ==> {
            &&& r matches Err(GenericError::InvalidJWT(x)) && x@ == m
            &&& final(store)@ == old(store)@
            &&& final(store).next_id() == old(store).next_id()
            &&& final(store).wf()
        },
        gate_refusal(header_view(authorization), secret.spec_bytes(), now) is None ==> exists|code: Seq<char>|
            is_short_code(code) && shortened_with(
                *old(store),
                *final(store),
                r,
                gate_subject(header_view(authorization), secret.spec_bytes()),
                req.original_url@,
                application.domain@,
                code,
                created_on,
            ),
{
    match authenticate_at(authorization, secret, now) {
        Err(e) => Err(e),
        Ok(sub) => create_short_url(store, Some(sub), req, application, created_on),
    }
}

} // verus!
