use vstd::prelude::*;

verus! {

/// Body of a request to shorten a URL.
pub struct CreateUrlRequest {
    /// Taken as an opaque string: no scheme check, no normalisation.
    pub original_url: String,
    /// Optional expiry, in Unix seconds. Accepted and not used.
    pub expiry_date: Option<i64>,
}

/// What a successful shorten request returns.
pub struct CreateUrlResponseData {
    pub short_url: String,
}

/// The claims a bearer token carries: its subject and its expiry instant.
pub struct JWTClaims {
    /// The subject's UUID, as its 128-bit value.
    pub sub: u128,
    /// Expiry, in Unix seconds.
    pub exp: u64,
}

/// The envelope every response of the service is wrapped in.
pub struct GenericResponse<D> {
    pub status: bool,
    pub customer_message: String,
    pub code: String,
    pub data: Option<D>,
}

impl<D> GenericResponse<D> {
    /// A successful response, with code "200".
    pub fn success(message: &str, data: Option<D>) -> (r: Self)
        ensures
            r.status,
            r.customer_message@ == message@,
            r.code@ == "200"@,
            r.data == data,
    {
        GenericResponse { status: true, customer_message: message.to_owned(), code: "200".to_owned(), data }
    }

    /// A failed response with the given code.
    pub fn error(message: &str, code: &str, data: Option<D>) -> (r: Self)
        ensures
            !r.status,
            r.customer_message@ == message@,
            r.code@ == code@,
            r.data == data,
    {
        GenericResponse { status: false, customer_message: message.to_owned(), code: code.to_owned(), data }
    }
}

/// Where the service listens, and the public domain of the addresses it hands out.
pub struct ApplicationSettings {
    pub port: u16,
    pub host: String,
    pub workers: usize,
    pub domain: String,
}

/// Origin of a request, as stored.
#[derive(Clone, Copy, Debug, PartialEq, Eq, Structural)]
pub enum DataSource {
    PlaceOrder,
    TradeIndia,
    Rapidor,
}

impl DataSource {
    /// The snake-case name used when the value is stored or sent.
    pub fn as_str(&self) -> (r: &'static str)
        ensures
            *self == DataSource::PlaceOrder ==> r@ == "place_order"@,
            *self == DataSource::TradeIndia ==> r@ == "trade_india"@,
            *self == DataSource::Rapidor ==> r@ == "rapidor"@,
    {
        match self {
            DataSource::PlaceOrder => "place_order",
            DataSource::TradeIndia => "trade_india",
            DataSource::Rapidor => "rapidor",
        }
    }
}

} // verus!
