//! The client of the service as a planner of requests: it says which request
//! an operation needs, and leaves sending it to the driver.

use vstd::prelude::*;
use vstd::string::*;
use crate::decimal::{decimal, to_decimal};
use crate::models::{CoinTradeType, HopiumFilter, TradeRequest};
use crate::wait::{text_of, FailureKind};

verus! {

/// The error type of the `url` crate's parser.
#[verifier::external_type_specification]
#[verifier::external_body]
pub struct ExParseError(url::ParseError);

/// Whether `text` is an absolute URL.
pub uninterp spec fn is_absolute_url(text: Seq<char>) -> bool;

/// Calls `url::Url::parse` and drops the parsed URL. Trusted: whether the
/// call succeeds is a matter of the text alone, and it succeeds exactly on
/// the texts named absolute URLs here.
#[verifier::external_body]
fn check_url(text: &str) -> (outcome: Result<(), url::ParseError>)
    ensures
        outcome.is_ok() == is_absolute_url(text@),
{
    match url::Url::parse(text) {
        Ok(_) => Ok(()),
        Err(error) => Err(error),
    }
}

/// Why no client could be made.
#[derive(Debug)]
pub enum ClientCreateError {
    /// The base URL is no absolute URL.
    InvalidUrl(url::ParseError),
    /// The HTTP client could not be built; the driver reports this.
    ReqwestError { message: String },
}

/// What can go wrong with a call to the service.
#[derive(Debug)]
pub enum RugplayError {
    /// The request failed: the service was not reached (no status), or it
    /// answered with a status that refuses the request.
    Request { status: Option<u16>, message: String },
    /// The body is not the JSON that was expected.
    Deserialize { source: String, text: String },
    /// The body is well-formed and still makes no sense.
    InvalidResponse(String),
    /// The operation needs a session cookie and the client has none.
    NoCookie,
}

/// The kind of failure that an error stands for.
pub open spec fn kind_of(error: RugplayError) -> FailureKind {
    match error {
        RugplayError::Request { status: None, .. } => FailureKind::Transport,
        RugplayError::Request { status: Some(_), .. } => FailureKind::Auth,
        RugplayError::Deserialize { .. } => FailureKind::Decode,
        RugplayError::InvalidResponse(_) => FailureKind::Decode,
        RugplayError::NoCookie => FailureKind::Auth,
    }
}

/// What an error says, in words.
pub open spec fn message_of(error: RugplayError) -> Seq<char> {
    match error {
        RugplayError::Request { message, .. } => "HTTP request failed: "@ + message@,
        RugplayError::Deserialize { source, text } => "Failed to deserialize JSON: "@ + source@
            + "\nResponse text: "@ + text@,
        RugplayError::InvalidResponse(what) => "Invalid response: "@ + what@,
        RugplayError::NoCookie => "No cookie provided"@,
    }
}

impl RugplayError {
    /// The kind of failure that the error stands for.
    pub fn kind(&self) -> (kind: FailureKind)
        ensures
            kind == kind_of(*self),
    {
        match self {
            RugplayError::Request { status, .. } => match status {
                Some(_) => FailureKind::Auth,
                None => FailureKind::Transport,
            },
            RugplayError::Deserialize { .. } => FailureKind::Decode,
            RugplayError::InvalidResponse(_) => FailureKind::Decode,
            RugplayError::NoCookie => FailureKind::Auth,
        }
    }

    /// What the error says, in words.
    pub fn to_string(&self) -> (text: String)
        ensures
            text@ == message_of(*self),
    {
        match self {
            RugplayError::Request { message, .. } => {
                "HTTP request failed: ".to_owned().concat(message.as_str())
            },
            RugplayError::Deserialize { source, text } => {
                let mut out = "Failed to deserialize JSON: ".to_owned();
                out.append(source.as_str());
                out.append("\nResponse text: ");
                out.append(text.as_str());
                out
            },
            RugplayError::InvalidResponse(what) => {
                "Invalid response: ".to_owned().concat(what.as_str())
            },
            RugplayError::NoCookie => "No cookie provided".to_owned(),
        }
    }
}

impl ClientCreateError {
    /// What the error says, in words.
    pub fn to_string(&self) -> (text: String)
        ensures
            self is InvalidUrl ==> text@ == "Invalid URL"@,
            self is ReqwestError ==> text@ == "Could not build HTTP Client"@,
    {
        match self {
            ClientCreateError::InvalidUrl(_) => "Invalid URL".to_owned(),
            ClientCreateError::ReqwestError { .. } => "Could not build HTTP Client".to_owned(),
        }
    }
}

/// The HTTP method of a request.
#[derive(Clone, Copy, Debug, PartialEq, Eq, Structural)]
pub enum Method {
    Get,
    Post,
}

/// A request that the driver is to send.
#[derive(Debug)]
pub struct Request {
    /// The HTTP method.
    pub method: Method,
    /// The address, without the query.
    pub url: String,
    /// The bearer token to authorise with.
    pub token: String,
    /// The query parameters, in order.
    pub query: Vec<(String, String)>,
    /// The JSON body, where the request has one.
    pub body: Option<TradeRequest>,
}

/// A request as plain values.
pub struct RequestView {
    pub method: Method,
    pub url: Seq<char>,
    pub token: Seq<char>,
    pub query: Seq<(Seq<char>, Seq<char>)>,
    pub body: Option<TradeRequest>,
}

/// Query parameters as plain values.
pub open spec fn query_view(query: Seq<(String, String)>) -> Seq<(Seq<char>, Seq<char>)> {
    Seq::new(query.len(), |i: int| (query[i].0@, query[i].1@))
}

/// Borrowed query parameters as plain values.
pub open spec fn params_view(params: Seq<(&str, &str)>) -> Seq<(Seq<char>, Seq<char>)> {
    Seq::new(params.len(), |i: int| (params[i].0@, params[i].1@))
}

impl View for Request {
    type V = RequestView;

    open spec fn view(&self) -> RequestView {
        RequestView {
            method: self.method,
            url: self.url@,
            token: self.token@,
            query: query_view(self.query@),
            body: self.body,
        }
    }
}

/// The address of an endpoint below a base address.
pub open spec fn endpoint_url(base: Seq<char>, endpoint: Seq<char>) -> Seq<char> {
    base + "/"@ + endpoint
}

/// The number of questions to a page: 20 unless asked otherwise.
pub open spec fn page_size(limit: Option<u32>) -> u32 {
    match limit {
        Some(most) => most,
        None => 20,
    }
}

/// The page to list: the first unless asked otherwise.
pub open spec fn page_number(page: Option<u32>) -> u32 {
    match page {
        Some(asked) => asked,
        None => 1,
    }
}

/// The base address of the public service.
pub open spec fn default_base_url() -> Seq<char> {
    "https://rugplay.com/api/v1"@
}

/// A client of the service: where it lives and how to authorise.
#[derive(Debug)]
pub struct RugplayClient {
    base_url: String,
    token: String,
    cookie: Option<String>,
}

impl RugplayClient {
    /// The base address that every request starts from.
    pub closed spec fn spec_base_url(&self) -> Seq<char> {
        self.base_url@
    }

    /// The bearer token.
    pub closed spec fn spec_token(&self) -> Seq<char> {
        self.token@
    }

    /// The session cookie, where there is one.
    pub closed spec fn spec_cookie(&self) -> Option<Seq<char>> {
        text_of(self.cookie)
    }

    /// The request for `endpoint` with the given method, query and body.
    pub open spec fn plan(
        &self,
        method: Method,
        endpoint: Seq<char>,
        query: Seq<(Seq<char>, Seq<char>)>,
        body: Option<TradeRequest>,
    ) -> RequestView {
        RequestView {
            method,
            url: endpoint_url(self.spec_base_url(), endpoint),
            token: self.spec_token(),
            query,
            body,
        }
    }

    /// A client with a token and an optional session cookie, which the
    /// unofficial operations need. Without `url` it talks to the public
    /// service; a `url` that is no absolute URL is refused.
    pub fn new(token: &str, cookie: Option<String>, url: Option<&str>) -> (made: Result<
        Self,
        ClientCreateError,
    >)
        ensures
            url.is_none() ==> made.is_ok(),
            url matches Some(given) ==> made.is_ok() == is_absolute_url(given@),
            made matches Err(error) ==> error is InvalidUrl,
            made matches Ok(client) ==> client.spec_token() == token@ && client.spec_cookie()
                == text_of(cookie) && client.spec_base_url() == match url {
                Some(given) => given@,
                None => default_base_url(),
            },
    {
        let base_url = match url {
            Some(given) => {
                match check_url(given) {
                    Ok(_) => given.to_owned(),
                    Err(error) => {
                        return Err(ClientCreateError::InvalidUrl(error));
                    },
                }
            },
            None => "https://rugplay.com/api/v1".to_owned(),
        };
        Ok(RugplayClient { base_url, token: token.to_owned(), cookie })
    }

    /// The base address that every request starts from.
    pub fn base_url(&self) -> (url: &str)
        ensures
            url@ == self.spec_base_url(),
    {
        self.base_url.as_str()
    }

    /// The bearer token.
    pub fn token(&self) -> (token: &str)
        ensures
            token@ == self.spec_token(),
    {
        self.token.as_str()
    }

    /// The session cookie, where there is one.
    pub fn cookie(&self) -> (cookie: &Option<String>)
        ensures
            text_of(*cookie) == self.spec_cookie(),
    {
        &self.cookie
    }

    /// The address of `endpoint` below the base address.
    fn url_of(&self, endpoint: &str) -> (url: String)
        ensures
            url@ == endpoint_url(self.spec_base_url(), endpoint@),
    {
        let mut url = self.base_url.clone();
        url.append("/");
        url.append(endpoint);
        url
    }

    /// A GET request for `endpoint`.
    fn get(&self, endpoint: &str, query: Vec<(String, String)>) -> (request: Request)
        ensures
            request@ == self.plan(Method::Get, endpoint@, query_view(query@), None),
    {
        Request {
            method: Method::Get,
            url: self.url_of(endpoint),
            token: self.token.clone(),
            query,
            body: None,
        }
    }

    /// A POST request for `endpoint`.
    fn post(
        &self,
        endpoint: &str,
        query: Vec<(String, String)>,
        body: Option<TradeRequest>,
    ) -> (request: Request)
        ensures
            request@ == self.plan(Method::Post, endpoint@, query_view(query@), body),
    {
        Request {
            method: Method::Post,
            url: self.url_of(endpoint),
            token: self.token.clone(),
            query,
            body,
        }
    }

    /// The top coins by market capitalisation.
    pub fn get_top_coins(&self) -> (request: Request)
        ensures
            request@ == self.plan(Method::Get, "top"@, Seq::empty(), None),
    {
        let request = self.get("top", Vec::new());
        assert(request@.query =~= Seq::empty());
        request
    }

    /// Market data, paged, filtered and sorted as `params` say: `search`,
    /// `sortBy`, `sortOrder`, `priceFilter`, `changeFilter`, `page`, `limit`.
    pub fn get_market(&self, params: &[(&str, &str)]) -> (request: Request)
        ensures
            request@ == self.plan(Method::Get, "market"@, params_view(params@), None),
    {
        let mut query: Vec<(String, String)> = Vec::new();
        let mut i: usize = 0;
        while i < params.len()
            invariant
                i <= params.len(),
                query@.len() == i,
                forall|k: int|
                    0 <= k < i ==> (#[trigger] query@[k]).0@ == params@[k].0@ && query@[k].1@
                        == params@[k].1@,
            decreases params.len() - i,
        {
            let (name, value) = params[i];
            query.push((name.to_owned(), value.to_owned()));
            i += 1;
        }
        let request = self.get("market", query);
        assert(request@.query =~= params_view(params@));
        request
    }

    /// One coin in detail, with its price history. `timeframe` is one of
    /// `1m`, `5m`, `15m`, `1h`, `4h`, `1d`; the service takes `1m` without it.
    pub fn get_coin_details(&self, symbol: &str, timeframe: Option<&str>) -> (request: Request)
        ensures
            request@ == self.plan(
                Method::Get,
                "coin/"@ + symbol@,
                match timeframe {
                    Some(frame) => seq![("timeframe"@, frame@)],
                    None => Seq::empty(),
                },
                None,
            ),
    {
        let endpoint = "coin/".to_owned().concat(symbol);
        let mut query: Vec<(String, String)> = Vec::new();
        match timeframe {
            Some(frame) => {
                query.push(("timeframe".to_owned(), frame.to_owned()));
            },
            None => {},
        }
        let request = self.get(endpoint.as_str(), query);
        assert(request@.query =~= match timeframe {
            Some(frame) => seq![("timeframe"@, frame@)],
            None => Seq::empty(),
        });
        request
    }

    /// The largest holders of a coin; the service lists 50 without `limit`
    /// and at most 200.
    pub fn get_holders(&self, symbol: &str, limit: Option<u32>) -> (request: Request)
        ensures
            request@ == self.plan(
                Method::Get,
                "holders/"@ + symbol@,
                match limit {
                    Some(most) => seq![("limit"@, decimal(most as nat))],
                    None => Seq::empty(),
                },
                None,
            ),
    {
        let endpoint = "holders/".to_owned().concat(symbol);
        let mut query: Vec<(String, String)> = Vec::new();
        match limit {
            Some(most) => {
                query.push(("limit".to_owned(), to_decimal(most as u64)));
            },
            None => {},
        }
        let request = self.get(endpoint.as_str(), query);
        assert(request@.query =~= match limit {
            Some(most) => seq![("limit"@, decimal(most as nat))],
            None => Seq::empty(),
        });
        request
    }

    /// Prediction questions, filtered by status and paged: 20 to a page and
    /// the first page where nothing else is asked for.
    pub fn get_hopium(
        &self,
        hopium_status: HopiumFilter,
        limit: Option<u32>,
        page: Option<u32>,
    ) -> (request: Request)
        ensures
            request@ == self.plan(
                Method::Get,
                "hopium"@,
                seq![
                    ("limit"@, decimal(page_size(limit) as nat)),
                    ("status"@, hopium_status.label()),
                    ("page"@, decimal(page_number(page) as nat)),
                ],
                None,
            ),
    {
        let size: u32 = match limit {
            Some(most) => most,
            None => 20,
        };
        let number: u32 = match page {
            Some(asked) => asked,
            None => 1,
        };
        let mut query: Vec<(String, String)> = Vec::new();
        query.push(("limit".to_owned(), to_decimal(size as u64)));
        query.push(("status".to_owned(), hopium_status.to_string()));
        query.push(("page".to_owned(), to_decimal(number as u64)));
        let request = self.get("hopium", query);
        assert(request@.query =~= seq![
            ("limit"@, decimal(size as nat)),
            ("status"@, hopium_status.label()),
            ("page"@, decimal(number as nat)),
        ]);
        request
    }

    /// One prediction question in detail, with its recent bets and the
    /// history of its odds.
    pub fn get_hopium_details(&self, question_id: u32) -> (request: Request)
        ensures
            request@ == self.plan(
                Method::Get,
                "hopium/"@ + decimal(question_id as nat),
                Seq::empty(),
                None,
            ),
    {
        let id = to_decimal(question_id as u64);
        let endpoint = "hopium/".to_owned().concat(id.as_str());
        let request = self.get(endpoint.as_str(), Vec::new());
        assert(request@.query =~= Seq::empty());
        request
    }

    /// The state of the claim window. Unofficial: needs the session cookie.
    pub fn get_claim_info(&self) -> (request: Request)
        ensures
            request@ == self.plan(Method::Get, "../rewards/claim"@, Seq::empty(), None),
    {
        let request = self.get("../rewards/claim", Vec::new());
        assert(request@.query =~= Seq::empty());
        request
    }

    /// Claims the reward. Unofficial: needs the session cookie.
    pub fn claim_reward(&self) -> (request: Request)
        ensures
            request@ == self.plan(Method::Post, "../rewards/claim"@, Seq::empty(), None),
    {
        let request = self.post("../rewards/claim", Vec::new(), None);
        assert(request@.query =~= Seq::empty());
        request
    }

    /// Buys or sells `amount` of `coin`. Unofficial: needs the session cookie.
    pub fn trade(&self, coin: &str, trade_type: CoinTradeType, amount: u32) -> (request: Request)
        ensures
            request@ == self.plan(
                Method::Post,
                "../coin/"@ + coin@ + "/trade"@,
                Seq::empty(),
                Some(TradeRequest { amount, trade_type }),
            ),
    {
        let mut endpoint = "../coin/".to_owned();
        endpoint.append(coin);
        endpoint.append("/trade");
        let request = self.post(
            endpoint.as_str(),
            Vec::new(),
            Some(TradeRequest { amount, trade_type }),
        );
        assert(request@.query =~= Seq::empty());
        request
    }
}

} // verus!
