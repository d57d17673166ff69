use rusplay::client::{ClientCreateError, Method, Request, RugplayClient, RugplayError};
use rusplay::models::{
    same_text, ClaimInfo, CoinTradeType, HopiumFilter, HopiumStatus, TradeRequest, TradeType,
};
use rusplay::scheduler::ClaimStatus;
use rusplay::wait::FailureKind;

fn mock_client() -> RugplayClient {
    RugplayClient::new("mock_token", None, Some("http://127.0.0.1:5000"))
        .expect("Failed to create client")
}

fn pairs(request: &Request) -> Vec<(&str, &str)> {
    request.query.iter().map(|(name, value)| (name.as_str(), value.as_str())).collect()
}

#[test]
fn client_defaults_to_the_public_service() {
    let client = RugplayClient::new("token", Some(String::from("session=1")), None).unwrap();
    assert_eq!(client.base_url(), "https://rugplay.com/api/v1");
    assert_eq!(client.token(), "token");
    assert_eq!(client.cookie().as_deref(), Some("session=1"));
}

#[test]
fn client_keeps_the_address_it_was_given() {
    let client = mock_client();
    assert_eq!(client.base_url(), "http://127.0.0.1:5000");
    assert_eq!(client.token(), "mock_token");
    assert_eq!(*client.cookie(), None);
}

#[test]
fn client_refuses_what_is_no_absolute_url() {
    let made = RugplayClient::new("token", None, Some("rugplay.com/api/v1"));
    match made {
        Err(ClientCreateError::InvalidUrl(error)) => {
            assert_eq!(error, url::ParseError::RelativeUrlWithoutBase);
        }
        other => panic!("no error but {other:?}"),
    }
    let made = RugplayClient::new("token", None, Some("https://"));
    match made {
        Err(ClientCreateError::InvalidUrl(error)) => assert_eq!(error, url::ParseError::EmptyHost),
        other => panic!("no error but {other:?}"),
    }
    assert!(RugplayClient::new("token", None, Some("")).is_err());
    assert!(RugplayClient::new("token", None, Some("https://example.net:99999")).is_err());
}

#[test]
fn create_errors_say_what_went_wrong() {
    let error = RugplayClient::new("token", None, Some("nowhere")).unwrap_err();
    assert_eq!(error.to_string(), "Invalid URL");
    let error = ClientCreateError::ReqwestError { message: String::from("tls") };
    assert_eq!(error.to_string(), "Could not build HTTP Client");
}

#[test]
fn top_coins_request() {
    let request = mock_client().get_top_coins();
    assert_eq!(request.method, Method::Get);
    assert_eq!(request.url, "http://127.0.0.1:5000/top");
    assert_eq!(request.token, "mock_token");
    assert!(request.query.is_empty());
    assert_eq!(request.body, None);
}

#[test]
fn market_request_carries_the_parameters_in_order() {
    let params = &[("limit", "5"), ("sortBy", "marketCap"), ("sortOrder", "desc")];
    let request = mock_client().get_market(params);
    assert_eq!(request.method, Method::Get);
    assert_eq!(request.url, "http://127.0.0.1:5000/market");
    assert_eq!(pairs(&request), params.to_vec());
    assert_eq!(request.body, None);
    assert!(mock_client().get_market(&[]).query.is_empty());
}

#[test]
fn coin_details_request() {
    let request = mock_client().get_coin_details("TEST", Some("1m"));
    assert_eq!(request.method, Method::Get);
    assert_eq!(request.url, "http://127.0.0.1:5000/coin/TEST");
    assert_eq!(pairs(&request), vec![("timeframe", "1m")]);
    let request = mock_client().get_coin_details("BTC", None);
    assert_eq!(request.url, "http://127.0.0.1:5000/coin/BTC");
    assert!(request.query.is_empty());
}

#[test]
fn holders_request() {
    let request = mock_client().get_holders("TEST", Some(10));
    assert_eq!(request.method, Method::Get);
    assert_eq!(request.url, "http://127.0.0.1:5000/holders/TEST");
    assert_eq!(pairs(&request), vec![("limit", "10")]);
    let request = mock_client().get_holders("TEST", None);
    assert!(request.query.is_empty());
    let request = mock_client().get_holders("TEST", Some(u32::MAX));
    assert_eq!(pairs(&request), vec![("limit", "4294967295")]);
}

#[test]
fn hopium_request() {
    let request = mock_client().get_hopium(HopiumFilter::ALL, Some(5), Some(1));
    assert_eq!(request.method, Method::Get);
    assert_eq!(request.url, "http://127.0.0.1:5000/hopium");
    assert_eq!(pairs(&request), vec![("limit", "5"), ("status", "ALL"), ("page", "1")]);
    let request = mock_client().get_hopium(HopiumFilter::RESOLVED, None, None);
    assert_eq!(pairs(&request), vec![("limit", "20"), ("status", "RESOLVED"), ("page", "1")]);
    let request = mock_client().get_hopium(HopiumFilter::ACTIVE, None, Some(7));
    assert_eq!(pairs(&request), vec![("limit", "20"), ("status", "ACTIVE"), ("page", "7")]);
}

#[test]
fn hopium_details_request() {
    let request = mock_client().get_hopium_details(101);
    assert_eq!(request.method, Method::Get);
    assert_eq!(request.url, "http://127.0.0.1:5000/hopium/101");
    assert!(request.query.is_empty());
    assert_eq!(mock_client().get_hopium_details(0).url, "http://127.0.0.1:5000/hopium/0");
}

#[test]
fn claim_requests_differ_in_the_method_only() {
    let client = RugplayClient::new("token", None, None).unwrap();
    let info = client.get_claim_info();
    let claim = client.claim_reward();
    assert_eq!(info.method, Method::Get);
    assert_eq!(claim.method, Method::Post);
    assert_eq!(info.url, "https://rugplay.com/api/v1/../rewards/claim");
    assert_eq!(claim.url, info.url);
    assert!(info.query.is_empty() && claim.query.is_empty());
    assert_eq!(info.body, None);
    assert_eq!(claim.body, None);
    assert_eq!(claim.token, "token");
}

#[test]
fn trade_request_has_a_body() {
    let request = mock_client().trade("BTC", CoinTradeType::BUY, 1);
    assert_eq!(request.method, Method::Post);
    assert_eq!(request.url, "http://127.0.0.1:5000/../coin/BTC/trade");
    assert!(request.query.is_empty());
    assert_eq!(request.body, Some(TradeRequest { amount: 1, trade_type: CoinTradeType::BUY }));
    let request = mock_client().trade("BTC", CoinTradeType::SELL, 250);
    assert_eq!(request.body, Some(TradeRequest { amount: 250, trade_type: CoinTradeType::SELL }));
}

#[test]
fn errors_fall_into_three_kinds() {
    let unreachable = RugplayError::Request { status: None, message: String::from("refused") };
    let rejected = RugplayError::Request { status: Some(401), message: String::from("401") };
    let garbled = RugplayError::Deserialize {
        source: String::from("expected value at line 1 column 1"),
        text: String::from("<html>"),
    };
    assert_eq!(unreachable.kind(), FailureKind::Transport);
    assert_eq!(rejected.kind(), FailureKind::Auth);
    assert_eq!(garbled.kind(), FailureKind::Decode);
    assert_eq!(RugplayError::InvalidResponse(String::new()).kind(), FailureKind::Decode);
    assert_eq!(RugplayError::NoCookie.kind(), FailureKind::Auth);
}

#[test]
fn errors_say_what_went_wrong() {
    let rejected = RugplayError::Request { status: Some(401), message: String::from("401") };
    assert_eq!(rejected.to_string(), "HTTP request failed: 401");
    let garbled = RugplayError::Deserialize {
        source: String::from("expected value at line 1 column 1"),
        text: String::from("<html>"),
    };
    assert_eq!(
        garbled.to_string(),
        "Failed to deserialize JSON: expected value at line 1 column 1\nResponse text: <html>"
    );
    let odd = RugplayError::InvalidResponse(String::from("no coins"));
    assert_eq!(odd.to_string(), "Invalid response: no coins");
    assert_eq!(RugplayError::NoCookie.to_string(), "No cookie provided");
}

#[test]
fn filter_is_found_by_its_word() {
    assert_eq!(HopiumFilter::try_from("ACTIVE"), Ok(HopiumFilter::ACTIVE));
    assert_eq!(HopiumFilter::try_from("RESOLVED"), Ok(HopiumFilter::RESOLVED));
    assert_eq!(HopiumFilter::try_from("CANCELLED"), Ok(HopiumFilter::CANCELLED));
    assert_eq!(HopiumFilter::try_from("ALL"), Err(()));
    assert_eq!(HopiumFilter::try_from("active"), Err(()));
    assert_eq!(HopiumFilter::try_from(""), Err(()));
    assert_eq!(HopiumFilter::try_from("ACTIVE "), Err(()));
}

#[test]
fn filter_words_round_trip() {
    for filter in [HopiumFilter::ACTIVE, HopiumFilter::RESOLVED, HopiumFilter::CANCELLED] {
        assert_eq!(HopiumFilter::try_from(filter.as_str()), Ok(filter));
        assert_eq!(filter.to_string(), filter.as_str());
    }
    assert_eq!(HopiumFilter::ALL.to_string(), "ALL");
    assert_eq!(HopiumFilter::ACTIVE.to_string(), "ACTIVE");
    assert_eq!(HopiumFilter::RESOLVED.to_string(), "RESOLVED");
    assert_eq!(HopiumFilter::CANCELLED.to_string(), "CANCELLED");
}

#[test]
fn statuses_and_filters_keep_their_order() {
    assert!(HopiumStatus::ACTIVE < HopiumStatus::RESOLVED);
    assert!(HopiumStatus::RESOLVED < HopiumStatus::CANCELLED);
    assert!(HopiumFilter::CANCELLED < HopiumFilter::ALL);
    assert_ne!(TradeType::TransferIn, TradeType::TransferOut);
    assert_ne!(TradeType::Buy, TradeType::Sell);
}

#[test]
fn same_text_compares_whole_strings() {
    assert!(same_text("", ""));
    assert!(same_text("ACTIVE", "ACTIVE"));
    assert!(!same_text("ACTIVE", "ACTIV"));
    assert!(!same_text("a", "b"));
}

#[test]
fn claim_info_gives_the_status_to_decide_on() {
    let info = ClaimInfo {
        can_claim: false,
        reward_amount: 1500,
        base_reward: 1500,
        prestige_bonus: 0,
        prestige_level: 0,
        time_remaining: 1000,
        next_claim_time: Some(String::from("2025-06-24T16:18:51.278Z")),
        total_rewards_claimed: 3,
        last_reward_claim: None,
        login_streak: 2,
    };
    assert_eq!(info.status(), ClaimStatus { can_claim: false, time_remaining: 1000 });
}
