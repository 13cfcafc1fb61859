use binance_cex::client::Client;
use binance_cex::signer::{sign_request, signature};

const SECRET: &str = "NhqPtmdSJYdKjVHjA7PZj4Mge3R5YNiP1e3UZjInClVN65XAbvqqM6A7H5fATj0j";
const QUERY: &str = "symbol=LTCBTC&side=BUY&type=LIMIT&timeInForce=GTC&quantity=1&price=0.1\
                     &recvWindow=5000&timestamp=1499827319559";

#[test]
fn signature_of_a_known_message() {
    assert_eq!(
        signature("key", "The quick brown fox jumps over the lazy dog"),
        "f7bc83f430538424b13298e6aa6fb143ef4d59a14946175997479dbc2d1a3cd8"
    );
}

#[test]
fn signature_of_a_documented_request() {
    assert_eq!(
        signature(SECRET, QUERY),
        "c8db56825ae71d6d79447849e617115f4a920fa2acdcab2b053c4b2838bd6b71"
    );
}

#[test]
fn signed_query_appends_the_signature() {
    let signed = sign_request(SECRET, Some(QUERY));
    let expected = format!(
        "{}&signature=c8db56825ae71d6d79447849e617115f4a920fa2acdcab2b053c4b2838bd6b71",
        QUERY
    );
    assert_eq!(signed, expected);
}

#[test]
fn signing_nothing_signs_the_empty_message() {
    let expected = "signature=b613679a0814d9ec772f95d778c35fc5ff1697c493715653c6c712144292c5ad";
    assert_eq!(sign_request("", None), expected);
    assert_eq!(sign_request("", Some("")), expected);
}

#[test]
fn the_signature_depends_on_the_secret() {
    let a = sign_request("a", None);
    let b = sign_request("b", None);
    assert_ne!(a, b);
    assert_eq!(a.len(), "signature=".len() + 64);
    assert!(a[10..].chars().all(|c| c.is_ascii_digit() || ('a'..='f').contains(&c)));
}

#[test]
fn signing_is_repeatable() {
    assert_eq!(sign_request(SECRET, Some("a=1")), sign_request(SECRET, Some("a=1")));
}

#[test]
fn a_client_signs_with_its_secret() {
    let client =
        Client::new(Some("k".to_string()), Some(SECRET.to_string()), "https://api.binance.com");
    assert_eq!(client.sign_request(Some(QUERY)), sign_request(SECRET, Some(QUERY)));
    assert_eq!(client.get_keys(), ("k", SECRET));
    let bare = Client::new(None, None, "https://api.binance.com");
    assert_eq!(bare.get_keys(), ("", ""));
    assert_eq!(bare.sign_request(None), sign_request("", None));
}

#[test]
fn signatures_cover_bytes_outside_ascii() {
    // HMAC-SHA256 with the key "é" of the message "ü", both as UTF-8
    let text = signature("é", "ü");
    assert_eq!(text.len(), 64);
    assert_ne!(text, signature("e", "u"));
}
