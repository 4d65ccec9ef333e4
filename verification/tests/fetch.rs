use pet_gallery::error::{AnimalKind, ConfigError, FetchError, LockError};
use pet_gallery::fetch::{
    fetch_base, fetch_cat_data, fetch_dog_data, key_variable, on_body, on_reply, resolve_key,
    BodyFailure, HttpRequest, Pair, CAT_API_URL, DOG_API_URL,
};
use pet_gallery::gallery::Gallery;
use pet_gallery::record::AnimalRecord;
use pet_gallery::status::HttpStatus;

fn status(code: u16) -> HttpStatus {
    HttpStatus::from_u16(code).unwrap()
}

fn pair(name: &str, value: &str) -> Pair {
    Pair { name: name.to_string(), value: value.to_string() }
}

#[test]
fn fetch_base_builds_the_request() {
    let r = fetch_base("http://x/search", "secret");
    assert_eq!(
        r,
        HttpRequest {
            url: "http://x/search".to_string(),
            headers: vec![pair("x-api-key", "secret")],
            query: vec![pair("size", "med"), pair("has_breeds", "true")],
        }
    );
}

#[test]
fn dog_and_cat_requests_differ_in_the_address_only() {
    let d = fetch_dog_data("k1");
    let c = fetch_cat_data("k2");
    assert_eq!(DOG_API_URL, "https://api.thedogapi.com/v1/images/search");
    assert_eq!(CAT_API_URL, "https://api.thecatapi.com/v1/images/search");
    assert_eq!(d, fetch_base(DOG_API_URL, "k1"));
    assert_eq!(c, fetch_base(CAT_API_URL, "k2"));
    assert_eq!(d.query, c.query);
}

#[test]
fn reply_200_with_one_record_yields_that_record() {
    assert_eq!(on_reply(Ok((status(200), "body"))), Ok("body"));
    let decoded = vec![AnimalRecord { url: "http://x/1.jpg".to_string(), breeds: vec![] }];
    let got = on_body(Ok(decoded)).unwrap();
    assert_eq!(got.len(), 1);
    assert_eq!(got[0].url, "http://x/1.jpg");
    assert!(got[0].breeds.is_empty());
}

#[test]
fn reply_500_yields_a_status_error_with_the_code() {
    let mut g = Gallery::new();
    g.like_dog(AnimalRecord::new("d".to_string()));
    let next = on_reply(Ok((status(500), "body")));
    assert_eq!(next, Err(FetchError::ApiStatus(status(500))));
    match next {
        Err(FetchError::ApiStatus(s)) => {
            assert_eq!(s.as_u16(), 500);
            assert_eq!(
                FetchError::ApiStatus(s).message(),
                "API-Anfrage fehlgeschlagen mit Status: 500 Internal Server Error"
            );
        }
        _ => panic!("a status error is expected"),
    }
    assert_eq!(g.get_liked_dog_data(), vec![AnimalRecord::new("d".to_string())]);
    assert!(g.get_liked_cat_data().is_empty());
}

#[test]
fn invalid_body_yields_a_decode_error() {
    let mut g = Gallery::new();
    g.like_cat(AnimalRecord::new("c".to_string()));
    assert_eq!(on_reply(Ok((status(200), 7u8))), Ok(7u8));
    let r = on_body(Err(BodyFailure::Malformed("expected value at line 1 column 1".to_string())));
    assert_eq!(r, Err(FetchError::Decode("expected value at line 1 column 1".to_string())));
    assert_eq!(
        r.unwrap_err().message(),
        "Fehler beim Parsen der JSON-Antwort: expected value at line 1 column 1"
    );
    assert!(g.get_liked_dog_data().is_empty());
    assert_eq!(g.get_liked_cat_data(), vec![AnimalRecord::new("c".to_string())]);
}

#[test]
fn failed_body_read_yields_a_transport_error() {
    let mut g = Gallery::new();
    g.like_dog(AnimalRecord::new("d".to_string()));
    assert_eq!(on_reply(Ok((status(200), "reply"))), Ok("reply"));
    let r = on_body(Err(BodyFailure::Transport("connection reset by peer".to_string())));
    assert_eq!(r, Err(FetchError::Transport("connection reset by peer".to_string())));
    let message = r.unwrap_err().message();
    assert_eq!(message, "Fehler beim Senden der API-Anfrage: connection reset by peer");
    assert!(message.contains("connection reset by peer"));
    assert!(!message.contains("Parsen"));
    assert_eq!(g.get_liked_dog_data(), vec![AnimalRecord::new("d".to_string())]);
    assert!(g.get_liked_cat_data().is_empty());
}

#[test]
fn one_complaint_is_sorted_by_where_it_arose() {
    let text = "operation timed out";
    assert_eq!(
        on_body(Err(BodyFailure::Transport(text.to_string()))),
        Err(FetchError::Transport(text.to_string()))
    );
    assert_eq!(
        on_body(Err(BodyFailure::Malformed(text.to_string()))),
        Err(FetchError::Decode(text.to_string()))
    );
}

#[test]
fn failed_request_yields_a_transport_error() {
    let next = on_reply::<()>(Err("connection refused".to_string()));
    assert_eq!(next, Err(FetchError::Transport("connection refused".to_string())));
    assert_eq!(
        FetchError::Transport("connection refused".to_string()).message(),
        "Fehler beim Senden der API-Anfrage: connection refused"
    );
}

#[test]
fn success_is_200_to_299() {
    assert!(!status(100).is_success());
    assert!(!status(199).is_success());
    assert!(status(200).is_success());
    assert!(status(204).is_success());
    assert!(status(299).is_success());
    assert!(!status(300).is_success());
    assert!(!status(404).is_success());
    assert!(!status(999).is_success());
    assert_eq!(on_reply(Ok((status(299), ()))), Ok(()));
    assert_eq!(on_reply(Ok((status(199), ()))), Err(FetchError::ApiStatus(status(199))));
    assert_eq!(on_reply(Ok((status(300), ()))), Err(FetchError::ApiStatus(status(300))));
}

#[test]
fn status_numbers_lie_between_100_and_999() {
    assert!(HttpStatus::from_u16(0).is_none());
    assert!(HttpStatus::from_u16(99).is_none());
    assert_eq!(HttpStatus::from_u16(100).unwrap().as_u16(), 100);
    assert_eq!(HttpStatus::from_u16(999).unwrap().as_u16(), 999);
    assert!(HttpStatus::from_u16(1000).is_none());
    assert!(HttpStatus::from_u16(u16::MAX).is_none());
}

#[test]
fn status_text_is_number_and_reason() {
    assert_eq!(status(404).text(), "404 Not Found");
    assert_eq!(status(200).text(), "200 OK");
    assert_eq!(status(999).text(), "999 <unknown status code>");
    assert_eq!(
        FetchError::ApiStatus(status(404)).message(),
        "API-Anfrage fehlgeschlagen mit Status: 404 Not Found"
    );
}

#[test]
fn status_message_opens_with_the_fixed_text() {
    assert_eq!(
        pet_gallery::error::status_message("418 I'm a teapot"),
        "API-Anfrage fehlgeschlagen mit Status: 418 I'm a teapot"
    );
    assert_eq!(pet_gallery::error::status_message(""), "API-Anfrage fehlgeschlagen mit Status: ");
}

#[test]
fn lock_error_message() {
    let e = LockError { detail: "poisoned lock: another task failed inside".to_string() };
    assert_eq!(
        e.message(),
        "Fehler beim Sperren des Mutex: poisoned lock: another task failed inside"
    );
}

#[test]
fn keys_are_resolved_per_kind() {
    assert_eq!(key_variable(AnimalKind::Dog), "DOG_API_KEY");
    assert_eq!(key_variable(AnimalKind::Cat), "CAT_API_KEY");
    assert_eq!(resolve_key(AnimalKind::Dog, Some("abc".to_string())), Ok("abc".to_string()));
    assert_eq!(resolve_key(AnimalKind::Cat, Some(String::new())), Ok(String::new()));
    assert_eq!(resolve_key(AnimalKind::Dog, None), Err(ConfigError { kind: AnimalKind::Dog }));
    assert_eq!(resolve_key(AnimalKind::Cat, None), Err(ConfigError { kind: AnimalKind::Cat }));
}

#[test]
fn config_error_names_the_missing_variable() {
    assert_eq!(
        ConfigError { kind: AnimalKind::Dog }.message(),
        "DOG_API_KEY muss in der .env-Datei gesetzt sein oder als Umgebungsvariable existieren"
    );
    assert_eq!(
        ConfigError { kind: AnimalKind::Cat }.message(),
        "CAT_API_KEY muss in der .env-Datei gesetzt sein oder als Umgebungsvariable existieren"
    );
}
