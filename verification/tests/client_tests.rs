use base64::Engine;
use base64::engine::general_purpose::URL_SAFE;

use edge_translate::{
    Client, DEFAULT_USER_AGENT, Json, Token, TranslationItem, first_translation_text,
    parse_translation_items, translate_reply,
};

fn jwt_with_exp(exp: u64) -> String {
    format!("h.{}.s", URL_SAFE.encode(format!(r#"{{"exp":{}}}"#, exp)))
}

#[test]
fn new_client_needs_a_token() {
    let client = Client::new();
    assert!(client.needs_token_at(0));
    assert!(client.needs_token());
    assert!(client.cached_token().is_none());
    assert_eq!(client.user_agent(), DEFAULT_USER_AGENT);
}

#[test]
fn set_user_agent_replaces_the_string() {
    let mut client = Client::new();
    client.set_user_agent("agent/1.0".to_string());
    assert_eq!(client.user_agent(), "agent/1.0");
}

#[test]
fn installed_token_is_cached_until_expiry() {
    let mut client = Client::new();
    client.install_token_at(&jwt_with_exp(500), 10);
    assert!(!client.needs_token_at(400));
    assert!(!client.needs_token_at(500));
    assert!(client.needs_token_at(501));
    assert_eq!(client.cached_token().unwrap().credential(), &jwt_with_exp(500));
}

#[test]
fn malformed_installed_token_lives_shortly() {
    let mut client = Client::new();
    client.install_token_at("garbage", 100);
    assert!(!client.needs_token_at(700));
    assert!(client.needs_token_at(701));
}

#[test]
fn translate_request_carries_url_body_and_headers() {
    let mut client = Client::new();
    client.install_token_at("tok", 0);
    let req = client.translate_request("hello", "", "fr");
    assert_eq!(
        req.url,
        "https://api.cognitive.microsofttranslator.com/translate?api-version=3.0&to=fr&from="
    );
    assert_eq!(req.body, r#"[{"Text":"hello"}]"#);
    assert_eq!(req.authorization, "Bearer tok");
    assert_eq!(req.user_agent, DEFAULT_USER_AGENT);
    assert_eq!(req.content_type, "application/json; charset=UTF-8");
}

#[test]
fn translate_request_with_source_language() {
    let mut client = Client::new();
    client.install_token_at("tok", 0);
    let req = client.translate_request("hi", "en", "de");
    assert_eq!(
        req.url,
        "https://api.cognitive.microsofttranslator.com/translate?api-version=3.0&to=de&from=en"
    );
}

#[test]
fn body_escaping_matches_json_serialization() {
    let mut client = Client::new();
    client.install_token_at("tok", 0);
    for text in ["a\"b\\c\nd", "tab\there", "\r\u{8}\u{c}", "\u{1}\u{1f}", "héllo wörld", ""] {
        let req = client.translate_request(text, "", "fr");
        let expected = format!(
            "[{{\"Text\":{}}}]",
            serde_json::to_string(text).expect("string serializes")
        );
        assert_eq!(req.body, expected);
    }
}

#[test]
fn control_characters_use_lowercase_hex_escapes() {
    let mut client = Client::new();
    client.install_token_at("tok", 0);
    let req = client.translate_request("\u{1}and\u{1f}", "", "fr");
    assert_eq!(req.body, r#"[{"Text":"\u0001and\u001f"}]"#);
}

#[test]
fn reply_takes_first_translation_of_first_item() {
    let body = r#"[{"detectedLanguage":{"language":"en","score":0.98},"translations":[{"text":"Bonjour","to":"fr"},{"text":"Salut","to":"fr"}]},{"detectedLanguage":{"language":"en","score":0.5},"translations":[{"text":"Hallo","to":"de"}]}]"#;
    assert_eq!(translate_reply(body), Some("Bonjour".to_string()));
}

#[test]
fn empty_response_array_yields_empty_string() {
    assert_eq!(translate_reply("[]"), Some(String::new()));
}

#[test]
fn empty_translations_yield_empty_string() {
    let body = r#"[{"detectedLanguage":{"language":"en","score":0.9},"translations":[]}]"#;
    assert_eq!(translate_reply(body), Some(String::new()));
}

#[test]
fn unknown_members_are_ignored() {
    let body = r#"[{"extra":null,"detectedLanguage":{"language":"en","score":1,"note":[]},"translations":[{"text":"Ciao","to":"it","sentLen":{}}]}]"#;
    assert_eq!(translate_reply(body), Some("Ciao".to_string()));
}

#[test]
fn integer_score_is_a_number() {
    let body = r#"[{"detectedLanguage":{"language":"en","score":1},"translations":[{"text":"Hej","to":"sv"}]}]"#;
    assert_eq!(translate_reply(body), Some("Hej".to_string()));
}

#[test]
fn malformed_bodies_are_errors() {
    assert_eq!(translate_reply("not json"), None);
    assert_eq!(translate_reply(""), None);
    assert_eq!(translate_reply("{}"), None);
    assert_eq!(translate_reply("[{}]"), None);
    assert_eq!(translate_reply("[null]"), None);
    assert_eq!(translate_reply(r#"[{"detectedLanguage":{"language":"en"},"translations":[]}]"#), None);
    assert_eq!(
        translate_reply(r#"[{"detectedLanguage":{"language":"en","score":"high"},"translations":[]}]"#),
        None
    );
    assert_eq!(
        translate_reply(r#"[{"detectedLanguage":{"language":"en","score":0.5},"translations":[{"text":7,"to":"fr"}]}]"#),
        None
    );
    assert_eq!(
        translate_reply(r#"[{"detectedLanguage":{"language":"en","score":0.5},"translations":[{"text":"x"}]}]"#),
        None
    );
    assert_eq!(translate_reply(r#"[{"translations":[]}]"#), None);
}

#[test]
fn second_item_malformed_is_an_error() {
    let body = r#"[{"detectedLanguage":{"language":"en","score":0.9},"translations":[{"text":"Oui","to":"fr"}]},{"translations":[]}]"#;
    assert_eq!(translate_reply(body), None);
}

#[test]
fn parse_items_of_empty_array_is_empty() {
    let items = parse_translation_items(&Json::Arr(Vec::new())).expect("empty array parses");
    assert!(items.is_empty());
    assert_eq!(first_translation_text(&items), "");
}

#[test]
fn parse_items_reads_the_records() {
    let translation = Json::Obj(vec![
        ("text".to_string(), Json::Str("Hola".to_string())),
        ("to".to_string(), Json::Str("es".to_string())),
    ]);
    let dl = Json::Obj(vec![
        ("language".to_string(), Json::Str("en".to_string())),
        ("score".to_string(), Json::Num(None)),
    ]);
    let item = Json::Obj(vec![
        ("detectedLanguage".to_string(), dl),
        ("translations".to_string(), Json::Arr(vec![translation])),
    ]);
    let items: Vec<TranslationItem> =
        parse_translation_items(&Json::Arr(vec![item])).expect("well-shaped");
    assert_eq!(items.len(), 1);
    assert_eq!(items[0].detected_language.language, "en");
    assert_eq!(items[0].translations.len(), 1);
    assert_eq!(items[0].translations[0].text, "Hola");
    assert_eq!(items[0].translations[0].to, "es");
    assert_eq!(first_translation_text(&items), "Hola");
}

#[test]
fn exp_claim_is_read_from_a_document() {
    let doc = Json::Obj(vec![("exp".to_string(), Json::Num(Some(5)))]);
    assert_eq!(edge_translate::doc_exp_claim(&doc), Some(5));
    let no_exp = Json::Obj(vec![("iat".to_string(), Json::Num(Some(5)))]);
    assert_eq!(edge_translate::doc_exp_claim(&no_exp), None);
    assert_eq!(edge_translate::doc_exp_claim(&Json::Arr(Vec::new())), None);
}

#[test]
fn token_from_jwt_matches_install() {
    let jwt = jwt_with_exp(42);
    let token = Token::from_jwt_at(&jwt, 0);
    assert!(!token.is_expired_at(42));
    assert!(token.is_expired_at(43));
}
