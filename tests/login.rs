use xmu_downloader::cipher::{aes_chars, cipher_text, encrypt_password, random_string, transform_password};
use xmu_downloader::login::{
    check_captcha, get_pwd_data, get_qrcode_data, get_service, get_session, get_timestamp,
    session_from_cookies, Error, SessionStore,
};
use xmu_downloader::logging::{Level, Logger, LoggerData};
use xmu_downloader::tokens::{get_execution, get_salt, regex_get_first, token_from_capture};

fn pairs(v: &[(&str, &str)]) -> Vec<(String, String)> {
    v.iter().map(|(a, b)| (a.to_string(), b.to_string())).collect()
}

#[test]
fn execution_token_is_extracted() {
    let html = r#"<form><input type="hidden" name="execution" value="E123"/></form>"#;
    assert_eq!(get_execution(html), Ok("E123".to_string()));
}

#[test]
fn execution_token_missing_is_parse_error() {
    let html = r#"<form><input type="text" name="username" value="x"/></form>"#;
    assert_eq!(get_execution(html), Err(Error::ParseKey));
    assert_eq!(get_execution(""), Err(Error::ParseKey));
}

#[test]
fn first_execution_token_wins() {
    let html = r#"<input name="execution" value="first"><input name="execution" value="second">"#;
    assert_eq!(get_execution(html), Ok("first".to_string()));
}

#[test]
fn salt_is_extracted() {
    let html = r#"<input type="hidden" id="pwdEncryptSalt" value="rjBFAaHsNkKAhDeK" />"#;
    assert_eq!(get_salt(html), Ok("rjBFAaHsNkKAhDeK".to_string()));
    assert_eq!(get_salt(r#"<input name="execution" value="E1">"#), Err(Error::ParseKey));
}

#[test]
fn regex_first_group_is_returned() {
    assert_eq!(regex_get_first("id=([0-9]+)", "a id=42 id=7"), Ok("42".to_string()));
    assert_eq!(regex_get_first("id=([0-9]+)", "none"), Err(Error::ParseKey));
    assert_eq!(token_from_capture(Some("v".to_string())), Ok("v".to_string()));
    assert_eq!(token_from_capture(None), Err(Error::ParseKey));
}

#[test]
fn cipher_reproduces_reference_ciphertext() {
    let prefix = b"ABCDEFGHJKMNPQRSTWXYZabcdefhijkmnprstwxyz2345678ABCDEFGHJKMNPQRS";
    let r = encrypt_password("password123", "rjBFAaHsNkKAhDeK", prefix, b"ABCDEFGHJKMNPQRS");
    assert_eq!(
        r,
        Ok("jfE2VpTN+lkJOtow7FegagvgYUQ93LzYiHxE5N4glKN6iV/lgjHIiS/K/OjIfchE7H/p/+l5Xywk7pwQxhWBoVt/Dh8jWDoVzZm+uKvqdb8=".to_string())
    );
}

#[test]
fn cipher_of_empty_input_is_one_padding_block() {
    let r = encrypt_password("", "rjBFAaHsNkKAhDeK", b"", b"ABCDEFGHJKMNPQRS");
    assert_eq!(r, Ok("+OlmIyssU8SLb1FPrSdKZA==".to_string()));
}

#[test]
fn cipher_rejects_bad_key_length() {
    let r = encrypt_password("pw", "short", b"", b"ABCDEFGHJKMNPQRS");
    assert_eq!(r, Err(Error::Encrypt));
    assert_eq!(transform_password("pw", "0123456789abcde"), Err(Error::Encrypt));
}

#[test]
fn transform_password_has_expected_length() {
    // 64 + 11 bytes pad to 80 bytes of ciphertext, 108 base64 characters.
    let r = transform_password("password123", "rjBFAaHsNkKAhDeK").unwrap();
    assert_eq!(r.len(), 108);
    let r24 = transform_password("pw", "0123456789abcdef01234567");
    assert!(r24.is_ok());
}

#[test]
fn random_string_draws_from_alphabet() {
    let alphabet = aes_chars();
    assert_eq!(&alphabet[..], b"ABCDEFGHJKMNPQRSTWXYZabcdefhijkmnprstwxyz2345678");
    let s = random_string(64);
    assert_eq!(s.len(), 64);
    assert!(s.iter().all(|c| alphabet.contains(c)));
    assert!(random_string(0).is_empty());
}

#[test]
fn qrcode_form_fields() {
    let f = get_qrcode_data("uuid-1", "E123");
    assert_eq!(
        f,
        pairs(&[
            ("lt", ""),
            ("uuid", "uuid-1"),
            ("cllt", "qrLogin"),
            ("dllt", "generalLogin"),
            ("execution", "E123"),
            ("_eventId", "submit"),
            ("rmShown", "1"),
        ])
    );
}

#[test]
fn password_form_fields() {
    let f = get_pwd_data("2023001", "ENC==", "E9");
    assert_eq!(
        f,
        pairs(&[
            ("username", "2023001"),
            ("password", "ENC=="),
            ("captcha", ""),
            ("_eventId", "submit"),
            ("cllt", "userNameLogin"),
            ("dllt", "generalLogin"),
            ("lt", ""),
            ("execution", "E9"),
        ])
    );
}

#[test]
fn service_is_query_after_prefix() {
    assert_eq!(
        get_service(Some("service=https://lnt.xmu.edu.cn/")),
        Ok("https://lnt.xmu.edu.cn/".to_string())
    );
    assert_eq!(get_service(Some("service=")), Ok(String::new()));
    assert_eq!(get_service(None), Err(Error::Service));
    assert_eq!(get_service(Some("short")), Err(Error::Service));
}

#[test]
fn captcha_check() {
    assert_eq!(check_captcha(Some(false)), Ok(()));
    assert_eq!(check_captcha(Some(true)), Err(Error::Account));
    assert_eq!(check_captcha(None), Err(Error::Account));
}

#[test]
fn session_cookie_is_found() {
    let c = pairs(&[("asessionid", "a"), ("session", "S1"), ("session", "S2")]);
    assert_eq!(session_from_cookies(&c), Ok("S1".to_string()));
    let none = pairs(&[("asessionid", "a"), ("other", "b")]);
    assert_eq!(session_from_cookies(&none), Err(Error::Account));
    assert_eq!(session_from_cookies(&Vec::new()), Err(Error::Account));
}

#[test]
fn session_store_keeps_latest_credential() {
    let mut store = SessionStore::new();
    assert_eq!(get_session(&store), None);
    assert_eq!(store.complete_login(&pairs(&[("session", "one")])), Ok(()));
    assert_eq!(get_session(&store), Some("one".to_string()));
    assert_eq!(store.complete_login(&pairs(&[("x", "y")])), Err(Error::Account));
    assert_eq!(get_session(&store), Some("one".to_string()));
    assert_eq!(store.complete_login(&pairs(&[("session", "two")])), Ok(()));
    assert_eq!(get_session(&store), Some("two".to_string()));
}

#[test]
fn timestamp_is_after_2020() {
    assert!(get_timestamp() > 1_577_836_800_000);
}

#[test]
fn login_errors_are_reported() {
    let d = Error::Account.get_logger();
    assert_eq!(d.level, Level::Warn);
    assert_eq!(d.data, "账号可能被风控，请使用扫码登录");
    assert_eq!(Error::Encrypt.log_data().level, Level::Error);
    assert_eq!(Error::Network.logger(), Some((Level::Error, "网络不通，请检查网络。".to_string())));
}

#[test]
fn logger_routes_levels() {
    assert_eq!(LoggerData::new(Level::Off, "x").logger(), None);
    assert_eq!(LoggerData::new(Level::Trace, "t").logger(), Some((Level::Info, "t".to_string())));
    assert_eq!(LoggerData::new(Level::Debug, "d").logger(), Some((Level::Debug, "d".to_string())));
    assert_eq!(LoggerData::new(Level::Warn, "w").logger(), Some((Level::Warn, "w".to_string())));
}

#[test]
fn ciphertext_is_sent_as_base64() {
    assert_eq!(cipher_text(Some(b"hello".to_vec())), Ok("aGVsbG8=".to_string()));
    assert_eq!(cipher_text(Some(Vec::new())), Ok(String::new()));
    assert_eq!(cipher_text(None), Err(Error::Encrypt));
}
