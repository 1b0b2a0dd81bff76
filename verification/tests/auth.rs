use femail::auth::{
    get_config_dir, load_token, save_token, token_from_input, token_location, StoredToken,
    TokenFile, TokenLocation, TokenWrite,
};
use femail::error::Error;
use std::path::PathBuf;

fn token(text: &str) -> StoredToken {
    StoredToken { access_token: text.to_string() }
}

#[test]
fn config_dir_lies_under_the_home_directory() {
    assert_eq!(get_config_dir(Some("/home/ann")), Ok("/home/ann/.config/femail".to_string()));
}

#[test]
fn config_dir_adds_no_second_separator() {
    assert_eq!(get_config_dir(Some("/home/ann/")), Ok("/home/ann/.config/femail".to_string()));
    assert_eq!(get_config_dir(Some("/")), Ok("/.config/femail".to_string()));
}

#[test]
fn config_dir_of_an_empty_home_is_relative() {
    assert_eq!(get_config_dir(Some("")), Ok(".config/femail".to_string()));
}

#[test]
fn config_dir_joins_as_paths_are_joined() {
    for home in ["/home/ann", "/home/ann/", "", "/", "relative/dir", "/with space/é"] {
        let expected = PathBuf::from(home).join(".config").join("femail");
        assert_eq!(get_config_dir(Some(home)), Ok(expected.to_str().unwrap().to_string()));
    }
}

#[test]
fn config_dir_needs_a_home_directory() {
    assert_eq!(get_config_dir(None), Err(Error::Environment));
}

#[test]
fn token_location_names_directory_and_file() {
    assert_eq!(
        token_location(Some("/home/ann")),
        Ok(TokenLocation {
            dir: "/home/ann/.config/femail".to_string(),
            path: "/home/ann/.config/femail/token.json".to_string(),
        })
    );
    assert_eq!(token_location(None), Err(Error::Environment));
}

#[test]
fn token_from_input_trims_the_line() {
    assert_eq!(token_from_input("abc123\n"), Some(token("abc123")));
    assert_eq!(token_from_input("  ya29.a0Af_x-y \r\n"), Some(token("ya29.a0Af_x-y")));
    assert_eq!(token_from_input("abc123"), Some(token("abc123")));
}

#[test]
fn token_from_input_refuses_a_blank_line() {
    assert_eq!(token_from_input(""), None);
    assert_eq!(token_from_input("\n"), None);
    assert_eq!(token_from_input("   \t \r\n"), None);
    assert_eq!(token_from_input("\u{a0}\u{2003}"), None);
}

#[test]
fn save_token_orders_the_token_written_to_its_place() {
    assert_eq!(
        save_token(&token("abc123"), Some("/home/ann")),
        Ok(TokenWrite {
            place: TokenLocation {
                dir: "/home/ann/.config/femail".to_string(),
                path: "/home/ann/.config/femail/token.json".to_string(),
            },
            token: token("abc123"),
        })
    );
}

#[test]
fn save_token_needs_a_home_directory() {
    assert_eq!(save_token(&token("abc123"), None), Err(Error::Environment));
}

#[test]
fn load_token_without_a_file_is_not_authenticated() {
    assert_eq!(load_token(TokenFile::Missing), Err(Error::NotAuthenticated));
}

#[test]
fn load_token_reports_a_file_that_cannot_be_read() {
    assert_eq!(
        load_token(TokenFile::Unreadable("Permission denied (os error 13)".to_string())),
        Err(Error::Io("Permission denied (os error 13)".to_string()))
    );
}

#[test]
fn load_token_reports_a_file_that_holds_no_token() {
    assert_eq!(
        load_token(TokenFile::Malformed("expected value at line 1 column 1".to_string())),
        Err(Error::Format("expected value at line 1 column 1".to_string()))
    );
}

#[test]
fn load_token_gives_the_token_in_the_file() {
    assert_eq!(load_token(TokenFile::Present(token("abc123"))), Ok(token("abc123")));
}

#[test]
fn a_saved_token_is_loaded_again() {
    for text in ["abc123", "ya29.a0Af_x-y", "with \"quotes\" and \\", "é📁", " "] {
        let order = save_token(&token(text), Some("/home/ann")).unwrap();
        assert_eq!(load_token(TokenFile::Present(order.token)), Ok(token(text)));
    }
}

#[test]
fn an_empty_token_can_be_held_but_is_never_read_from_input() {
    assert_eq!(load_token(TokenFile::Present(token(""))), Ok(token("")));
    assert_eq!(token_from_input(""), None);
}

#[test]
fn error_messages() {
    assert_eq!(Error::Environment.message(), "Could not determine home directory");
    assert_eq!(
        Error::NotAuthenticated.message(),
        "Token file not found. Please run 'femail auth' first."
    );
    assert_eq!(Error::Io("disk full".to_string()).message(), "disk full");
    assert_eq!(Error::Format("EOF while parsing".to_string()).message(), "EOF while parsing");
    assert_eq!(
        Error::Api { status: None, detail: "connection refused".to_string() }.message(),
        "Gmail API request failed: connection refused"
    );
    assert_eq!(
        Error::Api { status: Some(401), detail: "{\"error\":\"invalid\"}".to_string() }.message(),
        "Gmail API error (status 401): {\"error\":\"invalid\"}"
    );
    assert_eq!(
        Error::Api { status: Some(200), detail: "missing field `id`".to_string() }.message(),
        "Gmail API returned an unexpected response: missing field `id`"
    );
}

#[test]
fn error_messages_tell_success_from_refusal_by_the_status() {
    let at = |status: u16| Error::Api { status: Some(status), detail: "x".to_string() }.message();
    assert_eq!(at(199), "Gmail API error (status 199): x");
    assert_eq!(at(200), "Gmail API returned an unexpected response: x");
    assert_eq!(at(299), "Gmail API returned an unexpected response: x");
    assert_eq!(at(300), "Gmail API error (status 300): x");
    assert_eq!(at(404), "Gmail API error (status 404): x");
}
