use github_api::github::{check_token, ClientError, GitHubClientBuilder};

#[test]
fn well_formed_token_builds_a_client_offline() {
    let rt = tokio::runtime::Runtime::new().unwrap();
    let built = GitHubClientBuilder::new(rt.handle(), "tok123".to_string());
    match built {
        Ok(builder) => {
            let _client = builder.client();
        }
        Err(e) => panic!("client not built: {:?}", e),
    }
}

#[test]
fn malformed_token_is_refused() {
    let rt = tokio::runtime::Runtime::new().unwrap();
    let built = GitHubClientBuilder::new(rt.handle(), "tok\n123".to_string());
    assert!(matches!(built, Err(ClientError::MalformedToken)));
}

#[test]
fn token_characters_are_checked() {
    assert!(check_token("tok123"));
    assert!(check_token("tab\tand spaces ~"));
    assert!(check_token("caf\u{e9}"));
    assert!(check_token(""));
    assert!(!check_token("tok\r\n"));
    assert!(!check_token("del\u{7f}"));
    assert!(!check_token("\u{0}"));
}
