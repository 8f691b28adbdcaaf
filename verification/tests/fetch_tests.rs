use issue_fetcher::error::FetchError;
use issue_fetcher::fetch::evaluate;
use octocrab::models::issues::Issue;
use octocrab::models::IssueState;

fn author_json() -> String {
    let mut s = String::new();
    s.push_str(r#"{"login":"octocat","id":1,"node_id":"MDQ6VXNlcjE=","#);
    s.push_str(r#""avatar_url":"https://github.com/images/error/octocat_happy.gif","#);
    s.push_str(r#""gravatar_id":"","url":"https://api.github.com/users/octocat","#);
    s.push_str(r#""html_url":"https://github.com/octocat","#);
    s.push_str(r#""followers_url":"https://api.github.com/users/octocat/followers","#);
    s.push_str(r#""following_url":"https://api.github.com/users/octocat/following","#);
    s.push_str(r#""gists_url":"https://api.github.com/users/octocat/gists","#);
    s.push_str(r#""starred_url":"https://api.github.com/users/octocat/starred","#);
    s.push_str(r#""subscriptions_url":"https://api.github.com/users/octocat/subscriptions","#);
    s.push_str(r#""organizations_url":"https://api.github.com/users/octocat/orgs","#);
    s.push_str(r#""repos_url":"https://api.github.com/users/octocat/repos","#);
    s.push_str(r#""events_url":"https://api.github.com/users/octocat/events","#);
    s.push_str(r#""received_events_url":"https://api.github.com/users/octocat/received_events","#);
    s.push_str(r#""type":"User","site_admin":false}"#);
    s
}

fn issue_json() -> Vec<u8> {
    let mut s = String::new();
    s.push_str(r#"{"id":1,"node_id":"MDU6SXNzdWUx","#);
    s.push_str(r#""url":"https://api.github.com/repos/octocat/Hello-World/issues/1","#);
    s.push_str(r#""repository_url":"https://api.github.com/repos/octocat/Hello-World","#);
    s.push_str(r#""labels_url":"https://api.github.com/repos/octocat/Hello-World/issues/1/labels","#);
    s.push_str(r#""comments_url":"https://api.github.com/repos/octocat/Hello-World/issues/1/comments","#);
    s.push_str(r#""events_url":"https://api.github.com/repos/octocat/Hello-World/issues/1/events","#);
    s.push_str(r#""html_url":"https://github.com/octocat/Hello-World/issues/1","#);
    s.push_str(r#""number":1,"state":"open","title":"Found a bug","#);
    s.push_str(r#""body":"I'm having a problem with this.","#);
    s.push_str(r#""user":"#);
    s.push_str(author_json().as_str());
    s.push_str(r#","labels":[],"assignees":[],"author_association":"NONE","#);
    s.push_str(r#""locked":false,"comments":0,"#);
    s.push_str(r#""created_at":"2011-04-22T13:33:48Z","updated_at":"2011-04-22T13:33:48Z"}"#);
    s.into_bytes()
}

#[test]
fn fetch_success_scenario() {
    let etag = b"abc123".to_vec();
    let r = evaluate(200, Some(etag), issue_json());
    let resp = r.expect("a success response with an ETag and a valid body must be accepted");
    assert_eq!(resp.etag, "abc123");
    assert_eq!(resp.issue.number, 1);
    assert_eq!(resp.issue.title, "Found a bug");
    assert_eq!(resp.issue.state, IssueState::Open);
    assert_eq!(
        resp.issue.body.as_deref(),
        Some("I'm having a problem with this.")
    );
    assert_eq!(resp.issue.user.login, "octocat");
}

#[test]
fn fetch_not_found_fails() {
    let r = evaluate(404, Some(b"abc123".to_vec()), issue_json());
    match r {
        Ok(_) => panic!("a 404 response must not yield a response value"),
        Err(e) => {
            assert!(matches!(e, FetchError::Status));
            assert_eq!(e.message(), "Failed to fetch issue");
        }
    }
}

#[test]
fn fetch_status_range_edges() {
    assert!(matches!(
        evaluate(199, Some(b"t".to_vec()), issue_json()),
        Err(FetchError::Status)
    ));
    assert!(matches!(
        evaluate(300, Some(b"t".to_vec()), issue_json()),
        Err(FetchError::Status)
    ));
    assert!(evaluate(200, Some(b"t".to_vec()), issue_json()).is_ok());
    assert!(evaluate(299, Some(b"t".to_vec()), issue_json()).is_ok());
}

#[test]
fn fetch_missing_etag_fails() {
    let r = evaluate(200, None, issue_json());
    match r {
        Ok(_) => panic!("a response without an ETag must not be accepted"),
        Err(e) => {
            assert!(matches!(e, FetchError::MissingEtag));
            assert_eq!(e.message(), "ETag header is missing in the response");
        }
    }
}

#[test]
fn fetch_unreadable_etag_fails() {
    let r = evaluate(200, Some(vec![0xff, 0x80, 0x1f]), issue_json());
    match r {
        Ok(_) => panic!("a response with an unreadable ETag must not be accepted"),
        Err(e) => {
            assert!(matches!(e, FetchError::UnreadableEtag));
            assert_eq!(e.message(), "Failed to convert ETag header to string");
        }
    }
}

#[test]
fn fetch_bad_body_fails_with_cause() {
    let r = evaluate(200, Some(b"abc123".to_vec()), b"{ not json".to_vec());
    match r {
        Ok(_) => panic!("a body that is not JSON must not be accepted"),
        Err(e) => {
            let cause = match &e {
                FetchError::Deserialize(m) => m.clone(),
                other => panic!("expected a deserialization failure, got {:?}", other),
            };
            assert!(!cause.is_empty());
            let full = e.message();
            assert!(full.starts_with("Failed to deserialize issue from response: "));
            assert!(full.contains(cause.as_str()));
        }
    }
}

#[test]
fn fetch_schema_mismatch_fails() {
    let r = evaluate(200, Some(b"abc123".to_vec()), b"{}".to_vec());
    assert!(matches!(r, Err(FetchError::Deserialize(_))));
}

#[test]
fn fetch_idempotent_on_same_response() {
    let etag = b"\"33a64df551425fcc55e4d42a148795d9f25f89d4\"".to_vec();
    let r1 = evaluate(200, Some(etag.clone()), issue_json());
    let r2 = evaluate(200, Some(etag), issue_json());
    let resp1 = r1.expect("first call must succeed");
    let resp2 = r2.expect("second call must succeed");
    assert_eq!(resp1.etag, resp2.etag);
    assert_eq!(resp1.issue, resp2.issue);
}

#[test]
fn fetch_success_keeps_header_text_exactly() {
    let etag = b"W/\"weak-tag\"".to_vec();
    let r = evaluate(204, Some(etag), issue_json());
    let resp = r.expect("any 2xx status with ETag and valid body must be accepted");
    assert_eq!(resp.etag, "W/\"weak-tag\"");
}

#[test]
fn parsed_issue_matches_body_not_input() {
    // The parsed issue reflects the body's content, not the raw bytes handed in.
    let r = evaluate(200, Some(b"tag".to_vec()), issue_json());
    let resp = r.expect("valid body must parse");
    let round_trip = serde_json::to_string(&resp.issue).expect("an issue serializes");
    assert!(round_trip.contains("Found a bug"));
    let direct: Issue = serde_json::from_slice(&issue_json()).expect("body parses directly");
    assert_eq!(resp.issue, direct);
}
