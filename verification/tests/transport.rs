use brr::git::{commit_parents, push_query, push_refspec, RecallGit};
use brr::query::{qs_escape, QueryError};
use brr::transport::{
    bearer_header, handshake_outcome, rewrite_tunnel_url, upgrade_protocol_tag, TransportError,
    TransportScheme,
};

#[test]
fn unauthorized_handshake_is_distinguished() {
    // 401 yields the unauthorized error, never the generic bad-response one
    let r = handshake_outcome(401, "POST http://s.example/p/x/push".to_string());
    assert!(matches!(r, Err(TransportError::Unauthorized)));
}

#[test]
fn protocol_switch_opens_the_tunnel() {
    assert!(handshake_outcome(101, "POST x".to_string()).is_ok());
}

#[test]
fn other_statuses_are_bad_responses() {
    match handshake_outcome(200, "POST http://s.example/p/x/push".to_string()) {
        Err(TransportError::BadResponse { status, request }) => {
            assert_eq!(status, 200);
            assert_eq!(request, "POST http://s.example/p/x/push");
        }
        _ => panic!("a plain 200 is not an upgrade"),
    }
    assert!(matches!(
        handshake_outcome(500, "POST x".to_string()),
        Err(TransportError::BadResponse { status: 500, .. })
    ));
}

#[test]
fn tunnel_urls_are_rewritten_to_real_schemes() {
    let (plain, s1) = rewrite_tunnel_url(&"recall+git://localhost:7890/push".to_string()).unwrap();
    assert_eq!(plain, "http://localhost:7890/push");
    assert_eq!(s1, TransportScheme::Plain);

    let (secure, s2) =
        rewrite_tunnel_url(&"recalls+git://worker.example/p/x/push?wait=true".to_string()).unwrap();
    assert_eq!(secure, "https://worker.example/p/x/push?wait=true");
    assert_eq!(s2, TransportScheme::Secure);

    assert!(matches!(
        rewrite_tunnel_url(&"https://worker.example/p".to_string()),
        Err(TransportError::InvalidUrl)
    ));
}

#[test]
fn handshake_headers_carry_tag_and_token() {
    assert_eq!(upgrade_protocol_tag(), "recall-git");
    assert_eq!(bearer_header("tok123"), "Bearer tok123");
}

#[test]
fn query_values_are_escaped() {
    assert_eq!(qs_escape("abc-DEF_123.x*").unwrap(), "abc-DEF_123.x*");
    assert_eq!(qs_escape("a b").unwrap(), "a+b");
    assert_eq!(qs_escape("a/b&c=d").unwrap(), "a%2Fb%26c%3Dd");
    assert_eq!(qs_escape("").unwrap(), "");
    assert!(matches!(qs_escape("naïve"), Err(QueryError::NotAscii)));
}

#[test]
fn push_query_carries_wait_and_tree_hash() {
    assert_eq!(
        push_query(true, "deadbeef").unwrap(),
        "wait=true&tree_hash_hex=deadbeef"
    );
    assert_eq!(
        push_query(false, "deadbeef").unwrap(),
        "wait=false&tree_hash_hex=deadbeef"
    );
}

#[test]
fn pull_query_lists_fields_in_wire_order() {
    let params = brr::api::PullQueryParams {
        project_slug: "my proj".to_string(),
        tree_hash: "deadbeef".to_string(),
        job: "build/all".to_string(),
        container: "main".to_string(),
        image: "rust:1".to_string(),
    };
    assert_eq!(
        params.to_query().unwrap(),
        "project_slug=my+proj&tree_hash=deadbeef&job=build%2Fall&container=main&image=rust%3A1"
    );
    let bad = brr::api::PullQueryParams {
        project_slug: "naïve".to_string(),
        tree_hash: "deadbeef".to_string(),
        job: "j".to_string(),
        container: "c".to_string(),
        image: "i".to_string(),
    };
    assert!(bad.to_query().is_err());
}

#[test]
fn push_remote_url_names_project_and_query() {
    let g = RecallGit::new("/home/u/.buildrecall".to_string());
    let url = g
        .push_remote_url(
            "recalls+git://scheduler.buildrecall.com",
            "11111111-1111-1111-1111-111111111111",
            true,
            "deadbeef",
        )
        .unwrap();
    assert_eq!(
        url,
        "recalls+git://scheduler.buildrecall.com/p/11111111-1111-1111-1111-111111111111/push?wait=true&tree_hash_hex=deadbeef"
    );
}

#[test]
fn shadow_store_lies_under_the_config_dir() {
    let g = RecallGit::new("/home/u/.buildrecall".to_string());
    assert_eq!(
        g.repo_path("11111111-1111-1111-1111-111111111111"),
        "/home/u/.buildrecall/.gits/11111111-1111-1111-1111-111111111111"
    );
}

#[test]
fn pushes_target_the_incoming_ref() {
    assert_eq!(push_refspec(), "+HEAD:refs/heads/incoming");
}

#[test]
fn snapshot_commits_extend_a_single_parent_chain() {
    let none = commit_parents(None);
    assert!(none.is_empty());
    let one = commit_parents(Some("abc123".to_string()));
    assert_eq!(one, vec!["abc123".to_string()]);
}
