use agent_server::finder::{
    bridge_base, bridge_url, check_body_length, check_declared_length, check_identity, map_bridge_error,
    short_link_result, short_link_status, trusted_link, valid_nonce_id, valid_object_id,
    FinderShortLinkError,
};

#[test]
fn validates_exact_finder_identity() {
    assert!(valid_object_id("14726213509764749552"));
    assert!(valid_nonce_id(
        "11529959359054593652_4_20_13_1_1789211747091905_504lish"
    ));
    assert!(!valid_object_id("012345"));
    assert!(!valid_nonce_id("bad cookie"));
}

#[test]
fn accepts_only_official_short_links() {
    assert_eq!(
        trusted_link("https://weixin.qq.com/sph/AbCdEf1234"),
        Some("https://weixin.qq.com/sph/AbCdEf1234".to_string())
    );
    assert_eq!(
        trusted_link("https://channels.weixin.qq.com/finder-preview/pages/sph?id=AbCd"),
        Some("https://channels.weixin.qq.com/finder-preview/pages/sph?id=AbCd".to_string())
    );
    assert_eq!(trusted_link("https://example.com/sph/AbCd"), None);
}

#[test]
fn trusted_links_refuse_credentials_ports_and_plain_http() {
    assert_eq!(
        trusted_link("  https://weixin.qq.com/sph/x \n"),
        Some("https://weixin.qq.com/sph/x".to_string())
    );
    assert_eq!(
        trusted_link("https://weixin.qq.com:443/sph/x"),
        Some("https://weixin.qq.com:443/sph/x".to_string())
    );
    assert_eq!(trusted_link("http://weixin.qq.com/sph/x"), None);
    assert_eq!(trusted_link("https://u:p@weixin.qq.com/sph/x"), None);
    assert_eq!(trusted_link("https://weixin.qq.com:8443/sph/x"), None);
    assert_eq!(trusted_link("https://weixin.qq.com/other"), None);
    assert_eq!(trusted_link("not a url"), None);
}

#[test]
fn maps_remote_errors_without_exposing_details() {
    assert_eq!(
        map_bridge_error(503, Some("FINDER_BROWSER_LOGIN_REQUIRED")),
        FinderShortLinkError::SessionUnavailable
    );
    assert_eq!(
        map_bridge_error(502, Some("FINDER_SHORT_LINK_REMOTE_REJECTED")),
        FinderShortLinkError::RemoteRejected
    );
    assert_eq!(map_bridge_error(500, Some("FINDER_SHORT_LINK_MISSING")), FinderShortLinkError::LinkMissing);
    assert_eq!(map_bridge_error(503, None), FinderShortLinkError::SessionUnavailable);
    assert_eq!(map_bridge_error(500, Some("secret detail")), FinderShortLinkError::RequestFailed);
}

#[test]
fn identity_errors_and_codes() {
    assert_eq!(check_identity("12345", "abcdefg"), Err(FinderShortLinkError::InvalidObjectId));
    assert_eq!(check_identity("123456", "abc"), Err(FinderShortLinkError::InvalidNonceId));
    assert_eq!(check_identity("123456", "abc_def"), Ok(()));
    assert_eq!(FinderShortLinkError::InvalidObjectId.code(), "FINDER_OBJECT_ID_INVALID");
    assert_eq!(FinderShortLinkError::LinkMissing.code(), "FINDER_SHORT_LINK_MISSING");
    assert_eq!(short_link_status(FinderShortLinkError::InvalidNonceId), 422);
    assert_eq!(short_link_status(FinderShortLinkError::SessionUnavailable), 503);
    assert_eq!(short_link_status(FinderShortLinkError::ResponseInvalid), 502);
}

#[test]
fn bridge_address_is_loopback_only() {
    assert_eq!(
        bridge_url("http://127.0.0.1:9223", "/status"),
        Ok("http://127.0.0.1:9223/status".to_string())
    );
    assert_eq!(bridge_url("https://example.com", "/status"), Err(FinderShortLinkError::RequestFailed));
    assert_eq!(bridge_url("http://127.0.0.1", "/status"), Err(FinderShortLinkError::RequestFailed));
    assert_eq!(bridge_url("nonsense", "/status"), Err(FinderShortLinkError::RequestFailed));
}

#[test]
fn bridge_answers_and_size_limits() {
    assert_eq!(
        short_link_result(true, 200, None, Some("https://weixin.qq.com/sph/A".into())),
        Ok("https://weixin.qq.com/sph/A".to_string())
    );
    assert_eq!(
        short_link_result(true, 200, None, Some("https://evil.example/sph/A".into())),
        Err(FinderShortLinkError::LinkMissing)
    );
    assert_eq!(short_link_result(true, 200, None, None), Err(FinderShortLinkError::LinkMissing));
    assert_eq!(
        short_link_result(false, 503, Some("x".into()), None),
        Err(FinderShortLinkError::SessionUnavailable)
    );
    assert_eq!(check_declared_length(Some(65537)), Err(FinderShortLinkError::ResponseInvalid));
    assert_eq!(check_declared_length(None), Ok(()));
    assert_eq!(check_body_length(65536), Ok(()));
    assert_eq!(check_body_length(65537), Err(FinderShortLinkError::ResponseInvalid));
}

#[test]
fn bridge_is_loopback_only() {
    let unset = bridge_base(None);
    assert_eq!(bridge_url(&unset, "/status").unwrap().as_str(), "http://127.0.0.1:9223/status");
    let configured = bridge_base(Some("https://example.com".to_string()));
    assert_eq!(bridge_url(&configured, "/status"), Err(FinderShortLinkError::RequestFailed));
}
