use zkp2p_tlsn::config::AppConfig;
use zkp2p_tlsn::domain::Mode;
use zkp2p_tlsn::domain::Provider;
use zkp2p_tlsn::domain::ProviderConfig;
use zkp2p_tlsn::file_io::get_file_path;
use zkp2p_tlsn::notary::tls_flag_from_text;
use zkp2p_tlsn::providers::ServerConfig;
use zkp2p_tlsn::providers::WiseConfig;

#[test]
fn test_config_loading() {
    let app_config = AppConfig::default();
    assert_eq!(app_config.wise.host, "wise.com");
    assert_eq!(app_config.wise.port, 443);

    assert_eq!(app_config.paypal.host, "www.paypal.com");
    assert_eq!(app_config.paypal.port, 443);

    let notary_config = app_config.notary.clone();
    assert_eq!(notary_config.server.host, "127.0.0.1");
    assert_eq!(notary_config.server.port, 7047);
    assert_eq!(notary_config.tls_enabled, false);
}

#[test]
fn test_server_config_selection() {
    let app_config = AppConfig::default();
    let wise = app_config.server_config(Provider::Wise);
    assert_eq!(wise.host, "wise.com");
    let paypal = app_config.server_config(Provider::PayPal);
    assert_eq!(paypal.host, "www.paypal.com");
}

#[test]
fn test_get_file_path() {
    assert_eq!(get_file_path("wise", "attestation"), "wise.attestation.tlsn");
    assert_eq!(get_file_path("paypal", "secrets"), "paypal.secrets.tlsn");
    assert_eq!(get_file_path(&Provider::Wise.name(), "presentation"), "wise.presentation.tlsn");
}

#[test]
fn test_provider_names() {
    assert_eq!(Provider::Wise.name(), "wise");
    assert_eq!(Provider::PayPal.name(), "paypal");
}

#[test]
fn test_mode_from_code() {
    assert_eq!(Mode::from_code(0), Some(Mode::Prove));
    assert_eq!(Mode::from_code(1), Some(Mode::Present));
    assert_eq!(Mode::from_code(2), Some(Mode::ProveToPresent));
    assert_eq!(Mode::from_code(3), None);
    assert_eq!(Mode::from_code(-1), None);
}

#[test]
fn test_mode_steps() {
    let prove = Mode::Prove.steps();
    assert!(prove.run_live_session && prove.save_artifacts);
    assert!(!prove.load_persisted && !prove.build_presentation);

    let present = Mode::Present.steps();
    assert!(present.load_persisted && present.build_presentation);
    assert!(!present.run_live_session && !present.save_artifacts);

    let both = Mode::ProveToPresent.steps();
    assert!(both.run_live_session && both.build_presentation);
    assert!(!both.load_persisted && !both.save_artifacts);
}

#[test]
fn test_provider_config_auth_headers() {
    let cfg = ProviderConfig::new(
        Provider::Wise,
        "123".to_string(),
        "session=abc".to_string(),
        "tok".to_string(),
    );
    let headers = cfg.auth_headers();
    assert_eq!(headers, vec![("Cookie", "session=abc"), ("X-Access-Token", "tok")]);
}

#[test]
fn test_wise_transaction_endpoint() {
    let server = ServerConfig {
        host: "wise.com".to_string(),
        port: 443,
        server_name: "wise.com",
    };
    let wise = WiseConfig::new(
        "777".to_string(),
        "424242".to_string(),
        "session=abc".to_string(),
        "tok".to_string(),
        server,
    );
    assert_eq!(wise.transaction_endpoint(), "/gateway/v3/profiles/777/transfers/424242");
    let headers = wise.auth_headers();
    assert_eq!(headers, vec![("Cookie", "session=abc"), ("X-Access-Token", "tok")]);
}

#[test]
fn test_tls_flag_from_text() {
    assert_eq!(tls_flag_from_text("false"), false);
    assert_eq!(tls_flag_from_text("true"), true);
    assert_eq!(tls_flag_from_text("anything"), true);
    assert_eq!(tls_flag_from_text(""), true);
}
