use zkredit::connectors::create_connector;
use zkredit::connectors::ConfigError;
use zkredit::connectors::Connector;
use zkredit::connectors::ProviderConfig;
use zkredit::BankConnector;
use zkredit::CEXConnector;
use zkredit::CreditProviderConnector;

fn empty_config() -> ProviderConfig {
    ProviderConfig { api_key: None, api_secret: None, client_id: None, base_url: None }
}

#[test]
fn unsupported_provider_type_fails_fast() {
    let r = create_connector("solana_defi", &empty_config());
    assert!(matches!(r, Err(ConfigError::UnsupportedProviderType)));
    let r = create_connector("", &empty_config());
    assert!(matches!(r, Err(ConfigError::UnsupportedProviderType)));
    // close, but not a known tag
    let r = create_connector("CEX", &empty_config());
    assert!(matches!(r, Err(ConfigError::UnsupportedProviderType)));
}

#[test]
fn cex_factory_applies_defaults() {
    let c = create_connector("cex", &empty_config()).expect("cex is a supported provider type");
    match c {
        Connector::Cex(cex) => {
            assert_eq!(cex.api_key, "");
            assert_eq!(cex.api_secret, "");
            assert_eq!(cex.base_url, "https://api.example.com");
        }
        Connector::Bank(_) => panic!("the cex tag must build an exchange connector"),
    }
}

#[test]
fn bank_factory_keeps_configured_values() {
    let config = ProviderConfig {
        api_key: Some(String::from("test-api-key")),
        api_secret: None,
        client_id: Some(String::from("client-7")),
        base_url: Some(String::from("https://bank.test")),
    };
    let c = create_connector("bank", &config).expect("bank is a supported provider type");
    match c {
        Connector::Bank(bank) => {
            assert_eq!(bank.api_key, "test-api-key");
            assert_eq!(bank.client_id, "client-7");
            assert_eq!(bank.base_url, "https://bank.test");
        }
        Connector::Cex(_) => panic!("the bank tag must build a bank connector"),
    }
}

#[test]
fn cex_connector_mock_responses() {
    let cex = CEXConnector::new("key", "secret", "https://api.example.com");
    assert!(cex.verify_ownership([0xAA; 20], "acct-1", b"auth"));
    let resp = cex.get_available_credit([0xAA; 20], "acct-1", b"auth");
    assert!(resp.success);
    assert_eq!(resp.available_credit, 10000);
    assert_eq!(resp.expiration_timestamp, 1648262400);
    assert_eq!(resp.signature, vec![1, 2, 3, 4, 5]);
    assert!(resp.error_message.is_none());
    let proof = cex.generate_credit_proof([0xAA; 20], [0xBB; 20], "acct-1", 10_000, b"auth");
    assert_eq!(proof, vec![1, 2, 3, 4, 5]);
}

#[test]
fn bank_connector_mock_responses() {
    let bank = BankConnector::new("key", "client", "https://api.bank.com");
    assert!(bank.verify_ownership([0xAA; 20], "acct-2", b"auth"));
    let resp = bank.get_available_credit([0xAA; 20], "acct-2", b"auth");
    assert!(resp.success);
    assert_eq!(resp.available_credit, 50000);
    assert_eq!(resp.expiration_timestamp, 1648348800);
    assert_eq!(resp.signature, vec![6, 7, 8, 9, 10]);
    assert!(resp.error_message.is_none());
    let proof = bank.generate_credit_proof([0xAA; 20], [0xBB; 20], "acct-2", 25_000, b"auth");
    assert_eq!(proof, vec![6, 7, 8, 9, 10]);
}

#[test]
fn connector_enum_dispatches_to_its_provider() {
    let cex = create_connector("cex", &empty_config()).unwrap();
    let bank = create_connector("bank", &empty_config()).unwrap();
    assert_eq!(cex.get_available_credit([0xAA; 20], "a", b"x").available_credit, 10000);
    assert_eq!(bank.get_available_credit([0xAA; 20], "a", b"x").available_credit, 50000);
    assert_eq!(cex.generate_credit_proof([0xAA; 20], [0xBB; 20], "a", 1, b"x"), vec![1, 2, 3, 4, 5]);
    assert_eq!(bank.generate_credit_proof([0xAA; 20], [0xBB; 20], "a", 1, b"x"), vec![6, 7, 8, 9, 10]);
}
