use router_core::consts::{LOCKER_REDIS_EXPIRY_SECONDS, NO_ERROR_CODE, NO_ERROR_MESSAGE};
use router_core::cryptography::{split_once_colon, CodecError, DecryptedData, EncryptedData};
use router_core::fiserv::{
    CallConnectorAction, ConnectorError, ErrorDetails, Fiserv, FiservAuthType, FiservErrorBody,
    FiservFlow, Method,
};
use router_core::text::{concat_all, to_decimal, unsigned_to_decimal};
use router_core::two_factor_auth::{
    generate_default_totp, get_totp_redis_key, totp_from_secret, UserErrors,
};
use router_core::vault::{
    get_redis_locker_key, tokenize_payload, BankPayout, Card, CardPayout, PaymentMethodKind,
    PayoutMethodKind, TokenizedCardValue2,
    TokenizedBankInsensitiveValues, TokenizedBankSensitiveValues,
    TokenizedWalletInsensitiveValues, TokenizedWalletSensitiveValues, VaultError,
    VaultPaymentMethod, VaultPayoutMethod, WalletPayout, WalletType,
};

fn auth() -> FiservAuthType {
    FiservAuthType {
        api_key: "key-123".to_string(),
        merchant_account: "merchant".to_string(),
        api_secret: "secret-456".to_string(),
    }
}

fn entry(message: &str) -> ErrorDetails {
    ErrorDetails {
        error_type: "gateway".to_string(),
        code: None,
        message: message.to_string(),
        field: None,
    }
}

#[test]
fn decimal_of_numbers() {
    assert_eq!(to_decimal(0), "0");
    assert_eq!(to_decimal(7), "7");
    assert_eq!(to_decimal(10), "10");
    assert_eq!(to_decimal(1_700_000_000_000), "1700000000000");
    assert_eq!(to_decimal(-5), "-5");
    assert_eq!(to_decimal(-120), "-120");
    assert_eq!(to_decimal(i128::MAX), i128::MAX.to_string());
    assert_eq!(to_decimal(i128::MIN), i128::MIN.to_string());
    assert_eq!(unsigned_to_decimal(u128::MAX), u128::MAX.to_string());
    assert_eq!(unsigned_to_decimal(1009), "1009");
}

#[test]
fn strings_are_joined_in_order() {
    assert_eq!(concat_all(&vec![]), "");
    assert_eq!(
        concat_all(&vec!["a".to_string(), "".to_string(), "bc".to_string()]),
        "abc"
    );
}

#[test]
fn signature_is_the_base64_hmac_of_the_signed_text() {
    let connector = Fiserv;
    assert_eq!(
        connector.raw_signature("key-123", "req-1", "{\"amount\":100}", 1_700_000_000_000),
        "key-123req-11700000000000{\"amount\":100}"
    );
    let signature = connector
        .generate_authorization_signature(auth(), "req-1", "{\"amount\":100}", 1_700_000_000_000)
        .unwrap();
    assert_eq!(signature, "Gde3H8SijYnD1dwX0pkG0Bgn/3lAiQ3fphhpXEnkxOU=");
    let other = FiservAuthType {
        api_key: "k".to_string(),
        merchant_account: String::new(),
        api_secret: "s".to_string(),
    };
    assert_eq!(
        connector
            .generate_authorization_signature(other, "r", "p", -5)
            .unwrap(),
        "WzaJudZoOzfaNAgXUVgJ08MlwigUJudi8JXk6VB+YFQ="
    );
}

#[test]
fn headers_of_a_signed_request() {
    let headers = Fiserv
        .get_headers(auth(), "req-1".to_string(), Some("{\"amount\":100}"), 1_700_000_000_000)
        .unwrap();
    let expected = vec![
        ("Content-Type".to_string(), "application/json".to_string()),
        ("Client-Request-Id".to_string(), "req-1".to_string()),
        ("Auth-Token-Type".to_string(), "HMAC".to_string()),
        ("Api-Key".to_string(), "key-123".to_string()),
        ("Timestamp".to_string(), "1700000000000".to_string()),
        (
            "Authorization".to_string(),
            "Gde3H8SijYnD1dwX0pkG0Bgn/3lAiQ3fphhpXEnkxOU=".to_string(),
        ),
    ];
    assert_eq!(headers, expected);
    assert!(matches!(
        Fiserv.get_headers(auth(), "req-1".to_string(), None, 1_700_000_000_000),
        Err(ConnectorError::RequestEncodingFailed)
    ));
}

#[test]
fn addresses_of_the_flows() {
    let base = "https://cert.api.fiservapps.com/";
    let url = |flow| Fiserv.get_url(flow, base).unwrap();
    assert_eq!(url(FiservFlow::Authorize), "https://cert.api.fiservapps.com/ch/payments/v1/charges");
    assert_eq!(url(FiservFlow::Capture), "https://cert.api.fiservapps.com/ch/payments/v1/charges");
    assert_eq!(url(FiservFlow::Void), "https://cert.api.fiservapps.com/ch/payments/v1/cancels");
    assert_eq!(
        url(FiservFlow::PSync),
        "https://cert.api.fiservapps.com/ch/payments/v1/transaction-inquiry"
    );
    assert_eq!(url(FiservFlow::Execute), "https://cert.api.fiservapps.com/ch/payments/v1/refunds");
    assert_eq!(
        url(FiservFlow::RSync),
        "https://cert.api.fiservapps.com/ch/payments/v1/transaction-inquiry"
    );
    assert_eq!(Fiserv.id(), "fiserv");
    assert_eq!(Fiserv.common_get_content_type(), "application/json");
    assert_eq!(Fiserv.get_content_type(), "application/json");
}

#[test]
fn request_of_a_flow() {
    let request = Fiserv
        .build_request(
            FiservFlow::Void,
            "https://base/",
            auth(),
            "req-1".to_string(),
            "{\"amount\":100}".to_string(),
            1_700_000_000_000,
        )
        .unwrap()
        .unwrap();
    assert_eq!(request.method, Method::Post);
    assert_eq!(request.url, "https://base/ch/payments/v1/cancels");
    assert_eq!(request.body, Some("{\"amount\":100}".to_string()));
    assert_eq!(request.headers.len(), 6);
    assert_eq!(request.headers[5].1, "Gde3H8SijYnD1dwX0pkG0Bgn/3lAiQ3fphhpXEnkxOU=");
}

#[test]
fn error_message_prefers_error_over_details() {
    let both = FiservErrorBody {
        details: Some(vec![entry("ignored")]),
        error: Some(vec![entry("first"), entry(" second")]),
    };
    let response = Fiserv.build_error_response(402, both).unwrap();
    assert_eq!(response.status_code, 402);
    assert_eq!(response.code, "No error code");
    assert_eq!(response.code, NO_ERROR_CODE);
    assert_eq!(response.message, "first second");
    assert_eq!(response.reason, None);
    let details = FiservErrorBody { details: Some(vec![entry("d1"), entry("d2")]), error: None };
    assert_eq!(Fiserv.get_error_response(500, details).unwrap().message, "d1d2");
    let empty = FiservErrorBody { details: Some(vec![entry("d1")]), error: Some(vec![]) };
    assert_eq!(Fiserv.build_error_response(500, empty).unwrap().message, "");
    let none = FiservErrorBody { details: None, error: None };
    let response = Fiserv.build_error_response(404, none).unwrap();
    assert_eq!(response.message, "No error message");
    assert_eq!(response.message, NO_ERROR_MESSAGE);
}

#[test]
fn webhooks_are_not_implemented() {
    assert!(matches!(
        Fiserv.get_webhook_object_reference_id(b"{}"),
        Err(ConnectorError::NotImplemented(name)) if name == "fiserv"
    ));
    assert!(matches!(
        Fiserv.get_webhook_event_type(b"{}"),
        Err(ConnectorError::NotImplemented(name)) if name == "fiserv"
    ));
    assert!(matches!(
        Fiserv.get_webhook_resource_object(b"{}"),
        Err(ConnectorError::NotImplemented(name)) if name == "fiserv"
    ));
    assert_eq!(Fiserv.get_flow_type("a=b").unwrap(), CallConnectorAction::Trigger);
}

#[test]
fn locker_key_has_the_prefix() {
    assert_eq!(get_redis_locker_key("token_abc"), "LOCKER_PM_TOKEN_token_abc");
    assert_eq!(get_redis_locker_key(""), "LOCKER_PM_TOKEN_");
    assert_eq!(LOCKER_REDIS_EXPIRY_SECONDS, 900);
}

#[test]
fn tokenize_payload_defaults_the_second_value() {
    let payload = tokenize_payload("v1".to_string(), None, "key".to_string());
    assert_eq!(payload.value1, "v1");
    assert_eq!(payload.value2, "");
    assert_eq!(payload.lookup_key, "key");
    assert_eq!(payload.service_name, "CARD");
    let payload = tokenize_payload("v1".to_string(), Some("v2".to_string()), "key".to_string());
    assert_eq!(payload.value2, "v2");
}

#[test]
fn payment_values_pair_by_kind() {
    let paired = VaultPaymentMethod::pair(
        VaultPaymentMethod::Wallet("one".to_string()),
        VaultPaymentMethod::Wallet("two".to_string()),
    )
    .unwrap();
    assert_eq!(paired.kind, PaymentMethodKind::Wallet);
    assert_eq!(paired.value1, "one");
    assert_eq!(paired.value2, "two");
    for kind in [
        PaymentMethodKind::Card,
        PaymentMethodKind::Wallet,
        PaymentMethodKind::BankTransfer,
        PaymentMethodKind::BankRedirect,
    ] {
        let paired = VaultPaymentMethod::pair(
            VaultPaymentMethod::wrap(kind, "a".to_string()),
            VaultPaymentMethod::wrap(kind, "b".to_string()),
        )
        .unwrap();
        assert_eq!(paired.kind, kind);
        assert_eq!((paired.value1.as_str(), paired.value2.as_str()), ("a", "b"));
    }
    let mixed = VaultPaymentMethod::pair(
        VaultPaymentMethod::Card("one".to_string()),
        VaultPaymentMethod::BankRedirect("two".to_string()),
    );
    assert!(matches!(mixed, Err(VaultError::PaymentMethodNotSupported)));
}

#[test]
fn payout_values_pair_by_kind() {
    for kind in [PayoutMethodKind::Card, PayoutMethodKind::Bank, PayoutMethodKind::Wallet] {
        let paired = VaultPayoutMethod::pair(
            VaultPayoutMethod::wrap(kind, "a".to_string()),
            VaultPayoutMethod::wrap(kind, "b".to_string()),
        )
        .unwrap();
        assert_eq!(paired.kind, kind);
        assert_eq!((paired.value1.as_str(), paired.value2.as_str()), ("a", "b"));
    }
    let mixed = VaultPayoutMethod::pair(
        VaultPayoutMethod::Bank("one".to_string()),
        VaultPayoutMethod::Wallet("two".to_string()),
    );
    assert!(matches!(mixed, Err(VaultError::PayoutMethodNotSupported)));
}

fn text(value: &str) -> Option<String> {
    Some(value.to_string())
}

#[test]
fn bank_payout_goes_through_the_locker() {
    let sepa = BankPayout::Sepa {
        iban: "DE89".to_string(),
        bic: text("BIC"),
        bank_name: text("Bank"),
        bank_country_code: text("DE"),
        bank_city: None,
    };
    let value1 = sepa.get_value1();
    assert_eq!(value1.iban, text("DE89"));
    assert_eq!(value1.bic, text("BIC"));
    assert_eq!(value1.bank_account_number, None);
    let value2 = sepa.get_value2(text("cust"));
    assert_eq!(value2.customer_id, text("cust"));
    assert_eq!(value2.bank_country_code, text("DE"));
    assert_eq!(value2.bank_branch, None);
    let (restored, supplement) = BankPayout::from_values(value1, value2).unwrap();
    assert_eq!(supplement.customer_id, text("cust"));
    assert_eq!(supplement.payment_method_id, None);
    match restored {
        BankPayout::Sepa { iban, bic, bank_name, bank_country_code, bank_city } => {
            assert_eq!(iban, "DE89");
            assert_eq!(bic, text("BIC"));
            assert_eq!(bank_name, text("Bank"));
            assert_eq!(bank_country_code, text("DE"));
            assert_eq!(bank_city, None);
        }
        _ => panic!("not a SEPA payout"),
    }
}

fn sensitive(
    account: Option<&str>,
    routing: Option<&str>,
    sort_code: Option<&str>,
    iban: Option<&str>,
    bic: Option<&str>,
    pix_key: Option<&str>,
    tax_id: Option<&str>,
) -> TokenizedBankSensitiveValues {
    let own = |value: Option<&str>| value.map(|held| held.to_string());
    TokenizedBankSensitiveValues {
        bank_account_number: own(account),
        bank_routing_number: own(routing),
        bic: own(bic),
        bank_sort_code: own(sort_code),
        iban: own(iban),
        pix_key: own(pix_key),
        tax_id: own(tax_id),
    }
}

fn insensitive() -> TokenizedBankInsensitiveValues {
    TokenizedBankInsensitiveValues {
        customer_id: None,
        bank_name: text("Bank"),
        bank_country_code: text("US"),
        bank_city: text("City"),
        bank_branch: text("Branch"),
    }
}

#[test]
fn bank_scheme_is_told_by_the_fields() {
    let ach = BankPayout::from_values(
        sensitive(Some("1"), Some("2"), None, None, None, None, None),
        insensitive(),
    );
    assert!(matches!(ach, Ok((BankPayout::Ach { .. }, _))));
    let bacs = BankPayout::from_values(
        sensitive(Some("1"), None, Some("3"), None, None, None, None),
        insensitive(),
    );
    assert!(matches!(bacs, Ok((BankPayout::Bacs { .. }, _))));
    let sepa = BankPayout::from_values(
        sensitive(None, None, None, Some("4"), None, None, None),
        insensitive(),
    );
    assert!(matches!(sepa, Ok((BankPayout::Sepa { bic: None, .. }, _))));
    let pix = BankPayout::from_values(
        sensitive(Some("1"), None, None, None, None, Some("5"), Some("6")),
        insensitive(),
    );
    match pix {
        Ok((BankPayout::Pix { bank_account_number, pix_key, tax_id, bank_name, bank_branch }, _)) => {
            assert_eq!(bank_account_number, "1");
            assert_eq!(pix_key, "5");
            assert_eq!(tax_id, text("6"));
            assert_eq!(bank_name, text("Bank"));
            assert_eq!(bank_branch, text("Branch"));
        }
        _ => panic!("not a PIX payout"),
    }
    for odd in [
        sensitive(None, None, None, None, None, None, None),
        sensitive(Some("1"), None, None, None, None, None, None),
        sensitive(Some("1"), Some("2"), Some("3"), None, None, None, None),
        sensitive(Some("1"), Some("2"), None, None, Some("bic"), None, None),
        sensitive(None, None, None, Some("4"), None, Some("5"), None),
        sensitive(Some("1"), None, None, None, None, None, Some("6")),
    ] {
        assert!(matches!(
            BankPayout::from_values(odd, insensitive()),
            Err(VaultError::ResponseDeserializationFailed)
        ));
    }
}

#[test]
fn wallet_payout_goes_through_the_locker() {
    let paypal = WalletPayout::Paypal {
        email: text("a@b.c"),
        telephone_number: None,
        paypal_id: text("pp"),
    };
    let value1 = paypal.get_value1();
    assert_eq!(value1.wallet_type, WalletType::Paypal);
    assert_eq!(value1.wallet_id, text("pp"));
    let value2 = paypal.get_value2(text("cust"));
    let (restored, supplement) = WalletPayout::from_values(value1, value2).unwrap();
    assert_eq!(supplement.customer_id, text("cust"));
    assert!(matches!(
        restored,
        WalletPayout::Paypal { email: Some(email), telephone_number: None, paypal_id: Some(id) }
            if email == "a@b.c" && id == "pp"
    ));
    let venmo = WalletPayout::Venmo { telephone_number: text("555") };
    let value1 = venmo.get_value1();
    assert_eq!(value1.email, None);
    assert_eq!(value1.wallet_id, None);
    assert_eq!(value1.wallet_type, WalletType::Venmo);
    let restored = WalletPayout::from_values(value1, venmo.get_value2(None)).unwrap().0;
    assert!(matches!(restored, WalletPayout::Venmo { telephone_number: Some(number) } if number == "555"));
    let other = TokenizedWalletSensitiveValues {
        email: None,
        telephone_number: None,
        wallet_id: None,
        wallet_type: WalletType::Other,
    };
    assert!(matches!(
        WalletPayout::from_values(other, TokenizedWalletInsensitiveValues { customer_id: None }),
        Err(VaultError::PayoutMethodNotSupported)
    ));
}

#[test]
fn text_splits_at_the_first_colon() {
    assert_eq!(split_once_colon("v1:abc"), Some(("v1".to_string(), "abc".to_string())));
    assert_eq!(split_once_colon("v1:a:b"), Some(("v1".to_string(), "a:b".to_string())));
    assert_eq!(split_once_colon(":"), Some((String::new(), String::new())));
    assert_eq!(split_once_colon("é:ü"), Some(("é".to_string(), "ü".to_string())));
    assert_eq!(split_once_colon("abc"), None);
    assert_eq!(split_once_colon(""), None);
}

#[test]
fn plain_data_are_written_in_base64() {
    let plain = DecryptedData::from_data(b"hello".to_vec());
    assert_eq!(plain.to_text(), "aGVsbG8=");
    assert_eq!(plain.inner(), b"hello".to_vec());
    let read = DecryptedData::from_text("AP8QIA==").ok().unwrap();
    assert_eq!(read.inner(), vec![0u8, 255, 16, 32]);
    match DecryptedData::from_text("not base64!") {
        Err(CodecError::InvalidBase64 { message }) => assert!(!message.is_empty()),
        _ => panic!("accepted what is no base64"),
    }
}

#[test]
fn encrypted_data_are_written_with_their_version() {
    let encrypted = EncryptedData { version: "v1".to_string(), data: b"hello".to_vec() };
    assert_eq!(encrypted.to_text(), "v1:aGVsbG8=");
    assert_eq!(encrypted.inner(), b"hello".to_vec());
    let read = EncryptedData::from_text("v2:AP8QIA==").ok().unwrap();
    assert_eq!(read.version, "v2");
    assert_eq!(read.data, vec![0u8, 255, 16, 32]);
    assert!(matches!(
        EncryptedData::from_text("aGVsbG8="),
        Err(CodecError::MissingSeparator)
    ));
    assert!(matches!(
        EncryptedData::from_text("v1:a:b"),
        Err(CodecError::InvalidBase64 { .. })
    ));
    let empty = EncryptedData::from_text(":").ok().unwrap();
    assert_eq!(empty.version, "");
    assert!(empty.data.is_empty());
}

#[test]
fn one_time_password_settings() {
    assert_eq!(get_totp_redis_key("user_1"), "TOTP_user_1");
    let totp = generate_default_totp(
        "user@example.com".to_string(),
        Some("GAYTEMZUGU3DOOBZMFRGGZDFMY".to_string()),
    )
    .unwrap();
    assert_eq!(totp.secret, b"0123456789abcdef".to_vec());
    assert_eq!(totp.digits, 6);
    assert_eq!(totp.skew, 1);
    assert_eq!(totp.step, 30);
    assert_eq!(totp.issuer, Some("Hyperswitch".to_string()));
    assert_eq!(totp.account_name, "user@example.com");
    assert_eq!(totp.algorithm, totp_rs::Algorithm::SHA1);
    let drawn = generate_default_totp("user@example.com".to_string(), None).unwrap();
    assert_eq!(drawn.secret.len(), 20);
    let short = generate_default_totp("user@example.com".to_string(), Some("ONUG64TU".to_string()));
    assert!(matches!(short, Err(UserErrors::InternalServerError)));
    let garbled = generate_default_totp("user@example.com".to_string(), Some("0189!".to_string()));
    assert!(matches!(garbled, Err(UserErrors::InternalServerError)));
    let colon = generate_default_totp("user:example".to_string(), None);
    assert!(matches!(colon, Err(UserErrors::InternalServerError)));
    assert!(totp_from_secret(vec![7; 16], "a".to_string()).is_ok());
    assert!(totp_from_secret(vec![7; 15], "a".to_string()).is_err());
    assert!(totp_from_secret(vec![7; 16], "a:b".to_string()).is_err());
}

fn card() -> Card {
    Card {
        card_number: "4242424242424242".to_string(),
        card_exp_month: "12".to_string(),
        card_exp_year: "2030".to_string(),
        card_holder_name: text("A Holder"),
        card_cvc: "123".to_string(),
        card_issuer: text("issuer"),
        card_network: text("Visa"),
        bank_code: None,
        card_issuing_country: text("US"),
        card_type: text("credit"),
        nick_name: text("mine"),
    }
}

#[test]
fn card_goes_through_the_locker() {
    let card = card();
    let value1 = card.get_value1();
    assert_eq!(value1.card_number, "4242424242424242");
    assert_eq!(value1.exp_month, "12");
    assert_eq!(value1.exp_year, "2030");
    assert_eq!(value1.name_on_card, text("A Holder"));
    assert_eq!(value1.nickname, None);
    assert_eq!(value1.card_last_four, None);
    assert_eq!(value1.card_token, None);
    let value2 = card.get_value2(text("cust"));
    assert_eq!(value2.card_security_code, text("123"));
    assert_eq!(value2.customer_id, text("cust"));
    assert_eq!(value2.card_fingerprint, None);
    assert_eq!(value2.external_id, None);
    assert_eq!(value2.payment_method_id, None);
    let (restored, supplement) = Card::from_values(value1, value2, true).unwrap();
    assert_eq!(restored.card_number, "4242424242424242");
    assert_eq!(restored.card_exp_month, "12");
    assert_eq!(restored.card_exp_year, "2030");
    assert_eq!(restored.card_holder_name, text("A Holder"));
    assert_eq!(restored.card_cvc, "123");
    assert_eq!(restored.card_issuer, None);
    assert_eq!(restored.card_network, None);
    assert_eq!(restored.card_issuing_country, None);
    assert_eq!(restored.card_type, None);
    assert_eq!(restored.nick_name, None);
    assert_eq!(supplement.customer_id, text("cust"));
    assert_eq!(supplement.payment_method_id, None);
}

#[test]
fn card_with_a_bad_number_is_refused() {
    let card = card();
    let refused = Card::from_values(card.get_value1(), card.get_value2(None), false);
    assert!(matches!(refused, Err(VaultError::ResponseDeserializationFailed)));
    let mut value1 = card.get_value1();
    value1.nickname = text("stored name");
    let value2 = TokenizedCardValue2 {
        card_security_code: None,
        card_fingerprint: None,
        external_id: None,
        customer_id: None,
        payment_method_id: text("pm_1"),
    };
    let (restored, supplement) = Card::from_values(value1, value2, true).unwrap();
    assert_eq!(restored.card_cvc, "");
    assert_eq!(restored.nick_name, text("stored name"));
    assert_eq!(supplement.payment_method_id, text("pm_1"));
}

#[test]
fn card_payout_goes_through_the_locker() {
    let payout = CardPayout {
        card_number: "4242424242424242".to_string(),
        expiry_month: "01".to_string(),
        expiry_year: "2031".to_string(),
        card_holder_name: None,
    };
    let value1 = payout.get_value1();
    assert_eq!(value1.exp_month, "01");
    assert_eq!(value1.exp_year, "2031");
    assert_eq!(value1.name_on_card, None);
    let value2 = payout.get_value2(text("cust"));
    assert_eq!(value2.card_security_code, None);
    assert_eq!(value2.customer_id, text("cust"));
    let (restored, supplement) = CardPayout::from_values(value1, value2, true).unwrap();
    assert_eq!(restored.card_number, "4242424242424242");
    assert_eq!(restored.expiry_month, "01");
    assert_eq!(restored.expiry_year, "2031");
    assert_eq!(restored.card_holder_name, None);
    assert_eq!(supplement.customer_id, text("cust"));
    let refused = CardPayout::from_values(payout.get_value1(), payout.get_value2(None), false);
    assert!(matches!(refused, Err(VaultError::FetchCardFailed)));
}
