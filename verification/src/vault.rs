//! The temporary locker: how its keys are named, and how payment and payout
//! methods are taken apart into the two values it stores and put together
//! again.
use vstd::prelude::*;
use vstd::string::StringExecFns;

use crate::consts::{LOCKER_REDIS_PREFIX, VAULT_SERVICE_NAME};

verus! {

/// The locker.
pub struct Vault;

/// What comes back from the locker beside the method itself.
pub struct SupplementaryVaultData {
    pub customer_id: Option<String>,
    pub payment_method_id: Option<String>,
}

/// Why a method could not be stored or read back.
#[derive(Debug, Clone, Copy, PartialEq, Eq, Structural)]
pub enum VaultError {
    RequestEncodingFailed,
    ResponseDeserializationFailed,
    PaymentMethodNotSupported,
    PayoutMethodNotSupported,
    FetchCardFailed,
}

/// One of the two stored values of a payment method, marked with its kind.
#[derive(Debug, Clone)]
pub enum VaultPaymentMethod {
    Card(String),
    Wallet(String),
    BankTransfer(String),
    BankRedirect(String),
}

/// One of the two stored values of a payout method, marked with its kind.
#[derive(Debug, Clone)]
pub enum VaultPayoutMethod {
    Card(String),
    Bank(String),
    Wallet(String),
}

/// The two values as the locker stores them.
#[derive(Debug, Clone)]
pub struct MockTokenizeDBValue {
    pub value1: String,
    pub value2: String,
}

/// The kinds of payment method that the locker stores.
#[derive(Debug, Clone, Copy, PartialEq, Eq, Structural)]
pub enum PaymentMethodKind {
    Card,
    Wallet,
    BankTransfer,
    BankRedirect,
}

/// The kinds of payout method that the locker stores.
#[derive(Debug, Clone, Copy, PartialEq, Eq, Structural)]
pub enum PayoutMethodKind {
    Card,
    Bank,
    Wallet,
}

/// The two values of one method, with the kind they share.
pub struct PairedValues<K> {
    pub kind: K,
    pub value1: String,
    pub value2: String,
}

/// The wallet that a stored wallet payout names.
#[derive(Debug, Clone, Copy, PartialEq, Eq, Structural)]
pub enum WalletType {
    Paypal,
    Venmo,
    /// Any other payment method type: no wallet that pays out.
    Other,
}

/// A payout to a wallet.
pub enum WalletPayout {
    Paypal { email: Option<String>, telephone_number: Option<String>, paypal_id: Option<String> },
    Venmo { telephone_number: Option<String> },
}

/// The first stored value of a wallet payout.
pub struct TokenizedWalletSensitiveValues {
    pub email: Option<String>,
    pub telephone_number: Option<String>,
    pub wallet_id: Option<String>,
    pub wallet_type: WalletType,
}

/// The second stored value of a wallet payout.
pub struct TokenizedWalletInsensitiveValues {
    pub customer_id: Option<String>,
}

/// A card that pays.
pub struct Card {
    pub card_number: String,
    pub card_exp_month: String,
    pub card_exp_year: String,
    pub card_holder_name: Option<String>,
    pub card_cvc: String,
    pub card_issuer: Option<String>,
    pub card_network: Option<String>,
    pub bank_code: Option<String>,
    pub card_issuing_country: Option<String>,
    pub card_type: Option<String>,
    pub nick_name: Option<String>,
}

/// A card that is paid out to.
pub struct CardPayout {
    pub card_number: String,
    pub expiry_month: String,
    pub expiry_year: String,
    pub card_holder_name: Option<String>,
}

/// The first stored value of a card.
pub struct TokenizedCardValue1 {
    pub card_number: String,
    pub exp_year: String,
    pub exp_month: String,
    pub name_on_card: Option<String>,
    pub nickname: Option<String>,
    pub card_last_four: Option<String>,
    pub card_token: Option<String>,
}

/// The second stored value of a card.
pub struct TokenizedCardValue2 {
    pub card_security_code: Option<String>,
    pub card_fingerprint: Option<String>,
    pub external_id: Option<String>,
    pub customer_id: Option<String>,
    pub payment_method_id: Option<String>,
}

/// A payout to a bank account.
pub enum BankPayout {
    Ach {
        bank_account_number: String,
        bank_routing_number: String,
        bank_name: Option<String>,
        bank_country_code: Option<String>,
        bank_city: Option<String>,
    },
    Bacs {
        bank_account_number: String,
        bank_sort_code: String,
        bank_name: Option<String>,
        bank_country_code: Option<String>,
        bank_city: Option<String>,
    },
    Sepa {
        iban: String,
        bic: Option<String>,
        bank_name: Option<String>,
        bank_country_code: Option<String>,
        bank_city: Option<String>,
    },
    Pix {
        bank_account_number: String,
        pix_key: String,
        tax_id: Option<String>,
        bank_name: Option<String>,
        bank_branch: Option<String>,
    },
}

/// The first stored value of a bank payout.
pub struct TokenizedBankSensitiveValues {
    pub bank_account_number: Option<String>,
    pub bank_routing_number: Option<String>,
    pub bic: Option<String>,
    pub bank_sort_code: Option<String>,
    pub iban: Option<String>,
    pub pix_key: Option<String>,
    pub tax_id: Option<String>,
}

/// The second stored value of a bank payout.
pub struct TokenizedBankInsensitiveValues {
    pub customer_id: Option<String>,
    pub bank_name: Option<String>,
    pub bank_country_code: Option<String>,
    pub bank_city: Option<String>,
    pub bank_branch: Option<String>,
}

/// The key under which the locker stores what belongs to `lookup_key`.
pub open spec fn redis_locker_key(lookup_key: Seq<char>) -> Seq<char> {
    LOCKER_REDIS_PREFIX@ + "_"@ + lookup_key
}

/// The key under which the locker stores what belongs to `lookup_key`: the
/// locker's prefix, an underscore, the lookup key.
pub fn get_redis_locker_key(lookup_key: &str) -> (key: String)
    ensures
        key@ == redis_locker_key(lookup_key@),
{
    let mut key = String::from_str(LOCKER_REDIS_PREFIX);
    key.append("_");
    key.append(lookup_key);
    key
}

/// What the locker encrypts and stores under a lookup key.
pub struct TokenizePayloadRequest {
    pub value1: String,
    pub value2: String,
    pub lookup_key: String,
    pub service_name: String,
}

/// What is stored for the two values of a method: the first value, the
/// second or an empty text where there is none, the lookup key, and the name
/// of the card service.
pub fn tokenize_payload(value1: String, value2: Option<String>, lookup_key: String) -> (payload:
    TokenizePayloadRequest)
    ensures
        payload.value1 == value1,
        payload.value2@ == match value2 {
            Some(value) => value@,
            None => Seq::<char>::empty(),
        },
        payload.lookup_key == lookup_key,
        payload.service_name@ == VAULT_SERVICE_NAME@,
{
    let value2 = match value2 {
        Some(value) => value,
        None => String::new(),
    };
    TokenizePayloadRequest {
        value1,
        value2,
        lookup_key,
        service_name: String::from_str(VAULT_SERVICE_NAME),
    }
}

/// A copy of an optional text.
fn copy_text(text: &Option<String>) -> (copy: Option<String>)
    ensures
        copy == *text,
{
    match text {
        Some(held) => Some(held.clone()),
        None => None,
    }
}

impl VaultPaymentMethod {
    /// The kind of the value.
    pub open spec fn kind_of(&self) -> PaymentMethodKind {
        match self {
            VaultPaymentMethod::Card(_) => PaymentMethodKind::Card,
            VaultPaymentMethod::Wallet(_) => PaymentMethodKind::Wallet,
            VaultPaymentMethod::BankTransfer(_) => PaymentMethodKind::BankTransfer,
            VaultPaymentMethod::BankRedirect(_) => PaymentMethodKind::BankRedirect,
        }
    }

    /// The value itself.
    pub open spec fn content(&self) -> String {
        match self {
            VaultPaymentMethod::Card(value) => *value,
            VaultPaymentMethod::Wallet(value) => *value,
            VaultPaymentMethod::BankTransfer(value) => *value,
            VaultPaymentMethod::BankRedirect(value) => *value,
        }
    }

    /// A value marked with the given kind.
    pub fn wrap(kind: PaymentMethodKind, value: String) -> (wrapped: Self)
        ensures
            wrapped.kind_of() == kind,
            wrapped.content() == value,
    {
        match kind {
            PaymentMethodKind::Card => VaultPaymentMethod::Card(value),
            PaymentMethodKind::Wallet => VaultPaymentMethod::Wallet(value),
            PaymentMethodKind::BankTransfer => VaultPaymentMethod::BankTransfer(value),
            PaymentMethodKind::BankRedirect => VaultPaymentMethod::BankRedirect(value),
        }
    }

    /// The two values of one payment method. Two values of one kind pair up;
    /// values of different kinds are `PaymentMethodNotSupported`.
    pub fn pair(value1: Self, value2: Self) -> (result: Result<
        PairedValues<PaymentMethodKind>,
        VaultError,
    >)
        ensures
            value1.kind_of() == value2.kind_of() ==> (result matches Ok(paired) && paired.kind
                == value1.kind_of() && paired.value1 == value1.content() && paired.value2
                == value2.content()),
            value1.kind_of() != value2.kind_of() ==> result == Err::<
                PairedValues<PaymentMethodKind>,
                VaultError,
            >(VaultError::PaymentMethodNotSupported),
    {
        match (value1, value2) {
            (VaultPaymentMethod::Card(mvalue1), VaultPaymentMethod::Card(mvalue2)) => Ok(
                PairedValues { kind: PaymentMethodKind::Card, value1: mvalue1, value2: mvalue2 },
            ),
            (VaultPaymentMethod::Wallet(mvalue1), VaultPaymentMethod::Wallet(mvalue2)) => Ok(
                PairedValues { kind: PaymentMethodKind::Wallet, value1: mvalue1, value2: mvalue2 },
            ),
            (
                VaultPaymentMethod::BankTransfer(mvalue1),
                VaultPaymentMethod::BankTransfer(mvalue2),
            ) => Ok(
                PairedValues {
                    kind: PaymentMethodKind::BankTransfer,
                    value1: mvalue1,
                    value2: mvalue2,
                },
            ),
            (
                VaultPaymentMethod::BankRedirect(mvalue1),
                VaultPaymentMethod::BankRedirect(mvalue2),
            ) => Ok(
                PairedValues {
                    kind: PaymentMethodKind::BankRedirect,
                    value1: mvalue1,
                    value2: mvalue2,
                },
            ),
            _ => Err(VaultError::PaymentMethodNotSupported),
        }
    }
}

impl VaultPayoutMethod {
    /// The kind of the value.
    pub open spec fn kind_of(&self) -> PayoutMethodKind {
        match self {
            VaultPayoutMethod::Card(_) => PayoutMethodKind::Card,
            VaultPayoutMethod::Bank(_) => PayoutMethodKind::Bank,
            VaultPayoutMethod::Wallet(_) => PayoutMethodKind::Wallet,
        }
    }

    /// The value itself.
    pub open spec fn content(&self) -> String {
        match self {
            VaultPayoutMethod::Card(value) => *value,
            VaultPayoutMethod::Bank(value) => *value,
            VaultPayoutMethod::Wallet(value) => *value,
        }
    }

    /// A value marked with the given kind.
    pub fn wrap(kind: PayoutMethodKind, value: String) -> (wrapped: Self)
        ensures
            wrapped.kind_of() == kind,
            wrapped.content() == value,
    {
        match kind {
            PayoutMethodKind::Card => VaultPayoutMethod::Card(value),
            PayoutMethodKind::Bank => VaultPayoutMethod::Bank(value),
            PayoutMethodKind::Wallet => VaultPayoutMethod::Wallet(value),
        }
    }

    /// The two values of one payout method. Two values of one kind pair up;
    /// values of different kinds are `PayoutMethodNotSupported`.
    pub fn pair(value1: Self, value2: Self) -> (result: Result<
        PairedValues<PayoutMethodKind>,
        VaultError,
    >)
        ensures
            value1.kind_of() == value2.kind_of() ==> (result matches Ok(paired) && paired.kind
                == value1.kind_of() && paired.value1 == value1.content() && paired.value2
                == value2.content()),
            value1.kind_of() != value2.kind_of() ==> result == Err::<
                PairedValues<PayoutMethodKind>,
                VaultError,
            >(VaultError::PayoutMethodNotSupported),
    {
        match (value1, value2) {
            (VaultPayoutMethod::Card(mvalue1), VaultPayoutMethod::Card(mvalue2)) => Ok(
                PairedValues { kind: PayoutMethodKind::Card, value1: mvalue1, value2: mvalue2 },
            ),
            (VaultPayoutMethod::Bank(mvalue1), VaultPayoutMethod::Bank(mvalue2)) => Ok(
                PairedValues { kind: PayoutMethodKind::Bank, value1: mvalue1, value2: mvalue2 },
            ),
            (VaultPayoutMethod::Wallet(mvalue1), VaultPayoutMethod::Wallet(mvalue2)) => Ok(
                PairedValues { kind: PayoutMethodKind::Wallet, value1: mvalue1, value2: mvalue2 },
            ),
            _ => Err(VaultError::PayoutMethodNotSupported),
        }
    }
}

/// The first stored value of a card with the given number, expiry and
/// holder: the rest is left out.
pub open spec fn card_value1(
    card_number: String,
    exp_month: String,
    exp_year: String,
    name_on_card: Option<String>,
) -> TokenizedCardValue1 {
    TokenizedCardValue1 {
        card_number,
        exp_year,
        exp_month,
        name_on_card,
        nickname: None,
        card_last_four: None,
        card_token: None,
    }
}

/// The second stored value of a card with the given security code, stored
/// for the given customer: the rest is left out.
pub open spec fn card_value2(
    card_security_code: Option<String>,
    customer_id: Option<String>,
) -> TokenizedCardValue2 {
    TokenizedCardValue2 {
        card_security_code,
        card_fingerprint: None,
        external_id: None,
        customer_id,
        payment_method_id: None,
    }
}

impl Card {
    /// The first stored value: number, expiry and holder.
    pub fn get_value1(&self) -> (value1: TokenizedCardValue1)
        ensures
            value1 == card_value1(
                self.card_number,
                self.card_exp_month,
                self.card_exp_year,
                self.card_holder_name,
            ),
    {
        TokenizedCardValue1 {
            card_number: self.card_number.clone(),
            exp_year: self.card_exp_year.clone(),
            exp_month: self.card_exp_month.clone(),
            name_on_card: copy_text(&self.card_holder_name),
            nickname: None,
            card_last_four: None,
            card_token: None,
        }
    }

    /// The second stored value: the security code and the customer.
    pub fn get_value2(&self, customer_id: Option<String>) -> (value2: TokenizedCardValue2)
        ensures
            value2 == card_value2(Some(self.card_cvc), customer_id),
    {
        TokenizedCardValue2 {
            card_security_code: Some(self.card_cvc.clone()),
            card_fingerprint: None,
            external_id: None,
            customer_id,
            payment_method_id: None,
        }
    }

    /// The card that the two stored values stand for, given whether the
    /// stored number is the number of a card. A number that is none is
    /// `ResponseDeserializationFailed`. The security code of a card stored
    /// without one is empty; issuer, network, bank code, country and type are
    /// not stored and come back empty.
    pub fn from_values(
        value1: TokenizedCardValue1,
        value2: TokenizedCardValue2,
        card_number_is_valid: bool,
    ) -> (result: Result<(Card, SupplementaryVaultData), VaultError>)
        ensures
            !card_number_is_valid ==> result == Err::<(Card, SupplementaryVaultData), VaultError>(
                VaultError::ResponseDeserializationFailed,
            ),
            card_number_is_valid ==> (result matches Ok(restored) && {
                &&& restored.0.card_number == value1.card_number
                &&& restored.0.card_exp_month == value1.exp_month
                &&& restored.0.card_exp_year == value1.exp_year
                &&& restored.0.card_holder_name == value1.name_on_card
                &&& restored.0.card_cvc@ == match value2.card_security_code {
                    Some(code) => code@,
                    None => Seq::<char>::empty(),
                }
                &&& restored.0.card_issuer is None
                &&& restored.0.card_network is None
                &&& restored.0.bank_code is None
                &&& restored.0.card_issuing_country is None
                &&& restored.0.card_type is None
                &&& restored.0.nick_name == value1.nickname
                &&& restored.1.customer_id == value2.customer_id
                &&& restored.1.payment_method_id == value2.payment_method_id
            }),
    {
        if !card_number_is_valid {
            return Err(VaultError::ResponseDeserializationFailed);
        }
        let card = Card {
            card_number: value1.card_number,
            card_exp_month: value1.exp_month,
            card_exp_year: value1.exp_year,
            card_holder_name: value1.name_on_card,
            card_cvc: match value2.card_security_code {
                Some(code) => code,
                None => String::new(),
            },
            card_issuer: None,
            card_network: None,
            bank_code: None,
            card_issuing_country: None,
            card_type: None,
            nick_name: value1.nickname,
        };
        let supp_data = SupplementaryVaultData {
            customer_id: value2.customer_id,
            payment_method_id: value2.payment_method_id,
        };
        Ok((card, supp_data))
    }
}

impl CardPayout {
    /// The first stored value: number, expiry and holder.
    pub fn get_value1(&self) -> (value1: TokenizedCardValue1)
        ensures
            value1 == card_value1(
                self.card_number,
                self.expiry_month,
                self.expiry_year,
                self.card_holder_name,
            ),
    {
        TokenizedCardValue1 {
            card_number: self.card_number.clone(),
            exp_year: self.expiry_year.clone(),
            exp_month: self.expiry_month.clone(),
            name_on_card: copy_text(&self.card_holder_name),
            nickname: None,
            card_last_four: None,
            card_token: None,
        }
    }

    /// The second stored value: the customer.
    pub fn get_value2(&self, customer_id: Option<String>) -> (value2: TokenizedCardValue2)
        ensures
            value2 == card_value2(None, customer_id),
    {
        TokenizedCardValue2 {
            card_security_code: None,
            card_fingerprint: None,
            external_id: None,
            customer_id,
            payment_method_id: None,
        }
    }

    /// The card that the two stored values stand for, given whether the
    /// stored number is the number of a card. A number that is none is
    /// `FetchCardFailed`.
    pub fn from_values(
        value1: TokenizedCardValue1,
        value2: TokenizedCardValue2,
        card_number_is_valid: bool,
    ) -> (result: Result<(CardPayout, SupplementaryVaultData), VaultError>)
        ensures
            result == if card_number_is_valid {
                Ok::<(CardPayout, SupplementaryVaultData), VaultError>(
                    (
                        CardPayout {
                            card_number: value1.card_number,
                            expiry_month: value1.exp_month,
                            expiry_year: value1.exp_year,
                            card_holder_name: value1.name_on_card,
                        },
                        SupplementaryVaultData {
                            customer_id: value2.customer_id,
                            payment_method_id: value2.payment_method_id,
                        },
                    ),
                )
            } else {
                Err::<(CardPayout, SupplementaryVaultData), VaultError>(
                    VaultError::FetchCardFailed,
                )
            },
    {
        if !card_number_is_valid {
            return Err(VaultError::FetchCardFailed);
        }
        let card = CardPayout {
            card_number: value1.card_number,
            expiry_month: value1.exp_month,
            expiry_year: value1.exp_year,
            card_holder_name: value1.name_on_card,
        };
        let supp_data = SupplementaryVaultData {
            customer_id: value2.customer_id,
            payment_method_id: value2.payment_method_id,
        };
        Ok((card, supp_data))
    }
}

impl WalletPayout {
    /// The first stored value of the payout.
    pub open spec fn sensitive(&self) -> TokenizedWalletSensitiveValues {
        match self {
            WalletPayout::Paypal {
                email,
                telephone_number,
                paypal_id,
            } => TokenizedWalletSensitiveValues {
                email: *email,
                telephone_number: *telephone_number,
                wallet_id: *paypal_id,
                wallet_type: WalletType::Paypal,
            },
            WalletPayout::Venmo { telephone_number } => TokenizedWalletSensitiveValues {
                email: None,
                telephone_number: *telephone_number,
                wallet_id: None,
                wallet_type: WalletType::Venmo,
            },
        }
    }

    /// What the two stored values stand for.
    pub open spec fn restored(
        value1: TokenizedWalletSensitiveValues,
        value2: TokenizedWalletInsensitiveValues,
    ) -> Result<(WalletPayout, SupplementaryVaultData), VaultError> {
        let supplement = SupplementaryVaultData {
            customer_id: value2.customer_id,
            payment_method_id: None,
        };
        match value1.wallet_type {
            WalletType::Paypal => Ok(
                (
                    WalletPayout::Paypal {
                        email: value1.email,
                        telephone_number: value1.telephone_number,
                        paypal_id: value1.wallet_id,
                    },
                    supplement,
                ),
            ),
            WalletType::Venmo => Ok(
                (WalletPayout::Venmo { telephone_number: value1.telephone_number }, supplement),
            ),
            WalletType::Other => Err(VaultError::PayoutMethodNotSupported),
        }
    }

    /// The first stored value: what is sensitive of the payout.
    pub fn get_value1(&self) -> (value1: TokenizedWalletSensitiveValues)
        ensures
            value1 == self.sensitive(),
    {
        match self {
            WalletPayout::Paypal {
                email,
                telephone_number,
                paypal_id,
            } => TokenizedWalletSensitiveValues {
                email: copy_text(email),
                telephone_number: copy_text(telephone_number),
                wallet_id: copy_text(paypal_id),
                wallet_type: WalletType::Paypal,
            },
            WalletPayout::Venmo { telephone_number } => TokenizedWalletSensitiveValues {
                email: None,
                telephone_number: copy_text(telephone_number),
                wallet_id: None,
                wallet_type: WalletType::Venmo,
            },
        }
    }

    /// The second stored value: the customer.
    pub fn get_value2(&self, customer_id: Option<String>) -> (value2:
        TokenizedWalletInsensitiveValues)
        ensures
            value2.customer_id == customer_id,
    {
        TokenizedWalletInsensitiveValues { customer_id }
    }

    /// The payout that the two stored values stand for. A wallet type other
    /// than Paypal and Venmo is `PayoutMethodNotSupported`.
    pub fn from_values(
        value1: TokenizedWalletSensitiveValues,
        value2: TokenizedWalletInsensitiveValues,
    ) -> (result: Result<(WalletPayout, SupplementaryVaultData), VaultError>)
        ensures
            result == Self::restored(value1, value2),
    {
        let wallet = match value1.wallet_type {
            WalletType::Paypal => WalletPayout::Paypal {
                email: value1.email,
                telephone_number: value1.telephone_number,
                paypal_id: value1.wallet_id,
            },
            WalletType::Venmo => WalletPayout::Venmo {
                telephone_number: value1.telephone_number,
            },
            WalletType::Other => {
                return Err(VaultError::PayoutMethodNotSupported);
            },
        };
        let supp_data = SupplementaryVaultData {
            customer_id: value2.customer_id,
            payment_method_id: None,
        };
        Ok((wallet, supp_data))
    }
}

impl BankPayout {
    /// The first stored value of the payout.
    pub open spec fn sensitive(&self) -> TokenizedBankSensitiveValues {
        match self {
            BankPayout::Ach {
                bank_account_number,
                bank_routing_number,
                ..
            } => TokenizedBankSensitiveValues {
                bank_account_number: Some(*bank_account_number),
                bank_routing_number: Some(*bank_routing_number),
                bic: None,
                bank_sort_code: None,
                iban: None,
                pix_key: None,
                tax_id: None,
            },
            BankPayout::Bacs {
                bank_account_number,
                bank_sort_code,
                ..
            } => TokenizedBankSensitiveValues {
                bank_account_number: Some(*bank_account_number),
                bank_routing_number: None,
                bic: None,
                bank_sort_code: Some(*bank_sort_code),
                iban: None,
                pix_key: None,
                tax_id: None,
            },
            BankPayout::Sepa { iban, bic, .. } => TokenizedBankSensitiveValues {
                bank_account_number: None,
                bank_routing_number: None,
                bic: *bic,
                bank_sort_code: None,
                iban: Some(*iban),
                pix_key: None,
                tax_id: None,
            },
            BankPayout::Pix {
                bank_account_number,
                pix_key,
                tax_id,
                ..
            } => TokenizedBankSensitiveValues {
                bank_account_number: Some(*bank_account_number),
                bank_routing_number: None,
                bic: None,
                bank_sort_code: None,
                iban: None,
                pix_key: Some(*pix_key),
                tax_id: *tax_id,
            },
        }
    }

    /// The second stored value of the payout.
    pub open spec fn insensitive(
        &self,
        customer_id: Option<String>,
    ) -> TokenizedBankInsensitiveValues {
        match self {
            BankPayout::Ach {
                bank_name,
                bank_country_code,
                bank_city,
                ..
            } => TokenizedBankInsensitiveValues {
                customer_id,
                bank_name: *bank_name,
                bank_country_code: *bank_country_code,
                bank_city: *bank_city,
                bank_branch: None,
            },
            BankPayout::Bacs {
                bank_name,
                bank_country_code,
                bank_city,
                ..
            } => TokenizedBankInsensitiveValues {
                customer_id,
                bank_name: *bank_name,
                bank_country_code: *bank_country_code,
                bank_city: *bank_city,
                bank_branch: None,
            },
            BankPayout::Sepa {
                bank_name,
                bank_country_code,
                bank_city,
                ..
            } => TokenizedBankInsensitiveValues {
                customer_id,
                bank_name: *bank_name,
                bank_country_code: *bank_country_code,
                bank_city: *bank_city,
                bank_branch: None,
            },
            BankPayout::Pix { bank_name, bank_branch, .. } => TokenizedBankInsensitiveValues {
                customer_id,
                bank_name: *bank_name,
                bank_country_code: None,
                bank_city: None,
                bank_branch: *bank_branch,
            },
        }
    }

    /// What the two stored values stand for: the scheme is told by which of
    /// the sensitive fields are there.
    pub open spec fn restored(
        value1: TokenizedBankSensitiveValues,
        value2: TokenizedBankInsensitiveValues,
    ) -> Result<(BankPayout, SupplementaryVaultData), VaultError> {
        let supplement = SupplementaryVaultData {
            customer_id: value2.customer_id,
            payment_method_id: None,
        };
        match (
            value1.bank_account_number,
            value1.bank_routing_number,
            value1.bank_sort_code,
            value1.iban,
            value1.bic,
            value1.pix_key,
            value1.tax_id,
        ) {
            (Some(ban), Some(brn), None, None, None, None, None) => Ok(
                (
                    BankPayout::Ach {
                        bank_account_number: ban,
                        bank_routing_number: brn,
                        bank_name: value2.bank_name,
                        bank_country_code: value2.bank_country_code,
                        bank_city: value2.bank_city,
                    },
                    supplement,
                ),
            ),
            (Some(ban), None, Some(bsc), None, None, None, None) => Ok(
                (
                    BankPayout::Bacs {
                        bank_account_number: ban,
                        bank_sort_code: bsc,
                        bank_name: value2.bank_name,
                        bank_country_code: value2.bank_country_code,
                        bank_city: value2.bank_city,
                    },
                    supplement,
                ),
            ),
            (None, None, None, Some(iban), bic, None, None) => Ok(
                (
                    BankPayout::Sepa {
                        iban,
                        bic,
                        bank_name: value2.bank_name,
                        bank_country_code: value2.bank_country_code,
                        bank_city: value2.bank_city,
                    },
                    supplement,
                ),
            ),
            (Some(ban), None, None, None, None, Some(pix_key), tax_id) => Ok(
                (
                    BankPayout::Pix {
                        bank_account_number: ban,
                        pix_key,
                        tax_id,
                        bank_name: value2.bank_name,
                        bank_branch: value2.bank_branch,
                    },
                    supplement,
                ),
            ),
            _ => Err(VaultError::ResponseDeserializationFailed),
        }
    }

    /// The first stored value: what is sensitive of the payout.
    pub fn get_value1(&self) -> (value1: TokenizedBankSensitiveValues)
        ensures
            value1 == self.sensitive(),
    {
        match self {
            BankPayout::Ach {
                bank_account_number,
                bank_routing_number,
                ..
            } => TokenizedBankSensitiveValues {
                bank_account_number: Some(bank_account_number.clone()),
                bank_routing_number: Some(bank_routing_number.clone()),
                bic: None,
                bank_sort_code: None,
                iban: None,
                pix_key: None,
                tax_id: None,
            },
            BankPayout::Bacs {
                bank_account_number,
                bank_sort_code,
                ..
            } => TokenizedBankSensitiveValues {
                bank_account_number: Some(bank_account_number.clone()),
                bank_routing_number: None,
                bic: None,
                bank_sort_code: Some(bank_sort_code.clone()),
                iban: None,
                pix_key: None,
                tax_id: None,
            },
            BankPayout::Sepa { iban, bic, .. } => TokenizedBankSensitiveValues {
                bank_account_number: None,
                bank_routing_number: None,
                bic: copy_text(bic),
                bank_sort_code: None,
                iban: Some(iban.clone()),
                pix_key: None,
                tax_id: None,
            },
            BankPayout::Pix {
                bank_account_number,
                pix_key,
                tax_id,
                ..
            } => TokenizedBankSensitiveValues {
                bank_account_number: Some(bank_account_number.clone()),
                bank_routing_number: None,
                bic: None,
                bank_sort_code: None,
                iban: None,
                pix_key: Some(pix_key.clone()),
                tax_id: copy_text(tax_id),
            },
        }
    }

    /// The second stored value: the customer and what is not sensitive of the
    /// payout.
    pub fn get_value2(&self, customer_id: Option<String>) -> (value2:
        TokenizedBankInsensitiveValues)
        ensures
            value2 == self.insensitive(customer_id),
    {
        match self {
            BankPayout::Ach {
                bank_name,
                bank_country_code,
                bank_city,
                ..
            } => TokenizedBankInsensitiveValues {
                customer_id,
                bank_name: copy_text(bank_name),
                bank_country_code: copy_text(bank_country_code),
                bank_city: copy_text(bank_city),
                bank_branch: None,
            },
            BankPayout::Bacs {
                bank_name,
                bank_country_code,
                bank_city,
                ..
            } => TokenizedBankInsensitiveValues {
                customer_id,
                bank_name: copy_text(bank_name),
                bank_country_code: copy_text(bank_country_code),
                bank_city: copy_text(bank_city),
                bank_branch: None,
            },
            BankPayout::Sepa {
                bank_name,
                bank_country_code,
                bank_city,
                ..
            } => TokenizedBankInsensitiveValues {
                customer_id,
                bank_name: copy_text(bank_name),
                bank_country_code: copy_text(bank_country_code),
                bank_city: copy_text(bank_city),
                bank_branch: None,
            },
            BankPayout::Pix { bank_name, bank_branch, .. } => TokenizedBankInsensitiveValues {
                customer_id,
                bank_name: copy_text(bank_name),
                bank_country_code: None,
                bank_city: None,
                bank_branch: copy_text(bank_branch),
            },
        }
    }

    /// The payout that the two stored values stand for. The scheme is told by
    /// which of the sensitive fields are there; fields that fit no scheme are
    /// `ResponseDeserializationFailed`.
    pub fn from_values(
        bank_sensitive_data: TokenizedBankSensitiveValues,
        bank_insensitive_data: TokenizedBankInsensitiveValues,
    ) -> (result: Result<(BankPayout, SupplementaryVaultData), VaultError>)
        ensures
            result == Self::restored(bank_sensitive_data, bank_insensitive_data),
    {
        let bank = match (
            bank_sensitive_data.bank_account_number,
            bank_sensitive_data.bank_routing_number,
            bank_sensitive_data.bank_sort_code,
            bank_sensitive_data.iban,
            bank_sensitive_data.bic,
            bank_sensitive_data.pix_key,
            bank_sensitive_data.tax_id,
        ) {
            (Some(ban), Some(brn), None, None, None, None, None) => BankPayout::Ach {
                bank_account_number: ban,
                bank_routing_number: brn,
                bank_name: bank_insensitive_data.bank_name,
                bank_country_code: bank_insensitive_data.bank_country_code,
                bank_city: bank_insensitive_data.bank_city,
            },
            (Some(ban), None, Some(bsc), None, None, None, None) => BankPayout::Bacs {
                bank_account_number: ban,
                bank_sort_code: bsc,
                bank_name: bank_insensitive_data.bank_name,
                bank_country_code: bank_insensitive_data.bank_country_code,
                bank_city: bank_insensitive_data.bank_city,
            },
            (None, None, None, Some(iban), bic, None, None) => BankPayout::Sepa {
                iban,
                bic,
                bank_name: bank_insensitive_data.bank_name,
                bank_country_code: bank_insensitive_data.bank_country_code,
                bank_city: bank_insensitive_data.bank_city,
            },
            (Some(ban), None, None, None, None, Some(pix_key), tax_id) => BankPayout::Pix {
                bank_account_number: ban,
                pix_key,
                tax_id,
                bank_name: bank_insensitive_data.bank_name,
                bank_branch: bank_insensitive_data.bank_branch,
            },
            _ => {
                return Err(VaultError::ResponseDeserializationFailed);
            },
        };
        let supp_data = SupplementaryVaultData {
            customer_id: bank_insensitive_data.customer_id,
            payment_method_id: None,
        };
        Ok((bank, supp_data))
    }
}

/// What is stored of a bank payout is read back as that payout, with the
/// customer it was stored for.
pub proof fn law_bank_payout_round_trip(payout: BankPayout, customer_id: Option<String>)
    ensures
        BankPayout::restored(payout.sensitive(), payout.insensitive(customer_id)) == Ok::<
            (BankPayout, SupplementaryVaultData),
            VaultError,
        >((payout, SupplementaryVaultData { customer_id, payment_method_id: None })),
{
}

/// What is stored of a wallet payout is read back as that payout, with the
/// customer it was stored for.
pub proof fn law_wallet_payout_round_trip(payout: WalletPayout, customer_id: Option<String>)
    ensures
        WalletPayout::restored(
            payout.sensitive(),
            TokenizedWalletInsensitiveValues { customer_id },
        ) == Ok::<(WalletPayout, SupplementaryVaultData), VaultError>(
            (payout, SupplementaryVaultData { customer_id, payment_method_id: None }),
        ),
{
}

} // verus!
