//! Mobile-money payment providers (Orange Money, MTN Mobile Money, Wave).
//! Their network APIs are not implemented yet: each provider answers with a
//! pending stub result whose reference is built from the transaction.

use vstd::prelude::*;
use crate::errors::InfrastructureError;
use crate::money::Money;
use crate::outside::uuid_string;
use crate::text::uuid_text;

verus! {

/// The status of a payment.
#[derive(Debug, Clone, PartialEq, Eq, Structural)]
pub enum PaymentStatus {
    Pending,
    Processing,
    Completed,
    Failed,
    Cancelled,
}

/// The answer of a provider to a payment operation.
#[derive(Debug, Clone)]
pub struct PaymentResult {
    /// The provider's reference of the transaction.
    pub provider_ref: String,
    /// The status of the payment.
    pub status: PaymentStatus,
    /// A message from the provider.
    pub message: Option<String>,
}

/// A deposit or withdrawal to be made through a provider.
#[derive(Debug, Clone)]
pub struct PaymentRequest {
    /// The internal transaction identifier (the 128-bit value of a UUID).
    pub transaction_id: u128,
    /// The user's phone number, in E.164 format.
    pub phone_number: String,
    /// The amount to pay.
    pub amount: Money,
    /// The description shown to the user.
    pub description: String,
}

/// The pending stub result with reference `prefix` followed by the
/// transaction identifier, and message `message`.
pub open spec fn is_stub_result(r: PaymentResult, prefix: Seq<char>, id: u128, message: Seq<char>) -> bool {
    &&& r.provider_ref@ == prefix + uuid_text(id)
    &&& r.status == PaymentStatus::Pending
    &&& r.message matches Some(m) && m@ == message
}

/// A pending stub result.
fn stub_result(prefix: &str, id: u128, message: &str) -> (r: PaymentResult)
    ensures
        is_stub_result(r, prefix@, id, message@),
{
    let mut provider_ref = String::from_str(prefix);
    let id_text = uuid_string(id);
    provider_ref.append(id_text.as_str());
    PaymentResult {
        provider_ref,
        status: PaymentStatus::Pending,
        message: Some(String::from_str(message)),
    }
}

/// The answer to a status check: the reference, pending, with the stub
/// message.
pub open spec fn is_status_stub(r: PaymentResult, provider_ref: Seq<char>) -> bool {
    &&& r.provider_ref@ == provider_ref
    &&& r.status == PaymentStatus::Pending
    &&& r.message matches Some(m) && m@ == "Stub: Vérification de statut non implémentée"@
}

/// The answer to a status check.
fn status_stub(provider_ref: &str) -> (r: PaymentResult)
    ensures
        is_status_stub(r, provider_ref@),
{
    PaymentResult {
        provider_ref: String::from_str(provider_ref),
        status: PaymentStatus::Pending,
        message: Some(String::from_str("Stub: Vérification de statut non implémentée")),
    }
}

/// MTN Mobile Money Côte d'Ivoire.
pub struct MtnMobileMoneyProvider {
    api_url: String,
    subscription_key: String,
    api_user: String,
    api_key: String,
    environment: String,
}

impl MtnMobileMoneyProvider {
    /// The API base URL.
    pub closed spec fn api_url_text(self) -> Seq<char> {
        self.api_url@
    }

    /// The subscription key.
    pub closed spec fn subscription_key_text(self) -> Seq<char> {
        self.subscription_key@
    }

    /// The API user.
    pub closed spec fn api_user_text(self) -> Seq<char> {
        self.api_user@
    }

    /// The API key.
    pub closed spec fn api_key_text(self) -> Seq<char> {
        self.api_key@
    }

    /// The target environment (sandbox or production).
    pub closed spec fn environment_text(self) -> Seq<char> {
        self.environment@
    }

    /// A provider with the given credentials.
    pub fn new(
        api_url: &str,
        subscription_key: &str,
        api_user: &str,
        api_key: &str,
        environment: &str,
    ) -> (p: MtnMobileMoneyProvider)
        ensures
            p.api_url_text() == api_url@,
            p.subscription_key_text() == subscription_key@,
            p.api_user_text() == api_user@,
            p.api_key_text() == api_key@,
            p.environment_text() == environment@,
    {
        MtnMobileMoneyProvider {
            api_url: String::from_str(api_url),
            subscription_key: String::from_str(subscription_key),
            api_user: String::from_str(api_user),
            api_key: String::from_str(api_key),
            environment: String::from_str(environment),
        }
    }

    /// The provider's name.
    pub fn name(&self) -> (n: &'static str)
        ensures
            n@ == "MTN Mobile Money CI"@,
    {
        "MTN Mobile Money CI"
    }

    /// Whether the provider can be used: it has an API key.
    pub fn is_available(&self) -> (b: bool)
        ensures
            b == (self.api_key_text().len() > 0),
    {
        self.api_key.as_str().unicode_len() > 0
    }

    /// Starts a deposit (the user pays the platform): a pending stub.
    pub fn initiate_deposit(&self, request: PaymentRequest) -> (r: Result<
        PaymentResult,
        InfrastructureError,
    >)
        ensures
            r matches Ok(p) && is_stub_result(
                p,
                "MTN-STUB-"@,
                request.transaction_id,
                "Stub: En attente de l'implémentation API MTN MoMo"@,
            ),
    {
        Ok(
            stub_result(
                "MTN-STUB-",
                request.transaction_id,
                "Stub: En attente de l'implémentation API MTN MoMo",
            ),
        )
    }

    /// Starts a withdrawal (the platform pays the user): a pending stub.
    pub fn initiate_withdrawal(&self, request: PaymentRequest) -> (r: Result<
        PaymentResult,
        InfrastructureError,
    >)
        ensures
            r matches Ok(p) && is_stub_result(
                p,
                "MTN-STUB-W-"@,
                request.transaction_id,
                "Stub: En attente de l'implémentation API MTN MoMo"@,
            ),
    {
        Ok(
            stub_result(
                "MTN-STUB-W-",
                request.transaction_id,
                "Stub: En attente de l'implémentation API MTN MoMo",
            ),
        )
    }

    /// The status of a payment: pending, as a stub.
    pub fn check_status(&self, provider_ref: &str) -> (r: Result<PaymentResult, InfrastructureError>)
        ensures
            r matches Ok(p) && is_status_stub(p, provider_ref@),
    {
        Ok(status_stub(provider_ref))
    }

    /// Whether a webhook's signature is valid: never, until implemented.
    pub fn verify_webhook_signature(&self, payload: &[u8], signature: &str) -> (b: bool)
        ensures
            !b,
    {
        false
    }
}

/// Orange Money Côte d'Ivoire.
pub struct OrangeMoneyProvider {
    api_url: String,
    merchant_id: String,
    api_key: String,
    webhook_secret: String,
}

impl OrangeMoneyProvider {
    /// The API base URL.
    pub closed spec fn api_url_text(self) -> Seq<char> {
        self.api_url@
    }

    /// The merchant identifier.
    pub closed spec fn merchant_id_text(self) -> Seq<char> {
        self.merchant_id@
    }

    /// The API key.
    pub closed spec fn api_key_text(self) -> Seq<char> {
        self.api_key@
    }

    /// The secret that signs webhooks.
    pub closed spec fn webhook_secret_text(self) -> Seq<char> {
        self.webhook_secret@
    }

    /// A provider with the given credentials.
    pub fn new(api_url: &str, merchant_id: &str, api_key: &str, webhook_secret: &str) -> (p:
        OrangeMoneyProvider)
        ensures
            p.api_url_text() == api_url@,
            p.merchant_id_text() == merchant_id@,
            p.api_key_text() == api_key@,
            p.webhook_secret_text() == webhook_secret@,
    {
        OrangeMoneyProvider {
            api_url: String::from_str(api_url),
            merchant_id: String::from_str(merchant_id),
            api_key: String::from_str(api_key),
            webhook_secret: String::from_str(webhook_secret),
        }
    }

    /// The provider's name.
    pub fn name(&self) -> (n: &'static str)
        ensures
            n@ == "Orange Money CI"@,
    {
        "Orange Money CI"
    }

    /// Whether the provider can be used: it has an API key.
    pub fn is_available(&self) -> (b: bool)
        ensures
            b == (self.api_key_text().len() > 0),
    {
        self.api_key.as_str().unicode_len() > 0
    }

    /// Starts a deposit (the user pays the platform): a pending stub.
    pub fn initiate_deposit(&self, request: PaymentRequest) -> (r: Result<
        PaymentResult,
        InfrastructureError,
    >)
        ensures
            r matches Ok(p) && is_stub_result(
                p,
                "OM-STUB-"@,
                request.transaction_id,
                "Stub: En attente de l'implémentation API Orange Money"@,
            ),
    {
        Ok(
            stub_result(
                "OM-STUB-",
                request.transaction_id,
                "Stub: En attente de l'implémentation API Orange Money",
            ),
        )
    }

    /// Starts a withdrawal (the platform pays the user): a pending stub.
    pub fn initiate_withdrawal(&self, request: PaymentRequest) -> (r: Result<
        PaymentResult,
        InfrastructureError,
    >)
        ensures
            r matches Ok(p) && is_stub_result(
                p,
                "OM-STUB-W-"@,
                request.transaction_id,
                "Stub: En attente de l'implémentation API Orange Money"@,
            ),
    {
        Ok(
            stub_result(
                "OM-STUB-W-",
                request.transaction_id,
                "Stub: En attente de l'implémentation API Orange Money",
            ),
        )
    }

    /// The status of a payment: pending, as a stub.
    pub fn check_status(&self, provider_ref: &str) -> (r: Result<PaymentResult, InfrastructureError>)
        ensures
            r matches Ok(p) && is_status_stub(p, provider_ref@),
    {
        Ok(status_stub(provider_ref))
    }

    /// Whether a webhook's signature is valid: never, until implemented.
    pub fn verify_webhook_signature(&self, payload: &[u8], signature: &str) -> (b: bool)
        ensures
            !b,
    {
        false
    }
}

/// Wave.
pub struct WaveProvider {
    api_url: String,
    api_key: String,
    webhook_secret: String,
}

impl WaveProvider {
    /// The API base URL.
    pub closed spec fn api_url_text(self) -> Seq<char> {
        self.api_url@
    }

    /// The API key.
    pub closed spec fn api_key_text(self) -> Seq<char> {
        self.api_key@
    }

    /// The secret that signs webhooks.
    pub closed spec fn webhook_secret_text(self) -> Seq<char> {
        self.webhook_secret@
    }

    /// A provider with the given credentials.
    pub fn new(api_url: &str, api_key: &str, webhook_secret: &str) -> (p: WaveProvider)
        ensures
            p.api_url_text() == api_url@,
            p.api_key_text() == api_key@,
            p.webhook_secret_text() == webhook_secret@,
    {
        WaveProvider {
            api_url: String::from_str(api_url),
            api_key: String::from_str(api_key),
            webhook_secret: String::from_str(webhook_secret),
        }
    }

    /// The provider's name.
    pub fn name(&self) -> (n: &'static str)
        ensures
            n@ == "Wave"@,
    {
        "Wave"
    }

    /// Whether the provider can be used: it has an API key.
    pub fn is_available(&self) -> (b: bool)
        ensures
            b == (self.api_key_text().len() > 0),
    {
        self.api_key.as_str().unicode_len() > 0
    }

    /// Starts a deposit (the user pays the platform): a pending stub.
    pub fn initiate_deposit(&self, request: PaymentRequest) -> (r: Result<
        PaymentResult,
        InfrastructureError,
    >)
        ensures
            r matches Ok(p) && is_stub_result(
                p,
                "WAVE-STUB-"@,
                request.transaction_id,
                "Stub: En attente de l'implémentation API Wave"@,
            ),
    {
        Ok(
            stub_result(
                "WAVE-STUB-",
                request.transaction_id,
                "Stub: En attente de l'implémentation API Wave",
            ),
        )
    }

    /// Starts a withdrawal (the platform pays the user): a pending stub.
    pub fn initiate_withdrawal(&self, request: PaymentRequest) -> (r: Result<
        PaymentResult,
        InfrastructureError,
    >)
        ensures
            r matches Ok(p) && is_stub_result(
                p,
                "WAVE-STUB-W-"@,
                request.transaction_id,
                "Stub: En attente de l'implémentation API Wave"@,
            ),
    {
        Ok(
            stub_result(
                "WAVE-STUB-W-",
                request.transaction_id,
                "Stub: En attente de l'implémentation API Wave",
            ),
        )
    }

    /// The status of a payment: pending, as a stub.
    pub fn check_status(&self, provider_ref: &str) -> (r: Result<PaymentResult, InfrastructureError>)
        ensures
            r matches Ok(p) && is_status_stub(p, provider_ref@),
    {
        Ok(status_stub(provider_ref))
    }

    /// Whether a webhook's signature is valid: never, until implemented.
    pub fn verify_webhook_signature(&self, payload: &[u8], signature: &str) -> (b: bool)
        ensures
            !b,
    {
        false
    }
}

} // verus!
