//! The Fiserv connector: how a request is signed and addressed, and how an
//! error body is read.
use vstd::prelude::*;
use vstd::string::StringExecFns;
use vstd::utf8::encode_utf8;

use crate::codec::{base64_encode, base64_text, hmac_sha256, hmac_sha256_tag};
use crate::consts::{NO_ERROR_CODE, NO_ERROR_MESSAGE};
use crate::text::{concat_all, decimal_text, joined, texts, to_decimal};

verus! {

/// The connector.
#[derive(Debug, Clone)]
pub struct Fiserv;

/// The credentials of a merchant at Fiserv.
pub struct FiservAuthType {
    pub api_key: String,
    pub merchant_account: String,
    pub api_secret: String,
}

/// Why the connector could not do what was asked.
#[derive(Debug)]
pub enum ConnectorError {
    RequestEncodingFailed,
    ResponseDeserializationFailed,
    NotImplemented(String),
}

/// What to do once a redirect has come back.
#[derive(Debug, Clone, Copy, PartialEq, Eq, Structural)]
pub enum CallConnectorAction {
    Trigger,
}

/// The calls that the connector makes.
#[derive(Debug, Clone, Copy, PartialEq, Eq, Structural)]
pub enum FiservFlow {
    Authorize,
    Capture,
    Void,
    PSync,
    Execute,
    RSync,
}

/// How a request is sent.
#[derive(Debug, Clone, Copy, PartialEq, Eq, Structural)]
pub enum Method {
    Post,
}

/// A request, ready to be sent.
pub struct Request {
    pub method: Method,
    pub url: String,
    pub headers: Vec<(String, String)>,
    pub body: Option<String>,
}

/// One entry of an error body.
pub struct ErrorDetails {
    pub error_type: String,
    pub code: Option<String>,
    pub message: String,
    pub field: Option<String>,
}

/// The body of a response that reports errors.
pub struct FiservErrorBody {
    pub details: Option<Vec<ErrorDetails>>,
    pub error: Option<Vec<ErrorDetails>>,
}

/// An error as the router reports it.
pub struct ErrorResponse {
    pub status_code: u16,
    pub code: String,
    pub message: String,
    pub reason: Option<String>,
}

/// The text that is signed: key, request id, timestamp in decimal, payload.
pub open spec fn signature_text(
    api_key: Seq<char>,
    request_id: Seq<char>,
    timestamp: int,
    payload: Seq<char>,
) -> Seq<char> {
    api_key + request_id + decimal_text(timestamp) + payload
}

/// The signature of a request: the base64 text of the HMAC-SHA256 tag of the
/// signed text under the secret.
pub open spec fn authorization_signature(
    api_key: Seq<char>,
    api_secret: Seq<char>,
    request_id: Seq<char>,
    payload: Seq<char>,
    timestamp: int,
) -> Seq<char> {
    base64_text(
        hmac_sha256_tag(
            encode_utf8(api_secret),
            encode_utf8(signature_text(api_key, request_id, timestamp, payload)),
        ),
    )
}

/// The path of the endpoint of a call.
pub open spec fn endpoint(flow: FiservFlow) -> Seq<char> {
    match flow {
        FiservFlow::Authorize => "ch/payments/v1/charges"@,
        FiservFlow::Capture => "ch/payments/v1/charges"@,
        FiservFlow::Void => "ch/payments/v1/cancels"@,
        FiservFlow::PSync => "ch/payments/v1/transaction-inquiry"@,
        FiservFlow::Execute => "ch/payments/v1/refunds"@,
        FiservFlow::RSync => "ch/payments/v1/transaction-inquiry"@,
    }
}

/// The messages of the given entries, in order.
pub open spec fn messages(entries: Seq<ErrorDetails>) -> Seq<Seq<char>> {
    entries.map_values(|entry: ErrorDetails| entry.message@)
}

/// The message of an error body: the messages under `error` one after another
/// where there are any, else those under `details`, else a fixed text.
pub open spec fn error_message(body: FiservErrorBody) -> Seq<char> {
    match (body.error, body.details) {
        (Some(entries), _) => joined(messages(entries@)),
        (None, Some(entries)) => joined(messages(entries@)),
        (None, None) => NO_ERROR_MESSAGE@,
    }
}

/// Headers as pairs of texts.
pub open spec fn header_texts(headers: Seq<(String, String)>) -> Seq<(Seq<char>, Seq<char>)> {
    headers.map_values(|header: (String, String)| (header.0@, header.1@))
}

/// The headers of a signed request.
pub open spec fn signed_headers(
    api_key: Seq<char>,
    api_secret: Seq<char>,
    client_request_id: Seq<char>,
    request_body: Seq<char>,
    timestamp: int,
) -> Seq<(Seq<char>, Seq<char>)> {
    seq![
        ("Content-Type"@, "application/json"@),
        ("Client-Request-Id"@, client_request_id),
        ("Auth-Token-Type"@, "HMAC"@),
        ("Api-Key"@, api_key),
        ("Timestamp"@, decimal_text(timestamp)),
        (
            "Authorization"@,
            authorization_signature(
                api_key,
                api_secret,
                client_request_id,
                request_body,
                timestamp,
            ),
        ),
    ]
}

/// The messages of the given entries, one after another.
fn join_messages(entries: &Vec<ErrorDetails>) -> (text: String)
    ensures
        text@ == joined(messages(entries@)),
{
    let mut parts: Vec<String> = Vec::new();
    let mut i: usize = 0;
    while i < entries.len()
        invariant
            i <= entries@.len(),
            parts@.len() == i,
            forall|j: int| 0 <= j < i ==> (#[trigger] parts@[j])@ == entries@[j].message@,
        decreases entries@.len() - i,
    {
        parts.push(entries[i].message.clone());
        i = i + 1;
    }
    proof {
        assert(texts(parts@) =~= messages(entries@));
    }
    concat_all(&parts)
}

impl Fiserv {
    /// The name of the connector.
    pub fn id(&self) -> (name: &'static str)
        ensures
            name@ == "fiserv"@,
    {
        "fiserv"
    }

    /// The content type of every request.
    pub fn common_get_content_type(&self) -> (content_type: &'static str)
        ensures
            content_type@ == "application/json"@,
    {
        "application/json"
    }

    /// The content type of a request of any flow.
    pub fn get_content_type(&self) -> (content_type: &'static str)
        ensures
            content_type@ == "application/json"@,
    {
        "application/json"
    }

    /// The text that is signed.
    pub fn raw_signature(
        &self,
        api_key: &str,
        request_id: &str,
        payload: &str,
        timestamp: i128,
    ) -> (raw: String)
        ensures
            raw@ == signature_text(api_key@, request_id@, timestamp as int, payload@),
    {
        let mut raw = String::from_str(api_key);
        raw.append(request_id);
        let stamp = to_decimal(timestamp);
        raw.append(stamp.as_str());
        raw.append(payload);
        raw
    }

    /// The signature that authorizes a request: the signed text is the key,
    /// the request id, the timestamp in decimal and the payload, one after
    /// another; the signature is the base64 text of its HMAC-SHA256 tag under
    /// the secret. Always succeeds.
    pub fn generate_authorization_signature(
        &self,
        auth: FiservAuthType,
        request_id: &str,
        payload: &str,
        timestamp: i128,
    ) -> (result: Result<String, ConnectorError>)
        ensures
            result matches Ok(signature) && signature@ == authorization_signature(
                auth.api_key@,
                auth.api_secret@,
                request_id@,
                payload@,
                timestamp as int,
            ),
    {
        let FiservAuthType { api_key, api_secret, .. } = auth;
        let raw_signature = self.raw_signature(api_key.as_str(), request_id, payload, timestamp);
        let tag = hmac_sha256(api_secret.as_str().as_bytes(), raw_signature.as_str().as_bytes());
        let signature_value = base64_encode(tag.as_slice());
        Ok(signature_value)
    }

    /// The address of a call: the base address followed by the path of the
    /// flow's endpoint.
    pub fn get_url(&self, flow: FiservFlow, base_url: &str) -> (result: Result<
        String,
        ConnectorError,
    >)
        ensures
            result matches Ok(url) && url@ == base_url@ + endpoint(flow),
    {
        let path = match flow {
            FiservFlow::Authorize => "ch/payments/v1/charges",
            FiservFlow::Capture => "ch/payments/v1/charges",
            FiservFlow::Void => "ch/payments/v1/cancels",
            FiservFlow::PSync => "ch/payments/v1/transaction-inquiry",
            FiservFlow::Execute => "ch/payments/v1/refunds",
            FiservFlow::RSync => "ch/payments/v1/transaction-inquiry",
        };
        let mut url = String::from_str(base_url);
        url.append(path);
        Ok(url)
    }

    /// The headers of a signed request, given the request id and the time at
    /// which it is made. A request without body cannot be signed: it is
    /// `RequestEncodingFailed`.
    pub fn get_headers(
        &self,
        auth: FiservAuthType,
        client_request_id: String,
        request_body: Option<&str>,
        timestamp: i128,
    ) -> (result: Result<Vec<(String, String)>, ConnectorError>)
        ensures
            request_body is None ==> result matches Err(ConnectorError::RequestEncodingFailed),
            request_body matches Some(body) ==> (result matches Ok(headers) && header_texts(
                headers@,
            ) == signed_headers(
                auth.api_key@,
                auth.api_secret@,
                client_request_id@,
                body@,
                timestamp as int,
            )),
    {
        let api_key = auth.api_key.clone();
        let ghost key = auth.api_key@;
        let ghost secret = auth.api_secret@;
        let fiserv_req = match request_body {
            Some(body) => body,
            None => {
                return Err(ConnectorError::RequestEncodingFailed);
            },
        };
        let hmac = match self.generate_authorization_signature(
            auth,
            client_request_id.as_str(),
            fiserv_req,
            timestamp,
        ) {
            Ok(signature) => signature,
            Err(_) => {
                return Err(ConnectorError::RequestEncodingFailed);
            },
        };
        let mut headers: Vec<(String, String)> = Vec::new();
        headers.push(("Content-Type".to_owned(), self.get_content_type().to_owned()));
        headers.push(("Client-Request-Id".to_owned(), client_request_id));
        headers.push(("Auth-Token-Type".to_owned(), "HMAC".to_owned()));
        headers.push(("Api-Key".to_owned(), api_key));
        headers.push(("Timestamp".to_owned(), to_decimal(timestamp)));
        headers.push(("Authorization".to_owned(), hmac));
        proof {
            assert(header_texts(headers@) =~= signed_headers(
                key,
                secret,
                client_request_id@,
                fiserv_req@,
                timestamp as int,
            ));
        }
        Ok(headers)
    }

    /// The request of a flow: a POST to the flow's address with the signed
    /// headers and the body.
    pub fn build_request(
        &self,
        flow: FiservFlow,
        base_url: &str,
        auth: FiservAuthType,
        client_request_id: String,
        request_body: String,
        timestamp: i128,
    ) -> (result: Result<Option<Request>, ConnectorError>)
        ensures
            result matches Ok(Some(request)) && {
                &&& request.method == Method::Post
                &&& request.url@ == base_url@ + endpoint(flow)
                &&& header_texts(request.headers@) == signed_headers(
                    auth.api_key@,
                    auth.api_secret@,
                    client_request_id@,
                    request_body@,
                    timestamp as int,
                )
                &&& request.body == Some(request_body)
            },
    {
        let url = match self.get_url(flow, base_url) {
            Ok(url) => url,
            Err(error) => {
                return Err(error);
            },
        };
        let headers = match self.get_headers(
            auth,
            client_request_id,
            Some(request_body.as_str()),
            timestamp,
        ) {
            Ok(headers) => headers,
            Err(error) => {
                return Err(error);
            },
        };
        Ok(Some(Request { method: Method::Post, url, headers, body: Some(request_body) }))
    }

    /// The error that the router reports for an error body: the status of the
    /// response, a fixed code, the message of the body, no reason.
    pub fn build_error_response(&self, status_code: u16, body: FiservErrorBody) -> (result: Result<
        ErrorResponse,
        ConnectorError,
    >)
        ensures
            result matches Ok(response) && {
                &&& response.status_code == status_code
                &&& response.code@ == NO_ERROR_CODE@
                &&& response.message@ == error_message(body)
                &&& response.reason is None
            },
    {
        let FiservErrorBody { error, details } = body;
        let message = match (error, details) {
            (Some(entries), _) => join_messages(&entries),
            (None, Some(entries)) => join_messages(&entries),
            (None, None) => NO_ERROR_MESSAGE.to_owned(),
        };
        Ok(
            ErrorResponse {
                status_code,
                code: NO_ERROR_CODE.to_owned(),
                message,
                reason: None,
            },
        )
    }

    /// The error of a flow's response: that of `build_error_response`.
    pub fn get_error_response(&self, status_code: u16, body: FiservErrorBody) -> (result: Result<
        ErrorResponse,
        ConnectorError,
    >)
        ensures
            result matches Ok(response) && {
                &&& response.status_code == status_code
                &&& response.code@ == NO_ERROR_CODE@
                &&& response.message@ == error_message(body)
                &&& response.reason is None
            },
    {
        self.build_error_response(status_code, body)
    }

    /// Webhooks are not implemented: the reference of the object cannot be had.
    pub fn get_webhook_object_reference_id(&self, _body: &[u8]) -> (result: Result<
        String,
        ConnectorError,
    >)
        ensures
            result matches Err(ConnectorError::NotImplemented(name)) && name@ == "fiserv"@,
    {
        Err(ConnectorError::NotImplemented("fiserv".to_owned()))
    }

    /// Webhooks are not implemented: the kind of the event cannot be had.
    pub fn get_webhook_event_type(&self, _body: &[u8]) -> (result: Result<String, ConnectorError>)
        ensures
            result matches Err(ConnectorError::NotImplemented(name)) && name@ == "fiserv"@,
    {
        Err(ConnectorError::NotImplemented("fiserv".to_owned()))
    }

    /// Webhooks are not implemented: the object cannot be had.
    pub fn get_webhook_resource_object(&self, _body: &[u8]) -> (result: Result<
        String,
        ConnectorError,
    >)
        ensures
            result matches Err(ConnectorError::NotImplemented(name)) && name@ == "fiserv"@,
    {
        Err(ConnectorError::NotImplemented("fiserv".to_owned()))
    }

    /// After a redirect the connector is called again, whatever the query says.
    pub fn get_flow_type(&self, _query_params: &str) -> (result: Result<
        CallConnectorAction,
        ConnectorError,
    >)
        ensures
            result matches Ok(action) && action == CallConnectorAction::Trigger,
    {
        Ok(CallConnectorAction::Trigger)
    }
}

} // verus!
