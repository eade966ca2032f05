//! The page that a payout link leads to.
use vstd::prelude::*;
use vstd::string::StringExecFns;

verus! {

/// Where a payout link stands.
#[derive(Debug, Clone, Copy, PartialEq, Eq, Structural)]
pub enum PayoutLinkStatus {
    Initiated,
    Invalidated,
    Submitted,
}

/// The page to show.
#[derive(Debug, Clone, Copy, PartialEq, Eq, Structural)]
pub enum PayoutLinkPage {
    /// The link has run out.
    Expired,
    /// The form in which the payout method is entered.
    Form,
    /// The status of a link that is no longer open.
    Status(PayoutLinkStatus),
}

/// Whether a link that runs out at `expiry` has run out at `now`.
pub fn has_expired(now: i64, expiry: i64) -> (expired: bool)
    ensures
        expired == (now > expiry),
{
    now > expiry
}

/// The page of a link: the form for a link that is open and has not run
/// out, the notice of expiry for one that is open and has, the status page
/// for any other.
pub fn payout_link_page(status: PayoutLinkStatus, has_expired: bool) -> (page: PayoutLinkPage)
    ensures
        page == match status {
            PayoutLinkStatus::Initiated => if has_expired {
                PayoutLinkPage::Expired
            } else {
                PayoutLinkPage::Form
            },
            other => PayoutLinkPage::Status(other),
        },
{
    match status {
        PayoutLinkStatus::Initiated => {
            if has_expired {
                PayoutLinkPage::Expired
            } else {
                PayoutLinkPage::Form
            }
        },
        status => PayoutLinkPage::Status(status),
    }
}

/// The title of the notice of expiry.
pub fn expired_title() -> (title: String)
    ensures
        title@ == "Payout link has expired"@,
{
    String::from_str("Payout link has expired")
}

/// The message of the notice of expiry.
pub fn expired_message() -> (message: String)
    ensures
        message@ == "This payout link has expired."@,
{
    String::from_str("This payout link has expired.")
}

/// The script that hands the details of the payout, written as JSON, to the
/// page.
pub fn payout_details_script(details_json: &str) -> (script: String)
    ensures
        script@ == "window.__PAYOUT_DETAILS = "@ + details_json@,
{
    let mut script = String::from_str("window.__PAYOUT_DETAILS = ");
    script.append(details_json);
    script
}

/// What is reported when the customer of a link is not found.
pub fn customer_not_found_message(primary_reference: &str, link_id: &str) -> (message: String)
    ensures
        message@ == "Customer ["@ + primary_reference@ + "] not found for link_id - "@
            + link_id@,
{
    let mut message = String::from_str("Customer [");
    message.append(primary_reference);
    message.append("] not found for link_id - ");
    message.append(link_id);
    message
}

} // verus!
