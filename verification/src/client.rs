use vstd::prelude::*;
use vstd::string::*;

verus! {

/// Account credentials and sender identity used for every outbound request.
#[derive(Clone)]
pub struct TwilioClient {
    pub account_sid: String,
    pub auth_token: String,
    pub from_phone: String,
}

/// Text that precedes the account identifier in the messages endpoint.
pub open spec fn endpoint_prefix() -> Seq<char> {
    "https://api.twilio.com/2010-04-01/Accounts/"@
}

/// Text that follows the account identifier in the messages endpoint.
pub open spec fn endpoint_suffix() -> Seq<char> {
    "/Messages.json"@
}

impl TwilioClient {
    /// Bundles the three credential strings.
    pub fn new(account_sid: String, auth_token: String, from_phone: String) -> (client: Self)
        ensures
            client.account_sid == account_sid,
            client.auth_token == auth_token,
            client.from_phone == from_phone,
    {
        TwilioClient { account_sid, auth_token, from_phone }
    }

    /// The endpoint that accepts outbound messages for this account.
    pub open spec fn spec_base_url(&self) -> Seq<char> {
        endpoint_prefix() + self.account_sid@ + endpoint_suffix()
    }

    /// Returns the per-account messages endpoint.
    pub fn base_url(&self) -> (url: String)
        ensures
            url@ == self.spec_base_url(),
    {
        let mut url = String::from_str("https://api.twilio.com/2010-04-01/Accounts/");
        url.append(self.account_sid.as_str());
        url.append("/Messages.json");
        url
    }
}

} // verus!
