use crate::client::TwilioClient;
use crate::payload::field;
use vstd::prelude::*;
use vstd::string::*;

verus! {

/// The provider's acknowledgment of an accepted SMS.
#[derive(Debug, Clone)]
pub struct TwilioMessageResponse {
    pub sid: String,
    pub status: String,
    pub to: String,
    pub from: String,
    pub body: String,
}

/// Fields of an SMS: recipient, sender and body, the addresses as they are.
pub open spec fn spec_sms_fields(from_phone: Seq<char>, to: Seq<char>, body: Seq<char>) -> Seq<
    (Seq<char>, Seq<char>),
> {
    seq![("To"@, to), ("From"@, from_phone), ("Body"@, body)]
}

impl TwilioClient {
    /// Builds the fields of an SMS from this client's number.
    pub fn sms_fields(&self, to: &str, body: &str) -> (fields: Vec<(String, String)>)
        ensures
            fields.deep_view() == spec_sms_fields(self.from_phone@, to@, body@),
    {
        let mut fields: Vec<(String, String)> = Vec::new();
        fields.push(field("To", String::from_str(to)));
        fields.push(field("From", self.from_phone.clone()));
        fields.push(field("Body", String::from_str(body)));
        assert(fields.deep_view() =~= spec_sms_fields(self.from_phone@, to@, body@));
        fields
    }
}

} // verus!
