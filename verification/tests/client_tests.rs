use twilio_rs::client::TwilioClient;

fn sample_client() -> TwilioClient {
    TwilioClient::new("AC123".to_string(), "token".to_string(), "+15550001111".to_string())
}

#[test]
fn base_url_names_the_account() {
    let client = sample_client();
    assert_eq!(
        client.base_url(),
        "https://api.twilio.com/2010-04-01/Accounts/AC123/Messages.json"
    );
}

#[test]
fn new_keeps_the_three_credentials() {
    let client = sample_client();
    assert_eq!(client.account_sid, "AC123");
    assert_eq!(client.auth_token, "token");
    assert_eq!(client.from_phone, "+15550001111");
}
