use vstd::prelude::*;
use vstd::string::*;

verus! {

/// The payment app that a UPI link opens.
#[derive(Debug, Clone, Copy)]
pub enum UpiApp {
    GooglePay,
    PhonePe,
    Paytm,
    Any,
}

/// The link scheme and path of a payment app.
pub open spec fn spec_scheme(app: UpiApp) -> Seq<char> {
    match app {
        UpiApp::GooglePay => "tez://upi/pay"@,
        UpiApp::PhonePe => "phonepe://upi/pay"@,
        UpiApp::Paytm => "paytmmp://pay"@,
        UpiApp::Any => "upi://pay"@,
    }
}

impl UpiApp {
    /// The link scheme and path that open this app.
    pub fn to_scheme(&self) -> (scheme: &'static str)
        ensures
            scheme@ == spec_scheme(*self),
    {
        match self {
            UpiApp::GooglePay => "tez://upi/pay",
            UpiApp::PhonePe => "phonepe://upi/pay",
            UpiApp::Paytm => "paytmmp://pay",
            UpiApp::Any => "upi://pay",
        }
    }
}

/// Whether a byte stays as it is in a percent-encoded text: ASCII letters
/// and digits, `-`, `.`, `_` and `~`.
pub open spec fn is_unreserved(byte: u8) -> bool {
    ||| 0x30 <= byte <= 0x39
    ||| 0x41 <= byte <= 0x5a
    ||| 0x61 <= byte <= 0x7a
    ||| byte == 0x2d
    ||| byte == 0x2e
    ||| byte == 0x5f
    ||| byte == 0x7e
}

/// The upper-case hexadecimal digit for a value below sixteen.
pub open spec fn hex_upper(digit: u8) -> char {
    if digit < 10 {
        (('0' as u8) + digit) as char
    } else {
        (('A' as u8) + (digit - 10)) as char
    }
}

/// Percent-encoding: unreserved bytes stay, every other byte becomes `%`
/// and its two upper-case hexadecimal digits.
pub open spec fn percent_encoded(bytes: Seq<u8>) -> Seq<char>
    decreases bytes.len(),
{
    if bytes.len() == 0 {
        Seq::empty()
    } else if is_unreserved(bytes[0]) {
        seq![bytes[0] as char] + percent_encoded(bytes.drop_first())
    } else {
        seq!['%', hex_upper(bytes[0] >> 4), hex_upper(bytes[0] & 15)] + percent_encoded(
            bytes.drop_first(),
        )
    }
}

/// `urlencoding::encode`: the percent-encoding of the UTF-8 bytes of `text`.
#[verifier::external_body]
pub(crate) fn url_encode(text: &str) -> (encoded: String)
    ensures
        encoded@ == percent_encoded(text.spec_bytes()),
{
    urlencoding::encode(text).into_owned()
}

/// The percent-encoding of a text.
pub open spec fn encoded_text(text: Seq<char>) -> Seq<char> {
    percent_encoded(vstd::utf8::encode_utf8(text))
}

/// The UPI payment link for a payee: scheme, payee address, payee name,
/// amount, and the currency, which is always INR.
pub open spec fn upi_link(app: UpiApp, vpa: Seq<char>, name: Seq<char>, amount: Seq<char>) -> Seq<
    char,
> {
    spec_scheme(app) + "?pa="@ + encoded_text(vpa) + "&pn="@ + encoded_text(name) + "&am="@
        + amount + "&cu=INR"@
}

/// Builds the UPI payment link. `amount` is the amount in rupees, written
/// with two decimals.
pub fn generate_upi_link(vpa: &str, name: &str, amount: &str, app: UpiApp) -> (link: String)
    ensures
        link@ == upi_link(app, vpa@, name@, amount@),
{
    let mut link = String::from_str(app.to_scheme());
    link.append("?pa=");
    link.append(url_encode(vpa).as_str());
    link.append("&pn=");
    link.append(url_encode(name).as_str());
    link.append("&am=");
    link.append(amount);
    link.append("&cu=INR");
    link
}

/// Why a QR code could not be made.
#[derive(Debug, Clone, Copy, PartialEq, Eq, Structural)]
pub enum QrFailure {
    DataTooLong,
    InvalidVersion,
    UnsupportedCharacterSet,
    InvalidEciDesignator,
    InvalidCharacter,
}

/// The QR code of `data` drawn with Unicode half blocks, or why there is none.
pub uninterp spec fn qr_unicode(data: Seq<u8>) -> Result<Seq<char>, QrFailure>;

/// `qrcode::QrCode::new` followed by the `unicode::Dense1x2` renderer's
/// `build`: the smallest QR code that holds `data` at the medium error
/// correction level, as text.
#[verifier::external_body]
pub(crate) fn qr_render(data: &[u8]) -> (image: Result<String, QrFailure>)
    ensures
        match image {
            Ok(text) => qr_unicode(data@) == Ok::<Seq<char>, QrFailure>(text@),
            Err(failure) => qr_unicode(data@) == Err::<Seq<char>, QrFailure>(failure),
        },
{
    match qrcode::QrCode::new(data) {
        Ok(code) => Ok(code.render::<qrcode::render::unicode::Dense1x2>().build()),
        Err(qrcode::types::QrError::DataTooLong) => Err(QrFailure::DataTooLong),
        Err(qrcode::types::QrError::InvalidVersion) => Err(QrFailure::InvalidVersion),
        Err(qrcode::types::QrError::UnsupportedCharacterSet) => Err(
            QrFailure::UnsupportedCharacterSet,
        ),
        Err(qrcode::types::QrError::InvalidEciDesignator) => Err(QrFailure::InvalidEciDesignator),
        Err(qrcode::types::QrError::InvalidCharacter) => Err(QrFailure::InvalidCharacter),
    }
}

/// The QR code of a link, as text.
pub open spec fn link_qr(link: Seq<char>) -> Result<Seq<char>, QrFailure> {
    qr_unicode(vstd::utf8::encode_utf8(link))
}

/// Draws the QR code of a payment link as text.
pub fn generate_upi_qr(link: &str) -> (image: Result<String, QrFailure>)
    ensures
        match image {
            Ok(text) => link_qr(link@) == Ok::<Seq<char>, QrFailure>(text@),
            Err(failure) => link_qr(link@) == Err::<Seq<char>, QrFailure>(failure),
        },
{
    qr_render(link.as_bytes())
}

/// The standard text of a UPI payment request.
pub open spec fn upi_request_text(name: Seq<char>, amount: Seq<char>, link: Seq<char>) -> Seq<
    char,
> {
    "Hi "@ + name + ",\nPlease complete the payment of ₹"@ + amount
        + " using the UPI link below:\n"@ + link
}

/// A message with the QR code of the link below it.
pub open spec fn with_qr(message: Seq<char>, qr: Seq<char>) -> Seq<char> {
    message + "\n\nScan this QR:\n"@ + qr
}

/// The message of a UPI payment request: the custom text if there is
/// one, else the standard text; with the QR code below it if there is one.
pub open spec fn upi_request_message(
    name: Seq<char>,
    amount: Seq<char>,
    link: Seq<char>,
    custom_message: Option<Seq<char>>,
    qr: Option<Seq<char>>,
) -> Seq<char> {
    let message = match custom_message {
        Some(text) => text,
        None => upi_request_text(name, amount, link),
    };
    match qr {
        Some(image) => with_qr(message, image),
        None => message,
    }
}

/// The QR code that goes into a message: the one that was made, if one
/// is wanted and could be made.
pub open spec fn wanted_qr(include_qr: bool, qr: Result<Seq<char>, QrFailure>) -> Option<
    Seq<char>,
> {
    match qr {
        Ok(image) if include_qr => Some(image),
        _ => None,
    }
}

/// Puts the message of a UPI payment request together from its parts.
pub fn assemble_upi_request(
    name: &str,
    amount: &str,
    link: &str,
    custom_message: Option<&str>,
    qr: Option<&str>,
) -> (message: String)
    ensures
        message@ == upi_request_message(
            name@,
            amount@,
            link@,
            custom_message.deep_view(),
            qr.deep_view(),
        ),
{
    let mut message = match custom_message {
        Some(text) => String::from_str(text),
        None => {
            let mut text = String::from_str("Hi ");
            text.append(name);
            text.append(",\nPlease complete the payment of ₹");
            text.append(amount);
            text.append(" using the UPI link below:\n");
            text.append(link);
            text
        },
    };
    match qr {
        Some(image) => {
            message.append("\n\nScan this QR:\n");
            message.append(image);
        },
        None => {},
    }
    message
}

/// Writes the message of a UPI payment request for a link. `amount` is
/// the amount in rupees, written with two decimals. A custom text, when
/// given, replaces the standard one. The QR code of the link is added
/// when it is wanted and can be made; when it cannot, the message goes
/// without it.
pub fn upi_payment_request_message(
    name: &str,
    amount: &str,
    link: &str,
    custom_message: Option<&str>,
    include_qr: bool,
) -> (message: String)
    ensures
        message@ == upi_request_message(
            name@,
            amount@,
            link@,
            custom_message.deep_view(),
            wanted_qr(include_qr, link_qr(link@)),
        ),
{
    if include_qr {
        match generate_upi_qr(link) {
            Ok(image) => assemble_upi_request(
                name,
                amount,
                link,
                custom_message,
                Some(image.as_str()),
            ),
            Err(_) => assemble_upi_request(name, amount, link, custom_message, None),
        }
    } else {
        assemble_upi_request(name, amount, link, custom_message, None)
    }
}

/// The UPI link that a WhatsApp payment message carries: like the plain
/// link, and with the description as the transaction note.
pub open spec fn upi_payment_link(
    upi_id: Seq<char>,
    amount: Seq<char>,
    description: Seq<char>,
    merchant_name: Seq<char>,
) -> Seq<char> {
    "upi://pay?pa="@ + encoded_text(upi_id) + "&pn="@ + encoded_text(merchant_name) + "&am="@
        + amount + "&cu=INR&tn="@ + encoded_text(description)
}

/// The text of a WhatsApp payment message.
pub open spec fn upi_payment_text(
    upi_id: Seq<char>,
    amount: Seq<char>,
    description: Seq<char>,
    merchant_name: Seq<char>,
) -> Seq<char> {
    "💰 Payment Request\n\n• Amount: ₹"@ + amount + "\n• To: "@ + merchant_name
        + "\n• Description: "@ + description + "\n\n🔗 Pay using UPI:\n"@ + upi_payment_link(
        upi_id,
        amount,
        description,
        merchant_name,
    ) + "\n\nOr scan the QR code if available."@
}

/// Writes the text of a WhatsApp payment message. `amount` is the amount
/// in rupees, written with two decimals.
pub fn upi_payment_message(upi_id: &str, amount: &str, description: &str, merchant_name: &str) -> (text:
    String)
    ensures
        text@ == upi_payment_text(upi_id@, amount@, description@, merchant_name@),
{
    let mut link = String::from_str("upi://pay?pa=");
    link.append(url_encode(upi_id).as_str());
    link.append("&pn=");
    link.append(url_encode(merchant_name).as_str());
    link.append("&am=");
    link.append(amount);
    link.append("&cu=INR&tn=");
    link.append(url_encode(description).as_str());
    let mut text = String::from_str("💰 Payment Request\n\n• Amount: ₹");
    text.append(amount);
    text.append("\n• To: ");
    text.append(merchant_name);
    text.append("\n• Description: ");
    text.append(description);
    text.append("\n\n🔗 Pay using UPI:\n");
    text.append(link.as_str());
    text.append("\n\nOr scan the QR code if available.");
    text
}

} // verus!
