//! Values that message handlers return, and the classification of commands and
//! reactions that they receive.
use threema_gateway::protocol::e2e::delivery_receipt::DeliveryReceipt;
use vstd::prelude::*;
use vstd::string::*;

verus! {

/// Indicates how a command was classified by the command registry.
#[derive(Debug, Copy, Clone, PartialEq, Eq, Structural)]
pub enum CommandType {
    /// A command registered via [`Commands::register`](crate::commands::Commands::register).
    Registered,
    /// A command that was not registered.
    ///
    /// Only dispatched to the handler if
    /// [`Commands::handle_unknown`](crate::commands::Commands::handle_unknown) was called.
    Unknown,
}

/// Action returned by handler methods to indicate how the bot should respond.
#[derive(Debug, Clone)]
pub enum Action {
    /// Do nothing (no response to the user).
    Ignore,
    /// Show the auto-generated help text, optionally preceded by a message.
    ShowHelp {
        /// Optional text shown before the help text (e.g. "Unknown command: /foo").
        prelude: Option<String>,
    },
    /// Send these responses to the user.
    Respond(Vec<Response>),
}

/// A classic reaction (i.e. thumbs up or down, sent in a delivery receipt message).
#[derive(Debug, Copy, Clone, PartialEq, Eq, Structural)]
pub enum ClassicReaction {
    /// Thumbs up / acknowledge
    ThumbsUp,
    /// Thumbs down / decline
    ThumbsDown,
}

#[verifier::external_type_specification]
#[verifier::external_body]
pub struct ExDeliveryReceipt(DeliveryReceipt);

/// The status that a delivery receipt carries, variant for variant as
/// `DeliveryReceipt` has it.
#[derive(Debug, Copy, Clone, PartialEq, Eq, Structural)]
pub enum ReceiptStatus {
    /// Message is received
    Received,
    /// Message is read
    Read,
    /// Message is acknowledged (thumbs-up reaction)
    Acknowledged,
    /// Message is declined (thumbs-down reaction)
    Declined,
    /// Another receipt type (unknown), with its code
    Other(u8),
}

/// The status that a `DeliveryReceipt` carries: the variant of [`ReceiptStatus`] of the
/// same name, `Other` with its code.
pub uninterp spec fn receipt_status_of(receipt: DeliveryReceipt) -> ReceiptStatus;

/// Tells the variants of threema_gateway's `DeliveryReceipt` apart: each variant
/// becomes the variant of [`ReceiptStatus`] of the same name, `Other` with its code.
/// The contract claims that the result is a function of `receipt` alone, named
/// [`receipt_status_of`].
#[verifier::external_body]
fn receipt_status(receipt: DeliveryReceipt) -> (r: ReceiptStatus)
    ensures
        r == receipt_status_of(receipt),
{
    match receipt {
        DeliveryReceipt::Received => ReceiptStatus::Received,
        DeliveryReceipt::Read => ReceiptStatus::Read,
        DeliveryReceipt::Acknowledged => ReceiptStatus::Acknowledged,
        DeliveryReceipt::Declined => ReceiptStatus::Declined,
        DeliveryReceipt::Other(code) => ReceiptStatus::Other(code),
    }
}

/// The decimal digit `d`.
pub open spec fn digit_char(d: nat) -> char {
    (d + 48) as char
}

/// The decimal notation of `n`, without leading zeros.
pub open spec fn decimal(n: nat) -> Seq<char>
    decreases n,
{
    if n < 10 {
        seq![digit_char(n)]
    } else {
        decimal(n / 10) + seq![digit_char(n % 10)]
    }
}

/// How `{:?}` writes a delivery receipt status.
pub open spec fn receipt_debug_text(status: ReceiptStatus) -> Seq<char> {
    match status {
        ReceiptStatus::Received => "Received"@,
        ReceiptStatus::Read => "Read"@,
        ReceiptStatus::Acknowledged => "Acknowledged"@,
        ReceiptStatus::Declined => "Declined"@,
        ReceiptStatus::Other(code) => "Other("@ + decimal(code as nat) + ")"@,
    }
}

/// The message of the error for a status that is no classic reaction.
pub open spec fn invalid_receipt_message(status: ReceiptStatus) -> Seq<char> {
    "Invalid delivery receipt type: "@ + receipt_debug_text(status)
}

/// `r` is what a delivery receipt with this status converts to: thumbs up for
/// `Acknowledged`, thumbs down for `Declined`, and for any other status an error
/// that names it.
pub open spec fn reaction_for_status(status: ReceiptStatus, r: Result<ClassicReaction, String>) -> bool {
    match status {
        ReceiptStatus::Acknowledged => r == Ok::<ClassicReaction, String>(ClassicReaction::ThumbsUp),
        ReceiptStatus::Declined => r == Ok::<ClassicReaction, String>(ClassicReaction::ThumbsDown),
        _ => r matches Err(e) && e@ == invalid_receipt_message(status),
    }
}

/// The one-character text of the decimal digit `d`.
fn digit_text(d: u8) -> (r: &'static str)
    requires
        d < 10,
    ensures
        r@ == seq![digit_char(d as nat)],
{
    let digits = "0123456789";
    proof {
        reveal_strlit("0123456789");
    }
    let r = digits.substring_char(d as usize, d as usize + 1);
    assert(r@ =~= seq![digit_char(d as nat)]);
    r
}

/// Writes `n` in decimal.
fn decimal_text(n: u8) -> (r: String)
    ensures
        r@ == decimal(n as nat),
{
    if n >= 100 {
        let mut r = String::from_str(digit_text(n / 100));
        r.append(digit_text((n / 10) % 10));
        r.append(digit_text(n % 10));
        proof {
            let hi = (n / 100) as nat;
            let mid = (n / 10) as nat;
            assert(mid / 10 == hi && mid % 10 == (n / 10) % 10 && mid >= 10);
            assert(decimal(hi) == seq![digit_char(hi)]);
            assert(decimal(mid) == decimal(hi) + seq![digit_char(mid % 10)]);
            assert(decimal(n as nat) == decimal(mid) + seq![digit_char((n % 10) as nat)]);
        }
        r
    } else if n >= 10 {
        let mut r = String::from_str(digit_text(n / 10));
        r.append(digit_text(n % 10));
        proof {
            assert(decimal((n / 10) as nat) == seq![digit_char((n / 10) as nat)]);
            assert(decimal(n as nat) == decimal((n / 10) as nat) + seq![
                digit_char((n % 10) as nat),
            ]);
        }
        r
    } else {
        String::from_str(digit_text(n))
    }
}

impl ClassicReaction {
    /// The classic reaction that a delivery receipt status stands for:
    /// `Acknowledged` is thumbs up, `Declined` thumbs down, and any other status an
    /// error that names it.
    pub fn from_receipt_status(status: ReceiptStatus) -> (r: Result<Self, String>)
        ensures
            match status {
                ReceiptStatus::Acknowledged => r == Ok::<Self, String>(ClassicReaction::ThumbsUp),
                ReceiptStatus::Declined => r == Ok::<Self, String>(ClassicReaction::ThumbsDown),
                _ => r matches Err(e) && e@ == invalid_receipt_message(status),
            },
    {
        match status {
            ReceiptStatus::Acknowledged => Ok(ClassicReaction::ThumbsUp),
            ReceiptStatus::Declined => Ok(ClassicReaction::ThumbsDown),
            ReceiptStatus::Received => {
                let mut e = String::from_str("Invalid delivery receipt type: ");
                e.append("Received");
                Err(e)
            },
            ReceiptStatus::Read => {
                let mut e = String::from_str("Invalid delivery receipt type: ");
                e.append("Read");
                Err(e)
            },
            ReceiptStatus::Other(code) => {
                let mut e = String::from_str("Invalid delivery receipt type: ");
                e.append("Other(");
                let digits = decimal_text(code);
                e.append(digits.as_str());
                e.append(")");
                Err(e)
            },
        }
    }
}

impl TryFrom<DeliveryReceipt> for ClassicReaction {
    type Error = String;

    fn try_from(value: DeliveryReceipt) -> (r: Result<Self, String>)
        ensures
            reaction_for_status(receipt_status_of(value), r),
    {
        Self::from_receipt_status(receipt_status(value))
    }
}

impl vstd::std_specs::convert::TryFromSpecImpl<DeliveryReceipt> for ClassicReaction {
    /// Not claimed: the error's `String` is fixed here only by its characters, so
    /// `try_from` cannot promise equality with this value. What it promises is
    /// `reaction_for_status(receipt_status_of(v), r)`.
    open spec fn obeys_try_from_spec() -> bool {
        false
    }

    open spec fn try_from_spec(v: DeliveryReceipt) -> Result<Self, Self::Error> {
        let status = receipt_status_of(v);
        match status {
            ReceiptStatus::Acknowledged => Ok(ClassicReaction::ThumbsUp),
            ReceiptStatus::Declined => Ok(ClassicReaction::ThumbsDown),
            _ => Err(choose|e: String| e@ == invalid_receipt_message(status)),
        }
    }
}

/// A response towards a user contacting the bot.
#[derive(Debug, Clone)]
pub enum Response {
    /// Text to send back to the user.
    Text(String),
    /// Image displayed inline in the chat (media rendering type).
    Image(FileResponse),
    /// File shown as a downloadable attachment (file rendering type).
    File(FileResponse),
}

/// File/image response data.
#[derive(Debug, Clone)]
pub struct FileResponse {
    /// The file data bytes.
    pub data: Vec<u8>,
    /// The media (MIME) type (e.g., "image/jpeg", "application/pdf").
    pub media_type: String,
    /// Optional file name.
    pub file_name: Option<String>,
    /// Optional caption/description.
    pub caption: Option<String>,
}

impl Response {
    /// Create a simple text response.
    pub fn text(text: &str) -> (r: Self)
        ensures
            r matches Response::Text(t) && t@ == text@,
    {
        Self::Text(String::from_str(text))
    }

    /// Create an image response displayed inline in the chat.
    ///
    /// Note: Media type should be either "image/jpeg" or "image/png".
    pub fn image(data: Vec<u8>, media_type: &str, caption: Option<String>) -> (r: Self)
        ensures
            r matches Response::Image(f) && f.data == data && f.media_type@ == media_type@
                && f.file_name is None && f.caption == caption,
    {
        Self::Image(
            FileResponse { data, media_type: String::from_str(media_type), file_name: None, caption },
        )
    }

    /// Create a file response shown as a downloadable attachment.
    pub fn file(
        data: Vec<u8>,
        media_type: &str,
        file_name: Option<String>,
        caption: Option<String>,
    ) -> (r: Self)
        ensures
            r matches Response::File(f) && f.data == data && f.media_type@ == media_type@
                && f.file_name == file_name && f.caption == caption,
    {
        Self::File(FileResponse { data, media_type: String::from_str(media_type), file_name, caption })
    }
}

} // verus!
