use vstd::prelude::*;

use crate::ack::AckMode;
use crate::frame::HeaderList;
use crate::handler::MessageHandler;

verus! {

/// The decimal digit that stands for `d`, for `d < 10`.
pub open spec fn digit_char(d: nat) -> char {
    seq!['0', '1', '2', '3', '4', '5', '6', '7', '8', '9'][d as int]
}

/// The decimal digits of `n`, without sign or leading zeros.
pub open spec fn decimal(n: nat) -> Seq<char>
    decreases n,
{
    if n < 10 {
        seq![digit_char(n)]
    } else {
        decimal(n / 10).push(digit_char(n % 10))
    }
}

/// The identifier of the subscription numbered `n`: the library's prefix,
/// a slash, and the decimal digits of `n`.
pub open spec fn subscription_id(n: u32) -> Seq<char> {
    "stomp-rs/"@ + decimal(n as nat)
}

/// Relies on std's `ToString` for `u32` (through `Display`): the decimal
/// digits of the number, with no sign and no leading zeros.
#[verifier::external_body]
fn decimal_text(n: u32) -> (r: String)
    ensures
        r@ == decimal(n as nat),
{
    n.to_string()
}

/// One subscription to a destination: its identifier, the destination, how
/// the messages must be acknowledged, the extra headers of the SUBSCRIBE
/// frame, and the handler that receives the messages.
///
/// The handler is held by value and owned by the subscription alone; a
/// subscription is generic over the handler's type in place of holding a
/// trait object.
pub struct Subscription<H> {
    pub id: String,
    pub destination: String,
    pub ack_mode: AckMode,
    pub headers: HeaderList,
    pub handler: H,
}

impl<H: MessageHandler> Subscription<H> {
    /// Builds the subscription numbered `id`. Nothing checks that the number
    /// is unique in the session: that is the caller's part.
    pub fn new(
        id: u32,
        destination: &str,
        ack_mode: AckMode,
        headers: HeaderList,
        message_handler: H,
    ) -> (s: Self)
        ensures
            s.id@ == subscription_id(id),
            s.destination@ == destination@,
            s.ack_mode == ack_mode,
            s.headers == headers,
            s.handler == message_handler,
    {
        let mut text = String::from_str("stomp-rs/");
        let digits = decimal_text(id);
        text.append(digits.as_str());
        Subscription {
            id: text,
            destination: String::from_str(destination),
            ack_mode,
            headers,
            handler: message_handler,
        }
    }
}

} // verus!
