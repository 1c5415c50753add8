use vstd::prelude::*;

verus! {

/// How the messages received on a subscription must be acknowledged.
#[derive(Clone, Copy, Debug, PartialEq, Eq, Structural)]
pub enum AckMode {
    Auto,
    Client,
    ClientIndividual,
}

/// The token that stands for `mode` in the `ack` header of a SUBSCRIBE frame.
pub open spec fn ack_mode_text(mode: AckMode) -> Seq<char> {
    match mode {
        AckMode::Auto => "auto"@,
        AckMode::Client => "client"@,
        AckMode::ClientIndividual => "client-individual"@,
    }
}

impl AckMode {
    /// The protocol token of this mode.
    pub fn as_text(&self) -> (r: &'static str)
        ensures
            r@ == ack_mode_text(*self),
    {
        match *self {
            AckMode::Auto => "auto",
            AckMode::Client => "client",
            AckMode::ClientIndividual => "client-individual",
        }
    }
}

/// Every mode has one of the three tokens, and no two modes share one: the
/// mapping from modes to tokens is total and one to one.
pub proof fn lemma_ack_mode_text_one_to_one(a: AckMode, b: AckMode)
    ensures
        ack_mode_text(a) == "auto"@ || ack_mode_text(a) == "client"@ || ack_mode_text(a)
            == "client-individual"@,
        ack_mode_text(a) == ack_mode_text(b) <==> a == b,
{
    reveal_strlit("auto");
    reveal_strlit("client");
    reveal_strlit("client-individual");
    if ack_mode_text(a) == ack_mode_text(b) {
        assert(ack_mode_text(a).len() == ack_mode_text(b).len());
    }
}

/// What a handler decides about one received message: accept it or reject it.
#[derive(Clone, Copy, Debug, PartialEq, Eq, Structural)]
pub enum AckOrNack {
    Ack,
    Nack,
}

} // verus!
