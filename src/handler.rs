use vstd::prelude::*;
use std::sync::mpsc::Sender;

use crate::ack::AckOrNack;
use crate::frame::{Frame, FrameView};

verus! {

/// The sending end of a std channel, carried through as an opaque value.
#[verifier::external_type_specification]
#[verifier::external_body]
#[verifier::reject_recursive_types(T)]
pub struct ExSender<T>(Sender<T>);

/// The capability of processing one received frame and deciding whether to
/// acknowledge it.
///
/// A handler may keep state of its own, so its behaviour is described as a
/// relation between the state before a frame, the frame, the decision and
/// the state after it.
pub trait MessageHandler: Sized {
    /// Whether this handler, in its present state, may be given `frame`.
    /// Unless a handler says otherwise, any frame.
    open spec fn accepts(&self, frame: Frame) -> bool {
        true
    }

    /// Whether, given `frame`, this handler may decide `decision` and end up
    /// as `next`. Unless a handler says otherwise, it may do anything.
    open spec fn handles(&self, frame: Frame, decision: AckOrNack, next: Self) -> bool {
        true
    }

    fn on_message(&mut self, frame: &Frame) -> (decision: AckOrNack)
        requires
            old(self).accepts(*frame),
        ensures
            old(self).handles(*frame, decision, *final(self)),
    ;
}

/// A boxed handler behaves as the handler inside it.
impl<H: MessageHandler> MessageHandler for Box<H> {
    open spec fn accepts(&self, frame: Frame) -> bool {
        (**self).accepts(frame)
    }

    open spec fn handles(&self, frame: Frame, decision: AckOrNack, next: Self) -> bool {
        (**self).handles(frame, decision, *next)
    }

    fn on_message(&mut self, frame: &Frame) -> (decision: AckOrNack) {
        (**self).on_message(frame)
    }
}

/// A handler made of a function value: each frame is passed to the function,
/// and its result is the decision.
pub struct FnMessageHandler<F> {
    pub callback: F,
}

impl<F: Fn(&Frame) -> AckOrNack> FnMessageHandler<F> {
    pub fn new(callback: F) -> (r: Self)
        ensures
            r.callback == callback,
    {
        FnMessageHandler { callback }
    }
}

impl<F: Fn(&Frame) -> AckOrNack> MessageHandler for FnMessageHandler<F> {
    open spec fn accepts(&self, frame: Frame) -> bool {
        call_requires(self.callback, (&frame,))
    }

    open spec fn handles(&self, frame: Frame, decision: AckOrNack, next: Self) -> bool {
        &&& next == *self
        &&& call_ensures(self.callback, (&frame,), decision)
    }

    fn on_message(&mut self, frame: &Frame) -> (decision: AckOrNack) {
        (self.callback)(frame)
    }
}

/// Relies on `std::sync::mpsc::Sender::send`: it hands `frame` to the channel
/// and fails only when the receiving end has been dropped. Whether it fails
/// depends on the receiver, so nothing is stated of the result.
#[verifier::external_body]
fn send_frame(sender: &Sender<Frame>, frame: Frame) -> (delivered: bool) {
    sender.send(frame).is_ok()
}

/// The decision for a frame that was (or was not) handed to a channel.
pub fn ack_for_delivery(delivered: bool) -> (decision: AckOrNack)
    ensures
        decision == (if delivered {
            AckOrNack::Ack
        } else {
            AckOrNack::Nack
        }),
{
    if delivered {
        AckOrNack::Ack
    } else {
        AckOrNack::Nack
    }
}

/// A handler that forwards a copy of each frame over a channel, so that
/// another thread can consume the frames.
pub struct SenderMessageHandler {
    sender: Sender<Frame>,
    /// The frames that the channel took from this handler, in order.
    delivered: Ghost<Seq<FrameView>>,
}

impl SenderMessageHandler {
    /// The sending end this handler forwards to.
    pub closed spec fn channel(&self) -> Sender<Frame> {
        self.sender
    }

    /// The frames that the channel took from this handler, in order.
    pub closed spec fn delivered(&self) -> Seq<FrameView> {
        self.delivered@
    }
}

impl MessageHandler for SenderMessageHandler {
    open spec fn accepts(&self, frame: Frame) -> bool {
        true
    }

    /// The channel is kept. A frame is acknowledged exactly when a copy of
    /// it was handed to the channel, and rejected when the channel refused it.
    open spec fn handles(&self, frame: Frame, decision: AckOrNack, next: Self) -> bool {
        &&& next.channel() == self.channel()
        &&& next.delivered() == (if decision == AckOrNack::Ack {
            self.delivered().push(frame@)
        } else {
            self.delivered()
        })
    }

    fn on_message(&mut self, frame: &Frame) -> (decision: AckOrNack) {
        let copy = frame.clone();
        let delivered = send_frame(&self.sender, copy);
        if delivered {
            self.delivered = Ghost(self.delivered@.push(frame@));
        }
        ack_for_delivery(delivered)
    }
}

/// Conversion of a caller-supplied value into a handler.
pub trait ToMessageHandler: Sized {
    type Handler: MessageHandler;

    /// Whether `handler` is what this value becomes.
    spec fn adapted(&self, handler: Self::Handler) -> bool;

    fn to_message_handler(self) -> (handler: Self::Handler)
        ensures
            self.adapted(handler),
    ;
}

/// A handler is already in uniform form: it is kept as it is.
impl<T: MessageHandler> ToMessageHandler for T {
    type Handler = T;

    open spec fn adapted(&self, handler: T) -> bool {
        handler == *self
    }

    fn to_message_handler(self) -> (handler: T) {
        self
    }
}

/// The sending end of a channel becomes a handler that forwards to it.
impl ToMessageHandler for Sender<Frame> {
    type Handler = SenderMessageHandler;

    open spec fn adapted(&self, handler: SenderMessageHandler) -> bool {
        &&& handler.channel() == *self
        &&& handler.delivered() == Seq::<FrameView>::empty()
    }

    fn to_message_handler(self) -> (handler: SenderMessageHandler) {
        SenderMessageHandler { sender: self, delivered: Ghost(Seq::empty()) }
    }
}

/// Adapting a value that is already a handler and then giving it a frame
/// behaves as giving the frame to the value itself: the same frames are
/// allowed, and the same decisions and next states come out.
pub proof fn lemma_adapt_direct<H: MessageHandler>(
    value: H,
    handler: H,
    frame: Frame,
    decision: AckOrNack,
    next: H,
)
    requires
        value.adapted(handler),
    ensures
        handler.accepts(frame) == value.accepts(frame),
        handler.handles(frame, decision, next) == value.handles(frame, decision, next),
{
}

/// Adapting a handler a second time changes nothing: twice is once.
pub proof fn lemma_adapt_idempotent<T: ToMessageHandler>(
    value: T,
    once: T::Handler,
    twice: T::Handler,
)
    requires
        value.adapted(once),
        once.adapted(twice),
    ensures
        twice == once,
{
}

/// A handler made of a function that always answers `fixed` decides `fixed`
/// for every frame.
pub proof fn lemma_fixed_callback<F: Fn(&Frame) -> AckOrNack>(
    handler: FnMessageHandler<F>,
    fixed: AckOrNack,
    frame: Frame,
    decision: AckOrNack,
    next: FnMessageHandler<F>,
)
    requires
        forall|f: &Frame, d: AckOrNack| call_ensures(handler.callback, (f,), d) ==> d == fixed,
        handler.handles(frame, decision, next),
    ensures
        decision == fixed,
        next == handler,
{
}

/// The frames of `frames` whose decision in `decisions` is an
/// acknowledgment, in order.
pub open spec fn acknowledged(frames: Seq<Frame>, decisions: Seq<AckOrNack>) -> Seq<FrameView>
    decreases frames.len(),
{
    if frames.len() == 0 {
        Seq::empty()
    } else {
        let rest = acknowledged(frames.drop_last(), decisions.take(frames.len() - 1));
        if decisions[frames.len() - 1] == AckOrNack::Ack {
            rest.push(frames.last()@)
        } else {
            rest
        }
    }
}

/// Whether `states` is a run of a channel handler over `frames`: the handler
/// starts as `states[0]`, and the `i`-th frame takes it from `states[i]` to
/// `states[i + 1]` with the decision `decisions[i]`.
pub open spec fn is_channel_run(
    states: Seq<SenderMessageHandler>,
    frames: Seq<Frame>,
    decisions: Seq<AckOrNack>,
) -> bool {
    &&& states.len() == frames.len() + 1
    &&& decisions.len() == frames.len()
    &&& forall|i: int|
        0 <= i < frames.len() ==> #[trigger] states[i].handles(frames[i], decisions[i], states[i + 1])
}

/// Over a run of a channel handler, the channel stays the same, and the
/// channel takes exactly the acknowledged frames, in the order they came;
/// when every frame is acknowledged, it takes all of them, in order.
pub proof fn lemma_channel_run(
    states: Seq<SenderMessageHandler>,
    frames: Seq<Frame>,
    decisions: Seq<AckOrNack>,
)
    requires
        is_channel_run(states, frames, decisions),
    ensures
        states.last().channel() == states[0].channel(),
        states.last().delivered() == states[0].delivered() + acknowledged(frames, decisions),
        (forall|i: int| 0 <= i < decisions.len() ==> decisions[i] == AckOrNack::Ack) ==> states.last().delivered()
            == states[0].delivered() + frames.map_values(|f: Frame| f@),
    decreases frames.len(),
{
    if frames.len() > 0 {
        let n = frames.len() - 1;
        let s = states.take(n + 1);
        let fs = frames.drop_last();
        let ds = decisions.take(n);
        assert forall|i: int| 0 <= i < fs.len() implies #[trigger] s[i].handles(fs[i], ds[i], s[i + 1]) by {
            assert(states[i].handles(frames[i], decisions[i], states[i + 1]));
        }
        lemma_channel_run(s, fs, ds);
        assert(states[n].handles(frames[n], decisions[n], states[n + 1]));
        assert(s.last() == states[n]);
        if decisions[n] == AckOrNack::Ack {
            assert(states.last().delivered() =~= states[0].delivered() + acknowledged(frames, decisions));
        } else {
            assert(states.last().delivered() =~= states[0].delivered() + acknowledged(frames, decisions));
        }
        if forall|i: int| 0 <= i < decisions.len() ==> decisions[i] == AckOrNack::Ack {
            assert forall|i: int| 0 <= i < ds.len() implies ds[i] == AckOrNack::Ack by {
                assert(decisions[i] == AckOrNack::Ack);
            }
            assert(frames.map_values(|f: Frame| f@) =~= fs.map_values(|f: Frame| f@).push(frames[n]@));
            assert(states.last().delivered() =~= states[0].delivered() + frames.map_values(|f: Frame| f@));
        }
    } else {
        assert(states.last().delivered() =~= states[0].delivered() + acknowledged(frames, decisions));
        assert(states.last().delivered() =~= states[0].delivered() + frames.map_values(|f: Frame| f@));
    }
}

} // verus!
