//! The stream bridge: adapts a backend's push-style frame delivery into a
//! blocking pull interface.
//!
//! A backend delivers frames by invoking a callback on its own thread; the
//! caller wants to block until the next frame exists. The bridge connects the
//! two through a rendezvous handoff with a single in-flight message: the
//! callback offers each converted frame with [`FrameSender::deliver`], and the
//! caller pulls with [`Handle::next`], which caches the delivered frame and
//! hands out a view of its bytes, valid until the next pull. A backend that
//! produces faster than the caller pulls is rate-limited by the rendezvous; a
//! delivery the callback abandons because no consumer was waiting is dropped,
//! never reordered. Once the producer side is gone, every pull reports the end
//! of the stream at once.

use vstd::prelude::*;

use crate::pixel_format::PixelFormat;

verus! {

/// One message through the handoff: a converted frame's bytes, or the signal
/// that the backend could not produce a usable frame.
#[derive(Debug)]
pub enum FrameMessage {
    Frame(Vec<u8>),
    DecodeFailed,
}

/// The outcome of one wait on the handoff: a message was delivered, or the
/// producer side is gone and the handoff is permanently closed.
#[derive(Debug)]
pub enum HandoffEvent {
    Delivered(FrameMessage),
    Closed,
}

/// Declares `std::sync::mpsc::SyncSender`, the producer end of a bounded
/// channel, so that it can stand in fields; its values are opaque here.
#[verifier::external_type_specification]
#[verifier::external_body]
#[verifier::reject_recursive_types(T)]
pub struct ExSyncSender<T>(std::sync::mpsc::SyncSender<T>);

/// Declares `std::sync::mpsc::Receiver`, the consumer end of a channel, so
/// that it can stand in fields; its values are opaque here.
#[verifier::external_type_specification]
#[verifier::external_body]
#[verifier::reject_recursive_types(T)]
pub struct ExReceiver<T>(std::sync::mpsc::Receiver<T>);

/// Relies on `std::sync::mpsc::sync_channel`: with a bound of zero it opens a
/// rendezvous channel, where a send completes only once a receive takes the
/// message.
#[verifier::external_body]
fn open_handoff() -> (ends: (
    std::sync::mpsc::SyncSender<FrameMessage>,
    std::sync::mpsc::Receiver<FrameMessage>,
))
{
    std::sync::mpsc::sync_channel(0)
}

/// Relies on `std::sync::mpsc::SyncSender::send`: it blocks until the message
/// is received, and returns an error — rather than blocking for ever or
/// panicking — once the receiving end has been dropped.
#[verifier::external_body]
fn send_frame(tx: &std::sync::mpsc::SyncSender<FrameMessage>, msg: FrameMessage) -> (delivered:
    bool)
{
    tx.send(msg).is_ok()
}

/// Relies on `std::sync::mpsc::Receiver::recv`: it blocks until a message is
/// sent, hands messages out in the order they were sent, and returns an error
/// once the sending end has been dropped and no message is pending.
#[verifier::external_body]
fn recv_event(rx: &std::sync::mpsc::Receiver<FrameMessage>) -> (ev: HandoffEvent)
{
    match rx.recv() {
        Ok(msg) => HandoffEvent::Delivered(msg),
        Err(_) => HandoffEvent::Closed,
    }
}

/// The producer end of the handoff, captured by the backend's delivery
/// callback.
pub struct FrameSender {
    tx: std::sync::mpsc::SyncSender<FrameMessage>,
}

impl FrameSender {
    /// Offer one message to the consumer: block until a pull takes it, or
    /// report `false` at once when the consumer side is gone. During
    /// shutdown the send is simply abandoned — it never blocks for ever and
    /// never panics — so the frame is dropped rather than delivered late.
    pub fn deliver(&self, msg: FrameMessage) -> (delivered: bool) {
        send_frame(&self.tx, msg)
    }
}

/// The pull side of the stream bridge: owns the consumer end of the handoff,
/// the negotiated portable format, and the single cached frame whose bytes
/// the caller reads between pulls.
pub struct Handle {
    pixel_format: PixelFormat,
    rx: std::sync::mpsc::Receiver<FrameMessage>,
    last_frame: Option<Vec<u8>>,
}

impl Handle {
    /// The portable format the stream's frames were negotiated to carry.
    pub closed spec fn fmt(&self) -> PixelFormat {
        self.pixel_format
    }

    /// The bytes of the cached frame, if one has been pulled.
    pub closed spec fn cached(&self) -> Option<Seq<u8>> {
        match self.last_frame {
            Some(v) => Some(v@),
            None => None,
        }
    }

    /// Open the bridge for a stream whose format is already negotiated: a
    /// pull handle with an empty cache, and the producer end its backend's
    /// delivery callback will feed.
    pub fn new(pixel_format: PixelFormat) -> (r: (Handle, FrameSender))
        ensures
            r.0.fmt() == pixel_format,
            r.0.cached() is None,
    {
        let (tx, rx) = open_handoff();
        (Handle { pixel_format, rx, last_frame: None }, FrameSender { tx })
    }

    /// The negotiated portable format of this stream.
    pub fn stream_format(&self) -> (r: &PixelFormat)
        ensures
            *r == self.fmt(),
    {
        &self.pixel_format
    }

    /// The bytes of the most recently pulled frame, if any.
    pub fn frame(&self) -> (r: Option<&Vec<u8>>)
        ensures
            match r {
                Some(v) => self.cached() == Some(v@),
                None => self.cached() is None,
            },
    {
        match &self.last_frame {
            Some(v) => Some(v),
            None => None,
        }
    }

    /// Apply one handoff outcome to the bridge: a delivered frame replaces
    /// the cached one and is reported; a decode failure or a closed handoff
    /// reports the end of the stream and leaves the cache alone.
    pub fn apply_event(&mut self, ev: HandoffEvent) -> (got: bool)
        ensures
            final(self).fmt() == old(self).fmt(),
            match ev {
                HandoffEvent::Delivered(FrameMessage::Frame(b)) => got && final(self).cached()
                    == Some(b@),
                HandoffEvent::Delivered(FrameMessage::DecodeFailed) => !got && final(self).cached()
                    == old(self).cached(),
                HandoffEvent::Closed => !got && final(self).cached() == old(self).cached(),
            },
    {
        match ev {
            HandoffEvent::Delivered(FrameMessage::Frame(bytes)) => {
                self.last_frame = Some(bytes);
                true
            },
            HandoffEvent::Delivered(FrameMessage::DecodeFailed) => false,
            HandoffEvent::Closed => false,
        }
    }

    /// Pull the next frame: block until the backend delivers, then either
    /// cache the new frame — replacing the previous one — and return a view
    /// of its bytes, or return `None` once the stream is over, because the
    /// handoff closed or the backend could not decode a frame.
    ///
    /// The returned view borrows from the bridge, so it can be read only
    /// until the next pull or the bridge's destruction.
    pub fn next(&mut self) -> (r: Option<&Vec<u8>>)
        ensures
            final(self).fmt() == old(self).fmt(),
            match r {
                Some(bytes) => final(self).cached() == Some(bytes@),
                None => final(self).cached() == old(self).cached(),
            },
    {
        let ev = recv_event(&self.rx);
        if self.apply_event(ev) {
            self.frame()
        } else {
            None
        }
    }
}

} // verus!
