//! The ingest worker's decisions.
//!
//! The worker owns a UDP socket and a receive buffer. It waits for one
//! datagram at a time, with a timeout, and hands what happened to
//! [`ingest_step`], which says what to do about it. Only a validated,
//! non-empty tile ever leads to the display; everything else leaves it alone
//! and lets the worker go on.

use crate::datagram::{
    decode, decode_spec, le16_at, lemma_pixels_exact, lemma_zero_area_accepted, BlitView,
    DecodeError, ImageBlit, HEADER_LEN, MARKER,
};
use vstd::prelude::*;

verus! {

/// The UDP port that the worker listens on, on all interfaces.
pub const LISTEN_PORT: u16 = 4000;

/// How long one receive waits before it gives up, in milliseconds.
pub const RECV_TIMEOUT_MS: u64 = 100;

/// The size of the receive buffer: the longest datagram that is taken whole.
pub const MAX_DATAGRAM_LEN: usize = 1200;

/// How one attempt to receive ended.
#[derive(Clone, Copy, Debug)]
pub enum RecvEvent<'a> {
    /// A datagram arrived; these are its bytes.
    Datagram(&'a [u8]),
    /// The timeout passed and nothing arrived.
    TimedOut,
    /// The socket reported another error.
    Failed,
}

/// What the worker does before it receives again.
#[derive(Clone, Copy, Debug)]
pub enum IngestAction<'a> {
    /// Take the display, push this tile with one call, and release it.
    Blit(ImageBlit<'a>),
    /// Nothing to draw and nothing wrong.
    Idle,
    /// The datagram was rejected for this reason: forget it.
    Drop(DecodeError),
    /// The socket failed: log it, keep the socket.
    Report,
}

/// A [`RecvEvent`] with the datagram taken by its contents.
pub enum RecvEventView {
    /// A datagram with these bytes.
    Datagram(Seq<u8>),
    /// Nothing arrived in time.
    TimedOut,
    /// Another socket error.
    Failed,
}

/// An [`IngestAction`] with the tile taken by its view.
pub enum IngestActionView {
    /// Push this tile.
    Blit(BlitView),
    /// Nothing to do.
    Idle,
    /// Forget the datagram.
    Drop(DecodeError),
    /// Log the socket error.
    Report,
}

impl<'a> View for RecvEvent<'a> {
    type V = RecvEventView;

    open spec fn view(&self) -> RecvEventView {
        match *self {
            RecvEvent::Datagram(bytes) => RecvEventView::Datagram(bytes@),
            RecvEvent::TimedOut => RecvEventView::TimedOut,
            RecvEvent::Failed => RecvEventView::Failed,
        }
    }
}

impl<'a> View for IngestAction<'a> {
    type V = IngestActionView;

    open spec fn view(&self) -> IngestActionView {
        match *self {
            IngestAction::Blit(blit) => IngestActionView::Blit(blit@),
            IngestAction::Idle => IngestActionView::Idle,
            IngestAction::Drop(e) => IngestActionView::Drop(e),
            IngestAction::Report => IngestActionView::Report,
        }
    }
}

impl IngestActionView {
    /// Whether carrying out the action calls the display.
    pub open spec fn touches_display(self) -> bool {
        self is Blit
    }
}

/// What is done about the datagram `bytes`.
///
/// An empty read is no datagram at all. A rejected datagram is dropped with
/// the decoder's reason. An accepted tile is pushed, unless it covers no
/// pixel: then there is nothing to draw.
pub open spec fn datagram_action(bytes: Seq<u8>) -> IngestActionView {
    if bytes.len() == 0 {
        IngestActionView::Idle
    } else {
        match decode_spec(bytes) {
            Err(e) => IngestActionView::Drop(e),
            Ok(blit) => if blit.is_empty() {
                IngestActionView::Idle
            } else {
                IngestActionView::Blit(blit)
            },
        }
    }
}

/// What the worker does about `event`.
pub open spec fn ingest_spec(event: RecvEventView) -> IngestActionView {
    match event {
        RecvEventView::Datagram(bytes) => datagram_action(bytes),
        RecvEventView::TimedOut => IngestActionView::Idle,
        RecvEventView::Failed => IngestActionView::Report,
    }
}

/// Decides what the ingest worker does about one receive.
///
/// A timeout and an empty read need nothing. A socket error is to be logged.
/// A datagram is decoded: a rejected one is dropped, an accepted one gives
/// the tile to push. A tile with a zero side is accepted and needs nothing.
/// No outcome stops the worker.
pub fn ingest_step<'a>(event: RecvEvent<'a>) -> (action: IngestAction<'a>)
    ensures
        action@ == ingest_spec(event@),
{
    match event {
        RecvEvent::TimedOut => IngestAction::Idle,
        RecvEvent::Failed => IngestAction::Report,
        RecvEvent::Datagram(bytes) => {
            if bytes.len() == 0 {
                return IngestAction::Idle;
            }
            match decode(bytes) {
                Err(e) => IngestAction::Drop(e),
                Ok(blit) => if blit.is_empty() {
                    IngestAction::Idle
                } else {
                    IngestAction::Blit(blit)
                },
            }
        },
    }
}

/// The display is called for nothing but a datagram that the decoder accepts
/// and whose tile covers at least one pixel; the tile pushed is the decoded
/// one, with pixel data that fills its rectangle exactly. No rejected
/// datagram, timeout or socket error reaches the display.
pub proof fn lemma_display_only_for_valid_tile(event: RecvEventView)
    ensures
        ingest_spec(event).touches_display() <==> (event matches RecvEventView::Datagram(bytes)
            && decode_spec(bytes) matches Ok(blit) && !blit.is_empty()),
        ingest_spec(event) matches IngestActionView::Blit(blit) ==> {
            &&& blit.wf()
            &&& !blit.is_empty()
            &&& event matches RecvEventView::Datagram(bytes) && decode_spec(bytes) == Ok::<
                BlitView,
                DecodeError,
            >(blit)
        },
{
    if let RecvEventView::Datagram(bytes) = event {
        if decode_spec(bytes) is Ok {
            lemma_pixels_exact(bytes);
        }
    }
}

/// A datagram with a well-marked header and a zero width or height is
/// accepted by the decoder, and what is done about it leaves the display
/// untouched.
pub proof fn lemma_zero_area_leaves_display(bytes: Seq<u8>)
    requires
        bytes.len() >= HEADER_LEN,
        le16_at(bytes, 0) == MARKER,
        le16_at(bytes, 6) == 0 || le16_at(bytes, 8) == 0,
    ensures
        decode_spec(bytes) is Ok,
        datagram_action(bytes) == IngestActionView::Idle,
        !datagram_action(bytes).touches_display(),
{
    lemma_zero_area_accepted(bytes);
}

} // verus!
