//! The host's side of a connection to the worker.
//!
//! [`IpcClient`] holds what the reader, the writer and the callers of a
//! connection share: the frames that wait to be written, the replies that
//! wait to be claimed, and whether the connection still stands. A caller
//! submits a request, gets its identifier, and polls for the reply under
//! that identifier; a reply is handed to nobody else.

use vstd::prelude::*;
use crate::framing::{
    after_whole_frames, encode_frame, frame_of, payloads_of, whole_frames, FrameBuffer,
    MAX_FRAME_LEN,
};
use crate::ipc::{
    following_id, generate_request_id, IpcError, IpcMessage, IpcRequest, IpcResponse,
    RequestIdCounter, RequestView, ResponseView,
};
use crate::keyed::{is_open, lemma_position_found, lemma_position_of, position_of};
use crate::server::ReadOutcome;
use crate::wire::{deserialize_response, request_text, serialize_request, text_reply};

verus! {

/// How long a caller waits for a reply, in milliseconds.
pub const REQUEST_TIMEOUT_MS: u64 = 10000;

/// How long a read or a write on the socket may take, in milliseconds.
pub const IO_TIMEOUT_MS: u64 = 5000;

/// How long a caller sleeps between two polls, in milliseconds.
pub const POLL_INTERVAL_MS: u64 = 10;

/// What a caller that waits for a reply has to do next.
#[derive(Debug, PartialEq)]
pub enum PollStep {
    /// The reply has come.
    Ready(IpcResponse),
    /// Sleep for [`POLL_INTERVAL_MS`] and poll again.
    Wait,
    /// Give up, for this reason.
    Failed(IpcError),
}

/// The state of one connection to the worker.
pub struct IpcClient {
    ids: RequestIdCounter,
    outbound: Vec<Vec<u8>>,
    inbound: Vec<(u64, IpcResponse)>,
    buffer: FrameBuffer,
    connected: bool,
}

/// The frame that carries a request message: what the host writes to the
/// connection. There is none where the message has no JSON text or the text
/// is too long for a frame.
pub open spec fn request_frame(request_id: u64, request: RequestView) -> Option<Seq<u8>> {
    match request_text(request_id, request) {
        Some(text) => if text.len() <= MAX_FRAME_LEN {
            Some(frame_of(text))
        } else {
            None
        },
        None => None,
    }
}

/// The replies that a run of whole frames gives, up to the first frame
/// that is no reply.
pub open spec fn frame_replies(frames: Seq<Seq<u8>>) -> Seq<(u64, ResponseView)>
    decreases frames.len(),
{
    if frames.len() == 0 {
        Seq::empty()
    } else {
        match text_reply(frames[0]) {
            Some(message) => seq![(message.request_id, message.payload)] + frame_replies(
                frames.drop_first(),
            ),
            None => Seq::empty(),
        }
    }
}

/// Whether every frame is a reply.
pub open spec fn replies_readable(frames: Seq<Seq<u8>>) -> bool {
    forall|i: int| 0 <= i < frames.len() ==> text_reply(#[trigger] frames[i]).is_some()
}

/// Whether the connection can go on with the buffered bytes `bytes`: all
/// whole frames are replies.
pub open spec fn replies_follow(bytes: Seq<u8>) -> bool {
    replies_readable(whole_frames(bytes))
}

/// The contents of a list of replies.
pub open spec fn replies_view(replies: Seq<(u64, IpcResponse)>) -> Seq<(u64, ResponseView)> {
    Seq::new(replies.len(), |i: int| (replies[i].0, replies[i].1@))
}

/// Reads the replies from a run of whole frames. The second result tells
/// whether every frame was a reply; the replies stop at the first one that
/// was not.
pub fn read_replies(frames: &Vec<Vec<u8>>) -> (r: (Vec<(u64, IpcResponse)>, bool))
    ensures
        replies_view(r.0@) == frame_replies(payloads_of(frames@)),
        r.1 == replies_readable(payloads_of(frames@)),
{
    let ghost all = payloads_of(frames@);
    let mut replies: Vec<(u64, IpcResponse)> = Vec::new();
    let mut i: usize = 0;
    assert(all.skip(0) =~= all);
    assert(replies_view(replies@) =~= Seq::<(u64, ResponseView)>::empty());
    while i < frames.len()
        invariant
            i <= frames@.len(),
            all == payloads_of(frames@),
            frame_replies(all) == replies_view(replies@) + frame_replies(all.skip(i as int)),
            forall|k: int| 0 <= k < i ==> text_reply(#[trigger] all[k]).is_some(),
        decreases frames@.len() - i,
    {
        let ghost before = replies_view(replies@);
        let ghost rest = all.skip(i as int);
        assert(rest[0] == all[i as int]);
        assert(rest.drop_first() =~= all.skip(i + 1));
        match deserialize_response(frames[i].as_slice()) {
            Ok(reply) => {
                replies.push(reply);
                assert(replies_view(replies@) =~= before + seq![(reply.0, reply.1@)]);
                assert(before + frame_replies(rest) =~= replies_view(replies@) + frame_replies(
                    all.skip(i + 1),
                ));
            },
            Err(_) => {
                assert(before + Seq::<(u64, ResponseView)>::empty() =~= before);
                return (replies, false);
            },
        }
        i = i + 1;
    }
    assert(all.skip(i as int).len() == 0);
    assert(replies_view(replies@) + Seq::<(u64, ResponseView)>::empty() =~= replies_view(
        replies@,
    ));
    (replies, true)
}

impl IpcClient {
    /// The replies that have arrived and were not claimed yet, oldest first.
    pub closed spec fn waiting(&self) -> Seq<(u64, ResponseView)> {
        replies_view(self.inbound@)
    }

    /// The frames that wait to be written, oldest first.
    pub closed spec fn outbound(&self) -> Seq<Seq<u8>> {
        payloads_of(self.outbound@)
    }

    /// The bytes that were read and are not yet a whole frame.
    pub closed spec fn buffered(&self) -> Seq<u8> {
        self.buffer@
    }

    /// Whether the connection stands.
    pub closed spec fn connected(&self) -> bool {
        self.connected
    }

    /// The identifier that the next request gets.
    pub closed spec fn upcoming_id(&self) -> u64 {
        self.ids.upcoming()
    }

    /// The state of a connection that was just made: nothing waits, and the
    /// first request gets the identifier 1.
    pub fn new() -> (client: Self)
        ensures
            client.waiting() == Seq::<(u64, ResponseView)>::empty(),
            client.outbound() == Seq::<Seq<u8>>::empty(),
            client.buffered() == Seq::<u8>::empty(),
            client.connected(),
            client.upcoming_id() == 1,
    {
        let client = IpcClient {
            ids: RequestIdCounter::new(),
            outbound: Vec::new(),
            inbound: Vec::new(),
            buffer: FrameBuffer::new(),
            connected: true,
        };
        assert(client.waiting() =~= Seq::<(u64, ResponseView)>::empty());
        assert(client.outbound() =~= Seq::<Seq<u8>>::empty());
        client
    }

    /// Whether the connection stands.
    pub fn is_connected(&self) -> (connected: bool)
        ensures
            connected == self.connected(),
    {
        self.connected
    }

    /// Gives a request a new identifier and queues its frame for the
    /// writer. The identifier is drawn in any case. Fails with
    /// `ConnectionReset` where the connection is gone, and with
    /// `InvalidData` where the request could not be written as JSON or is
    /// too long for a frame; nothing is queued then.
    pub fn submit(&mut self, request: IpcRequest) -> (r: Result<u64, IpcError>)
        ensures
            final(self).upcoming_id() == following_id(old(self).upcoming_id()),
            final(self).waiting() == old(self).waiting(),
            final(self).buffered() == old(self).buffered(),
            final(self).connected() == old(self).connected(),
            match r {
                Ok(id) => {
                    &&& old(self).connected()
                    &&& id == old(self).upcoming_id()
                    &&& request_frame(id, request@) matches Some(frame) && final(self).outbound() == old(self).outbound().push(frame)
                },
                Err(e) => {
                    &&& final(self).outbound() == old(self).outbound()
                    &&& e == if old(self).connected() {
                        IpcError::InvalidData
                    } else {
                        IpcError::ConnectionReset
                    }
                    &&& old(self).connected() ==> request_frame(
                        old(self).upcoming_id(),
                        request@,
                    ).is_none()
                },
            },
    {
        let request_id = generate_request_id(&mut self.ids);
        if !self.connected {
            return Err(IpcError::ConnectionReset);
        }
        let message = IpcMessage { request_id, payload: request };
        let text = match serialize_request(&message) {
            Ok(text) => text,
            Err(e) => {
                return Err(e);
            },
        };
        match encode_frame(text.as_slice()) {
            Some(frame) => {
                let ghost before = self.outbound();
                self.outbound.push(frame);
                assert(self.outbound() =~= before.push(frame@));
                Ok(request_id)
            },
            None => Err(IpcError::InvalidData),
        }
    }

    /// Queues a request without waiting for a reply: the caller never
    /// learns how it went in the worker.
    pub fn send_request_async(&mut self, request: IpcRequest) -> (r: Result<(), IpcError>)
        ensures
            final(self).upcoming_id() == following_id(old(self).upcoming_id()),
            final(self).waiting() == old(self).waiting(),
            final(self).buffered() == old(self).buffered(),
            final(self).connected() == old(self).connected(),
            match r {
                Ok(_) => {
                    &&& old(self).connected()
                    &&& request_frame(old(self).upcoming_id(), request@) matches Some(frame)
                        && final(self).outbound() == old(self).outbound().push(frame)
                },
                Err(e) => {
                    &&& final(self).outbound() == old(self).outbound()
                    &&& e == if old(self).connected() {
                        IpcError::InvalidData
                    } else {
                        IpcError::ConnectionReset
                    }
                    &&& old(self).connected() ==> request_frame(
                        old(self).upcoming_id(),
                        request@,
                    ).is_none()
                },
            },
    {
        match self.submit(request) {
            Ok(_) => Ok(()),
            Err(e) => Err(e),
        }
    }

    /// Takes the oldest frame that waits to be written: frames leave in the
    /// order in which their requests were submitted.
    pub fn next_outbound(&mut self) -> (frame: Option<Vec<u8>>)
        ensures
            final(self).upcoming_id() == old(self).upcoming_id(),
            final(self).waiting() == old(self).waiting(),
            final(self).buffered() == old(self).buffered(),
            final(self).connected() == old(self).connected(),
            match frame {
                Some(bytes) => old(self).outbound().len() > 0 && bytes@ == old(self).outbound()[0]
                    && final(self).outbound() == old(self).outbound().drop_first(),
                None => old(self).outbound().len() == 0 && final(self).outbound() == old(
                    self,
                ).outbound(),
            },
    {
        if self.outbound.len() == 0 {
            return None;
        }
        let ghost before = self.outbound();
        let frame = self.outbound.remove(0);
        assert(self.outbound() =~= before.drop_first());
        Some(frame)
    }

    /// Marks the connection as gone, after a write failed.
    pub fn disconnect(&mut self)
        ensures
            !final(self).connected(),
            final(self).upcoming_id() == old(self).upcoming_id(),
            final(self).waiting() == old(self).waiting(),
            final(self).buffered() == old(self).buffered(),
            final(self).outbound() == old(self).outbound(),
    {
        self.connected = false;
    }

    /// Takes what a read on the socket gave. New bytes join the buffered
    /// ones; every whole frame that is a reply joins the replies that wait.
    /// The connection is gone at the end of the stream, on a failed read
    /// and on a frame that is no reply.
    pub fn receive(&mut self, outcome: ReadOutcome)
        ensures
            final(self).upcoming_id() == old(self).upcoming_id(),
            final(self).outbound() == old(self).outbound(),
            match outcome {
                ReadOutcome::WouldBlock => {
                    &&& final(self).waiting() == old(self).waiting()
                    &&& final(self).buffered() == old(self).buffered()
                    &&& final(self).connected() == old(self).connected()
                },
                ReadOutcome::EndOfStream | ReadOutcome::Failed => {
                    &&& final(self).waiting() == old(self).waiting()
                    &&& final(self).buffered() == old(self).buffered()
                    &&& !final(self).connected()
                },
                ReadOutcome::Data(bytes) => {
                    &&& final(self).waiting() == old(self).waiting() + frame_replies(
                        whole_frames(old(self).buffered() + bytes@),
                    )
                    &&& final(self).buffered() == after_whole_frames(
                        old(self).buffered() + bytes@,
                    )
                    &&& final(self).connected() == (old(self).connected() && replies_follow(
                        old(self).buffered() + bytes@,
                    ))
                },
            },
    {
        match outcome {
            ReadOutcome::WouldBlock => {},
            ReadOutcome::EndOfStream => {
                self.connected = false;
            },
            ReadOutcome::Failed => {
                self.connected = false;
            },
            ReadOutcome::Data(bytes) => {
                self.buffer.push(bytes.as_slice());
                let frames = self.buffer.drain();
                let (mut replies, readable) = read_replies(&frames);
                let ghost before = self.waiting();
                let ghost added = replies_view(replies@);
                self.inbound.append(&mut replies);
                assert(self.waiting() =~= before + added);
                if !readable {
                    self.connected = false;
                }
            },
        }
    }
}

/// What a poll for the reply to `request_id` gives, and which replies go on
/// waiting, when `waiting` replies wait, the connection stands or not, and
/// `elapsed_ms` milliseconds have passed since the request was submitted.
///
/// The oldest reply under `request_id` is handed out and leaves the list.
/// Without one, the caller gives up where the connection is gone or the
/// time is over, and waits otherwise.
pub open spec fn poll_outcome(
    waiting: Seq<(u64, ResponseView)>,
    connected: bool,
    request_id: u64,
    elapsed_ms: u64,
) -> (PollStepView, Seq<(u64, ResponseView)>) {
    if is_open(waiting, request_id) {
        (
            PollStepView::Ready(waiting[position_of(waiting, request_id)].1),
            waiting.remove(position_of(waiting, request_id)),
        )
    } else if !connected {
        (PollStepView::Failed(IpcError::ConnectionReset), waiting)
    } else if elapsed_ms > REQUEST_TIMEOUT_MS {
        (PollStepView::Failed(IpcError::TimedOut), waiting)
    } else {
        (PollStepView::Wait, waiting)
    }
}

/// The mathematical content of a [`PollStep`].
pub enum PollStepView {
    Ready(ResponseView),
    Wait,
    Failed(IpcError),
}

impl View for PollStep {
    type V = PollStepView;

    open spec fn view(&self) -> PollStepView {
        match self {
            PollStep::Ready(response) => PollStepView::Ready(response@),
            PollStep::Wait => PollStepView::Wait,
            PollStep::Failed(e) => PollStepView::Failed(*e),
        }
    }
}

impl IpcClient {
    fn find(&self, request_id: u64) -> (at: usize)
        ensures
            at == position_of(self.waiting(), request_id),
            at <= self.inbound@.len(),
            self.inbound@.len() == self.waiting().len(),
    {
        let mut at: usize = 0;
        while at < self.inbound.len()
            invariant
                at <= self.inbound@.len(),
                self.inbound@.len() == self.waiting().len(),
                forall|i: int| 0 <= i < at ==> (#[trigger] self.waiting()[i]).0 != request_id,
            decreases self.inbound@.len() - at,
        {
            if self.inbound[at].0 == request_id {
                proof {
                    assert(self.waiting()[at as int].0 == request_id);
                    lemma_position_found(self.waiting(), request_id, at as int);
                }
                return at;
            }
            assert(self.waiting()[at as int].0 != request_id);
            at = at + 1;
        }
        proof {
            lemma_position_found(self.waiting(), request_id, at as int);
        }
        at
    }

    /// Takes the oldest reply under `request_id` out of the replies that
    /// wait. Every other reply stays where it is.
    pub fn claim(&mut self, request_id: u64) -> (reply: Option<IpcResponse>)
        ensures
            final(self).upcoming_id() == old(self).upcoming_id(),
            final(self).outbound() == old(self).outbound(),
            final(self).buffered() == old(self).buffered(),
            final(self).connected() == old(self).connected(),
            match reply {
                Some(response) => {
                    &&& is_open(old(self).waiting(), request_id)
                    &&& response@ == old(self).waiting()[position_of(
                        old(self).waiting(),
                        request_id,
                    )].1
                    &&& final(self).waiting() == old(self).waiting().remove(
                        position_of(old(self).waiting(), request_id),
                    )
                },
                None => {
                    &&& !is_open(old(self).waiting(), request_id)
                    &&& final(self).waiting() == old(self).waiting()
                },
            },
    {
        let at = self.find(request_id);
        if at < self.inbound.len() {
            let ghost before = self.waiting();
            let entry = self.inbound.remove(at);
            assert(self.waiting() =~= before.remove(at as int));
            assert(before[at as int].1 == entry.1@);
            Some(entry.1)
        } else {
            None
        }
    }

    /// One poll of a caller that waits for the reply to `request_id`, after
    /// `elapsed_ms` milliseconds of waiting.
    pub fn poll_response(&mut self, request_id: u64, elapsed_ms: u64) -> (step: PollStep)
        ensures
            final(self).upcoming_id() == old(self).upcoming_id(),
            final(self).outbound() == old(self).outbound(),
            final(self).buffered() == old(self).buffered(),
            final(self).connected() == old(self).connected(),
            step@ == poll_outcome(
                old(self).waiting(),
                old(self).connected(),
                request_id,
                elapsed_ms,
            ).0,
            final(self).waiting() == poll_outcome(
                old(self).waiting(),
                old(self).connected(),
                request_id,
                elapsed_ms,
            ).1,
    {
        match self.claim(request_id) {
            Some(response) => PollStep::Ready(response),
            None => {
                if !self.connected {
                    PollStep::Failed(IpcError::ConnectionReset)
                } else if elapsed_ms > REQUEST_TIMEOUT_MS {
                    PollStep::Failed(IpcError::TimedOut)
                } else {
                    PollStep::Wait
                }
            },
        }
    }

    /// Takes the oldest event out of the replies that wait: the oldest
    /// message under the identifier 0. Replies to requests stay for their
    /// callers.
    pub fn try_recv_event(&mut self) -> (event: Option<(u64, IpcResponse)>)
        ensures
            final(self).upcoming_id() == old(self).upcoming_id(),
            final(self).outbound() == old(self).outbound(),
            final(self).buffered() == old(self).buffered(),
            final(self).connected() == old(self).connected(),
            match event {
                Some(message) => {
                    &&& message.0 == 0
                    &&& is_open(old(self).waiting(), 0)
                    &&& message.1@ == old(self).waiting()[position_of(old(self).waiting(), 0)].1
                    &&& final(self).waiting() == old(self).waiting().remove(
                        position_of(old(self).waiting(), 0),
                    )
                },
                None => {
                    &&& !is_open(old(self).waiting(), 0)
                    &&& final(self).waiting() == old(self).waiting()
                },
            },
    {
        match self.claim(0) {
            Some(response) => Some((0, response)),
            None => None,
        }
    }
}

/// A reply goes to the caller that waits for it and to nobody else. Whatever
/// a poll for `request_id` does: a reply that it hands out was waiting under
/// `request_id`, and every reply under another identifier waits on, as
/// often as before and in the same order.
pub proof fn lemma_reply_goes_to_its_caller(
    waiting: Seq<(u64, ResponseView)>,
    connected: bool,
    request_id: u64,
    elapsed_ms: u64,
    other: u64,
)
    requires
        other != request_id,
    ensures
        poll_outcome(waiting, connected, request_id, elapsed_ms).0 matches PollStepView::Ready(
            response,
        ) ==> waiting.contains((request_id, response)),
        poll_outcome(waiting, connected, request_id, elapsed_ms).1.filter(
            |entry: (u64, ResponseView)| entry.0 == other,
        ) == waiting.filter(|entry: (u64, ResponseView)| entry.0 == other),
{
    lemma_position_of(waiting, request_id);
    let at = position_of(waiting, request_id);
    if is_open(waiting, request_id) {
        assert(waiting[at] == (request_id, waiting[at].1));
        let keep = |entry: (u64, ResponseView)| entry.0 == other;
        let head = waiting.take(at);
        let tail = waiting.skip(at + 1);
        assert(waiting =~= head + seq![waiting[at]] + tail);
        assert(waiting.remove(at) =~= head + tail);
        Seq::filter_distributes_over_add(head + seq![waiting[at]], tail, keep);
        Seq::filter_distributes_over_add(head, seq![waiting[at]], keep);
        Seq::filter_distributes_over_add(head, tail, keep);
        assert(seq![waiting[at]].filter(keep) =~= Seq::<(u64, ResponseView)>::empty()) by {
            reveal_with_fuel(Seq::filter, 3);
            let one = seq![waiting[at]];
            assert(one.drop_last() =~= Seq::<(u64, ResponseView)>::empty());
            assert(!keep(one.last()));
        }
        assert(head.filter(keep) + Seq::<(u64, ResponseView)>::empty() =~= head.filter(keep));
    }
}

/// A caller does not wait for ever: once more than [`REQUEST_TIMEOUT_MS`]
/// milliseconds have passed, a poll ends the wait, with the reply or with a
/// failure; without a reply and with the connection standing, the failure
/// is `TimedOut`.
pub proof fn lemma_wait_ends(
    waiting: Seq<(u64, ResponseView)>,
    connected: bool,
    request_id: u64,
    elapsed_ms: u64,
)
    requires
        elapsed_ms > REQUEST_TIMEOUT_MS,
    ensures
        poll_outcome(waiting, connected, request_id, elapsed_ms).0 != PollStepView::Wait,
        !is_open(waiting, request_id) && connected ==> poll_outcome(
            waiting,
            connected,
            request_id,
            elapsed_ms,
        ).0 == PollStepView::Failed(IpcError::TimedOut),
{
}

/// The identifier that is drawn `count` draws after `first`.
pub open spec fn id_after(first: u64, count: nat) -> u64 {
    ((first + count) % 0x1_0000_0000_0000_0000) as u64
}

/// Drawing identifiers walks through [`id_after`].
pub proof fn lemma_following_id(first: u64, count: nat)
    ensures
        id_after(first, 0) == first,
        following_id(id_after(first, count)) == id_after(first, count + 1),
{
}

/// Requests of one client get identifiers of their own: two draws that are
/// less than 2^64 draws apart give different identifiers.
pub proof fn lemma_ids_differ(first: u64, earlier: nat, later: nat)
    requires
        earlier < later,
        later - earlier < 0x1_0000_0000_0000_0000,
    ensures
        id_after(first, earlier) != id_after(first, later),
{
    let m = 0x1_0000_0000_0000_0000int;
    let a = first + earlier;
    let b = first + later;
    if a % m == b % m {
        vstd::arithmetic::div_mod::lemma_fundamental_div_mod(a, m);
        vstd::arithmetic::div_mod::lemma_fundamental_div_mod(b, m);
        let qa = a / m;
        let qb = b / m;
        assert(b - a == m * qb - m * qa);
        assert(m * qb - m * qa == m * (qb - qa)) by (nonlinear_arith);
        assert(0 < m * (qb - qa) < m);
        assert(false) by (nonlinear_arith)
            requires
                0 < m * (qb - qa) < m,
                m > 0,
        ;
    }
}

} // verus!
