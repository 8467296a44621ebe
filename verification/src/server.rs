//! The worker's connections.
//!
//! The event loop accepts connections and reads from them without
//! blocking. [`IpcServer`] keeps one [`FrameBuffer`] per open connection,
//! turns what was read into requests, and decides when a connection is
//! dropped: at the end of its stream, on a read error, and on a frame that
//! is no request message.

use vstd::prelude::*;
use crate::framing::{
    after_whole_frames, encode_frame, frame_of, payloads_of, whole_frames, FrameBuffer,
    MAX_FRAME_LEN,
};
use crate::ipc::{IpcError, IpcEvent, IpcEventView, IpcResponse};
use crate::keyed::{is_open, lemma_position_of, position_of};
use crate::wire::{deserialize_request, response_text, serialize_response, text_request_message};

verus! {

/// What a read on a connection gave.
#[derive(Debug, PartialEq, Eq)]
pub enum ReadOutcome {
    /// These bytes, at least one.
    Data(Vec<u8>),
    /// The peer closed the connection.
    EndOfStream,
    /// Nothing to read right now.
    WouldBlock,
    /// The read failed.
    Failed,
}

/// One open connection: its identifier and the bytes read from it that are
/// not yet a whole frame.
pub struct Connection {
    id: u64,
    buffer: FrameBuffer,
}

/// The open connections of the worker, in the order in which they were
/// accepted.
pub struct IpcServer {
    connections: Vec<Connection>,
    next_id: u64,
}

/// The events that a run of whole frames gives: a request for each frame up
/// to the first one that is not a request message; that one ends the
/// connection.
pub open spec fn frame_events(frames: Seq<Seq<u8>>) -> Seq<IpcEventView>
    decreases frames.len(),
{
    if frames.len() == 0 {
        Seq::empty()
    } else {
        match text_request_message(frames[0]) {
            Some(message) => seq![
                IpcEventView::Request { request_id: message.request_id, request: message.payload },
            ] + frame_events(frames.drop_first()),
            None => seq![IpcEventView::ClientDisconnected],
        }
    }
}

/// Whether every frame is a request message.
pub open spec fn frames_readable(frames: Seq<Seq<u8>>) -> bool {
    forall|i: int| 0 <= i < frames.len() ==> text_request_message(#[trigger] frames[i]).is_some()
}

/// Whether a connection whose buffered bytes are `bytes` can go on: all its
/// whole frames are request messages.
pub open spec fn stream_readable(bytes: Seq<u8>) -> bool {
    frames_readable(whole_frames(bytes))
}

/// The events that the buffered bytes `bytes` give.
pub open spec fn stream_events(bytes: Seq<u8>) -> Seq<IpcEventView> {
    frame_events(whole_frames(bytes))
}

/// The contents of a list of events.
pub open spec fn events_view(events: Seq<IpcEvent>) -> Seq<IpcEventView> {
    Seq::new(events.len(), |i: int| events[i]@)
}

/// What a read does to the connections and which events it gives.
pub open spec fn after_read(clients: Seq<(u64, Seq<u8>)>, id: u64, outcome: ReadOutcome) -> (
    Seq<(u64, Seq<u8>)>,
    Seq<IpcEventView>,
) {
    let at = position_of(clients, id);
    if !is_open(clients, id) {
        (clients, Seq::empty())
    } else {
        match outcome {
            ReadOutcome::WouldBlock => (clients, Seq::empty()),
            ReadOutcome::EndOfStream => (
                clients.remove(at),
                seq![IpcEventView::ClientDisconnected],
            ),
            ReadOutcome::Failed => (clients.remove(at), seq![IpcEventView::ClientDisconnected]),
            ReadOutcome::Data(bytes) => {
                let all = clients[at].1 + bytes@;
                if stream_readable(all) {
                    (clients.update(at, (id, after_whole_frames(all))), stream_events(all))
                } else {
                    (clients.remove(at), stream_events(all))
                }
            },
        }
    }
}

impl IpcServer {
    /// The open connections with their buffered bytes, in the order in
    /// which they were accepted.
    pub closed spec fn clients(&self) -> Seq<(u64, Seq<u8>)> {
        Seq::new(
            self.connections@.len(),
            |i: int| (self.connections@[i].id, self.connections@[i].buffer@),
        )
    }

    /// The identifier that the next connection gets.
    pub closed spec fn upcoming(&self) -> u64 {
        self.next_id
    }

    /// Every open connection has an identifier of its own, below the one
    /// that comes next. [`IpcServer::new`] establishes this and every
    /// method keeps it.
    pub closed spec fn well_formed(&self) -> bool {
        &&& forall|i: int|
            0 <= i < self.connections@.len() ==> (#[trigger] self.connections@[i]).id
                < self.next_id
        &&& forall|i: int, j: int|
            0 <= i < j < self.connections@.len() ==> (#[trigger] self.connections@[i]).id != (
            #[trigger] self.connections@[j]).id
    }

    /// A server without connections.
    pub fn new() -> (server: Self)
        ensures
            server.well_formed(),
            server.clients() == Seq::<(u64, Seq<u8>)>::empty(),
            server.upcoming() == 0,
    {
        let server = IpcServer { connections: Vec::new(), next_id: 0 };
        assert(server.clients() =~= Seq::<(u64, Seq<u8>)>::empty());
        server
    }

    /// The number of open connections.
    pub fn client_count(&self) -> (count: usize)
        ensures
            count == self.clients().len(),
    {
        self.connections.len()
    }

    /// Registers a connection that was accepted and gives its identifier;
    /// `None`, with nothing changed, once the identifiers have run out.
    pub fn accept(&mut self) -> (id: Option<u64>)
        requires
            old(self).well_formed(),
        ensures
            final(self).well_formed(),
            match id {
                Some(id) => {
                    &&& id == old(self).upcoming()
                    &&& !is_open(old(self).clients(), id)
                    &&& final(self).clients() == old(self).clients().push((id, Seq::empty()))
                    &&& final(self).upcoming() == id + 1
                },
                None => {
                    &&& old(self).upcoming() == u64::MAX
                    &&& final(self).clients() == old(self).clients()
                    &&& final(self).upcoming() == old(self).upcoming()
                },
            },
    {
        if self.next_id == u64::MAX {
            return None;
        }
        let id = self.next_id;
        proof {
            self.lemma_position(id);
        }
        self.connections.push(Connection { id, buffer: FrameBuffer::new() });
        self.next_id = id + 1;
        assert(self.clients() =~= old(self).clients().push((id, Seq::empty())));
        Some(id)
    }

    /// Relates the position of a connection to the list.
    proof fn lemma_position(&self, id: u64)
        ensures
            0 <= position_of(self.clients(), id) <= self.clients().len(),
            is_open(self.clients(), id) ==> self.clients()[position_of(self.clients(), id)].0
                == id,
            forall|i: int|
                0 <= i < position_of(self.clients(), id) ==> (#[trigger] self.clients()[i]).0
                    != id,
    {
        lemma_position_of(self.clients(), id);
    }

    fn find(&self, id: u64) -> (at: usize)
        ensures
            at == position_of(self.clients(), id),
            at <= self.connections@.len(),
            at < self.connections@.len() ==> self.connections@[at as int].id == id,
    {
        proof {
            self.lemma_position(id);
        }
        let mut at: usize = 0;
        while at < self.connections.len()
            invariant
                at <= self.connections@.len(),
                forall|i: int| 0 <= i < at ==> (#[trigger] self.clients()[i]).0 != id,
                self.clients().len() == self.connections@.len(),
            decreases self.connections@.len() - at,
        {
            if self.connections[at].id == id {
                proof {
                    assert(self.clients()[at as int].0 == id);
                    self.lemma_position(id);
                }
                return at;
            }
            assert(self.clients()[at as int].0 != id);
            at = at + 1;
        }
        at
    }

    /// The identifiers of the open connections, in the order in which they
    /// were accepted: where an event goes.
    pub fn connection_ids(&self) -> (ids: Vec<u64>)
        ensures
            ids@.len() == self.clients().len(),
            forall|i: int| 0 <= i < ids@.len() ==> ids@[i] == self.clients()[i].0,
    {
        let mut ids: Vec<u64> = Vec::new();
        let mut i: usize = 0;
        while i < self.connections.len()
            invariant
                i <= self.connections@.len(),
                ids@.len() == i,
                self.clients().len() == self.connections@.len(),
                forall|k: int| 0 <= k < i ==> ids@[k] == self.clients()[k].0,
            decreases self.connections@.len() - i,
        {
            ids.push(self.connections[i].id);
            i = i + 1;
        }
        ids
    }
}

/// Reads the requests from a run of whole frames. The second result tells
/// whether every frame was a request message; the events stop at the first
/// one that was not, with `ClientDisconnected`.
pub fn read_frames(frames: &Vec<Vec<u8>>) -> (r: (Vec<IpcEvent>, bool))
    ensures
        events_view(r.0@) == frame_events(payloads_of(frames@)),
        r.1 == frames_readable(payloads_of(frames@)),
{
    let ghost all = payloads_of(frames@);
    let mut events: Vec<IpcEvent> = Vec::new();
    let mut i: usize = 0;
    assert(all.skip(0) =~= all);
    assert(events_view(events@) =~= Seq::<IpcEventView>::empty());
    while i < frames.len()
        invariant
            i <= frames@.len(),
            all == payloads_of(frames@),
            frame_events(all) == events_view(events@) + frame_events(all.skip(i as int)),
            forall|k: int| 0 <= k < i ==> text_request_message(#[trigger] all[k]).is_some(),
        decreases frames@.len() - i,
    {
        let ghost before = events_view(events@);
        let ghost rest = all.skip(i as int);
        assert(rest[0] == all[i as int]);
        assert(rest.drop_first() =~= all.skip(i + 1));
        match deserialize_request(frames[i].as_slice()) {
            Ok(message) => {
                events.push(
                    IpcEvent::Request { request_id: message.request_id, request: message.payload },
                );
                assert(events_view(events@) =~= before + seq![
                    IpcEventView::Request {
                        request_id: message.request_id,
                        request: message.payload@,
                    },
                ]);
                assert(before + frame_events(rest) =~= events_view(events@) + frame_events(
                    all.skip(i + 1),
                ));
            },
            Err(_) => {
                events.push(IpcEvent::ClientDisconnected);
                assert(events_view(events@) =~= before + seq![IpcEventView::ClientDisconnected]);
                return (events, false);
            },
        }
        i = i + 1;
    }
    assert(all.skip(i as int).len() == 0);
    assert(events_view(events@) + Seq::<IpcEventView>::empty() =~= events_view(events@));
    (events, true)
}

impl IpcServer {
    /// Takes what a read on the connection `id` gave. New bytes join the
    /// buffered ones; every whole frame becomes a request. The connection is
    /// dropped, and `ClientDisconnected` is the last event, at the end of
    /// the stream, on a failed read and on a frame that is no request
    /// message. A read on a connection that is not open changes nothing.
    pub fn receive(&mut self, id: u64, outcome: ReadOutcome) -> (events: Vec<IpcEvent>)
        requires
            old(self).well_formed(),
        ensures
            final(self).well_formed(),
            final(self).upcoming() == old(self).upcoming(),
            final(self).clients() == after_read(old(self).clients(), id, outcome).0,
            events_view(events@) == after_read(old(self).clients(), id, outcome).1,
    {
        let at = self.find(id);
        let mut events: Vec<IpcEvent> = Vec::new();
        assert(events_view(events@) =~= Seq::<IpcEventView>::empty());
        if at >= self.connections.len() {
            return events;
        }
        let ghost before = self.clients();
        match outcome {
            ReadOutcome::WouldBlock => {},
            ReadOutcome::EndOfStream => {
                self.connections.remove(at);
                events.push(IpcEvent::ClientDisconnected);
                assert(self.clients() =~= before.remove(at as int));
                assert(events_view(events@) =~= seq![IpcEventView::ClientDisconnected]);
            },
            ReadOutcome::Failed => {
                self.connections.remove(at);
                events.push(IpcEvent::ClientDisconnected);
                assert(self.clients() =~= before.remove(at as int));
                assert(events_view(events@) =~= seq![IpcEventView::ClientDisconnected]);
            },
            ReadOutcome::Data(bytes) => {
                let mut connection = self.connections.remove(at);
                assert(self.clients() =~= before.remove(at as int));
                let ghost all = connection.buffer@ + bytes@;
                connection.buffer.push(bytes.as_slice());
                let frames = connection.buffer.drain();
                let (requests, readable) = read_frames(&frames);
                events = requests;
                if readable {
                    self.connections.insert(at, connection);
                    assert(self.clients() =~= before.update(
                        at as int,
                        (id, after_whole_frames(all)),
                    ));
                }
            },
        }
        events
    }

    /// Drops the connection `id`, after a write to it failed. Nothing
    /// changes where it is not open.
    pub fn drop_connection(&mut self, id: u64)
        requires
            old(self).well_formed(),
        ensures
            final(self).well_formed(),
            final(self).upcoming() == old(self).upcoming(),
            final(self).clients() == if is_open(old(self).clients(), id) {
                old(self).clients().remove(position_of(old(self).clients(), id))
            } else {
                old(self).clients()
            },
    {
        let at = self.find(id);
        if at < self.connections.len() {
            let ghost before = self.clients();
            self.connections.remove(at);
            assert(self.clients() =~= before.remove(at as int));
        }
    }
}

/// The frame that carries a response message: what the worker writes to a
/// connection. There is none where the message has no JSON text or the text
/// is too long for a frame.
pub open spec fn response_frame(request_id: u64, response: crate::ipc::ResponseView) -> Option<
    Seq<u8>,
> {
    match response_text(request_id, response) {
        Some(text) => if text.len() <= MAX_FRAME_LEN {
            Some(frame_of(text))
        } else {
            None
        },
        None => None,
    }
}

/// Frames a response message for the wire. Fails with `InvalidData` exactly
/// where the message has no frame.
pub fn frame_response(request_id: u64, response: IpcResponse) -> (r: Result<Vec<u8>, IpcError>)
    ensures
        match r {
            Ok(frame) => response_frame(request_id, response@) == Some(frame@),
            Err(e) => e == IpcError::InvalidData && response_frame(request_id, response@).is_none(),
        },
{
    match serialize_response(request_id, response) {
        Ok(text) => match encode_frame(text.as_slice()) {
            Some(frame) => Ok(frame),
            None => Err(IpcError::InvalidData),
        },
        Err(e) => Err(e),
    }
}

/// The connections that are left once those in `failed` were dropped, one
/// after the other.
pub open spec fn after_drops(clients: Seq<(u64, Seq<u8>)>, failed: Seq<u64>) -> Seq<
    (u64, Seq<u8>),
>
    decreases failed.len(),
{
    if failed.len() == 0 {
        clients
    } else {
        after_drops(
            if is_open(clients, failed[0]) {
                clients.remove(position_of(clients, failed[0]))
            } else {
                clients
            },
            failed.drop_first(),
        )
    }
}

impl IpcServer {
    /// Prepares a response for every open connection: the frame to write
    /// and the connections to write it to, in the order in which they were
    /// accepted. Fails with `InvalidData` where the response cannot be
    /// framed.
    pub fn send_response(&self, request_id: u64, response: IpcResponse) -> (r: Result<
        (Vec<u64>, Vec<u8>),
        IpcError,
    >)
        ensures
            match r {
                Ok(sending) => {
                    &&& response_frame(request_id, response@) == Some(sending.1@)
                    &&& sending.0@.len() == self.clients().len()
                    &&& forall|i: int|
                        0 <= i < sending.0@.len() ==> sending.0@[i] == self.clients()[i].0
                },
                Err(e) => e == IpcError::InvalidData && response_frame(
                    request_id,
                    response@,
                ).is_none(),
            },
    {
        match frame_response(request_id, response) {
            Ok(frame) => Ok((self.connection_ids(), frame)),
            Err(e) => Err(e),
        }
    }

    /// Takes the connections on which a write failed: they are dropped.
    /// Fails with `ConnectionReset` where there was any.
    pub fn write_failed(&mut self, failed: &Vec<u64>) -> (r: Result<(), IpcError>)
        requires
            old(self).well_formed(),
        ensures
            final(self).well_formed(),
            final(self).upcoming() == old(self).upcoming(),
            final(self).clients() == after_drops(old(self).clients(), failed@),
            match r {
                Ok(_) => failed@.len() == 0,
                Err(e) => failed@.len() > 0 && e == IpcError::ConnectionReset,
            },
    {
        let mut i: usize = 0;
        assert(failed@.skip(0) =~= failed@);
        while i < failed.len()
            invariant
                i <= failed@.len(),
                self.well_formed(),
                self.upcoming() == old(self).upcoming(),
                after_drops(old(self).clients(), failed@) == after_drops(
                    self.clients(),
                    failed@.skip(i as int),
                ),
            decreases failed@.len() - i,
        {
            assert(failed@.skip(i as int)[0] == failed@[i as int]);
            assert(failed@.skip(i as int).drop_first() =~= failed@.skip(i + 1));
            self.drop_connection(failed[i]);
            i = i + 1;
        }
        if failed.len() == 0 {
            Ok(())
        } else {
            Err(IpcError::ConnectionReset)
        }
    }
}

} // verus!
