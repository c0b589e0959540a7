//! Framing of messages on the byte stream between the widget host and the
//! settings process, and the connection life cycle of both ends.

use vstd::prelude::*;

verus! {

/// The number of bytes of the length that goes before every payload.
pub const HEADER_LEN: usize = 4;

/// The longest payload a frame can carry.
pub const MAX_PAYLOAD: usize = 0xffff_ffff;

/// The four bytes that write `n`, least significant byte first.
pub open spec fn length_prefix(n: int) -> Seq<u8> {
    seq![
        (n % 256) as u8,
        (n / 256 % 256) as u8,
        (n / 65_536 % 256) as u8,
        (n / 16_777_216 % 256) as u8,
    ]
}

/// The number that the first four bytes of `b` write, least significant byte
/// first.
pub open spec fn prefix_value(b: Seq<u8>) -> int {
    b[0] + 256 * b[1] + 65_536 * b[2] + 16_777_216 * b[3]
}

/// A payload as it goes over the wire: its length, then its bytes.
pub open spec fn frame_of(payload: Seq<u8>) -> Seq<u8> {
    length_prefix(payload.len() as int) + payload
}

/// The payload of the frame at the start of `buf`, if all of it is there.
pub open spec fn first_frame(buf: Seq<u8>) -> Option<Seq<u8>> {
    if buf.len() >= 4 && buf.len() - 4 >= prefix_value(buf) {
        Some(buf.subrange(4, 4 + prefix_value(buf)))
    } else {
        None
    }
}

/// Reading back a written length gives the length.
pub proof fn lemma_prefix_round_trip(n: int)
    requires
        0 <= n <= u32::MAX,
    ensures
        length_prefix(n).len() == 4,
        prefix_value(length_prefix(n)) == n,
{
    assert(n / 16_777_216 < 256);
    assert(n == (n % 256) + 256 * (n / 256 % 256) + 65_536 * (n / 65_536 % 256) + 16_777_216 * (n
        / 16_777_216 % 256));
}

/// Whatever follows a frame on the stream, the reader gets the payload back
/// that the writer framed, byte for byte.
pub proof fn lemma_frame_round_trip(payload: Seq<u8>, rest: Seq<u8>)
    requires
        payload.len() <= u32::MAX,
    ensures
        first_frame(frame_of(payload) + rest) == Some(payload),
{
    let n = payload.len() as int;
    lemma_prefix_round_trip(n);
    let buf = frame_of(payload) + rest;
    assert(buf[0] == length_prefix(n)[0]);
    assert(buf[1] == length_prefix(n)[1]);
    assert(buf[2] == length_prefix(n)[2]);
    assert(buf[3] == length_prefix(n)[3]);
    assert(prefix_value(buf) == n);
    assert(buf.subrange(4, 4 + n) =~= payload);
}

/// A frame that is cut short anywhere yields nothing yet.
pub proof fn lemma_partial_frame_waits(payload: Seq<u8>, cut: int)
    requires
        payload.len() <= u32::MAX,
        0 <= cut < frame_of(payload).len(),
    ensures
        first_frame(frame_of(payload).take(cut)) is None,
{
    let n = payload.len() as int;
    lemma_prefix_round_trip(n);
    let buf = frame_of(payload).take(cut);
    if cut >= 4 {
        assert(buf[0] == length_prefix(n)[0]);
        assert(buf[1] == length_prefix(n)[1]);
        assert(buf[2] == length_prefix(n)[2]);
        assert(buf[3] == length_prefix(n)[3]);
        assert(prefix_value(buf) == n);
    }
}

/// Frames a payload for the wire; `None` for one too long for the length to
/// be written in four bytes.
pub fn encode_frame(payload: &Vec<u8>) -> (r: Option<Vec<u8>>)
    ensures
        match r {
            Some(frame) => payload.len() <= MAX_PAYLOAD && frame@ == frame_of(payload@),
            None => payload.len() > MAX_PAYLOAD,
        },
{
    let n: usize = payload.len();
    if n > MAX_PAYLOAD {
        return None;
    }
    let mut frame: Vec<u8> = Vec::new();
    frame.push((n % 256) as u8);
    frame.push((n / 256 % 256) as u8);
    frame.push((n / 65_536 % 256) as u8);
    frame.push((n / 16_777_216 % 256) as u8);
    assert(frame@ =~= length_prefix(n as int));
    let mut i: usize = 0;
    while i < n
        invariant
            i <= n,
            n == payload.len(),
            frame@ == length_prefix(n as int) + payload@.take(i as int),
        decreases n - i,
    {
        frame.push(payload[i]);
        assert(payload@.take(i + 1) =~= payload@.take(i as int).push(payload@[i as int]));
        assert(frame@ =~= length_prefix(n as int) + payload@.take(i + 1));
        i += 1;
    }
    assert(payload@.take(n as int) =~= payload@);
    Some(frame)
}

/// Reads the length that a frame starts with.
pub fn frame_length(header: &[u8; 4]) -> (r: u32)
    ensures
        r == prefix_value(header@),
{
    let b0: u32 = header[0] as u32;
    let b1: u32 = header[1] as u32;
    let b2: u32 = header[2] as u32;
    let b3: u32 = header[3] as u32;
    b0 + 256 * b1 + 65_536 * b2 + 16_777_216 * b3
}

/// Takes the first frame off the bytes received so far. Gives its payload
/// and the number of bytes the frame took, or `None` while the frame is not
/// complete.
pub fn decode_frame(buf: &Vec<u8>) -> (r: Option<(Vec<u8>, usize)>)
    ensures
        match r {
            Some((payload, consumed)) => first_frame(buf@) == Some(payload@) && consumed == 4
                + payload.len(),
            None => first_frame(buf@) is None,
        },
{
    assert(buf@.skip(0) =~= buf@);
    decode_frame_at(buf, 0)
}

/// Takes the frame that starts at place `start` of the bytes received so far.
pub fn decode_frame_at(buf: &Vec<u8>, start: usize) -> (r: Option<(Vec<u8>, usize)>)
    requires
        start <= buf.len(),
    ensures
        match r {
            Some((payload, consumed)) => first_frame(buf@.skip(start as int)) == Some(payload@)
                && consumed == 4 + payload.len() && start + consumed <= buf.len(),
            None => first_frame(buf@.skip(start as int)) is None,
        },
{
    let ghost tail = buf@.skip(start as int);
    if buf.len() - start < HEADER_LEN {
        return None;
    }
    let header: [u8; 4] = [buf[start], buf[start + 1], buf[start + 2], buf[start + 3]];
    let len: u32 = frame_length(&header);
    assert(len == prefix_value(tail));
    let rest: usize = buf.len() - start - HEADER_LEN;
    if (rest as u64) < (len as u64) {
        return None;
    }
    let n: usize = len as usize;
    let first: usize = start + HEADER_LEN;
    let mut payload: Vec<u8> = Vec::new();
    let mut i: usize = 0;
    while i < n
        invariant
            i <= n,
            first == start + 4,
            first + n <= buf.len(),
            tail == buf@.skip(start as int),
            payload@ == tail.subrange(4, 4 + i),
        decreases n - i,
    {
        payload.push(buf[first + i]);
        assert(payload@ =~= tail.subrange(4, 4 + i + 1));
        i += 1;
    }
    Some((payload, HEADER_LEN + n))
}

/// Several payloads framed one after the other.
pub open spec fn frames_of(payloads: Seq<Seq<u8>>) -> Seq<u8>
    decreases payloads.len(),
{
    if payloads.len() == 0 {
        Seq::empty()
    } else {
        frame_of(payloads[0]) + frames_of(payloads.drop_first())
    }
}

/// The payloads of all the complete frames at the start of `buf`, in order.
pub open spec fn decoded(buf: Seq<u8>) -> Seq<Seq<u8>>
    decreases buf.len(),
{
    match first_frame(buf) {
        Some(payload) => seq![payload] + decoded(buf.skip(4 + payload.len() as int)),
        None => Seq::empty(),
    }
}

/// The number of bytes that the complete frames at the start of `buf` take.
pub open spec fn decoded_len(buf: Seq<u8>) -> int
    decreases buf.len(),
{
    match first_frame(buf) {
        Some(payload) => 4 + payload.len() + decoded_len(buf.skip(4 + payload.len() as int)),
        None => 0,
    }
}

/// Delivery is reliable and ordered: what the reader takes off a stream of
/// frames are the payloads that were framed, in the order they were written,
/// and a frame that has only arrived in part is left for later.
pub proof fn lemma_stream_round_trip(payloads: Seq<Seq<u8>>, partial: Seq<u8>)
    requires
        forall|i: int| 0 <= i < payloads.len() ==> (#[trigger] payloads[i]).len() <= u32::MAX,
        first_frame(partial) is None,
    ensures
        decoded(frames_of(payloads) + partial) == payloads,
        decoded_len(frames_of(payloads) + partial) == frames_of(payloads).len(),
    decreases payloads.len(),
{
    let buf = frames_of(payloads) + partial;
    if payloads.len() == 0 {
        assert(buf =~= partial);
    } else {
        let head = payloads[0];
        let tail = payloads.drop_first();
        let rest = frames_of(tail) + partial;
        assert(buf =~= frame_of(head) + rest);
        lemma_frame_round_trip(head, rest);
        lemma_prefix_round_trip(head.len() as int);
        assert(buf.skip(4 + head.len() as int) =~= rest);
        lemma_stream_round_trip(tail, partial);
        assert(seq![head] + tail =~= payloads);
    }
}

/// Takes every complete frame off the bytes received so far. Gives the
/// payloads in order and the number of bytes they took; the bytes after
/// that belong to a frame that is still arriving.
pub fn split_frames(buf: &Vec<u8>) -> (r: (Vec<Vec<u8>>, usize))
    ensures
        r.0.len() == decoded(buf@).len(),
        forall|i: int| 0 <= i < r.0.len() ==> (#[trigger] r.0[i])@ == decoded(buf@)[i],
        r.1 == decoded_len(buf@),
        r.1 <= buf.len(),
{
    let mut out: Vec<Vec<u8>> = Vec::new();
    let mut at: usize = 0;
    let ghost mut taken: Seq<Seq<u8>> = Seq::empty();
    assert(buf@.skip(0) =~= buf@);
    loop
        invariant
            at <= buf.len(),
            out.len() == taken.len(),
            forall|i: int| 0 <= i < out.len() ==> (#[trigger] out[i])@ == taken[i],
            decoded(buf@) == taken + decoded(buf@.skip(at as int)),
            decoded_len(buf@) == at + decoded_len(buf@.skip(at as int)),
        ensures
            at <= buf.len(),
            out.len() == decoded(buf@).len(),
            forall|i: int| 0 <= i < out.len() ==> (#[trigger] out[i])@ == decoded(buf@)[i],
            at == decoded_len(buf@),
        decreases buf.len() - at,
    {
        match decode_frame_at(buf, at) {
            Some((payload, consumed)) => {
                proof {
                    let tail = buf@.skip(at as int);
                    assert(tail.skip(consumed as int) =~= buf@.skip(at + consumed));
                    assert(taken + (seq![payload@] + decoded(tail.skip(consumed as int)))
                        =~= taken.push(payload@) + decoded(buf@.skip(at + consumed)));
                    taken = taken.push(payload@);
                }
                out.push(payload);
                at = at + consumed;
            },
            None => {
                assert(taken + Seq::<Seq<u8>>::empty() =~= taken);
                break;
            },
        }
    }
    (out, at)
}

/// How long the settings process waits before it tries to connect again, in
/// milliseconds.
pub const RETRY_MS: u64 = 1_000;

/// Where the settings process stands with its connection to the host.
#[derive(Clone, Copy, Debug, PartialEq, Eq, Structural)]
pub enum ClientLink {
    /// An attempt to connect is under way.
    Connecting,
    /// The last attempt failed or the connection broke; the next attempt is
    /// due at `retry_at`.
    Waiting { retry_at: u64 },
    /// The connection stands.
    Connected,
}

/// What the transport of the settings process reports.
#[derive(Clone, Copy, Debug, PartialEq, Eq, Structural)]
pub enum LinkEvent {
    /// The attempt to connect failed.
    ConnectFailed { now: u64 },
    /// The attempt to connect succeeded.
    ConnectSucceeded,
    /// A read, a write or the decoding of a message failed.
    StreamFailed { now: u64 },
    /// Time has passed.
    Timer { now: u64 },
}

/// What the transport of the settings process is to do next.
#[derive(Clone, Copy, Debug, PartialEq, Eq, Structural)]
pub enum LinkAction {
    /// Try to connect now.
    Connect,
    /// Do nothing before `until`.
    WaitUntil { until: u64 },
    /// Tell the settings surface that it is connected.
    AnnounceConnected,
    /// Tear the connection down, tell the settings surface that it is
    /// disconnected, and do nothing before `until`.
    AnnounceDisconnected { until: u64 },
    /// Nothing: the event does not concern the present state.
    Nothing,
}

/// The moment the next attempt is due after a failure at `now`.
pub open spec fn retry_time(now: u64) -> u64 {
    if now <= u64::MAX - RETRY_MS {
        (now + RETRY_MS) as u64
    } else {
        u64::MAX
    }
}

impl ClientLink {
    /// The state after an event.
    pub open spec fn next(self, event: LinkEvent) -> ClientLink {
        match (self, event) {
            (ClientLink::Connecting, LinkEvent::ConnectFailed { now }) => ClientLink::Waiting {
                retry_at: retry_time(now),
            },
            (ClientLink::Connecting, LinkEvent::ConnectSucceeded) => ClientLink::Connected,
            (ClientLink::Connected, LinkEvent::StreamFailed { now }) => ClientLink::Waiting {
                retry_at: retry_time(now),
            },
            (ClientLink::Waiting { retry_at }, LinkEvent::Timer { now }) => if now >= retry_at {
                ClientLink::Connecting
            } else {
                self
            },
            _ => self,
        }
    }

    /// What an event asks the transport to do.
    pub open spec fn action(self, event: LinkEvent) -> LinkAction {
        match (self, event) {
            (ClientLink::Connecting, LinkEvent::ConnectFailed { now }) => LinkAction::WaitUntil {
                until: retry_time(now),
            },
            (ClientLink::Connecting, LinkEvent::ConnectSucceeded) => LinkAction::AnnounceConnected,
            (ClientLink::Connected, LinkEvent::StreamFailed { now }) => {
                LinkAction::AnnounceDisconnected { until: retry_time(now) }
            },
            (ClientLink::Waiting { retry_at }, LinkEvent::Timer { now }) => if now >= retry_at {
                LinkAction::Connect
            } else {
                LinkAction::WaitUntil { until: retry_at }
            },
            _ => LinkAction::Nothing,
        }
    }

    /// The link of a settings process that has just started: it tries to
    /// connect at once.
    pub fn start() -> (r: (ClientLink, LinkAction))
        ensures
            r == (ClientLink::Connecting, LinkAction::Connect),
    {
        (ClientLink::Connecting, LinkAction::Connect)
    }

    /// Takes an event of the transport and says what to do next.
    pub fn step(&mut self, event: LinkEvent) -> (r: LinkAction)
        ensures
            *final(self) == old(self).next(event),
            r == old(self).action(event),
    {
        match (*self, event) {
            (ClientLink::Connecting, LinkEvent::ConnectFailed { now }) => {
                let until = retry_after(now);
                *self = ClientLink::Waiting { retry_at: until };
                LinkAction::WaitUntil { until }
            },
            (ClientLink::Connecting, LinkEvent::ConnectSucceeded) => {
                *self = ClientLink::Connected;
                LinkAction::AnnounceConnected
            },
            (ClientLink::Connected, LinkEvent::StreamFailed { now }) => {
                let until = retry_after(now);
                *self = ClientLink::Waiting { retry_at: until };
                LinkAction::AnnounceDisconnected { until }
            },
            (ClientLink::Waiting { retry_at }, LinkEvent::Timer { now }) => {
                if now >= retry_at {
                    *self = ClientLink::Connecting;
                    LinkAction::Connect
                } else {
                    LinkAction::WaitUntil { until: retry_at }
                }
            },
            _ => LinkAction::Nothing,
        }
    }
}

fn retry_after(now: u64) -> (r: u64)
    ensures
        r == retry_time(now),
{
    if now <= u64::MAX - RETRY_MS {
        now + RETRY_MS
    } else {
        u64::MAX
    }
}

/// The settings process never gives up: whenever it is not connected, it is
/// either trying to connect or waiting for a moment at which it will try, and
/// that moment is one retry period after the failure. A failure never ends
/// the link, and only a broken connection is announced as a disconnect.
pub proof fn lemma_client_retries_forever(link: ClientLink, event: LinkEvent, later: u64)
    ensures
        link.next(event) is Waiting && later >= link.next(event)->retry_at ==> link.next(
            event,
        ).next(LinkEvent::Timer { now: later }) == ClientLink::Connecting && link.next(
            event,
        ).action(LinkEvent::Timer { now: later }) == LinkAction::Connect,
        link == ClientLink::Connecting && event is ConnectFailed ==> link.next(event) == (
        ClientLink::Waiting { retry_at: retry_time(event.now()) }),
        link.action(event) is AnnounceDisconnected <==> link == ClientLink::Connected
            && event is StreamFailed,
        link.action(event) is AnnounceConnected <==> link == ClientLink::Connecting
            && event is ConnectSucceeded,
        link.action(event) is AnnounceConnected <==> link != ClientLink::Connected && link.next(
            event,
        ) == ClientLink::Connected,
{
}

impl LinkEvent {
    /// The clock reading that the event carries; zero for one without.
    pub open spec fn now(self) -> u64 {
        match self {
            LinkEvent::ConnectFailed { now } => now,
            LinkEvent::StreamFailed { now } => now,
            LinkEvent::Timer { now } => now,
            LinkEvent::ConnectSucceeded => 0,
        }
    }
}

/// Where the host stands with its one channel to a settings process.
#[derive(Clone, Copy, Debug, PartialEq, Eq, Structural)]
pub enum ServerLink {
    /// No settings process is connected; the host waits for one.
    Listening,
    /// A settings process is connected and is being served.
    Serving,
}

/// What the listener of the host reports.
#[derive(Clone, Copy, Debug, PartialEq, Eq, Structural)]
pub enum ServerEvent {
    /// A settings process has connected.
    Accepted,
    /// A read, a write or the decoding of a message failed on the
    /// connection that is being served.
    StreamFailed,
}

/// What the listener of the host is to do next.
#[derive(Clone, Copy, Debug, PartialEq, Eq, Structural)]
pub enum ServerAction {
    /// Serve the new connection and tell the orchestrator that a settings
    /// process is connected.
    Serve,
    /// Turn the new connection away: one is being served already.
    Refuse,
    /// Tear the connection down, tell the orchestrator that the settings
    /// process is gone, and listen again.
    AnnounceDisconnected,
    /// Nothing: the event does not concern the present state.
    Nothing,
}

impl ServerLink {
    /// The state after an event.
    pub open spec fn next(self, event: ServerEvent) -> ServerLink {
        match event {
            ServerEvent::Accepted => ServerLink::Serving,
            ServerEvent::StreamFailed => ServerLink::Listening,
        }
    }

    /// What an event asks the listener to do.
    pub open spec fn action(self, event: ServerEvent) -> ServerAction {
        match (self, event) {
            (ServerLink::Listening, ServerEvent::Accepted) => ServerAction::Serve,
            (ServerLink::Serving, ServerEvent::Accepted) => ServerAction::Refuse,
            (ServerLink::Serving, ServerEvent::StreamFailed) => ServerAction::AnnounceDisconnected,
            (ServerLink::Listening, ServerEvent::StreamFailed) => ServerAction::Nothing,
        }
    }

    /// The link of a host that has just started to listen.
    pub fn start() -> (r: ServerLink)
        ensures
            r == ServerLink::Listening,
    {
        ServerLink::Listening
    }

    /// Takes an event of the listener and says what to do next.
    pub fn step(&mut self, event: ServerEvent) -> (r: ServerAction)
        ensures
            *final(self) == old(self).next(event),
            r == old(self).action(event),
    {
        let action = match (*self, event) {
            (ServerLink::Listening, ServerEvent::Accepted) => ServerAction::Serve,
            (ServerLink::Serving, ServerEvent::Accepted) => ServerAction::Refuse,
            (ServerLink::Serving, ServerEvent::StreamFailed) => ServerAction::AnnounceDisconnected,
            (ServerLink::Listening, ServerEvent::StreamFailed) => ServerAction::Nothing,
        };
        *self = match event {
            ServerEvent::Accepted => ServerLink::Serving,
            ServerEvent::StreamFailed => ServerLink::Listening,
        };
        action
    }
}

/// The sessions that a run of events has opened and not closed again.
pub open spec fn open_sessions(link: ServerLink, events: Seq<ServerEvent>) -> int
    decreases events.len(),
{
    if events.len() == 0 {
        if link == ServerLink::Serving {
            1
        } else {
            0
        }
    } else {
        let before = open_sessions(link, events.drop_last());
        match server_run(link, events.drop_last()).action(events.last()) {
            ServerAction::Serve => before + 1,
            ServerAction::AnnounceDisconnected => before - 1,
            _ => before,
        }
    }
}

/// The state of the listener after a run of events.
pub open spec fn server_run(link: ServerLink, events: Seq<ServerEvent>) -> ServerLink
    decreases events.len(),
{
    if events.len() == 0 {
        link
    } else {
        server_run(link, events.drop_last()).next(events.last())
    }
}

/// One session at a time: whatever the listener reports, never more than one
/// settings process is being served, a second one is turned away while the
/// first is connected, and a broken connection always leaves the host
/// listening again.
pub proof fn lemma_one_session_at_a_time(link: ServerLink, events: Seq<ServerEvent>)
    ensures
        0 <= open_sessions(link, events) <= 1,
        open_sessions(link, events) == 1 <==> server_run(link, events) == ServerLink::Serving,
        server_run(link, events) == ServerLink::Serving ==> server_run(link, events).action(
            ServerEvent::Accepted,
        ) == ServerAction::Refuse,
        server_run(link, events).next(ServerEvent::StreamFailed) == ServerLink::Listening,
    decreases events.len(),
{
    if events.len() > 0 {
        lemma_one_session_at_a_time(link, events.drop_last());
    }
}

} // verus!
