use vstd::prelude::*;
use vstd::string::*;
use crate::text::{concat4, first_match, has_match, is_first_match, lemma_first_match,
    lemma_first_match_unique, matches_at, find_sub};

verus! {

// ---------------------------------------------------------------------------
// The frame format of relayed bus messages
// ---------------------------------------------------------------------------

/// The single line a bus message becomes on the broadcast channel and on
/// every observer's socket.
pub open spec fn frame_spec(topic: Seq<char>, payload: Seq<char>) -> Seq<char> {
    "topic '"@ + topic + "': "@ + payload
}

/// Formats one inbound bus message for the broadcast channel.
pub fn format_event(topic: &str, payload: &str) -> (r: String)
    ensures
        r@ == frame_spec(topic@, payload@),
{
    concat4("topic '", topic, "': ", payload)
}

/// The topic and payload a frame carries, as the console reads them back: the
/// text between the first `topic '` and the first `': ` after it, and what
/// follows that separator. A frame whose separator would fall inside the
/// leader yields nothing.
pub open spec fn extract_frame_spec(m: Seq<char>) -> Option<(Seq<char>, Seq<char>)> {
    if has_match(m, "topic '"@) {
        let ts = first_match(m, "topic '"@);
        let rest = m.subrange(ts, m.len() as int);
        if has_match(rest, "': "@) {
            let te = first_match(rest, "': "@);
            if te >= 7 {
                Some((m.subrange(ts + 7, ts + te), m.subrange(ts + te + 3, m.len() as int)))
            } else {
                None
            }
        } else {
            None
        }
    } else {
        None
    }
}

pub open spec fn opt_pair_view(r: Option<(String, String)>) -> Option<(Seq<char>, Seq<char>)> {
    match r {
        Some(p) => Some((p.0@, p.1@)),
        None => None,
    }
}

/// Reads the topic and payload back out of a frame.
pub fn extract_frame(message: &str) -> (r: Option<(String, String)>)
    ensures
        opt_pair_view(r) == extract_frame_spec(message@),
{
    proof {
        reveal_strlit("topic '");
        reveal_strlit("': ");
    }
    let n = message.unicode_len();
    match find_sub(message, "topic '") {
        None => None,
        Some(ts) => {
            proof {
                lemma_first_match(message@, "topic '"@);
                lemma_first_match_unique(
                    message@,
                    "topic '"@,
                    ts as int,
                    first_match(message@, "topic '"@),
                );
            }
            let rest = message.substring_char(ts, n);
            proof {
                assert(rest@ =~= message@.subrange(ts as int, n as int));
            }
            match find_sub(rest, "': ") {
                None => None,
                Some(te) => {
                    proof {
                        lemma_first_match(rest@, "': "@);
                        lemma_first_match_unique(
                            rest@,
                            "': "@,
                            te as int,
                            first_match(rest@, "': "@),
                        );
                    }
                    if te < 7 {
                        None
                    } else {
                        let topic = String::from_str(message.substring_char(ts + 7, ts + te));
                        let content = String::from_str(
                            message.substring_char(ts + te + 3, n),
                        );
                        proof {
                            assert(topic@ =~= message@.subrange(ts + 7, ts + te as int));
                            assert(content@ =~= message@.subrange(ts + te + 3, n as int));
                        }
                        Some((topic, content))
                    }
                },
            }
        },
    }
}

/// Reading a frame back yields the very topic and payload it was built
/// from. The topic must not itself contain the `': ` separator, nor start
/// with `: ` (which would make the separator match inside the leader);
/// the payload is arbitrary.
pub proof fn lemma_frame_round_trip(topic: Seq<char>, payload: Seq<char>)
    requires
        forall|i: int| !matches_at(topic, "': "@, i),
        !(topic.len() >= 2 && topic[0] == ':' && topic[1] == ' '),
    ensures
        extract_frame_spec(frame_spec(topic, payload)) == Some((topic, payload)),
{
    reveal_strlit("topic '");
    reveal_strlit("': ");
    let p7 = "topic '"@;
    let p3 = "': "@;
    assert(p7.len() == 7);
    assert(p3.len() == 3);
    let tl = topic.len() as int;
    let pl = payload.len() as int;
    let m = frame_spec(topic, payload);
    assert(m.len() == 7 + tl + 3 + pl);
    assert(forall|k: int| 0 <= k < 7 ==> m[k] == p7[k]);
    assert(forall|k: int| 0 <= k < tl ==> m[7 + k] == topic[k]);
    assert(forall|k: int| 0 <= k < 3 ==> m[7 + tl + k] == p3[k]);
    assert(forall|k: int| 0 <= k < pl ==> m[7 + tl + 3 + k] == payload[k]);

    assert(m.subrange(0, 7) =~= p7);
    assert(matches_at(m, p7, 0));
    assert(is_first_match(m, p7, 0));
    lemma_first_match(m, p7);
    lemma_first_match_unique(m, p7, 0, first_match(m, p7));
    assert(first_match(m, p7) == 0);

    let rest = m.subrange(0, m.len() as int);
    assert(rest =~= m);

    assert(m.subrange(7 + tl, 7 + tl + 3) =~= p3);
    assert(matches_at(m, p3, 7 + tl));
    assert forall|j: int| 0 <= j < 7 + tl implies !matches_at(m, p3, j) by {
        if matches_at(m, p3, j) {
            assert(m.subrange(j, j + 3) == p3);
            assert(m.subrange(j, j + 3)[0] == m[j]);
            assert(m.subrange(j, j + 3)[1] == m[j + 1]);
            assert(m.subrange(j, j + 3)[2] == m[j + 2]);
            assert(m[j] == '\'' && m[j + 1] == ':' && m[j + 2] == ' ');
            if j < 6 {
                assert(m[j] == p7[j]);
                assert(p7[j] != '\'');
            } else if j == 6 {
                if tl == 0 {
                    assert(m[7] == p3[0]);
                } else if tl == 1 {
                    assert(m[8] == p3[0]);
                } else {
                    assert(m[7] == topic[0] && m[8] == topic[1]);
                }
            } else {
                let t0 = j - 7;
                if t0 + 3 <= tl {
                    assert(topic.subrange(t0, t0 + 3) =~= m.subrange(j, j + 3));
                    assert(matches_at(topic, p3, t0));
                } else if t0 == tl - 1 {
                    assert(m[j + 1] == p3[0]);
                } else {
                    assert(t0 == tl - 2);
                    assert(m[j + 2] == p3[0]);
                }
            }
        }
    }
    assert(is_first_match(m, p3, 7 + tl));
    lemma_first_match(m, p3);
    lemma_first_match_unique(m, p3, 7 + tl, first_match(m, p3));
    assert(first_match(m, p3) == 7 + tl);

    assert(m.subrange(7, 7 + tl) =~= topic);
    assert(m.subrange(7 + tl + 3, m.len() as int) =~= payload);
}

// ---------------------------------------------------------------------------
// The broadcast channel
// ---------------------------------------------------------------------------

/// What one receive yields.
pub enum RecvOutcome {
    /// The next message, verbatim as delivered.
    Message(String),
    /// The receiver fell behind the retained window; it is moved up to the
    /// oldest retained message and told so.
    Lagged,
    /// Nothing new has been delivered.
    Empty,
}

/// Whether a receiver at `pos` is handed a message.
pub open spec fn recv_is_message(log: Seq<Seq<char>>, oldest: nat, pos: nat) -> bool {
    oldest <= pos < log.len()
}

/// The message a receiver at `pos` is handed.
pub open spec fn recv_message(log: Seq<Seq<char>>, oldest: nat, pos: nat) -> Seq<char> {
    log[pos as int]
}

/// Where a receive leaves the receiver.
pub open spec fn recv_next_pos(log: Seq<Seq<char>>, oldest: nat, pos: nat) -> nat {
    if pos < oldest {
        oldest
    } else if pos < log.len() {
        (pos + 1) as nat
    } else {
        pos
    }
}

/// The bounded multi-consumer broadcast channel between the bus client and
/// the relay's writers. `log()` is every message ever delivered to it, in
/// order; only the most recent `cap()` are retained, and a sender never
/// blocks: a full window drops its oldest unread message instead.
///
/// At run time the boundary fans messages out over its asynchronous
/// broadcast channel, which follows this same protocol (bounded window,
/// non-blocking sender, a lag report before skipping to the oldest
/// retained message, independent receivers). This type is the library's
/// verified statement of those delivery semantics, and the laws below are
/// what the relay relies on; nothing verified ties the asynchronous
/// channel itself to this model.
pub struct EventChannel {
    buffer: Vec<String>,
    dropped: usize,
    capacity: usize,
    history: Ghost<Seq<Seq<char>>>,
}

/// One subscriber's independent handle: nothing but a position in the
/// delivered stream.
pub struct EventReceiver {
    cursor: usize,
}

impl EventReceiver {
    pub closed spec fn position(&self) -> nat {
        self.cursor as nat
    }
}

impl EventChannel {
    /// Every message ever delivered, in delivery order.
    pub closed spec fn log(&self) -> Seq<Seq<char>> {
        self.history@
    }

    /// The position of the oldest message still retained.
    pub closed spec fn oldest(&self) -> nat {
        self.dropped as nat
    }

    pub closed spec fn cap(&self) -> nat {
        self.capacity as nat
    }

    pub closed spec fn wf(&self) -> bool {
        &&& self.capacity >= 1
        &&& self.buffer@.len() <= self.capacity
        &&& self.history@.len() == self.dropped + self.buffer@.len()
        &&& self.history@.len() <= usize::MAX
        &&& forall|i: int|
            0 <= i < self.buffer@.len() ==> self.buffer@[i]@ == self.history@[self.dropped + i]
    }

    pub fn new(capacity: usize) -> (r: Self)
        requires
            capacity >= 1,
        ensures
            r.wf(),
            r.log().len() == 0,
            r.oldest() == 0,
            r.cap() == capacity,
    {
        EventChannel { buffer: Vec::new(), dropped: 0, capacity, history: Ghost(Seq::empty()) }
    }

    /// Delivers `msg` to the channel: it is appended to the stream verbatim,
    /// and if the retained window was full its oldest unread message is
    /// dropped rather than blocking the sender.
    pub fn send(&mut self, msg: String)
        requires
            old(self).wf(),
            old(self).log().len() < usize::MAX,
        ensures
            final(self).wf(),
            final(self).log() == old(self).log().push(msg@),
            final(self).cap() == old(self).cap(),
            old(self).log().len() - old(self).oldest() < old(self).cap() ==> final(self).oldest()
                == old(self).oldest(),
            old(self).log().len() - old(self).oldest() == old(self).cap() ==> final(self).oldest()
                == old(self).oldest() + 1,
    {
        let ghost mv = msg@;
        self.buffer.push(msg);
        proof {
            self.history@ = self.history@.push(mv);
        }
        if self.buffer.len() > self.capacity {
            let _ = self.buffer.remove(0);
            self.dropped = self.dropped + 1;
        }
    }

    /// A new, independent subscription, positioned at the end of the stream:
    /// it will see exactly what is delivered after this moment.
    pub fn subscribe(&self) -> (r: EventReceiver)
        requires
            self.wf(),
        ensures
            r.position() == self.log().len(),
    {
        EventReceiver { cursor: self.dropped + self.buffer.len() }
    }

    /// Hands the receiver the next message of the stream, verbatim; tells a
    /// receiver that fell behind the window that it lagged, moving it to the
    /// oldest retained message; reports an empty channel otherwise.
    pub fn recv(&self, rx: &mut EventReceiver) -> (r: RecvOutcome)
        requires
            self.wf(),
        ensures
            final(rx).position() == recv_next_pos(self.log(), self.oldest(), old(rx).position()),
            (r is Message) == recv_is_message(self.log(), self.oldest(), old(rx).position()),
            (r matches RecvOutcome::Message(m) ==> m@ == recv_message(
                self.log(),
                self.oldest(),
                old(rx).position(),
            )),
            (r is Lagged) == (old(rx).position() < self.oldest()),
            (r is Empty) == (old(rx).position() >= self.log().len() && old(rx).position()
                >= self.oldest()),
    {
        if rx.cursor < self.dropped {
            rx.cursor = self.dropped;
            RecvOutcome::Lagged
        } else {
            let total = self.dropped + self.buffer.len();
            if rx.cursor >= total {
                RecvOutcome::Empty
            } else {
                let m = self.buffer[rx.cursor - self.dropped].clone();
                rx.cursor = rx.cursor + 1;
                RecvOutcome::Message(m)
            }
        }
    }
}

// ---------------------------------------------------------------------------
// Laws of delivery
// ---------------------------------------------------------------------------

/// No replay: a receiver's position starts at the stream length of its
/// subscription moment and never moves backwards past it, and any message
/// it is ever handed sits at or after that point in the stream. A receiver
/// subscribed after a message's delivery therefore never sees it.
pub proof fn lemma_no_replay(log: Seq<Seq<char>>, oldest: nat, pos: nat, sub: nat)
    requires
        pos >= sub,
    ensures
        recv_next_pos(log, oldest, pos) >= pos,
        recv_is_message(log, oldest, pos) ==> exists|i: int|
            sub <= i < log.len() && recv_message(log, oldest, pos) == log[i],
{
    if recv_is_message(log, oldest, pos) {
        assert(sub <= pos < log.len() && recv_message(log, oldest, pos) == log[pos as int]);
    }
}

/// A receiver that only ever subscribes and receives sees nothing at the
/// moment it subscribes: the stream end yields no message.
pub proof fn lemma_fresh_receiver_sees_nothing(log: Seq<Seq<char>>, oldest: nat)
    requires
        oldest <= log.len(),
    ensures
        !recv_is_message(log, oldest, log.len()),
        recv_next_pos(log, oldest, log.len()) == log.len(),
{
}

/// The messages a receiver at `pos` collects by receiving until the channel
/// reports empty, with no further deliveries in between.
pub open spec fn drain(log: Seq<Seq<char>>, oldest: nat, pos: nat) -> Seq<Seq<char>>
    decreases log.len() - pos when oldest <= pos <= log.len()
{
    if recv_is_message(log, oldest, pos) {
        seq![recv_message(log, oldest, pos)] + drain(log, oldest, recv_next_pos(log, oldest, pos))
    } else {
        Seq::empty()
    }
}

/// Complete delivery: a receiver that has not fallen behind the retained
/// window and keeps receiving observes exactly the suffix of the stream
/// from its position on — every message, verbatim, in order, none skipped
/// and none repeated.
pub proof fn lemma_live_receiver_sees_all(log: Seq<Seq<char>>, oldest: nat, pos: nat)
    requires
        oldest <= pos <= log.len(),
    ensures
        drain(log, oldest, pos) == log.subrange(pos as int, log.len() as int),
    decreases log.len() - pos,
{
    if recv_is_message(log, oldest, pos) {
        lemma_live_receiver_sees_all(log, oldest, (pos + 1) as nat);
        assert(drain(log, oldest, pos) =~= log.subrange(pos as int, log.len() as int));
    } else {
        assert(log.subrange(pos as int, log.len() as int) =~= Seq::<Seq<char>>::empty());
    }
}

} // verus!
