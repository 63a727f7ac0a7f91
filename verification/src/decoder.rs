//! Turning a live byte stream into messages.
//!
//! The decoder keeps three pieces of state across packets, because MIDI messages
//! and System Exclusive transfers do not respect packet boundaries: the running
//! status, a System Exclusive transfer still arriving, and the bytes collected
//! toward the message in progress. Malformed input is reported as a value rather
//! than discarded, because a monitor exists to show it.
//!
//! The behaviour is stated as a transition function over those three pieces of
//! state ([`step`]); [`MessageDecoder::feed`] is proved to follow it byte by byte.

use crate::constants::MAX_SYSEX_BYTES;
use crate::ids::{combine14, ChannelNumber, Data14, DataByte};
use crate::message::{InvalidReason, MessageModel, MidiMessage};
use crate::text::copy_bytes;
use vstd::prelude::*;

verus! {

/// Status byte beginning a System Exclusive transfer.
pub const SYSEX_START: u8 = 0xF0;

/// Status byte ending a System Exclusive transfer.
pub const SYSEX_END: u8 = 0xF7;

/// Lowest status byte that is a System Real Time message.
pub const REALTIME_START: u8 = 0xF8;

/// Lowest status byte that is a System message.
pub const SYSTEM_START: u8 = 0xF0;

/// One outcome of decoding, as a value.
pub enum DecodedModel {
    Message { message: MessageModel, raw: Seq<u8> },
    Invalid { reason: InvalidReason, raw: Seq<u8> },
    SysexTruncated { raw: Seq<u8>, true_len: nat },
    SysexIncomplete { raw: Seq<u8> },
}

/// One outcome of feeding bytes to a [`MessageDecoder`].
#[derive(Debug, Clone, PartialEq, Eq)]
pub enum Decoded {
    /// A complete, interpretable message, with the bytes exactly as they arrived.
    Message { message: MidiMessage, raw: Vec<u8> },
    /// Bytes that form no valid message.
    Invalid { reason: InvalidReason, raw: Vec<u8> },
    /// A System Exclusive transfer that exceeded what is retained, with its true size.
    SysexTruncated { raw: Vec<u8>, true_len: usize },
    /// A System Exclusive transfer that never completed.
    SysexIncomplete { raw: Vec<u8> },
}

impl Decoded {
    /// The outcome as a value.
    pub open spec fn view(&self) -> DecodedModel {
        match self {
            Decoded::Message { message, raw } => DecodedModel::Message {
                message: message@,
                raw: raw@,
            },
            Decoded::Invalid { reason, raw } => DecodedModel::Invalid { reason: *reason, raw: raw@ },
            Decoded::SysexTruncated { raw, true_len } => DecodedModel::SysexTruncated {
                raw: raw@,
                true_len: *true_len as nat,
            },
            Decoded::SysexIncomplete { raw } => DecodedModel::SysexIncomplete { raw: raw@ },
        }
    }
}

/// The outcomes of a list of decodings, as values.
pub open spec fn decoded_views(v: Seq<Decoded>) -> Seq<DecodedModel> {
    v.map_values(|d: Decoded| d@)
}

/// An in-progress System Exclusive transfer, as a value.
pub struct SysexModel {
    pub bytes: Seq<u8>,
    pub true_len: nat,
    pub truncated: bool,
}

/// The decoder's state, as a value.
pub struct DecoderModel {
    pub running_status: Option<u8>,
    pub sysex: Option<SysexModel>,
    pub pending: Seq<u8>,
    pub implied_status: bool,
}

/// A decoder that has seen nothing.
pub open spec fn fresh_decoder() -> DecoderModel {
    DecoderModel { running_status: None, sysex: None, pending: Seq::empty(), implied_status: false }
}

/// How many data bytes follow a status byte, or `None` if it is unrecognised or
/// is a System Real Time or System Exclusive status, which carry none of their own.
pub open spec fn data_len_of(status: u8) -> Option<nat> {
    if status < 0x80 {
        None
    } else if status < SYSTEM_START {
        let kind = status & 0xF0;
        if kind == 0xC0 || kind == 0xD0 {
            Some(1)
        } else {
            Some(2)
        }
    } else if status == 0xF1 || status == 0xF3 {
        Some(1)
    } else if status == 0xF2 {
        Some(2)
    } else if status == 0xF6 {
        Some(0)
    } else {
        None
    }
}

/// The outcome of a System Real Time status, which carries no data bytes.
pub open spec fn realtime_outcome(status: u8) -> DecodedModel {
    let message = if status == 0xF8 {
        Some(MessageModel::Clock)
    } else if status == 0xFA {
        Some(MessageModel::Start)
    } else if status == 0xFB {
        Some(MessageModel::Continue)
    } else if status == 0xFC {
        Some(MessageModel::Stop)
    } else if status == 0xFE {
        Some(MessageModel::ActiveSense)
    } else if status == 0xFF {
        Some(MessageModel::Reset)
    } else {
        None
    };
    match message {
        Some(m) => DecodedModel::Message { message: m, raw: seq![status] },
        None => DecodedModel::Invalid { reason: InvalidReason::UnknownStatus, raw: seq![status] },
    }
}

/// The outcome of a System Common status that carries no data bytes.
pub open spec fn system_common_outcome(status: u8) -> DecodedModel {
    if status == 0xF6 {
        DecodedModel::Message { message: MessageModel::TuneRequest, raw: seq![status] }
    } else {
        DecodedModel::Invalid { reason: InvalidReason::UnknownStatus, raw: seq![status] }
    }
}

/// The interpretation of a status byte followed by exactly the data bytes it
/// requires. A `Note On` with velocity zero is a release by convention.
pub open spec fn interpret(status: u8, first: u8, second: u8) -> Option<MessageModel> {
    if status >= SYSTEM_START {
        if status == 0xF1 {
            Some(MessageModel::TimeCode { data: first & 0x7F })
        } else if status == 0xF2 {
            Some(MessageModel::SongPositionPointer { position: combine14(first, second) & 0x3FFF })
        } else if status == 0xF3 {
            Some(MessageModel::SongSelect { song: first & 0x7F })
        } else {
            None
        }
    } else {
        let channel = ((status & 0x0F) + 1) as u8;
        let kind = status & 0xF0;
        if kind == 0x80 {
            Some(MessageModel::NoteOff { channel, note: first & 0x7F, velocity: second & 0x7F })
        } else if kind == 0x90 && second == 0 {
            Some(MessageModel::NoteOff { channel, note: first & 0x7F, velocity: 0 })
        } else if kind == 0x90 {
            Some(MessageModel::NoteOn { channel, note: first & 0x7F, velocity: second & 0x7F })
        } else if kind == 0xA0 {
            Some(
                MessageModel::AftertouchPoly { channel, note: first & 0x7F, pressure: second & 0x7F },
            )
        } else if kind == 0xB0 {
            Some(MessageModel::Control { channel, controller: first & 0x7F, value: second & 0x7F })
        } else if kind == 0xC0 {
            Some(MessageModel::Program { channel, program: first & 0x7F })
        } else if kind == 0xD0 {
            Some(MessageModel::ChannelPressure { channel, pressure: first & 0x7F })
        } else if kind == 0xE0 {
            Some(MessageModel::PitchWheel { channel, value: combine14(first, second) & 0x3FFF })
        } else {
            None
        }
    }
}

/// The byte at `i`, or zero past the end.
pub open spec fn byte_or_zero(s: Seq<u8>, i: int) -> u8 {
    if 0 <= i < s.len() {
        s[i]
    } else {
        0
    }
}

/// The outcome of a complete status-plus-data sequence, reported with the bytes
/// that actually arrived on the wire.
pub open spec fn complete_outcome(full: Seq<u8>, wire: Seq<u8>) -> DecodedModel {
    if full.len() == 0 {
        DecodedModel::Invalid { reason: InvalidReason::TruncatedData, raw: wire }
    } else {
        match interpret(full[0], byte_or_zero(full, 1), byte_or_zero(full, 2)) {
            Some(m) => DecodedModel::Message { message: m, raw: wire },
            None => DecodedModel::Invalid { reason: InvalidReason::UnknownStatus, raw: wire },
        }
    }
}

/// A transfer that has just begun at its `F0` byte.
pub open spec fn sysex_begun() -> SysexModel {
    SysexModel { bytes: seq![SYSEX_START], true_len: 1, truncated: false }
}

/// One byte added to a transfer: always counted, kept only under the ceiling.
pub open spec fn sysex_push(acc: SysexModel, byte: u8) -> SysexModel {
    let true_len = if acc.true_len < usize::MAX { acc.true_len + 1 } else { acc.true_len };
    if acc.bytes.len() < MAX_SYSEX_BYTES {
        SysexModel { bytes: acc.bytes.push(byte), true_len, truncated: acc.truncated }
    } else {
        SysexModel { bytes: acc.bytes, true_len, truncated: true }
    }
}

/// A transfer completed at its `F7` byte.
pub open spec fn sysex_finish(acc: SysexModel) -> DecodedModel {
    let done = sysex_push(acc, SYSEX_END);
    if done.truncated {
        DecodedModel::SysexTruncated { raw: done.bytes, true_len: done.true_len }
    } else {
        DecodedModel::Message {
            message: MessageModel::SystemExclusive {
                payload: if done.bytes.len() >= 2 {
                    done.bytes.subrange(1, done.bytes.len() - 1)
                } else {
                    Seq::empty()
                },
            },
            raw: done.bytes,
        }
    }
}

/// The bytes of the unfinished message that arrived on the wire: under
/// running status the status byte never did.
pub open spec fn pending_wire(s: DecoderModel) -> Seq<u8> {
    if s.implied_status {
        s.pending.drop_first()
    } else {
        s.pending
    }
}

/// How an unfinished message is reported when something cuts it short: as
/// truncated data carrying the bytes that arrived, or nothing when no message
/// is unfinished.
pub open spec fn cut_short(s: DecoderModel) -> Seq<DecodedModel> {
    if s.pending.len() == 0 {
        Seq::empty()
    } else {
        seq![DecodedModel::Invalid { reason: InvalidReason::TruncatedData, raw: pending_wire(s) }]
    }
}

/// The decoder after a status byte that begins something, with what it
/// completed: an unfinished message it cuts short first, then the status's own
/// outcome.
pub open spec fn begin_status(s: DecoderModel, status: u8) -> (DecoderModel, Seq<DecodedModel>) {
    let (next, outs) = begin_fresh(s, status);
    (next, cut_short(s) + outs)
}

/// The decoder after a status byte that begins something, leaving aside what
/// was pending.
pub open spec fn begin_fresh(s: DecoderModel, status: u8) -> (DecoderModel, Seq<DecodedModel>) {
    if status == SYSEX_START {
        (
            DecoderModel {
                running_status: None,
                sysex: Some(sysex_begun()),
                pending: Seq::empty(),
                implied_status: false,
            },
            Seq::empty(),
        )
    } else if status >= SYSTEM_START {
        let cleared = DecoderModel {
            running_status: None,
            sysex: s.sysex,
            pending: Seq::empty(),
            implied_status: false,
        };
        match data_len_of(status) {
            Some(n) => if n == 0 {
                (cleared, seq![system_common_outcome(status)])
            } else {
                (DecoderModel { pending: seq![status], ..cleared }, Seq::empty())
            },
            None => (
                cleared,
                seq![DecodedModel::Invalid { reason: InvalidReason::UnknownStatus, raw: seq![status] }],
            ),
        }
    } else {
        (
            DecoderModel {
                running_status: Some(status),
                sysex: s.sysex,
                pending: seq![status],
                implied_status: false,
            },
            Seq::empty(),
        )
    }
}

/// The decoder after a data byte outside a System Exclusive transfer.
///
/// With nothing pending, the running status applies and the status byte is not
/// on the wire, so the reported bytes omit it.
pub open spec fn data_byte(s: DecoderModel, byte: u8) -> (DecoderModel, Seq<DecodedModel>) {
    if s.pending.len() == 0 && s.running_status is None {
        (s, seq![DecodedModel::Invalid { reason: InvalidReason::UnknownStatus, raw: seq![byte] }])
    } else {
        let (started, implied) = if s.pending.len() == 0 {
            (seq![s.running_status->0], true)
        } else {
            (s.pending, s.implied_status)
        };
        let pending = started.push(byte);
        let status = pending[0];
        match data_len_of(status) {
            Some(n) => if pending.len() == n + 1 {
                let wire = if implied { pending.drop_first() } else { pending };
                (
                    DecoderModel { pending: Seq::empty(), implied_status: false, ..s },
                    seq![complete_outcome(pending, wire)],
                )
            } else {
                (DecoderModel { pending, implied_status: implied, ..s }, Seq::empty())
            },
            None => (DecoderModel { pending, implied_status: implied, ..s }, Seq::empty()),
        }
    }
}

/// The decoder after one byte, with every outcome that byte completed.
///
/// System Real Time bytes are handled first at every position: they may appear
/// inside another message, even inside a System Exclusive transfer, without
/// interrupting it.
pub open spec fn step(s: DecoderModel, byte: u8) -> (DecoderModel, Seq<DecodedModel>) {
    if byte >= REALTIME_START {
        (s, seq![realtime_outcome(byte)])
    } else if s.sysex is Some {
        let acc = s.sysex->0;
        if byte == SYSEX_END {
            (DecoderModel { sysex: None, ..s }, seq![sysex_finish(acc)])
        } else if byte < 0x80 {
            (DecoderModel { sysex: Some(sysex_push(acc, byte)), ..s }, Seq::empty())
        } else {
            let (next, outs) = begin_status(DecoderModel { sysex: None, ..s }, byte);
            (next, seq![DecodedModel::SysexIncomplete { raw: acc.bytes }] + outs)
        }
    } else if byte >= 0x80 {
        begin_status(s, byte)
    } else {
        data_byte(s, byte)
    }
}

/// The decoder after a run of bytes, with every outcome in arrival order.
pub open spec fn feed(s: DecoderModel, bytes: Seq<u8>) -> (DecoderModel, Seq<DecodedModel>)
    decreases bytes.len(),
{
    if bytes.len() == 0 {
        (s, Seq::empty())
    } else {
        let (mid, earlier) = feed(s, bytes.drop_last());
        let (end, later) = step(mid, bytes.last());
        (end, earlier + later)
    }
}

/// The decoder after giving up on whatever is in progress, with what it
/// abandoned: an unterminated transfer, or an unfinished message as truncated
/// data, if there was one.
pub open spec fn abandon(s: DecoderModel) -> (DecoderModel, Option<DecodedModel>) {
    (
        fresh_decoder(),
        match s.sysex {
            Some(acc) => Some(DecodedModel::SysexIncomplete { raw: acc.bytes }),
            None => if s.pending.len() == 0 {
                None
            } else {
                Some(
                    DecodedModel::Invalid {
                        reason: InvalidReason::TruncatedData,
                        raw: pending_wire(s),
                    },
                )
            },
        },
    )
}

/// An in-progress System Exclusive transfer.
#[derive(Debug, Clone, Default)]
struct SysexAccumulator {
    bytes: Vec<u8>,
    true_len: usize,
    truncated: bool,
}

impl SysexAccumulator {
    spec fn view(&self) -> SysexModel {
        SysexModel { bytes: self.bytes@, true_len: self.true_len as nat, truncated: self.truncated }
    }

    /// Begins a transfer at its `F0` framing byte.
    fn begin() -> (acc: Self)
        ensures
            acc@ == sysex_begun(),
    {
        let mut bytes: Vec<u8> = Vec::new();
        bytes.push(SYSEX_START);
        let acc = Self { bytes, true_len: 1, truncated: false };
        assert(acc@.bytes =~= sysex_begun().bytes);
        acc
    }

    /// Adds one byte, keeping it only while under the ceiling.
    fn push(&mut self, byte: u8)
        ensures
            final(self)@ == sysex_push(old(self)@, byte),
    {
        self.true_len = self.true_len.saturating_add(1);
        if self.bytes.len() < MAX_SYSEX_BYTES {
            self.bytes.push(byte);
        } else {
            self.truncated = true;
        }
    }

    /// Completes the transfer at its `F7` framing byte.
    fn finish(self) -> (d: Decoded)
        ensures
            d@ == sysex_finish(self@),
    {
        let mut acc = self;
        acc.push(SYSEX_END);
        if acc.truncated {
            return Decoded::SysexTruncated { raw: acc.bytes, true_len: acc.true_len };
        }
        let len = acc.bytes.len();
        let payload = if len >= 2 {
            copy_range(&acc.bytes, 1, len - 1)
        } else {
            Vec::new()
        };
        proof {
            if len < 2 {
                assert(payload@ =~= Seq::<u8>::empty());
            }
        }
        Decoded::Message { message: MidiMessage::SystemExclusive { payload }, raw: acc.bytes }
    }
}

/// A copy of `bytes[from..to]`.
fn copy_range(bytes: &Vec<u8>, from: usize, to: usize) -> (r: Vec<u8>)
    requires
        from <= to <= bytes@.len(),
    ensures
        r@ == bytes@.subrange(from as int, to as int),
{
    let mut r: Vec<u8> = Vec::new();
    let mut i = from;
    while i < to
        invariant
            from <= i <= to,
            to <= bytes@.len(),
            r@ == bytes@.subrange(from as int, i as int),
        decreases to - i,
    {
        r.push(bytes[i]);
        i = i + 1;
        assert(r@ =~= bytes@.subrange(from as int, i as int));
    }
    r
}

/// Decodes one source's byte stream into messages.
#[derive(Debug, Default)]
pub struct MessageDecoder {
    running_status: Option<u8>,
    sysex: Option<SysexAccumulator>,
    pending: Vec<u8>,
    implied_status: bool,
}

impl MessageDecoder {
    /// The decoder's state as a value.
    pub closed spec fn view(&self) -> DecoderModel {
        DecoderModel {
            running_status: self.running_status,
            sysex: match self.sysex {
                Some(acc) => Some(acc@),
                None => None,
            },
            pending: self.pending@,
            implied_status: self.implied_status,
        }
    }

    /// A decoder with no stream state.
    pub fn new() -> (d: Self)
        ensures
            d@ == fresh_decoder(),
    {
        let d = Self { running_status: None, sysex: None, pending: Vec::new(), implied_status: false };
        assert(d@.pending =~= fresh_decoder().pending);
        d
    }

    /// Feeds one packet, returning every outcome it completed, in arrival order.
    pub fn feed(&mut self, bytes: &[u8]) -> (out: Vec<Decoded>)
        ensures
            (final(self)@, decoded_views(out@)) == feed(old(self)@, bytes@),
    {
        let mut out: Vec<Decoded> = Vec::new();
        let mut i: usize = 0;
        while i < bytes.len()
            invariant
                i <= bytes@.len(),
                (self@, decoded_views(out@)) == feed(old(self)@, bytes@.take(i as int)),
            decreases bytes@.len() - i,
        {
            let ghost before = decoded_views(out@);
            let ghost state = self@;
            self.step(bytes[i], &mut out);
            proof {
                assert(bytes@.take(i + 1).drop_last() =~= bytes@.take(i as int));
                assert(bytes@.take(i + 1).last() == bytes@[i as int]);
            }
            i = i + 1;
        }
        assert(bytes@.take(i as int) =~= bytes@);
        out
    }

    /// Handles one byte, appending whatever it completes.
    fn step(&mut self, byte: u8, out: &mut Vec<Decoded>)
        ensures
            final(self)@ == step(old(self)@, byte).0,
            decoded_views(final(out)@) == decoded_views(old(out)@) + step(old(self)@, byte).1,
    {
        let ghost views = decoded_views(out@);
        if byte >= REALTIME_START {
            push_outcome(out, Self::realtime(byte));
            return;
        }
        if self.sysex.is_some() {
            if byte == SYSEX_END {
                let finished = self.sysex.take().unwrap();
                push_outcome(out, finished.finish());
            } else if byte < 0x80 {
                let mut acc = self.sysex.take().unwrap();
                acc.push(byte);
                self.sysex = Some(acc);
            } else {
                let abandoned = self.sysex.take().unwrap();
                push_outcome(out, Decoded::SysexIncomplete { raw: abandoned.bytes });
                let ghost mid = decoded_views(out@);
                self.begin_status(byte, out);
                proof {
                    assert(decoded_views(out@) =~= views + step(old(self)@, byte).1);
                }
            }
            return;
        }
        if byte >= 0x80 {
            self.begin_status(byte, out);
        } else {
            self.data_byte(byte, out);
        }
    }

    /// Abandons whatever is in progress, reporting an unterminated transfer or
    /// an unfinished message if there was one.
    pub fn abandon(&mut self) -> (r: Option<Decoded>)
        ensures
            final(self)@ == abandon(old(self)@).0,
            match r {
                Some(d) => abandon(old(self)@).1 == Some(d@),
                None => abandon(old(self)@).1 is None,
            },
    {
        let unfinished = self.unfinished();
        self.pending.clear();
        self.running_status = None;
        self.implied_status = false;
        let r = match self.sysex.take() {
            Some(acc) => Some(Decoded::SysexIncomplete { raw: acc.bytes }),
            None => unfinished,
        };
        assert(self@.pending =~= fresh_decoder().pending);
        r
    }

    /// The unfinished message, reported as truncated data, if one is pending.
    fn unfinished(&self) -> (r: Option<Decoded>)
        ensures
            match r {
                Some(d) => self@.pending.len() > 0 && d@ == cut_short(self@)[0],
                None => self@.pending.len() == 0,
            },
    {
        if self.pending.len() == 0 {
            return None;
        }
        let raw = if self.implied_status {
            copy_range(&self.pending, 1, self.pending.len())
        } else {
            copy_bytes(self.pending.as_slice())
        };
        proof {
            assert(self@.pending.drop_first() =~= self@.pending.subrange(1, self@.pending.len() as int));
        }
        Some(Decoded::Invalid { reason: InvalidReason::TruncatedData, raw })
    }

    /// Handles a status byte that begins something.
    fn begin_status(&mut self, status: u8, out: &mut Vec<Decoded>)
        requires
            status >= 0x80,
            status < REALTIME_START,
        ensures
            final(self)@ == begin_status(old(self)@, status).0,
            decoded_views(final(out)@) == decoded_views(old(out)@) + begin_status(old(self)@, status).1,
    {
        let ghost before = decoded_views(out@);
        match self.unfinished() {
            Some(d) => push_outcome(out, d),
            None => {},
        }
        let ghost views = decoded_views(out@);
        proof {
            assert(views =~= before + cut_short(old(self)@));
        }
        self.begin_fresh(status, out);
        proof {
            assert(decoded_views(out@) =~= before + begin_status(old(self)@, status).1);
        }
    }

    /// Handles a status byte that begins something, leaving aside what was
    /// pending.
    fn begin_fresh(&mut self, status: u8, out: &mut Vec<Decoded>)
        requires
            status >= 0x80,
            status < REALTIME_START,
        ensures
            final(self)@ == begin_fresh(old(self)@, status).0,
            decoded_views(final(out)@) == decoded_views(old(out)@) + begin_fresh(old(self)@, status).1,
    {
        let ghost views = decoded_views(out@);
        self.pending.clear();
        self.implied_status = false;
        if status == SYSEX_START {
            self.running_status = None;
            self.sysex = Some(SysexAccumulator::begin());
            assert(decoded_views(out@) =~= views + begin_fresh(old(self)@, status).1);
            assert(self@.pending =~= begin_fresh(old(self)@, status).0.pending);
            return;
        }
        if status >= SYSTEM_START {
            self.running_status = None;
            match expected_data_len(status) {
                Some(0) => push_outcome(out, system_common(status)),
                Some(_) => self.pending.push(status),
                None => push_outcome(
                    out,
                    Decoded::Invalid { reason: InvalidReason::UnknownStatus, raw: single(status) },
                ),
            }
            assert(decoded_views(out@) =~= views + begin_fresh(old(self)@, status).1);
            assert(self@.pending =~= begin_fresh(old(self)@, status).0.pending);
            return;
        }
        self.running_status = Some(status);
        self.pending.push(status);
        assert(decoded_views(out@) =~= views + begin_fresh(old(self)@, status).1);
        assert(self@.pending =~= begin_fresh(old(self)@, status).0.pending);
    }

    /// Handles a data byte, completing a message when enough have arrived.
    fn data_byte(&mut self, byte: u8, out: &mut Vec<Decoded>)
        requires
            byte < 0x80,
        ensures
            final(self)@ == data_byte(old(self)@, byte).0,
            decoded_views(final(out)@) == decoded_views(old(out)@) + data_byte(old(self)@, byte).1,
    {
        let ghost views = decoded_views(out@);
        if self.pending.len() == 0 {
            match self.running_status {
                None => {
                    push_outcome(
                        out,
                        Decoded::Invalid { reason: InvalidReason::UnknownStatus, raw: single(byte) },
                    );
                    return;
                },
                Some(status) => {
                    self.pending.push(status);
                    self.implied_status = true;
                },
            }
        }
        self.pending.push(byte);
        proof {
            let sp = old(self)@;
            let (started, implied) = if sp.pending.len() == 0 {
                (seq![sp.running_status->0], true)
            } else {
                (sp.pending, sp.implied_status)
            };
            assert(self.pending@ =~= started.push(byte));
            assert(self.implied_status == implied);
        }
        let status = self.pending[0];
        match expected_data_len(status) {
            None => {
                assert(self@.pending =~= data_byte(old(self)@, byte).0.pending);
                assert(decoded_views(out@) =~= views + data_byte(old(self)@, byte).1);
            },
            Some(expected) => {
                if self.pending.len() == expected + 1 {
                    let ghost was_implied = self.implied_status;
                    let full = copy_bytes(self.pending.as_slice());
                    self.pending.clear();
                    let wire = if self.implied_status {
                        copy_range(&full, 1, full.len())
                    } else {
                        copy_bytes(full.as_slice())
                    };
                    self.implied_status = false;
                    let outcome = decode_complete(&full, wire);
                    push_outcome(out, outcome);
                    proof {
                        assert(full@.drop_first() =~= full@.subrange(1, full@.len() as int));
                        assert(wire@ == if was_implied { full@.drop_first() } else { full@ });
                    }
                    assert(self@.pending =~= data_byte(old(self)@, byte).0.pending);
                    assert(decoded_views(out@) =~= views + data_byte(old(self)@, byte).1);
                } else {
                    assert(self@.pending =~= data_byte(old(self)@, byte).0.pending);
                    assert(decoded_views(out@) =~= views + data_byte(old(self)@, byte).1);
                }
            },
        }
    }

    /// A System Real Time message, which carries no data bytes.
    fn realtime(status: u8) -> (d: Decoded)
        ensures
            d@ == realtime_outcome(status),
    {
        let message = match status {
            0xF8 => MidiMessage::Clock,
            0xFA => MidiMessage::Start,
            0xFB => MidiMessage::Continue,
            0xFC => MidiMessage::Stop,
            0xFE => MidiMessage::ActiveSense,
            0xFF => MidiMessage::Reset,
            other => {
                return Decoded::Invalid { reason: InvalidReason::UnknownStatus, raw: single(other) };
            },
        };
        Decoded::Message { message, raw: single(status) }
    }
}

/// Appends one outcome.
fn push_outcome(out: &mut Vec<Decoded>, d: Decoded)
    ensures
        decoded_views(final(out)@) == decoded_views(old(out)@).push(d@),
{
    out.push(d);
    assert(decoded_views(out@) =~= decoded_views(old(out)@).push(d@));
}

/// A one-byte buffer.
fn single(byte: u8) -> (v: Vec<u8>)
    ensures
        v@ == seq![byte],
{
    let mut v: Vec<u8> = Vec::new();
    v.push(byte);
    assert(v@ =~= seq![byte]);
    v
}

/// A System Common message that carries no data bytes.
fn system_common(status: u8) -> (d: Decoded)
    ensures
        d@ == system_common_outcome(status),
{
    if status == 0xF6 {
        Decoded::Message { message: MidiMessage::TuneRequest, raw: single(status) }
    } else {
        Decoded::Invalid { reason: InvalidReason::UnknownStatus, raw: single(status) }
    }
}

/// How many data bytes follow this status byte, or `None` if it is not a status
/// this application can measure: a data byte, a System Exclusive or System Real
/// Time status, or an unrecognised one.
pub fn expected_data_len(status: u8) -> (n: Option<usize>)
    ensures
        match n {
            Some(k) => data_len_of(status) == Some(k as nat) && k <= 2,
            None => data_len_of(status) is None,
        },
{
    if status < 0x80 {
        return None;
    }
    if status < SYSTEM_START {
        let kind = status & 0xF0;
        return if kind == 0xC0 || kind == 0xD0 {
            Some(1)
        } else {
            Some(2)
        };
    }
    match status {
        0xF1 | 0xF3 => Some(1),
        0xF2 => Some(2),
        0xF6 => Some(0),
        _ => None,
    }
}

/// Interprets a complete status-plus-data sequence, reporting `wire` as the bytes
/// that arrived.
fn decode_complete(full: &Vec<u8>, wire: Vec<u8>) -> (d: Decoded)
    ensures
        d@ == complete_outcome(full@, wire@),
{
    if full.len() == 0 {
        return Decoded::Invalid { reason: InvalidReason::TruncatedData, raw: wire };
    }
    let status = full[0];
    let first = if full.len() > 1 { full[1] } else { 0 };
    let second = if full.len() > 2 { full[2] } else { 0 };
    if status >= SYSTEM_START {
        let message = match status {
            0xF1 => MidiMessage::TimeCode { data: DataByte::from_masked(first) },
            0xF2 => MidiMessage::SongPositionPointer {
                position: Data14::from_masked(pair14(first, second)),
            },
            0xF3 => MidiMessage::SongSelect { song: DataByte::from_masked(first) },
            _ => {
                return Decoded::Invalid { reason: InvalidReason::UnknownStatus, raw: wire };
            },
        };
        return Decoded::Message { message, raw: wire };
    }
    let channel = ChannelNumber::from_wire_nibble(status & 0x0F);
    proof {
        assert((status & 0x0F) & 0x0F == status & 0x0F) by (bit_vector);
    }
    let note = DataByte::from_masked(first);
    let kind = status & 0xF0;
    let message = if kind == 0x80 {
        MidiMessage::NoteOff { channel, note, velocity: DataByte::from_masked(second) }
    } else if kind == 0x90 && second == 0 {
        MidiMessage::NoteOff { channel, note, velocity: DataByte::zero() }
    } else if kind == 0x90 {
        MidiMessage::NoteOn { channel, note, velocity: DataByte::from_masked(second) }
    } else if kind == 0xA0 {
        MidiMessage::AftertouchPoly { channel, note, pressure: DataByte::from_masked(second) }
    } else if kind == 0xB0 {
        MidiMessage::Control { channel, controller: note, value: DataByte::from_masked(second) }
    } else if kind == 0xC0 {
        MidiMessage::Program { channel, program: note }
    } else if kind == 0xD0 {
        MidiMessage::ChannelPressure { channel, pressure: note }
    } else if kind == 0xE0 {
        MidiMessage::PitchWheel { channel, value: Data14::from_masked(pair14(first, second)) }
    } else {
        return Decoded::Invalid { reason: InvalidReason::UnknownStatus, raw: wire };
    };
    Decoded::Message { message, raw: wire }
}

/// The fourteen-bit value two data bytes carry, least significant first.
fn pair14(least: u8, most: u8) -> (v: u16)
    ensures
        v == combine14(least, most),
{
    ((least & 0x7F) as u16) | (((most & 0x7F) as u16) << 7)
}

} // verus!
