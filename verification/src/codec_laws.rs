//! What the encoder and the decoder promise about each other.
//!
//! The send screen validates hand-typed bytes with the same decoder the monitor
//! uses, and shows as its preview exactly the bytes the encoder produces. These
//! laws are what make those two choices sound: every message the encoder can
//! emit is read back by the decoder as that same message, with the same bytes.

use crate::constants::MAX_SYSEX_BYTES;
use crate::decoder::{
    abandon, data_len_of, feed, fresh_decoder, interpret, realtime_outcome,
    step, sysex_begun, sysex_push, DecodedModel, DecoderModel, SysexModel,
};
use crate::encoder::{encoding, status_byte};
use crate::ids::{combine14, lsb7, msb7};
use crate::message::{MessageKind, MessageModel};
use vstd::prelude::*;

verus! {

/// How a receiver reports a message: a `Note On` with velocity zero is reported
/// as the release it conventionally means.
pub open spec fn as_received(m: MessageModel) -> MessageModel {
    match m {
        MessageModel::NoteOn { channel, note, velocity } => if velocity == 0 {
            MessageModel::NoteOff { channel, note, velocity: 0 }
        } else {
            m
        },
        _ => m,
    }
}

/// A message the encoder can emit and a receiver can take in whole: well formed,
/// not invalid, and, for System Exclusive, a payload of data bytes that fits
/// under the retention ceiling with its framing.
pub open spec fn transmittable(m: MessageModel) -> bool {
    &&& m.wf()
    &&& !(m is Invalid)
    &&& (m matches MessageModel::SystemExclusive { payload } ==> payload.len() + 2 <= MAX_SYSEX_BYTES
        && forall|i: int| 0 <= i < payload.len() ==> #[trigger] payload[i] < 0x80)
}

/// A System Real Time byte leaves the decoder exactly as it was, whatever it was
/// in the middle of, and is reported on its own.
pub proof fn lemma_realtime_disturbs_nothing(s: DecoderModel, byte: u8)
    requires
        byte >= 0xF8,
    ensures
        step(s, byte) == (s, seq![realtime_outcome(byte)]),
{
}

/// Feeding two runs of bytes one after the other is feeding their concatenation.
pub proof fn lemma_feed_append(s: DecoderModel, a: Seq<u8>, b: Seq<u8>)
    ensures
        feed(s, a + b) == ({
            let (mid, first) = feed(s, a);
            let (end, second) = feed(mid, b);
            (end, first + second)
        }),
    decreases b.len(),
{
    if b.len() == 0 {
        assert(a + b =~= a);
        let (mid, first) = feed(s, a);
        assert(first + Seq::<DecodedModel>::empty() =~= first);
    } else {
        lemma_feed_append(s, a, b.drop_last());
        assert((a + b).drop_last() =~= a + b.drop_last());
        assert((a + b).last() == b.last());
        let (mid, first) = feed(s, a);
        let (m2, second) = feed(mid, b.drop_last());
        let (end, third) = step(m2, b.last());
        assert(first + second + third =~= first + (second + third));
    }
}

proof fn lemma_sysex_payload(s: DecoderModel, p: Seq<u8>)
    requires
        s.sysex is Some,
        !s.sysex->0.truncated,
        s.sysex->0.bytes.len() + p.len() <= MAX_SYSEX_BYTES,
        s.sysex->0.true_len + p.len() < usize::MAX,
        forall|i: int| 0 <= i < p.len() ==> #[trigger] p[i] < 0x80,
    ensures
        feed(s, p) == (
            DecoderModel {
                sysex: Some(
                    SysexModel {
                        bytes: s.sysex->0.bytes + p,
                        true_len: s.sysex->0.true_len + p.len(),
                        truncated: false,
                    },
                ),
                ..s
            },
            Seq::<DecodedModel>::empty(),
        ),
    decreases p.len(),
{
    let acc = s.sysex->0;
    if p.len() == 0 {
        assert(acc.bytes + p =~= acc.bytes);
        assert(s == DecoderModel { sysex: Some(SysexModel { bytes: acc.bytes + p, true_len: acc.true_len + p.len(), truncated: false }), ..s });
    } else {
        let q = p.drop_last();
        assert forall|i: int| 0 <= i < q.len() implies #[trigger] q[i] < 0x80 by {
            assert(q[i] == p[i]);
        }
        lemma_sysex_payload(s, q);
        assert(p.last() == p[p.len() - 1]);
        assert(acc.bytes + q + seq![p.last()] =~= acc.bytes + p);
        assert((acc.bytes + q).push(p.last()) =~= acc.bytes + p);
    }
}

proof fn lemma_channel_status(base: u8, channel: u8)
    requires
        base == 0x80 || base == 0x90 || base == 0xA0 || base == 0xB0 || base == 0xC0 || base
            == 0xD0 || base == 0xE0,
        1 <= channel <= 16,
    ensures
        status_byte(base, channel) & 0xF0 == base,
        ((status_byte(base, channel) & 0x0F) + 1) as u8 == channel,
        0x80 <= status_byte(base, channel) < 0xF0,
{
    let c = (channel - 1) as u8;
    assert(c < 16);
    assert(status_byte(base, channel) == base | c);
    assert((base | c) & 0xF0 == base && (base | c) & 0x0F == c && 0x80 <= (base | c) && (base | c)
        < 0xF0) by (bit_vector)
        requires
            base == 0x80 || base == 0x90 || base == 0xA0 || base == 0xB0 || base == 0xC0 || base
                == 0xD0 || base == 0xE0,
            c < 16,
    ;
}

proof fn lemma_data(x: u8)
    requires
        x <= 127,
    ensures
        x & 0x7F == x,
        x < 0x80,
{
    assert(x <= 127 ==> x & 0x7F == x) by (bit_vector);
}

proof fn lemma_fourteen(v: u16)
    requires
        v <= 16383,
    ensures
        combine14(lsb7(v), msb7(v)) & 0x3FFF == v,
        lsb7(v) < 0x80,
        msb7(v) < 0x80,
{
    assert(v <= 16383 ==> (((((v & 0x7F) as u8) & 0x7F) as u16) | (((((v >> 7) & 0x7F) as u8
        & 0x7F) as u16) << 7)) & 0x3FFF == v) by (bit_vector);
    assert(((v & 0x7F) as u8) < 0x80) by (bit_vector);
    assert((((v >> 7) & 0x7F) as u8) < 0x80) by (bit_vector);
}

proof fn lemma_three_bytes(a: u8, b: u8, c: u8)
    requires
        0x80 <= a < 0xF0,
        b < 0x80,
        c < 0x80,
        data_len_of(a) == Some(2nat),
    ensures
        feed(fresh_decoder(), seq![a, b, c]).1 == seq![
            DecodedModel::Message { message: interpret(a, b, c)->0, raw: seq![a, b, c] },
        ] || interpret(a, b, c) is None,
        feed(fresh_decoder(), seq![a, b, c]).0.sysex is None,
        feed(fresh_decoder(), seq![a, b, c]).0.pending.len() == 0,
{
    reveal_with_fuel(feed, 4);
    assert(seq![a, b, c].drop_last() =~= seq![a, b]);
    assert(seq![a, b].drop_last() =~= seq![a]);
    assert(seq![a].drop_last() =~= Seq::<u8>::empty());
    let s1 = step(fresh_decoder(), a).0;
    assert(s1.pending =~= seq![a]);
    let s2 = step(s1, b).0;
    assert(s2.pending =~= seq![a, b]);
    assert(step(s1, b).1 =~= Seq::<DecodedModel>::empty());
    assert(step(s2, c).0.sysex is None);
    assert(seq![a, b].push(c) =~= seq![a, b, c]);
}

proof fn lemma_two_bytes(a: u8, b: u8)
    requires
        0x80 <= a < 0xF8,
        a != 0xF0,
        b < 0x80,
        data_len_of(a) == Some(1nat),
    ensures
        feed(fresh_decoder(), seq![a, b]).1 == seq![
            DecodedModel::Message { message: interpret(a, b, 0)->0, raw: seq![a, b] },
        ] || interpret(a, b, 0) is None,
        feed(fresh_decoder(), seq![a, b]).0.sysex is None,
        feed(fresh_decoder(), seq![a, b]).0.pending.len() == 0,
{
    reveal_with_fuel(feed, 3);
    assert(seq![a, b].drop_last() =~= seq![a]);
    assert(seq![a].drop_last() =~= Seq::<u8>::empty());
    let s1 = step(fresh_decoder(), a).0;
    assert(s1.pending =~= seq![a]);
    assert(step(fresh_decoder(), a).1 =~= Seq::<DecodedModel>::empty());
    assert(seq![a].push(b) =~= seq![a, b]);
}

proof fn lemma_one_byte(a: u8)
    requires
        0xF6 <= a,
        a != 0xF7,
    ensures
        feed(fresh_decoder(), seq![a]) == step(fresh_decoder(), a),
{
    reveal_with_fuel(feed, 2);
    assert(seq![a].drop_last() =~= Seq::<u8>::empty());
    let (x, y) = step(fresh_decoder(), a);
    assert(Seq::<DecodedModel>::empty() + y =~= y);
}

/// Every message the encoder can emit is read back by a fresh decoder as that
/// same message, reported with exactly the encoded bytes, and leaves nothing
/// half-received behind. The one reinterpretation is the conventional one: a
/// `Note On` with velocity zero is read as a `Note Off`.
pub proof fn lemma_decode_encoding(m: MessageModel)
    requires
        transmittable(m),
    ensures
        ({
            let bytes = encoding(m)->0;
            let (s, outs) = feed(fresh_decoder(), bytes);
            &&& outs == seq![DecodedModel::Message { message: as_received(m), raw: bytes }]
            &&& abandon(s).1 is None
        }),
{
    let bytes = encoding(m)->0;
    match m {
        MessageModel::NoteOff { channel, note, velocity } => {
            lemma_channel_status(0x80, channel);
            lemma_data(note);
            lemma_data(velocity);
            lemma_three_bytes(status_byte(0x80, channel), note, velocity);
        },
        MessageModel::NoteOn { channel, note, velocity } => {
            lemma_channel_status(0x90, channel);
            lemma_data(note);
            lemma_data(velocity);
            lemma_three_bytes(status_byte(0x90, channel), note, velocity);
        },
        MessageModel::AftertouchPoly { channel, note, pressure } => {
            lemma_channel_status(0xA0, channel);
            lemma_data(note);
            lemma_data(pressure);
            lemma_three_bytes(status_byte(0xA0, channel), note, pressure);
        },
        MessageModel::Control { channel, controller, value } => {
            lemma_channel_status(0xB0, channel);
            lemma_data(controller);
            lemma_data(value);
            lemma_three_bytes(status_byte(0xB0, channel), controller, value);
        },
        MessageModel::Program { channel, program } => {
            lemma_channel_status(0xC0, channel);
            lemma_data(program);
            lemma_two_bytes(status_byte(0xC0, channel), program);
        },
        MessageModel::ChannelPressure { channel, pressure } => {
            lemma_channel_status(0xD0, channel);
            lemma_data(pressure);
            lemma_two_bytes(status_byte(0xD0, channel), pressure);
        },
        MessageModel::PitchWheel { channel, value } => {
            lemma_channel_status(0xE0, channel);
            lemma_fourteen(value);
            lemma_three_bytes(status_byte(0xE0, channel), lsb7(value), msb7(value));
        },
        MessageModel::TimeCode { data } => {
            lemma_data(data);
            lemma_two_bytes(0xF1, data);
        },
        MessageModel::SongPositionPointer { position } => {
            lemma_fourteen(position);
            lemma_three_bytes_system(lsb7(position), msb7(position));
        },
        MessageModel::SongSelect { song } => {
            lemma_data(song);
            lemma_two_bytes(0xF3, song);
        },
        MessageModel::TuneRequest => {
            lemma_one_byte(0xF6);
        },
        MessageModel::Clock => {
            lemma_one_byte(0xF8);
        },
        MessageModel::Start => {
            lemma_one_byte(0xFA);
        },
        MessageModel::Stop => {
            lemma_one_byte(0xFC);
        },
        MessageModel::Continue => {
            lemma_one_byte(0xFB);
        },
        MessageModel::ActiveSense => {
            lemma_one_byte(0xFE);
        },
        MessageModel::Reset => {
            lemma_one_byte(0xFF);
        },
        MessageModel::SystemExclusive { payload } => {
            lemma_sysex_round_trip(payload);
        },
        MessageModel::Invalid { .. } => {},
    }
}

proof fn lemma_three_bytes_system(b: u8, c: u8)
    requires
        b < 0x80,
        c < 0x80,
    ensures
        feed(fresh_decoder(), seq![0xF2u8, b, c]).1 == seq![
            DecodedModel::Message { message: interpret(0xF2, b, c)->0, raw: seq![0xF2u8, b, c] },
        ],
        feed(fresh_decoder(), seq![0xF2u8, b, c]).0.sysex is None,
        feed(fresh_decoder(), seq![0xF2u8, b, c]).0.pending.len() == 0,
{
    reveal_with_fuel(feed, 4);
    let a = 0xF2u8;
    assert(seq![a, b, c].drop_last() =~= seq![a, b]);
    assert(seq![a, b].drop_last() =~= seq![a]);
    assert(seq![a].drop_last() =~= Seq::<u8>::empty());
    let s1 = step(fresh_decoder(), a).0;
    assert(s1.pending =~= seq![a]);
    let s2 = step(s1, b).0;
    assert(s2.pending =~= seq![a, b]);
    assert(step(s1, b).1 =~= Seq::<DecodedModel>::empty());
    assert(seq![a, b].push(c) =~= seq![a, b, c]);
}

proof fn lemma_sysex_round_trip(payload: Seq<u8>)
    requires
        transmittable(MessageModel::SystemExclusive { payload }),
    ensures
        ({
            let bytes = seq![0xF0u8] + payload + seq![0xF7u8];
            let (s, outs) = feed(fresh_decoder(), bytes);
            &&& outs == seq![
                DecodedModel::Message {
                    message: MessageModel::SystemExclusive { payload },
                    raw: bytes,
                },
            ]
            &&& s.sysex is None
            &&& s.pending.len() == 0
        }),
{
    let head = seq![0xF0u8];
    let body = head + payload;
    let bytes = body + seq![0xF7u8];
    reveal_with_fuel(feed, 2);
    assert(head.drop_last() =~= Seq::<u8>::empty());
    let (s1, o1) = feed(fresh_decoder(), head);
    assert(o1 =~= Seq::<DecodedModel>::empty());
    assert(s1.sysex == Some(sysex_begun()));
    lemma_feed_append(fresh_decoder(), head, payload);
    lemma_sysex_payload(s1, payload);
    let (s2, o2) = feed(fresh_decoder(), body);
    assert(o2 =~= Seq::<DecodedModel>::empty());
    assert(bytes.drop_last() =~= body);
    assert(bytes.last() == 0xF7u8);
    let acc = s2.sysex->0;
    assert(acc.bytes == head + payload);
    let done = sysex_push(acc, 0xF7);
    assert(done.bytes =~= bytes);
    assert(done.bytes.subrange(1, done.bytes.len() - 1) =~= payload);
}

/// The decoder resting under the running status `status`: nothing pending,
/// no System Exclusive transfer open.
pub open spec fn resting_on(status: u8) -> DecoderModel {
    DecoderModel {
        running_status: Some(status),
        sysex: None,
        pending: Seq::empty(),
        implied_status: false,
    }
}

/// Running status holds for every channel-voice status with two data bytes:
/// from any decoder state, a complete message with status `st` leaves the
/// decoder resting on `st`, and from there every further pair of data bytes
/// alone is read as `interpret(st, ..)` of that pair, reported with only the
/// bytes that arrived, and leaves the running status in place.
pub proof fn lemma_running_status_two(s: DecoderModel, st: u8, a: u8, b: u8, c: u8, d: u8)
    requires
        0x80 <= st < 0xF0,
        data_len_of(st) == Some(2nat),
        a < 0x80,
        b < 0x80,
        c < 0x80,
        d < 0x80,
    ensures
        interpret(st, a, b) is Some,
        interpret(st, c, d) is Some,
        feed(s, seq![st, a, b]).0 == resting_on(st),
        feed(s, seq![st, a, b]).1.last() == (DecodedModel::Message {
            message: interpret(st, a, b)->0,
            raw: seq![st, a, b],
        }),
        feed(resting_on(st), seq![c, d]).0 == resting_on(st),
        feed(resting_on(st), seq![c, d]).1 == seq![
            (DecodedModel::Message { message: interpret(st, c, d)->0, raw: seq![c, d] }),
        ],
{
    assert(st & 0xF0 == 0x80 || st & 0xF0 == 0x90 || st & 0xF0 == 0xA0 || st & 0xF0 == 0xB0
        || st & 0xF0 == 0xC0 || st & 0xF0 == 0xD0 || st & 0xF0 == 0xE0) by (bit_vector)
        requires
            0x80 <= st < 0xF0,
    ;
    reveal_with_fuel(feed, 4);
    assert(seq![st, a, b].drop_last() =~= seq![st, a]);
    assert(seq![st, a].drop_last() =~= seq![st]);
    assert(seq![st].drop_last() =~= Seq::<u8>::empty());
    assert(seq![c, d].drop_last() =~= seq![c]);
    assert(seq![c].drop_last() =~= Seq::<u8>::empty());
    let s0 = feed(s, Seq::<u8>::empty()).0;
    let s1 = step(s0, st).0;
    assert(s1 == DecoderModel {
        running_status: Some(st),
        sysex: None,
        pending: seq![st],
        implied_status: false,
    });
    let s2 = step(s1, a).0;
    assert(seq![st].push(a) =~= seq![st, a]);
    assert(s2.pending =~= seq![st, a]);
    assert(seq![st, a].push(b) =~= seq![st, a, b]);
    assert(step(s2, b).0 =~= resting_on(st));
    let r1 = step(resting_on(st), c).0;
    assert(seq![st].push(c) =~= seq![st, c]);
    assert(r1.pending =~= seq![st, c]);
    assert(r1.implied_status);
    assert(seq![st, c].push(d) =~= seq![st, c, d]);
    assert(seq![st, c, d].drop_first() =~= seq![c, d]);
    assert(step(r1, d).0 =~= resting_on(st));
    assert(feed(resting_on(st), seq![c]).1 =~= Seq::<DecodedModel>::empty());
}

/// Running status holds for the statuses with one data byte too (Program
/// Change, Channel Pressure): from any decoder state, a complete message with
/// status `st` leaves the decoder resting on `st`, and from there every
/// further data byte alone is read as `interpret(st, ..)` of that byte,
/// reported with only that byte, and leaves the running status in place.
pub proof fn lemma_running_status_one(s: DecoderModel, st: u8, a: u8, c: u8)
    requires
        0x80 <= st < 0xF0,
        data_len_of(st) == Some(1nat),
        a < 0x80,
        c < 0x80,
    ensures
        interpret(st, a, 0) is Some,
        interpret(st, c, 0) is Some,
        feed(s, seq![st, a]).0 == resting_on(st),
        feed(s, seq![st, a]).1.last() == (DecodedModel::Message {
            message: interpret(st, a, 0)->0,
            raw: seq![st, a],
        }),
        feed(resting_on(st), seq![c]).0 == resting_on(st),
        feed(resting_on(st), seq![c]).1 == seq![
            (DecodedModel::Message { message: interpret(st, c, 0)->0, raw: seq![c] }),
        ],
{
    assert(st & 0xF0 == 0x80 || st & 0xF0 == 0x90 || st & 0xF0 == 0xA0 || st & 0xF0 == 0xB0
        || st & 0xF0 == 0xC0 || st & 0xF0 == 0xD0 || st & 0xF0 == 0xE0) by (bit_vector)
        requires
            0x80 <= st < 0xF0,
    ;
    reveal_with_fuel(feed, 3);
    assert(seq![st, a].drop_last() =~= seq![st]);
    assert(seq![st].drop_last() =~= Seq::<u8>::empty());
    assert(seq![c].drop_last() =~= Seq::<u8>::empty());
    let s0 = feed(s, Seq::<u8>::empty()).0;
    let s1 = step(s0, st).0;
    assert(s1 == DecoderModel {
        running_status: Some(st),
        sysex: None,
        pending: seq![st],
        implied_status: false,
    });
    assert(seq![st].push(a) =~= seq![st, a]);
    assert(step(s1, a).0 =~= resting_on(st));
    assert(seq![st].push(c) =~= seq![st, c]);
    assert(seq![st, c].drop_first() =~= seq![c]);
    assert(step(resting_on(st), c).0 =~= resting_on(st));
}

/// The family a status byte belongs to: for a channel message its command
/// nibble, with Note On counted with Note Off; for a system message the status
/// itself, with Stop and Continue counted with Start.
pub open spec fn status_family(status: u8) -> u8 {
    if status < 0xF0 {
        if status & 0xF0 == 0x90 {
            0x80
        } else {
            status & 0xF0
        }
    } else if status == 0xFB || status == 0xFC {
        0xFA
    } else {
        status
    }
}

/// The status family of every message of a kind, one per kind.
spec fn kind_family(k: MessageKind) -> u8 {
    match k {
        MessageKind::NoteOnOff => 0x80,
        MessageKind::AftertouchPoly => 0xA0,
        MessageKind::Control => 0xB0,
        MessageKind::Program => 0xC0,
        MessageKind::ChannelPressure => 0xD0,
        MessageKind::PitchWheel => 0xE0,
        MessageKind::TimeCode => 0xF1,
        MessageKind::SongPositionPointer => 0xF2,
        MessageKind::SongSelect => 0xF3,
        MessageKind::TuneRequest => 0xF6,
        MessageKind::Clock => 0xF8,
        MessageKind::StartStopContinue => 0xFA,
        MessageKind::ActiveSense => 0xFE,
        MessageKind::Reset => 0xFF,
        MessageKind::SystemExclusive => 0xF0,
        MessageKind::Invalid => 0x00,
    }
}

proof fn lemma_family_of_kind(m: MessageModel)
    requires
        transmittable(m),
    ensures
        encoding(m) is Some,
        encoding(m)->0.len() > 0,
        status_family(encoding(m)->0[0]) == kind_family(m.kind()),
{
    match m {
        MessageModel::NoteOff { channel, .. } => lemma_channel_status(0x80, channel),
        MessageModel::NoteOn { channel, .. } => lemma_channel_status(0x90, channel),
        MessageModel::AftertouchPoly { channel, .. } => lemma_channel_status(0xA0, channel),
        MessageModel::Control { channel, .. } => lemma_channel_status(0xB0, channel),
        MessageModel::Program { channel, .. } => lemma_channel_status(0xC0, channel),
        MessageModel::ChannelPressure { channel, .. } => lemma_channel_status(0xD0, channel),
        MessageModel::PitchWheel { channel, .. } => lemma_channel_status(0xE0, channel),
        MessageModel::SystemExclusive { payload } => {
            assert((seq![0xF0u8] + payload + seq![0xF7u8])[0] == 0xF0u8);
        },
        _ => {},
    }
}

/// Two messages fall under the same filter checkbox exactly when the status
/// bytes that carry them on the wire belong to the same family: the same
/// command nibble for channel messages, with Note On and Note Off together,
/// and the same system status otherwise, with Start, Stop and Continue
/// together.
pub proof fn lemma_kind_follows_status(m1: MessageModel, m2: MessageModel)
    requires
        transmittable(m1),
        transmittable(m2),
    ensures
        encoding(m1) is Some,
        encoding(m2) is Some,
        m1.kind() == m2.kind() <==> status_family(encoding(m1)->0[0]) == status_family(
            encoding(m2)->0[0],
        ),
{
    lemma_family_of_kind(m1);
    lemma_family_of_kind(m2);
}

} // verus!
