//! The inbound side of the serial link: cutting the byte stream into payloads.

use vstd::prelude::*;
use crate::codec::FRAME_MARKER;

verus! {

/// Where the reader stands in the byte stream.
pub enum ReaderState {
    /// Between frames: bytes are skipped until a frame marker comes.
    Scanning,
    /// The marker was read: the next byte is the payload's length.
    AwaitLength,
    /// Inside a payload: `remaining` more bytes complete it.
    Collecting { remaining: nat, collected: Seq<u8> },
}

/// One byte's effect on the reader: its next state, and the payload that the
/// byte completed, if it completed one.
pub open spec fn reader_step(state: ReaderState, byte: u8) -> (ReaderState, Option<Seq<u8>>) {
    match state {
        ReaderState::Scanning => if byte == FRAME_MARKER {
            (ReaderState::AwaitLength, None)
        } else {
            (ReaderState::Scanning, None)
        },
        ReaderState::AwaitLength => if byte == 0 {
            (ReaderState::Scanning, Some(Seq::<u8>::empty()))
        } else {
            (
                ReaderState::Collecting { remaining: byte as nat, collected: Seq::<u8>::empty() },
                None,
            )
        },
        ReaderState::Collecting { remaining, collected } => if remaining <= 1 {
            (ReaderState::Scanning, Some(collected.push(byte)))
        } else {
            (
                ReaderState::Collecting {
                    remaining: (remaining - 1) as nat,
                    collected: collected.push(byte),
                },
                None,
            )
        },
    }
}

/// A run of bytes' effect on the reader: its state after the last of them,
/// and the payloads completed on the way, in order.
pub open spec fn reader_run(state: ReaderState, bytes: Seq<u8>) -> (ReaderState, Seq<Seq<u8>>)
    decreases bytes.len(),
{
    if bytes.len() == 0 {
        (state, Seq::<Seq<u8>>::empty())
    } else {
        let (middle, payloads) = reader_run(state, bytes.drop_last());
        let (next, completed) = reader_step(middle, bytes.last());
        (
            next,
            match completed {
                Some(payload) => payloads.push(payload),
                None => payloads,
            },
        )
    }
}

/// The views of a list of payloads.
pub open spec fn payload_views(payloads: Seq<Vec<u8>>) -> Seq<Seq<u8>> {
    payloads.map_values(|p: Vec<u8>| p@)
}

/// Cuts the device's byte stream into payloads. A frame is the marker `0x82`,
/// one length byte and as many payload bytes as the length byte says; what
/// stands between frames is skipped.
pub struct FrameReader {
    in_frame: bool,
    have_length: bool,
    remaining: u8,
    collected: Vec<u8>,
}

impl View for FrameReader {
    type V = ReaderState;

    closed spec fn view(&self) -> ReaderState {
        if !self.in_frame {
            ReaderState::Scanning
        } else if !self.have_length {
            ReaderState::AwaitLength
        } else {
            ReaderState::Collecting {
                remaining: self.remaining as nat,
                collected: self.collected@,
            }
        }
    }
}

impl FrameReader {
    /// A reader between frames.
    pub fn new() -> (reader: FrameReader)
        ensures
            reader@ == ReaderState::Scanning,
    {
        FrameReader { in_frame: false, have_length: false, remaining: 0, collected: Vec::new() }
    }

    /// Takes the next byte of the stream. Gives the payload that the byte
    /// completed, if it completed one.
    pub fn feed(&mut self, byte: u8) -> (completed: Option<Vec<u8>>)
        ensures
            final(self)@ == reader_step(old(self)@, byte).0,
            match completed {
                Some(payload) => reader_step(old(self)@, byte).1 == Some(payload@),
                None => reader_step(old(self)@, byte).1 is None,
            },
    {
        if !self.in_frame {
            if byte == FRAME_MARKER {
                self.in_frame = true;
                self.have_length = false;
            }
            None
        } else if !self.have_length {
            if byte == 0 {
                self.in_frame = false;
                Some(Vec::new())
            } else {
                self.have_length = true;
                self.remaining = byte;
                self.collected = Vec::new();
                None
            }
        } else {
            self.collected.push(byte);
            if self.remaining <= 1 {
                self.in_frame = false;
                self.have_length = false;
                let mut payload: Vec<u8> = Vec::new();
                payload.append(&mut self.collected);
                Some(payload)
            } else {
                self.remaining = self.remaining - 1;
                None
            }
        }
    }

    /// Takes a run of bytes of the stream. Gives the payloads completed on the
    /// way, in order.
    pub fn feed_all(&mut self, bytes: &[u8]) -> (payloads: Vec<Vec<u8>>)
        ensures
            final(self)@ == reader_run(old(self)@, bytes@).0,
            payload_views(payloads@) == reader_run(old(self)@, bytes@).1,
    {
        let mut payloads: Vec<Vec<u8>> = Vec::new();
        let mut i: usize = 0;
        while i < bytes.len()
            invariant
                i <= bytes.len(),
                self@ == reader_run(old(self)@, bytes@.take(i as int)).0,
                payload_views(payloads@) == reader_run(old(self)@, bytes@.take(i as int)).1,
            decreases bytes.len() - i,
        {
            let completed = self.feed(bytes[i]);
            assert(bytes@.take(i as int + 1).drop_last() =~= bytes@.take(i as int));
            match completed {
                Some(payload) => {
                    payloads.push(payload);
                },
                None => {},
            }
            i = i + 1;
        }
        assert(bytes@.take(bytes.len() as int) =~= bytes@);
        payloads
    }
}

/// Running the reader over two runs of bytes, one after the other, is running
/// it over their concatenation.
pub proof fn lemma_reader_run_concat(state: ReaderState, first: Seq<u8>, second: Seq<u8>)
    ensures
        reader_run(state, first + second).0 == reader_run(
            reader_run(state, first).0,
            second,
        ).0,
        reader_run(state, first + second).1 == reader_run(state, first).1 + reader_run(
            reader_run(state, first).0,
            second,
        ).1,
    decreases second.len(),
{
    if second.len() > 0 {
        lemma_reader_run_concat(state, first, second.drop_last());
        assert((first + second).drop_last() =~= first + second.drop_last());
    }
}

/// Bytes between frames are skipped: a run without a frame marker leaves a
/// scanning reader scanning and completes nothing.
pub proof fn lemma_reader_skips_noise(noise: Seq<u8>)
    requires
        forall|i: int| 0 <= i < noise.len() ==> noise[i] != FRAME_MARKER,
    ensures
        reader_run(ReaderState::Scanning, noise) == (
            ReaderState::Scanning,
            Seq::<Seq<u8>>::empty(),
        ),
    decreases noise.len(),
{
    if noise.len() > 0 {
        lemma_reader_skips_noise(noise.drop_last());
    }
}

/// Inside a payload, bytes are collected until the announced number has come.
proof fn lemma_reader_collects(remaining: nat, collected: Seq<u8>, rest: Seq<u8>)
    requires
        rest.len() <= remaining,
        remaining >= 1,
    ensures
        reader_run(ReaderState::Collecting { remaining, collected }, rest) == if rest.len()
            == remaining {
            (ReaderState::Scanning, seq![collected + rest])
        } else {
            (
                ReaderState::Collecting {
                    remaining: (remaining - rest.len()) as nat,
                    collected: collected + rest,
                },
                Seq::<Seq<u8>>::empty(),
            )
        },
    decreases rest.len(),
{
    if rest.len() > 0 {
        lemma_reader_collects(remaining, collected, rest.drop_last());
        assert((collected + rest.drop_last()).push(rest.last()) =~= collected + rest);
    }
}

/// One frame gives one payload. From between frames, noise without a marker,
/// then the marker, a length byte and that many bytes, give exactly those
/// bytes as a payload and leave the reader between frames again.
pub proof fn lemma_reader_delivers_frame(noise: Seq<u8>, payload: Seq<u8>)
    requires
        forall|i: int| 0 <= i < noise.len() ==> noise[i] != FRAME_MARKER,
        payload.len() <= 0xFF,
    ensures
        reader_run(
            ReaderState::Scanning,
            noise + seq![FRAME_MARKER, payload.len() as u8] + payload,
        ) == (ReaderState::Scanning, seq![payload]),
{
    let head = seq![FRAME_MARKER, payload.len() as u8];
    lemma_reader_skips_noise(noise);
    lemma_reader_run_concat(ReaderState::Scanning, noise, head);
    lemma_reader_run_concat(ReaderState::Scanning, noise + head, payload);
    // the marker, then the length byte
    assert(reader_run(ReaderState::Scanning, head.drop_last().drop_last()).0
        == ReaderState::Scanning);
    assert(reader_run(ReaderState::Scanning, head.drop_last()) == (
        ReaderState::AwaitLength,
        Seq::<Seq<u8>>::empty(),
    ));
    // the payload
    if payload.len() > 0 {
        lemma_reader_collects(payload.len(), Seq::<u8>::empty(), payload);
        assert(Seq::<Seq<u8>>::empty() + seq![payload] =~= seq![payload]);
    }
}

} // verus!
