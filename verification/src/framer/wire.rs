//! Layout of the isochronous packets exchanged with the adapter.
//!
//! An IN packet is `[RxFrame × K] ‖ RxUSBReport`, an OUT packet is
//! `TxUSBReport ‖ [TxFrame × K]`. All records are packed and multi-byte
//! integers are little-endian.

use vstd::prelude::*;
use crate::framer::frame::{Frame, InternalFrame, FRAME_SAMPLES};

verus! {

/// Bytes of the report that follows each received frame.
pub const RX_FRAME_REPORT_SIZE: usize = 5;

/// Bytes of a received frame with its report.
pub const RX_FRAME_SIZE: usize = 197;

/// Bytes of the report that ends each IN packet.
pub const RX_USB_REPORT_SIZE: usize = 11;

/// Bytes of the report that begins each OUT packet.
pub const TX_USB_REPORT_SIZE: usize = 4;

/// Bytes of the report that precedes each transmitted frame.
pub const TX_FRAME_REPORT_SIZE: usize = 4;

/// Bytes of a transmitted frame with its report.
pub const TX_FRAME_SIZE: usize = 196;

/// The 16-bit number that two little-endian bytes hold.
pub open spec fn u16_le(bytes: Seq<u8>) -> u16
    recommends
        bytes.len() == 2,
{
    (bytes[0] as int + 256 * bytes[1] as int) as u16
}

/// The 32-bit number that four little-endian bytes hold.
pub open spec fn u32_le(bytes: Seq<u8>) -> u32
    recommends
        bytes.len() == 4,
{
    (bytes[0] as int + 256 * bytes[1] as int + 65536 * bytes[2] as int + 16777216 * bytes[3] as int) as u32
}

/// The four little-endian bytes of a 32-bit number.
pub open spec fn u32_le_bytes(value: u32) -> Seq<u8> {
    seq![
        (value as int % 256) as u8,
        (value as int / 256 % 256) as u8,
        (value as int / 65536 % 256) as u8,
        (value as int / 16777216) as u8,
    ]
}

/// Writing a number and reading it back gives the number.
pub proof fn lemma_u32_le_round_trip(value: u32)
    ensures
        u32_le_bytes(value).len() == 4,
        u32_le(u32_le_bytes(value)) == value,
{
}

fn read_u16_le(bytes: &[u8], at: usize) -> (value: u16)
    requires
        at + 2 <= bytes@.len(),
    ensures
        value == u16_le(bytes@.subrange(at as int, at + 2)),
{
    (bytes[at] as u16) + 256 * (bytes[at + 1] as u16)
}

fn read_u32_le(bytes: &[u8], at: usize) -> (value: u32)
    requires
        at + 4 <= bytes@.len(),
    ensures
        value == u32_le(bytes@.subrange(at as int, at + 4)),
{
    (bytes[at] as u32) + 256 * (bytes[at + 1] as u32) + 65536 * (bytes[at + 2] as u32) + 16777216 * (bytes[at
        + 3] as u32)
}

fn append_u32_le(out: &mut Vec<u8>, value: u32)
    ensures
        final(out)@ == old(out)@ + u32_le_bytes(value),
{
    out.push((value % 256) as u8);
    out.push((value / 256 % 256) as u8);
    out.push((value / 65536 % 256) as u8);
    out.push((value / 16777216) as u8);
    assert(out@ =~= old(out)@ + u32_le_bytes(value));
}

/// Report received from the framer after each frame of data.
#[derive(Copy, Clone, Debug, PartialEq, Eq, Structural)]
pub struct RxFrameReport {
    pub frame_count: u32,
    pub mf_bits: u8,
}

impl RxFrameReport {
    /// The report that five bytes hold.
    pub open spec fn decode(bytes: Seq<u8>) -> RxFrameReport
        recommends
            bytes.len() == RX_FRAME_REPORT_SIZE,
    {
        RxFrameReport { frame_count: u32_le(bytes.subrange(0, 4)), mf_bits: bytes[4] }
    }
}

/// One received frame as it travels: the samples, then the report.
#[derive(Copy, Clone, Debug)]
pub struct RxFrame {
    pub frame: Frame,
    pub report: RxFrameReport,
}

impl RxFrame {
    /// `bytes` are this frame as it travels.
    pub open spec fn is_decoded_from(&self, bytes: Seq<u8>) -> bool {
        &&& bytes.len() == RX_FRAME_SIZE
        &&& self.frame@ == bytes.subrange(0, FRAME_SAMPLES as int)
        &&& self.report == RxFrameReport::decode(bytes.subrange(FRAME_SAMPLES as int, RX_FRAME_SIZE as int))
    }

    /// Reads the frame that begins at `at`.
    pub fn read(bytes: &[u8], at: usize) -> (frame: RxFrame)
        requires
            at + RX_FRAME_SIZE <= bytes.len(),
        ensures
            frame.is_decoded_from(bytes@.subrange(at as int, at + RX_FRAME_SIZE)),
    {
        let ghost record = bytes@.subrange(at as int, at + RX_FRAME_SIZE);
        let samples = vstd::slice::slice_subrange(bytes, at, at + FRAME_SAMPLES);
        let frame = Frame::from_samples(samples);
        let frame_count = read_u32_le(bytes, at + FRAME_SAMPLES);
        let mf_bits = bytes[at + FRAME_SAMPLES + 4];
        proof {
            assert(record.subrange(0, FRAME_SAMPLES as int) =~= samples@);
            let report = record.subrange(FRAME_SAMPLES as int, RX_FRAME_SIZE as int);
            assert(report.subrange(0, 4) =~= bytes@.subrange(at + FRAME_SAMPLES, at + FRAME_SAMPLES + 4));
        }
        RxFrame { frame, report: RxFrameReport { frame_count, mf_bits } }
    }

    /// The frame as the rest of the pipeline handles it.
    pub fn to_internal(&self) -> (frame: InternalFrame)
        ensures
            frame.frame == self.frame,
            frame.frame_count == self.report.frame_count,
            frame.mf_bits == self.report.mf_bits,
    {
        InternalFrame { frame: self.frame, frame_count: self.report.frame_count, mf_bits: self.report.mf_bits }
    }
}

/// Report received from the framer with every IN packet, ideally at every
/// USB start-of-frame.
#[derive(Copy, Clone, Debug, PartialEq, Eq, Structural)]
pub struct RxUSBReport {
    pub sof_count: u32,
    pub fifo_rx_level: u8,
    pub fifo_tx_level: u8,
    pub fifo_rx_underflow_count: u16,
    pub fifo_tx_overflow_count: u16,
    pub sequence_count: u8,
}

impl RxUSBReport {
    /// The report that eleven bytes hold.
    pub open spec fn decode(bytes: Seq<u8>) -> RxUSBReport
        recommends
            bytes.len() == RX_USB_REPORT_SIZE,
    {
        RxUSBReport {
            sof_count: u32_le(bytes.subrange(0, 4)),
            fifo_rx_level: bytes[4],
            fifo_tx_level: bytes[5],
            fifo_rx_underflow_count: u16_le(bytes.subrange(6, 8)),
            fifo_tx_overflow_count: u16_le(bytes.subrange(8, 10)),
            sequence_count: bytes[10],
        }
    }

    /// Reads the report that begins at `at`.
    pub fn read(bytes: &[u8], at: usize) -> (report: RxUSBReport)
        requires
            at + RX_USB_REPORT_SIZE <= bytes.len(),
        ensures
            report == RxUSBReport::decode(bytes@.subrange(at as int, at + RX_USB_REPORT_SIZE)),
    {
        let ghost record = bytes@.subrange(at as int, at + RX_USB_REPORT_SIZE);
        proof {
            assert(record.subrange(0, 4) =~= bytes@.subrange(at as int, at + 4));
            assert(record.subrange(6, 8) =~= bytes@.subrange(at + 6, at + 8));
            assert(record.subrange(8, 10) =~= bytes@.subrange(at + 8, at + 10));
        }
        RxUSBReport {
            sof_count: read_u32_le(bytes, at),
            fifo_rx_level: bytes[at + 4],
            fifo_tx_level: bytes[at + 5],
            fifo_rx_underflow_count: read_u16_le(bytes, at + 6),
            fifo_tx_overflow_count: read_u16_le(bytes, at + 8),
            sequence_count: bytes[at + 10],
        }
    }
}

/// Number of whole frames in an IN packet of `length` bytes.
pub open spec fn rx_frame_count(length: int) -> int {
    (length - RX_USB_REPORT_SIZE) / RX_FRAME_SIZE as int
}

/// The bytes of frame `index` of an IN packet.
pub open spec fn rx_frame_bytes(packet: Seq<u8>, index: int) -> Seq<u8> {
    packet.subrange(index * RX_FRAME_SIZE, index * RX_FRAME_SIZE + RX_FRAME_SIZE)
}

/// The bytes of the report of an IN packet: its last eleven.
pub open spec fn rx_usb_report_bytes(packet: Seq<u8>) -> Seq<u8> {
    packet.subrange(packet.len() - RX_USB_REPORT_SIZE, packet.len() as int)
}

/// Every byte of an IN packet is accounted for: `K` frames at its start, the
/// report at its end and, between them, less than one frame of filling.
pub proof fn lemma_rx_packet_layout(length: int)
    requires
        length >= RX_USB_REPORT_SIZE,
    ensures
        0 <= rx_frame_count(length),
        0 <= (length - RX_USB_REPORT_SIZE) % (RX_FRAME_SIZE as int) < RX_FRAME_SIZE,
        rx_frame_count(length) * RX_FRAME_SIZE + (length - RX_USB_REPORT_SIZE) % (RX_FRAME_SIZE as int)
            + RX_USB_REPORT_SIZE == length,
        length == RX_USB_REPORT_SIZE ==> rx_frame_count(length) == 0,
{
}

/// An IN packet: the bytes that one isochronous packet delivered.
pub struct RxPacket<'a> {
    slice: &'a [u8],
}

impl<'a> View for RxPacket<'a> {
    type V = Seq<u8>;

    closed spec fn view(&self) -> Seq<u8> {
        self.slice@
    }
}

impl<'a> RxPacket<'a> {
    #[verifier::type_invariant]
    spec fn long_enough(&self) -> bool {
        self.slice@.len() >= RX_USB_REPORT_SIZE
    }

    /// Accepts the bytes of a packet that is long enough to hold its report.
    pub fn from_slice(slice: &'a [u8]) -> (packet: Option<Self>)
        ensures
            packet is Some <==> slice@.len() >= RX_USB_REPORT_SIZE,
            packet is Some ==> packet->0@ == slice@,
    {
        if slice.len() >= RX_USB_REPORT_SIZE {
            Some(Self { slice })
        } else {
            None
        }
    }

    /// Number of bytes in the packet: never less than its report takes.
    pub fn len(&self) -> (length: usize)
        ensures
            length == self@.len(),
            length >= RX_USB_REPORT_SIZE,
    {
        proof {
            use_type_invariant(self);
        }
        self.slice.len()
    }

    /// The report at the end of the packet.
    pub fn usb_report(&self) -> (report: RxUSBReport)
        ensures
            report == RxUSBReport::decode(rx_usb_report_bytes(self@)),
    {
        proof {
            use_type_invariant(self);
        }
        RxUSBReport::read(self.slice, self.slice.len() - RX_USB_REPORT_SIZE)
    }

    /// Number of frames in the packet.
    pub fn frame_count(&self) -> (count: usize)
        ensures
            count == rx_frame_count(self@.len() as int),
    {
        proof {
            use_type_invariant(self);
        }
        (self.slice.len() - RX_USB_REPORT_SIZE) / RX_FRAME_SIZE
    }

    /// Frame `index` of the packet.
    pub fn frame(&self, index: usize) -> (frame: RxFrame)
        requires
            index < rx_frame_count(self@.len() as int),
        ensures
            frame.is_decoded_from(rx_frame_bytes(self@, index as int)),
    {
        proof {
            use_type_invariant(self);
            assert(self@.len() == self.slice.len());
            lemma_rx_packet_layout(self@.len() as int);
            assert((index + 1) * RX_FRAME_SIZE <= rx_frame_count(self@.len() as int) * RX_FRAME_SIZE)
                by (nonlinear_arith)
                requires
                    index + 1 <= rx_frame_count(self@.len() as int),
            ;
        }
        RxFrame::read(self.slice, index * RX_FRAME_SIZE)
    }

    /// The frames of the packet, in the order in which they were received.
    pub fn frames(&self) -> (frames: Vec<RxFrame>)
        ensures
            frames@.len() == rx_frame_count(self@.len() as int),
            forall|i: int|
                0 <= i < frames@.len() ==> (#[trigger] frames@[i]).is_decoded_from(rx_frame_bytes(self@, i)),
    {
        let count = self.frame_count();
        let mut frames: Vec<RxFrame> = Vec::new();
        let mut index: usize = 0;
        while index < count
            invariant
                index <= count,
                count == rx_frame_count(self@.len() as int),
                frames@.len() == index,
                forall|i: int|
                    0 <= i < index ==> (#[trigger] frames@[i]).is_decoded_from(rx_frame_bytes(self@, i)),
            decreases count - index,
        {
            frames.push(self.frame(index));
            index += 1;
        }
        frames
    }
}

/// Report sent to the framer at the start of every OUT packet.
#[derive(Copy, Clone, Debug, PartialEq, Eq, Structural)]
pub struct TxUSBReport {
    pub frame_count: u32,
}

/// Report sent to the framer before each frame of data.
#[derive(Copy, Clone, Debug, PartialEq, Eq, Structural)]
pub struct TxFrameReport {
    pub frame_count: u32,
}

/// One transmitted frame as it travels: the report, then the samples.
#[derive(Copy, Clone, Debug)]
pub struct TxFrame {
    pub report: TxFrameReport,
    pub frame: Frame,
}

impl TxFrame {
    /// The 196 bytes of the frame as it travels.
    pub open spec fn encoding(&self) -> Seq<u8> {
        u32_le_bytes(self.report.frame_count) + self.frame@
    }

    /// The frame that carries the samples and the count of `frame`.
    pub fn from_internal(frame: &InternalFrame) -> (tx_frame: TxFrame)
        ensures
            tx_frame.frame == frame.frame,
            tx_frame.report.frame_count == frame.frame_count,
    {
        TxFrame { report: TxFrameReport { frame_count: frame.frame_count }, frame: frame.frame }
    }

    /// Appends the frame to `out` as it travels.
    pub fn append_to(&self, out: &mut Vec<u8>)
        ensures
            final(out)@ == old(out)@ + self.encoding(),
    {
        append_u32_le(out, self.report.frame_count);
        self.frame.append_samples(out);
        assert(out@ =~= old(out)@ + self.encoding());
    }
}

/// The bytes of `frames` as they travel in an OUT packet, one after the
/// other.
pub open spec fn tx_frames_encoding(frames: Seq<InternalFrame>) -> Seq<u8>
    decreases frames.len(),
{
    if frames.len() == 0 {
        Seq::empty()
    } else {
        tx_frames_encoding(frames.drop_last()) + (TxFrame {
            report: TxFrameReport { frame_count: frames.last().frame_count },
            frame: frames.last().frame,
        }).encoding()
    }
}

/// The bytes of the OUT packet that carries `report` and `frames`.
pub open spec fn tx_packet_encoding(report: TxUSBReport, frames: Seq<InternalFrame>) -> Seq<u8> {
    u32_le_bytes(report.frame_count) + tx_frames_encoding(frames)
}

/// An OUT packet is as long as its report and its frames: with no frame it
/// is the report alone.
pub proof fn lemma_tx_packet_length(report: TxUSBReport, frames: Seq<InternalFrame>)
    ensures
        tx_packet_encoding(report, frames).len() == TX_USB_REPORT_SIZE + frames.len() * TX_FRAME_SIZE,
    decreases frames.len(),
{
    if frames.len() > 0 {
        lemma_tx_packet_length(report, frames.drop_last());
        frames.last().frame.lemma_view_len();
        assert(tx_frames_encoding(frames).len() == tx_frames_encoding(frames.drop_last()).len()
            + TX_FRAME_SIZE);
    }
}

/// Builds the OUT packet that carries `report` and `frames`.
pub fn encode_tx_packet(report: &TxUSBReport, frames: &Vec<InternalFrame>) -> (packet: Vec<u8>)
    ensures
        packet@ == tx_packet_encoding(*report, frames@),
        packet@.len() == TX_USB_REPORT_SIZE + frames@.len() * TX_FRAME_SIZE,
{
    let mut packet: Vec<u8> = Vec::new();
    append_u32_le(&mut packet, report.frame_count);
    let mut index: usize = 0;
    while index < frames.len()
        invariant
            index <= frames@.len(),
            packet@ == tx_packet_encoding(*report, frames@.subrange(0, index as int)),
        decreases frames@.len() - index,
    {
        let tx_frame = TxFrame::from_internal(&frames[index]);
        tx_frame.append_to(&mut packet);
        proof {
            let done = frames@.subrange(0, index as int);
            let next = frames@.subrange(0, index + 1);
            assert(next.drop_last() =~= done);
            assert(next.last() == frames@[index as int]);
        }
        index += 1;
    }
    proof {
        assert(frames@.subrange(0, frames@.len() as int) =~= frames@);
        lemma_tx_packet_length(*report, frames@);
    }
    packet
}

} // verus!
