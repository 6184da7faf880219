//! Statistics that the receive path keeps and reports.

use vstd::prelude::*;

verus! {

/// Number of levels that the device's receive FIFO can report.
pub const RX_FIFO_DEPTH: usize = 8;

/// Number of levels that the device's transmit FIFO can report.
pub const TX_FIFO_DEPTH: usize = 32;

/// Number of frames after which the periodic statistics are reported and
/// start afresh: one second's worth.
pub const STATISTICS_PERIOD_FRAMES: u32 = 8000;

/// A counter that stops at its largest value.
pub open spec fn saturating_increment(count: u32) -> u32 {
    if count == u32::MAX {
        count
    } else {
        (count + 1) as u32
    }
}

/// A counter that starts again at zero after its largest value.
pub open spec fn wrapping_increment(count: u32) -> u32 {
    if count == u32::MAX {
        0
    } else {
        (count + 1) as u32
    }
}

/// The histogram with one more observation of `level`.
pub open spec fn histogram_with(histogram: Seq<u32>, level: int) -> Seq<u32> {
    histogram.update(level, saturating_increment(histogram[level]))
}

/// Statistics gathered over one period.
#[derive(Copy, Clone, Debug)]
pub struct FramerPeriodicStatistics {
    /// How often each level of the receive FIFO was reported.
    pub rx_fifo_level_histogram: [u32; RX_FIFO_DEPTH],
    /// How often each level of the transmit FIFO was reported.
    pub tx_fifo_level_histogram: [u32; TX_FIFO_DEPTH],
    /// Frames received in this period.
    pub frame_count: u32,
}

/// What a [`FramerPeriodicStatistics`] holds.
pub struct PeriodicStatistics {
    pub rx_fifo_level_histogram: Seq<u32>,
    pub tx_fifo_level_histogram: Seq<u32>,
    pub frame_count: u32,
}

impl PeriodicStatistics {
    /// The statistics of a period in which nothing has happened yet.
    pub open spec fn empty() -> PeriodicStatistics {
        PeriodicStatistics {
            rx_fifo_level_histogram: Seq::new(RX_FIFO_DEPTH as nat, |i: int| 0u32),
            tx_fifo_level_histogram: Seq::new(TX_FIFO_DEPTH as nat, |i: int| 0u32),
            frame_count: 0,
        }
    }

    /// Each histogram has a place for every level of its FIFO.
    pub open spec fn well_formed(self) -> bool {
        self.rx_fifo_level_histogram.len() == RX_FIFO_DEPTH && self.tx_fifo_level_histogram.len()
            == TX_FIFO_DEPTH
    }
}

impl View for FramerPeriodicStatistics {
    type V = PeriodicStatistics;

    open spec fn view(&self) -> PeriodicStatistics {
        PeriodicStatistics {
            rx_fifo_level_histogram: self.rx_fifo_level_histogram@,
            tx_fifo_level_histogram: self.tx_fifo_level_histogram@,
            frame_count: self.frame_count,
        }
    }
}

impl Default for FramerPeriodicStatistics {
    fn default() -> (statistics: Self)
        ensures
            statistics@ == PeriodicStatistics::empty(),
    {
        let statistics = Self {
            rx_fifo_level_histogram: [0; RX_FIFO_DEPTH],
            tx_fifo_level_histogram: [0; TX_FIFO_DEPTH],
            frame_count: 0,
        };
        assert(statistics@.rx_fifo_level_histogram =~= PeriodicStatistics::empty().rx_fifo_level_histogram);
        assert(statistics@.tx_fifo_level_histogram =~= PeriodicStatistics::empty().tx_fifo_level_histogram);
        statistics
    }
}

/// Counters that run for as long as the pipeline does. They never decrease,
/// but for the two that the device itself counts and reports.
#[derive(Copy, Clone, Debug, PartialEq, Eq, Structural)]
pub struct FramerCumulativeStatistics {
    /// The device's count of receive FIFO underflows, as last reported.
    pub rx_fifo_underflow_count: u16,
    /// The device's count of transmit FIFO overflows, as last reported.
    pub tx_fifo_overflow_count: u16,
    /// Packets whose start-of-frame count was not the expected one.
    pub sof_discontinuity_count: u32,
    /// Frames whose frame count was not the expected one.
    pub frame_discontinuity_count: u32,
    /// Frames dropped because the audio ring was full.
    pub ringbuf_full_drop_count: u32,
}

impl FramerCumulativeStatistics {
    /// The counters before anything was counted.
    pub open spec fn zero() -> FramerCumulativeStatistics {
        FramerCumulativeStatistics {
            rx_fifo_underflow_count: 0,
            tx_fifo_overflow_count: 0,
            sof_discontinuity_count: 0,
            frame_discontinuity_count: 0,
            ringbuf_full_drop_count: 0,
        }
    }
}

impl Default for FramerCumulativeStatistics {
    fn default() -> (statistics: Self)
        ensures
            statistics == FramerCumulativeStatistics::zero(),
    {
        Self {
            rx_fifo_underflow_count: 0,
            tx_fifo_overflow_count: 0,
            sof_discontinuity_count: 0,
            frame_discontinuity_count: 0,
            ringbuf_full_drop_count: 0,
        }
    }
}

/// What the receive path tells whoever watches it.
#[derive(Copy, Clone, Debug)]
pub enum DebugMessage {
    /// Lowest and highest transmit FIFO level reported during one transfer.
    TxFIFORange((u8, u8)),
    /// The statistics of the period that has just ended, and the cumulative
    /// counters at that moment.
    FramerStatistics(FramerPeriodicStatistics, FramerCumulativeStatistics),
}

/// What a [`DebugMessage`] says.
pub enum DebugReport {
    TxFIFORange(u8, u8),
    FramerStatistics(PeriodicStatistics, FramerCumulativeStatistics),
}

impl View for DebugMessage {
    type V = DebugReport;

    open spec fn view(&self) -> DebugReport {
        match *self {
            DebugMessage::TxFIFORange(range) => DebugReport::TxFIFORange(range.0, range.1),
            DebugMessage::FramerStatistics(periodic, cumulative) => DebugReport::FramerStatistics(
                periodic@,
                cumulative,
            ),
        }
    }
}

} // verus!
