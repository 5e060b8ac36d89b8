//! The parsed recording as this library reads it: plain values, with the
//! sample and scale numbers kept in whatever number type `S` the caller uses.

use crate::timeline::{total_samples, SamplingRateSegment};
use vstd::prelude::*;

verus! {

/// How the samples are laid out in the data file.
#[derive(Clone, Copy, Debug, PartialEq, Eq)]
pub enum DataFormat {
    Ascii,
    Binary16,
    Binary32,
    Float32,
}

/// A point in time as the recording states it.
#[derive(Clone, Debug, PartialEq, Eq)]
pub struct RecordedInstant {
    /// The instant written out as text.
    pub text: String,
    /// Whole seconds since the epoch.
    pub epoch_seconds: i64,
    /// The part of the instant below one second, in nanoseconds.
    pub subsec_nanos: u32,
}

/// An analog channel, by value: what `AnalogChannel` and
/// `SerializableAnalogChannel` stand for in contracts.
pub struct ChannelModel<S> {
    pub index: u32,
    pub name: Seq<char>,
    pub units: Seq<char>,
    pub min_value: S,
    pub max_value: S,
    pub multiplier: S,
    pub offset_adder: S,
    pub phase: Seq<char>,
    pub circuit_component_being_monitored: Seq<char>,
    /// The samples, where the channel carries them.
    pub samples: Option<Seq<S>>,
}

impl<S> ChannelModel<S> {
    /// The same channel without its samples.
    pub open spec fn without_samples(self) -> ChannelModel<S> {
        ChannelModel { samples: None, ..self }
    }
}

/// An analog channel of a recording.
#[derive(Clone, Debug, PartialEq)]
pub struct AnalogChannel<S> {
    /// Position of the channel in the recording, counted from 1.
    pub index: u32,
    pub name: String,
    pub units: String,
    pub min_value: S,
    pub max_value: S,
    pub multiplier: S,
    pub offset_adder: S,
    pub phase: String,
    pub circuit_component_being_monitored: String,
    /// One value per sample.
    pub data: Vec<S>,
}

impl<S> View for AnalogChannel<S> {
    type V = ChannelModel<S>;

    open spec fn view(&self) -> ChannelModel<S> {
        ChannelModel {
            index: self.index,
            name: self.name@,
            units: self.units@,
            min_value: self.min_value,
            max_value: self.max_value,
            multiplier: self.multiplier,
            offset_adder: self.offset_adder,
            phase: self.phase@,
            circuit_component_being_monitored: self.circuit_component_being_monitored@,
            samples: Some(self.data@),
        }
    }
}

/// A recording, by value.
pub struct RecordingModel<S> {
    pub station_name: Seq<char>,
    pub recording_device_id: Seq<char>,
    pub start_time: Seq<char>,
    pub trigger_time: Seq<char>,
    pub trigger_seconds: int,
    pub data_format: DataFormat,
    pub line_frequency: S,
    pub sampling_rates: Seq<SamplingRateSegment>,
    pub analog_channels: Seq<ChannelModel<S>>,
}

/// What the parser hands over for one disturbance record.
#[derive(Clone, Debug, PartialEq)]
pub struct Recording<S> {
    pub station_name: String,
    pub recording_device_id: String,
    pub start_time: RecordedInstant,
    pub trigger_time: RecordedInstant,
    pub data_format: DataFormat,
    /// Nominal line frequency in hertz.
    pub line_frequency: S,
    /// The sampling-rate table as the parser gave it; not yet checked.
    pub sampling_rates: Vec<SamplingRateSegment>,
    pub analog_channels: Vec<AnalogChannel<S>>,
}

/// Every channel of the recording has one sample for each sample that the
/// sampling-rate table describes.
pub open spec fn sample_counts_agree<S>(recording: RecordingModel<S>) -> bool {
    forall|i: int|
        0 <= i < recording.analog_channels.len() ==> (
        #[trigger] recording.analog_channels[i]).samples is Some
            && recording.analog_channels[i].samples->0.len() == total_samples(
            recording.sampling_rates,
        )
}

impl<S> View for Recording<S> {
    type V = RecordingModel<S>;

    open spec fn view(&self) -> RecordingModel<S> {
        RecordingModel {
            station_name: self.station_name@,
            recording_device_id: self.recording_device_id@,
            start_time: self.start_time.text@,
            trigger_time: self.trigger_time.text@,
            trigger_seconds: self.trigger_time.epoch_seconds as int,
            data_format: self.data_format,
            line_frequency: self.line_frequency,
            sampling_rates: self.sampling_rates@,
            analog_channels: Seq::new(
                self.analog_channels@.len(),
                |i: int| self.analog_channels@[i]@,
            ),
        }
    }
}

impl<S> Recording<S> {
    /// Whether every channel has one sample for each sample that the
    /// sampling-rate table describes. Where it has, the timestamps of the
    /// recording's snapshot line up with the samples of every channel.
    pub fn sample_counts_agree(&self) -> (ok: bool)
        ensures
            ok == sample_counts_agree(self@),
    {
        let segments = self.sampling_rates.len();
        let expected: u32 = if segments == 0 {
            0
        } else {
            self.sampling_rates[segments - 1].end_sample_index
        };
        let mut i: usize = 0;
        while i < self.analog_channels.len()
            invariant
                i <= self.analog_channels.len(),
                expected == total_samples(self.sampling_rates@),
                forall|m: int|
                    0 <= m < i ==> (#[trigger] self@.analog_channels[m]).samples->0.len()
                        == expected,
            decreases self.analog_channels.len() - i,
        {
            if self.analog_channels[i].data.len() != expected as usize {
                assert(self@.analog_channels[i as int].samples->0.len() != expected);
                return false;
            }
            assert(self@.analog_channels[i as int].samples->0.len() == expected);
            i += 1;
        }
        true
    }
}

} // verus!
