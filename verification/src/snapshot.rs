//! The flat snapshot of a recording that is handed to the host, in its two
//! shapes: metadata only, or metadata with the waveform.

use crate::copying::copy_of;
use crate::recording::{
    sample_counts_agree, AnalogChannel, ChannelModel, DataFormat, Recording, RecordingModel,
};
use crate::timeline::{
    lemma_timestamps_strictly_increase, timestamps_of, total_samples, well_formed,
    SamplingSchedule,
};
use vstd::prelude::*;

verus! {

/// The text tag that a data format is reported under. The 16-bit binary
/// format keeps the bare tag "BINARY".
pub open spec fn data_format_tag(format: DataFormat) -> Seq<char> {
    match format {
        DataFormat::Ascii => "ASCII"@,
        DataFormat::Binary16 => "BINARY"@,
        DataFormat::Binary32 => "BINARY32"@,
        DataFormat::Float32 => "FLOAT32"@,
    }
}

/// The text tag that a data format is reported under.
pub fn data_format_to_str(format: &DataFormat) -> (tag: &'static str)
    ensures
        tag@ == data_format_tag(*format),
{
    match format {
        DataFormat::Ascii => "ASCII",
        DataFormat::Binary16 => "BINARY",
        DataFormat::Binary32 => "BINARY32",
        DataFormat::Float32 => "FLOAT32",
    }
}

/// How much of a recording a snapshot carries.
#[derive(Clone, Copy, Debug, PartialEq, Eq)]
pub enum SnapshotShape {
    /// Header and channel descriptions; no samples, no timestamps.
    MetadataOnly,
    /// Header, channel descriptions, the samples of every channel and the
    /// timestamp of every sample.
    WithWaveform,
}

/// An analog channel as the snapshot of shape `shape` shows it.
pub open spec fn flattened_channel<S>(channel: ChannelModel<S>, shape: SnapshotShape)
    -> ChannelModel<S> {
    match shape {
        SnapshotShape::WithWaveform => channel,
        SnapshotShape::MetadataOnly => channel.without_samples(),
    }
}

/// A single analog channel of a snapshot.
#[derive(Clone, Debug, PartialEq)]
pub struct SerializableAnalogChannel<S> {
    /// The channel index number.
    pub index: u32,
    /// The name of the analog channel.
    pub name: String,
    /// The units of measurement for the channel.
    pub units: String,
    /// The minimum value recorded for this channel.
    pub min_value: S,
    /// The maximum value recorded for this channel.
    pub max_value: S,
    /// The multiplier to apply to the channel's data values.
    pub multiplier: S,
    /// The offset to add to the channel's data values.
    pub offset_adder: S,
    /// The phase of the channel.
    pub phase: String,
    /// The component of the power system circuit being monitored.
    pub circuit_component_being_monitored: String,
    /// The waveform data for this channel, where the snapshot carries it.
    pub values: Option<Vec<S>>,
}

impl<S> View for SerializableAnalogChannel<S> {
    type V = ChannelModel<S>;

    open spec fn view(&self) -> ChannelModel<S> {
        ChannelModel {
            index: self.index,
            name: self.name@,
            units: self.units@,
            min_value: self.min_value,
            max_value: self.max_value,
            multiplier: self.multiplier,
            offset_adder: self.offset_adder,
            phase: self.phase@,
            circuit_component_being_monitored: self.circuit_component_being_monitored@,
            samples: match self.values {
                Some(values) => Some(values@),
                None => None,
            },
        }
    }
}

/// A snapshot, by value.
#[verifier::ext_equal]
pub struct ComtradeInfoModel<S> {
    pub station: Seq<char>,
    pub recording_device_id: Seq<char>,
    pub start_time: Seq<char>,
    pub trigger_time: Seq<char>,
    pub data_format: Seq<char>,
    pub frequency: S,
    pub analog_channels: Seq<ChannelModel<S>>,
    /// Picoseconds since the epoch, one entry per sample.
    pub timestamps: Option<Seq<int>>,
}

/// The snapshot of a recording.
#[derive(Clone, Debug, PartialEq)]
pub struct ComtradeInfo<S> {
    /// The name of the substation or station.
    pub station: String,
    /// The identifier of the recording device.
    pub recording_device_id: String,
    /// The start timestamp of the recording.
    pub start_time: String,
    /// The trigger timestamp of the event.
    pub trigger_time: String,
    /// The data format of the data file, as its text tag.
    pub data_format: String,
    /// The nominal line frequency in hertz.
    pub frequency: S,
    /// The analog channels present in the recording.
    pub analog_channels: Vec<SerializableAnalogChannel<S>>,
    /// The time of each sample in picoseconds since the epoch, where the
    /// snapshot carries the waveform.
    pub timestamps: Option<Vec<i128>>,
}

impl<S> View for ComtradeInfo<S> {
    type V = ComtradeInfoModel<S>;

    open spec fn view(&self) -> ComtradeInfoModel<S> {
        ComtradeInfoModel {
            station: self.station@,
            recording_device_id: self.recording_device_id@,
            start_time: self.start_time@,
            trigger_time: self.trigger_time@,
            data_format: self.data_format@,
            frequency: self.frequency,
            analog_channels: Seq::new(
                self.analog_channels@.len(),
                |i: int| self.analog_channels@[i]@,
            ),
            timestamps: match self.timestamps {
                Some(times) => Some(Seq::new(times@.len(), |k: int| times@[k] as int)),
                None => None,
            },
        }
    }
}

/// The snapshot of shape `shape` that a recording flattens to: the header
/// fields and every channel unchanged, the data format as its text tag, and,
/// with the waveform, the timestamp of every sample.
pub open spec fn snapshot_of<S>(recording: RecordingModel<S>, shape: SnapshotShape)
    -> ComtradeInfoModel<S> {
    ComtradeInfoModel {
        station: recording.station_name,
        recording_device_id: recording.recording_device_id,
        start_time: recording.start_time,
        trigger_time: recording.trigger_time,
        data_format: data_format_tag(recording.data_format),
        frequency: recording.line_frequency,
        analog_channels: Seq::new(
            recording.analog_channels.len(),
            |i: int| flattened_channel(recording.analog_channels[i], shape),
        ),
        timestamps: match shape {
            SnapshotShape::WithWaveform => Some(
                timestamps_of(recording.trigger_seconds, recording.sampling_rates),
            ),
            SnapshotShape::MetadataOnly => None,
        },
    }
}

/// Copies one channel, with or without its samples.
pub fn flatten_channel<S: Copy>(channel: &AnalogChannel<S>, shape: SnapshotShape) -> (flat:
    SerializableAnalogChannel<S>)
    ensures
        flat@ == flattened_channel(channel@, shape),
{
    let values = match shape {
        SnapshotShape::WithWaveform => Some(copy_of(&channel.data)),
        SnapshotShape::MetadataOnly => None,
    };
    SerializableAnalogChannel {
        index: channel.index,
        name: channel.name.clone(),
        units: channel.units.clone(),
        min_value: channel.min_value,
        max_value: channel.max_value,
        multiplier: channel.multiplier,
        offset_adder: channel.offset_adder,
        phase: channel.phase.clone(),
        circuit_component_being_monitored: channel.circuit_component_being_monitored.clone(),
        values,
    }
}

/// Whether a recording has a snapshot of the given shape: the metadata can
/// always be had, the waveform where the sampling-rate table is well formed,
/// since only such a table says when each sample was taken.
pub open spec fn snapshot_possible<S>(recording: RecordingModel<S>, shape: SnapshotShape) -> bool {
    shape == SnapshotShape::MetadataOnly || well_formed(recording.sampling_rates)
}

/// Flattens a recording into a snapshot of the given shape, where it has
/// one. Everything in the snapshot is a fresh copy.
pub fn flatten_recording<S: Copy>(recording: &Recording<S>, shape: SnapshotShape) -> (result:
    Option<ComtradeInfo<S>>)
    ensures
        result is Some <==> snapshot_possible(recording@, shape),
        result matches Some(info) ==> info@ == snapshot_of(recording@, shape),
{
    let timestamps = match shape {
        SnapshotShape::WithWaveform => {
            match SamplingSchedule::new(copy_of(&recording.sampling_rates)) {
                Some(schedule) => Some(
                    schedule.absolute_timestamps(recording.trigger_time.epoch_seconds),
                ),
                None => {
                    return None;
                },
            }
        },
        SnapshotShape::MetadataOnly => None,
    };
    let mut analog_channels: Vec<SerializableAnalogChannel<S>> = Vec::new();
    let mut i: usize = 0;
    while i < recording.analog_channels.len()
        invariant
            i <= recording.analog_channels.len(),
            analog_channels.len() == i,
            forall|m: int|
                0 <= m < i ==> (#[trigger] analog_channels@[m])@ == flattened_channel(
                    recording.analog_channels@[m]@,
                    shape,
                ),
        decreases recording.analog_channels.len() - i,
    {
        analog_channels.push(flatten_channel(&recording.analog_channels[i], shape));
        i += 1;
    }
    let info = ComtradeInfo {
        station: recording.station_name.clone(),
        recording_device_id: recording.recording_device_id.clone(),
        start_time: recording.start_time.text.clone(),
        trigger_time: recording.trigger_time.text.clone(),
        data_format: data_format_to_str(&recording.data_format).to_owned(),
        frequency: recording.line_frequency,
        analog_channels,
        timestamps,
    };
    proof {
        let expected = snapshot_of(recording@, shape);
        assert(info@.analog_channels =~= expected.analog_channels);
        if shape == SnapshotShape::WithWaveform {
            assert(info@.timestamps->0 =~= expected.timestamps->0);
        }
        assert(info@ =~~= expected);
    }
    Some(info)
}

/// Every channel of the snapshot carries as many samples as the snapshot has
/// timestamps.
pub open spec fn timestamps_aligned<S>(info: ComtradeInfoModel<S>) -> bool {
    forall|i: int|
        0 <= i < info.analog_channels.len() ==> (#[trigger] info.analog_channels[i]).samples
            is Some && info.timestamps is Some && info.analog_channels[i].samples->0.len()
            == info.timestamps->0.len()
}

/// The timestamps of the snapshot, where it carries any, are strictly
/// increasing.
pub open spec fn timestamps_increase<S>(info: ComtradeInfoModel<S>) -> bool {
    info.timestamps matches Some(times) ==> forall|a: int, b: int|
        0 <= a < b < times.len() ==> times[a] < times[b]
}

/// A snapshot has as many channels as the recording it was made from, and,
/// with the waveform, each channel has the samples of its source channel,
/// so as many of them.
pub proof fn lemma_snapshot_keeps_channels<S>(recording: RecordingModel<S>, shape: SnapshotShape)
    ensures
        snapshot_of(recording, shape).analog_channels.len() == recording.analog_channels.len(),
        shape == SnapshotShape::WithWaveform ==> forall|i: int|
            0 <= i < recording.analog_channels.len() ==> (#[trigger] snapshot_of(
                recording,
                shape,
            ).analog_channels[i]).samples == recording.analog_channels[i].samples,
{
}

/// A snapshot with the waveform has one timestamp for each sample that the
/// sampling-rate table describes.
pub proof fn lemma_snapshot_timestamp_count<S>(recording: RecordingModel<S>)
    ensures
        snapshot_of(recording, SnapshotShape::WithWaveform).timestamps is Some,
        snapshot_of(recording, SnapshotShape::WithWaveform).timestamps->0.len() == total_samples(
            recording.sampling_rates,
        ),
{
}

/// Where the channels of a recording agree with its sampling-rate table on
/// the number of samples, the timestamps of its snapshot line up with the
/// samples of every channel.
pub proof fn lemma_snapshot_aligned<S>(recording: RecordingModel<S>)
    requires
        sample_counts_agree(recording),
    ensures
        timestamps_aligned(snapshot_of(recording, SnapshotShape::WithWaveform)),
{
    let info = snapshot_of(recording, SnapshotShape::WithWaveform);
    assert forall|i: int| 0 <= i < info.analog_channels.len() implies (
    #[trigger] info.analog_channels[i]).samples is Some && info.timestamps is Some
        && info.analog_channels[i].samples->0.len() == info.timestamps->0.len() by {
        assert(info.analog_channels[i] == recording.analog_channels[i]);
    }
}

/// The timestamps of every snapshot that a recording has are strictly
/// increasing.
pub proof fn lemma_snapshot_timestamps_increase<S>(
    recording: RecordingModel<S>,
    shape: SnapshotShape,
)
    requires
        snapshot_possible(recording, shape),
    ensures
        timestamps_increase(snapshot_of(recording, shape)),
{
    if shape == SnapshotShape::WithWaveform {
        let times = snapshot_of(recording, shape).timestamps->0;
        assert forall|a: int, b: int| 0 <= a < b < times.len() implies times[a] < times[b] by {
            lemma_timestamps_strictly_increase(
                recording.trigger_seconds,
                recording.sampling_rates,
                a,
                b,
            );
        }
    }
}

} // verus!
