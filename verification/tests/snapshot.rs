use comtrade_rust::recording::{AnalogChannel, DataFormat, RecordedInstant, Recording};
use comtrade_rust::snapshot::{
    data_format_to_str, flatten_channel, flatten_recording, ComtradeInfo,
    SerializableAnalogChannel, SnapshotShape,
};
use comtrade_rust::timeline::SamplingRateSegment;

fn channel(index: u32, name: &str, data: Vec<f64>) -> AnalogChannel<f64> {
    AnalogChannel {
        index,
        name: name.to_string(),
        units: "kV".to_string(),
        min_value: -32767.0,
        max_value: 32767.0,
        multiplier: 0.01,
        offset_adder: -1.5,
        phase: "A".to_string(),
        circuit_component_being_monitored: "Line 1".to_string(),
        data,
    }
}

fn flatten(source: &Recording<f64>, shape: SnapshotShape) -> ComtradeInfo<f64> {
    match flatten_recording(source, shape) {
        Some(info) => info,
        None => panic!("the recording has no snapshot of this shape"),
    }
}

fn recording(format: DataFormat) -> Recording<f64> {
    Recording {
        station_name: "North".to_string(),
        recording_device_id: "relay-7".to_string(),
        start_time: RecordedInstant {
            text: "2021-03-04 05:06:07.250".to_string(),
            epoch_seconds: 1_614_834_367,
            subsec_nanos: 250_000_000,
        },
        trigger_time: RecordedInstant {
            text: "2021-03-04 05:06:08.750".to_string(),
            epoch_seconds: 1_614_834_368,
            subsec_nanos: 750_000_000,
        },
        data_format: format,
        line_frequency: 50.0,
        sampling_rates: vec![
            SamplingRateSegment { period_picos: 1_000_000_000, end_sample_index: 2 },
            SamplingRateSegment { period_picos: 500_000_000, end_sample_index: 4 },
        ],
        analog_channels: vec![
            channel(1, "VA", vec![1.0, 2.0, 3.0, 4.0]),
            channel(2, "VB", vec![-1.0, -2.0, -3.0, -4.0]),
        ],
    }
}

#[test]
fn data_formats_have_their_tags() {
    assert_eq!(data_format_to_str(&DataFormat::Ascii), "ASCII");
    assert_eq!(data_format_to_str(&DataFormat::Binary16), "BINARY");
    assert_eq!(data_format_to_str(&DataFormat::Binary32), "BINARY32");
    assert_eq!(data_format_to_str(&DataFormat::Float32), "FLOAT32");
}

#[test]
fn waveform_snapshot_copies_header_channels_and_times() {
    let source = recording(DataFormat::Binary16);
    let info = flatten(&source, SnapshotShape::WithWaveform);
    assert_eq!(info.station, "North");
    assert_eq!(info.recording_device_id, "relay-7");
    assert_eq!(info.start_time, "2021-03-04 05:06:07.250");
    assert_eq!(info.trigger_time, "2021-03-04 05:06:08.750");
    assert_eq!(info.data_format, "BINARY");
    assert_eq!(info.frequency, 50.0);
    assert_eq!(
        info.analog_channels,
        vec![
            SerializableAnalogChannel {
                index: 1,
                name: "VA".to_string(),
                units: "kV".to_string(),
                min_value: -32767.0,
                max_value: 32767.0,
                multiplier: 0.01,
                offset_adder: -1.5,
                phase: "A".to_string(),
                circuit_component_being_monitored: "Line 1".to_string(),
                values: Some(vec![1.0, 2.0, 3.0, 4.0]),
            },
            SerializableAnalogChannel {
                index: 2,
                name: "VB".to_string(),
                units: "kV".to_string(),
                min_value: -32767.0,
                max_value: 32767.0,
                multiplier: 0.01,
                offset_adder: -1.5,
                phase: "A".to_string(),
                circuit_component_being_monitored: "Line 1".to_string(),
                values: Some(vec![-1.0, -2.0, -3.0, -4.0]),
            },
        ]
    );
    assert_eq!(
        info.timestamps,
        Some(vec![
            1_614_834_368_000_000_000_000,
            1_614_834_368_001_000_000_000,
            1_614_834_368_002_000_000_000,
            1_614_834_368_002_500_000_000,
        ])
    );
}

#[test]
fn metadata_snapshot_has_no_samples_and_no_times() {
    let source = recording(DataFormat::Float32);
    let info = flatten(&source, SnapshotShape::MetadataOnly);
    assert_eq!(info.station, "North");
    assert_eq!(info.data_format, "FLOAT32");
    assert_eq!(info.analog_channels.len(), 2);
    assert_eq!(info.analog_channels[0].name, "VA");
    assert_eq!(info.analog_channels[1].index, 2);
    assert!(info.analog_channels.iter().all(|c| c.values.is_none()));
    assert_eq!(info.timestamps, None);
}

#[test]
fn snapshot_has_the_channels_and_sample_counts_of_its_recording() {
    let source = recording(DataFormat::Ascii);
    let info = flatten(&source, SnapshotShape::WithWaveform);
    assert_eq!(info.analog_channels.len(), source.analog_channels.len());
    for (flat, channel) in info.analog_channels.iter().zip(source.analog_channels.iter()) {
        match &flat.values {
            Some(values) => assert_eq!(values.len(), channel.data.len()),
            None => panic!("a waveform snapshot carries the samples"),
        }
    }
}

#[test]
fn timestamps_line_up_with_the_samples() {
    let source = recording(DataFormat::Binary32);
    let info = flatten(&source, SnapshotShape::WithWaveform);
    let times = match &info.timestamps {
        Some(times) => times,
        None => panic!("a waveform snapshot carries the timestamps"),
    };
    for flat in info.analog_channels.iter() {
        match &flat.values {
            Some(values) => assert_eq!(values.len(), times.len()),
            None => panic!("a waveform snapshot carries the samples"),
        }
    }
    for pair in times.windows(2) {
        assert!(pair[0] < pair[1]);
    }
}

#[test]
fn sample_counts_agree_where_every_channel_has_one_sample_per_timestamp() {
    let mut source = recording(DataFormat::Ascii);
    assert!(source.sample_counts_agree());
    source.analog_channels[1].data.truncate(1);
    assert!(!source.sample_counts_agree());
    source.analog_channels.truncate(1);
    assert!(source.sample_counts_agree());
    source.sampling_rates.clear();
    assert!(!source.sample_counts_agree());
    source.analog_channels.clear();
    assert!(source.sample_counts_agree());
}

#[test]
fn broken_table_has_a_metadata_snapshot_and_no_waveform() {
    let mut source = recording(DataFormat::Ascii);
    source.sampling_rates[1].end_sample_index = 1;
    assert_eq!(flatten_recording(&source, SnapshotShape::WithWaveform), None);
    let info = flatten(&source, SnapshotShape::MetadataOnly);
    assert_eq!(info.analog_channels.len(), 2);
    assert_eq!(info.timestamps, None);
    let mut still = recording(DataFormat::Ascii);
    still.sampling_rates[0].period_picos = 0;
    assert_eq!(flatten_recording(&still, SnapshotShape::WithWaveform), None);
}

#[test]
fn channels_are_copied_as_they_are_whatever_the_table_says() {
    let mut source = recording(DataFormat::Ascii);
    source.analog_channels[1].data.truncate(1);
    let info = flatten(&source, SnapshotShape::WithWaveform);
    assert_eq!(info.analog_channels[0].values, Some(vec![1.0, 2.0, 3.0, 4.0]));
    assert_eq!(info.analog_channels[1].values, Some(vec![-1.0]));
    assert_eq!(info.timestamps.map(|t| t.len()), Some(4));
}

#[test]
fn snapshot_does_not_share_storage_with_its_recording() {
    let mut source = recording(DataFormat::Ascii);
    let info = flatten(&source, SnapshotShape::WithWaveform);
    source.analog_channels[0].data[0] = 99.0;
    source.station_name.push_str(" (edited)");
    assert_eq!(info.analog_channels[0].values, Some(vec![1.0, 2.0, 3.0, 4.0]));
    assert_eq!(info.station, "North");
}

#[test]
fn single_channel_is_flattened_in_either_shape() {
    let source = channel(3, "IC", vec![0.5, 0.25]);
    let with = flatten_channel(&source, SnapshotShape::WithWaveform);
    let without = flatten_channel(&source, SnapshotShape::MetadataOnly);
    assert_eq!(with.values, Some(vec![0.5, 0.25]));
    assert_eq!(without.values, None);
    assert_eq!(with.index, 3);
    assert_eq!(without.name, "IC");
    assert_eq!(with.multiplier, 0.01);
    assert_eq!(without.offset_adder, -1.5);
}

#[test]
fn recording_without_channels_or_samples_flattens_to_an_empty_snapshot() {
    let source: Recording<f64> = Recording {
        station_name: String::new(),
        recording_device_id: String::new(),
        start_time: RecordedInstant { text: String::new(), epoch_seconds: 0, subsec_nanos: 0 },
        trigger_time: RecordedInstant { text: String::new(), epoch_seconds: 0, subsec_nanos: 0 },
        data_format: DataFormat::Ascii,
        line_frequency: 60.0,
        sampling_rates: vec![],
        analog_channels: vec![],
    };
    let info = flatten(&source, SnapshotShape::WithWaveform);
    assert!(info.analog_channels.is_empty());
    assert_eq!(info.timestamps, Some(vec![]));
    assert_eq!(info.frequency, 60.0);
}
