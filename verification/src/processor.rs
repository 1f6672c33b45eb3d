//! The audio component: its single stereo bus, and how a processing call is laid out
//! before any sample is touched.
use vstd::prelude::*;
use crate::status::ResultCode;

verus! {

/// The media type a host asks about, as the plugin tells them apart.
#[derive(Clone, Copy, PartialEq, Eq, Structural, Debug)]
pub enum MediaType {
    /// `kAudio`
    Audio,
    /// Any other media type, by its host-side number.
    Other(i32),
}

/// Direction of a bus.
#[derive(Clone, Copy, PartialEq, Eq, Structural, Debug)]
pub enum BusDirection {
    /// `kInput`
    Input,
    /// `kOutput`
    Output,
}

/// What the host is told about a bus.
#[derive(Clone, Copy, Debug)]
pub struct BusDescription {
    /// The media type the host asked about.
    pub media_type: MediaType,
    pub direction: BusDirection,
    pub channel_count: i32,
    /// Whether the bus is a main bus (`kMain`); otherwise it is auxiliary.
    pub is_main: bool,
    pub name: &'static str,
    /// Whether the bus is active by default (`kDefaultActive`).
    pub default_active: bool,
}

/// Number of buses of each media type and direction.
pub fn bus_count() -> (r: i32)
    ensures
        r == 1,
{
    1
}

/// Processing latency, in samples.
pub fn latency_samples() -> (r: i32)
    ensures
        r == 0,
{
    0
}

/// The description of bus `index` asked for with `media_type`: only index `0` exists,
/// a stereo main bus named `Main`, active by default, reported as an input bus when the
/// host asks with the audio media type and as an output bus otherwise.
pub fn bus_info(media_type: MediaType, index: i32) -> (r: Result<BusDescription, ResultCode>)
    ensures
        match r {
            Ok(b) => {
                &&& index == 0
                &&& b.media_type == media_type
                &&& b.direction == (if media_type == MediaType::Audio {
                    BusDirection::Input
                } else {
                    BusDirection::Output
                })
                &&& b.channel_count == 2
                &&& b.is_main
                &&& b.name@ == "Main"@
                &&& b.default_active
            },
            Err(e) => index != 0 && e == ResultCode::InvalidArgument,
        },
{
    if index != 0 {
        return Err(ResultCode::InvalidArgument);
    }
    let direction = match media_type {
        MediaType::Audio => BusDirection::Input,
        MediaType::Other(_) => BusDirection::Output,
    };
    Ok(
        BusDescription {
            media_type,
            direction,
            channel_count: 2,
            is_main: true,
            name: "Main",
            default_active: true,
        },
    )
}

/// The result of a processing call: refused only when the host passes no process data.
pub fn process_status(data_present: bool) -> (r: ResultCode)
    ensures
        r == (if data_present { ResultCode::ResultOk } else { ResultCode::InvalidArgument }),
{
    if data_present {
        ResultCode::ResultOk
    } else {
        ResultCode::InvalidArgument
    }
}

/// Audio is processed only when the host provides at least one input and one output bus.
pub fn has_main_buses(num_inputs: i32, num_outputs: i32) -> (r: bool)
    ensures
        r == (num_inputs >= 1 && num_outputs >= 1),
{
    num_inputs >= 1 && num_outputs >= 1
}

/// How the samples of one processing call are walked.
#[derive(Clone, Copy, PartialEq, Eq, Structural, Debug)]
pub struct ProcessLayout {
    /// Channels processed: those present on both the input and the output bus.
    pub channels: usize,
    /// Samples per channel.
    pub frames: usize,
    /// The count that a channel's sum of squares is divided by for its RMS level: the
    /// number of frames, at least one.
    pub rms_divisor: usize,
}

/// The layout of a processing call, given the first input and output bus: `None` when
/// either has no 32-bit sample buffers. Host counts are taken as `usize` the way Rust's
/// `as` converts them.
pub fn channel_layout(
    input_buffers_present: bool,
    output_buffers_present: bool,
    input_channels: i32,
    output_channels: i32,
    num_samples: i32,
) -> (r: Option<ProcessLayout>)
    ensures
        r == (if input_buffers_present && output_buffers_present {
            Some(
                ProcessLayout {
                    channels: if (input_channels as usize) < (output_channels as usize) {
                        input_channels as usize
                    } else {
                        output_channels as usize
                    },
                    frames: num_samples as usize,
                    rms_divisor: if num_samples as usize >= 1 { num_samples as usize } else { 1 },
                },
            )
        } else {
            None
        }),
{
    if !(input_buffers_present && output_buffers_present) {
        return None;
    }
    let in_channels = input_channels as usize;
    let out_channels = output_channels as usize;
    let frames = num_samples as usize;
    Some(
        ProcessLayout {
            channels: if in_channels < out_channels { in_channels } else { out_channels },
            frames,
            rms_divisor: if frames >= 1 { frames } else { 1 },
        },
    )
}

/// The meter a channel feeds.
#[derive(Clone, Copy, PartialEq, Eq, Structural, Debug)]
pub enum MeterSide {
    Left,
    Right,
}

/// Channel `0` feeds the left meters, channel `1` the right ones; others feed none.
pub fn meter_side(channel: usize) -> (r: Option<MeterSide>)
    ensures
        r == (if channel == 0 {
            Some(MeterSide::Left)
        } else if channel == 1 {
            Some(MeterSide::Right)
        } else {
            None
        }),
{
    if channel == 0 {
        Some(MeterSide::Left)
    } else if channel == 1 {
        Some(MeterSide::Right)
    } else {
        None
    }
}

} // verus!
