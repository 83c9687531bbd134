//! Options of the camera pipelines.

use vstd::prelude::*;

verus! {

/// The element that video comes from.
#[derive(Clone, Copy, Debug, PartialEq, Eq, Structural)]
pub enum SrcOption {
    Libcamerasrc,
    Videotestsrc,
    Shmsrc,
}

pub open spec fn src_option_name(s: SrcOption) -> Seq<char> {
    match s {
        SrcOption::Libcamerasrc => "libcamerasrc"@,
        SrcOption::Videotestsrc => "videotestsrc"@,
        SrcOption::Shmsrc => "shmsrc"@,
    }
}

impl SrcOption {
    /// The option's name, which is also the name of the element's factory.
    pub fn as_str(&self) -> (s: &'static str)
        ensures
            s@ == src_option_name(*self),
    {
        match self {
            SrcOption::Libcamerasrc => "libcamerasrc",
            SrcOption::Videotestsrc => "videotestsrc",
            SrcOption::Shmsrc => "shmsrc",
        }
    }
}

/// Where an RTP stream is sent.
#[derive(Clone, Copy, Debug, PartialEq, Eq, Structural)]
pub enum RtpSinkOption {
    Edge,
    Cloud,
}

pub open spec fn rtp_sink_option_name(s: RtpSinkOption) -> Seq<char> {
    match s {
        RtpSinkOption::Edge => "edge"@,
        RtpSinkOption::Cloud => "cloud"@,
    }
}

impl RtpSinkOption {
    /// The option's name.
    pub fn as_str(&self) -> (s: &'static str)
        ensures
            s@ == rtp_sink_option_name(*self),
    {
        match self {
            RtpSinkOption::Edge => "edge",
            RtpSinkOption::Cloud => "cloud",
        }
    }
}

/// The output formats of the dataframe aggregator element.
#[derive(Clone, Copy, Debug, PartialEq, Eq, Structural)]
pub enum DataframeOutputType {
    /// The aggregate dataframe in Arrow streaming IPC format.
    ArrowStreamingIpc,
    /// The aggregate dataframe as a JSON byte array.
    Json,
    /// The aggregate dataframe as a framed JSON byte array.
    JsonFramed,
}

pub open spec fn dataframe_output_nick(t: DataframeOutputType) -> Seq<char> {
    match t {
        DataframeOutputType::ArrowStreamingIpc => "arrow-streaming-ipc"@,
        DataframeOutputType::Json => "json"@,
        DataframeOutputType::JsonFramed => "json-framed"@,
    }
}

impl DataframeOutputType {
    /// The short name the element's property takes.
    pub fn nick(&self) -> (s: &'static str)
        ensures
            s@ == dataframe_output_nick(*self),
    {
        match self {
            DataframeOutputType::ArrowStreamingIpc => "arrow-streaming-ipc",
            DataframeOutputType::Json => "json",
            DataframeOutputType::JsonFramed => "json-framed",
        }
    }

    /// The numeric value of the format.
    pub fn value(&self) -> (v: u32)
        ensures
            v == match *self {
                DataframeOutputType::ArrowStreamingIpc => 0u32,
                DataframeOutputType::Json => 1u32,
                DataframeOutputType::JsonFramed => 2u32,
            },
    {
        match self {
            DataframeOutputType::ArrowStreamingIpc => 0,
            DataframeOutputType::Json => 1,
            DataframeOutputType::JsonFramed => 2,
        }
    }
}

} // verus!
