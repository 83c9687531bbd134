//! The camera pipelines: encoding the camera's video to h264 into shared memory,
//! sending it as RTP over UDP, and writing raw video to a shared memory socket.

use vstd::prelude::*;

use crate::decimal::{format_i32, int_to_decimal};
use crate::options::{src_option_name, SrcOption};
use crate::pipeline::{
    caps, caps_prop, element, element_spec, text_prop, CapsValue, CapsValueView, Element,
    ElementView, Pipeline, PipelineView, PropertyValue, PropertyValueView,
};

verus! {

/// The input element: made by the factory the option names, named `video_src`;
/// a shared memory source reads `shm_socket` and is live, a test source is live.
/// `repeat` is how many times the shared memory properties are set.
pub open spec fn video_src_spec(src: SrcOption, shm_socket: Seq<char>, repeat: bool) -> ElementView {
    let shm = seq![
        text_prop("socket-path"@, shm_socket),
        ("is-live"@, PropertyValueView::Bool(true)),
    ];
    element_spec(
        src_option_name(src),
        Some("video_src"@),
        match src {
            SrcOption::Shmsrc => if repeat {
                shm + shm
            } else {
                shm
            },
            SrcOption::Videotestsrc => seq![("is-live"@, PropertyValueView::Bool(true))],
            SrcOption::Libcamerasrc => Seq::empty(),
        },
    )
}

fn video_src(src: SrcOption, shm_socket: &String, repeat: bool) -> (e: Element)
    ensures
        e@ == video_src_spec(src, shm_socket@, repeat),
{
    let mut e = element(src.as_str(), Some("video_src"));
    match src {
        SrcOption::Shmsrc => {
            e.set_text("socket-path", shm_socket.as_str());
            e.set("is-live", PropertyValue::Bool(true));
            if repeat {
                e.set_text("socket-path", shm_socket.as_str());
                e.set("is-live", PropertyValue::Bool(true));
            }
        },
        SrcOption::Videotestsrc => {
            e.set("is-live", PropertyValue::Bool(true));
        },
        SrcOption::Libcamerasrc => {},
    }
    assert(e@.properties =~= video_src_spec(src, shm_socket@, repeat).properties);
    e
}

/// Raw RGB video of the given size, at a variable frame rate.
pub open spec fn raw_rgb_caps(width: i32, height: i32) -> (Seq<char>, PropertyValueView) {
    caps_prop(
        "video/x-raw"@,
        seq![
            ("width"@, CapsValueView::Int(width)),
            ("height"@, CapsValueView::Int(height)),
            ("framerate"@, CapsValueView::Fraction(0, 1)),
            ("format"@, CapsValueView::Text("RGB"@)),
        ],
    )
}

/// h264 video of the given size and level.
pub open spec fn h264_caps(width: i32, height: i32, level: Seq<char>) -> (Seq<char>, PropertyValueView) {
    caps_prop(
        "video/x-h264"@,
        seq![
            ("width"@, CapsValueView::Int(width)),
            ("height"@, CapsValueView::Int(height)),
            ("level"@, CapsValueView::Text(level)),
        ],
    )
}

fn raw_rgb_capsfilter(name: &str, width: i32, height: i32) -> (e: Element)
    ensures
        e@ == element_spec("capsfilter"@, Some(name@), seq![raw_rgb_caps(width, height)]),
{
    let c = caps("video/x-raw").field("width", CapsValue::Int(width)).field(
        "height",
        CapsValue::Int(height),
    ).field("framerate", CapsValue::Fraction(0, 1)).field(
        "format",
        CapsValue::Text("RGB".to_owned()),
    );
    assert(c@.fields =~= seq![
        ("width"@, CapsValueView::Int(width)),
        ("height"@, CapsValueView::Int(height)),
        ("framerate"@, CapsValueView::Fraction(0, 1)),
        ("format"@, CapsValueView::Text("RGB"@)),
    ]);
    assert(c@.media == "video/x-raw"@);
    let mut e = element("capsfilter", Some(name));
    e.set("caps", PropertyValue::Caps(c));
    assert(e@.properties[0] == raw_rgb_caps(width, height));
    assert(e@.properties =~= seq![raw_rgb_caps(width, height)]);
    e
}

fn h264_capsfilter(name: Option<&str>, width: i32, height: i32, level: &str) -> (e: Element)
    ensures
        e@ == element_spec(
            "capsfilter"@,
            match name {
                Some(n) => Some(n@),
                None => None,
            },
            seq![h264_caps(width, height, level@)],
        ),
{
    let c = caps("video/x-h264").field("width", CapsValue::Int(width)).field(
        "height",
        CapsValue::Int(height),
    ).field("level", CapsValue::Text(level.to_owned()));
    assert(c@.fields =~= seq![
        ("width"@, CapsValueView::Int(width)),
        ("height"@, CapsValueView::Int(height)),
        ("level"@, CapsValueView::Text(level@)),
    ]);
    let mut e = element("capsfilter", name);
    e.set("caps", PropertyValue::Caps(c));
    assert(e@.properties =~= seq![h264_caps(width, height, level@)]);
    e
}

/// The hardware h264 encoder, set to repeat its sequence header.
pub open spec fn v4l2_encoder_spec() -> ElementView {
    element_spec(
        "v4l2h264enc"@,
        None,
        seq![text_prop("extra-controls"@, "controls,repeat_sequence_header=1"@)],
    )
}

fn v4l2_encoder() -> (e: Element)
    ensures
        e@ == v4l2_encoder_spec(),
{
    let mut e = element("v4l2h264enc", None);
    e.set_text("extra-controls", "controls,repeat_sequence_header=1");
    assert(e@.properties =~= v4l2_encoder_spec().properties);
    e
}

/// A shared memory sink writing to `socket`.
pub open spec fn shm_sink_spec(socket: Seq<char>, wait: bool, size: u32, sync: bool) -> ElementView {
    element_spec(
        "shmsink"@,
        None,
        seq![
            text_prop("socket-path"@, socket),
            ("wait-for-connection"@, PropertyValueView::Bool(wait)),
            ("shm-size"@, PropertyValueView::Int(size as int)),
            ("sync"@, PropertyValueView::Bool(sync)),
        ],
    )
}

fn shm_sink(socket: &String, wait: bool, size: u32, sync: bool) -> (e: Element)
    ensures
        e@ == shm_sink_spec(socket@, wait, size, sync),
{
    let mut e = element("shmsink", None);
    e.set_text("socket-path", socket.as_str());
    e.set("wait-for-connection", PropertyValue::Bool(wait));
    e.set("shm-size", PropertyValue::Int(size as i64));
    e.set("sync", PropertyValue::Bool(sync));
    assert(e@.properties =~= shm_sink_spec(socket@, wait, size, sync).properties);
    e
}

/// Encodes camera video to h264 and writes it to a shared memory socket.
pub struct H264EncoderPipeline {
    pub video_height: i32,
    pub video_width: i32,
    pub video_src: SrcOption,
    pub h264_level: String,
    pub shm_src_socket: String,
    pub shm_sink_socket: String,
    pub shm_size: u32,
    pub shm_wait_for_connection: bool,
    pub shm_sync: bool,
}

/// Which optional elements can be made here.
pub struct ElementAvailability {
    /// `v4l2convert` (else `videoconvert` is used).
    pub v4l2convert: bool,
    /// `v4l2h264enc` (else `x264enc` is used).
    pub v4l2h264enc: bool,
}

impl H264EncoderPipeline {
    /// The pipeline `h264-rtp-payload`: source, raw RGB caps, converter, h264
    /// encoder, h264 caps and a shared memory sink, linked in that order. The
    /// converter and encoder fall back to `videoconvert` and `x264enc` where the
    /// hardware elements are not available.
    pub fn build_pipeline(&self, available: &ElementAvailability) -> (p: Pipeline)
        ensures
            p@ == (PipelineView {
                name: Some("h264-rtp-payload"@),
                elements: seq![
                    video_src_spec(self.video_src, self.shm_src_socket@, true),
                    element_spec(
                        "capsfilter"@,
                        Some("incapsfilter"@),
                        seq![raw_rgb_caps(self.video_width, self.video_height)],
                    ),
                    if available.v4l2convert {
                        element_spec("v4l2convert"@, None, Seq::empty())
                    } else {
                        element_spec("videoconvert"@, None, Seq::empty())
                    },
                    if available.v4l2h264enc {
                        v4l2_encoder_spec()
                    } else {
                        element_spec("x264enc"@, None, Seq::empty())
                    },
                    element_spec(
                        "capsfilter"@,
                        Some("encapsfilter"@),
                        seq![h264_caps(self.video_width, self.video_height, self.h264_level@)],
                    ),
                    shm_sink_spec(
                        self.shm_sink_socket@,
                        self.shm_wait_for_connection,
                        self.shm_size,
                        self.shm_sync,
                    ),
                ],
                links: crate::pipeline::chain_links(0, 6),
            }),
    {
        let e0 = video_src(self.video_src, &self.shm_src_socket, true);
        let e1 = raw_rgb_capsfilter("incapsfilter", self.video_width, self.video_height);
        let e2 = if available.v4l2convert {
            element("v4l2convert", None)
        } else {
            element("videoconvert", None)
        };
        let e3 = if available.v4l2h264enc {
            v4l2_encoder()
        } else {
            element("x264enc", None)
        };
        let e4 = h264_capsfilter(
            Some("encapsfilter"),
            self.video_width,
            self.video_height,
            self.h264_level.as_str(),
        );
        let e5 = shm_sink(&self.shm_sink_socket, self.shm_wait_for_connection, self.shm_size, self.shm_sync);
        let ghost views = seq![e0@, e1@, e2@, e3@, e4@, e5@];
        let mut p = Pipeline::new(Some("h264-rtp-payload"));
        p.add(e0);
        p.add(e1);
        p.add(e2);
        p.add(e3);
        p.add(e4);
        p.add(e5);
        p.link_chain(0, 6);
        assert(p@.elements =~= views);
        p
    }
}

impl H264EncoderPipeline {
    /// The pipeline's defaults: read from `shm_src_socket` (the camera's video
    /// socket), write to `shm_sink_socket`, 640x480 from the camera, h264 level 4,
    /// 128 MiB of shared memory, waiting for a reader, synchronised.
    pub fn new_default(shm_src_socket: String, shm_sink_socket: String) -> (p: H264EncoderPipeline)
        ensures
            p.h264_level@ == "4"@,
            p.shm_size == 134217728,
            p.shm_src_socket == shm_src_socket,
            p.shm_sink_socket == shm_sink_socket,
            p.shm_wait_for_connection,
            p.shm_sync,
            p.video_height == 480,
            p.video_width == 640,
            p.video_src == SrcOption::Libcamerasrc,
    {
        H264EncoderPipeline {
            h264_level: "4".to_owned(),
            shm_size: 134217728,
            shm_src_socket,
            shm_sink_socket,
            shm_wait_for_connection: true,
            shm_sync: true,
            video_height: 480,
            video_width: 640,
            video_src: SrcOption::Libcamerasrc,
        }
    }
}

/// Sends h264 video as RTP over UDP.
pub struct RtpUdpPipeline {
    pub rtp_host: String,
    pub rtp_port: i32,
    pub video_height: i32,
    pub video_width: i32,
    pub video_src: SrcOption,
    pub h264_level: String,
    pub shm_src_socket: String,
}

impl RtpUdpPipeline {
    /// The pipeline's defaults: to `localhost:5000`, from `shm_src_socket`,
    /// 640x480 at h264 level 4, from the camera.
    pub fn new_default(shm_src_socket: String) -> (p: RtpUdpPipeline)
        ensures
            p.h264_level@ == "4"@,
            p.rtp_host@ == "localhost"@,
            p.rtp_port == 5000,
            p.shm_src_socket == shm_src_socket,
            p.video_height == 480,
            p.video_width == 640,
            p.video_src == SrcOption::Libcamerasrc,
    {
        RtpUdpPipeline {
            h264_level: "4".to_owned(),
            rtp_host: "localhost".to_owned(),
            rtp_port: 5000,
            shm_src_socket,
            video_height: 480,
            video_width: 640,
            video_src: SrcOption::Libcamerasrc,
        }
    }

    /// The pipeline: source, h264 caps, a queue and a UDP sink to the RTP host
    /// and port, linked in that order.
    pub fn build_pipeline(&self) -> (p: Pipeline)
        ensures
            p@ == (PipelineView {
                name: None,
                elements: seq![
                    video_src_spec(self.video_src, self.shm_src_socket@, false),
                    element_spec(
                        "capsfilter"@,
                        Some("encapsfilter"@),
                        seq![h264_caps(self.video_width, self.video_height, self.h264_level@)],
                    ),
                    element_spec("queue2"@, None, Seq::empty()),
                    element_spec(
                        "udpsink"@,
                        None,
                        seq![
                            text_prop("host"@, self.rtp_host@),
                            ("port"@, PropertyValueView::Int(self.rtp_port as int)),
                        ],
                    ),
                ],
                links: crate::pipeline::chain_links(0, 4),
            }),
    {
        let e0 = video_src(self.video_src, &self.shm_src_socket, false);
        let e1 = h264_capsfilter(
            Some("encapsfilter"),
            self.video_width,
            self.video_height,
            self.h264_level.as_str(),
        );
        let e2 = element("queue2", None);
        let mut e3 = element("udpsink", None);
        e3.set_text("host", self.rtp_host.as_str());
        e3.set("port", PropertyValue::Int(self.rtp_port as i64));
        assert(e3@.properties =~= seq![
            text_prop("host"@, self.rtp_host@),
            ("port"@, PropertyValueView::Int(self.rtp_port as int)),
        ]);
        let ghost views = seq![e0@, e1@, e2@, e3@];
        let mut p = Pipeline::new(None);
        p.add(e0);
        p.add(e1);
        p.add(e2);
        p.add(e3);
        p.link_chain(0, 4);
        assert(p@.elements =~= views);
        p
    }
}

/// Writes raw camera video to a shared memory socket.
pub struct VideoSocketPipeline {
    pub shm_size: u32,
    pub shm_wait_for_connection: bool,
    pub shm_socket: String,
    pub video_height: i32,
    pub video_width: i32,
    pub video_fps: i32,
    pub video_src: SrcOption,
}

impl VideoSocketPipeline {
    /// The pipeline's defaults: 128 MiB of shared memory at `shm_socket`, waiting
    /// for a reader, 640x480 at 24 frames per second from the camera.
    pub fn new_default(shm_socket: String) -> (p: VideoSocketPipeline)
        ensures
            p.shm_size == 134217728,
            p.shm_socket == shm_socket,
            p.shm_wait_for_connection,
            p.video_height == 480,
            p.video_width == 640,
            p.video_fps == 24,
            p.video_src == SrcOption::Libcamerasrc,
    {
        VideoSocketPipeline {
            shm_size: 134217728,
            shm_socket,
            shm_wait_for_connection: true,
            video_height: 480,
            video_width: 640,
            video_fps: 24,
            video_src: SrcOption::Libcamerasrc,
        }
    }

    /// The pipeline: source, raw RGB caps, a queue and a shared memory sink,
    /// linked in that order.
    pub fn build_pipeline(&self) -> (p: Pipeline)
        ensures
            p@ == (PipelineView {
                name: None,
                elements: seq![
                    element_spec(src_option_name(self.video_src), Some("video_src"@), Seq::empty()),
                    element_spec(
                        "capsfilter"@,
                        Some("incapsfilter"@),
                        seq![raw_rgb_caps(self.video_width, self.video_height)],
                    ),
                    element_spec("queue"@, None, Seq::empty()),
                    element_spec(
                        "shmsink"@,
                        None,
                        seq![
                            text_prop("socket-path"@, self.shm_socket@),
                            ("wait-for-connection"@, PropertyValueView::Bool(
                                self.shm_wait_for_connection,
                            )),
                            ("shm-size"@, PropertyValueView::Int(self.shm_size as int)),
                        ],
                    ),
                ],
                links: crate::pipeline::chain_links(0, 4),
            }),
    {
        let e0 = element(self.video_src.as_str(), Some("video_src"));
        let e1 = raw_rgb_capsfilter("incapsfilter", self.video_width, self.video_height);
        let e2 = element("queue", None);
        let mut e3 = element("shmsink", None);
        e3.set_text("socket-path", self.shm_socket.as_str());
        e3.set("wait-for-connection", PropertyValue::Bool(self.shm_wait_for_connection));
        e3.set("shm-size", PropertyValue::Int(self.shm_size as i64));
        assert(e3@.properties =~= seq![
            text_prop("socket-path"@, self.shm_socket@),
            ("wait-for-connection"@, PropertyValueView::Bool(self.shm_wait_for_connection)),
            ("shm-size"@, PropertyValueView::Int(self.shm_size as int)),
        ]);
        let ghost views = seq![e0@, e1@, e2@, e3@];
        let mut p = Pipeline::new(None);
        p.add(e0);
        p.add(e1);
        p.add(e2);
        p.add(e3);
        p.link_chain(0, 4);
        assert(p@.elements =~= views);
        p
    }
}

} // verus!
