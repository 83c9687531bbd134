//! The live camera pipeline: camera video is encoded to h264, payloaded as RTP
//! and sent over UDP to the Janus gateway on the Pi, to the vision service on
//! the Pi, and, when cloud video is enabled, to the cloud Janus gateway.

use vstd::prelude::*;

use crate::decimal::{format_i32, int_to_decimal};
use crate::options::{src_option_name, SrcOption};
use crate::pipeline::{
    caps, caps_fields_of, caps_prop, chain_links, element, element_spec, has_caps_field,
    text_prop, CapsValue, CapsValueView,
    Element, ElementView, Pipeline, PipelineView, PropertyValue, PropertyValueView,
};

verus! {

/// The camera pipeline's settings.
pub struct PrintNannyCam {
    pub video_height: i32,
    pub video_width: i32,
    pub video_fps: i32,
    pub video_src: SrcOption,
}

/// Where the RTP streams go, as the Pi's configuration says.
pub struct JanusSettings {
    pub cloud_video_enabled: bool,
    pub cloud_rtp_domain: String,
    pub cloud_rtp_port: Option<i32>,
    pub edge_rtp_port: Option<i32>,
}

/// The RTP port of the Janus gateway on the Pi, unless configured otherwise.
pub const DEFAULT_EDGE_RTP_PORT: i32 = 5105;

/// A UDP sink to `host:port`, the port written in decimal.
pub open spec fn udp_sink_spec(name: Option<Seq<char>>, host: Seq<char>, port: Seq<char>) -> ElementView {
    element_spec("udpsink"@, name, seq![text_prop("host"@, host), text_prop("port"@, port)])
}

/// The elements streaming to the cloud, when cloud video is enabled.
pub open spec fn cloud_elements(janus: JanusSettings) -> Seq<ElementView> {
    if janus.cloud_video_enabled {
        seq![
            element_spec("queue2"@, Some("januscloud_queue"@), Seq::empty()),
            udp_sink_spec(
                Some("januscloud_sink"@),
                janus.cloud_rtp_domain@,
                int_to_decimal(janus.cloud_rtp_port->Some_0 as int),
            ),
        ]
    } else {
        Seq::empty()
    }
}

/// The elements of the camera pipeline proper, in the order they are added.
pub open spec fn cam_elements(cam: PrintNannyCam, janus: JanusSettings) -> Seq<ElementView> {
    seq![
        element_spec(src_option_name(cam.video_src), Some("video_src"@), Seq::empty()),
        element_spec(
            "capsfilter"@,
            Some("incapsfilter"@),
            seq![
                caps_prop(
                    "video/x-raw"@,
                    seq![
                        ("width"@, CapsValueView::Int(cam.video_width)),
                        ("height"@, CapsValueView::Int(cam.video_height)),
                        ("fps"@, CapsValueView::Int(cam.video_fps)),
                    ],
                ),
            ],
        ),
        element_spec("v4l2convert"@, None, Seq::empty()),
        element_spec(
            "v4l2h264enc"@,
            None,
            seq![text_prop("extra-controls"@, "controls,repeat_sequence_header=1"@)],
        ),
        element_spec(
            "capsfilter"@,
            Some("encapsfilter"@),
            seq![
                caps_prop(
                    "video/x-h264"@,
                    seq![
                        ("width"@, CapsValueView::Int(cam.video_width)),
                        ("height"@, CapsValueView::Int(cam.video_height)),
                        ("level"@, CapsValueView::Text("4"@)),
                    ],
                ),
            ],
        ),
        element_spec("rtph264pay"@, None, Seq::empty()),
        element_spec("tee"@, Some("t0"@), Seq::empty()),
        element_spec("queue2"@, Some("janusedge_queue"@), Seq::empty()),
        udp_sink_spec(
            Some("janusedge_udpsink"@),
            "127.0.0.1"@,
            int_to_decimal(
                match janus.edge_rtp_port {
                    Some(p) => p as int,
                    None => DEFAULT_EDGE_RTP_PORT as int,
                },
            ),
        ),
        element_spec("queue2"@, None, Seq::empty()),
        udp_sink_spec(None, "127.0.0.1"@, "5205"@),
    ]
}

/// The links of the camera pipeline, where the pipeline proper starts at index
/// `k`: the tee to the cloud queue (when there is one), to the edge queue and to
/// the vision sink, then the chain from the source to the tee.
pub open spec fn cam_links(k: int, cloud: bool) -> Seq<(usize, usize)> {
    let tee = (k + 6) as usize;
    (if cloud {
        seq![(tee, 0usize)]
    } else {
        Seq::empty()
    }) + seq![(tee, (k + 7) as usize), (tee, (k + 10) as usize)] + chain_links(k, k + 7)
}

/// The camera is asked for the configured frame: in the camera pipeline, the
/// raw caps filter `incapsfilter` (right after the source) holds the configured
/// width, height and frame rate under those field names, and the h264 caps
/// filter `encapsfilter` the configured width and height.
pub proof fn lemma_cam_caps_follow_configuration(cam: PrintNannyCam, janus: JanusSettings)
    ensures
        ({
            let es = cloud_elements(janus) + cam_elements(cam, janus);
            let k = if janus.cloud_video_enabled {
                2int
            } else {
                0int
            };
            &&& es[k].name == Some("video_src"@)
            &&& es[k + 1].factory == "capsfilter"@
            &&& es[k + 1].name == Some("incapsfilter"@)
            &&& has_caps_field(es[k + 1], "width"@, CapsValueView::Int(cam.video_width))
            &&& has_caps_field(es[k + 1], "height"@, CapsValueView::Int(cam.video_height))
            &&& has_caps_field(es[k + 1], "fps"@, CapsValueView::Int(cam.video_fps))
            &&& es[k + 4].name == Some("encapsfilter"@)
            &&& has_caps_field(es[k + 4], "width"@, CapsValueView::Int(cam.video_width))
            &&& has_caps_field(es[k + 4], "height"@, CapsValueView::Int(cam.video_height))
        }),
{
    let es = cloud_elements(janus) + cam_elements(cam, janus);
    let k = if janus.cloud_video_enabled {
        2int
    } else {
        0int
    };
    let c = cloud_elements(janus);
    assert(c.len() == k);
    let inc = es[k + 1];
    let enc = es[k + 4];
    assert(inc == cam_elements(cam, janus)[1]);
    assert(enc == cam_elements(cam, janus)[4]);
    let fi = caps_fields_of(inc.properties[0]);
    let fe = caps_fields_of(enc.properties[0]);
    assert(fi[0] == ("width"@, CapsValueView::Int(cam.video_width)));
    assert(fi[1] == ("height"@, CapsValueView::Int(cam.video_height)));
    assert(fi[2] == ("fps"@, CapsValueView::Int(cam.video_fps)));
    assert(fe[0] == ("width"@, CapsValueView::Int(cam.video_width)));
    assert(fe[1] == ("height"@, CapsValueView::Int(cam.video_height)));
}

fn udp_sink(name: Option<&str>, host: &str, port: &str) -> (e: Element)
    ensures
        e@ == udp_sink_spec(
            match name {
                Some(n) => Some(n@),
                None => None,
            },
            host@,
            port@,
        ),
{
    let mut e = element("udpsink", name);
    e.set_text("host", host);
    e.set_text("port", port);
    assert(e@.properties =~= seq![text_prop("host"@, host@), text_prop("port"@, port@)]);
    e
}

impl PrintNannyCam {
    /// The camera pipeline. When cloud video is enabled, a queue and a UDP sink to
    /// the cloud gateway come first; then the source, raw caps of the configured
    /// size and frame rate, the hardware converter and h264 encoder, h264 caps at
    /// level 4, the RTP payloader and a tee, the queue and UDP sink to the Pi's
    /// gateway (port 5105 unless configured), and a queue and UDP sink to the vision
    /// service (port 5205). The cloud port must be configured when cloud video is
    /// enabled.
    pub fn build_pipeline(&self, janus: &JanusSettings) -> (p: Pipeline)
        requires
            janus.cloud_video_enabled ==> janus.cloud_rtp_port is Some,
        ensures
            p@ == (PipelineView {
                name: None,
                elements: cloud_elements(*janus) + cam_elements(*self, *janus),
                links: cam_links(
                    if janus.cloud_video_enabled {
                        2
                    } else {
                        0
                    },
                    janus.cloud_video_enabled,
                ),
            }),
            ({
                let k = if janus.cloud_video_enabled {
                    2int
                } else {
                    0int
                };
                &&& p@.elements[k + 1].name == Some("incapsfilter"@)
                &&& has_caps_field(p@.elements[k + 1], "width"@, CapsValueView::Int(self.video_width))
                &&& has_caps_field(
                    p@.elements[k + 1],
                    "height"@,
                    CapsValueView::Int(self.video_height),
                )
                &&& has_caps_field(p@.elements[k + 1], "fps"@, CapsValueView::Int(self.video_fps))
            }),
    {
        proof {
            lemma_cam_caps_follow_configuration(*self, *janus);
        }
        let mut p = Pipeline::new(None);
        let k: usize = if janus.cloud_video_enabled {
            2
        } else {
            0
        };
        let tee: usize = k + 6;
        if janus.cloud_video_enabled {
            let port = match janus.cloud_rtp_port {
                Some(port) => format_i32(port),
                None => {
                    proof {
                        assert(false);
                    }
                    String::new()
                },
            };
            p.add(element("queue2", Some("januscloud_queue")));
            p.add(udp_sink(Some("januscloud_sink"), janus.cloud_rtp_domain.as_str(), port.as_str()));
            p.link(tee, 0);
        }
        assert(p@.elements =~= cloud_elements(*janus));
        let edge_port = match janus.edge_rtp_port {
            Some(port) => format_i32(port),
            None => format_i32(DEFAULT_EDGE_RTP_PORT),
        };
        let e0 = element(self.video_src.as_str(), Some("video_src"));
        let incaps = caps("video/x-raw").field("width", CapsValue::Int(self.video_width)).field(
            "height",
            CapsValue::Int(self.video_height),
        ).field("fps", CapsValue::Int(self.video_fps));
        assert(incaps@.fields =~= seq![
            ("width"@, CapsValueView::Int(self.video_width)),
            ("height"@, CapsValueView::Int(self.video_height)),
            ("fps"@, CapsValueView::Int(self.video_fps)),
        ]);
        let mut e1 = element("capsfilter", Some("incapsfilter"));
        e1.set("caps", PropertyValue::Caps(incaps));
        let e2 = element("v4l2convert", None);
        let mut e3 = element("v4l2h264enc", None);
        e3.set_text("extra-controls", "controls,repeat_sequence_header=1");
        let encaps = caps("video/x-h264").field("width", CapsValue::Int(self.video_width)).field(
            "height",
            CapsValue::Int(self.video_height),
        ).field("level", CapsValue::Text("4".to_owned()));
        assert(encaps@.fields =~= seq![
            ("width"@, CapsValueView::Int(self.video_width)),
            ("height"@, CapsValueView::Int(self.video_height)),
            ("level"@, CapsValueView::Text("4"@)),
        ]);
        let mut e4 = element("capsfilter", Some("encapsfilter"));
        e4.set("caps", PropertyValue::Caps(encaps));
        let e5 = element("rtph264pay", None);
        let e6 = element("tee", Some("t0"));
        let e7 = element("queue2", Some("janusedge_queue"));
        let e8 = udp_sink(Some("janusedge_udpsink"), "127.0.0.1", edge_port.as_str());
        let e9 = element("queue2", None);
        let e10 = udp_sink(None, "127.0.0.1", "5205");
        let ghost views = seq![
            e0@,
            e1@,
            e2@,
            e3@,
            e4@,
            e5@,
            e6@,
            e7@,
            e8@,
            e9@,
            e10@,
        ];
        assert(views =~~= cam_elements(*self, *janus));
        let ghost before = p@;
        p.add(e0);
        p.add(e1);
        p.add(e2);
        p.add(e3);
        p.add(e4);
        p.add(e5);
        p.add(e6);
        p.add(e7);
        p.add(e8);
        p.add(e9);
        p.add(e10);
        assert(p@.elements =~= before.elements + views);
        p.link(tee, k + 7);
        p.link(tee, k + 10);
        let ghost mid = p@.links;
        p.link_chain(k, k + 7);
        assert(p@.links =~= cam_links(k as int, janus.cloud_video_enabled));
        p
    }
}

} // verus!
