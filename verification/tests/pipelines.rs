use printnanny_nats::broadcast::{
    App, AppError, AppOptions, AppVariant, BroadcastRtpVideoOverlay, SinkOption,
    VideoEncodingOption,
};
use printnanny_nats::cam::{JanusSettings, PrintNannyCam};
use printnanny_nats::options::{DataframeOutputType, RtpSinkOption, SrcOption};
use printnanny_nats::pipeline::{
    on_bus_message, BusAction, BusMessage, CapsValue, Element, MissingElement, Pipeline,
    PropertyValue,
};
use printnanny_nats::video::{
    ElementAvailability, H264EncoderPipeline, RtpUdpPipeline, VideoSocketPipeline,
};

fn factories(p: &Pipeline) -> Vec<&str> {
    p.elements.iter().map(|e| e.factory.as_str()).collect()
}

fn text(e: &Element, name: &str) -> Option<String> {
    e.properties.iter().rev().find(|(n, _)| n == name).and_then(|(_, v)| match v {
        PropertyValue::Text(s) => Some(s.clone()),
        _ => None,
    })
}

#[test]
fn option_names() {
    assert_eq!(SrcOption::Libcamerasrc.as_str(), "libcamerasrc");
    assert_eq!(SrcOption::Shmsrc.as_str(), "shmsrc");
    assert_eq!(RtpSinkOption::Cloud.as_str(), "cloud");
    assert_eq!(DataframeOutputType::JsonFramed.nick(), "json-framed");
    assert_eq!(DataframeOutputType::Json.value(), 1);
    assert_eq!(
        MissingElement("queue").message(),
        "Missing gstreamer element queue"
    );
}

#[test]
fn h264_pipeline_falls_back_to_software() {
    let mut h = H264EncoderPipeline::new_default("/run/video.sock".into(), "/run/h264.sock".into());
    h.video_src = SrcOption::Shmsrc;
    let p = h.build_pipeline(&ElementAvailability {
        v4l2convert: false,
        v4l2h264enc: false,
    });
    assert_eq!(p.name.as_deref(), Some("h264-rtp-payload"));
    assert_eq!(
        factories(&p),
        vec!["shmsrc", "capsfilter", "videoconvert", "x264enc", "capsfilter", "shmsink"]
    );
    assert_eq!(p.links, vec![(0, 1), (1, 2), (2, 3), (3, 4), (4, 5)]);
    assert_eq!(text(&p.elements[0], "socket-path").as_deref(), Some("/run/video.sock"));
    // the shared memory source properties are set twice
    assert_eq!(p.elements[0].properties.len(), 4);
    assert_eq!(text(&p.elements[5], "socket-path").as_deref(), Some("/run/h264.sock"));
    let p = h.build_pipeline(&ElementAvailability {
        v4l2convert: true,
        v4l2h264enc: true,
    });
    assert_eq!(p.elements[2].factory, "v4l2convert");
    assert_eq!(
        text(&p.elements[3], "extra-controls").as_deref(),
        Some("controls,repeat_sequence_header=1")
    );
    match &p.elements[4].properties[0].1 {
        PropertyValue::Caps(c) => {
            assert_eq!(c.media, "video/x-h264");
            assert!(matches!(&c.fields[2].1, CapsValue::Text(l) if l == "4"));
        }
        _ => panic!("expected caps"),
    }
}

#[test]
fn rtp_udp_and_video_socket_pipelines() {
    let r = RtpUdpPipeline::new_default("/run/h264.sock".into());
    let p = r.build_pipeline();
    assert_eq!(factories(&p), vec!["libcamerasrc", "capsfilter", "queue2", "udpsink"]);
    assert_eq!(text(&p.elements[3], "host").as_deref(), Some("localhost"));
    assert!(matches!(p.elements[3].properties[1].1, PropertyValue::Int(5000)));
    let v = VideoSocketPipeline::new_default("/run/video.sock".into());
    let p = v.build_pipeline();
    assert_eq!(factories(&p), vec!["libcamerasrc", "capsfilter", "queue", "shmsink"]);
    assert!(matches!(p.elements[3].properties[2].1, PropertyValue::Int(134217728)));
    assert_eq!(p.links, vec![(0, 1), (1, 2), (2, 3)]);
}

#[test]
fn cam_pipeline_with_and_without_cloud() {
    let cam = PrintNannyCam {
        video_height: 480,
        video_width: 640,
        video_fps: 24,
        video_src: SrcOption::Libcamerasrc,
    };
    let janus = JanusSettings {
        cloud_video_enabled: false,
        cloud_rtp_domain: "rtp.example.com".into(),
        cloud_rtp_port: None,
        edge_rtp_port: None,
    };
    let p = cam.build_pipeline(&janus);
    assert_eq!(p.elements.len(), 11);
    assert_eq!(p.elements[6].name.as_deref(), Some("t0"));
    assert_eq!(text(&p.elements[8], "port").as_deref(), Some("5105"));
    assert_eq!(text(&p.elements[10], "port").as_deref(), Some("5205"));
    assert_eq!(
        p.links,
        vec![(6, 7), (6, 10), (0, 1), (1, 2), (2, 3), (3, 4), (4, 5), (5, 6)]
    );
    let janus = JanusSettings {
        cloud_video_enabled: true,
        cloud_rtp_domain: "rtp.example.com".into(),
        cloud_rtp_port: Some(20001),
        edge_rtp_port: Some(5999),
    };
    let p = cam.build_pipeline(&janus);
    assert_eq!(p.elements.len(), 13);
    assert_eq!(p.elements[1].name.as_deref(), Some("januscloud_sink"));
    assert_eq!(text(&p.elements[1], "port").as_deref(), Some("20001"));
    assert_eq!(text(&p.elements[1], "host").as_deref(), Some("rtp.example.com"));
    assert_eq!(text(&p.elements[10], "port").as_deref(), Some("5999"));
    assert_eq!(p.links[0], (8, 0));
}

fn overlay() -> BroadcastRtpVideoOverlay {
    BroadcastRtpVideoOverlay {
        host: "192.168.1.2".into(),
        video_port: 5000,
        data_port: 5001,
        overlay_port: 5002,
        tensor_height: 320,
        tensor_width: 320,
        tflite_model: "model.tflite".into(),
        tflite_labels: "labels.txt".into(),
    }
}

fn options() -> AppOptions {
    AppOptions {
        src: SrcOption::Videotestsrc,
        sink: SinkOption::Udpsink,
        encoder: VideoEncodingOption::H264Software,
        encoder_requirements: "x264".into(),
        height: None,
        width: Some(640),
    }
}

#[test]
fn app_requirements_and_unknown_subcommand() {
    let app = App::new(options(), "broadcast-rtp-video", overlay()).ok().unwrap();
    assert_eq!(
        app.required_plugins,
        vec!["videoconvert", "videoscale", "videotestsrc", "x264", "rtp", "udp"]
    );
    assert_eq!(app.height, 480);
    assert_eq!(app.width, 640);
    assert!(matches!(app.variant, AppVariant::BroadcastRtpVideo(_)));
    let app = App::new(options(), "broadcast-rtp-tflite", overlay()).ok().unwrap();
    assert_eq!(
        app.required_plugins,
        vec!["videoconvert", "videoscale", "videotestsrc", "x264", "nnstreamer", "rtp", "udp"]
    );
    match App::new(options(), "broadcast", overlay()) {
        Err(e) => {
            assert_eq!(e.message(), "Received unknown subcommand broadcast");
            match e {
                AppError::UnknownSubcommand { subcommand } => assert_eq!(subcommand, "broadcast"),
                _ => panic!("expected an unknown subcommand"),
            }
        }
        _ => panic!("expected an unknown subcommand"),
    }
    match app.check_plugins(&vec![true, true, false, true, true, false, true]) {
        Err(e) => {
            assert_eq!(e.message(), "Missing plugins: [\"videotestsrc\", \"rtp\"]");
            match e {
                AppError::MissingPlugins { plugins } => {
                    assert_eq!(plugins, vec!["videotestsrc", "rtp"]);
                    assert_eq!(e_text(&plugins), format!("Missing plugins: {:?}", plugins));
                }
                _ => panic!("expected missing plugins"),
            }
        }
        _ => panic!("expected missing plugins"),
    }
    assert!(app.check_plugins(&vec![true; 7]).is_ok());
}

#[test]
fn app_video_pipeline() {
    let app = App::new(options(), "broadcast-rtp-video", overlay()).ok().unwrap();
    let p = app.build_pipeline();
    assert_eq!(
        factories(&p),
        vec![
            "videotestsrc",
            "udpsink",
            "capsfilter",
            "queue",
            "videoconvert",
            "x264enc",
            "capsfilter",
            "rtph264pay"
        ]
    );
    assert_eq!(
        p.links,
        vec![(0, 2), (2, 3), (3, 4), (4, 5), (5, 6), (6, 7), (7, 1)]
    );
    assert_eq!(text(&p.elements[5], "tune").as_deref(), Some("zerolatency"));
}

#[test]
fn app_overlay_pipeline() {
    let app = App::new(options(), "broadcast-rtp-tflite", overlay()).ok().unwrap();
    let p = app.build_pipeline();
    assert_eq!(p.elements.len(), 2 + 13 + 8);
    assert_eq!(p.elements[1].factory, "tee");
    assert_eq!(p.elements[2 + 9].factory, "tensor_decoder");
    assert_eq!(text(&p.elements[2 + 9], "option4").as_deref(), Some("640:480"));
    assert_eq!(text(&p.elements[2 + 9], "option5").as_deref(), Some("320:320"));
    assert_eq!(text(&p.elements[2 + 8], "model").as_deref(), Some("model.tflite"));
    assert_eq!(p.links[0], (0, 1));
    assert_eq!(p.links[1], (1, 2));
    assert_eq!(p.links[2], (2, 3));
    assert_eq!(p.links[3], (3, 7));
    // the video branch is linked from the tee as well
    assert_eq!(p.links[14], (1, 15));
    assert!(matches!(p.elements[14].properties[1].1, PropertyValue::Int(5002)));
}

#[test]
fn bus_messages() {
    assert!(matches!(on_bus_message(&BusMessage::EndOfStream), BusAction::Stop));
    assert!(matches!(on_bus_message(&BusMessage::Error), BusAction::Stop));
    match on_bus_message(&BusMessage::StateChanged {
        of_pipeline: true,
        old: "Paused".into(),
        current: "Playing".into(),
    }) {
        BusAction::DumpDot(name) => assert_eq!(name, "Paused-Playing"),
        _ => panic!("expected a dot dump"),
    }
    assert!(matches!(
        on_bus_message(&BusMessage::StateChanged {
            of_pipeline: false,
            old: "a".into(),
            current: "b".into()
        }),
        BusAction::Continue
    ));
    assert!(matches!(on_bus_message(&BusMessage::Other), BusAction::Continue));
}

fn e_text(plugins: &[String]) -> String {
    AppError::MissingPlugins { plugins: plugins.to_vec() }.message()
}

#[test]
fn missing_plugins_message_matches_debug_format() {
    let names: Vec<String> = vec![
        "plain".to_string(),
        "quote\"back\\slash".to_string(),
        "tab\tnl\ncr\rnul\0".to_string(),
        "ctl\u{1}\u{1b}\u{7f}'".to_string(),
    ];
    assert_eq!(e_text(&names), format!("Missing plugins: {:?}", names));
    assert_eq!(e_text(&[]), "Missing plugins: []");
}
