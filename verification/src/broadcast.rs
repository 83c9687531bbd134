//! The broadcast application: camera video sent as RTP over UDP, optionally with
//! an object detection overlay computed by a TensorFlow Lite model.

use vstd::prelude::*;

use crate::decimal::{format_i32, int_to_decimal};
use crate::options::{src_option_name, SrcOption};
use crate::pipeline::{
    caps, caps_prop, element, element_spec, has_property, text_prop, CapsValue, CapsValueView,
    Element, ElementView, Pipeline, PipelineView, PropertyValue, PropertyValueView,
};
use crate::text::{chars_equal, chars_of, debug_list, debug_list_text, split_char, split_spec};

verus! {

/// Broadcast the source video to one RTP port (light compute).
pub struct BroadcastRtpVideo {
    pub host: String,
    pub video_port: i32,
}

/// Broadcast the source video, the inference overlay and the inference tensors
/// to three RTP ports (medium compute).
pub struct BroadcastRtpVideoOverlay {
    pub host: String,
    pub video_port: i32,
    pub data_port: i32,
    pub overlay_port: i32,
    pub tensor_height: i32,
    pub tensor_width: i32,
    pub tflite_model: String,
    pub tflite_labels: String,
}

/// What the application broadcasts.
pub enum AppVariant {
    BroadcastRtpVideo(BroadcastRtpVideo),
    BroadcastRtpTfliteOverlay(BroadcastRtpVideoOverlay),
    /// Video composited from the source and the inference (heavy compute; no
    /// pipeline exists for it).
    BroadcastRtpTfliteComposite(BroadcastRtpVideoOverlay),
}

/// Where the video goes.
#[derive(Clone, Copy, Debug, PartialEq, Eq, Structural)]
pub enum SinkOption {
    Fakesink,
    Udpsink,
}

/// How video is encoded.
#[derive(Clone, Copy, Debug, PartialEq, Eq, Structural)]
pub enum VideoEncodingOption {
    H264Software,
    H264Hardware,
}

pub open spec fn sink_option_name(s: SinkOption) -> Seq<char> {
    match s {
        SinkOption::Fakesink => "fakesink"@,
        SinkOption::Udpsink => "udpsink"@,
    }
}

impl SinkOption {
    /// The option's name, which is also the name of the element's factory.
    pub fn as_str(&self) -> (s: &'static str)
        ensures
            s@ == sink_option_name(*self),
    {
        match self {
            SinkOption::Fakesink => "fakesink",
            SinkOption::Udpsink => "udpsink",
        }
    }
}

/// The application's options, as given on the command line.
pub struct AppOptions {
    pub src: SrcOption,
    pub sink: SinkOption,
    pub encoder: VideoEncodingOption,
    /// The plugins the encoder needs, separated by spaces.
    pub encoder_requirements: String,
    pub height: Option<i32>,
    pub width: Option<i32>,
}

/// The broadcast application.
pub struct App {
    pub height: i32,
    pub width: i32,
    /// The GStreamer plugins the application needs.
    pub required_plugins: Vec<String>,
    pub variant: AppVariant,
    pub encoder: VideoEncodingOption,
    pub src: SrcOption,
    pub sink: SinkOption,
}

/// Why the application could not be set up.
pub enum AppError {
    /// The subcommand names no application.
    UnknownSubcommand { subcommand: String },
    /// Plugins that the application needs are not installed.
    MissingPlugins { plugins: Vec<String> },
}

pub open spec fn strings_view(v: Seq<String>) -> Seq<Seq<char>> {
    v.map_values(|s: String| s@)
}

/// The text an error is reported with.
pub open spec fn app_error_message(e: AppError) -> Seq<char> {
    match e {
        AppError::UnknownSubcommand { subcommand } => "Received unknown subcommand "@
            + subcommand@,
        AppError::MissingPlugins { plugins } => "Missing plugins: "@ + debug_list(
            strings_view(plugins@),
        ),
    }
}

impl AppError {
    /// The text the error is reported with: `Received unknown subcommand <name>`,
    /// or `Missing plugins: ["a", "b"]` with the names written as `{:?}` writes
    /// them (ASCII escapes included; other characters are written as they are).
    pub fn message(&self) -> (m: String)
        ensures
            m@ == app_error_message(*self),
    {
        match self {
            AppError::UnknownSubcommand { subcommand } => {
                let mut m = "Received unknown subcommand ".to_owned();
                m.append(subcommand.as_str());
                m
            },
            AppError::MissingPlugins { plugins } => {
                let mut m = "Missing plugins: ".to_owned();
                let list = debug_list_text(plugins);
                m.append(list.as_str());
                m
            },
        }
    }
}

/// The plugins a source needs.
pub open spec fn src_requirements(src: SrcOption) -> Seq<Seq<char>> {
    match src {
        SrcOption::Libcamerasrc => seq!["libcamera"@],
        _ => seq!["videotestsrc"@],
    }
}

/// The plugins the application needs: video conversion and scaling, the
/// source's, the encoder's, then those of the subcommand.
pub open spec fn app_requirements(
    src: SrcOption,
    encoder_requirements: Seq<char>,
    tflite: bool,
) -> Seq<Seq<char>> {
    seq!["videoconvert"@, "videoscale"@] + src_requirements(src) + split_spec(
        encoder_requirements,
        ' ',
    ) + if tflite {
        seq!["nnstreamer"@, "rtp"@, "udp"@]
    } else {
        seq!["rtp"@, "udp"@]
    }
}

fn push_str(v: &mut Vec<String>, s: &str)
    ensures
        strings_view(final(v)@) == strings_view(old(v)@).push(s@),
{
    v.push(s.to_owned());
    assert(strings_view(v@) =~= strings_view(old(v)@).push(s@));
}

fn append_strings(v: &mut Vec<String>, more: Vec<String>)
    ensures
        strings_view(final(v)@) == strings_view(old(v)@) + strings_view(more@),
{
    let n = more.len();
    let ghost start = strings_view(v@);
    for i in 0..n
        invariant
            n == more@.len(),
            strings_view(v@) == start + strings_view(more@.take(i as int)),
    {
        let s = more[i].clone();
        let ghost before = strings_view(v@);
        v.push(s);
        assert(strings_view(v@) =~= before.push(more@[i as int]@));
        assert(strings_view(more@.take(i + 1)) =~= strings_view(more@.take(i as int)).push(
            more@[i as int]@,
        ));
        assert(strings_view(v@) =~= start + strings_view(more@.take(i + 1)));
    }
    assert(more@.take(n as int) =~= more@);
}

impl App {
    /// Sets the application up for `subcommand`: `broadcast-rtp-video` broadcasts
    /// the source video to `args.host:args.video_port`; `broadcast-rtp-tflite`
    /// also runs the model of `args` and broadcasts its overlay. Height and width
    /// default to 480. Fails with `UnknownSubcommand` on any other subcommand.
    pub fn new(opts: AppOptions, subcommand: &str, args: BroadcastRtpVideoOverlay) -> (res: Result<App, AppError>)
        requires
            opts.src != SrcOption::Shmsrc,
        ensures
            match res {
                Ok(app) => {
                    &&& (subcommand@ == "broadcast-rtp-video"@ || subcommand@
                        == "broadcast-rtp-tflite"@)
                    &&& strings_view(app.required_plugins@) == app_requirements(
                        opts.src,
                        opts.encoder_requirements@,
                        subcommand@ == "broadcast-rtp-tflite"@,
                    )
                    &&& app.height == (match opts.height {
                        Some(h) => h,
                        None => 480,
                    })
                    &&& app.width == (match opts.width {
                        Some(w) => w,
                        None => 480,
                    })
                    &&& app.src == opts.src && app.sink == opts.sink && app.encoder == opts.encoder
                    &&& subcommand@ == "broadcast-rtp-video"@ ==> (app.variant matches AppVariant::BroadcastRtpVideo(v)
                        && v.host == args.host && v.video_port == args.video_port)
                    &&& subcommand@ == "broadcast-rtp-tflite"@ ==> app.variant
                        == AppVariant::BroadcastRtpTfliteOverlay(args)
                },
                Err(e) => subcommand@ != "broadcast-rtp-video"@ && subcommand@
                    != "broadcast-rtp-tflite"@ && (e matches AppError::UnknownSubcommand { subcommand: s }
                    && s@ == subcommand@),
            },
    {
        let mut required: Vec<String> = Vec::new();
        push_str(&mut required, "videoconvert");
        push_str(&mut required, "videoscale");
        match opts.src {
            SrcOption::Libcamerasrc => push_str(&mut required, "libcamera"),
            _ => push_str(&mut required, "videotestsrc"),
        }
        let enc = split_char(opts.encoder_requirements.as_str(), ' ');
        assert(strings_view(enc@) =~= split_spec(opts.encoder_requirements@, ' '));
        append_strings(&mut required, enc);
        let cs = chars_of(subcommand);
        let variant = if chars_equal(&cs, "broadcast-rtp-video") {
            push_str(&mut required, "rtp");
            push_str(&mut required, "udp");
            proof {
                reveal_strlit("broadcast-rtp-video");
                reveal_strlit("broadcast-rtp-tflite");
                assert("broadcast-rtp-video"@.len() == 19);
                assert("broadcast-rtp-tflite"@.len() == 20);
                assert(subcommand@ != "broadcast-rtp-tflite"@);
            }
            AppVariant::BroadcastRtpVideo(BroadcastRtpVideo { host: args.host, video_port: args.video_port })
        } else if chars_equal(&cs, "broadcast-rtp-tflite") {
            push_str(&mut required, "nnstreamer");
            push_str(&mut required, "rtp");
            push_str(&mut required, "udp");
            AppVariant::BroadcastRtpTfliteOverlay(args)
        } else {
            return Err(AppError::UnknownSubcommand { subcommand: subcommand.to_owned() });
        };
        assert(strings_view(required@) =~= app_requirements(
            opts.src,
            opts.encoder_requirements@,
            subcommand@ == "broadcast-rtp-tflite"@,
        ));
        let height = match opts.height {
            Some(h) => h,
            None => 480,
        };
        let width = match opts.width {
            Some(w) => w,
            None => 480,
        };
        Ok(App {
            src: opts.src,
            sink: opts.sink,
            encoder: opts.encoder,
            required_plugins: required,
            height,
            width,
            variant,
        })
    }

    /// Checks that every required plugin is installed: `installed[i]` says
    /// whether the `i`th required plugin was found. Fails with the missing
    /// plugins, in order, when any is missing.
    pub fn check_plugins(&self, installed: &Vec<bool>) -> (res: Result<(), AppError>)
        requires
            installed@.len() == self.required_plugins@.len(),
        ensures
            res is Ok <==> forall|i: int| 0 <= i < installed@.len() ==> installed@[i],
            res is Err ==> res matches Err(AppError::MissingPlugins { .. }),
            res matches Err(AppError::MissingPlugins { plugins }) ==> strings_view(plugins@)
                == missing_spec(strings_view(self.required_plugins@), installed@),
    {
        let mut missing: Vec<String> = Vec::new();
        let n = installed.len();
        for i in 0..n
            invariant
                n == installed@.len(),
                installed@.len() == self.required_plugins@.len(),
                strings_view(missing@) == missing_spec(
                    strings_view(self.required_plugins@).take(i as int),
                    installed@.take(i as int),
                ),
                missing@.len() == 0 <==> forall|j: int| 0 <= j < i ==> installed@[j],
        {
            let ghost before = missing@;
            assert(strings_view(self.required_plugins@).take(i + 1).drop_last() =~= strings_view(
                self.required_plugins@,
            ).take(i as int));
            assert(installed@.take(i + 1).drop_last() =~= installed@.take(i as int));
            if !installed[i] {
                missing.push(self.required_plugins[i].clone());
                assert(strings_view(missing@) =~= strings_view(before).push(
                    self.required_plugins@[i as int]@,
                ));
            }
        }
        assert(strings_view(self.required_plugins@).take(n as int) =~= strings_view(
            self.required_plugins@,
        ));
        assert(installed@.take(n as int) =~= installed@);
        if missing.len() == 0 {
            Ok(())
        } else {
            Err(AppError::MissingPlugins { plugins: missing })
        }
    }
}

/// The names whose flag in `present` is false, in order.
pub open spec fn missing_spec(names: Seq<Seq<char>>, present: Seq<bool>) -> Seq<Seq<char>>
    decreases names.len(),
{
    if names.len() == 0 || present.len() == 0 {
        Seq::empty()
    } else {
        let prev = missing_spec(names.drop_last(), present.drop_last());
        if present.last() {
            prev
        } else {
            prev.push(names.last())
        }
    }
}

/// The host and video port the application broadcasts to.
pub open spec fn variant_host(v: AppVariant) -> Seq<char> {
    match v {
        AppVariant::BroadcastRtpVideo(a) => a.host@,
        AppVariant::BroadcastRtpTfliteOverlay(a) => a.host@,
        AppVariant::BroadcastRtpTfliteComposite(a) => a.host@,
    }
}

pub open spec fn variant_video_port(v: AppVariant) -> i32 {
    match v {
        AppVariant::BroadcastRtpVideo(a) => a.video_port,
        AppVariant::BroadcastRtpTfliteOverlay(a) => a.video_port,
        AppVariant::BroadcastRtpTfliteComposite(a) => a.video_port,
    }
}

/// The source element; a test source is live.
pub open spec fn app_src_spec(src: SrcOption) -> ElementView {
    element_spec(
        src_option_name(src),
        None,
        if src == SrcOption::Videotestsrc {
            seq![("is-live"@, PropertyValueView::Bool(true))]
        } else {
            Seq::empty()
        },
    )
}

/// The sink element; a UDP sink sends to `host:port`.
pub open spec fn app_sink_spec(sink: SinkOption, host: Seq<char>, port: i32) -> ElementView {
    element_spec(
        sink_option_name(sink),
        None,
        if sink == SinkOption::Udpsink {
            seq![text_prop("host"@, host), ("port"@, PropertyValueView::Int(port as int))]
        } else {
            Seq::empty()
        },
    )
}

/// The h264 encoder: in software tuned for zero latency, or in hardware
/// repeating its sequence header.
pub open spec fn app_encoder_spec(encoder: VideoEncodingOption) -> ElementView {
    match encoder {
        VideoEncodingOption::H264Software => element_spec(
            "x264enc"@,
            None,
            seq![text_prop("tune"@, "zerolatency"@)],
        ),
        VideoEncodingOption::H264Hardware => element_spec(
            "v4l2h264enc"@,
            None,
            seq![text_prop("extra-controls"@, "controls,repeat_sequence_header=1"@)],
        ),
    }
}

pub open spec fn payloader_spec() -> ElementView {
    element_spec("rtph264pay"@, None, seq![text_prop("aggregate-mode"@, "zero-latency"@)])
}

/// The elements of the video branch, in the order they are added.
pub open spec fn video_branch_spec(app: App) -> Seq<ElementView> {
    seq![
        app_src_spec(app.src),
        app_sink_spec(app.sink, variant_host(app.variant), variant_video_port(app.variant)),
        element_spec(
            "capsfilter"@,
            None,
            seq![
                caps_prop(
                    "video/x-raw"@,
                    seq![
                        ("width"@, CapsValueView::Int(app.width)),
                        ("height"@, CapsValueView::Int(app.height)),
                    ],
                ),
            ],
        ),
        element_spec("queue"@, None, Seq::empty()),
        element_spec("videoconvert"@, None, Seq::empty()),
        app_encoder_spec(app.encoder),
        element_spec(
            "capsfilter"@,
            None,
            seq![caps_prop("video/x-h264"@, seq![("level"@, CapsValueView::Text("4"@))])],
        ),
        payloader_spec(),
    ]
}

/// Links `from` a tee, if any, to the first index, then along `order`.
pub open spec fn path_links(tee: Option<usize>, order: Seq<int>) -> Seq<(usize, usize)> {
    (match tee {
        Some(t) => seq![(t, order[0] as usize)],
        None => Seq::empty(),
    }) + Seq::new((order.len() - 1) as nat, |i: int| (order[i] as usize, order[i + 1] as usize))
}

/// The order in which the video branch added at `b` is linked: source, raw caps,
/// queue, converter, encoder, h264 caps, payloader, sink.
pub open spec fn video_order(b: int) -> Seq<int> {
    seq![b, b + 2, b + 3, b + 4, b + 5, b + 6, b + 7, b + 1]
}

/// The elements of the application's pipeline, as `build_pipeline` makes them.
pub open spec fn app_pipeline_elements(app: App) -> Seq<ElementView> {
    match app.variant {
        AppVariant::BroadcastRtpTfliteOverlay(o) => seq![
            app_src_spec(app.src),
            element_spec("tee"@, None, Seq::empty()),
        ] + tflite_branch_spec(app, o) + video_branch_spec(app),
        _ => video_branch_spec(app),
    }
}

/// Each stream goes to its own port of the configured host: the source video,
/// from the video branch's UDP sink, to the application's `video_port`; the
/// inference overlay, from the inference branch's UDP sink, to `overlay_port`.
pub proof fn lemma_broadcast_ports(app: App)
    requires
        app.sink == SinkOption::Udpsink,
    ensures
        ({
            let es = app_pipeline_elements(app);
            match app.variant {
                AppVariant::BroadcastRtpVideo(a) => {
                    &&& es[1].factory == "udpsink"@
                    &&& has_property(es[1], "host"@, PropertyValueView::Text(a.host@))
                    &&& has_property(es[1], "port"@, PropertyValueView::Int(a.video_port as int))
                },
                AppVariant::BroadcastRtpTfliteOverlay(o) => {
                    &&& es[16].factory == "udpsink"@
                    &&& has_property(es[16], "host"@, PropertyValueView::Text(o.host@))
                    &&& has_property(es[16], "port"@, PropertyValueView::Int(o.video_port as int))
                    &&& es[14].factory == "udpsink"@
                    &&& has_property(es[14], "host"@, PropertyValueView::Text(o.host@))
                    &&& has_property(
                        es[14],
                        "port"@,
                        PropertyValueView::Int(o.overlay_port as int),
                    )
                },
                AppVariant::BroadcastRtpTfliteComposite(_) => true,
            }
        }),
{
    reveal_strlit("udpsink");
    let es = app_pipeline_elements(app);
    match app.variant {
        AppVariant::BroadcastRtpVideo(a) => {
            let e = es[1];
            assert(e == video_branch_spec(app)[1]);
            assert(e.properties[0] == ("host"@, PropertyValueView::Text(a.host@)));
            assert(e.properties[1] == ("port"@, PropertyValueView::Int(a.video_port as int)));
        },
        AppVariant::BroadcastRtpTfliteOverlay(o) => {
            let v = es[16];
            let t = es[14];
            assert(v == video_branch_spec(app)[1]);
            assert(t == tflite_branch_spec(app, o)[12]);
            assert(v.properties[0] == ("host"@, PropertyValueView::Text(o.host@)));
            assert(v.properties[1] == ("port"@, PropertyValueView::Int(o.video_port as int)));
            assert(t.properties[0] == ("host"@, PropertyValueView::Text(o.host@)));
            assert(t.properties[1] == ("port"@, PropertyValueView::Int(o.overlay_port as int)));
        },
        AppVariant::BroadcastRtpTfliteComposite(_) => {},
    }
}

fn app_encoder(encoder: VideoEncodingOption) -> (e: Element)
    ensures
        e@ == app_encoder_spec(encoder),
{
    match encoder {
        VideoEncodingOption::H264Software => {
            let mut e = element("x264enc", None);
            e.set_text("tune", "zerolatency");
            assert(e@.properties =~= app_encoder_spec(encoder).properties);
            e
        },
        VideoEncodingOption::H264Hardware => {
            let mut e = element("v4l2h264enc", None);
            e.set_text("extra-controls", "controls,repeat_sequence_header=1");
            assert(e@.properties =~= app_encoder_spec(encoder).properties);
            e
        },
    }
}

fn payloader() -> (e: Element)
    ensures
        e@ == payloader_spec(),
{
    let mut e = element("rtph264pay", None);
    e.set_text("aggregate-mode", "zero-latency");
    assert(e@.properties =~= payloader_spec().properties);
    e
}

fn app_src(src: SrcOption) -> (e: Element)
    ensures
        e@ == app_src_spec(src),
{
    let mut e = element(src.as_str(), None);
    if src == SrcOption::Videotestsrc {
        e.set("is-live", PropertyValue::Bool(true));
    }
    assert(e@.properties =~= app_src_spec(src).properties);
    e
}

fn app_sink(sink: SinkOption, host: &String, port: i32) -> (e: Element)
    ensures
        e@ == app_sink_spec(sink, host@, port),
{
    let mut e = element(sink.as_str(), None);
    if sink == SinkOption::Udpsink {
        e.set_text("host", host.as_str());
        e.set("port", PropertyValue::Int(port as i64));
    }
    assert(e@.properties =~= app_sink_spec(sink, host@, port).properties);
    e
}

/// Links along `order`, after linking from the tee if there is one.
fn link_path(p: &mut Pipeline, tee: Option<usize>, order: &Vec<usize>)
    requires
        order@.len() >= 1,
    ensures
        final(p)@ == (PipelineView {
            links: old(p)@.links + path_links(tee, order@.map_values(|i: usize| i as int)),
            ..old(p)@
        }),
{
    let ghost ord = order@.map_values(|i: usize| i as int);
    if let Some(t) = tee {
        p.link(t, order[0]);
    }
    let ghost start = p@.links;
    let n = order.len();
    for i in 1..n
        invariant
            n == order@.len(),
            ord == order@.map_values(|i: usize| i as int),
            p@.name == old(p)@.name,
            p@.elements == old(p)@.elements,
            p@.links == start + Seq::new(
                (i - 1) as nat,
                |j: int| (ord[j] as usize, ord[j + 1] as usize),
            ),
    {
        p.link(order[i - 1], order[i]);
        assert(start + Seq::new((i - 1) as nat, |j: int| (ord[j] as usize, ord[j + 1] as usize)).push(
            (order@[i - 1], order@[i as int]),
        ) =~= start + Seq::new(i as nat, |j: int| (ord[j] as usize, ord[j + 1] as usize)));
    }
    assert(p@.links =~= old(p)@.links + path_links(tee, ord));
}

impl App {
    fn host_and_video_port(&self) -> (r: (&String, i32))
        ensures
            r.0@ == variant_host(self.variant),
            r.1 == variant_video_port(self.variant),
    {
        match &self.variant {
            AppVariant::BroadcastRtpVideo(a) => (&a.host, a.video_port),
            AppVariant::BroadcastRtpTfliteOverlay(a) => (&a.host, a.video_port),
            AppVariant::BroadcastRtpTfliteComposite(a) => (&a.host, a.video_port),
        }
    }

    /// Adds the video branch to `p`: source, sink, raw caps of the application's
    /// size, queue, converter, encoder, h264 caps at level 4 and payloader; linked
    /// from the tee, if one is given, through the source, caps, queue, converter,
    /// encoder, caps and payloader to the sink.
    pub fn build_video_pipeline(&self, p: &mut Pipeline, tee: Option<usize>)
        requires
            old(p)@.elements.len() + 8 < usize::MAX,
        ensures
            final(p)@.name == old(p)@.name,
            final(p)@.elements == old(p)@.elements + video_branch_spec(*self),
            final(p)@.links == old(p)@.links + path_links(
                tee,
                video_order(old(p)@.elements.len() as int),
            ),
    {
        let (host, port) = self.host_and_video_port();
        let e0 = app_src(self.src);
        let e1 = app_sink(self.sink, host, port);
        let incaps = caps("video/x-raw").field("width", CapsValue::Int(self.width)).field(
            "height",
            CapsValue::Int(self.height),
        );
        assert(incaps@.fields =~= seq![
            ("width"@, CapsValueView::Int(self.width)),
            ("height"@, CapsValueView::Int(self.height)),
        ]);
        let mut e2 = element("capsfilter", None);
        e2.set("caps", PropertyValue::Caps(incaps));
        let e3 = element("queue", None);
        let e4 = element("videoconvert", None);
        let e5 = app_encoder(self.encoder);
        let h264caps = caps("video/x-h264").field("level", CapsValue::Text("4".to_owned()));
        assert(h264caps@.fields =~= seq![("level"@, CapsValueView::Text("4"@))]);
        let mut e6 = element("capsfilter", None);
        e6.set("caps", PropertyValue::Caps(h264caps));
        let e7 = payloader();
        let ghost views = seq![e0@, e1@, e2@, e3@, e4@, e5@, e6@, e7@];
        assert(views =~~= video_branch_spec(*self));
        let ghost before = p@;
        let b = p.add(e0);
        p.add(e1);
        p.add(e2);
        p.add(e3);
        p.add(e4);
        p.add(e5);
        p.add(e6);
        p.add(e7);
        assert(p@.elements =~= before.elements + views);
        let order: Vec<usize> = vec![b, b + 2, b + 3, b + 4, b + 5, b + 6, b + 7, b + 1];
        assert(order@.map_values(|i: usize| i as int) =~= video_order(b as int));
        link_path(p, tee, &order);
    }
}

/// `a:b`, each written in decimal.
pub open spec fn size_text(a: i32, b: i32) -> Seq<char> {
    int_to_decimal(a as int) + ":"@ + int_to_decimal(b as int)
}

fn size_string(a: i32, b: i32) -> (s: String)
    ensures
        s@ == size_text(a, b),
{
    let mut s = format_i32(a);
    s.append(":");
    let t = format_i32(b);
    s.append(t.as_str());
    s
}

/// The elements of the inference branch, in the order they are added, for the
/// application `app` whose overlay settings are `o`.
pub open spec fn tflite_branch_spec(app: App, o: BroadcastRtpVideoOverlay) -> Seq<ElementView> {
    seq![
        element_spec(
            "queue"@,
            None,
            seq![text_prop("leaky"@, "2"@), text_prop("max-size-buffers"@, "2"@)],
        ),
        element_spec("videoconvert"@, None, Seq::empty()),
        element_spec("videoconvert"@, None, Seq::empty()),
        element_spec(
            "capsfilter"@,
            None,
            seq![
                caps_prop(
                    "video/x-raw"@,
                    seq![
                        ("width"@, CapsValueView::Int(o.tensor_width)),
                        ("height"@, CapsValueView::Int(o.tensor_height)),
                    ],
                ),
            ],
        ),
        element_spec(
            "capsfilter"@,
            None,
            seq![
                caps_prop(
                    "video/x-h264"@,
                    seq![
                        ("width"@, CapsValueView::Int(app.width)),
                        ("height"@, CapsValueView::Int(app.height)),
                        ("level"@, CapsValueView::Text("4"@)),
                    ],
                ),
            ],
        ),
        element_spec("videoscale"@, None, Seq::empty()),
        element_spec(
            "tensor_transform"@,
            None,
            seq![
                text_prop("mode"@, "arithmetic"@),
                text_prop("option"@, "typecast:uint8,add:0,div:1"@),
            ],
        ),
        element_spec("tensor_converter"@, None, Seq::empty()),
        element_spec(
            "tensor_filter"@,
            None,
            seq![
                text_prop("framework"@, "tensorflow2-lite"@),
                text_prop("model"@, o.tflite_model@),
            ],
        ),
        element_spec(
            "tensor_decoder"@,
            None,
            seq![
                text_prop("mode"@, "bounding_boxes"@),
                text_prop("option1"@, "mobilenet-ssd-postprocess"@),
                text_prop("option2"@, o.tflite_labels@),
                text_prop("option3"@, "0:1:2:3,66"@),
                text_prop("option4"@, size_text(app.width, app.height)),
                text_prop("option5"@, size_text(o.tensor_width, o.tensor_height)),
            ],
        ),
        app_encoder_spec(app.encoder),
        payloader_spec(),
        app_sink_spec(app.sink, o.host@, o.overlay_port),
    ]
}

/// The order in which the inference branch added at `b` is linked: queue,
/// converter, scaler, tensor caps, tensor converter, transform, model, decoder,
/// converter, encoder, h264 caps, payloader, sink.
pub open spec fn tflite_order(b: int) -> Seq<int> {
    seq![b, b + 1, b + 5, b + 3, b + 7, b + 6, b + 8, b + 9, b + 2, b + 10, b + 4, b + 11, b + 12]
}

/// The overlay settings of an application that broadcasts an inference overlay.
pub open spec fn overlay_of(v: AppVariant) -> BroadcastRtpVideoOverlay {
    match v {
        AppVariant::BroadcastRtpTfliteOverlay(o) => o,
        AppVariant::BroadcastRtpTfliteComposite(o) => o,
        AppVariant::BroadcastRtpVideo(_) => arbitrary(),
    }
}

fn tflite_elements(app: &App, o: &BroadcastRtpVideoOverlay) -> (es: Vec<Element>)
    ensures
        es@.len() == 13,
        es@.map_values(|e: Element| e@) == tflite_branch_spec(*app, *o),
{
    let mut e0 = element("queue", None);
    e0.set_text("leaky", "2");
    e0.set_text("max-size-buffers", "2");
    assert(e0@.properties =~= seq![text_prop("leaky"@, "2"@), text_prop("max-size-buffers"@, "2"@)]);
    let e1 = element("videoconvert", None);
    let e2 = element("videoconvert", None);
    let precaps = caps("video/x-raw").field("width", CapsValue::Int(o.tensor_width)).field(
        "height",
        CapsValue::Int(o.tensor_height),
    );
    assert(precaps@.fields =~= seq![
        ("width"@, CapsValueView::Int(o.tensor_width)),
        ("height"@, CapsValueView::Int(o.tensor_height)),
    ]);
    let mut e3 = element("capsfilter", None);
    e3.set("caps", PropertyValue::Caps(precaps));
    assert(e3@.properties =~= seq![
        caps_prop(
            "video/x-raw"@,
            seq![
                ("width"@, CapsValueView::Int(o.tensor_width)),
                ("height"@, CapsValueView::Int(o.tensor_height)),
            ],
        ),
    ]);
    let postcaps = caps("video/x-h264").field("width", CapsValue::Int(app.width)).field(
        "height",
        CapsValue::Int(app.height),
    ).field("level", CapsValue::Text("4".to_owned()));
    assert(postcaps@.fields =~= seq![
        ("width"@, CapsValueView::Int(app.width)),
        ("height"@, CapsValueView::Int(app.height)),
        ("level"@, CapsValueView::Text("4"@)),
    ]);
    let mut e4 = element("capsfilter", None);
    e4.set("caps", PropertyValue::Caps(postcaps));
    assert(e4@.properties =~= seq![
        caps_prop(
            "video/x-h264"@,
            seq![
                ("width"@, CapsValueView::Int(app.width)),
                ("height"@, CapsValueView::Int(app.height)),
                ("level"@, CapsValueView::Text("4"@)),
            ],
        ),
    ]);
    let e5 = element("videoscale", None);
    let mut e6 = element("tensor_transform", None);
    e6.set_text("mode", "arithmetic");
    e6.set_text("option", "typecast:uint8,add:0,div:1");
    assert(e6@.properties =~= seq![
        text_prop("mode"@, "arithmetic"@),
        text_prop("option"@, "typecast:uint8,add:0,div:1"@),
    ]);
    let e7 = element("tensor_converter", None);
    let mut e8 = element("tensor_filter", None);
    e8.set_text("framework", "tensorflow2-lite");
    e8.set_text("model", o.tflite_model.as_str());
    assert(e8@.properties =~= seq![
        text_prop("framework"@, "tensorflow2-lite"@),
        text_prop("model"@, o.tflite_model@),
    ]);
    let mut e9 = element("tensor_decoder", None);
    e9.set_text("mode", "bounding_boxes");
    e9.set_text("option1", "mobilenet-ssd-postprocess");
    e9.set_text("option2", o.tflite_labels.as_str());
    e9.set_text("option3", "0:1:2:3,66");
    let opt4 = size_string(app.width, app.height);
    e9.set_text("option4", opt4.as_str());
    let opt5 = size_string(o.tensor_width, o.tensor_height);
    e9.set_text("option5", opt5.as_str());
    assert(e9@.properties =~= seq![
        text_prop("mode"@, "bounding_boxes"@),
        text_prop("option1"@, "mobilenet-ssd-postprocess"@),
        text_prop("option2"@, o.tflite_labels@),
        text_prop("option3"@, "0:1:2:3,66"@),
        text_prop("option4"@, size_text(app.width, app.height)),
        text_prop("option5"@, size_text(o.tensor_width, o.tensor_height)),
    ]);
    let e10 = app_encoder(app.encoder);
    let e11 = payloader();
    let e12 = app_sink(app.sink, &o.host, o.overlay_port);
    let ghost views = seq![e0@, e1@, e2@, e3@, e4@, e5@, e6@, e7@, e8@, e9@, e10@, e11@, e12@];
    assert(views =~= tflite_branch_spec(*app, *o));
    let es = vec![e0, e1, e2, e3, e4, e5, e6, e7, e8, e9, e10, e11, e12];
    assert(es@.map_values(|e: Element| e@) =~= views);
    es
}

fn add_all(p: &mut Pipeline, es: Vec<Element>) -> (b: usize)
    requires
        old(p)@.elements.len() + es@.len() < usize::MAX,
    ensures
        b == old(p)@.elements.len(),
        final(p)@.name == old(p)@.name,
        final(p)@.links == old(p)@.links,
        final(p)@.elements == old(p)@.elements + es@.map_values(|e: Element| e@),
{
    let b = p.elements.len();
    let ghost views = es@.map_values(|e: Element| e@);
    let ghost start = p@;
    let mut es = es;
    let n = es.len();
    let mut i: usize = 0;
    assert(views.skip(0) =~= views);
    while i < n
        invariant
            n == views.len(),
            i <= n,
            es@.map_values(|e: Element| e@) == views.skip(i as int),
            es@.len() == n - i,
            p@.name == start.name,
            p@.links == start.links,
            p@.elements == start.elements + views.take(i as int),
            start.elements.len() + n < usize::MAX,
        decreases n - i,
    {
        let ghost rest = es@;
        assert(rest.map_values(|e: Element| e@)[0] == rest[0]@);
        assert(views.skip(i as int)[0] == views[i as int]);
        let e = es.remove(0);
        assert(e@ == views[i as int]);
        assert(es@ =~= rest.drop_first());
        assert(es@.map_values(|e: Element| e@) =~= rest.map_values(|e: Element| e@).drop_first());
        assert(views.skip(i + 1) =~= views.skip(i as int).drop_first());
        p.add(e);
        assert(views.take(i + 1) =~= views.take(i as int).push(views[i as int]));
        i = i + 1;
    }
    assert(views.take(n as int) =~= views);
    b
}

impl App {
    /// Adds the inference branch to `p`: a leaky queue, converters, the scaler and
    /// tensor caps of the model's input size, the tensor converter and transform,
    /// the model, the bounding box decoder, the encoder, h264 caps of the
    /// application's size, the payloader and the sink to the overlay port; linked
    /// from the tee, if one is given, in the order of `tflite_order`. Only an
    /// application that broadcasts an inference overlay has this branch.
    pub fn build_tflite_pipeline(&self, p: &mut Pipeline, tee: Option<usize>)
        requires
            self.variant is BroadcastRtpTfliteOverlay,
            old(p)@.elements.len() + 13 < usize::MAX,
        ensures
            final(p)@.name == old(p)@.name,
            final(p)@.elements == old(p)@.elements + tflite_branch_spec(
                *self,
                overlay_of(self.variant),
            ),
            final(p)@.links == old(p)@.links + path_links(
                tee,
                tflite_order(old(p)@.elements.len() as int),
            ),
    {
        let o = match &self.variant {
            AppVariant::BroadcastRtpTfliteOverlay(o) => o,
            AppVariant::BroadcastRtpTfliteComposite(o) => o,
            AppVariant::BroadcastRtpVideo(_) => {
                proof {
                    assert(false);
                }
                return;
            },
        };
        let es = tflite_elements(self, o);
        let b = add_all(p, es);
        let order: Vec<usize> = vec![
            b,
            b + 1,
            b + 5,
            b + 3,
            b + 7,
            b + 6,
            b + 8,
            b + 9,
            b + 2,
            b + 10,
            b + 4,
            b + 11,
            b + 12,
        ];
        assert(order@.map_values(|i: usize| i as int) =~= tflite_order(b as int));
        link_path(p, tee, &order);
    }

    /// The application's pipeline. Broadcasting video gives the video branch
    /// alone. Broadcasting an inference overlay gives a source and a tee, linked,
    /// then the inference branch and the video branch, each linked from the tee.
    /// There is no pipeline for a composite.
    pub fn build_pipeline(&self) -> (p: Pipeline)
        requires
            !(self.variant is BroadcastRtpTfliteComposite),
        ensures
            p@.name is None,
            self.variant is BroadcastRtpVideo ==> p@.elements == video_branch_spec(*self)
                && p@.links == path_links(None, video_order(0)),
            self.variant is BroadcastRtpTfliteOverlay ==> {
                &&& p@.elements == seq![
                    app_src_spec(self.src),
                    element_spec("tee"@, None, Seq::empty()),
                ] + tflite_branch_spec(*self, overlay_of(self.variant)) + video_branch_spec(*self)
                &&& p@.links == seq![(0usize, 1usize)] + path_links(Some(1), tflite_order(2))
                    + path_links(Some(1), video_order(15))
            },
            p@.elements == app_pipeline_elements(*self),
    {
        let mut p = Pipeline::new(None);
        match &self.variant {
            AppVariant::BroadcastRtpTfliteOverlay(_) => {
                let src = app_src(self.src);
                let tee_el = element("tee", None);
                let ghost v0 = src@;
                let ghost v1 = tee_el@;
                let s = p.add(src);
                let t = p.add(tee_el);
                p.link(s, t);
                self.build_tflite_pipeline(&mut p, Some(t));
                self.build_video_pipeline(&mut p, Some(t));
                assert(p@.elements =~= seq![v0, v1] + tflite_branch_spec(
                    *self,
                    overlay_of(self.variant),
                ) + video_branch_spec(*self));
                assert(p@.links =~= seq![(0usize, 1usize)] + path_links(Some(1), tflite_order(2))
                    + path_links(Some(1), video_order(15)));
            },
            _ => {
                self.build_video_pipeline(&mut p, None);
                assert(p@.elements =~= video_branch_spec(*self));
                assert(p@.links =~= path_links(None, video_order(0)));
            },
        }
        p
    }
}

} // verus!
