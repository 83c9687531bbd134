use printnanny_nats::factory::{
    camera_pipeline_description, gst_client_uri, log_level, snapshot_pipeline_description,
    CameraSource, LogLevel,
};

#[test]
fn daemon_uri() {
    assert_eq!(gst_client_uri("127.0.0.1", 5002), "http://127.0.0.1:5002");
}

#[test]
fn camera_description() {
    let c = CameraSource {
        device_name: "/base/soc/i2c0mux/i2c@1/imx219@10".to_string(),
        pixel_format: "YUY2".to_string(),
        width: 1280,
        height: 720,
        framerate: 15,
    };
    assert_eq!(
        camera_pipeline_description(&c, "camera"),
        "libcamerasrc camera-name=/base/soc/i2c0mux/i2c@1/imx219@10 ! capsfilter caps=video/x-raw,format=(string)YUY2,width=(int)1280,height=(int)720,framerate=(fraction)15/1 ! interpipesink name=camera sync=false"
    );
}

#[test]
fn snapshot_description() {
    assert_eq!(
        snapshot_pipeline_description("snapshot", "camera", "/tmp/snapshot.jpg"),
        "interpipesrc name=snapshot listen-to=camera accept-events=false accept-eos-event=false enable-sync=false allow-renegotiation=false num-buffers=1 ! v4l2jpegenc ! multifilesink location=\"/tmp/snapshot.jpg\""
    );
}

#[test]
fn verbosity_levels() {
    assert_eq!(log_level(0), LogLevel::Warn);
    assert_eq!(log_level(1), LogLevel::Info);
    assert_eq!(log_level(2), LogLevel::Debug);
    assert_eq!(log_level(7), LogLevel::Trace);
}
