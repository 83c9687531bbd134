//! Pipelines made through the GStreamer daemon, described in its launch syntax:
//! the camera pipeline that feeds every other pipeline, and the JPEG snapshot
//! pipeline.

use vstd::prelude::*;

use crate::decimal::{format_i32, int_to_decimal};

verus! {

/// The daemon's HTTP address: `http://<address>:<port>`.
pub open spec fn uri_spec(address: Seq<char>, port: int) -> Seq<char> {
    "http://"@ + address + ":"@ + int_to_decimal(port)
}

/// The daemon's HTTP address.
pub fn gst_client_uri(address: &str, port: i32) -> (u: String)
    ensures
        u@ == uri_spec(address@, port as int),
{
    let mut u = String::new();
    u.append("http://");
    u.append(address);
    u.append(":");
    let p = format_i32(port);
    u.append(p.as_str());
    u
}

/// The camera as the camera pipeline reads it.
pub struct CameraSource {
    pub device_name: String,
    pub pixel_format: String,
    pub width: i32,
    pub height: i32,
    pub framerate: i32,
}

pub open spec fn camera_description_spec(c: CameraSource, pipeline_name: Seq<char>) -> Seq<char> {
    "libcamerasrc camera-name="@ + c.device_name@
        + " ! capsfilter caps=video/x-raw,format=(string)"@ + c.pixel_format@ + ",width=(int)"@
        + int_to_decimal(c.width as int) + ",height=(int)"@ + int_to_decimal(c.height as int)
        + ",framerate=(fraction)"@ + int_to_decimal(c.framerate as int) + "/1 ! interpipesink name="@
        + pipeline_name + " sync=false"@
}

/// The camera pipeline `pipeline_name`: the camera's raw video, in its pixel
/// format, size and frame rate, offered to other pipelines through an
/// interpipe sink of that name.
pub fn camera_pipeline_description(camera: &CameraSource, pipeline_name: &str) -> (d: String)
    ensures
        d@ == camera_description_spec(*camera, pipeline_name@),
{
    let mut d = String::new();
    d.append("libcamerasrc camera-name=");
    d.append(camera.device_name.as_str());
    d.append(" ! capsfilter caps=video/x-raw,format=(string)");
    d.append(camera.pixel_format.as_str());
    d.append(",width=(int)");
    let w = format_i32(camera.width);
    d.append(w.as_str());
    d.append(",height=(int)");
    let h = format_i32(camera.height);
    d.append(h.as_str());
    d.append(",framerate=(fraction)");
    let f = format_i32(camera.framerate);
    d.append(f.as_str());
    d.append("/1 ! interpipesink name=");
    d.append(pipeline_name);
    d.append(" sync=false");
    d
}

pub open spec fn snapshot_description_spec(
    pipeline_name: Seq<char>,
    listen_to: Seq<char>,
    filesink_location: Seq<char>,
) -> Seq<char> {
    "interpipesrc name="@ + pipeline_name + " listen-to="@ + listen_to
        + " accept-events=false accept-eos-event=false enable-sync=false allow-renegotiation=false num-buffers=1 ! v4l2jpegenc ! multifilesink location=\""@
        + filesink_location + "\""@
}

/// The snapshot pipeline `pipeline_name`: one buffer from the pipeline it
/// listens to, encoded as JPEG and written to `filesink_location`.
pub fn snapshot_pipeline_description(pipeline_name: &str, listen_to: &str, filesink_location: &str) -> (d: String)
    ensures
        d@ == snapshot_description_spec(pipeline_name@, listen_to@, filesink_location@),
{
    let mut d = String::new();
    d.append("interpipesrc name=");
    d.append(pipeline_name);
    d.append(" listen-to=");
    d.append(listen_to);
    d.append(
        " accept-events=false accept-eos-event=false enable-sync=false allow-renegotiation=false num-buffers=1 ! v4l2jpegenc ! multifilesink location=\"",
    );
    d.append(filesink_location);
    d.append("\"");
    d
}

/// How verbose logging is.
#[derive(Clone, Copy, Debug, PartialEq, Eq, Structural)]
pub enum LogLevel {
    Warn,
    Info,
    Debug,
    Trace,
}

/// The log level for `-v` given `verbosity` times: warnings by default, then
/// information, debugging and tracing.
pub fn log_level(verbosity: u64) -> (l: LogLevel)
    ensures
        l == (if verbosity == 0 {
            LogLevel::Warn
        } else if verbosity == 1 {
            LogLevel::Info
        } else if verbosity == 2 {
            LogLevel::Debug
        } else {
            LogLevel::Trace
        }),
{
    match verbosity {
        0 => LogLevel::Warn,
        1 => LogLevel::Info,
        2 => LogLevel::Debug,
        _ => LogLevel::Trace,
    }
}

} // verus!
