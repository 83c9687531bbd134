//! The logic of PrintNanny's NATS workers and camera pipelines: subjects and
//! message routing, command handling, event relaying and publishing, and the
//! descriptions of the GStreamer pipelines.

pub mod broadcast;
pub mod cam;
pub mod commands;
pub mod decimal;
pub mod events;
pub mod factory;
pub mod message;
pub mod nats_sink;
pub mod options;
pub mod pipeline;
pub mod publisher;
pub mod recording;
pub mod relay;
pub mod routing;
pub mod stamp;
pub mod subjects;
pub mod subscriber;
pub mod systemd;
pub mod tensor;
pub mod text;
pub mod video;
