//! Ingestion of images over HTTP into stored thumbnails: routing, request
//! decoding decisions, source resolution, the per-batch store pipeline and
//! the error model that maps every failure onto one HTTP answer.
pub mod status;
pub mod text;
pub mod service;
pub mod api;
pub mod batch;
