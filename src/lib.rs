//! Conversion engine for point-cloud and camera-parameter text formats, and
//! the planning of calls into external splatting tools.
pub mod camera_params;
pub mod config;
pub mod data_manager;
pub mod errors;
pub mod formats;
pub mod integrations;
pub mod point_cloud;
pub mod text;
