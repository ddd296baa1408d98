//! Verified core of a small instanced-scene renderer: the decisions and the
//! bookkeeping of the render loop, stated over integers and plain enums.

pub mod angle;
pub mod camera;
pub mod color_pass;
pub mod command;
pub mod controls;
pub mod input;
pub mod instance;
pub mod light;
pub mod model;
pub mod render_pipeline;
pub mod state;
pub mod surface;
pub mod toggle_bool;
pub mod validation;
