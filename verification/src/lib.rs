//! Skybox conversion: turns an equirectangular panorama into the six faces of
//! a cube and lays them out as a Bevy strip or a Unity cross, together with the
//! pixel filters, PNG framing and static-file serving decisions around it.

pub mod raster;
pub mod text;
pub mod layout;
pub mod filters;
pub mod encode;
pub mod enhance;
pub mod serve;
pub mod codec;
pub mod paths;
