//! Loads a polygonal asset (geometry plus diffuse/normal-map materials) into
//! renderer-ready resources and issues indexed, instanced draw commands for it.
//!
//! The asset text is parsed outside the library (the parser reads the file
//! system and may reject or even abort on a malformed file); everything it
//! hands back enters as plain records, and every record is validated here
//! before it is used. Device-resident resources (buffers,
//! bind groups) and the command recording of a render pass are modelled as
//! plain data, so that what the loader uploads and what a draw call binds is
//! stated and proved exactly; a rendering backend maps these models onto its
//! own device objects.

pub mod asset;
pub mod draw;
pub mod gpu;
pub mod model;
pub mod records;
pub mod vertex;
