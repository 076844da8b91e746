//! Construction of a rendering context: the configuration a caller gives, the
//! choice of surface format, the fixed descriptions of the render pass and
//! pipeline, and the ordered sequence of creation steps that turns them into
//! one fully populated context.
pub mod builder;
pub mod construction;
pub mod format;
pub mod plan;
