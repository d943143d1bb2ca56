//! Interactive HTML BOM generator.
//!
//! Builds an in-memory model of a printed-circuit-board's geometry,
//! placement and bill-of-materials data, validates it, and renders it into
//! a single self-contained HTML page for an interactive viewer.

pub mod agg;
pub mod laws;
pub mod model;
pub mod pack;
pub mod page;
pub mod serial;
pub mod text;

pub use model::Drawing;
pub use model::DrawingKind;
pub use model::DrawingLayer;
pub use model::Footprint;
pub use model::InteractiveHtmlBom;
pub use model::Layer;
pub use model::Pad;
pub use model::RefMap;
pub use model::Track;
pub use model::Via;
pub use model::Zone;
