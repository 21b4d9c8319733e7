//! Readable model data recovered from a `.moc3` file.
//!
//! Numeric values that the file stores as IEEE-754 single-precision floats
//! are kept as their raw 32-bit patterns, exactly as read from the file.

mod art_mesh;
mod bindings;
mod deformer;
mod glue;
mod layout;
mod model;
mod parts;
mod reader;
mod types;

pub use art_mesh::mesh_views;
pub use bindings::band_views;
pub use deformer::deformer_views;
pub use layout::{parameter_views, Counts};
pub use model::{glue_views, lemma_model_references, moc3_of, moc3_ok, part_views, Moc3Model, Moc3ModelView};
pub use types::{
    art_mesh_keyform_views, binding_views, deformer_band, deformer_parent, ArtMeshModel, CanvasModel, DeformerModel, GlueModel, ParameterBindingModel, ParameterModel, PartModel,
    ArtMesh, ArtMeshKeyform, BindingBand, Canvas, Deformer, Endianness, Glue, GlueVertex, Moc3Version,
    Parameter, ParameterBinding, Part, PartKeyform, Rgb, RotationDeformer, RotationDeformerKeyform,
    WarpDeformer, WarpDeformerKeyform, WarpDeformerModel, WarpDeformerKeyformModel, RotationDeformerModel,
};
pub use reader::{i16_at, i32_at, u16_at, u32_at, Reader};
