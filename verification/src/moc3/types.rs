//! Value types of a recovered MOC3 model.

use vstd::prelude::*;

use crate::error::{invalid_moc3, moc3_error, Error};

verus! {

/// The byte order used by numeric sections in a MOC3 file.
#[derive(Debug, Copy, Clone, PartialEq, Eq, Structural)]
pub enum Endianness {
    /// Least-significant byte first.
    Little,
    /// Most-significant byte first.
    Big,
}

/// A supported MOC3 binary format version.
#[derive(Debug, Copy, Clone, PartialEq, Eq, Structural)]
pub enum Moc3Version {
    /// Cubism 3.0 format.
    V3_0,
    /// Cubism 3.3 format.
    V3_3,
    /// Cubism 4.0 format.
    V4_0,
    /// Cubism 4.2 format.
    V4_2,
    /// Cubism 5.0 format.
    V5_0,
    /// Cubism 5.3 format.
    V5_3,
}

/// The version that a raw header byte names, if any.
pub open spec fn version_of(raw: u8) -> Option<Moc3Version> {
    if raw == 1 {
        Some(Moc3Version::V3_0)
    } else if raw == 2 {
        Some(Moc3Version::V3_3)
    } else if raw == 3 {
        Some(Moc3Version::V4_0)
    } else if raw == 4 {
        Some(Moc3Version::V4_2)
    } else if raw == 5 {
        Some(Moc3Version::V5_0)
    } else if raw == 6 {
        Some(Moc3Version::V5_3)
    } else {
        None
    }
}

/// How many 32-bit words the count section of a version holds.
pub open spec fn count_words_of(version: Moc3Version) -> nat {
    match version {
        Moc3Version::V3_0 | Moc3Version::V3_3 | Moc3Version::V4_0 => 23,
        Moc3Version::V4_2 => 32,
        Moc3Version::V5_0 | Moc3Version::V5_3 => 35,
    }
}

impl Moc3Version {
    /// Decodes the version byte of the header.
    pub fn from_raw(raw: u8) -> (res: Result<Self, Error>)
        ensures
            match version_of(raw) {
                Some(v) => res == Ok::<Self, Error>(v),
                None => moc3_error(res),
            },
    {
        match raw {
            1 => Ok(Self::V3_0),
            2 => Ok(Self::V3_3),
            3 => Ok(Self::V4_0),
            4 => Ok(Self::V4_2),
            5 => Ok(Self::V5_0),
            6 => Ok(Self::V5_3),
            _ => Err(invalid_moc3("unsupported format version")),
        }
    }

    /// Returns how many 32-bit words the count section holds.
    pub fn count_words(self) -> (res: usize)
        ensures
            res == count_words_of(self),
    {
        match self {
            Self::V3_0 | Self::V3_3 | Self::V4_0 => 23,
            Self::V4_2 => 32,
            Self::V5_0 | Self::V5_3 => 35,
        }
    }
}

} // verus!

verus! {

/// The abstract contents of a [`Canvas`].
pub struct CanvasModel {
    pub pixels_per_unit: u32,
    pub origin: (u32, u32),
    pub size: (u32, u32),
    pub reverse_y: bool,
}

/// The model coordinate system stored in the MOC3 file. Float values are
/// their IEEE-754 bit patterns.
#[derive(Debug, Copy, Clone, PartialEq, Eq)]
pub struct Canvas {
    pixels_per_unit: u32,
    origin: (u32, u32),
    size: (u32, u32),
    reverse_y: bool,
}

impl View for Canvas {
    type V = CanvasModel;

    closed spec fn view(&self) -> CanvasModel {
        CanvasModel {
            pixels_per_unit: self.pixels_per_unit,
            origin: self.origin,
            size: self.size,
            reverse_y: self.reverse_y,
        }
    }
}

impl Canvas {
    pub(crate) fn new(pixels_per_unit: u32, origin: (u32, u32), size: (u32, u32), reverse_y: bool) -> (res: Self)
        ensures
            res@ == (CanvasModel { pixels_per_unit, origin, size, reverse_y }),
    {
        Self { pixels_per_unit, origin, size, reverse_y }
    }

    /// Returns the bit pattern of the scale between model units and pixels.
    pub fn pixels_per_unit_bits(&self) -> (res: u32)
        ensures
            res == self@.pixels_per_unit,
    {
        self.pixels_per_unit
    }

    /// Returns the bit patterns of the canvas origin in pixels.
    pub fn origin_bits(&self) -> (res: (u32, u32))
        ensures
            res == self@.origin,
    {
        self.origin
    }

    /// Returns the bit patterns of the canvas width and height in pixels.
    pub fn size_bits(&self) -> (res: (u32, u32))
        ensures
            res == self@.size,
    {
        self.size
    }

    /// Returns whether the Y axis is reversed.
    pub fn reverse_y(&self) -> (res: bool)
        ensures
            res == self@.reverse_y,
    {
        self.reverse_y
    }
}

/// The abstract contents of a [`Parameter`].
pub struct ParameterModel {
    pub id: Seq<char>,
    pub minimum: u32,
    pub maximum: u32,
    pub default: u32,
}

/// A parameter recovered from a MOC3 model.
#[derive(Debug, Clone, PartialEq, Eq)]
pub struct Parameter {
    id: String,
    minimum: u32,
    maximum: u32,
    default: u32,
}

impl View for Parameter {
    type V = ParameterModel;

    closed spec fn view(&self) -> ParameterModel {
        ParameterModel { id: self.id@, minimum: self.minimum, maximum: self.maximum, default: self.default }
    }
}

impl Parameter {
    pub(crate) fn new(id: String, minimum: u32, maximum: u32, default: u32) -> (res: Self)
        ensures
            res@ == (ParameterModel { id: id@, minimum, maximum, default }),
    {
        Self { id, minimum, maximum, default }
    }

    /// Returns the runtime identifier as stored in the file.
    pub fn id(&self) -> (res: &str)
        ensures
            res@ == self@.id,
    {
        self.id.as_str()
    }

    /// Returns the bit pattern of the minimum parameter value.
    pub fn minimum_bits(&self) -> (res: u32)
        ensures
            res == self@.minimum,
    {
        self.minimum
    }

    /// Returns the bit pattern of the maximum parameter value.
    pub fn maximum_bits(&self) -> (res: u32)
        ensures
            res == self@.maximum,
    {
        self.maximum
    }

    /// Returns the bit pattern of the default parameter value.
    pub fn default_bits(&self) -> (res: u32)
        ensures
            res == self@.default,
    {
        self.default
    }
}

/// The abstract contents of a [`ParameterBinding`].
pub struct ParameterBindingModel {
    pub parameter_index: usize,
    pub keys: Seq<u32>,
}

/// One parameter axis used by a keyform grid.
#[derive(Debug, Clone, PartialEq, Eq)]
pub struct ParameterBinding {
    parameter_index: usize,
    keys: Vec<u32>,
}

impl View for ParameterBinding {
    type V = ParameterBindingModel;

    closed spec fn view(&self) -> ParameterBindingModel {
        ParameterBindingModel { parameter_index: self.parameter_index, keys: self.keys@ }
    }
}

impl ParameterBinding {
    pub(crate) fn new(parameter_index: usize, keys: Vec<u32>) -> (res: Self)
        ensures
            res@ == (ParameterBindingModel { parameter_index, keys: keys@ }),
    {
        Self { parameter_index, keys }
    }

    /// Returns a copy with the same contents.
    pub fn duplicate(&self) -> (res: Self)
        ensures
            res@ == self@,
    {
        let mut keys: Vec<u32> = Vec::new();
        let mut index: usize = 0;
        while index < self.keys.len()
            invariant
                index <= self.keys@.len(),
                keys@ =~= self.keys@.take(index as int),
            decreases self.keys@.len() - index,
        {
            keys.push(self.keys[index]);
            index = index + 1;
        }
        assert(keys@ =~= self.keys@);
        Self { parameter_index: self.parameter_index, keys }
    }

    /// Returns the index into the model's parameters.
    pub fn parameter_index(&self) -> (res: usize)
        ensures
            res == self@.parameter_index,
    {
        self.parameter_index
    }

    /// Returns the bit patterns of the ordered key values on this axis.
    pub fn key_bits(&self) -> (res: &[u32])
        ensures
            res@ == self@.keys,
    {
        self.keys.as_slice()
    }
}

/// The views of a sequence of parameter bindings.
pub open spec fn binding_views(s: Seq<ParameterBinding>) -> Seq<ParameterBindingModel> {
    s.map_values(|b: ParameterBinding| b@)
}

/// The parameter axes that define an entity's keyform grid.
#[derive(Debug, Clone, PartialEq, Eq)]
pub struct BindingBand {
    bindings: Vec<ParameterBinding>,
}

impl View for BindingBand {
    type V = Seq<ParameterBindingModel>;

    closed spec fn view(&self) -> Seq<ParameterBindingModel> {
        binding_views(self.bindings@)
    }
}

impl BindingBand {
    pub(crate) fn new(bindings: Vec<ParameterBinding>) -> (res: Self)
        ensures
            res@ == binding_views(bindings@),
    {
        Self { bindings }
    }

    /// Returns the parameter axes in grid-stride order.
    pub fn bindings(&self) -> (res: &[ParameterBinding])
        ensures
            binding_views(res@) == self@,
    {
        self.bindings.as_slice()
    }
}

/// A keyed part state: bit patterns of its opacity and draw order.
#[derive(Debug, Copy, Clone, PartialEq, Eq, Structural)]
pub struct PartKeyform {
    /// Bit pattern of the keyed opacity.
    pub opacity: u32,
    /// Bit pattern of the keyed draw order.
    pub draw_order: u32,
}

/// The abstract contents of a [`Part`].
pub struct PartModel {
    pub id: Seq<char>,
    pub parent_part_index: Option<usize>,
    pub binding_band_index: Option<usize>,
    pub keyforms: Seq<PartKeyform>,
}

/// A part in the recovered hierarchy.
#[derive(Debug, Clone, PartialEq, Eq)]
pub struct Part {
    id: String,
    parent_part_index: Option<usize>,
    binding_band_index: Option<usize>,
    keyforms: Vec<PartKeyform>,
}

impl View for Part {
    type V = PartModel;

    closed spec fn view(&self) -> PartModel {
        PartModel {
            id: self.id@,
            parent_part_index: self.parent_part_index,
            binding_band_index: self.binding_band_index,
            keyforms: self.keyforms@,
        }
    }
}

impl Part {
    pub(crate) fn new(
        id: String,
        parent_part_index: Option<usize>,
        binding_band_index: Option<usize>,
        keyforms: Vec<PartKeyform>,
    ) -> (res: Self)
        ensures
            res@ == (PartModel { id: id@, parent_part_index, binding_band_index, keyforms: keyforms@ }),
    {
        Self { id, parent_part_index, binding_band_index, keyforms }
    }

    /// Returns the runtime identifier as stored in the file.
    pub fn id(&self) -> (res: &str)
        ensures
            res@ == self@.id,
    {
        self.id.as_str()
    }

    /// Returns the parent part index, or `None` for a root part.
    pub fn parent_part_index(&self) -> (res: Option<usize>)
        ensures
            res == self@.parent_part_index,
    {
        self.parent_part_index
    }

    /// Returns the parameter binding band used by the keyforms.
    pub fn binding_band_index(&self) -> (res: Option<usize>)
        ensures
            res == self@.binding_band_index,
    {
        self.binding_band_index
    }

    /// Returns the part keyforms in grid order.
    pub fn keyforms(&self) -> (res: &[PartKeyform])
        ensures
            res@ == self@.keyforms,
    {
        self.keyforms.as_slice()
    }
}

/// An RGB color; each channel is the bit pattern of a float.
#[derive(Debug, Copy, Clone, PartialEq, Eq, Structural)]
pub struct Rgb {
    /// Red channel.
    pub red: u32,
    /// Green channel.
    pub green: u32,
    /// Blue channel.
    pub blue: u32,
}

/// The bit pattern of the float `1.0`.
pub const ONE_BITS: u32 = 0x3f80_0000u32;

/// The default multiply color, white.
pub open spec fn white() -> Rgb {
    Rgb { red: ONE_BITS, green: ONE_BITS, blue: ONE_BITS }
}

/// The default screen color, black.
pub open spec fn black() -> Rgb {
    Rgb { red: 0, green: 0, blue: 0 }
}

/// A keyed drawable state. Float values are bit patterns.
#[derive(Debug, Clone, PartialEq, Eq)]
pub struct ArtMeshKeyform {
    /// Keyed positions in the parent deformer coordinate system.
    pub positions: Vec<(u32, u32)>,
    /// Keyed opacity.
    pub opacity: u32,
    /// Keyed draw order.
    pub draw_order: u32,
    /// Keyed multiply color as RGB values.
    pub multiply_color: Rgb,
    /// Keyed screen color as RGB values.
    pub screen_color: Rgb,
}

/// The abstract contents of an [`ArtMeshKeyform`].
pub struct ArtMeshKeyformModel {
    pub positions: Seq<(u32, u32)>,
    pub opacity: u32,
    pub draw_order: u32,
    pub multiply_color: Rgb,
    pub screen_color: Rgb,
}

impl View for ArtMeshKeyform {
    type V = ArtMeshKeyformModel;

    open spec fn view(&self) -> ArtMeshKeyformModel {
        ArtMeshKeyformModel {
            positions: self.positions@,
            opacity: self.opacity,
            draw_order: self.draw_order,
            multiply_color: self.multiply_color,
            screen_color: self.screen_color,
        }
    }
}

/// The views of a sequence of ArtMesh keyforms.
pub open spec fn art_mesh_keyform_views(s: Seq<ArtMeshKeyform>) -> Seq<ArtMeshKeyformModel> {
    s.map_values(|k: ArtMeshKeyform| k@)
}

/// The abstract contents of an [`ArtMesh`].
pub struct ArtMeshModel {
    pub id: Seq<char>,
    pub texture_index: usize,
    pub drawable_flags: u8,
    pub parent_part_index: Option<usize>,
    pub parent_deformer_index: Option<usize>,
    pub binding_band_index: Option<usize>,
    pub uvs: Seq<(u32, u32)>,
    pub triangle_indices: Seq<u16>,
    pub mask_drawable_indices: Seq<usize>,
    pub keyforms: Seq<ArtMeshKeyformModel>,
}

/// An ArtMesh recovered from the runtime model.
#[derive(Debug, Clone, PartialEq, Eq)]
pub struct ArtMesh {
    id: String,
    texture_index: usize,
    drawable_flags: u8,
    parent_part_index: Option<usize>,
    parent_deformer_index: Option<usize>,
    binding_band_index: Option<usize>,
    uvs: Vec<(u32, u32)>,
    triangle_indices: Vec<u16>,
    mask_drawable_indices: Vec<usize>,
    keyforms: Vec<ArtMeshKeyform>,
}

impl View for ArtMesh {
    type V = ArtMeshModel;

    closed spec fn view(&self) -> ArtMeshModel {
        ArtMeshModel {
            id: self.id@,
            texture_index: self.texture_index,
            drawable_flags: self.drawable_flags,
            parent_part_index: self.parent_part_index,
            parent_deformer_index: self.parent_deformer_index,
            binding_band_index: self.binding_band_index,
            uvs: self.uvs@,
            triangle_indices: self.triangle_indices@,
            mask_drawable_indices: self.mask_drawable_indices@,
            keyforms: art_mesh_keyform_views(self.keyforms@),
        }
    }
}

impl ArtMesh {
    #[allow(clippy::too_many_arguments)]
    pub(crate) fn new(
        id: String,
        texture_index: usize,
        drawable_flags: u8,
        parent_part_index: Option<usize>,
        parent_deformer_index: Option<usize>,
        binding_band_index: Option<usize>,
        uvs: Vec<(u32, u32)>,
        triangle_indices: Vec<u16>,
        mask_drawable_indices: Vec<usize>,
        keyforms: Vec<ArtMeshKeyform>,
    ) -> (res: Self)
        ensures
            res@ == (ArtMeshModel {
                id: id@,
                texture_index,
                drawable_flags,
                parent_part_index,
                parent_deformer_index,
                binding_band_index,
                uvs: uvs@,
                triangle_indices: triangle_indices@,
                mask_drawable_indices: mask_drawable_indices@,
                keyforms: art_mesh_keyform_views(keyforms@),
            }),
    {
        Self {
            id,
            texture_index,
            drawable_flags,
            parent_part_index,
            parent_deformer_index,
            binding_band_index,
            uvs,
            triangle_indices,
            mask_drawable_indices,
            keyforms,
        }
    }

    /// Returns the runtime identifier as stored in the file.
    pub fn id(&self) -> (res: &str)
        ensures
            res@ == self@.id,
    {
        self.id.as_str()
    }

    /// Returns the zero-based texture atlas index.
    pub fn texture_index(&self) -> (res: usize)
        ensures
            res == self@.texture_index,
    {
        self.texture_index
    }

    /// Returns the packed drawable flags as stored in the file.
    pub fn drawable_flags(&self) -> (res: u8)
        ensures
            res == self@.drawable_flags,
    {
        self.drawable_flags
    }

    /// Returns the parent part index.
    pub fn parent_part_index(&self) -> (res: Option<usize>)
        ensures
            res == self@.parent_part_index,
    {
        self.parent_part_index
    }

    /// Returns the parent deformer index.
    pub fn parent_deformer_index(&self) -> (res: Option<usize>)
        ensures
            res == self@.parent_deformer_index,
    {
        self.parent_deformer_index
    }

    /// Returns the parameter binding band used by the keyforms.
    pub fn binding_band_index(&self) -> (res: Option<usize>)
        ensures
            res == self@.binding_band_index,
    {
        self.binding_band_index
    }

    /// Returns the bit patterns of the texture UV coordinates.
    pub fn uv_bits(&self) -> (res: &[(u32, u32)])
        ensures
            res@ == self@.uvs,
    {
        self.uvs.as_slice()
    }

    /// Returns triangle vertex indices.
    pub fn triangle_indices(&self) -> (res: &[u16])
        ensures
            res@ == self@.triangle_indices,
    {
        self.triangle_indices.as_slice()
    }

    /// Returns the ArtMesh indices used as clipping masks.
    pub fn mask_drawable_indices(&self) -> (res: &[usize])
        ensures
            res@ == self@.mask_drawable_indices,
    {
        self.mask_drawable_indices.as_slice()
    }

    /// Returns drawable keyforms in grid order.
    pub fn keyforms(&self) -> (res: &[ArtMeshKeyform])
        ensures
            art_mesh_keyform_views(res@) == self@.keyforms,
    {
        self.keyforms.as_slice()
    }
}

} // verus!

verus! {

/// A keyed warp-deformer state. Float values are bit patterns.
#[derive(Debug, Clone, PartialEq, Eq)]
pub struct WarpDeformerKeyform {
    /// Keyed lattice positions.
    pub positions: Vec<(u32, u32)>,
    /// Keyed opacity.
    pub opacity: u32,
    /// Keyed multiply color.
    pub multiply_color: Rgb,
    /// Keyed screen color.
    pub screen_color: Rgb,
}

/// The abstract contents of a [`WarpDeformerKeyform`].
pub struct WarpDeformerKeyformModel {
    pub positions: Seq<(u32, u32)>,
    pub opacity: u32,
    pub multiply_color: Rgb,
    pub screen_color: Rgb,
}

impl View for WarpDeformerKeyform {
    type V = WarpDeformerKeyformModel;

    open spec fn view(&self) -> WarpDeformerKeyformModel {
        WarpDeformerKeyformModel {
            positions: self.positions@,
            opacity: self.opacity,
            multiply_color: self.multiply_color,
            screen_color: self.screen_color,
        }
    }
}

/// The views of a sequence of warp keyforms.
pub open spec fn warp_keyform_views(s: Seq<WarpDeformerKeyform>) -> Seq<WarpDeformerKeyformModel> {
    s.map_values(|k: WarpDeformerKeyform| k@)
}

/// A warp deformer recovered from the model.
#[derive(Debug, Clone, PartialEq, Eq)]
pub struct WarpDeformer {
    /// The parent deformer index.
    pub parent_deformer_index: Option<usize>,
    /// The parameter binding band used by the keyforms.
    pub binding_band_index: Option<usize>,
    /// The number of lattice rows.
    pub rows: usize,
    /// The number of lattice columns.
    pub columns: usize,
    /// The keyed warp states in grid order.
    pub keyforms: Vec<WarpDeformerKeyform>,
}

/// The abstract contents of a [`WarpDeformer`].
pub struct WarpDeformerModel {
    pub parent_deformer_index: Option<usize>,
    pub binding_band_index: Option<usize>,
    pub rows: usize,
    pub columns: usize,
    pub keyforms: Seq<WarpDeformerKeyformModel>,
}

impl View for WarpDeformer {
    type V = WarpDeformerModel;

    open spec fn view(&self) -> WarpDeformerModel {
        WarpDeformerModel {
            parent_deformer_index: self.parent_deformer_index,
            binding_band_index: self.binding_band_index,
            rows: self.rows,
            columns: self.columns,
            keyforms: warp_keyform_views(self.keyforms@),
        }
    }
}

impl WarpDeformer {
    /// Returns the parent deformer index.
    pub fn parent_deformer_index(&self) -> (res: Option<usize>)
        ensures
            res == self@.parent_deformer_index,
    {
        self.parent_deformer_index
    }

    /// Returns the parameter binding band used by the keyforms.
    pub fn binding_band_index(&self) -> (res: Option<usize>)
        ensures
            res == self@.binding_band_index,
    {
        self.binding_band_index
    }

    /// Returns the number of lattice rows.
    pub fn rows(&self) -> (res: usize)
        ensures
            res == self@.rows,
    {
        self.rows
    }

    /// Returns the number of lattice columns.
    pub fn columns(&self) -> (res: usize)
        ensures
            res == self@.columns,
    {
        self.columns
    }

    /// Returns the keyed warp states in grid order.
    pub fn keyforms(&self) -> (res: &[WarpDeformerKeyform])
        ensures
            warp_keyform_views(res@) == self@.keyforms,
    {
        self.keyforms.as_slice()
    }
}

/// A keyed rotation-deformer state. Float values are bit patterns.
#[derive(Debug, Copy, Clone, PartialEq, Eq)]
pub struct RotationDeformerKeyform {
    /// Keyed rotation angle in degrees.
    pub angle_degrees: u32,
    /// Keyed origin in the parent deformer coordinate system.
    pub origin: (u32, u32),
    /// Keyed scale.
    pub scale: u32,
    /// Horizontal and vertical reflection flags.
    pub reflected: (bool, bool),
    /// Keyed opacity.
    pub opacity: u32,
    /// Keyed multiply color.
    pub multiply_color: Rgb,
    /// Keyed screen color.
    pub screen_color: Rgb,
}

/// A rotation deformer recovered from the model.
#[derive(Debug, Clone, PartialEq, Eq)]
pub struct RotationDeformer {
    /// The parent deformer index.
    pub parent_deformer_index: Option<usize>,
    /// The parameter binding band used by the keyforms.
    pub binding_band_index: Option<usize>,
    /// Bit pattern of the unkeyed base angle in degrees.
    pub base_angle_degrees: u32,
    /// The keyed rotation states in grid order.
    pub keyforms: Vec<RotationDeformerKeyform>,
}

/// The abstract contents of a [`RotationDeformer`].
pub struct RotationDeformerModel {
    pub parent_deformer_index: Option<usize>,
    pub binding_band_index: Option<usize>,
    pub base_angle_degrees: u32,
    pub keyforms: Seq<RotationDeformerKeyform>,
}

impl View for RotationDeformer {
    type V = RotationDeformerModel;

    open spec fn view(&self) -> RotationDeformerModel {
        RotationDeformerModel {
            parent_deformer_index: self.parent_deformer_index,
            binding_band_index: self.binding_band_index,
            base_angle_degrees: self.base_angle_degrees,
            keyforms: self.keyforms@,
        }
    }
}

impl RotationDeformer {
    /// Returns the parent deformer index.
    pub fn parent_deformer_index(&self) -> (res: Option<usize>)
        ensures
            res == self@.parent_deformer_index,
    {
        self.parent_deformer_index
    }

    /// Returns the parameter binding band used by the keyforms.
    pub fn binding_band_index(&self) -> (res: Option<usize>)
        ensures
            res == self@.binding_band_index,
    {
        self.binding_band_index
    }

    /// Returns the bit pattern of the unkeyed base angle in degrees.
    pub fn base_angle_bits(&self) -> (res: u32)
        ensures
            res == self@.base_angle_degrees,
    {
        self.base_angle_degrees
    }

    /// Returns the keyed rotation states in grid order.
    pub fn keyforms(&self) -> (res: &[RotationDeformerKeyform])
        ensures
            res@ == self@.keyforms,
    {
        self.keyforms.as_slice()
    }
}

/// A recovered warp or rotation deformer.
#[derive(Debug, Clone, PartialEq, Eq)]
pub enum Deformer {
    /// A lattice-based warp deformer.
    Warp(WarpDeformer),
    /// A rotation and scale deformer.
    Rotation(RotationDeformer),
}

/// The abstract contents of a [`Deformer`].
pub enum DeformerModel {
    Warp(WarpDeformerModel),
    Rotation(RotationDeformerModel),
}

impl View for Deformer {
    type V = DeformerModel;

    open spec fn view(&self) -> DeformerModel {
        match self {
            Deformer::Warp(w) => DeformerModel::Warp(w@),
            Deformer::Rotation(r) => DeformerModel::Rotation(r@),
        }
    }
}

/// The parent deformer index of a deformer model.
pub open spec fn deformer_parent(d: DeformerModel) -> Option<usize> {
    match d {
        DeformerModel::Warp(w) => w.parent_deformer_index,
        DeformerModel::Rotation(r) => r.parent_deformer_index,
    }
}

/// The binding band index of a deformer model.
pub open spec fn deformer_band(d: DeformerModel) -> Option<usize> {
    match d {
        DeformerModel::Warp(w) => w.binding_band_index,
        DeformerModel::Rotation(r) => r.binding_band_index,
    }
}

impl Deformer {
    /// Returns the parent deformer index.
    pub fn parent_deformer_index(&self) -> (res: Option<usize>)
        ensures
            res == deformer_parent(self@),
    {
        match self {
            Self::Warp(deformer) => deformer.parent_deformer_index,
            Self::Rotation(deformer) => deformer.parent_deformer_index,
        }
    }

    /// Returns the parameter binding band used by this deformer.
    pub fn binding_band_index(&self) -> (res: Option<usize>)
        ensures
            res == deformer_band(self@),
    {
        match self {
            Self::Warp(deformer) => deformer.binding_band_index,
            Self::Rotation(deformer) => deformer.binding_band_index,
        }
    }

    /// Returns how many keyforms this deformer has.
    pub fn keyform_count(&self) -> (res: usize)
        ensures
            res == match self@ {
                DeformerModel::Warp(w) => w.keyforms.len(),
                DeformerModel::Rotation(r) => r.keyforms.len(),
            },
    {
        match self {
            Self::Warp(deformer) => deformer.keyforms.len(),
            Self::Rotation(deformer) => deformer.keyforms.len(),
        }
    }
}

/// A paired vertex and the bit pattern of its glue weight.
#[derive(Debug, Copy, Clone, PartialEq, Eq, Structural)]
pub struct GlueVertex {
    /// The vertex index in its ArtMesh.
    pub vertex_index: usize,
    /// Bit pattern of the glue influence weight.
    pub weight: u32,
}

impl GlueVertex {
    /// Returns the vertex index in its ArtMesh.
    pub fn vertex_index(&self) -> (res: usize)
        ensures
            res == self.vertex_index,
    {
        self.vertex_index
    }

    /// Returns the bit pattern of the glue influence weight.
    pub fn weight_bits(&self) -> (res: u32)
        ensures
            res == self.weight,
    {
        self.weight
    }
}

/// A glue constraint joining vertices from two ArtMeshes.
#[derive(Debug, Clone, PartialEq, Eq)]
pub struct Glue {
    /// The first joined ArtMesh index.
    pub art_mesh_a: usize,
    /// The second joined ArtMesh index.
    pub art_mesh_b: usize,
    /// The parameter binding band used by the intensity keyforms.
    pub binding_band_index: Option<usize>,
    /// The vertices on the first ArtMesh.
    pub vertices_a: Vec<GlueVertex>,
    /// The paired vertices on the second ArtMesh.
    pub vertices_b: Vec<GlueVertex>,
    /// Bit patterns of the keyed glue intensities in grid order.
    pub intensities: Vec<u32>,
}

/// The abstract contents of a [`Glue`].
pub struct GlueModel {
    pub art_mesh_indices: (usize, usize),
    pub binding_band_index: Option<usize>,
    pub vertices_a: Seq<GlueVertex>,
    pub vertices_b: Seq<GlueVertex>,
    pub intensities: Seq<u32>,
}

impl View for Glue {
    type V = GlueModel;

    open spec fn view(&self) -> GlueModel {
        GlueModel {
            art_mesh_indices: (self.art_mesh_a, self.art_mesh_b),
            binding_band_index: self.binding_band_index,
            vertices_a: self.vertices_a@,
            vertices_b: self.vertices_b@,
            intensities: self.intensities@,
        }
    }
}

impl Glue {
    /// Returns the two joined ArtMesh indices.
    pub fn art_mesh_indices(&self) -> (res: (usize, usize))
        ensures
            res == self@.art_mesh_indices,
    {
        (self.art_mesh_a, self.art_mesh_b)
    }

    /// Returns the parameter binding band used by the intensity keyforms.
    pub fn binding_band_index(&self) -> (res: Option<usize>)
        ensures
            res == self@.binding_band_index,
    {
        self.binding_band_index
    }

    /// Returns the vertices on the first ArtMesh.
    pub fn vertices_a(&self) -> (res: &[GlueVertex])
        ensures
            res@ == self@.vertices_a,
    {
        self.vertices_a.as_slice()
    }

    /// Returns the paired vertices on the second ArtMesh.
    pub fn vertices_b(&self) -> (res: &[GlueVertex])
        ensures
            res@ == self@.vertices_b,
    {
        self.vertices_b.as_slice()
    }

    /// Returns the bit patterns of the keyed glue intensities in grid order.
    pub fn intensity_bits(&self) -> (res: &[u32])
        ensures
            res@ == self@.intensities,
    {
        self.intensities.as_slice()
    }
}

} // verus!
