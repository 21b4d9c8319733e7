//! PNG atlas pages supplied to the decompiler.

use vstd::prelude::*;

use crate::error::{cmo3_error, invalid_cmo3, Error};
use crate::moc3::{mesh_views, u32_at, ArtMeshModel, Endianness, Moc3Model};

verus! {

/// The eight bytes that start every PNG file.
pub open spec fn png_signature() -> Seq<u8> {
    seq![137u8, 80, 78, 71, 13, 10, 26, 10]
}

/// The chunk type `IHDR` of the PNG header chunk.
pub open spec fn ihdr() -> Seq<u8> {
    seq![73u8, 72, 68, 82]
}

/// A one-pixel transparent PNG image.
pub open spec fn transparent_png() -> Seq<u8> {
    seq![
        137u8, 80, 78, 71, 13, 10, 26, 10, 0, 0, 0, 13, 73, 72, 68, 82, 0, 0, 0, 1, 0, 0, 0, 1, 8, 6, 0, 0, 0, 31, 21,
        196, 137, 0, 0, 0, 11, 73, 68, 65, 84, 120, 218, 99, 96, 0, 2, 0, 0, 5, 0, 1, 226, 38, 5, 155, 0, 0, 0, 0, 73,
        69, 78, 68, 174, 66, 96, 130,
    ]
}

/// The width stored in the PNG header of `b`.
pub open spec fn png_width(b: Seq<u8>) -> u32 {
    u32_at(b, 16, Endianness::Big)
}

/// The height stored in the PNG header of `b`.
pub open spec fn png_height(b: Seq<u8>) -> u32 {
    u32_at(b, 20, Endianness::Big)
}

/// Whether `b` starts with a PNG signature and header chunk that give a
/// non-zero width and height.
pub open spec fn png_ok(b: Seq<u8>) -> bool {
    &&& b.len() >= 24
    &&& b.subrange(0, 8) == png_signature()
    &&& b.subrange(12, 16) == ihdr()
    &&& png_width(b) != 0
    &&& png_height(b) != 0
}

/// The abstract contents of a [`Texture`].
pub struct TextureView {
    pub png: Seq<u8>,
    pub width: u32,
    pub height: u32,
}

/// One PNG texture atlas page supplied to the decompiler.
#[derive(Debug, Clone)]
pub struct Texture {
    png: Vec<u8>,
    width: u32,
    height: u32,
}

impl View for Texture {
    type V = TextureView;

    closed spec fn view(&self) -> TextureView {
        TextureView { png: self.png@, width: self.width, height: self.height }
    }
}

/// The views of a sequence of textures.
pub open spec fn texture_views(v: Seq<Texture>) -> Seq<TextureView> {
    v.map_values(|t: Texture| t@)
}

/// The transparent placeholder page.
pub open spec fn transparent_view() -> TextureView {
    TextureView { png: transparent_png(), width: 1, height: 1 }
}

/// Reads a big-endian 32-bit value from a buffer known to hold it.
fn be_u32(b: &[u8], at: usize) -> (res: u32)
    requires
        at + 4 <= b@.len(),
    ensures
        res == u32_at(b@, at as int, Endianness::Big),
{
    b[at] as u32 * 16777216 + b[at + 1] as u32 * 65536 + b[at + 2] as u32 * 256 + b[at + 3] as u32
}

impl Texture {
    /// Validates the PNG signature and IHDR header, then reads its dimensions.
    ///
    /// Fails when the input lacks a valid PNG header or has a zero width or
    /// height.
    pub fn from_png(png: Vec<u8>) -> (res: Result<Texture, Error>)
        ensures
            png_ok(png@) ==> (res matches Ok(t) && t@ == (TextureView {
                png: png@,
                width: png_width(png@),
                height: png_height(png@),
            })),
            !png_ok(png@) ==> cmo3_error(res),
    {
        let signature: [u8; 8] = [137, 80, 78, 71, 13, 10, 26, 10];
        let chunk: [u8; 4] = [73, 72, 68, 82];
        assert(signature@ =~= png_signature());
        assert(chunk@ =~= ihdr());
        if png.len() < 24 || !crate::text::matches_at(png.as_slice(), signature.as_slice(), 0)
            || !crate::text::matches_at(png.as_slice(), chunk.as_slice(), 12) {
            return Err(invalid_cmo3("texture is not a valid PNG header"));
        }
        let width = be_u32(png.as_slice(), 16);
        let height = be_u32(png.as_slice(), 20);
        if width == 0 || height == 0 {
            return Err(invalid_cmo3("texture dimensions must be non-zero"));
        }
        Ok(Texture { png, width, height })
    }

    /// Returns the encoded PNG bytes.
    pub fn png(&self) -> (res: &[u8])
        ensures
            res@ == self@.png,
    {
        self.png.as_slice()
    }

    /// Returns the pixel width.
    pub fn width(&self) -> (res: u32)
        ensures
            res == self@.width,
    {
        self.width
    }

    /// Returns the pixel height.
    pub fn height(&self) -> (res: u32)
        ensures
            res == self@.height,
    {
        self.height
    }

    /// The transparent one-pixel placeholder page.
    pub fn transparent() -> (res: Texture)
        ensures
            res@ == transparent_view(),
    {
        let bytes: [u8; 68] = [
            137, 80, 78, 71, 13, 10, 26, 10, 0, 0, 0, 13, 73, 72, 68, 82, 0, 0, 0, 1, 0, 0, 0, 1, 8, 6, 0, 0, 0, 31, 21,
            196, 137, 0, 0, 0, 11, 73, 68, 65, 84, 120, 218, 99, 96, 0, 2, 0, 0, 5, 0, 1, 226, 38, 5, 155, 0, 0, 0, 0,
            73, 69, 78, 68, 174, 66, 96, 130,
        ];
        let png = vstd::slice::slice_to_vec(bytes.as_slice());
        assert(png@ =~= transparent_png());
        Texture { png, width: 1, height: 1 }
    }

    /// Returns a copy of this page.
    pub fn copy(&self) -> (res: Texture)
        ensures
            res@ == self@,
    {
        Texture { png: vstd::slice::slice_to_vec(self.png.as_slice()), width: self.width, height: self.height }
    }
}

/// How many pages the ArtMeshes of a model refer to: one more than the
/// largest texture index, or none without ArtMeshes.
pub open spec fn required_pages(meshes: Seq<ArtMeshModel>) -> nat
    decreases meshes.len(),
{
    if meshes.len() == 0 {
        0
    } else {
        let rest = required_pages(meshes.drop_last());
        let own = (meshes.last().texture_index + 1) as nat;
        if own > rest {
            own
        } else {
            rest
        }
    }
}

/// The pages of a project: the supplied ones, then transparent
/// placeholders up to the number the model refers to.
pub open spec fn completed_pages(supplied: Seq<TextureView>, required: nat) -> Seq<TextureView> {
    if supplied.len() >= required {
        supplied
    } else {
        supplied + Seq::new((required - supplied.len()) as nat, |i: int| transparent_view())
    }
}

/// Every texture index an ArtMesh uses is below the required page count,
/// and with ArtMeshes that count is one more than one of their indices.
pub proof fn lemma_required_pages(meshes: Seq<ArtMeshModel>)
    ensures
        forall|i: int| 0 <= i < meshes.len() ==> (#[trigger] meshes[i]).texture_index < required_pages(meshes),
        meshes.len() == 0 ==> required_pages(meshes) == 0,
        meshes.len() > 0 ==> exists|i: int| 0 <= i < meshes.len() && required_pages(meshes) == #[trigger] meshes[i].texture_index + 1,
    decreases meshes.len(),
{
    if meshes.len() > 0 {
        let rest = meshes.drop_last();
        lemma_required_pages(rest);
        assert forall|i: int| 0 <= i < meshes.len() implies (#[trigger] meshes[i]).texture_index < required_pages(meshes) by {
            if i < rest.len() {
                assert(rest[i] == meshes[i]);
            }
        }
        if required_pages(meshes) != meshes.last().texture_index + 1 {
            let i = choose|i: int| 0 <= i < rest.len() && required_pages(rest) == #[trigger] rest[i].texture_index + 1;
            assert(rest[i] == meshes[i]);
        }
    }
}

/// The completed pages keep the supplied ones in order, give every texture
/// index an ArtMesh uses a page, and add only transparent placeholders,
/// no more than the largest such index needs.
pub proof fn lemma_completed_pages_cover(supplied: Seq<TextureView>, meshes: Seq<ArtMeshModel>)
    ensures
        ({
            let pages = completed_pages(supplied, required_pages(meshes));
            &&& pages.len() >= supplied.len()
            &&& forall|j: int| 0 <= j < supplied.len() ==> #[trigger] pages[j] == supplied[j]
            &&& forall|i: int| 0 <= i < meshes.len() ==> (#[trigger] meshes[i]).texture_index < pages.len()
            &&& forall|j: int| supplied.len() <= j < pages.len() ==> #[trigger] pages[j] == transparent_view()
            &&& pages.len() > supplied.len() ==> exists|i: int|
                0 <= i < meshes.len() && pages.len() == #[trigger] meshes[i].texture_index + 1
        }),
{
    lemma_required_pages(meshes);
}

/// Completes the supplied pages with transparent placeholders, keeping any
/// extra pages.
pub fn complete_texture_set(model: &Moc3Model, supplied: &[Texture]) -> (res: Vec<Texture>)
    requires
        forall|i: int| 0 <= i < model@.art_meshes.len() ==> (#[trigger] model@.art_meshes[i]).texture_index < usize::MAX,
    ensures
        texture_views(res@) == completed_pages(texture_views(supplied@), required_pages(model@.art_meshes)),
{
    let meshes = model.art_meshes();
    let ghost ms = model@.art_meshes;
    assert(mesh_views(meshes@) == ms);
    let mut required: usize = 0;
    let mut i: usize = 0;
    while i < meshes.len()
        invariant
            i <= meshes@.len(),
            ms == mesh_views(meshes@),
            forall|j: int| 0 <= j < ms.len() ==> (#[trigger] ms[j]).texture_index < usize::MAX,
            required == required_pages(ms.subrange(0, i as int)),
        decreases meshes@.len() - i,
    {
        let index = meshes[i].texture_index();
        assert(ms[i as int] == meshes@[i as int]@);
        assert(ms.subrange(0, i + 1).drop_last() =~= ms.subrange(0, i as int));
        if index + 1 > required {
            required = index + 1;
        }
        i = i + 1;
    }
    assert(ms.subrange(0, meshes@.len() as int) =~= ms);
    let ghost given = texture_views(supplied@);
    let mut pages: Vec<Texture> = Vec::new();
    let mut k: usize = 0;
    while k < supplied.len()
        invariant
            k <= supplied@.len(),
            given == texture_views(supplied@),
            pages@.len() == k,
            forall|j: int| 0 <= j < k ==> (#[trigger] pages@[j])@ == given[j],
        decreases supplied@.len() - k,
    {
        pages.push(supplied[k].copy());
        k = k + 1;
    }
    while pages.len() < required
        invariant
            given.len() <= pages@.len(),
            pages@.len() == given.len() || pages@.len() <= required,
            forall|j: int| 0 <= j < given.len() ==> (#[trigger] pages@[j])@ == given[j],
            forall|j: int| given.len() <= j < pages@.len() ==> (#[trigger] pages@[j])@ == transparent_view(),
        decreases required - pages@.len(),
    {
        pages.push(Texture::transparent());
    }
    proof {
        let want = completed_pages(given, required as nat);
        if given.len() >= required {
            assert(pages@.len() == given.len());
        } else {
            assert(pages@.len() == required);
        }
        assert(texture_views(pages@) =~= want);
    }
    pages
}

/// Completing keeps the supplied pages, in order, and adds transparent
/// placeholders only up to the number of pages the model refers to.
pub proof fn lemma_completed_pages(supplied: Seq<TextureView>, required: nat)
    ensures
        completed_pages(supplied, required).len() == if supplied.len() >= required {
            supplied.len()
        } else {
            required
        },
        completed_pages(supplied, required).subrange(0, supplied.len() as int) == supplied,
        forall|i: int|
            supplied.len() <= i < completed_pages(supplied, required).len() ==> #[trigger] completed_pages(
                supplied,
                required,
            )[i] == transparent_view(),
{
    assert(completed_pages(supplied, required).subrange(0, supplied.len() as int) =~= supplied);
}

} // verus!
