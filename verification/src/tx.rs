//! Layered colour textures and the depth texture, as descriptions.
//!
//! A [`TextureWrapper`] says which texture to allocate, which bytes to upload
//! to which layer, and which view to build over it. The owner of the device
//! executes it: it creates the texture, enqueues each upload before any draw
//! that samples the texture, and creates the view.

use vstd::prelude::*;
use crate::error::ConstructionError;
use crate::globals::{RenderTargetConfig, TextureFormat, BYTES_PER_PIXEL, TEXTURE_FORMAT};

verus! {

/// What an [`Image`] holds, as mathematics.
pub ghost struct ImageView {
    pub width: u32,
    pub height: u32,
    pub data: Seq<u8>,
}

/// An image is well formed when its buffer holds exactly `4 * width * height`
/// bytes and one row of it can be addressed with a 32-bit pitch.
pub open spec fn image_well_formed(v: ImageView) -> bool {
    &&& BYTES_PER_PIXEL * v.width <= u32::MAX
    &&& v.data.len() == BYTES_PER_PIXEL * v.width * v.height
}

/// A decoded image: tightly packed RGBA8 rows, top row first.
pub struct Image {
    width: u32,
    height: u32,
    data: Vec<u8>,
}

impl View for Image {
    type V = ImageView;

    closed spec fn view(&self) -> ImageView {
        ImageView { width: self.width, height: self.height, data: self.data@ }
    }
}

impl Image {
    #[verifier::type_invariant]
    spec fn well_formed(self) -> bool {
        image_well_formed(self@)
    }

    /// Wraps a decoded RGBA8 buffer. Returns `None` unless the buffer holds
    /// exactly `4 * width * height` bytes and `4 * width` fits 32 bits.
    pub fn new(width: u32, height: u32, data: Vec<u8>) -> (r: Option<Image>)
        ensures
            r is Some <==> image_well_formed(ImageView { width, height, data: data@ }),
            r matches Some(img) ==> img@ == (ImageView { width, height, data: data@ }),
    {
        if width > u32::MAX / BYTES_PER_PIXEL {
            return None;
        }
        let row: u64 = BYTES_PER_PIXEL as u64 * width as u64;
        assert(row * height <= 0xffff_ffff * 0xffff_ffff) by (nonlinear_arith)
            requires
                0 <= row <= 0xffff_ffff,
                0 <= height <= 0xffff_ffff,
        ;
        let expected: u64 = row * height as u64;
        assert(expected == BYTES_PER_PIXEL * width * height) by (nonlinear_arith)
            requires
                expected == row * height,
                row == BYTES_PER_PIXEL * width,
        ;
        if data.len() as u64 != expected {
            return None;
        }
        Some(Image { width, height, data })
    }

    pub fn width(&self) -> (r: u32)
        ensures
            r == self@.width,
    {
        self.width
    }

    pub fn height(&self) -> (r: u32)
        ensures
            r == self@.height,
    {
        self.height
    }

    /// `(width, height)`.
    pub fn dimensions(&self) -> (r: (u32, u32))
        ensures
            r == (self@.width, self@.height),
    {
        (self.width, self.height)
    }

    /// The pixel bytes. Every image that exists is well formed.
    pub fn data(&self) -> (r: &Vec<u8>)
        ensures
            r@ == self@.data,
            image_well_formed(self@),
    {
        proof {
            use_type_invariant(self);
        }
        &self.data
    }
}

/// Extent of a texture or of a copy into it.
#[derive(Clone, Copy, Debug, PartialEq, Eq, Structural)]
pub struct Extent3d {
    pub width: u32,
    pub height: u32,
    pub depth_or_array_layers: u32,
}

/// Texel at which a copy starts; `z` selects the layer of a layered texture.
#[derive(Clone, Copy, Debug, PartialEq, Eq, Structural)]
pub struct Origin3d {
    pub x: u32,
    pub y: u32,
    pub z: u32,
}

#[derive(Clone, Copy, Debug, PartialEq, Eq, Structural)]
pub enum TextureDimension {
    D1,
    D2,
    D3,
}

#[derive(Clone, Copy, Debug, PartialEq, Eq, Structural)]
pub enum TextureViewDimension {
    /// One two-dimensional image.
    D2,
    /// All layers, indexed by the shader.
    D2Array,
}

/// The ways in which a texture will be used.
#[derive(Clone, Copy, Debug, PartialEq, Eq, Structural)]
pub struct TextureUsages {
    pub copy_dst: bool,
    pub texture_binding: bool,
    pub storage_binding: bool,
    pub render_attachment: bool,
}

/// The texture to allocate.
#[derive(Clone, Debug)]
pub struct TextureDescriptor {
    pub label: Option<String>,
    pub size: Extent3d,
    pub mip_level_count: u32,
    pub sample_count: u32,
    pub dimension: TextureDimension,
    pub format: TextureFormat,
    pub usage: TextureUsages,
    pub view_formats: Vec<TextureFormat>,
}

/// The view to build over the texture. `None` leaves a field to the
/// texture's own format or shape.
#[derive(Clone, Copy, Debug, PartialEq, Eq, Structural)]
pub struct TextureViewDescriptor {
    pub format: Option<TextureFormat>,
    pub dimension: Option<TextureViewDimension>,
}

/// One upload of pixel bytes into one layer of a texture.
#[derive(Clone, Debug)]
pub struct LayerUpload {
    /// Destination: mip level 0, all aspects, starting at this texel.
    pub origin: Origin3d,
    pub mip_level: u32,
    /// The bytes to copy, rows top to bottom.
    pub data: Vec<u8>,
    /// Where in `data` the first row starts.
    pub offset: u64,
    pub bytes_per_row: u32,
    pub rows_per_image: u32,
    /// What is written: one layer of the texture.
    pub extent: Extent3d,
}

/// A texture with its view and the uploads that fill it.
#[derive(Clone, Debug)]
pub struct TextureWrapper {
    pub texture: TextureDescriptor,
    pub view: TextureViewDescriptor,
    pub uploads: Vec<LayerUpload>,
}

/// The label of a descriptor, as characters.
pub open spec fn label_view(label: Option<String>) -> Option<Seq<char>> {
    match label {
        Some(s) => Some(s@),
        None => None,
    }
}

/// Whether all images have the size of the first.
pub open spec fn same_dimensions(images: Seq<ImageView>) -> bool {
    forall|i: int|
        0 <= i < images.len() ==> (#[trigger] images[i]).width == images[0].width
            && images[i].height == images[0].height
}

/// Whether `upload` copies all of `image` into layer `layer`, row by row with
/// a pitch of `4 * width` bytes.
pub open spec fn uploads_layer(upload: LayerUpload, image: ImageView, layer: int) -> bool {
    &&& upload.origin == (Origin3d { x: 0, y: 0, z: layer as u32 })
    &&& upload.mip_level == 0
    &&& upload.data@ == image.data
    &&& upload.offset == 0
    &&& upload.bytes_per_row == BYTES_PER_PIXEL * image.width
    &&& upload.rows_per_image == image.height
    &&& upload.extent == (Extent3d {
        width: image.width,
        height: image.height,
        depth_or_array_layers: 1,
    })
}

/// Whether `t` is the layered texture of `images`: one layer for each image,
/// in order, each filled from its image, under one array view.
pub open spec fn is_layered_texture(
    t: TextureWrapper,
    images: Seq<ImageView>,
    label: Option<Seq<char>>,
) -> bool {
    &&& label_view(t.texture.label) == label
    &&& t.texture.size == (Extent3d {
        width: images[0].width,
        height: images[0].height,
        depth_or_array_layers: images.len() as u32,
    })
    &&& t.texture.mip_level_count == 1
    &&& t.texture.sample_count == 1
    &&& t.texture.dimension == TextureDimension::D2
    &&& t.texture.format == TEXTURE_FORMAT
    &&& t.texture.usage == (TextureUsages {
        copy_dst: true,
        texture_binding: true,
        storage_binding: false,
        render_attachment: false,
    })
    &&& t.texture.view_formats@.len() == 0
    &&& t.view == (TextureViewDescriptor {
        format: Some(TEXTURE_FORMAT),
        dimension: Some(TextureViewDimension::D2Array),
    })
    &&& t.uploads@.len() == images.len()
    &&& forall|i: int|
        0 <= i < images.len() ==> uploads_layer(#[trigger] t.uploads@[i], images[i], i)
}

/// Whether `t` is the depth texture of a render target of the given size.
pub open spec fn is_depth_texture(
    t: TextureWrapper,
    config: RenderTargetConfig,
    label: Seq<char>,
) -> bool {
    &&& label_view(t.texture.label) == Some(label)
    &&& t.texture.size == (Extent3d {
        width: config.width,
        height: config.height,
        depth_or_array_layers: 1,
    })
    &&& t.texture.mip_level_count == 1
    &&& t.texture.sample_count == 1
    &&& t.texture.dimension == TextureDimension::D2
    &&& t.texture.format == TextureFormat::Depth32Float
    &&& t.texture.usage == (TextureUsages {
        copy_dst: false,
        texture_binding: true,
        storage_binding: false,
        render_attachment: true,
    })
    &&& t.texture.view_formats@ == seq![TextureFormat::Depth32Float]
    &&& t.view == (TextureViewDescriptor { format: None, dimension: None })
    &&& t.uploads@.len() == 0
}

/// Whether `r` is what describing the layered texture of `images` gives:
/// the texture where there is an image and all have the size of the first,
/// `EmptyInput` for no image, `DimensionMismatch` for any other size.
pub open spec fn describes_layers(
    r: Result<TextureWrapper, ConstructionError>,
    images: Seq<ImageView>,
    label: Option<Seq<char>>,
) -> bool {
    match r {
        Ok(t) => images.len() > 0 && same_dimensions(images) && is_layered_texture(
            t,
            images,
            label,
        ),
        Err(ConstructionError::EmptyInput) => images.len() == 0,
        Err(ConstructionError::DimensionMismatch) => images.len() > 0 && !same_dimensions(images),
        Err(_) => false,
    }
}

/// The views of a slice of images.
pub open spec fn image_views(images: Seq<Image>) -> Seq<ImageView> {
    images.map_values(|img: Image| img@)
}

/// Whether every file of a list was decoded.
pub open spec fn all_decoded(decoded: Seq<Option<Image>>) -> bool {
    forall|i: int| 0 <= i < decoded.len() ==> #[trigger] decoded[i] is Some
}

/// The views of the images of a list of decoded files.
pub open spec fn decoded_views(decoded: Seq<Option<Image>>) -> Seq<ImageView> {
    Seq::new(decoded.len(), |i: int| decoded[i]->0@)
}

/// A decoded image of the `image` crate, in whatever pixel format its file
/// had. Nothing is known of it here; it is handed from the decoder to the
/// conversion.
#[verifier::external_type_specification]
#[verifier::external_body]
pub struct ExDynamicImage(image::DynamicImage);

/// `image::load_from_memory`: guesses the container format from the first
/// bytes and decodes the file. Returns `None` where the crate reports an
/// error. Nothing is claimed of what comes out.
#[verifier::external_body]
fn load_from_memory(bytes: &[u8]) -> (r: Option<image::DynamicImage>) {
    image::load_from_memory(bytes).ok()
}

/// `image::DynamicImage::to_rgba8`: a copy of the image with every pixel
/// converted to four 8-bit channels, here as width, height and the raw
/// buffer. Claimed, not proved: the buffer holds exactly four bytes for
/// each pixel of that width and height.
#[verifier::external_body]
fn to_rgba8(decoded: &image::DynamicImage) -> (r: (u32, u32, Vec<u8>))
    ensures
        r.2@.len() == 4 * r.0 * r.1,
{
    let rgba = decoded.to_rgba8();
    (rgba.width(), rgba.height(), rgba.into_raw())
}

/// Decodes an image file held in memory. Returns `None` where the bytes are
/// no image in a known format, or an image too wide for a 32-bit row pitch.
pub fn decode_image(bytes: &[u8]) -> (r: Option<Image>)
    ensures
        r matches Some(image) ==> image_well_formed(image@),
{
    match load_from_memory(bytes) {
        Some(decoded) => {
            let (width, height, data) = to_rgba8(&decoded);
            Image::new(width, height, data)
        },
        None => None,
    }
}

fn owned_label(label: Option<&str>) -> (r: Option<String>)
    ensures
        label_view(r) == match label {
            Some(s) => Some(s@),
            None => None,
        },
{
    match label {
        Some(s) => Some(s.to_owned()),
        None => None,
    }
}

impl TextureWrapper {
    /// Format of every depth texture.
    pub const DEPTH_FORMAT: TextureFormat = TextureFormat::Depth32Float;

    /// Decodes each file and describes the layered texture of the images,
    /// as [`TextureWrapper::multilayer_from_decoded`] does with what the
    /// decoder gave. Returns `None` where a file does not decode.
    ///
    /// What a file decodes to is the decoder's matter. Whatever it gives,
    /// the texture has one layer for each file, in order, and an empty list
    /// gives `EmptyInput`.
    pub fn multilayer_from_bytes(bytes: &[&[u8]], label: &str) -> (r: Option<
        Result<TextureWrapper, ConstructionError>,
    >)
        requires
            bytes.len() <= u32::MAX,
        ensures
            r is None ==> bytes@.len() > 0,
            r matches Some(described) ==> exists|images: Seq<ImageView>|
                {
                    &&& images.len() == bytes@.len()
                    &&& forall|i: int|
                        0 <= i < images.len() ==> image_well_formed(#[trigger] images[i])
                    &&& #[trigger] describes_layers(described, images, Some(label@))
                },
    {
        let mut decoded: Vec<Option<Image>> = Vec::new();
        let mut i: usize = 0;
        while i < bytes.len()
            invariant
                i <= bytes.len(),
                decoded.len() == i,
                forall|k: int|
                    0 <= k < i ==> (#[trigger] decoded@[k] matches Some(image)
                        ==> image_well_formed(image@)),
            decreases bytes.len() - i,
        {
            decoded.push(decode_image(bytes[i]));
            i += 1;
        }
        let ghost views = decoded_views(decoded@);
        let r = TextureWrapper::multilayer_from_decoded(decoded, label);
        proof {
            if r is Some {
                assert forall|k: int| 0 <= k < views.len() implies image_well_formed(
                    #[trigger] views[k],
                ) by {
                    assert(decoded@[k] is Some);
                }
            }
        }
        r
    }

    /// Describes the layered texture of the images that a list of files
    /// decoded to, as [`TextureWrapper::multilayer_from_images`] does.
    /// Returns `None` exactly where a file was not decoded.
    pub fn multilayer_from_decoded(decoded: Vec<Option<Image>>, label: &str) -> (r: Option<
        Result<TextureWrapper, ConstructionError>,
    >)
        requires
            decoded.len() <= u32::MAX,
        ensures
            r is Some <==> all_decoded(decoded@),
            r matches Some(described) ==> describes_layers(
                described,
                decoded_views(decoded@),
                Some(label@),
            ),
    {
        let ghost all = decoded@;
        let mut rest = decoded;
        let mut backwards: Vec<Image> = Vec::new();
        while rest.len() > 0
            invariant
                all == decoded@,
                rest@.len() + backwards@.len() == all.len(),
                rest@ == all.take(rest@.len() as int),
                forall|k: int|
                    0 <= k < backwards@.len() ==> all[all.len() - 1 - k] == Some(
                        #[trigger] backwards@[k],
                    ),
            decreases rest.len(),
        {
            let ghost at = rest@.len() - 1;
            match rest.pop() {
                Some(Some(image)) => {
                    backwards.push(image);
                },
                _ => {
                    assert(all[at] is None);
                    return None;
                },
            }
            assert(rest@ == all.take(rest@.len() as int));
        }
        let mut images: Vec<Image> = Vec::new();
        while backwards.len() > 0
            invariant
                backwards@.len() + images@.len() == all.len(),
                forall|k: int|
                    0 <= k < backwards@.len() ==> all[all.len() - 1 - k] == Some(
                        #[trigger] backwards@[k],
                    ),
                forall|k: int| 0 <= k < images@.len() ==> all[k] == Some(#[trigger] images@[k]),
            decreases backwards.len(),
        {
            let ghost at = images@.len() as int;
            let ghost from = backwards@.len() - 1;
            match backwards.pop() {
                Some(image) => {
                    assert(all[all.len() - 1 - from] == Some(image));
                    images.push(image);
                },
                None => {},
            }
        }
        assert forall|k: int| 0 <= k < all.len() implies #[trigger] all[k] is Some by {
            assert(all[k] == Some(images@[k]));
        }
        assert(image_views(images@) =~= decoded_views(all));
        Some(TextureWrapper::multilayer_from_images(&images, Some(label)))
    }

    /// Describes one texture that holds each image in a layer of its own, so
    /// that a shader can pick the layer by index.
    ///
    /// All images must have the size of the first: a list with another size
    /// in it gives `DimensionMismatch`, an empty list `EmptyInput`. No image
    /// is dropped or cut to fit.
    pub fn multilayer_from_images(images: &Vec<Image>, label: Option<&str>) -> (r: Result<
        TextureWrapper,
        ConstructionError,
    >)
        requires
            images.len() <= u32::MAX,
        ensures
            r is Ok <==> images.len() > 0 && same_dimensions(image_views(images@)),
            describes_layers(
                r,
                image_views(images@),
                match label {
                    Some(s) => Some(s@),
                    None => None,
                },
            ),
    {
        if images.len() == 0 {
            return Err(ConstructionError::EmptyInput);
        }
        let ghost views = image_views(images@);
        let (width, height) = images[0].dimensions();
        let mut uploads: Vec<LayerUpload> = Vec::new();
        let mut layer: usize = 0;
        while layer < images.len()
            invariant
                0 < images.len() <= u32::MAX,
                layer <= images.len(),
                views == image_views(images@),
                width == views[0].width,
                height == views[0].height,
                uploads@.len() == layer,
                forall|i: int|
                    0 <= i < layer ==> (#[trigger] views[i]).width == width && views[i].height
                        == height,
                forall|i: int|
                    0 <= i < layer ==> uploads_layer(#[trigger] uploads@[i], views[i], i),
            decreases images.len() - layer,
        {
            let image = &images[layer];
            assert(views[layer as int] == image@);
            if image.width() != width || image.height() != height {
                return Err(ConstructionError::DimensionMismatch);
            }
            let data = image.data().clone();
            assert(data@ == image@.data);
            uploads.push(
                LayerUpload {
                    origin: Origin3d { x: 0, y: 0, z: layer as u32 },
                    mip_level: 0,
                    data,
                    offset: 0,
                    bytes_per_row: BYTES_PER_PIXEL * width,
                    rows_per_image: height,
                    extent: Extent3d { width, height, depth_or_array_layers: 1 },
                },
            );
            layer += 1;
        }
        let texture = TextureDescriptor {
            label: owned_label(label),
            size: Extent3d { width, height, depth_or_array_layers: images.len() as u32 },
            mip_level_count: 1,
            sample_count: 1,
            dimension: TextureDimension::D2,
            format: TEXTURE_FORMAT,
            usage: TextureUsages {
                copy_dst: true,
                texture_binding: true,
                storage_binding: false,
                render_attachment: false,
            },
            view_formats: Vec::new(),
        };
        let view = TextureViewDescriptor {
            format: Some(TEXTURE_FORMAT),
            dimension: Some(TextureViewDimension::D2Array),
        };
        Ok(TextureWrapper { texture, view, uploads })
    }

    /// Describes the depth texture of a render target: one layer of the
    /// target's size in [`TextureWrapper::DEPTH_FORMAT`], usable as a render
    /// attachment and as a sampled texture, with a default view and nothing
    /// to upload.
    pub fn create_depth_texture(config: &RenderTargetConfig, label: &str) -> (r: TextureWrapper)
        ensures
            is_depth_texture(r, *config, label@),
    {
        let mut view_formats: Vec<TextureFormat> = Vec::new();
        view_formats.push(TextureFormat::Depth32Float);
        let texture = TextureDescriptor {
            label: Some(label.to_owned()),
            size: Extent3d {
                width: config.width,
                height: config.height,
                depth_or_array_layers: 1,
            },
            mip_level_count: 1,
            sample_count: 1,
            dimension: TextureDimension::D2,
            format: TextureFormat::Depth32Float,
            usage: TextureUsages {
                copy_dst: false,
                texture_binding: true,
                storage_binding: false,
                render_attachment: true,
            },
            view_formats,
        };
        let view = TextureViewDescriptor { format: None, dimension: None };
        TextureWrapper { texture, view, uploads: Vec::new() }
    }
}

} // verus!
