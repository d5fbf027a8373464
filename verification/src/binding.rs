//! The binding-type union: what a bind-group layout entry binds, as a tagged
//! reference over exactly one of four shapes.
//!
//! The boundary once carried this as a raw `{tag, payload}` pair whose
//! payload had to be read through the accessor matching the tag. Here it is
//! a native sum type, so a mismatched-tag access is unreachable by
//! construction; the tag and the branching accessor keep their shape.

use crate::texture_format::TextureFormat;
use vstd::prelude::*;

verus! {

/// What kind of buffer a buffer binding is.
#[derive(Clone, Copy, Debug, PartialEq, Eq, Structural)]
pub enum BufferBindingType {
    Uniform,
    Storate,
    StorateReadOnly,
}

/// A buffer binding: its kind, whether its offset is dynamic, and the least
/// size a bound buffer may have (0 for no bound).
#[derive(Clone, Copy, Debug, PartialEq, Eq, Structural)]
pub struct BufferBindingData {
    pub ty: BufferBindingType,
    pub has_dynamic_offset: bool,
    pub min_binding_size: u64,
}

/// What kind of sampler a sampler binding is.
#[derive(Clone, Copy, Debug, PartialEq, Eq, Structural)]
pub enum SamplerBindingType {
    Filtering,
    NonFiltering,
    Comparison,
}

/// How a bound texture is sampled in the shader.
#[derive(Clone, Copy, Debug, PartialEq, Eq, Structural)]
pub enum TextureSampleType {
    FloatFilterable,
    FloatNotFilterable,
    Depth,
    Sint,
    Uint,
}

impl Default for TextureSampleType {
    fn default() -> (t: Self)
        ensures
            t == TextureSampleType::FloatFilterable,
    {
        Self::FloatFilterable
    }
}

/// The dimensionality a texture is viewed with.
#[derive(Clone, Copy, Debug, PartialEq, Eq, Structural)]
pub enum TextureViewDimension {
    D1,
    D2,
    D2Array,
    Cube,
    CubeArray,
    D3,
}

/// A texture binding: how it is sampled, its view dimension, and whether it
/// is multisampled.
#[derive(Clone, Copy, Debug, PartialEq, Eq, Structural)]
pub struct TextureBindingData {
    pub sample_type: TextureSampleType,
    pub view_dimension: TextureViewDimension,
    pub multisampled: bool,
}

/// How a storage texture may be accessed.
#[derive(Clone, Copy, Debug, PartialEq, Eq, Structural)]
pub enum StorageTextureAccess {
    WriteOnly,
    ReadOnly,
    ReadWrite,
}

/// A storage-texture binding: its access, format, and view dimension.
#[derive(Clone, Copy, Debug, PartialEq, Eq, Structural)]
pub struct StorageTextureBindingData {
    pub access: StorageTextureAccess,
    pub format: TextureFormat,
    pub view_dimension: TextureViewDimension,
}

/// The tag naming which shape a binding type holds.
#[derive(Clone, Copy, Debug, PartialEq, Eq, Structural)]
pub enum BindingTypeTag {
    Buffer,
    Sampler,
    Texture,
    StorageTexture,
}

/// The union's shapes, each variant carrying the reference its tag promises.
#[derive(Clone, Copy, Debug)]
pub enum BindingTypeEnum<'a> {
    Buffer(&'a BufferBindingData),
    Sampler(&'a SamplerBindingType),
    Texture(&'a TextureBindingData),
    StorageTexture(&'a StorageTextureBindingData),
}

/// A binding type: exactly one of the four shapes, read through `to_enum`
/// or `visit`.
#[derive(Clone, Copy, Debug)]
pub struct BindingType<'a> {
    inner: BindingTypeEnum<'a>,
}

impl<'a> BindingType<'a> {
    /// The shape and reference this value holds.
    pub closed spec fn spec_enum(&self) -> BindingTypeEnum<'a> {
        self.inner
    }

    /// The tag of the held shape.
    pub open spec fn spec_tag(&self) -> BindingTypeTag {
        match self.spec_enum() {
            BindingTypeEnum::Buffer(_) => BindingTypeTag::Buffer,
            BindingTypeEnum::Sampler(_) => BindingTypeTag::Sampler,
            BindingTypeEnum::Texture(_) => BindingTypeTag::Texture,
            BindingTypeEnum::StorageTexture(_) => BindingTypeTag::StorageTexture,
        }
    }

    /// A binding type over a buffer binding.
    pub fn from_buffer(data: &'a BufferBindingData) -> (b: Self)
        ensures
            b.spec_enum() == BindingTypeEnum::Buffer(data),
    {
        Self { inner: BindingTypeEnum::Buffer(data) }
    }

    /// A binding type over a sampler binding.
    pub fn from_sampler(data: &'a SamplerBindingType) -> (b: Self)
        ensures
            b.spec_enum() == BindingTypeEnum::Sampler(data),
    {
        Self { inner: BindingTypeEnum::Sampler(data) }
    }

    /// A binding type over a texture binding.
    pub fn from_texture(data: &'a TextureBindingData) -> (b: Self)
        ensures
            b.spec_enum() == BindingTypeEnum::Texture(data),
    {
        Self { inner: BindingTypeEnum::Texture(data) }
    }

    /// A binding type over a storage-texture binding.
    pub fn from_storage_texture(data: &'a StorageTextureBindingData) -> (b: Self)
        ensures
            b.spec_enum() == BindingTypeEnum::StorageTexture(data),
    {
        Self { inner: BindingTypeEnum::StorageTexture(data) }
    }

    /// The tag of the held shape.
    pub fn tag(&self) -> (t: BindingTypeTag)
        ensures
            t == self.spec_tag(),
    {
        match &self.inner {
            BindingTypeEnum::Buffer(_) => BindingTypeTag::Buffer,
            BindingTypeEnum::Sampler(_) => BindingTypeTag::Sampler,
            BindingTypeEnum::Texture(_) => BindingTypeTag::Texture,
            BindingTypeEnum::StorageTexture(_) => BindingTypeTag::StorageTexture,
        }
    }

    /// Branch on the tag and get the one typed reference the value holds.
    pub fn to_enum(&self) -> (e: BindingTypeEnum<'a>)
        ensures
            e == self.spec_enum(),
    {
        self.inner
    }

    /// Visit the value: exactly the handler matching the held shape is
    /// invoked, on the reference the value holds.
    pub fn visit<R, FB: FnOnce(&'a BufferBindingData) -> R, FS: FnOnce(
        &'a SamplerBindingType,
    ) -> R, FT: FnOnce(&'a TextureBindingData) -> R, FST: FnOnce(
        &'a StorageTextureBindingData,
    ) -> R>(&self, on_buffer: FB, on_sampler: FS, on_texture: FT, on_storage_texture: FST) -> (r:
        R)
        requires
            self.spec_enum() matches BindingTypeEnum::Buffer(d) ==> call_requires(
                on_buffer,
                (d,),
            ),
            self.spec_enum() matches BindingTypeEnum::Sampler(d) ==> call_requires(
                on_sampler,
                (d,),
            ),
            self.spec_enum() matches BindingTypeEnum::Texture(d) ==> call_requires(
                on_texture,
                (d,),
            ),
            self.spec_enum() matches BindingTypeEnum::StorageTexture(d) ==> call_requires(
                on_storage_texture,
                (d,),
            ),
        ensures
            self.spec_enum() matches BindingTypeEnum::Buffer(d) ==> call_ensures(
                on_buffer,
                (d,),
                r,
            ),
            self.spec_enum() matches BindingTypeEnum::Sampler(d) ==> call_ensures(
                on_sampler,
                (d,),
                r,
            ),
            self.spec_enum() matches BindingTypeEnum::Texture(d) ==> call_ensures(
                on_texture,
                (d,),
                r,
            ),
            self.spec_enum() matches BindingTypeEnum::StorageTexture(d) ==> call_ensures(
                on_storage_texture,
                (d,),
                r,
            ),
    {
        match &self.inner {
            BindingTypeEnum::Buffer(d) => on_buffer(d),
            BindingTypeEnum::Sampler(d) => on_sampler(d),
            BindingTypeEnum::Texture(d) => on_texture(d),
            BindingTypeEnum::StorageTexture(d) => on_storage_texture(d),
        }
    }
}

/// Law: an accessor used with the matching tag yields the reference the
/// producer stored; no value carries a payload its tag does not name.
pub proof fn lemma_matching_tag_access(b: BindingType)
    ensures
        b.spec_tag() == BindingTypeTag::Buffer <==> b.spec_enum() is Buffer,
        b.spec_tag() == BindingTypeTag::Sampler <==> b.spec_enum() is Sampler,
        b.spec_tag() == BindingTypeTag::Texture <==> b.spec_enum() is Texture,
        b.spec_tag() == BindingTypeTag::StorageTexture <==> b.spec_enum() is StorageTexture,
{
}

} // verus!
