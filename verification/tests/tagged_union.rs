use elffycore::binding::{
    BindingType, BindingTypeEnum, BindingTypeTag, BufferBindingData, BufferBindingType,
    SamplerBindingType, StorageTextureAccess, StorageTextureBindingData, TextureBindingData,
    TextureSampleType, TextureViewDimension,
};
use elffycore::tagged_union::{TaggedEnum, TaggedEnumElement};
use elffycore::texture_format::TextureFormat;

#[test]
fn element_holds_its_description() {
    let e = TaggedEnumElement::new("Buffer", "BufferBinding<'a>", 0);
    assert_eq!(e.name, "Buffer");
    assert_eq!(e.inner_ty, "BufferBinding<'a>");
    assert_eq!(e.i, 0);
}

#[test]
fn enum_source_renders_one_variant_per_shape() {
    let elements = vec![
        TaggedEnumElement::new("Buffer", "BufferBindingData", 0),
        TaggedEnumElement::new("Sampler", "SamplerBindingType", 1),
    ];
    let tagged = TaggedEnum::new(String::from("BindingTypeEnum"), elements);
    assert_eq!(tagged.name, "BindingTypeEnum");
    assert_eq!(tagged.elements.len(), 2);
    let source = tagged.to_source("pub");
    assert_eq!(
        source,
        "pub enum BindingTypeEnum<'a> {\nBuffer(&'a BufferBindingData),\nSampler(&'a SamplerBindingType),\n}\n"
    );
}

#[test]
fn enum_source_of_no_elements_is_an_empty_enum() {
    let tagged = TaggedEnum::new(String::from("NothingEnum"), Vec::new());
    assert_eq!(tagged.to_source("pub(crate)"), "pub(crate) enum NothingEnum<'a> {\n}\n");
}

#[test]
fn accessors_return_the_stored_reference_under_the_matching_tag() {
    let buffer = BufferBindingData {
        ty: BufferBindingType::Uniform,
        has_dynamic_offset: false,
        min_binding_size: 16,
    };
    let sampler = SamplerBindingType::Comparison;
    let texture = TextureBindingData {
        sample_type: TextureSampleType::Depth,
        view_dimension: TextureViewDimension::D2,
        multisampled: false,
    };
    let storage = StorageTextureBindingData {
        access: StorageTextureAccess::ReadOnly,
        format: TextureFormat::Rgba8UnormSrgb,
        view_dimension: TextureViewDimension::D3,
    };

    let b = BindingType::from_buffer(&buffer);
    assert_eq!(b.tag(), BindingTypeTag::Buffer);
    match b.to_enum() {
        BindingTypeEnum::Buffer(r) => assert!(std::ptr::eq(r, &buffer)),
        _ => panic!("wrong shape behind the Buffer tag"),
    }

    let s = BindingType::from_sampler(&sampler);
    assert_eq!(s.tag(), BindingTypeTag::Sampler);
    match s.to_enum() {
        BindingTypeEnum::Sampler(r) => assert_eq!(*r, SamplerBindingType::Comparison),
        _ => panic!("wrong shape behind the Sampler tag"),
    }

    let t = BindingType::from_texture(&texture);
    assert_eq!(t.tag(), BindingTypeTag::Texture);
    match t.to_enum() {
        BindingTypeEnum::Texture(r) => assert_eq!(r.sample_type, TextureSampleType::Depth),
        _ => panic!("wrong shape behind the Texture tag"),
    }

    let st = BindingType::from_storage_texture(&storage);
    assert_eq!(st.tag(), BindingTypeTag::StorageTexture);
    match st.to_enum() {
        BindingTypeEnum::StorageTexture(r) => {
            assert_eq!(r.access, StorageTextureAccess::ReadOnly);
        }
        _ => panic!("wrong shape behind the StorageTexture tag"),
    }
}

#[test]
fn visit_invokes_exactly_the_matching_handler() {
    let sampler = SamplerBindingType::Filtering;
    let visited = BindingType::from_sampler(&sampler).visit(
        |_b| "buffer",
        |_s| "sampler",
        |_t| "texture",
        |_st| "storage",
    );
    assert_eq!(visited, "sampler");

    let buffer = BufferBindingData {
        ty: BufferBindingType::Storate,
        has_dynamic_offset: true,
        min_binding_size: 0,
    };
    let visited = BindingType::from_buffer(&buffer).visit(
        |b| b.min_binding_size,
        |_s| 1,
        |_t| 2,
        |_st| 3,
    );
    assert_eq!(visited, 0);
}

#[test]
fn texture_format_defaults_to_srgb_rgba() {
    assert_eq!(TextureFormat::default(), TextureFormat::Rgba8UnormSrgb);
    assert_ne!(TextureFormat::R8Unorm, TextureFormat::R8Snorm);
}
