//! Materials and textures: what the document describes, made flat.

use crate::decode::{entries, entry};
use crate::error::{Feature, ImportError, Section};
use crate::importers::gltf::{
    double4, AlphaMode as SourceAlphaMode, Gltf, GltfModel, Material as SourceMaterial,
    MaterialModel as SourceMaterialModel, Texture as SourceTexture, TextureInfo,
    TextureModel as SourceTextureModel,
};
use crate::importers::reader::outcome;
use crate::{
    AlphaMode, Material, MaterialModel, Scalar, Texture, TextureIndex, TextureModel, TextureType, Vec4,
    DOUBLE_ONE,
};
use vstd::prelude::*;

verus! {

/// The alpha mode of a resolved material: `Mask` is called `Cutoff` there.
pub open spec fn alpha_mode_resolved(mode: SourceAlphaMode) -> AlphaMode {
    match mode {
        SourceAlphaMode::Opaque => AlphaMode::Opaque,
        SourceAlphaMode::Mask => AlphaMode::Cutoff,
        SourceAlphaMode::Blend => AlphaMode::Blend,
    }
}

/// The list with one more texture, where the material names one for this use.
/// The texture must be one of the `count` textures of the document.
pub open spec fn texture_added(
    list: Result<Seq<TextureIndex>, ImportError>,
    info: Option<TextureInfo>,
    t_type: TextureType,
    count: int,
) -> Result<Seq<TextureIndex>, ImportError> {
    match list {
        Err(e) => Err(e),
        Ok(textures) => match info {
            None => Ok(textures),
            Some(texture) => if 0 <= texture.index < count {
                Ok(textures.push(TextureIndex { index: texture.index as usize, t_type }))
            } else {
                Err(
                    ImportError::UnresolvedReference {
                        section: Section::Textures,
                        index: texture.index as i64,
                    },
                )
            },
        },
    }
}

/// The base colour texture of a material, where it has one.
pub open spec fn base_color_texture(material: SourceMaterialModel) -> Option<TextureInfo> {
    match material.pbr_metallic_roughness {
        Some(pbr) => pbr.base_color_texture,
        None => None,
    }
}

/// The texture that holds metalness and roughness together, where the material
/// has one.
pub open spec fn metallic_roughness_texture(material: SourceMaterialModel) -> Option<TextureInfo> {
    match material.pbr_metallic_roughness {
        Some(pbr) => pbr.metallic_roughness_texture,
        None => None,
    }
}

/// The textures of a material with their uses: albedo; metallic and roughness,
/// which are one texture listed twice; normal; ambient occlusion; emissive.
/// Each is there only where the material names it. The first of them that is
/// none of the document's `count` textures gives the error.
pub open spec fn material_textures(material: SourceMaterialModel, count: int) -> Result<
    Seq<TextureIndex>,
    ImportError,
> {
    let none = Ok::<Seq<TextureIndex>, ImportError>(Seq::empty());
    let albedo = texture_added(none, base_color_texture(material), TextureType::Albedo, count);
    let metallic = texture_added(albedo, metallic_roughness_texture(material), TextureType::Metallic, count);
    let roughness = texture_added(
        metallic,
        metallic_roughness_texture(material),
        TextureType::Roughness,
        count,
    );
    let normal = texture_added(roughness, material.normal_texture, TextureType::Normal, count);
    let occlusion = texture_added(normal, material.occlusion_texture, TextureType::AmbientOcclusion, count);
    texture_added(occlusion, material.emissive_texture, TextureType::Emissive, count)
}

/// The material that a material of the document resolves to, in a document of
/// `count` textures. Without a metallic-roughness description the albedo is
/// white and both factors are 1.
pub open spec fn material_resolved(material: SourceMaterialModel, count: int) -> Result<
    MaterialModel,
    ImportError,
> {
    match material_textures(material, count) {
        Err(e) => Err(e),
        Ok(textures) => Ok(
            MaterialModel {
                albedo_color: match material.pbr_metallic_roughness {
                    Some(pbr) => pbr.base_color_factor,
                    None => double4(DOUBLE_ONE, DOUBLE_ONE, DOUBLE_ONE, DOUBLE_ONE),
                },
                metallic_factor: match material.pbr_metallic_roughness {
                    Some(pbr) => pbr.metallic_factor,
                    None => Scalar::Double(DOUBLE_ONE),
                },
                roughness_factor: match material.pbr_metallic_roughness {
                    Some(pbr) => pbr.roughness_factor,
                    None => Scalar::Double(DOUBLE_ONE),
                },
                emissive_factor: material.emissive_factor,
                alpha_mode: alpha_mode_resolved(material.alpha_mode),
                alpha_cutoff: material.alpha_cutoff,
                double_sided: material.double_sided,
                textures,
            },
        ),
    }
}

/// The texture that a texture of the document resolves to; `owner` is its
/// place among the document's textures. The texture must name an image, the
/// image must be one of the document's, and it must have a location.
pub open spec fn texture_resolved(doc: GltfModel, texture: SourceTextureModel, owner: usize) -> Result<
    TextureModel,
    ImportError,
> {
    match texture.source {
        None => Err(ImportError::UnsupportedFeature { feature: Feature::MissingImage, owner }),
        Some(source) => if source < 0 || source >= entries(doc.images).len() {
            Err(ImportError::UnresolvedReference { section: Section::Images, index: source as i64 })
        } else {
            match entries(doc.images)[source as int].uri {
                None => Err(
                    ImportError::UnsupportedFeature { feature: Feature::EmbeddedImage, owner: source as usize },
                ),
                Some(uri) => Ok(TextureModel { path: Some(uri), data: None }),
            }
        },
    }
}

fn add_texture(
    textures: &mut Vec<TextureIndex>,
    info: Option<TextureInfo>,
    t_type: TextureType,
    count: usize,
) -> (r: Result<(), ImportError>)
    ensures
        match r {
            Ok(_) => texture_added(Ok(old(textures)@), info, t_type, count as int) == Ok::<
                Seq<TextureIndex>,
                ImportError,
            >(final(textures)@),
            Err(e) => texture_added(Ok(old(textures)@), info, t_type, count as int) == Err::<
                Seq<TextureIndex>,
                ImportError,
            >(e),
        },
{
    match info {
        None => Ok(()),
        Some(texture) => {
            if 0 <= texture.index && (texture.index as usize) < count {
                textures.push(TextureIndex { index: texture.index as usize, t_type });
                Ok(())
            } else {
                Err(
                    ImportError::UnresolvedReference {
                        section: Section::Textures,
                        index: texture.index as i64,
                    },
                )
            }
        },
    }
}

/// Resolves one material of a document of `count` textures.
pub fn resolve_material(material: &SourceMaterial, count: usize) -> (r: Result<Material, ImportError>)
    ensures
        outcome(r) == material_resolved(material.deep_view(), count as int),
{
    let mut textures: Vec<TextureIndex> = Vec::new();
    let (albedo_color, metallic_factor, roughness_factor) = match material.pbr_metallic_roughness {
        Some(pbr) => {
            add_texture(&mut textures, pbr.base_color_texture, TextureType::Albedo, count)?;
            add_texture(&mut textures, pbr.metallic_roughness_texture, TextureType::Metallic, count)?;
            add_texture(&mut textures, pbr.metallic_roughness_texture, TextureType::Roughness, count)?;
            (pbr.base_color_factor, pbr.metallic_factor, pbr.roughness_factor)
        },
        None => {
            let one = Scalar::Double(DOUBLE_ONE);
            (Vec4 { x: one, y: one, z: one, w: one }, one, one)
        },
    };
    add_texture(&mut textures, material.normal_texture, TextureType::Normal, count)?;
    add_texture(&mut textures, material.occlusion_texture, TextureType::AmbientOcclusion, count)?;
    add_texture(&mut textures, material.emissive_texture, TextureType::Emissive, count)?;
    let alpha_mode = match material.alpha_mode {
        SourceAlphaMode::Opaque => AlphaMode::Opaque,
        SourceAlphaMode::Mask => AlphaMode::Cutoff,
        SourceAlphaMode::Blend => AlphaMode::Blend,
    };
    Ok(
        Material {
            albedo_color,
            metallic_factor,
            roughness_factor,
            emissive_factor: material.emissive_factor,
            alpha_mode,
            alpha_cutoff: material.alpha_cutoff,
            double_sided: material.double_sided,
            textures,
        },
    )
}

/// Resolves one texture of the document; `owner` is its place among the
/// document's textures.
pub fn resolve_texture(gltf: &Gltf, texture: &SourceTexture, owner: usize) -> (r: Result<Texture, ImportError>)
    ensures
        outcome(r) == texture_resolved(gltf.deep_view(), texture.deep_view(), owner),
{
    let source = match texture.source {
        Some(source) => source,
        None => {
            return Err(ImportError::UnsupportedFeature { feature: Feature::MissingImage, owner });
        },
    };
    let image = match entry(&gltf.images, source) {
        Some(image) => image,
        None => {
            return Err(ImportError::UnresolvedReference { section: Section::Images, index: source as i64 });
        },
    };
    match &image.uri {
        Some(uri) => Ok(Texture { path: Some(uri.clone()), data: None }),
        None => Err(
            ImportError::UnsupportedFeature { feature: Feature::EmbeddedImage, owner: source as usize },
        ),
    }
}

} // verus!
