use render_core::shaders::choose_format;
use render_core::shaders::entry_point;
use render_core::shaders::finish_shader_load;
use render_core::shaders::infer_stage;
use render_core::shaders::shader_path;
use render_core::shaders::shader_request;
use render_core::shaders::ShaderFormat;
use render_core::shaders::ShaderLoadError;
use render_core::shaders::ShaderStage;
use render_core::shaders::SHADERFORMAT_DXIL;
use render_core::shaders::SHADERFORMAT_MSL;
use render_core::shaders::SHADERFORMAT_SPIRV;

#[test]
fn vert_suffix_is_vertex_stage() {
    assert_eq!(infer_stage("texture.vert"), Ok(ShaderStage::Vertex));
    assert_eq!(infer_stage(".vert"), Ok(ShaderStage::Vertex));
}

#[test]
fn frag_suffix_is_fragment_stage() {
    assert_eq!(infer_stage("texture.frag"), Ok(ShaderStage::Fragment));
    assert_eq!(infer_stage("a.b.frag"), Ok(ShaderStage::Fragment));
}

#[test]
fn other_suffixes_are_invalid() {
    assert_eq!(infer_stage("texture.comp"), Err(ShaderLoadError::InvalidExtension));
    assert_eq!(infer_stage("texture"), Err(ShaderLoadError::InvalidExtension));
    assert_eq!(infer_stage("vert"), Err(ShaderLoadError::InvalidExtension));
    assert_eq!(infer_stage("texture.vertx"), Err(ShaderLoadError::InvalidExtension));
    assert_eq!(infer_stage(""), Err(ShaderLoadError::InvalidExtension));
}

#[test]
fn spirv_is_preferred_over_all() {
    let all = SHADERFORMAT_SPIRV | SHADERFORMAT_MSL | SHADERFORMAT_DXIL;
    assert_eq!(choose_format(all), Ok(ShaderFormat::Spirv));
    assert_eq!(choose_format(SHADERFORMAT_SPIRV), Ok(ShaderFormat::Spirv));
}

#[test]
fn msl_is_preferred_over_dxil() {
    assert_eq!(choose_format(SHADERFORMAT_MSL | SHADERFORMAT_DXIL), Ok(ShaderFormat::Msl));
    assert_eq!(choose_format(SHADERFORMAT_MSL), Ok(ShaderFormat::Msl));
}

#[test]
fn dxil_is_chosen_last() {
    assert_eq!(choose_format(SHADERFORMAT_DXIL), Ok(ShaderFormat::Dxil));
}

#[test]
fn unknown_formats_are_unsupported() {
    assert_eq!(choose_format(0), Err(ShaderLoadError::UnsupportedFormat));
    // A private byte-code flag the loader does not recognize.
    assert_eq!(choose_format(0x1), Err(ShaderLoadError::UnsupportedFormat));
}

#[test]
fn paths_follow_the_convention() {
    assert_eq!(
        shader_path("/assets", "texture.vert", ShaderFormat::Spirv),
        "/assets/Shaders/Compiled/SPIRV/texture.vert.spv"
    );
    assert_eq!(
        shader_path("/assets", "texture.frag", ShaderFormat::Msl),
        "/assets/Shaders/Compiled/MSL/texture.frag.msl"
    );
    assert_eq!(
        shader_path("", "a.vert", ShaderFormat::Dxil),
        "/Shaders/Compiled/DXIL/a.vert.dxil"
    );
}

#[test]
fn entry_points_per_format() {
    assert_eq!(entry_point(ShaderFormat::Spirv), "main");
    assert_eq!(entry_point(ShaderFormat::Dxil), "main");
    assert_eq!(entry_point(ShaderFormat::Msl), "main0");
}

#[test]
fn request_collects_all_decisions() {
    let req = shader_request("texture.vert", SHADERFORMAT_SPIRV, "/assets", 0, 1, 1, 0).unwrap();
    assert_eq!(req.stage, ShaderStage::Vertex);
    assert_eq!(req.format, ShaderFormat::Spirv);
    assert_eq!(req.path, "/assets/Shaders/Compiled/SPIRV/texture.vert.spv");
    assert_eq!(req.entry_point, "main");
    assert_eq!(req.num_samplers, 0);
    assert_eq!(req.num_uniform_buffers, 1);
    assert_eq!(req.num_storage_buffers, 1);
    assert_eq!(req.num_storage_textures, 0);
}

#[test]
fn request_checks_extension_before_format() {
    assert_eq!(
        shader_request("texture.comp", 0, "/assets", 0, 0, 0, 0),
        Err(ShaderLoadError::InvalidExtension)
    );
    assert_eq!(
        shader_request("texture.frag", 0, "/assets", 1, 0, 0, 0),
        Err(ShaderLoadError::UnsupportedFormat)
    );
}

#[test]
fn load_outcome_judgement() {
    assert_eq!(finish_shader_load(true, true), Ok(()));
    assert_eq!(finish_shader_load(false, false), Err(ShaderLoadError::FileReadError));
    assert_eq!(finish_shader_load(false, true), Err(ShaderLoadError::FileReadError));
    assert_eq!(finish_shader_load(true, false), Err(ShaderLoadError::CompileError));
}
