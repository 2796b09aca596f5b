//! Shader loading decisions: inferring the pipeline stage from a shader's
//! file name, choosing one byte-code format out of those a device offers,
//! and building the conventional path of the compiled shader file.

use vstd::prelude::*;
use vstd::string::StrSliceExecFns;
use vstd::string::StringExecFns;

verus! {

/// Byte-code formats a device may advertise, as bit flags.
/// The values mirror the GPU layer's `SDL_GPUShaderFormat` flags.
pub const SHADERFORMAT_SPIRV: u32 = 0x2;

/// Flag bit for DXIL byte code.
pub const SHADERFORMAT_DXIL: u32 = 0x8;

/// Flag bit for MSL byte code.
pub const SHADERFORMAT_MSL: u32 = 0x10;

/// The stage of the graphics pipeline a shader belongs to.
#[derive(Clone, Copy, PartialEq, Eq, Structural, Debug)]
pub enum ShaderStage {
    Vertex,
    Fragment,
}

/// The byte-code format a shader is compiled to.
#[derive(Clone, Copy, PartialEq, Eq, Structural, Debug)]
pub enum ShaderFormat {
    Spirv,
    Msl,
    Dxil,
}

/// Why loading a shader failed.
#[derive(Clone, Copy, PartialEq, Eq, Structural, Debug)]
pub enum ShaderLoadError {
    /// The file name ends in neither of the recognized stage suffixes.
    InvalidExtension,
    /// The device advertises none of the recognized byte-code formats.
    UnsupportedFormat,
    /// The compiled shader file could not be read.
    FileReadError,
    /// The device rejected the byte code.
    CompileError,
}

/// Picks the byte-code format to use from the flags a device advertises,
/// in the fixed preference order SPIR-V, then MSL, then DXIL.
pub fn choose_format(device_formats: u32) -> (r: Result<ShaderFormat, ShaderLoadError>)
    ensures
        match r {
            Ok(ShaderFormat::Spirv) => device_formats & SHADERFORMAT_SPIRV != 0,
            Ok(ShaderFormat::Msl) => device_formats & SHADERFORMAT_SPIRV == 0
                && device_formats & SHADERFORMAT_MSL != 0,
            Ok(ShaderFormat::Dxil) => device_formats & SHADERFORMAT_SPIRV == 0
                && device_formats & SHADERFORMAT_MSL == 0
                && device_formats & SHADERFORMAT_DXIL != 0,
            Err(e) => e == ShaderLoadError::UnsupportedFormat
                && device_formats & SHADERFORMAT_SPIRV == 0
                && device_formats & SHADERFORMAT_MSL == 0
                && device_formats & SHADERFORMAT_DXIL == 0,
        },
{
    if device_formats & SHADERFORMAT_SPIRV != 0 {
        Ok(ShaderFormat::Spirv)
    } else if device_formats & SHADERFORMAT_MSL != 0 {
        Ok(ShaderFormat::Msl)
    } else if device_formats & SHADERFORMAT_DXIL != 0 {
        Ok(ShaderFormat::Dxil)
    } else {
        Err(ShaderLoadError::UnsupportedFormat)
    }
}

/// `s` ends with `tail`.
pub open spec fn has_suffix(s: Seq<char>, tail: Seq<char>) -> bool {
    s.len() >= tail.len() && s.subrange(s.len() - tail.len(), s.len() as int) == tail
}

/// Character-by-character suffix test against `pattern`.
fn ends_with_pattern(name: &str, pattern: &str) -> (r: bool)
    ensures
        r == has_suffix(name@, pattern@),
{
    let name_len = name.unicode_len();
    let pat_len = pattern.unicode_len();
    if name_len < pat_len {
        return false;
    }
    let start = name_len - pat_len;
    let mut i: usize = 0;
    while i < pat_len
        invariant
            name_len == name@.len(),
            pat_len == pattern@.len(),
            pat_len <= name_len,
            start == name_len - pat_len,
            i <= pat_len,
            forall|j: int| 0 <= j < i ==> name@[start + j] == pattern@[j],
        decreases pat_len - i,
    {
        let nc = name.get_char(start + i);
        let pc = pattern.get_char(i);
        if nc != pc {
            proof {
                if has_suffix(name@, pattern@) {
                    assert(name@.subrange(
                        name@.len() - pattern@.len(),
                        name@.len() as int,
                    )[i as int] == name@[start + i]);
                }
            }
            return false;
        }
        i += 1;
    }
    proof {
        assert(name@.subrange(name@.len() - pattern@.len(), name@.len() as int) =~= pattern@);
    }
    true
}

/// Infers the pipeline stage from the shader file name: a `.vert` suffix
/// names a vertex shader and a `.frag` suffix a fragment shader; any other
/// name is rejected.
pub fn infer_stage(file_name: &str) -> (r: Result<ShaderStage, ShaderLoadError>)
    ensures
        match r {
            Ok(ShaderStage::Vertex) => has_suffix(file_name@, ".vert"@),
            Ok(ShaderStage::Fragment) => !has_suffix(file_name@, ".vert"@) && has_suffix(
                file_name@,
                ".frag"@,
            ),
            Err(e) => e == ShaderLoadError::InvalidExtension && !has_suffix(file_name@, ".vert"@)
                && !has_suffix(file_name@, ".frag"@),
        },
{
    if ends_with_pattern(file_name, ".vert") {
        Ok(ShaderStage::Vertex)
    } else if ends_with_pattern(file_name, ".frag") {
        Ok(ShaderStage::Fragment)
    } else {
        Err(ShaderLoadError::InvalidExtension)
    }
}

/// Directory name of a format under the compiled-shaders tree.
pub open spec fn spec_format_dir(format: ShaderFormat) -> Seq<char> {
    match format {
        ShaderFormat::Spirv => "SPIRV"@,
        ShaderFormat::Msl => "MSL"@,
        ShaderFormat::Dxil => "DXIL"@,
    }
}

/// File extension of a format's compiled byte code.
pub open spec fn spec_format_ext(format: ShaderFormat) -> Seq<char> {
    match format {
        ShaderFormat::Spirv => ".spv"@,
        ShaderFormat::Msl => ".msl"@,
        ShaderFormat::Dxil => ".dxil"@,
    }
}

/// The conventional location of a compiled shader:
/// `<base>/Shaders/Compiled/<format-dir>/<name><ext>`.
pub open spec fn spec_shader_path(base: Seq<char>, name: Seq<char>, format: ShaderFormat) -> Seq<
    char,
> {
    base + "/Shaders/Compiled/"@ + spec_format_dir(format) + "/"@ + name + spec_format_ext(format)
}

/// Builds the path of the compiled shader file by convention.
pub fn shader_path(base: &str, file_name: &str, format: ShaderFormat) -> (r: String)
    ensures
        r@ == spec_shader_path(base@, file_name@, format),
{
    let mut p = base.to_owned();
    p.append("/Shaders/Compiled/");
    match format {
        ShaderFormat::Spirv => p.append("SPIRV"),
        ShaderFormat::Msl => p.append("MSL"),
        ShaderFormat::Dxil => p.append("DXIL"),
    }
    p.append("/");
    p.append(file_name);
    match format {
        ShaderFormat::Spirv => p.append(".spv"),
        ShaderFormat::Msl => p.append(".msl"),
        ShaderFormat::Dxil => p.append(".dxil"),
    }
    proof {
        assert(p@ =~= spec_shader_path(base@, file_name@, format));
    }
    p
}

/// The entry-point symbol the device expects in the byte code: MSL shaders
/// are compiled with a `main0` entry, the others with `main`.
pub fn entry_point(format: ShaderFormat) -> (r: &'static str)
    ensures
        format == ShaderFormat::Msl ==> r@ == "main0"@,
        format != ShaderFormat::Msl ==> r@ == "main"@,
{
    match format {
        ShaderFormat::Msl => "main0",
        _ => "main",
    }
}

/// Everything the GPU layer needs to read and compile one shader: the
/// inferred stage, the chosen format, the conventional file path, the
/// entry-point symbol and the resource counts the shader declares.
#[derive(PartialEq, Eq, Debug)]
pub struct ShaderRequest {
    pub stage: ShaderStage,
    pub format: ShaderFormat,
    pub path: String,
    pub entry_point: String,
    pub num_samplers: u32,
    pub num_uniform_buffers: u32,
    pub num_storage_buffers: u32,
    pub num_storage_textures: u32,
}

/// The entry-point symbol of a format, at the specification level.
pub open spec fn spec_entry_point(format: ShaderFormat) -> Seq<char> {
    if format == ShaderFormat::Msl {
        "main0"@
    } else {
        "main"@
    }
}

/// Turns a shader name plus stage metadata into a compile request, or the
/// error naming what disqualified it. The stage comes from the file name's
/// suffix; the format is the device's best supported one; the path and
/// entry point follow from the format.
pub fn shader_request(
    file_name: &str,
    device_formats: u32,
    base_path: &str,
    sampler_count: u32,
    uniform_buffer_count: u32,
    storage_buffer_count: u32,
    storage_texture_count: u32,
) -> (r: Result<ShaderRequest, ShaderLoadError>)
    ensures
        match r {
            Ok(req) => {
                &&& has_suffix(file_name@, ".vert"@) || has_suffix(file_name@, ".frag"@)
                &&& req.stage == ShaderStage::Vertex <==> has_suffix(file_name@, ".vert"@)
                &&& match req.format {
                    ShaderFormat::Spirv => device_formats & SHADERFORMAT_SPIRV != 0,
                    ShaderFormat::Msl => device_formats & SHADERFORMAT_SPIRV == 0
                        && device_formats & SHADERFORMAT_MSL != 0,
                    ShaderFormat::Dxil => device_formats & SHADERFORMAT_SPIRV == 0
                        && device_formats & SHADERFORMAT_MSL == 0 && device_formats
                        & SHADERFORMAT_DXIL != 0,
                }
                &&& req.path@ == spec_shader_path(base_path@, file_name@, req.format)
                &&& req.entry_point@ == spec_entry_point(req.format)
                &&& req.num_samplers == sampler_count
                &&& req.num_uniform_buffers == uniform_buffer_count
                &&& req.num_storage_buffers == storage_buffer_count
                &&& req.num_storage_textures == storage_texture_count
            },
            Err(ShaderLoadError::InvalidExtension) => !has_suffix(file_name@, ".vert"@)
                && !has_suffix(file_name@, ".frag"@),
            Err(ShaderLoadError::UnsupportedFormat) => {
                &&& has_suffix(file_name@, ".vert"@) || has_suffix(file_name@, ".frag"@)
                &&& device_formats & SHADERFORMAT_SPIRV == 0
                &&& device_formats & SHADERFORMAT_MSL == 0
                &&& device_formats & SHADERFORMAT_DXIL == 0
            },
            Err(_) => false,
        },
{
    let stage = match infer_stage(file_name) {
        Ok(stage) => stage,
        Err(e) => {
            return Err(e);
        },
    };
    let format = match choose_format(device_formats) {
        Ok(format) => format,
        Err(e) => {
            return Err(e);
        },
    };
    let path = shader_path(base_path, file_name, format);
    let entry = entry_point(format);
    Ok(
        ShaderRequest {
            stage,
            format,
            path,
            entry_point: entry.to_owned(),
            num_samplers: sampler_count,
            num_uniform_buffers: uniform_buffer_count,
            num_storage_buffers: storage_buffer_count,
            num_storage_textures: storage_texture_count,
        },
    )
}

/// Judges the outcome of the two steps only the GPU layer can take for a
/// request: reading the byte-code file and compiling it on the device.
/// Loading succeeds exactly when both steps did.
pub fn finish_shader_load(code_loaded: bool, shader_created: bool) -> (r: Result<
    (),
    ShaderLoadError,
>)
    ensures
        r is Ok <==> code_loaded && shader_created,
        r == Err::<(), ShaderLoadError>(ShaderLoadError::FileReadError) <==> !code_loaded,
        r == Err::<(), ShaderLoadError>(ShaderLoadError::CompileError) <==> code_loaded
            && !shader_created,
{
    if !code_loaded {
        Err(ShaderLoadError::FileReadError)
    } else if !shader_created {
        Err(ShaderLoadError::CompileError)
    } else {
        Ok(())
    }
}

} // verus!
