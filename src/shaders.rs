//! The vertex and fragment stages of the triangle program, compiled from
//! HLSL to SPIR-V.

use vstd::prelude::*;
use hassle_rs::HassleError;

verus! {

#[verifier::external_type_specification]
#[verifier::external_body]
pub struct ExHassleError(HassleError);

/// Size in bytes of the push-constant block the vertex stage reads.
pub const PUSH_CONSTANT_SIZE: u32 = 64;

/// A stage of the triangle program.
#[derive(Clone, Copy, Debug, PartialEq, Eq, Structural)]
pub enum ShaderStage {
    Vertex,
    Fragment,
}

/// The SPIR-V code of both stages.
#[derive(Debug)]
pub struct CompiledShaders {
    pub vertex: Vec<u8>,
    pub fragment: Vec<u8>,
}

/// A stage that did not compile, with the compiler's error.
#[derive(Debug)]
pub struct ShaderError {
    pub stage: ShaderStage,
    pub cause: HassleError,
}

/// The text holds no NUL character (the compiler's wide-string conversion
/// refuses one).
pub open spec fn no_nul(s: Seq<char>) -> bool {
    forall|i: int| 0 <= i < s.len() ==> s[i] != '\0'
}

pub open spec fn entry_point_spec(stage: ShaderStage) -> Seq<char> {
    match stage {
        ShaderStage::Vertex => "vertexMain"@,
        ShaderStage::Fragment => "pixelMain"@,
    }
}

pub open spec fn profile_spec(stage: ShaderStage) -> Seq<char> {
    match stage {
        ShaderStage::Vertex => "vs_6_6"@,
        ShaderStage::Fragment => "ps_6_6"@,
    }
}

/// The function of the HLSL source that implements `stage`.
pub fn entry_point(stage: ShaderStage) -> (r: &'static str)
    ensures
        r@ == entry_point_spec(stage),
        no_nul(r@),
{
    proof {
        reveal_strlit("vertexMain");
        reveal_strlit("pixelMain");
    }
    match stage {
        ShaderStage::Vertex => "vertexMain",
        ShaderStage::Fragment => "pixelMain",
    }
}

/// The shader model profile `stage` is compiled for.
pub fn profile(stage: ShaderStage) -> (r: &'static str)
    ensures
        r@ == profile_spec(stage),
        no_nul(r@),
{
    proof {
        reveal_strlit("vs_6_6");
        reveal_strlit("ps_6_6");
    }
    match stage {
        ShaderStage::Vertex => "vs_6_6",
        ShaderStage::Fragment => "ps_6_6",
    }
}

/// The stage that follows `stage` in the linked program.
pub fn next_stage(stage: ShaderStage) -> (r: Option<ShaderStage>)
    ensures
        stage is Vertex ==> r == Some(ShaderStage::Fragment),
        stage is Fragment ==> r is None,
{
    match stage {
        ShaderStage::Vertex => Some(ShaderStage::Fragment),
        ShaderStage::Fragment => None,
    }
}

/// Whether `stage` reads the push-constant block.
pub fn uses_push_constants(stage: ShaderStage) -> (r: bool)
    ensures
        r == (stage is Vertex),
{
    match stage {
        ShaderStage::Vertex => true,
        ShaderStage::Fragment => false,
    }
}

/// The compiler arguments: emit SPIR-V rather than DXIL.
pub fn compile_args() -> (r: Vec<&'static str>)
    ensures
        r@.len() == 1,
        r@[0]@ == "-spirv"@,
        forall|i: int| 0 <= i < r@.len() ==> no_nul(#[trigger] r@[i]@),
{
    proof {
        reveal_strlit("-spirv");
    }
    vec!["-spirv"]
}

/// The preprocessor defines: none.
pub fn compile_defines() -> (r: Vec<(&'static str, Option<&'static str>)>)
    ensures
        r@.len() == 0,
{
    Vec::new()
}

/// Relies on `hassle_rs::compile_hlsl`: compiles one entry point of an HLSL
/// source with the DXC compiler, which it loads at run time and which reads
/// included files from disk. Nothing is promised of the outcome. It panics
/// on a name, entry point, profile, argument or define holding a NUL
/// character, which `requires` leaves out.
#[verifier::external_body]
fn compile_hlsl(
    source_name: &str,
    source: &str,
    entry_point: &str,
    profile: &str,
    args: &Vec<&str>,
    defines: &Vec<(&str, Option<&str>)>,
) -> (r: Result<Vec<u8>, HassleError>)
    requires
        no_nul(source_name@),
        no_nul(entry_point@),
        no_nul(profile@),
        forall|i: int| 0 <= i < args@.len() ==> no_nul(#[trigger] args@[i]@),
        forall|i: int|
            0 <= i < defines@.len() ==> no_nul((#[trigger] defines@[i]).0@) && (defines@[i].1 matches Some(
                v,
            ) ==> no_nul(v@)),
{
    hassle_rs::compile_hlsl(source_name, source, entry_point, profile, args, defines)
}

/// The program from the outcome of compiling each stage: both codes where
/// both compiled, else the error of the first stage that did not.
pub fn shaders_from(
    vertex: Result<Vec<u8>, HassleError>,
    fragment: Result<Vec<u8>, HassleError>,
) -> (r: Result<CompiledShaders, ShaderError>)
    ensures
        vertex is Ok && fragment is Ok ==> (r matches Ok(s) && s.vertex@ == vertex->Ok_0@
            && s.fragment@ == fragment->Ok_0@),
        vertex is Err ==> (r matches Err(e) && e.stage is Vertex && e.cause == vertex->Err_0),
        vertex is Ok && fragment is Err ==> (r matches Err(e) && e.stage is Fragment && e.cause
            == fragment->Err_0),
{
    match (vertex, fragment) {
        (Err(cause), _) => Err(ShaderError { stage: ShaderStage::Vertex, cause }),
        (Ok(_), Err(cause)) => Err(ShaderError { stage: ShaderStage::Fragment, cause }),
        (Ok(vertex), Ok(fragment)) => Ok(CompiledShaders { vertex, fragment }),
    }
}

/// Compiles the vertex and fragment entry points of `source` to SPIR-V,
/// each with its `entry_point` and `profile`, the `compile_args` and the
/// `compile_defines`. Whether each compiles is up to the compiler;
/// `shaders_from` states what the two outcomes give.
pub fn compile_shaders(source_name: &str, source: &str) -> (r: Result<
    CompiledShaders,
    ShaderError,
>)
    requires
        no_nul(source_name@),
{
    let args = compile_args();
    let defines = compile_defines();
    let vertex = compile_hlsl(
        source_name,
        source,
        entry_point(ShaderStage::Vertex),
        profile(ShaderStage::Vertex),
        &args,
        &defines,
    );
    let fragment = compile_hlsl(
        source_name,
        source,
        entry_point(ShaderStage::Fragment),
        profile(ShaderStage::Fragment),
        &args,
        &defines,
    );
    shaders_from(vertex, fragment)
}

} // verus!
