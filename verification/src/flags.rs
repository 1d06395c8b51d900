//! Shader compiler settings packed into a single word of bit flags.

use vstd::prelude::*;

verus! {

/// Treat compiler warnings as errors.
pub const WARNINGS_AS_ERRORS: u32 = 0x1;
/// Optimization level "zero" (no optimization).
pub const OPTIMIZATION_NONE: u32 = 0x2;
/// Optimize for size.
pub const OPTIMIZATION_SIZE: u32 = 0x4;
/// Optimize for performance.
pub const OPTIMIZATION_PERF: u32 = 0x8;
/// Vertex shader stage.
pub const SHADER_VERTEX: u32 = 0x10;
/// Pixel (fragment) shader stage.
pub const SHADER_PIXEL: u32 = 0x20;
/// Compute shader stage.
pub const SHADER_COMPUTE: u32 = 0x40;
/// Geometry shader stage.
pub const SHADER_GEOMETRY: u32 = 0x80;
/// GLSL source.
pub const LANGUAGE_GLSL: u32 = 0x100;
/// HLSL source.
pub const LANGUAGE_HLSL: u32 = 0x200;
/// Emit debug information.
pub const GENERATE_DEBUG_INFO: u32 = 0x400;

/// The bits that hold the optimization level.
pub const OPTIMIZATION_MASK: u32 = 0xe;
/// The bits that hold the shader stage.
pub const SHADER_MASK: u32 = 0xf0;
/// The bits that hold the source language.
pub const LANGUAGE_MASK: u32 = 0x300;

/// Optimization level of the shader compiler, in the compiler's own order.
#[derive(Debug, Clone, Copy, PartialEq, Eq, Structural)]
pub enum OptimizationLevel {
    Zero,
    Size,
    Performance,
}

/// Source language of a shader, in the compiler's own order.
#[derive(Debug, Clone, Copy, PartialEq, Eq, Structural)]
pub enum SourceLanguage {
    GLSL,
    HLSL,
}

/// Kind of shader, in the compiler's own order.
#[derive(Debug, Clone, Copy, PartialEq, Eq, Structural)]
pub enum ShaderKind {
    Vertex,
    Fragment,
    Compute,
    Geometry,
    TessControl,
    TessEvaluation,
    InferFromSource,
    DefaultVertex,
    DefaultFragment,
    DefaultCompute,
    DefaultGeometry,
    DefaultTessControl,
    DefaultTessEvaluation,
    SpirvAssembly,
    RayGeneration,
    AnyHit,
    ClosestHit,
    Miss,
    Intersection,
    Callable,
    DefaultRayGeneration,
    DefaultAnyHit,
    DefaultClosestHit,
    DefaultMiss,
    DefaultIntersection,
    DefaultCallable,
    Task,
    Mesh,
    DefaultTask,
    DefaultMesh,
}

/// Errors of the compiler settings.
#[derive(Debug, Clone, Copy, PartialEq, Eq, Structural)]
pub enum CompilerError {
    NoFileName,
    UnsupportedShaderKind,
}

impl CompilerError {
    /// The text that the error displays.
    pub fn message(&self) -> (r: &'static str)
        ensures
            r@ == (match self {
                CompilerError::NoFileName => "NoFileName"@,
                CompilerError::UnsupportedShaderKind => "UnsupportedShaderKind"@,
            }),
    {
        match self {
            CompilerError::NoFileName => "NoFileName",
            CompilerError::UnsupportedShaderKind => "UnsupportedShaderKind",
        }
    }
}

/// Whether the single-bit `flag` is set in `bits`.
pub open spec fn has_flag(bits: u32, flag: u32) -> bool {
    bits & flag != 0
}

/// `bits` with the single-bit `flag` set to `value`.
pub open spec fn with_flag(bits: u32, flag: u32, value: bool) -> u32 {
    if value {
        bits | flag
    } else {
        bits & !flag
    }
}

/// The optimization level that `bits` selects: the lowest optimization bit that is set.
pub open spec fn spec_optimization(bits: u32) -> Option<OptimizationLevel> {
    if bits & OPTIMIZATION_NONE != 0 {
        Some(OptimizationLevel::Zero)
    } else if bits & OPTIMIZATION_SIZE != 0 {
        Some(OptimizationLevel::Size)
    } else if bits & OPTIMIZATION_PERF != 0 {
        Some(OptimizationLevel::Performance)
    } else {
        None
    }
}

/// The flag that stands for an optimization level.
pub open spec fn optimization_flag(level: OptimizationLevel) -> u32 {
    match level {
        OptimizationLevel::Zero => OPTIMIZATION_NONE,
        OptimizationLevel::Size => OPTIMIZATION_SIZE,
        OptimizationLevel::Performance => OPTIMIZATION_PERF,
    }
}

/// `bits` with the optimization bits replaced by the one for `level`.
pub open spec fn with_optimization(bits: u32, level: OptimizationLevel) -> u32 {
    (bits & !OPTIMIZATION_MASK) | optimization_flag(level)
}

/// The shader kind that `bits` selects: the lowest stage bit that is set, and
/// `DefaultTask` when none is.
pub open spec fn spec_shader_kind(bits: u32) -> ShaderKind {
    if bits & SHADER_VERTEX != 0 {
        ShaderKind::Vertex
    } else if bits & SHADER_PIXEL != 0 {
        ShaderKind::Fragment
    } else if bits & SHADER_COMPUTE != 0 {
        ShaderKind::Compute
    } else if bits & SHADER_GEOMETRY != 0 {
        ShaderKind::Geometry
    } else {
        ShaderKind::DefaultTask
    }
}

/// The shader kinds that the flags can hold.
pub open spec fn is_supported_shader_kind(kind: ShaderKind) -> bool {
    kind == ShaderKind::Vertex || kind == ShaderKind::Fragment || kind == ShaderKind::Compute
        || kind == ShaderKind::Geometry
}

/// The flag that stands for a supported shader kind.
pub open spec fn shader_flag(kind: ShaderKind) -> u32 {
    match kind {
        ShaderKind::Vertex => SHADER_VERTEX,
        ShaderKind::Fragment => SHADER_PIXEL,
        ShaderKind::Compute => SHADER_COMPUTE,
        _ => SHADER_GEOMETRY,
    }
}

/// `bits` with the stage bits replaced by the one for a supported `kind`.
pub open spec fn with_shader_kind(bits: u32, kind: ShaderKind) -> u32 {
    (bits & !SHADER_MASK) | shader_flag(kind)
}

/// The source language that `bits` selects: the lowest language bit that is set.
pub open spec fn spec_language(bits: u32) -> SourceLanguage {
    if bits & LANGUAGE_GLSL != 0 {
        SourceLanguage::GLSL
    } else {
        SourceLanguage::HLSL
    }
}

/// The flag that stands for a source language.
pub open spec fn language_flag(lang: SourceLanguage) -> u32 {
    match lang {
        SourceLanguage::GLSL => LANGUAGE_GLSL,
        SourceLanguage::HLSL => LANGUAGE_HLSL,
    }
}

/// `bits` with the language bits replaced by the one for `lang`.
pub open spec fn with_language(bits: u32, lang: SourceLanguage) -> u32 {
    (bits & !LANGUAGE_MASK) | language_flag(lang)
}

/// A set of compiler settings, one bit each.
#[derive(Debug, Clone, Copy, PartialEq, Eq, Structural, PartialOrd, Ord, Hash)]
pub struct CompilerFlags {
    bits: u32,
}

impl View for CompilerFlags {
    type V = u32;

    closed spec fn view(&self) -> u32 {
        self.bits
    }
}

impl CompilerFlags {
    /// Flags made of exactly the given bits.
    pub fn from_bits_retain(bits: u32) -> (r: Self)
        ensures
            r@ == bits,
    {
        CompilerFlags { bits }
    }

    /// The bits of the flags.
    pub fn bits(&self) -> (r: u32)
        ensures
            r == self@,
    {
        self.bits
    }

    /// Whether warnings are treated as errors.
    pub fn get_warnings_as_errors(&self) -> (r: bool)
        ensures
            r == has_flag(self@, WARNINGS_AS_ERRORS),
    {
        self.bits & WARNINGS_AS_ERRORS != 0
    }

    /// Sets whether warnings are treated as errors.
    pub fn set_warnings_as_errors(&mut self, value: bool)
        ensures
            final(self)@ == with_flag(old(self)@, WARNINGS_AS_ERRORS, value),
    {
        if value {
            self.bits = self.bits | WARNINGS_AS_ERRORS;
        } else {
            self.bits = self.bits & !WARNINGS_AS_ERRORS;
        }
    }

    /// The selected optimization level, if any.
    pub fn get_optimization(&self) -> (r: Option<OptimizationLevel>)
        ensures
            r == spec_optimization(self@),
    {
        let bits = self.bits;
        let value = bits & OPTIMIZATION_MASK;
        assert(value & 0x2 == bits & 0x2 && value & 0x4 == bits & 0x4 && (value == 0 <==> (bits
            & 0x2 == 0 && bits & 0x4 == 0 && bits & 0x8 == 0))) by (bit_vector)
            requires
                value == bits & 0xe,
        ;
        if value == 0 {
            None
        } else if value & OPTIMIZATION_NONE != 0 {
            Some(OptimizationLevel::Zero)
        } else if value & OPTIMIZATION_SIZE != 0 {
            Some(OptimizationLevel::Size)
        } else {
            Some(OptimizationLevel::Performance)
        }
    }

    /// Removes any optimization level.
    pub fn clear_optimization(&mut self)
        ensures
            final(self)@ == old(self)@ & !OPTIMIZATION_MASK,
    {
        self.bits = self.bits & !OPTIMIZATION_MASK;
    }

    /// Selects an optimization level, replacing any earlier one.
    pub fn set_optimization(&mut self, value: OptimizationLevel)
        ensures
            final(self)@ == with_optimization(old(self)@, value),
    {
        self.clear_optimization();
        let flag = match value {
            OptimizationLevel::Zero => OPTIMIZATION_NONE,
            OptimizationLevel::Size => OPTIMIZATION_SIZE,
            OptimizationLevel::Performance => OPTIMIZATION_PERF,
        };
        self.bits = self.bits | flag;
    }

    /// The selected shader kind.
    pub fn get_shader_kind(&self) -> (r: ShaderKind)
        ensures
            r == spec_shader_kind(self@),
    {
        let bits = self.bits;
        let value = bits & SHADER_MASK;
        assert(value & 0x10 == bits & 0x10 && value & 0x20 == bits & 0x20 && value & 0x40 == bits
            & 0x40 && value & 0x80 == bits & 0x80) by (bit_vector)
            requires
                value == bits & 0xf0,
        ;
        if value & SHADER_VERTEX != 0 {
            ShaderKind::Vertex
        } else if value & SHADER_PIXEL != 0 {
            ShaderKind::Fragment
        } else if value & SHADER_COMPUTE != 0 {
            ShaderKind::Compute
        } else if value & SHADER_GEOMETRY != 0 {
            ShaderKind::Geometry
        } else {
            ShaderKind::DefaultTask
        }
    }

    /// Selects a shader kind, replacing any earlier one. Only the vertex, fragment, compute
    /// and geometry kinds are accepted; for any other kind the stage bits are left cleared.
    pub fn set_shader_kind(&mut self, kind: ShaderKind) -> (r: Result<(), CompilerError>)
        ensures
            r is Ok <==> is_supported_shader_kind(kind),
            r is Ok ==> final(self)@ == with_shader_kind(old(self)@, kind),
            r is Err ==> r == Err::<(), CompilerError>(CompilerError::UnsupportedShaderKind)
                && final(self)@ == old(self)@ & !SHADER_MASK,
    {
        self.bits = self.bits & !SHADER_MASK;
        let flag = match kind {
            ShaderKind::Vertex => SHADER_VERTEX,
            ShaderKind::Fragment => SHADER_PIXEL,
            ShaderKind::Compute => SHADER_COMPUTE,
            ShaderKind::Geometry => SHADER_GEOMETRY,
            _ => {
                return Err(CompilerError::UnsupportedShaderKind);
            },
        };
        self.bits = self.bits | flag;
        Ok(())
    }

    /// The selected source language. Some language bit must be set.
    pub fn get_language(&self) -> (r: SourceLanguage)
        requires
            self@ & LANGUAGE_MASK != 0,
        ensures
            r == spec_language(self@),
    {
        if self.bits & LANGUAGE_GLSL != 0 {
            SourceLanguage::GLSL
        } else {
            SourceLanguage::HLSL
        }
    }

    /// Selects a source language, replacing any earlier one.
    pub fn set_language(&mut self, lang: SourceLanguage)
        ensures
            final(self)@ == with_language(old(self)@, lang),
    {
        self.bits = self.bits & !LANGUAGE_MASK;
        let flag = match lang {
            SourceLanguage::GLSL => LANGUAGE_GLSL,
            SourceLanguage::HLSL => LANGUAGE_HLSL,
        };
        self.bits = self.bits | flag;
    }

    /// Whether debug information is generated.
    pub fn get_generate_debug_info(&self) -> (r: bool)
        ensures
            r == has_flag(self@, GENERATE_DEBUG_INFO),
    {
        self.bits & GENERATE_DEBUG_INFO != 0
    }

    /// Sets whether debug information is generated.
    pub fn set_generate_debug_info(&mut self, value: bool)
        ensures
            final(self)@ == with_flag(old(self)@, GENERATE_DEBUG_INFO, value),
    {
        if value {
            self.bits = self.bits | GENERATE_DEBUG_INFO;
        } else {
            self.bits = self.bits & !GENERATE_DEBUG_INFO;
        }
    }
}

} // verus!

verus! {

/// Setting a single-bit flag makes it read back as the value given, and leaves every other bit
/// as it was.
pub proof fn law_flag_roundtrip(bits: u32, flag: u32, value: bool)
    requires
        flag == WARNINGS_AS_ERRORS || flag == GENERATE_DEBUG_INFO,
    ensures
        has_flag(with_flag(bits, flag, value), flag) == value,
        with_flag(bits, flag, value) & !flag == bits & !flag,
{
    if value {
        assert((bits | flag) & flag != 0 && (bits | flag) & !flag == bits & !flag) by (bit_vector)
            requires
                flag == 1 || flag == 0x400,
        ;
    } else {
        assert((bits & !flag) & flag == 0 && (bits & !flag) & !flag == bits & !flag)
            by (bit_vector);
    }
}

/// Selecting an optimization level makes it the one read back, and leaves every bit outside
/// the optimization bits as it was; clearing the optimization reads back as none.
pub proof fn law_optimization_roundtrip(bits: u32, level: OptimizationLevel)
    ensures
        spec_optimization(with_optimization(bits, level)) == Some(level),
        with_optimization(bits, level) & !OPTIMIZATION_MASK == bits & !OPTIMIZATION_MASK,
        spec_optimization(bits & !OPTIMIZATION_MASK) == None::<OptimizationLevel>,
{
    let f = optimization_flag(level);
    let b = with_optimization(bits, level);
    assert(b == (bits & !0xeu32) | f);
    match level {
        OptimizationLevel::Zero => {
            assert(b & 0x2 != 0 && b & !0xeu32 == bits & !0xeu32) by (bit_vector)
                requires
                    b == (bits & !0xeu32) | 0x2,
            ;
        },
        OptimizationLevel::Size => {
            assert(b & 0x2 == 0 && b & 0x4 != 0 && b & !0xeu32 == bits & !0xeu32) by (bit_vector)
                requires
                    b == (bits & !0xeu32) | 0x4,
            ;
        },
        OptimizationLevel::Performance => {
            assert(b & 0x2 == 0 && b & 0x4 == 0 && b & 0x8 != 0 && b & !0xeu32 == bits
                & !0xeu32) by (bit_vector)
                requires
                    b == (bits & !0xeu32) | 0x8,
            ;
        },
    }
    let c = bits & !OPTIMIZATION_MASK;
    assert(c & 0x2 == 0 && c & 0x4 == 0 && c & 0x8 == 0) by (bit_vector)
        requires
            c == bits & !0xeu32,
    ;
}

/// Selecting a supported shader kind makes it the one read back, and leaves every bit outside
/// the stage bits as it was; with no stage bit set the kind reads back as `DefaultTask`.
pub proof fn law_shader_kind_roundtrip(bits: u32, kind: ShaderKind)
    requires
        is_supported_shader_kind(kind),
    ensures
        spec_shader_kind(with_shader_kind(bits, kind)) == kind,
        with_shader_kind(bits, kind) & !SHADER_MASK == bits & !SHADER_MASK,
        spec_shader_kind(bits & !SHADER_MASK) == ShaderKind::DefaultTask,
{
    let b = with_shader_kind(bits, kind);
    if kind == ShaderKind::Vertex {
        assert(b & 0x10 != 0 && b & !0xf0u32 == bits & !0xf0u32) by (bit_vector)
            requires
                b == (bits & !0xf0u32) | 0x10,
        ;
    } else if kind == ShaderKind::Fragment {
        assert(b & 0x10 == 0 && b & 0x20 != 0 && b & !0xf0u32 == bits & !0xf0u32) by (bit_vector)
            requires
                b == (bits & !0xf0u32) | 0x20,
        ;
    } else if kind == ShaderKind::Compute {
        assert(b & 0x10 == 0 && b & 0x20 == 0 && b & 0x40 != 0 && b & !0xf0u32 == bits
            & !0xf0u32) by (bit_vector)
            requires
                b == (bits & !0xf0u32) | 0x40,
        ;
    } else {
        assert(b & 0x10 == 0 && b & 0x20 == 0 && b & 0x40 == 0 && b & 0x80 != 0 && b & !0xf0u32
            == bits & !0xf0u32) by (bit_vector)
            requires
                b == (bits & !0xf0u32) | 0x80,
        ;
    }
    let c = bits & !SHADER_MASK;
    assert(c & 0x10 == 0 && c & 0x20 == 0 && c & 0x40 == 0 && c & 0x80 == 0) by (bit_vector)
        requires
            c == bits & !0xf0u32,
    ;
}

/// Selecting a source language makes it the one read back, leaves a language bit set (so the
/// language can be read), and leaves every bit outside the language bits as it was.
pub proof fn law_language_roundtrip(bits: u32, lang: SourceLanguage)
    ensures
        spec_language(with_language(bits, lang)) == lang,
        with_language(bits, lang) & LANGUAGE_MASK != 0,
        with_language(bits, lang) & !LANGUAGE_MASK == bits & !LANGUAGE_MASK,
{
    let b = with_language(bits, lang);
    match lang {
        SourceLanguage::GLSL => {
            assert(b & 0x100 != 0 && b & 0x300 != 0 && b & !0x300u32 == bits & !0x300u32)
                by (bit_vector)
                requires
                    b == (bits & !0x300u32) | 0x100,
            ;
        },
        SourceLanguage::HLSL => {
            assert(b & 0x100 == 0 && b & 0x300 != 0 && b & !0x300u32 == bits & !0x300u32)
                by (bit_vector)
                requires
                    b == (bits & !0x300u32) | 0x200,
            ;
        },
    }
}

} // verus!
