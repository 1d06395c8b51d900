//! Settings of a shader compilation, built up step by step.

use vstd::prelude::*;
use crate::flags::{
    has_flag, is_supported_shader_kind, law_flag_roundtrip, law_language_roundtrip,
    law_optimization_roundtrip, law_shader_kind_roundtrip, optimization_flag, shader_flag, spec_language,
    spec_optimization, spec_shader_kind, with_flag, with_language, with_optimization,
    with_shader_kind, CompilerError, CompilerFlags, GENERATE_DEBUG_INFO, WARNINGS_AS_ERRORS, OptimizationLevel, ShaderKind, SourceLanguage, LANGUAGE_GLSL,
    LANGUAGE_HLSL, LANGUAGE_MASK, OPTIMIZATION_MASK, OPTIMIZATION_NONE, OPTIMIZATION_PERF,
    OPTIMIZATION_SIZE, SHADER_COMPUTE, SHADER_GEOMETRY, SHADER_MASK, SHADER_PIXEL, SHADER_VERTEX,
};

verus! {

/// Flags that a compiler may hold: exactly one stage among vertex, pixel, compute and
/// geometry, exactly one source language, at most one optimization level, and no unknown bit.
pub open spec fn valid_compiler_bits(bits: u32) -> bool {
    &&& bits & !0x7ffu32 == 0
    &&& (bits & SHADER_MASK == SHADER_VERTEX || bits & SHADER_MASK == SHADER_PIXEL || bits
        & SHADER_MASK == SHADER_COMPUTE || bits & SHADER_MASK == SHADER_GEOMETRY)
    &&& (bits & LANGUAGE_MASK == LANGUAGE_GLSL || bits & LANGUAGE_MASK == LANGUAGE_HLSL)
    &&& (bits & OPTIMIZATION_MASK == 0 || bits & OPTIMIZATION_MASK == OPTIMIZATION_NONE || bits
        & OPTIMIZATION_MASK == OPTIMIZATION_SIZE || bits & OPTIMIZATION_MASK == OPTIMIZATION_PERF)
}

/// The flags a new compiler starts with: GLSL source for the vertex stage.
pub open spec fn initial_compiler_bits() -> u32 {
    LANGUAGE_GLSL | SHADER_VERTEX
}


/// Replacing the language keeps valid flags valid.
proof fn lemma_valid_with_language(bits: u32, lang: SourceLanguage)
    requires
        valid_compiler_bits(bits),
    ensures
        valid_compiler_bits(with_language(bits, lang)),
{
    match lang {
        SourceLanguage::GLSL => {
            assert(valid_compiler_bits((bits & !0x300u32) | 0x100u32)) by (bit_vector)
                requires
                    valid_compiler_bits(bits),
            ;
        },
        SourceLanguage::HLSL => {
            assert(valid_compiler_bits((bits & !0x300u32) | 0x200u32)) by (bit_vector)
                requires
                    valid_compiler_bits(bits),
            ;
        },
    }
}

/// Replacing the stage by a supported one keeps valid flags valid.
proof fn lemma_valid_with_shader_kind(bits: u32, kind: ShaderKind)
    requires
        valid_compiler_bits(bits),
        is_supported_shader_kind(kind),
    ensures
        valid_compiler_bits(with_shader_kind(bits, kind)),
{
    let f = shader_flag(kind);
    assert(valid_compiler_bits((bits & !0xf0u32) | f)) by (bit_vector)
        requires
            valid_compiler_bits(bits),
            f == 0x10 || f == 0x20 || f == 0x40 || f == 0x80,
    ;
}

/// Replacing the optimization level keeps valid flags valid.
proof fn lemma_valid_with_optimization(bits: u32, level: OptimizationLevel)
    requires
        valid_compiler_bits(bits),
    ensures
        valid_compiler_bits(with_optimization(bits, level)),
{
    let f = optimization_flag(level);
    assert(valid_compiler_bits((bits & !0xeu32) | f)) by (bit_vector)
        requires
            valid_compiler_bits(bits),
            f == 0x2 || f == 0x4 || f == 0x8,
    ;
}

/// Setting or clearing the warning or debug-info flag keeps valid flags valid.
proof fn lemma_valid_with_flag(bits: u32, flag: u32, value: bool)
    requires
        valid_compiler_bits(bits),
        flag == WARNINGS_AS_ERRORS || flag == GENERATE_DEBUG_INFO,
    ensures
        valid_compiler_bits(with_flag(bits, flag, value)),
{
    assert(valid_compiler_bits(bits | flag) && valid_compiler_bits(bits & !flag)) by (bit_vector)
        requires
            valid_compiler_bits(bits),
            flag == 0x1 || flag == 0x400,
    ;
}

/// One call that builds up a compiler's settings, with its argument.
pub enum CompilerCall {
    SetFilename(Seq<char>),
    SetEntryPoint(Seq<char>),
    SetShaderKind(ShaderKind),
    SetSourceLanguage(SourceLanguage),
    AddMacroDefinition(Seq<char>, Seq<char>),
    SetOptimization(OptimizationLevel),
    SetWarningsAsErrors(bool),
    SetGenerateDebugInfo(bool),
}

/// Everything a compiler holds, as mathematical values.
pub struct CompilerSettings {
    pub flags: u32,
    pub source: Seq<char>,
    pub filename: Option<Seq<char>>,
    pub entry_point: Seq<char>,
    pub definitions: Seq<(Seq<char>, Seq<char>)>,
}

/// The settings of a new compiler for `source` named `filename`.
pub open spec fn initial_settings(source: Seq<char>, filename: Option<Seq<char>>) -> CompilerSettings {
    CompilerSettings {
        flags: initial_compiler_bits(),
        source,
        filename,
        entry_point: "main"@,
        definitions: Seq::empty(),
    }
}

/// The flags after one call.
pub open spec fn call_flags(bits: u32, call: CompilerCall) -> u32 {
    match call {
        CompilerCall::SetShaderKind(kind) => with_shader_kind(bits, kind),
        CompilerCall::SetSourceLanguage(lang) => with_language(bits, lang),
        CompilerCall::SetOptimization(level) => with_optimization(bits, level),
        CompilerCall::SetWarningsAsErrors(v) => with_flag(bits, WARNINGS_AS_ERRORS, v),
        CompilerCall::SetGenerateDebugInfo(v) => with_flag(bits, GENERATE_DEBUG_INFO, v),
        _ => bits,
    }
}

/// The settings after one call.
pub open spec fn after_call(s: CompilerSettings, call: CompilerCall) -> CompilerSettings {
    CompilerSettings {
        flags: call_flags(s.flags, call),
        source: s.source,
        filename: match call {
            CompilerCall::SetFilename(name) => Some(name),
            _ => s.filename,
        },
        entry_point: match call {
            CompilerCall::SetEntryPoint(name) => name,
            _ => s.entry_point,
        },
        definitions: match call {
            CompilerCall::AddMacroDefinition(name, value) => s.definitions.push((name, value)),
            _ => s.definitions,
        },
    }
}

/// The settings after a sequence of calls, made in order.
pub open spec fn after_calls(s: CompilerSettings, calls: Seq<CompilerCall>) -> CompilerSettings
    decreases calls.len(),
{
    if calls.len() == 0 {
        s
    } else {
        after_call(after_calls(s, calls.drop_last()), calls.last())
    }
}

/// The stage of the last `set_shader_kind` call, and the vertex stage when there was none.
pub open spec fn last_shader_kind(calls: Seq<CompilerCall>) -> ShaderKind
    decreases calls.len(),
{
    if calls.len() == 0 {
        ShaderKind::Vertex
    } else if let CompilerCall::SetShaderKind(kind) = calls.last() {
        kind
    } else {
        last_shader_kind(calls.drop_last())
    }
}

/// The language of the last `set_source_language` call, and GLSL when there was none.
pub open spec fn last_language(calls: Seq<CompilerCall>) -> SourceLanguage
    decreases calls.len(),
{
    if calls.len() == 0 {
        SourceLanguage::GLSL
    } else if let CompilerCall::SetSourceLanguage(lang) = calls.last() {
        lang
    } else {
        last_language(calls.drop_last())
    }
}

/// The level of the last `set_optimization` call, and none when there was none.
pub open spec fn last_optimization(calls: Seq<CompilerCall>) -> Option<OptimizationLevel>
    decreases calls.len(),
{
    if calls.len() == 0 {
        None
    } else if let CompilerCall::SetOptimization(level) = calls.last() {
        Some(level)
    } else {
        last_optimization(calls.drop_last())
    }
}

/// The value of the last `set_warnings_as_errors` call, and false when there was none.
pub open spec fn last_warnings_as_errors(calls: Seq<CompilerCall>) -> bool
    decreases calls.len(),
{
    if calls.len() == 0 {
        false
    } else if let CompilerCall::SetWarningsAsErrors(v) = calls.last() {
        v
    } else {
        last_warnings_as_errors(calls.drop_last())
    }
}

/// The value of the last `set_generate_debug_info` call, and false when there was none.
pub open spec fn last_generate_debug_info(calls: Seq<CompilerCall>) -> bool
    decreases calls.len(),
{
    if calls.len() == 0 {
        false
    } else if let CompilerCall::SetGenerateDebugInfo(v) = calls.last() {
        v
    } else {
        last_generate_debug_info(calls.drop_last())
    }
}

/// The name of the last `set_filename` call, and `initial` when there was none.
pub open spec fn last_filename(initial: Option<Seq<char>>, calls: Seq<CompilerCall>) -> Option<Seq<char>>
    decreases calls.len(),
{
    if calls.len() == 0 {
        initial
    } else if let CompilerCall::SetFilename(name) = calls.last() {
        Some(name)
    } else {
        last_filename(initial, calls.drop_last())
    }
}

/// The name of the last `set_entry_point` call, and `main` when there was none.
pub open spec fn last_entry_point(calls: Seq<CompilerCall>) -> Seq<char>
    decreases calls.len(),
{
    if calls.len() == 0 {
        "main"@
    } else if let CompilerCall::SetEntryPoint(name) = calls.last() {
        name
    } else {
        last_entry_point(calls.drop_last())
    }
}

/// The pairs of all `add_macro_definition` calls, in the order of the calls.
pub open spec fn macro_definitions(calls: Seq<CompilerCall>) -> Seq<(Seq<char>, Seq<char>)>
    decreases calls.len(),
{
    if calls.len() == 0 {
        Seq::empty()
    } else if let CompilerCall::AddMacroDefinition(name, value) = calls.last() {
        macro_definitions(calls.drop_last()).push((name, value))
    } else {
        macro_definitions(calls.drop_last())
    }
}

/// Bits that agree on a field's mask read back the same value of that field.
proof fn lemma_readings_follow_masks(x: u32, y: u32)
    ensures
        x & 0xf0u32 == y & 0xf0u32 ==> spec_shader_kind(x) == spec_shader_kind(y),
        x & 0x300u32 == y & 0x300u32 ==> spec_language(x) == spec_language(y),
        x & 0xeu32 == y & 0xeu32 ==> spec_optimization(x) == spec_optimization(y),
        x & 0x1u32 == y & 0x1u32 ==> has_flag(x, WARNINGS_AS_ERRORS) == has_flag(y, WARNINGS_AS_ERRORS),
        x & 0x400u32 == y & 0x400u32 ==> has_flag(x, GENERATE_DEBUG_INFO) == has_flag(
            y,
            GENERATE_DEBUG_INFO,
        ),
{
    assert(x & 0xf0u32 == y & 0xf0u32 ==> ((x & 0x10u32 != 0) == (y & 0x10u32 != 0) && (x
        & 0x20u32 != 0) == (y & 0x20u32 != 0) && (x & 0x40u32 != 0) == (y & 0x40u32 != 0) && (x
        & 0x80u32 != 0) == (y & 0x80u32 != 0))) by (bit_vector);
    assert(x & 0x300u32 == y & 0x300u32 ==> (x & 0x100u32 != 0) == (y & 0x100u32 != 0))
        by (bit_vector);
    assert(x & 0xeu32 == y & 0xeu32 ==> ((x & 0x2u32 != 0) == (y & 0x2u32 != 0) && (x & 0x4u32
        != 0) == (y & 0x4u32 != 0) && (x & 0x8u32 != 0) == (y & 0x8u32 != 0))) by (bit_vector);
}

/// Bits that agree outside one field's mask agree on every other field's mask.
proof fn lemma_other_masks(x: u32, y: u32, m: u32)
    by (bit_vector)
    requires
        x & !m == y & !m,
        m == 0xf0u32 || m == 0x300u32 || m == 0xeu32 || m == 0x1u32 || m == 0x400u32 || m == 0u32,
    ensures
        m != 0xf0u32 ==> x & 0xf0u32 == y & 0xf0u32,
        m != 0x300u32 ==> x & 0x300u32 == y & 0x300u32,
        m != 0xeu32 ==> x & 0xeu32 == y & 0xeu32,
        m != 0x1u32 ==> x & 0x1u32 == y & 0x1u32,
        m != 0x400u32 ==> x & 0x400u32 == y & 0x400u32,
{
}

/// What each reading of the flags is after one call: the call's own field takes the call's
/// value, and every other field keeps what it read before.
proof fn lemma_call_readings(bits: u32, call: CompilerCall)
    requires
        call matches CompilerCall::SetShaderKind(kind) ==> is_supported_shader_kind(kind),
    ensures
        spec_shader_kind(call_flags(bits, call)) == (match call {
            CompilerCall::SetShaderKind(kind) => kind,
            _ => spec_shader_kind(bits),
        }),
        spec_language(call_flags(bits, call)) == (match call {
            CompilerCall::SetSourceLanguage(lang) => lang,
            _ => spec_language(bits),
        }),
        spec_optimization(call_flags(bits, call)) == (match call {
            CompilerCall::SetOptimization(level) => Some(level),
            _ => spec_optimization(bits),
        }),
        has_flag(call_flags(bits, call), WARNINGS_AS_ERRORS) == (match call {
            CompilerCall::SetWarningsAsErrors(v) => v,
            _ => has_flag(bits, WARNINGS_AS_ERRORS),
        }),
        has_flag(call_flags(bits, call), GENERATE_DEBUG_INFO) == (match call {
            CompilerCall::SetGenerateDebugInfo(v) => v,
            _ => has_flag(bits, GENERATE_DEBUG_INFO),
        }),
{
    let b = call_flags(bits, call);
    let m: u32 = match call {
        CompilerCall::SetShaderKind(kind) => {
            law_shader_kind_roundtrip(bits, kind);
            0xf0u32
        },
        CompilerCall::SetSourceLanguage(lang) => {
            law_language_roundtrip(bits, lang);
            0x300u32
        },
        CompilerCall::SetOptimization(level) => {
            law_optimization_roundtrip(bits, level);
            0xeu32
        },
        CompilerCall::SetWarningsAsErrors(v) => {
            law_flag_roundtrip(bits, WARNINGS_AS_ERRORS, v);
            0x1u32
        },
        CompilerCall::SetGenerateDebugInfo(v) => {
            law_flag_roundtrip(bits, GENERATE_DEBUG_INFO, v);
            0x400u32
        },
        _ => 0u32,
    };
    assert(b & !m == bits & !m);
    lemma_other_masks(b, bits, m);
    lemma_readings_follow_masks(b, bits);
}

/// What the shader compiler is asked after a compiler is made for `source` (named
/// `filename`, or unnamed) and any sequence of setter calls follows, each shader kind
/// accepted: the stage of the last `set_shader_kind` (vertex when none), the language of the
/// last `set_source_language` (GLSL when none), an optimization level exactly when
/// `set_optimization` was called (the last one), every macro definition in the order added,
/// the warning and debug-info switches as last set (off when never set), the last file name
/// and entry point (`main` when none), and the source unchanged. `compile_request` hands these
/// settings on, with `No Name` for a missing file name and Vulkan 1.4 as target.
pub proof fn law_settings_after_calls(
    source: Seq<char>,
    filename: Option<Seq<char>>,
    calls: Seq<CompilerCall>,
)
    requires
        forall|i: int|
            0 <= i < calls.len() ==> (#[trigger] calls[i] matches CompilerCall::SetShaderKind(kind)
                ==> is_supported_shader_kind(kind)),
    ensures
        ({
            let s = after_calls(initial_settings(source, filename), calls);
            &&& spec_shader_kind(s.flags) == last_shader_kind(calls)
            &&& spec_language(s.flags) == last_language(calls)
            &&& spec_optimization(s.flags) == last_optimization(calls)
            &&& has_flag(s.flags, WARNINGS_AS_ERRORS) == last_warnings_as_errors(calls)
            &&& has_flag(s.flags, GENERATE_DEBUG_INFO) == last_generate_debug_info(calls)
            &&& s.source == source
            &&& s.filename == last_filename(filename, calls)
            &&& s.entry_point == last_entry_point(calls)
            &&& s.definitions == macro_definitions(calls)
        }),
    decreases calls.len(),
{
    if calls.len() == 0 {
        let b = initial_compiler_bits();
        assert(0x100u32 | 0x10u32 == 0x110u32) by (bit_vector);
        assert(0x110u32 & 0x10u32 != 0 && 0x110u32 & 0x100u32 != 0 && 0x110u32 & 0x2u32 == 0
            && 0x110u32 & 0x4u32 == 0 && 0x110u32 & 0x8u32 == 0 && 0x110u32 & 0x1u32 == 0 && 0x110u32
            & 0x400u32 == 0) by (bit_vector);
    } else {
        let prev = calls.drop_last();
        assert forall|i: int|
            0 <= i < prev.len() implies (#[trigger] prev[i] matches CompilerCall::SetShaderKind(kind)
            ==> is_supported_shader_kind(kind)) by {
            assert(prev[i] == calls[i]);
        }
        law_settings_after_calls(source, filename, prev);
        let s0 = after_calls(initial_settings(source, filename), prev);
        let c = calls.last();
        assert(calls[calls.len() - 1] == c);
        lemma_call_readings(s0.flags, c);
    }
}

/// Target environment version handed to the compiler: Vulkan 1.4.
pub const VULKAN_1_4: u32 = 0x404000;

/// Everything a compiler needs for one compilation, as plain values.
#[derive(Debug)]
pub struct CompileRequest {
    pub source: String,
    pub kind: ShaderKind,
    pub input_file_name: String,
    pub entry_point: String,
    pub target_env_version: u32,
    pub language: SourceLanguage,
    pub optimization: Option<OptimizationLevel>,
    pub definitions: Vec<(String, String)>,
    pub warnings_as_errors: bool,
    pub generate_debug_info: bool,
}

/// Settings of a shader compilation: the source, its name, the entry point, the macro
/// definitions and the compiler flags.
#[derive(Debug)]
pub struct AppCompiler<'a> {
    flags: CompilerFlags,
    source: String,
    filename: Option<String>,
    entry_point: String,
    definitions: Vec<(&'a str, &'a str)>,
}

/// The macro definitions as pairs of character sequences.
pub open spec fn definitions_view<'a>(defs: Seq<(&'a str, &'a str)>) -> Seq<(Seq<char>, Seq<char>)> {
    defs.map_values(|p: (&'a str, &'a str)| (p.0@, p.1@))
}

impl<'a> AppCompiler<'a> {
    #[verifier::type_invariant]
    closed spec fn inv(self) -> bool {
        valid_compiler_bits(self.flags@)
    }

    /// The compiler flags.
    pub closed spec fn spec_flags(&self) -> u32 {
        self.flags@
    }

    /// The shader source.
    pub closed spec fn spec_source(&self) -> Seq<char> {
        self.source@
    }

    /// The shader's file name, if one was given.
    pub closed spec fn spec_filename(&self) -> Option<Seq<char>> {
        match self.filename {
            Some(f) => Some(f@),
            None => None,
        }
    }

    /// The name of the entry point.
    pub closed spec fn spec_entry_point(&self) -> Seq<char> {
        self.entry_point@
    }

    /// The macro definitions, in the order they were added.
    pub closed spec fn spec_definitions(&self) -> Seq<(Seq<char>, Seq<char>)> {
        definitions_view(self.definitions@)
    }

    /// Everything the compiler holds.
    pub open spec fn settings(&self) -> CompilerSettings {
        CompilerSettings {
            flags: self.spec_flags(),
            source: self.spec_source(),
            filename: self.spec_filename(),
            entry_point: self.spec_entry_point(),
            definitions: self.spec_definitions(),
        }
    }

    /// A compiler for the given source and optional file name, with GLSL for the vertex
    /// stage, entry point `main` and no macro definitions.
    pub fn new(source: String, filename: Option<String>) -> (r: Self)
        ensures
            r.settings() == initial_settings(
                source@,
                match filename {
                    Some(f) => Some(f@),
                    None => None::<Seq<char>>,
                },
            ),
            r.spec_flags() == initial_compiler_bits(),
            r.spec_source() == source@,
            r.spec_filename() == (match filename {
                Some(f) => Some(f@),
                None => None::<Seq<char>>,
            }),
            r.spec_entry_point() == "main"@,
            r.spec_definitions() == Seq::<(Seq<char>, Seq<char>)>::empty(),
    {
        let flags = CompilerFlags::from_bits_retain(LANGUAGE_GLSL | SHADER_VERTEX);
        assert(0x100u32 | 0x10u32 == 0x110u32 && valid_compiler_bits(0x110u32)) by (bit_vector);
        let entry_point = String::from_str("main");
        let definitions: Vec<(&'a str, &'a str)> = Vec::new();
        let r = AppCompiler { flags, source, filename, entry_point, definitions };
        assert(r.spec_definitions() =~= Seq::<(Seq<char>, Seq<char>)>::empty());
        r
    }

    /// A compiler for the given source, with no file name.
    pub fn from_string(source: &str) -> (r: Self)
        ensures
            r.settings() == initial_settings(source@, None),
            r.spec_flags() == initial_compiler_bits(),
            r.spec_source() == source@,
            r.spec_filename() == None::<Seq<char>>,
            r.spec_entry_point() == "main"@,
            r.spec_definitions() == Seq::<(Seq<char>, Seq<char>)>::empty(),
    {
        Self::new(source.to_owned(), None)
    }

    /// The shader's file name, if one was given.
    pub fn get_filename(&self) -> (r: Option<&str>)
        ensures
            match r {
                Some(f) => self.spec_filename() == Some(f@),
                None => self.spec_filename() == None::<Seq<char>>,
            },
    {
        match &self.filename {
            Some(f) => Some(f.as_str()),
            None => None,
        }
    }

    /// The name of the shader's entry point.
    pub fn get_entry_point(&self) -> (r: &str)
        ensures
            r@ == self.spec_entry_point(),
    {
        self.entry_point.as_str()
    }

    /// Sets the shader's file name.
    pub fn set_filename(self, name: &str) -> (r: Self)
        ensures
            r.settings() == after_call(self.settings(), CompilerCall::SetFilename(name@)),
            r.spec_filename() == Some(name@),
            r.spec_flags() == self.spec_flags(),
            r.spec_source() == self.spec_source(),
            r.spec_entry_point() == self.spec_entry_point(),
            r.spec_definitions() == self.spec_definitions(),
    {
        proof {
            use_type_invariant(&self);
        }
        let mut r = self;
        r.filename = Some(name.to_owned());
        r
    }

    /// Sets the name of the shader's entry point.
    pub fn set_entry_point(self, name: &str) -> (r: Self)
        ensures
            r.settings() == after_call(self.settings(), CompilerCall::SetEntryPoint(name@)),
            r.spec_entry_point() == name@,
            r.spec_flags() == self.spec_flags(),
            r.spec_source() == self.spec_source(),
            r.spec_filename() == self.spec_filename(),
            r.spec_definitions() == self.spec_definitions(),
    {
        proof {
            use_type_invariant(&self);
        }
        let mut r = self;
        r.entry_point = name.to_owned();
        r
    }

    /// Sets the kind of shader that the source describes. Only the vertex, fragment, compute
    /// and geometry kinds are accepted.
    pub fn set_shader_kind(self, kind: ShaderKind) -> (r: Result<Self, CompilerError>)
        ensures
            r matches Ok(c) ==> c.settings() == after_call(
                self.settings(),
                CompilerCall::SetShaderKind(kind),
            ),
            r is Ok <==> is_supported_shader_kind(kind),
            match r {
                Ok(c) => {
                    &&& c.spec_flags() == with_shader_kind(self.spec_flags(), kind)
                    &&& c.spec_source() == self.spec_source()
                    &&& c.spec_filename() == self.spec_filename()
                    &&& c.spec_entry_point() == self.spec_entry_point()
                    &&& c.spec_definitions() == self.spec_definitions()
                },
                Err(e) => e == CompilerError::UnsupportedShaderKind,
            },
    {
        proof {
            use_type_invariant(&self);
        }
        let mut flags = self.flags;
        match flags.set_shader_kind(kind) {
            Ok(()) => {
                proof {
                    lemma_valid_with_shader_kind(self.flags@, kind);
                }
                let mut r = self;
                r.flags = flags;
                Ok(r)
            },
            Err(e) => Err(e),
        }
    }

    /// Sets the language of the source.
    pub fn set_source_language(self, value: SourceLanguage) -> (r: Self)
        ensures
            r.settings() == after_call(self.settings(), CompilerCall::SetSourceLanguage(value)),
            r.spec_flags() == with_language(self.spec_flags(), value),
            r.spec_source() == self.spec_source(),
            r.spec_filename() == self.spec_filename(),
            r.spec_entry_point() == self.spec_entry_point(),
            r.spec_definitions() == self.spec_definitions(),
    {
        proof {
            use_type_invariant(&self);
            lemma_valid_with_language(self.flags@, value);
        }
        let mut flags = self.flags;
        flags.set_language(value);
        let mut r = self;
        r.flags = flags;
        r
    }

    /// Adds a macro definition for the preprocessor, after the earlier ones.
    pub fn add_macro_definition(self, name: &'a str, value: &'a str) -> (r: Self)
        ensures
            r.settings() == after_call(
                self.settings(),
                CompilerCall::AddMacroDefinition(name@, value@),
            ),
            r.spec_definitions() == self.spec_definitions().push((name@, value@)),
            r.spec_flags() == self.spec_flags(),
            r.spec_source() == self.spec_source(),
            r.spec_filename() == self.spec_filename(),
            r.spec_entry_point() == self.spec_entry_point(),
    {
        proof {
            use_type_invariant(&self);
        }
        let AppCompiler { flags, source, filename, entry_point, definitions } = self;
        let mut definitions = definitions;
        definitions.push((name, value));
        let r = AppCompiler { flags, source, filename, entry_point, definitions };
        assert(definitions_view(r.definitions@) =~= definitions_view(self.definitions@).push(
            (name@, value@),
        ));
        r
    }

    /// Sets the optimization level.
    pub fn set_optimization(self, level: OptimizationLevel) -> (r: Self)
        ensures
            r.settings() == after_call(self.settings(), CompilerCall::SetOptimization(level)),
            r.spec_flags() == with_optimization(self.spec_flags(), level),
            r.spec_source() == self.spec_source(),
            r.spec_filename() == self.spec_filename(),
            r.spec_entry_point() == self.spec_entry_point(),
            r.spec_definitions() == self.spec_definitions(),
    {
        proof {
            use_type_invariant(&self);
            lemma_valid_with_optimization(self.flags@, level);
        }
        let mut flags = self.flags;
        flags.set_optimization(level);
        let mut r = self;
        r.flags = flags;
        r
    }

    /// Sets whether warnings are treated as errors.
    pub fn set_warnings_as_errors(self, value: bool) -> (r: Self)
        ensures
            r.settings() == after_call(self.settings(), CompilerCall::SetWarningsAsErrors(value)),
            r.spec_flags() == with_flag(self.spec_flags(), WARNINGS_AS_ERRORS, value),
            r.spec_source() == self.spec_source(),
            r.spec_filename() == self.spec_filename(),
            r.spec_entry_point() == self.spec_entry_point(),
            r.spec_definitions() == self.spec_definitions(),
    {
        proof {
            use_type_invariant(&self);
            lemma_valid_with_flag(self.flags@, WARNINGS_AS_ERRORS, value);
        }
        let mut flags = self.flags;
        flags.set_warnings_as_errors(value);
        let mut r = self;
        r.flags = flags;
        r
    }

    /// Sets whether debug information is generated.
    pub fn set_generate_debug_info(self, value: bool) -> (r: Self)
        ensures
            r.settings() == after_call(self.settings(), CompilerCall::SetGenerateDebugInfo(value)),
            r.spec_flags() == with_flag(self.spec_flags(), GENERATE_DEBUG_INFO, value),
            r.spec_source() == self.spec_source(),
            r.spec_filename() == self.spec_filename(),
            r.spec_entry_point() == self.spec_entry_point(),
            r.spec_definitions() == self.spec_definitions(),
    {
        proof {
            use_type_invariant(&self);
            lemma_valid_with_flag(self.flags@, GENERATE_DEBUG_INFO, value);
        }
        let mut flags = self.flags;
        flags.set_generate_debug_info(value);
        let mut r = self;
        r.flags = flags;
        r
    }
    /// The compiler flags. Every compiler holds exactly one supported stage, exactly one
    /// source language, at most one optimization level and no unknown flag.
    pub fn flags(&self) -> (r: CompilerFlags)
        ensures
            r@ == self.spec_flags(),
            valid_compiler_bits(r@),
    {
        proof {
            use_type_invariant(self);
        }
        self.flags
    }

    /// Everything the shader compiler needs for this compilation: the source, the stage, the
    /// file name (`No Name` when none was given), the entry point, Vulkan 1.4 as target, the
    /// source language, the optimization level if one was chosen, the macro definitions in
    /// order, and the warning and debug-info switches.
    pub fn compile_request(&self) -> (r: CompileRequest)
        ensures
            r.source@ == self.spec_source(),
            r.kind == spec_shader_kind(self.spec_flags()),
            is_supported_shader_kind(r.kind),
            r.input_file_name@ == (match self.spec_filename() {
                Some(f) => f,
                None => "No Name"@,
            }),
            r.entry_point@ == self.spec_entry_point(),
            r.target_env_version == VULKAN_1_4,
            r.language == spec_language(self.spec_flags()),
            r.optimization == spec_optimization(self.spec_flags()),
            r.definitions@.len() == self.spec_definitions().len(),
            forall|i: int|
                0 <= i < r.definitions@.len() ==> (#[trigger] r.definitions@[i]).0@
                    == self.spec_definitions()[i].0 && r.definitions@[i].1@
                    == self.spec_definitions()[i].1,
            r.warnings_as_errors == has_flag(self.spec_flags(), WARNINGS_AS_ERRORS),
            r.generate_debug_info == has_flag(self.spec_flags(), GENERATE_DEBUG_INFO),
    {
        proof {
            use_type_invariant(self);
            let b = self.flags@;
            assert(b & 0x300 != 0 && (b & 0x10 != 0 || b & 0x20 != 0 || b & 0x40 != 0 || b & 0x80
                != 0)) by (bit_vector)
                requires
                    valid_compiler_bits(b),
            ;
        }
        let input_file_name = match &self.filename {
            Some(f) => f.clone(),
            None => String::from_str("No Name"),
        };
        let mut definitions: Vec<(String, String)> = Vec::new();
        let n = self.definitions.len();
        for i in 0..n
            invariant
                n == self.definitions@.len(),
                definitions@.len() == i,
                forall|j: int|
                    0 <= j < i ==> (#[trigger] definitions@[j]).0@ == self.definitions@[j].0@
                        && definitions@[j].1@ == self.definitions@[j].1@,
        {
            let (name, value) = self.definitions[i];
            definitions.push((name.to_owned(), value.to_owned()));
        }
        CompileRequest {
            source: self.source.clone(),
            kind: self.flags.get_shader_kind(),
            input_file_name,
            entry_point: self.entry_point.clone(),
            target_env_version: VULKAN_1_4,
            language: self.flags.get_language(),
            optimization: self.flags.get_optimization(),
            definitions,
            warnings_as_errors: self.flags.get_warnings_as_errors(),
            generate_debug_info: self.flags.get_generate_debug_info(),
        }
    }
}


} // verus!
