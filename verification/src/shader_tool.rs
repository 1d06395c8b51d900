//! The rules of the stand-alone shader compiler: its arguments, and shader file names of the
//! form `[name].[shader type].[language]`.

use vstd::prelude::*;
use crate::flags::{is_supported_shader_kind, ShaderKind, SourceLanguage};
use crate::text::{lemma_split_concat, lemma_split_no_sep, split_on, split_str, str_equals};

verus! {

/// Errors of the stand-alone shader compiler.
#[derive(Debug, PartialEq, Eq)]
pub enum CompilerError {
    NotEnoughArguments,
    InputFileMissing(String),
    MissingFileName(String),
    InvalidFileNameFormat(String),
    UnknownShaderType(String),
    UnknownSourceLangauge(String),
    NoParentDirectory(String),
    UnknownFlag(String),
}

/// What the arguments of the shader compiler ask for.
#[derive(Debug)]
pub struct ToolOptions {
    pub input: String,
    pub output: String,
    pub warnings_are_errors: bool,
    pub generate_debug_info: bool,
}

/// Whether some argument after the first three is exactly `flag`.
pub open spec fn has_extra_argument(args: Seq<String>, flag: Seq<char>) -> bool {
    exists|j: int| 3 <= j < args.len() && (#[trigger] args[j])@ == flag
}

/// Reads the arguments `[program] [in file] [out file] (flags)`: `werror` makes warnings
/// errors, `debug` asks for debug information, and any other flag is ignored.
pub fn parse_tool_options(args: &Vec<String>) -> (r: Result<ToolOptions, CompilerError>)
    ensures
        args@.len() < 3 <==> r is Err,
        r is Err ==> r == Err::<ToolOptions, CompilerError>(CompilerError::NotEnoughArguments),
        r matches Ok(o) ==> {
            &&& o.input@ == args@[1]@
            &&& o.output@ == args@[2]@
            &&& o.warnings_are_errors == has_extra_argument(args@, "werror"@)
            &&& o.generate_debug_info == has_extra_argument(args@, "debug"@)
        },
{
    if args.len() < 3 {
        return Err(CompilerError::NotEnoughArguments);
    }
    let mut warnings_are_errors = false;
    let mut generate_debug_info = false;
    let n = args.len();
    for i in 3..n
        invariant
            n == args@.len(),
            warnings_are_errors == exists|j: int| 3 <= j < i && (#[trigger] args@[j])@ == "werror"@,
            generate_debug_info == exists|j: int| 3 <= j < i && (#[trigger] args@[j])@ == "debug"@,
    {
        let arg = args[i].as_str();
        proof {
            reveal_strlit("werror");
            reveal_strlit("debug");
            assert("werror"@[0] != "debug"@[0]);
        }
        if str_equals(arg, "werror") {
            warnings_are_errors = true;
        } else if str_equals(arg, "debug") {
            generate_debug_info = true;
        }
    }
    Ok(
        ToolOptions {
            input: args[1].clone(),
            output: args[2].clone(),
            warnings_are_errors,
            generate_debug_info,
        },
    )
}

/// The shader kind that a file name's type part stands for.
pub open spec fn spec_shader_type(part: Seq<char>) -> Option<ShaderKind> {
    if part == "vs"@ {
        Some(ShaderKind::Vertex)
    } else if part == "ps"@ {
        Some(ShaderKind::Fragment)
    } else if part == "cs"@ {
        Some(ShaderKind::Compute)
    } else if part == "gs"@ {
        Some(ShaderKind::Geometry)
    } else {
        None
    }
}

/// The source language that a file name's language part stands for.
pub open spec fn spec_language_part(part: Seq<char>) -> Option<SourceLanguage> {
    if part == "glsl"@ {
        Some(SourceLanguage::GLSL)
    } else if part == "hlsl"@ {
        Some(SourceLanguage::HLSL)
    } else {
        None
    }
}

/// The stage and language that a well-formed shader file name gives.
pub open spec fn spec_parse_shader_file_name(name: Seq<char>) -> Option<(ShaderKind, SourceLanguage)> {
    let parts = split_on(name, '.');
    if parts.len() != 3 {
        None
    } else {
        match (spec_shader_type(parts[1]), spec_language_part(parts[2])) {
            (Some(k), Some(l)) => Some((k, l)),
            _ => None,
        }
    }
}

/// Reads the stage and language from a file name `[name].[shader type].[language]`, where the
/// type is `vs`, `ps`, `cs` or `gs` and the language is `glsl` or `hlsl`.
pub fn parse_shader_file_name(file_name: &str) -> (r: Result<(ShaderKind, SourceLanguage), CompilerError>)
    ensures
        r is Ok <==> spec_parse_shader_file_name(file_name@) is Some,
        r matches Ok(p) ==> spec_parse_shader_file_name(file_name@) == Some(p),
        r matches Err(e) ==> {
            let parts = split_on(file_name@, '.');
            if parts.len() != 3 {
                e matches CompilerError::InvalidFileNameFormat(f) && f@ == file_name@
            } else if spec_shader_type(parts[1]) is None {
                e matches CompilerError::UnknownShaderType(t) && t@ == parts[1]
            } else {
                e matches CompilerError::UnknownSourceLangauge(l) && l@ == parts[2]
            }
        },
{
    let parts = split_str(file_name, '.');
    if parts.len() != 3 {
        return Err(CompilerError::InvalidFileNameFormat(file_name.to_owned()));
    }
    let t = parts[1];
    let kind = if str_equals(t, "vs") {
        ShaderKind::Vertex
    } else if str_equals(t, "ps") {
        ShaderKind::Fragment
    } else if str_equals(t, "cs") {
        ShaderKind::Compute
    } else if str_equals(t, "gs") {
        ShaderKind::Geometry
    } else {
        return Err(CompilerError::UnknownShaderType(t.to_owned()));
    };
    let l = parts[2];
    let language = if str_equals(l, "glsl") {
        SourceLanguage::GLSL
    } else if str_equals(l, "hlsl") {
        SourceLanguage::HLSL
    } else {
        return Err(CompilerError::UnknownSourceLangauge(l.to_owned()));
    };
    Ok((kind, language))
}

/// The type part of a file name for a supported stage.
pub open spec fn shader_type_part(kind: ShaderKind) -> Seq<char> {
    match kind {
        ShaderKind::Vertex => "vs"@,
        ShaderKind::Fragment => "ps"@,
        ShaderKind::Compute => "cs"@,
        _ => "gs"@,
    }
}

/// The language part of a file name.
pub open spec fn language_part(lang: SourceLanguage) -> Seq<char> {
    match lang {
        SourceLanguage::GLSL => "glsl"@,
        SourceLanguage::HLSL => "hlsl"@,
    }
}

/// The file name of a shader: its name, its type and its language, joined by dots.
pub open spec fn shader_file_name(name: Seq<char>, kind: ShaderKind, lang: SourceLanguage) -> Seq<char> {
    name + seq!['.'] + shader_type_part(kind) + seq!['.'] + language_part(lang)
}

/// A shader named by the convention `[name].[shader type].[language]`, with a name that holds
/// no dot, is read back as its stage and language.
pub proof fn law_shader_file_name_roundtrip(name: Seq<char>, kind: ShaderKind, lang: SourceLanguage)
    requires
        !name.contains('.'),
        is_supported_shader_kind(kind),
    ensures
        spec_parse_shader_file_name(shader_file_name(name, kind, lang)) == Some((kind, lang)),
{
    reveal_strlit("vs");
    reveal_strlit("ps");
    reveal_strlit("cs");
    reveal_strlit("gs");
    reveal_strlit("glsl");
    reveal_strlit("hlsl");
    let t = shader_type_part(kind);
    let l = language_part(lang);
    assert(!t.contains('.')) by {
        if t.contains('.') {
            let k = choose|k: int| 0 <= k < t.len() && t[k] == '.';
            assert(t.len() == 2);
        }
    }
    assert(!l.contains('.')) by {
        if l.contains('.') {
            let k = choose|k: int| 0 <= k < l.len() && l[k] == '.';
            assert(l.len() == 4);
        }
    }
    lemma_split_no_sep(name, '.');
    lemma_split_no_sep(t, '.');
    lemma_split_no_sep(l, '.');
    let full = shader_file_name(name, kind, lang);
    let front = name + seq!['.'] + t;
    lemma_split_concat(name, t, '.');
    lemma_split_concat(front, l, '.');
    assert(full =~= front + seq!['.'] + l);
    let parts = split_on(full, '.');
    assert(parts =~= seq![name, t, l]);
    assert("vs"@[0] != "ps"@[0] && "vs"@[0] != "cs"@[0] && "vs"@[0] != "gs"@[0] && "ps"@[0]
        != "cs"@[0] && "ps"@[0] != "gs"@[0] && "cs"@[0] != "gs"@[0]);
    assert("glsl"@[0] != "hlsl"@[0]);
    assert(spec_shader_type(t) == Some(kind));
    assert(spec_language_part(l) == Some(lang));
}

} // verus!
