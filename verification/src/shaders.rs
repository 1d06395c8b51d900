//! Shaders and the registry that holds them by file name, with the rules for finding a
//! shader's files and reading its SPIR-V bytecode.

use std::sync::Arc;
use vstd::prelude::*;
use vulkano::shader::ShaderModule;
use crate::compiler::AppCompiler;
use crate::error::{arc_clone, LibError};
use crate::text::str_equals;

verus! {

/// A shader: its SPIR-V words, the file name it is registered under, the name of its entry
/// point, and the module loaded from it.
#[derive(Debug)]
pub struct AppShader {
    code: Vec<u32>,
    filename: String,
    entry_point: String,
    module: Option<Arc<ShaderModule>>,
}

impl AppShader {
    /// The shader's SPIR-V words.
    pub closed spec fn spec_code(&self) -> Seq<u32> {
        self.code@
    }

    /// The module loaded from the shader.
    pub closed spec fn spec_module(&self) -> Option<Arc<ShaderModule>> {
        self.module
    }

    /// The file name the shader is registered under.
    pub closed spec fn spec_filename(&self) -> Seq<char> {
        self.filename@
    }

    /// The name of the shader's entry point.
    pub closed spec fn spec_entry_point(&self) -> Seq<char> {
        self.entry_point@
    }

    /// A shader from its SPIR-V words and loaded module; without a file name it is named
    /// `No Name`.
    pub fn from_bytecode(
        code: Vec<u32>,
        filename: Option<String>,
        entry_point: String,
        module: Option<Arc<ShaderModule>>,
    ) -> (r: Self)
        ensures
            r.spec_code() == code@,
            r.spec_filename() == (match filename {
                Some(f) => f@,
                None => "No Name"@,
            }),
            r.spec_entry_point() == entry_point@,
            r.spec_module() == module,
    {
        let filename = match filename {
            Some(f) => f,
            None => String::from_str("No Name"),
        };
        AppShader { code, filename, entry_point, module }
    }

    /// A shader compiled from `compiler`'s settings into `code`: it takes the compiler's file
    /// name, which must have been given, and its entry point.
    pub fn from_source(compiler: &AppCompiler, code: Vec<u32>, module: Option<Arc<ShaderModule>>) -> (r: Self)
        requires
            compiler.spec_filename() is Some,
        ensures
            r.spec_code() == code@,
            r.spec_filename() == compiler.spec_filename()->0,
            r.spec_entry_point() == compiler.spec_entry_point(),
            r.spec_module() == module,
    {
        let filename = match compiler.get_filename() {
            Some(f) => f.to_owned(),
            None => String::new(),
        };
        let entry_point = compiler.get_entry_point().to_owned();
        AppShader { code, filename, entry_point, module }
    }

    /// The shader's SPIR-V words.
    pub fn code(&self) -> (r: &Vec<u32>)
        ensures
            r@ == self.spec_code(),
    {
        &self.code
    }

    /// The module loaded from the shader.
    pub fn module(&self) -> (r: Option<Arc<ShaderModule>>)
        ensures
            r == self.spec_module(),
    {
        match &self.module {
            Some(m) => Some(arc_clone(m)),
            None => None,
        }
    }

    /// The file name the shader is registered under.
    pub fn filename(&self) -> (r: &str)
        ensures
            r@ == self.spec_filename(),
    {
        self.filename.as_str()
    }

    /// The name of the shader's entry point.
    pub fn entry_point_name(&self) -> (r: &str)
        ensures
            r@ == self.spec_entry_point(),
    {
        self.entry_point.as_str()
    }
}

/// The position of the shader registered under `key`, if any.
pub open spec fn find_shader(shaders: Seq<AppShader>, key: Seq<char>) -> Option<int> {
    if exists|i: int| 0 <= i < shaders.len() && (#[trigger] shaders[i]).spec_filename() == key {
        Some(choose|i: int| 0 <= i < shaders.len() && (#[trigger] shaders[i]).spec_filename() == key)
    } else {
        None
    }
}

/// No two shaders share a file name.
pub open spec fn distinct_filenames(shaders: Seq<AppShader>) -> bool {
    forall|i: int, j: int|
        0 <= i < shaders.len() && 0 <= j < shaders.len() && i != j ==> (#[trigger] shaders[i]).spec_filename()
            != (#[trigger] shaders[j]).spec_filename()
}

/// Reading of shaders by name.
pub trait ShaderRegistry {
    /// The shader registered under `key`.
    fn get(&self, key: &str) -> Option<&AppShader>;

    /// The vertex and pixel shaders registered under the given names.
    fn try_get_vertex_pixel(&self, vertex: &str, pixel: &str) -> Result<(&AppShader, &AppShader), LibError>;
}

/// The shaders of the renderer, each under its file name.
#[derive(Debug)]
pub struct LibShaderRegistry(Vec<AppShader>);

impl LibShaderRegistry {
    #[verifier::type_invariant]
    closed spec fn inv(self) -> bool {
        distinct_filenames(self.0@)
    }

    /// The registered shaders.
    pub closed spec fn shaders(&self) -> Seq<AppShader> {
        self.0@
    }

    /// An empty registry.
    pub fn default() -> (r: Self)
        ensures
            r.shaders() == Seq::<AppShader>::empty(),
    {
        LibShaderRegistry(Vec::new())
    }

    /// The position of the shader registered under `key`.
    fn position(&self, key: &str) -> (r: Option<usize>)
        ensures
            match r {
                Some(i) => i < self.shaders().len() && self.shaders()[i as int].spec_filename()
                    == key@,
                None => find_shader(self.shaders(), key@) is None,
            },
    {
        let n = self.0.len();
        for i in 0..n
            invariant
                n == self.0@.len(),
                forall|j: int| 0 <= j < i ==> (#[trigger] self.0@[j]).spec_filename() != key@,
        {
            if str_equals(self.0[i].filename(), key) {
                return Some(i);
            }
        }
        None
    }

    /// Registers a shader under its file name, replacing a shader registered there before.
    pub fn insert(&mut self, shader: AppShader)
        ensures
            find_shader(final(self).shaders(), shader.spec_filename()) matches Some(i)
                && final(self).shaders()[i] == shader,
            forall|k: Seq<char>|
                k != shader.spec_filename() ==> match #[trigger] find_shader(old(self).shaders(), k) {
                    Some(i) => find_shader(final(self).shaders(), k) matches Some(j)
                        && final(self).shaders()[j] == old(self).shaders()[i],
                    None => find_shader(final(self).shaders(), k) is None,
                },
    {
        proof {
            use_type_invariant(&*self);
        }
        let ghost old_shaders = self.0@;
        let ghost name = shader.spec_filename();
        let pos = self.position(shader.filename());
        let mut v: Vec<AppShader> = Vec::new();
        std::mem::swap(&mut v, &mut self.0);
        match pos {
            Some(i) => {
                v.set(i, shader);
            },
            None => {
                v.push(shader);
            },
        }
        let ghost new_shaders = v@;
        proof {
            assert(distinct_filenames(new_shaders));
            assert forall|k: Seq<char>| k != name implies match #[trigger] find_shader(old_shaders, k) {
                Some(i) => find_shader(new_shaders, k) matches Some(j) && new_shaders[j] == old_shaders[i],
                None => find_shader(new_shaders, k) is None,
            } by {
                match find_shader(old_shaders, k) {
                    Some(i) => {
                        assert(new_shaders[i] == old_shaders[i]);
                    },
                    None => {
                        if exists|j: int| 0 <= j < new_shaders.len() && (#[trigger] new_shaders[j]).spec_filename() == k {
                            let j = choose|j: int| 0 <= j < new_shaders.len() && (#[trigger] new_shaders[j]).spec_filename() == k;
                            assert(old_shaders[j].spec_filename() == k);
                        }
                    },
                }
            }
            let i = match pos { Some(i) => i as int, None => old_shaders.len() as int };
            assert(new_shaders[i] == shader);
            assert(find_shader(new_shaders, name) is Some);
        }
        self.0 = v;
    }
}

impl ShaderRegistry for LibShaderRegistry {
    fn get(&self, key: &str) -> (r: Option<&AppShader>)
        ensures
            match find_shader(self.shaders(), key@) {
                Some(i) => r == Some(&self.shaders()[i]),
                None => r is None,
            },
    {
        proof {
            use_type_invariant(self);
        }
        match self.position(key) {
            Some(i) => Some(&self.0[i]),
            None => None,
        }
    }

    fn try_get_vertex_pixel(&self, vertex: &str, pixel: &str) -> (r: Result<(&AppShader, &AppShader), LibError>)
        ensures
            match (find_shader(self.shaders(), vertex@), find_shader(self.shaders(), pixel@)) {
                (Some(i), Some(j)) => r == Ok::<(&AppShader, &AppShader), LibError>(
                    (&self.shaders()[i], &self.shaders()[j]),
                ),
                (None, _) => r matches Err(LibError::CouldNotFindShader(n)) && n@ == vertex@,
                (Some(_), None) => r matches Err(LibError::CouldNotFindShader(n)) && n@ == pixel@,
            },
    {
        let v = match self.get(vertex) {
            Some(v) => v,
            None => {
                return Err(LibError::CouldNotFindShader(vertex.to_owned()));
            },
        };
        let p = match self.get(pixel) {
            Some(p) => p,
            None => {
                return Err(LibError::CouldNotFindShader(pixel.to_owned()));
            },
        };
        Ok((v, p))
    }
}

} // verus!

verus! {

/// The position of the last dot in `name`, if it holds one.
pub open spec fn last_dot(name: Seq<char>) -> Option<int> {
    if exists|i: int| 0 <= i < name.len() && name[i] == '.' {
        Some(choose|i: int| 0 <= i < name.len() && name[i] == '.' && forall|j: int| i < j < name.len() ==> name[j] != '.')
    } else {
        None
    }
}

/// The extension of a file name: what follows its last dot, unless the name is `..`, holds
/// no dot, or begins with its only dot.
pub open spec fn file_extension(name: Seq<char>) -> Option<Seq<char>> {
    if name == ".."@ {
        None
    } else {
        match last_dot(name) {
            Some(i) => if i == 0 {
                None
            } else {
                Some(name.subrange(i + 1, name.len() as int))
            },
            None => None,
        }
    }
}

/// The files a shader is looked for in, next to the path it was asked for by.
#[derive(Debug)]
pub struct ShaderFiles {
    /// The extension of the path (the shader's stage, such as `vs`).
    pub extension: String,
    /// The SPIR-V bytecode file: the extension `e` replaced by `e.spv`.
    pub bytecode: String,
    /// The GLSL source file: the extension `e` replaced by `e.glsl`.
    pub source: String,
}

/// The bytecode and source file names for a shader asked for by the file name `file_name`:
/// its extension `e` is replaced by `e.spv` and by `e.glsl`, which appends `.spv` and `.glsl`
/// to the name. A name without an extension is refused.
pub fn shader_file_names(file_name: &str) -> (r: Result<ShaderFiles, LibError>)
    ensures
        match file_extension(file_name@) {
            Some(e) => r matches Ok(f) && f.extension@ == e && f.bytecode@ == file_name@ + ".spv"@
                && f.source@ == file_name@ + ".glsl"@,
            None => r matches Err(LibError::NoFileExtensionOnShader),
        },
{
    let n = file_name.unicode_len();
    proof {
        reveal_strlit("..");
    }
    if n == 2 && file_name.get_char(0) == '.' && file_name.get_char(1) == '.' {
        proof {
            assert(file_name@ =~= ".."@);
        }
        return Err(LibError::NoFileExtensionOnShader);
    }
    proof {
        assert(file_name@ != ".."@) by {
            if file_name@ == ".."@ {
                assert(file_name@[0] == '.' && file_name@[1] == '.');
            }
        }
    }
    let mut i = n;
    while i > 0
        invariant
            n == file_name@.len(),
            i <= n,
            forall|j: int| i <= j < n ==> file_name@[j] != '.',
        ensures
            i <= n,
            forall|j: int| i <= j < n ==> file_name@[j] != '.',
            i == 0 || file_name@[i - 1] == '.',
        decreases i,
    {
        if file_name.get_char(i - 1) == '.' {
            break;
        }
        i = i - 1;
    }
    if i == 0 {
        proof {
            assert(!(exists|k: int| 0 <= k < file_name@.len() && file_name@[k] == '.'));
        }
        return Err(LibError::NoFileExtensionOnShader);
    }
    let dot = i - 1;
    proof {
        assert(file_name@[dot as int] == '.');
        let s = file_name@;
        let c = choose|k: int| 0 <= k < s.len() && s[k] == '.' && forall|j: int| k < j < s.len() ==> s[j] != '.';
        assert(c == dot as int) by {
            if c < dot {
                assert(s[dot as int] != '.');
            } else if c > dot {
                assert(s[c] != '.');
            }
        }
    }
    if dot == 0 {
        return Err(LibError::NoFileExtensionOnShader);
    }
    let extension = file_name.substring_char(dot + 1, n).to_owned();
    let mut bytecode = file_name.to_owned();
    bytecode.append(".spv");
    let mut source = file_name.to_owned();
    source.append(".glsl");
    Ok(ShaderFiles { extension, bytecode, source })
}

/// What to do to load a shader, given which of its files exist.
#[derive(Debug, Clone, Copy, PartialEq, Eq, Structural)]
pub enum ShaderLoadPlan {
    /// Compile the source into the bytecode file, then load the bytecode.
    CompileThenLoad,
    /// Load the bytecode.
    Load,
    /// Neither file exists: the shader cannot be found.
    Missing,
}

/// A shader is compiled from source only when its bytecode is missing and its source exists;
/// its bytecode is then loaded whenever either file exists.
pub fn plan_shader_load(bytecode_exists: bool, source_exists: bool) -> (r: ShaderLoadPlan)
    ensures
        r == (if !bytecode_exists && source_exists {
            ShaderLoadPlan::CompileThenLoad
        } else if bytecode_exists {
            ShaderLoadPlan::Load
        } else {
            ShaderLoadPlan::Missing
        }),
{
    if !bytecode_exists && source_exists {
        ShaderLoadPlan::CompileThenLoad
    } else if source_exists || bytecode_exists {
        ShaderLoadPlan::Load
    } else {
        ShaderLoadPlan::Missing
    }
}

/// The little-endian 32-bit word made of four bytes.
pub open spec fn le_word(b0: u8, b1: u8, b2: u8, b3: u8) -> int {
    b0 + b1 * 0x100 + b2 * 0x10000 + b3 * 0x1000000
}

/// The big-endian 32-bit word made of four bytes.
pub open spec fn be_word(b0: u8, b1: u8, b2: u8, b3: u8) -> int {
    le_word(b3, b2, b1, b0)
}

/// The words of `bytes`, four bytes each, read little-endian (`little`) or big-endian.
pub open spec fn decoded_words(bytes: Seq<u8>, little: bool) -> Seq<int> {
    Seq::new(
        bytes.len() / 4,
        |i: int|
            if little {
                le_word(bytes[4 * i], bytes[4 * i + 1], bytes[4 * i + 2], bytes[4 * i + 3])
            } else {
                be_word(bytes[4 * i], bytes[4 * i + 1], bytes[4 * i + 2], bytes[4 * i + 3])
            },
    )
}

/// The 32-bit word whose representation in the machine's own byte order is the four bytes
/// (`u32::from_ne_bytes`). Every target is little- or big-endian, so the word is one of the two
/// readings; which one depends on the machine and is left open here.
#[verifier::external_body]
fn native_word(b0: u8, b1: u8, b2: u8, b3: u8) -> (r: u32)
    ensures
        r as int == le_word(b0, b1, b2, b3) || r as int == be_word(b0, b1, b2, b3),
{
    u32::from_ne_bytes([b0, b1, b2, b3])
}

/// The SPIR-V words of a bytecode file, four bytes each, read little-endian when `little`
/// holds and big-endian otherwise. A file whose length is not a multiple of four is refused
/// with its length.
pub fn spirv_words_in_order(bytes: &Vec<u8>, little: bool) -> (r: Result<Vec<u32>, LibError>)
    ensures
        bytes@.len() % 4 == 0 ==> (r matches Ok(w) && w@.map_values(|x: u32| x as int)
            == decoded_words(bytes@, little)),
        bytes@.len() % 4 != 0 ==> (r matches Err(LibError::InvalidFileSizeForSpirvBytecode(n))
            && n == bytes@.len()),
{
    let len = bytes.len();
    if len % 4 != 0 {
        return Err(LibError::InvalidFileSizeForSpirvBytecode(len));
    }
    let count = len / 4;
    let mut words: Vec<u32> = Vec::new();
    for i in 0..count
        invariant
            len == bytes@.len(),
            count == len / 4,
            len % 4 == 0,
            words@.len() == i,
            forall|k: int|
                0 <= k < i ==> (#[trigger] words@[k]) as int == decoded_words(bytes@, little)[k],
    {
        let base = 4 * i;
        let b0 = bytes[base] as u32;
        let b1 = bytes[base + 1] as u32;
        let b2 = bytes[base + 2] as u32;
        let b3 = bytes[base + 3] as u32;
        let w = if little {
            b0 + b1 * 0x100 + b2 * 0x10000 + b3 * 0x1000000
        } else {
            b3 + b2 * 0x100 + b1 * 0x10000 + b0 * 0x1000000
        };
        words.push(w);
    }
    proof {
        assert(words@.map_values(|x: u32| x as int) =~= decoded_words(bytes@, little));
    }
    Ok(words)
}

/// The SPIR-V words of a bytecode file, read in the machine's own byte order: all words are
/// read little-endian or all big-endian, as the machine stores words. A file whose length is
/// not a multiple of four is refused with its length.
pub fn spirv_words(bytes: &Vec<u8>) -> (r: Result<Vec<u32>, LibError>)
    ensures
        bytes@.len() % 4 == 0 ==> (r matches Ok(w) && exists|little: bool|
            w@.map_values(|x: u32| x as int) == #[trigger] decoded_words(bytes@, little)),
        bytes@.len() % 4 != 0 ==> (r matches Err(LibError::InvalidFileSizeForSpirvBytecode(n))
            && n == bytes@.len()),
{
    let little = native_word(1, 0, 0, 0) == 1;
    spirv_words_in_order(bytes, little)
}

} // verus!

verus! {

/// The shader stages a pipeline layout is built from.
#[derive(Debug)]
pub struct PipelineLayoutBuilder<'a, const N: usize>([&'a AppShader; N]);

impl<'a, const N: usize> PipelineLayoutBuilder<'a, N> {
    /// The stages, in order.
    pub closed spec fn stages(&self) -> Seq<&'a AppShader> {
        self.0@
    }

    /// A builder for the given stages.
    pub fn new(shaders: [&'a AppShader; N]) -> (r: Self)
        ensures
            r.stages() == shaders@,
    {
        PipelineLayoutBuilder(shaders)
    }

    /// The stages, in order.
    pub fn shaders(&self) -> (r: &[&'a AppShader; N])
        ensures
            r@ == self.stages(),
    {
        &self.0
    }
}

impl<'a> PipelineLayoutBuilder<'a, 2> {
    /// A builder for a vertex and a pixel stage, in that order.
    pub fn from_vertex_pixel(shaders: (&'a AppShader, &'a AppShader)) -> (r: Self)
        ensures
            r.stages() == seq![shaders.0, shaders.1],
    {
        let r = PipelineLayoutBuilder([shaders.0, shaders.1]);
        assert(r.stages() =~= seq![shaders.0, shaders.1]);
        r
    }
}

} // verus!
