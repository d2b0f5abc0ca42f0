//! Shader handling: compiled shaders and the framing of their bytecode.

use vstd::prelude::*;

verus! {

/// Represents a type of shader (e.g Vertex, Fragment)
#[derive(Debug, Copy, Clone, PartialEq, Eq, Hash, Structural)]
pub enum ShaderType {
    Vertex,
    Fragment,
}

/// Why the bytes of a shader are no SPIR-V module.
#[derive(Debug, Copy, Clone, PartialEq, Eq, Hash, Structural)]
pub enum ShaderError {
    /// There are no bytes at all.
    Empty,
    /// The number of bytes is not a multiple of four.
    UnevenLength,
    /// The first word is not the magic number, in neither byte order.
    WrongMagicNumber,
}

/// The first word of every SPIR-V module.
pub const SPIRV_MAGIC_NUMBER: u32 = 0x0723_0203;

/// The file name extension that a shader source of the given type carries.
pub fn expected_extension(shader_type: ShaderType) -> (extension: &'static str)
    ensures
        extension@ == (match shader_type {
            ShaderType::Vertex => "vert"@,
            ShaderType::Fragment => "frag"@,
        }),
{
    match shader_type {
        ShaderType::Vertex => "vert",
        ShaderType::Fragment => "frag",
    }
}

/// The word made of four bytes, the first of them the least significant.
pub open spec fn word_le(b0: u8, b1: u8, b2: u8, b3: u8) -> u32 {
    (b0 as int + 0x100 * (b1 as int) + 0x1_0000 * (b2 as int) + 0x100_0000 * (b3 as int)) as u32
}

/// The words that `bytes` hold, four bytes to a word, in little endian
/// (`swapped` false) or big endian (`swapped` true) byte order.
pub open spec fn words_of(bytes: Seq<u8>, swapped: bool) -> Seq<u32> {
    Seq::new(
        (bytes.len() / 4) as nat,
        |i: int|
            if swapped {
                word_le(bytes[4 * i + 3], bytes[4 * i + 2], bytes[4 * i + 1], bytes[4 * i])
            } else {
                word_le(bytes[4 * i], bytes[4 * i + 1], bytes[4 * i + 2], bytes[4 * i + 3])
            },
    )
}

/// The SPIR-V module that `bytes` frame: its words in the byte order in
/// which the first word is the magic number, little endian if both are.
pub open spec fn spirv_module(bytes: Seq<u8>) -> Result<Seq<u32>, ShaderError> {
    if bytes.len() == 0 {
        Err(ShaderError::Empty)
    } else if bytes.len() % 4 != 0 {
        Err(ShaderError::UnevenLength)
    } else if words_of(bytes, false)[0] == SPIRV_MAGIC_NUMBER {
        Ok(words_of(bytes, false))
    } else if words_of(bytes, true)[0] == SPIRV_MAGIC_NUMBER {
        Ok(words_of(bytes, true))
    } else {
        Err(ShaderError::WrongMagicNumber)
    }
}

fn word_at(bytes: &[u8], i: usize, swapped: bool) -> (word: u32)
    requires
        4 * i + 3 < bytes@.len(),
    ensures
        word == words_of(bytes@, swapped)[i as int],
{
    let len = bytes.len();
    let b0: u32 = bytes[4 * i] as u32;
    let b1: u32 = bytes[4 * i + 1] as u32;
    let b2: u32 = bytes[4 * i + 2] as u32;
    let b3: u32 = bytes[4 * i + 3] as u32;
    if swapped {
        b3 + 0x100 * b2 + 0x1_0000 * b1 + 0x100_0000 * b0
    } else {
        b0 + 0x100 * b1 + 0x1_0000 * b2 + 0x100_0000 * b3
    }
}

/// A compiled shader: its type and its bytecode.
#[derive(Debug)]
pub struct Shader {
    shader_type: ShaderType,
    binary: Vec<u8>,
}

impl Shader {
    /// The type of the shader.
    pub closed spec fn kind(&self) -> ShaderType {
        self.shader_type
    }

    /// The bytecode of the shader.
    pub closed spec fn view(&self) -> Seq<u8> {
        self.binary@
    }

    /// The shader of the given type with the given bytecode.
    pub fn new(shader_type: ShaderType, binary: Vec<u8>) -> (shader: Self)
        ensures
            shader.kind() == shader_type,
            shader@ == binary@,
    {
        Shader { shader_type, binary }
    }

    /// The type of the shader.
    pub fn shader_type(&self) -> (shader_type: ShaderType)
        ensures
            shader_type == self.kind(),
    {
        self.shader_type
    }

    /// The bytecode of the shader.
    pub fn as_ref(&self) -> (binary: &[u8])
        ensures
            binary@ == self@,
    {
        self.binary.as_slice()
    }

    /// The bytecode as the words of a SPIR-V module, or the reason why it
    /// is none.
    pub fn spirv_words(&self) -> (words: Result<Vec<u32>, ShaderError>)
        ensures
            match words {
                Ok(w) => spirv_module(self@) == Ok::<Seq<u32>, ShaderError>(w@),
                Err(e) => spirv_module(self@) == Err::<Seq<u32>, ShaderError>(e),
            },
    {
        let bytes = self.binary.as_slice();
        let len = bytes.len();
        if len == 0 {
            return Err(ShaderError::Empty);
        }
        if len % 4 != 0 {
            return Err(ShaderError::UnevenLength);
        }
        let swapped = if word_at(bytes, 0, false) == SPIRV_MAGIC_NUMBER {
            false
        } else if word_at(bytes, 0, true) == SPIRV_MAGIC_NUMBER {
            true
        } else {
            return Err(ShaderError::WrongMagicNumber);
        };
        let count = len / 4;
        let mut words: Vec<u32> = Vec::with_capacity(count);
        let mut i: usize = 0;
        while i < count
            invariant
                bytes@ == self@,
                len == bytes@.len(),
                len % 4 == 0,
                count == len / 4,
                i <= count,
                words@ == words_of(bytes@, swapped).subrange(0, i as int),
            decreases count - i,
        {
            let word = word_at(bytes, i, swapped);
            words.push(word);
            i += 1;
            assert(words@ =~= words_of(bytes@, swapped).subrange(0, i as int));
        }
        assert(words@ =~= words_of(bytes@, swapped));
        Ok(words)
    }
}

} // verus!
