//! Metadata of GGUF model files: the header fields, and what a file name
//! tells about quantization, size, architecture and context length.

use vstd::prelude::*;
use vstd::bytes::{spec_u32_from_le_bytes, spec_u64_from_le_bytes, u32_from_le_bytes, u64_from_le_bytes};
use vstd::slice::slice_subrange;
use vstd::string::StringExecFns;

use crate::text::{has_infix, hex, hex_text, lower_of, lowercase, str_contains};

verus! {

/// The first four bytes of every GGUF file, read as a little-endian integer.
pub const GGUF_MAGIC: u32 = 0x46554747;

/// What can go wrong when reading model files.
#[derive(Debug, Clone, PartialEq, Eq)]
pub enum ModelManagerError {
    DirectoryNotFound(String),
    FileReadError(String),
    InvalidGGUF(String),
    IoError(String),
    ModelNotFound(String),
}

impl ModelManagerError {
    /// A sentence describing the error.
    pub fn message(&self) -> (r: String)
        ensures
            r@ == error_message(*self),
    {
        let (prefix, detail) = match self {
            ModelManagerError::DirectoryNotFound(d) => ("Models directory not found: ", d),
            ModelManagerError::FileReadError(d) => ("Failed to read model file: ", d),
            ModelManagerError::InvalidGGUF(d) => ("Invalid GGUF file: ", d),
            ModelManagerError::IoError(d) => ("IO error: ", d),
            ModelManagerError::ModelNotFound(d) => ("Model not found: ", d),
        };
        let mut r = prefix.to_string();
        r.append(detail.as_str());
        r
    }
}

/// The sentence describing `e`.
pub open spec fn error_message(e: ModelManagerError) -> Seq<char> {
    match e {
        ModelManagerError::DirectoryNotFound(d) => "Models directory not found: "@ + d@,
        ModelManagerError::FileReadError(d) => "Failed to read model file: "@ + d@,
        ModelManagerError::InvalidGGUF(d) => "Invalid GGUF file: "@ + d@,
        ModelManagerError::IoError(d) => "IO error: "@ + d@,
        ModelManagerError::ModelNotFound(d) => "Model not found: "@ + d@,
    }
}

/// Information about a GGUF model file.
#[derive(Debug, Clone)]
pub struct GGUFModelInfo {
    pub name: String,
    pub path: String,
    pub size_bytes: u64,
    pub size_human: String,
    pub quantization: String,
    pub parameters: String,
    pub context_length: u32,
    pub architecture: String,
    pub gguf_version: u32,
    pub tensor_count: u64,
    pub metadata_count: u64,
}

/// What was read from a model file: its name, full path, size and first bytes.
#[derive(Debug, Clone)]
pub struct ModelFile {
    pub file_name: String,
    pub path: String,
    pub size_bytes: u64,
    pub header: Vec<u8>,
}

/// The human-readable text that `bytesize` gives for a size in bytes.
pub uninterp spec fn byte_size_text(n: u64) -> Seq<char>;

/// Relies on bytesize::ByteSize::b and its `Display`: the text depends on the
/// number alone.
#[verifier::external_body]
fn human_size(n: u64) -> (r: String)
    ensures
        r@ == byte_size_text(n),
{
    bytesize::ByteSize::b(n).to_string()
}

/// The message of a read that ran out of bytes.
pub open spec fn short_read_message() -> Seq<char> {
    "failed to fill whole buffer"@
}

/// The magic number of a header with at least four bytes.
pub open spec fn header_magic(h: Seq<u8>) -> u32 {
    spec_u32_from_le_bytes(h.subrange(0, 4))
}

/// The message for a header whose magic number is `magic`.
pub open spec fn bad_magic_message(magic: u32) -> Seq<char> {
    "Invalid magic number: expected "@ + hex(GGUF_MAGIC as nat) + ", got "@ + hex(magic as nat)
}

/// What reading a GGUF header from `h` gives: version, tensor count and
/// metadata count.
pub open spec fn header_fields(h: Seq<u8>) -> (u32, u64, u64) {
    (
        spec_u32_from_le_bytes(h.subrange(4, 8)),
        spec_u64_from_le_bytes(h.subrange(8, 16)),
        spec_u64_from_le_bytes(h.subrange(16, 24)),
    )
}

/// Whether `h` is too short, or has the wrong magic number, for a GGUF header.
pub open spec fn header_is_bad(h: Seq<u8>) -> bool {
    h.len() < 4 || header_magic(h) != GGUF_MAGIC || h.len() < 24
}

/// `e` is the error that reading the bad GGUF header `h` gives: a short read
/// before the magic number, a wrong magic number, or a short read after it.
pub open spec fn header_error_is(h: Seq<u8>, e: ModelManagerError) -> bool {
    if h.len() < 4 {
        e matches ModelManagerError::IoError(m) && m@ == short_read_message()
    } else if header_magic(h) != GGUF_MAGIC {
        e matches ModelManagerError::InvalidGGUF(m) && m@ == bad_magic_message(header_magic(h))
    } else {
        e matches ModelManagerError::IoError(m) && m@ == short_read_message()
    }
}

/// `info` describes the model file `f`.
pub open spec fn describes(info: GGUFModelInfo, f: ModelFile) -> bool {
    &&& info.name@ == f.file_name@
    &&& info.path@ == f.path@
    &&& info.size_bytes == f.size_bytes
    &&& info.size_human@ == byte_size_text(f.size_bytes)
    &&& info.quantization@ == quantization_of(lower_of(f.file_name@))
    &&& info.parameters@ == parameters_of(lower_of(f.file_name@))
    &&& info.architecture@ == architecture_of(lower_of(f.file_name@))
    &&& info.context_length == context_length_of(lower_of(f.file_name@))
    &&& (info.gguf_version, info.tensor_count, info.metadata_count) == header_fields(f.header@)
}

/// Reads the fixed part of a GGUF header: the magic number, then version,
/// tensor count and metadata count, all little-endian.
pub fn read_gguf_header(h: &[u8]) -> (r: Result<(u32, u64, u64), ModelManagerError>)
    ensures
        h@.len() < 4 ==> (r matches Err(ModelManagerError::IoError(m)) && m@
            == short_read_message()),
        h@.len() >= 4 && header_magic(h@) != GGUF_MAGIC ==> (r matches Err(
            ModelManagerError::InvalidGGUF(m),
        ) && m@ == bad_magic_message(header_magic(h@))),
        h@.len() >= 4 && header_magic(h@) == GGUF_MAGIC && h@.len() < 24 ==> (r matches Err(
            ModelManagerError::IoError(m),
        ) && m@ == short_read_message()),
        h@.len() >= 24 && header_magic(h@) == GGUF_MAGIC ==> r == Ok::<
            (u32, u64, u64),
            ModelManagerError,
        >(header_fields(h@)),
{
    if h.len() < 4 {
        return Err(ModelManagerError::IoError("failed to fill whole buffer".to_string()));
    }
    let magic = u32_from_le_bytes(slice_subrange(h, 0, 4));
    if magic != GGUF_MAGIC {
        let mut m = "Invalid magic number: expected ".to_string();
        m.append(hex_text(GGUF_MAGIC as u64).as_str());
        m.append(", got ");
        m.append(hex_text(magic as u64).as_str());
        return Err(ModelManagerError::InvalidGGUF(m));
    }
    if h.len() < 24 {
        return Err(ModelManagerError::IoError("failed to fill whole buffer".to_string()));
    }
    let version = u32_from_le_bytes(slice_subrange(h, 4, 8));
    let tensors = u64_from_le_bytes(slice_subrange(h, 8, 16));
    let metadata = u64_from_le_bytes(slice_subrange(h, 16, 24));
    Ok((version, tensors, metadata))
}

/// The quantization named in a lowercased file name.
pub open spec fn quantization_of(l: Seq<char>) -> Seq<char> {
    if has_infix(l, "q4_k_m"@) {
        "Q4_K_M"@
    } else if has_infix(l, "q4_k_s"@) {
        "Q4_K_S"@
    } else if has_infix(l, "q5_k_m"@) {
        "Q5_K_M"@
    } else if has_infix(l, "q5_k_s"@) {
        "Q5_K_S"@
    } else if has_infix(l, "q6_k"@) {
        "Q6_K"@
    } else if has_infix(l, "q8_0"@) {
        "Q8_0"@
    } else if has_infix(l, "q4_0"@) {
        "Q4_0"@
    } else if has_infix(l, "f16"@) {
        "F16"@
    } else if has_infix(l, "f32"@) {
        "F32"@
    } else {
        "Unknown"@
    }
}

/// The parameter count named in a lowercased file name.
pub open spec fn parameters_of(l: Seq<char>) -> Seq<char> {
    if has_infix(l, "1.5b"@) || has_infix(l, "1_5b"@) {
        "1.5B"@
    } else if has_infix(l, "3b"@) {
        "3B"@
    } else if has_infix(l, "7b"@) {
        "7B"@
    } else if has_infix(l, "8b"@) {
        "8B"@
    } else if has_infix(l, "13b"@) {
        "13B"@
    } else if has_infix(l, "14b"@) {
        "14B"@
    } else if has_infix(l, "32b"@) {
        "32B"@
    } else if has_infix(l, "70b"@) {
        "70B"@
    } else if has_infix(l, "4b"@) {
        "4B"@
    } else {
        "Unknown"@
    }
}

/// The architecture named in a lowercased file name.
pub open spec fn architecture_of(l: Seq<char>) -> Seq<char> {
    if has_infix(l, "qwen3"@) {
        "qwen3"@
    } else if has_infix(l, "llama"@) {
        "llama"@
    } else if has_infix(l, "qwen"@) {
        "qwen2"@
    } else if has_infix(l, "deepseek"@) {
        "deepseek"@
    } else if has_infix(l, "mistral"@) {
        "mistral"@
    } else if has_infix(l, "phi"@) {
        "phi"@
    } else if has_infix(l, "gemma"@) {
        "gemma"@
    } else if has_infix(l, "codellama"@) {
        "codellama"@
    } else {
        "unknown"@
    }
}

/// The context length usual for the model family in a lowercased file name.
pub open spec fn context_length_of(l: Seq<char>) -> u32 {
    if has_infix(l, "qwen3"@) {
        if has_infix(l, "4b"@) {
            262144
        } else if has_infix(l, "0.6b"@) || has_infix(l, "1.7b"@) {
            32768
        } else {
            131072
        }
    } else if has_infix(l, "llama-3"@) || has_infix(l, "llama3"@) {
        128000
    } else if has_infix(l, "qwen2.5"@) || has_infix(l, "qwen2-5"@) {
        32768
    } else if has_infix(l, "qwen2"@) {
        32768
    } else if has_infix(l, "deepseek"@) {
        32768
    } else if has_infix(l, "mistral"@) {
        32768
    } else if has_infix(l, "phi-3"@) || has_infix(l, "phi3"@) {
        128000
    } else if has_infix(l, "gemma"@) {
        8192
    } else {
        4096
    }
}

/// The quantization named in a lowercased file name.
pub fn quantization_from_lower(lower: &str) -> (r: String)
    ensures
        r@ == quantization_of(lower@),
{
    let r = if str_contains(lower, "q4_k_m") {
        "Q4_K_M"
    } else if str_contains(lower, "q4_k_s") {
        "Q4_K_S"
    } else if str_contains(lower, "q5_k_m") {
        "Q5_K_M"
    } else if str_contains(lower, "q5_k_s") {
        "Q5_K_S"
    } else if str_contains(lower, "q6_k") {
        "Q6_K"
    } else if str_contains(lower, "q8_0") {
        "Q8_0"
    } else if str_contains(lower, "q4_0") {
        "Q4_0"
    } else if str_contains(lower, "f16") {
        "F16"
    } else if str_contains(lower, "f32") {
        "F32"
    } else {
        "Unknown"
    };
    r.to_string()
}

/// The parameter count named in a lowercased file name.
pub fn parameters_from_lower(lower: &str) -> (r: String)
    ensures
        r@ == parameters_of(lower@),
{
    let r = if str_contains(lower, "1.5b") || str_contains(lower, "1_5b") {
        "1.5B"
    } else if str_contains(lower, "3b") {
        "3B"
    } else if str_contains(lower, "7b") {
        "7B"
    } else if str_contains(lower, "8b") {
        "8B"
    } else if str_contains(lower, "13b") {
        "13B"
    } else if str_contains(lower, "14b") {
        "14B"
    } else if str_contains(lower, "32b") {
        "32B"
    } else if str_contains(lower, "70b") {
        "70B"
    } else if str_contains(lower, "4b") {
        "4B"
    } else {
        "Unknown"
    };
    r.to_string()
}

/// The architecture named in a lowercased file name.
pub fn architecture_from_lower(lower: &str) -> (r: String)
    ensures
        r@ == architecture_of(lower@),
{
    let r = if str_contains(lower, "qwen3") {
        "qwen3"
    } else if str_contains(lower, "llama") {
        "llama"
    } else if str_contains(lower, "qwen") {
        "qwen2"
    } else if str_contains(lower, "deepseek") {
        "deepseek"
    } else if str_contains(lower, "mistral") {
        "mistral"
    } else if str_contains(lower, "phi") {
        "phi"
    } else if str_contains(lower, "gemma") {
        "gemma"
    } else if str_contains(lower, "codellama") {
        "codellama"
    } else {
        "unknown"
    };
    r.to_string()
}

/// The context length usual for the model family in a lowercased file name.
pub fn context_length_from_lower(lower: &str) -> (r: u32)
    ensures
        r == context_length_of(lower@),
{
    if str_contains(lower, "qwen3") {
        if str_contains(lower, "4b") {
            262144
        } else if str_contains(lower, "0.6b") || str_contains(lower, "1.7b") {
            32768
        } else {
            131072
        }
    } else if str_contains(lower, "llama-3") || str_contains(lower, "llama3") {
        128000
    } else if str_contains(lower, "qwen2.5") || str_contains(lower, "qwen2-5") {
        32768
    } else if str_contains(lower, "qwen2") {
        32768
    } else if str_contains(lower, "deepseek") {
        32768
    } else if str_contains(lower, "mistral") {
        32768
    } else if str_contains(lower, "phi-3") || str_contains(lower, "phi3") {
        128000
    } else if str_contains(lower, "gemma") {
        8192
    } else {
        4096
    }
}

/// Finds and describes GGUF model files under one directory.
pub struct ModelManager {
    models_dir: String,
    cached_models: Vec<GGUFModelInfo>,
}

impl ModelManager {
    /// The models directory.
    pub closed spec fn spec_models_dir(&self) -> Seq<char> {
        self.models_dir@
    }

    /// The models found by the last scan.
    pub closed spec fn spec_cached(&self) -> Seq<GGUFModelInfo> {
        self.cached_models@
    }

    /// A manager for `models_dir`, with no models found yet.
    pub fn new(models_dir: String) -> (r: Self)
        ensures
            r.spec_models_dir() == models_dir@,
            r.spec_cached().len() == 0,
    {
        ModelManager { models_dir, cached_models: Vec::new() }
    }

    /// The models directory.
    pub fn models_dir(&self) -> (r: &str)
        ensures
            r@ == self.spec_models_dir(),
    {
        self.models_dir.as_str()
    }

    /// The models found by the last scan.
    pub fn get_cached_models(&self) -> (r: &[GGUFModelInfo])
        ensures
            r@ == self.spec_cached(),
    {
        self.cached_models.as_slice()
    }

    /// Keeps the models found by a scan.
    pub fn cache_models(&mut self, models: Vec<GGUFModelInfo>)
        ensures
            final(self).spec_cached() == models@,
            final(self).spec_models_dir() == old(self).spec_models_dir(),
    {
        self.cached_models = models;
    }

    /// The description of a model file: its header fields, its size in
    /// bytes and in words, and what its name tells.
    pub fn parse_gguf_info(&self, file: &ModelFile) -> (r: Result<GGUFModelInfo, ModelManagerError>)
        ensures
            header_is_bad(file.header@) <==> r is Err,
            r matches Err(e) ==> header_error_is(file.header@, e),
            r matches Ok(info) ==> describes(info, *file),
    {
        let (gguf_version, tensor_count, metadata_count) = match read_gguf_header(
            file.header.as_slice(),
        ) {
            Ok(fields) => fields,
            Err(e) => {
                return Err(e);
            },
        };
        let (quantization, parameters, architecture) = self.parse_model_name(
            file.file_name.as_str(),
        );
        let context_length = self.estimate_context_length(file.file_name.as_str());
        Ok(
            GGUFModelInfo {
                name: file.file_name.clone(),
                path: file.path.clone(),
                size_bytes: file.size_bytes,
                size_human: human_size(file.size_bytes),
                quantization,
                parameters,
                context_length,
                architecture,
                gguf_version,
                tensor_count,
                metadata_count,
            },
        )
    }

    /// The description of the model named `name_or_path`, given what was
    /// read of its file: `ModelNotFound` when there is no such file.
    pub fn get_model_info(&self, name_or_path: &str, file: Option<ModelFile>) -> (r: Result<
        GGUFModelInfo,
        ModelManagerError,
    >)
        ensures
            file is None ==> (r matches Err(ModelManagerError::ModelNotFound(m)) && m@
                == name_or_path@),
            file matches Some(f) ==> (header_is_bad(f.header@) <==> r is Err),
            file matches Some(f) ==> (r matches Err(e) ==> header_error_is(f.header@, e)),
            file matches Some(f) ==> (r matches Ok(info) ==> describes(info, f)),
    {
        match file {
            None => Err(ModelManagerError::ModelNotFound(name_or_path.to_string())),
            Some(f) => self.parse_gguf_info(&f),
        }
    }

    /// Quantization, parameter count and architecture named in a file name,
    /// whatever its case.
    pub fn parse_model_name(&self, filename: &str) -> (r: (String, String, String))
        ensures
            r.0@ == quantization_of(lower_of(filename@)),
            r.1@ == parameters_of(lower_of(filename@)),
            r.2@ == architecture_of(lower_of(filename@)),
    {
        let lower = lowercase(filename);
        (
            quantization_from_lower(lower.as_str()),
            parameters_from_lower(lower.as_str()),
            architecture_from_lower(lower.as_str()),
        )
    }

    /// The context length usual for the model family in a file name,
    /// whatever its case.
    pub fn estimate_context_length(&self, filename: &str) -> (r: u32)
        ensures
            r == context_length_of(lower_of(filename@)),
    {
        let lower = lowercase(filename);
        context_length_from_lower(lower.as_str())
    }
}

} // verus!
