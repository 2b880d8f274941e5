use claude_gui::model_manager::{ModelFile, ModelManager, ModelManagerError, read_gguf_header};

fn header(magic: u32, version: u32, tensors: u64, metadata: u64) -> Vec<u8> {
    let mut h = Vec::new();
    h.extend_from_slice(&magic.to_le_bytes());
    h.extend_from_slice(&version.to_le_bytes());
    h.extend_from_slice(&tensors.to_le_bytes());
    h.extend_from_slice(&metadata.to_le_bytes());
    h
}

#[test]
fn test_parse_model_name() {
    let manager = ModelManager::new(".".to_string());

    let (quant, params, arch) = manager.parse_model_name("Qwen3-4B-Q4_K_M.gguf");
    assert_eq!(quant, "Q4_K_M");
    assert_eq!(params, "4B");
    assert_eq!(arch, "qwen3");

    let (quant, params, arch) = manager.parse_model_name("Qwen3-8B-Q4_K_M.gguf");
    assert_eq!(quant, "Q4_K_M");
    assert_eq!(params, "8B");
    assert_eq!(arch, "qwen3");
}

#[test]
fn test_estimate_context_length() {
    let manager = ModelManager::new(".".to_string());

    assert_eq!(manager.estimate_context_length("Qwen3-4B-Q4_K_M.gguf"), 262144);
    assert_eq!(manager.estimate_context_length("Qwen3-8B-Q4_K_M.gguf"), 131072);
    assert_eq!(manager.estimate_context_length("unknown-model.gguf"), 4096);
}

#[test]
fn parse_model_name_other_families() {
    let manager = ModelManager::new("models".to_string());
    assert_eq!(
        manager.parse_model_name("Llama-3-70B-Instruct.F16.gguf"),
        ("F16".to_string(), "70B".to_string(), "llama".to_string())
    );
    assert_eq!(
        manager.parse_model_name("mistral-7b-q8_0.gguf"),
        ("Q8_0".to_string(), "7B".to_string(), "mistral".to_string())
    );
    assert_eq!(
        manager.parse_model_name("plain.bin"),
        ("Unknown".to_string(), "Unknown".to_string(), "unknown".to_string())
    );
    assert_eq!(manager.estimate_context_length("GEMMA-2b.gguf"), 8192);
    assert_eq!(manager.estimate_context_length("Qwen3-1.7B.gguf"), 32768);
    assert_eq!(manager.estimate_context_length("llama3-8b.gguf"), 128000);
}

#[test]
fn new_manager_has_no_cached_models() {
    let manager = ModelManager::new("/data/models".to_string());
    assert_eq!(manager.models_dir(), "/data/models");
    assert!(manager.get_cached_models().is_empty());
}

#[test]
fn header_fields_are_little_endian() {
    let h = header(0x46554747, 3, 291, 24);
    assert_eq!(read_gguf_header(&h), Ok((3, 291, 24)));
}

#[test]
fn header_errors() {
    assert_eq!(
        read_gguf_header(&[1, 2]),
        Err(ModelManagerError::IoError("failed to fill whole buffer".to_string()))
    );
    let bad = header(0x12345678, 3, 1, 1);
    assert_eq!(
        read_gguf_header(&bad),
        Err(ModelManagerError::InvalidGGUF(
            "Invalid magic number: expected 46554747, got 12345678".to_string()
        ))
    );
    let short = &header(0x46554747, 3, 1, 1)[..10];
    assert_eq!(
        read_gguf_header(short),
        Err(ModelManagerError::IoError("failed to fill whole buffer".to_string()))
    );
}

#[test]
fn model_info_from_file() {
    let manager = ModelManager::new("/m".to_string());
    let file = ModelFile {
        file_name: "Qwen3-8B-Q5_K_M.gguf".to_string(),
        path: "/m/Qwen3-8B-Q5_K_M.gguf".to_string(),
        size_bytes: 500,
        header: header(0x46554747, 3, 7, 9),
    };
    let info = manager.get_model_info("Qwen3-8B-Q5_K_M.gguf", Some(file)).unwrap();
    assert_eq!(info.name, "Qwen3-8B-Q5_K_M.gguf");
    assert_eq!(info.size_human, "500 B");
    assert_eq!(info.quantization, "Q5_K_M");
    assert_eq!(info.parameters, "8B");
    assert_eq!(info.architecture, "qwen3");
    assert_eq!(info.context_length, 131072);
    assert_eq!((info.gguf_version, info.tensor_count, info.metadata_count), (3, 7, 9));
}

#[test]
fn missing_model_is_reported() {
    let manager = ModelManager::new("/m".to_string());
    let err = manager.get_model_info("nope.gguf", None).unwrap_err();
    assert_eq!(err, ModelManagerError::ModelNotFound("nope.gguf".to_string()));
    assert_eq!(err.message(), "Model not found: nope.gguf");
}

#[test]
fn model_info_reports_header_errors() {
    let manager = ModelManager::new("/m".to_string());
    let bad_magic = ModelFile {
        file_name: "x.gguf".to_string(),
        path: "/m/x.gguf".to_string(),
        size_bytes: 24,
        header: header(0x0, 3, 1, 1),
    };
    assert_eq!(
        manager.get_model_info("x.gguf", Some(bad_magic)).unwrap_err(),
        ModelManagerError::InvalidGGUF("Invalid magic number: expected 46554747, got 0".to_string())
    );
    let short = ModelFile {
        file_name: "y.gguf".to_string(),
        path: "/m/y.gguf".to_string(),
        size_bytes: 3,
        header: vec![0x47, 0x47, 0x55],
    };
    assert_eq!(
        manager.get_model_info("y.gguf", Some(short)).unwrap_err(),
        ModelManagerError::IoError("failed to fill whole buffer".to_string())
    );
}
