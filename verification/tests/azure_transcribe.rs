use voice_dictation::azure_transcribe::{
    transcription_outcome, transcription_request, TranscriptionRequest, PROMPT, UPLOAD_FILE_NAME,
    UPLOAD_MIME,
};
use voice_dictation::config::Config;

fn full() -> Config {
    let mut cfg = Config::default();
    cfg.azure.endpoint = "https://example.openai.azure.com".to_string();
    cfg.azure.deployment = "whisper".to_string();
    cfg.azure.api_key = "k3y".to_string();
    cfg
}

#[test]
fn builds_the_address() {
    assert_eq!(
        transcription_request(&full()),
        Ok(TranscriptionRequest {
            url: "https://example.openai.azure.com/openai/deployments/whisper/audio/transcriptions?api-version=2025-03-01-preview".to_string(),
            api_key: "k3y".to_string(),
        })
    );
}

#[test]
fn trims_the_settings() {
    let mut cfg = full();
    cfg.azure.endpoint = "  https://host/base///  ".to_string();
    cfg.azure.deployment = "\tdep\n".to_string();
    cfg.azure.api_version = " v1 ".to_string();
    cfg.azure.api_key = " key with blank ".to_string();
    assert_eq!(
        transcription_request(&cfg),
        Ok(TranscriptionRequest {
            url: "https://host/base/openai/deployments/dep/audio/transcriptions?api-version=v1".to_string(),
            api_key: "key with blank".to_string(),
        })
    );
}

#[test]
fn blanks_before_trailing_slashes_stay() {
    let mut cfg = full();
    cfg.azure.endpoint = "https://host /".to_string();
    assert_eq!(
        transcription_request(&cfg).map(|r| r.url),
        Ok("https://host /openai/deployments/whisper/audio/transcriptions?api-version=2025-03-01-preview".to_string())
    );
}

#[test]
fn missing_api_key() {
    let mut cfg = full();
    cfg.azure.api_key = "  ".to_string();
    assert_eq!(transcription_request(&cfg), Err("Azure apiKey is empty".to_string()));
    assert_eq!(transcription_request(&Config::default()), Err("Azure apiKey is empty".to_string()));
}

#[test]
fn missing_endpoint() {
    let mut cfg = full();
    cfg.azure.endpoint = " ".to_string();
    assert_eq!(transcription_request(&cfg), Err("Azure endpoint is empty".to_string()));
    cfg.azure.endpoint = " /// ".to_string();
    assert_eq!(transcription_request(&cfg), Err("Azure endpoint is empty".to_string()));
    cfg.azure.deployment = String::new();
    assert_eq!(transcription_request(&cfg), Err("Azure endpoint is empty".to_string()));
}

#[test]
fn missing_deployment() {
    let mut cfg = full();
    cfg.azure.deployment = "\n".to_string();
    assert_eq!(transcription_request(&cfg), Err("Azure deployment is empty".to_string()));
    cfg.azure.api_version = String::new();
    assert_eq!(transcription_request(&cfg), Err("Azure deployment is empty".to_string()));
}

#[test]
fn missing_api_version() {
    let mut cfg = full();
    cfg.azure.api_version = String::new();
    assert_eq!(transcription_request(&cfg), Err("Azure apiVersion is empty".to_string()));
}

#[test]
fn failed_answer_quotes_status_and_body() {
    assert_eq!(
        transcription_outcome(false, "401 Unauthorized", "{\"error\":\"bad key\"}", Err("ignored".to_string())),
        Err("transcription failed (401 Unauthorized): {\"error\":\"bad key\"}".to_string())
    );
    assert_eq!(
        transcription_outcome(false, "500 Internal Server Error", "", Ok("text".to_string())),
        Err("transcription failed (500 Internal Server Error): ".to_string())
    );
}

#[test]
fn good_answer_gives_the_text() {
    assert_eq!(
        transcription_outcome(true, "200 OK", "{\"text\":\"hello world\"}", Ok("hello world".to_string())),
        Ok("hello world".to_string())
    );
}

#[test]
fn undecoded_answer_gives_the_reason() {
    assert_eq!(
        transcription_outcome(true, "200 OK", "oops", Err("expected value at line 1 column 1".to_string())),
        Err("failed to parse response json: expected value at line 1 column 1".to_string())
    );
}

#[test]
fn upload_constants() {
    assert_eq!(UPLOAD_FILE_NAME, "recording.wav");
    assert_eq!(UPLOAD_MIME, "audio/wav");
    assert_eq!(
        PROMPT,
        "Use Simplified Chinese for Chinese words; keep English words as-is; preserve punctuation and code."
    );
}
