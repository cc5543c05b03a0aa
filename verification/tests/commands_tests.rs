use voiceloop::commands::{bearer_header, capture_args, player_args, synthesis_url};

#[test]
fn bearer_header_prefixes_the_key() {
    assert_eq!(bearer_header("sk-123"), "Bearer sk-123");
}

#[test]
fn synthesis_url_scopes_the_region() {
    assert_eq!(
        synthesis_url("westus"),
        "https://westus.tts.speech.microsoft.com/cognitiveservices/v1"
    );
}

#[test]
fn capture_args_exact_list() {
    assert_eq!(
        capture_args("alsa", "default", "out.wav"),
        vec!["-y", "-loglevel", "error", "-f", "alsa", "-i", "default", "out.wav"]
    );
}

#[test]
fn player_args_exact_list() {
    assert_eq!(player_args(), vec!["-", "--no-terminal"]);
}
