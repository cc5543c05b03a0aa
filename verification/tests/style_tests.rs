use voiceloop::style::{parse_style, plain_request, styled_request};

#[test]
fn directive_splits_style_and_spoken_text() {
    let r = parse_style(":cheerful Hello there");
    assert_eq!(r.style.as_deref(), Some("cheerful"));
    assert_eq!(r.spoken, "Hello there");
}

#[test]
fn no_leading_colon_passes_through_unchanged() {
    let r = parse_style("Hello there");
    assert!(r.style.is_none());
    assert_eq!(r.spoken, "Hello there");
}

#[test]
fn directive_without_space_takes_whole_remainder_as_style() {
    let r = parse_style(":onlystyle");
    assert_eq!(r.style.as_deref(), Some("onlystyle"));
    assert_eq!(r.spoken, "");
}

#[test]
fn empty_input_has_no_directive() {
    let r = parse_style("");
    assert!(r.style.is_none());
    assert_eq!(r.spoken, "");
}

#[test]
fn styled_request_wraps_spoken_text_in_style_element() {
    let body = styled_request(":cheerful Hello there", "en-US-AriaNeural");
    assert_eq!(
        body,
        " <speak version='1.0' xmlns='http://www.w3.org/2001/10/synthesis' \
         xmlns:mstts='http://www.w3.org/2001/mstts' xml:lang='en-US'>\
         <voice name='en-US-AriaNeural'>\
         <mstts:express-as style='cheerful'>Hello there</mstts:express-as>\
         </voice></speak>"
    );
}

#[test]
fn styled_request_without_directive_uses_text_verbatim_and_default_voice() {
    let body = styled_request("Hello there", "");
    assert_eq!(
        body,
        " <speak version='1.0' xmlns='http://www.w3.org/2001/10/synthesis' \
         xmlns:mstts='http://www.w3.org/2001/mstts' xml:lang='en-US'>\
         <voice name='en-US-JasonNeural'>Hello there</voice></speak>"
    );
}

#[test]
fn plain_request_exact_form() {
    let body = plain_request("Hello \"you\"", "alloy");
    assert_eq!(
        body,
        "{\"model\": \"tts-1\", \"input\": \"Hello \\\"you\\\"\", \"voice\": \"alloy\"}"
    );
}

#[test]
fn plain_request_defaults_the_voice() {
    let body = plain_request("hi", "");
    assert_eq!(
        body,
        "{\"model\": \"tts-1\", \"input\": \"hi\", \"voice\": \"en-US-JasonNeural\"}"
    );
}
