use pappap_node::snn_core::{
    clamp_neuron_count, detect_vietnamese, greeting_reply, has_marked_letter_exec, SNNCore, MAX_NEURONS,
    MIN_NEURONS,
};

#[test]
fn neuron_count_is_clamped() {
    assert_eq!(clamp_neuron_count(0), 5000);
    assert_eq!(clamp_neuron_count(4999), 5000);
    assert_eq!(clamp_neuron_count(64000), 64000);
    assert_eq!(clamp_neuron_count(112384), 112384);
    assert_eq!(clamp_neuron_count(112385), 112384);
    assert_eq!(clamp_neuron_count(usize::MAX), 112384);
}

#[test]
fn core_keeps_its_clamped_count() {
    assert_eq!(SNNCore::new(1).neuron_count(), MIN_NEURONS);
    assert_eq!(SNNCore::new(70000).neuron_count(), 70000);
    assert_eq!(SNNCore::new(10_000_000).neuron_count(), MAX_NEURONS);
}

#[test]
fn english_greeting() {
    let core = SNNCore::new(8000);
    let (lang, reply) = core.detect_and_translate("Hello there");
    assert_eq!(lang, "en");
    assert_eq!(reply, "Hello master! Pappap AI Chain SNN is ready. My brain has 112384 living neurons for you!");
}

#[test]
fn vietnamese_greeting_by_marked_letter() {
    let core = SNNCore::new(8000);
    let (lang, reply) = core.detect_and_translate("Chào bạn");
    assert_eq!(lang, "vi");
    assert!(reply.starts_with("Xin chào chủ nhân!"));
}

#[test]
fn vietnamese_greeting_by_word_after_lowercasing() {
    // No character at or beyond 0xC0: only the lowercase form holds "xin".
    let core = SNNCore::new(8000);
    let (lang, _) = core.detect_and_translate("XIN CHAO");
    assert_eq!(lang, "vi");
}

#[test]
fn marker_word_inside_english_word_counts() {
    let core = SNNCore::new(8000);
    let (lang, _) = core.detect_and_translate("show them the system");
    assert_eq!(lang, "vi");
}

#[test]
fn marked_letter_threshold() {
    assert!(!has_marked_letter_exec("\u{bf}"));
    assert!(has_marked_letter_exec("\u{c0}"));
    assert!(!has_marked_letter_exec(""));
}

#[test]
fn detection_from_text_and_lowercase() {
    assert!(detect_vietnamese("ANH", "anh"));
    assert!(!detect_vietnamese("ANH", "ANH"));
    assert!(!detect_vietnamese("good day", "good day"));
}

#[test]
fn greeting_codes() {
    assert_eq!(greeting_reply(true).0, "vi");
    assert_eq!(greeting_reply(false).0, "en");
}

#[test]
fn more_text_keeps_a_vietnamese_verdict() {
    let core = SNNCore::new(8000);
    assert_eq!(core.detect_and_translate("XIN").0, "vi");
    assert_eq!(core.detect_and_translate("XIN and more words").0, "vi");
    assert_eq!(core.detect_and_translate("words before XIN").0, "vi");
    assert_eq!(core.detect_and_translate("tôi").0, "vi");
    assert_eq!(core.detect_and_translate("hello tôi").0, "vi");
}
