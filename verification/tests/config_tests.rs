use audio_guide::config::{
    config_recordings, default_config, default_recordings, find_missing_recording, find_recording,
    has_recording, mode_recording, Config, InteractiveEntry, Mode, QnaEntry,
};

static DATA: [&[u8]; 11] = [
    b"a", b"b", b"c", b"d", b"e", b"f", b"g", b"h", b"i", b"j", b"k",
];

fn recordings() -> Vec<(String, &'static [u8])> {
    default_recordings(DATA.to_vec())
}

#[test]
fn mode_recordings_name_the_announcements() {
    assert_eq!(mode_recording(&Mode::Interactive), "activate_interactive.mp3");
    assert_eq!(mode_recording(&Mode::Qna), "activate_qna.mp3");
}

#[test]
fn default_config_holds_the_shipped_exhibits() {
    let c = default_config();
    assert_eq!(c.qna.len(), 3);
    assert_eq!(c.qna[0].name, "1");
    assert_eq!(c.qna[1].question, "question_2.mp3");
    assert_eq!(c.qna[2].correct_answer, "correct_answer_for_3.mp3");
    assert_eq!(c.qna[2].wrong_answer, "wrong_answer_3.mp3");
    assert_eq!((c.qna[1].led, c.qna[1].button), (1, 1));
    assert_eq!(c.interactive.len(), 3);
    assert_eq!(c.interactive[0].name, "cerebrum");
    assert_eq!(c.interactive[2].interactive, vec!["hindbrain_1.mp3".to_string(), "hindbrain_2.mp3".to_string()]);
    assert_eq!((c.interactive[2].led, c.interactive[2].button), (2, 2));
}

#[test]
fn default_recordings_pair_names_with_contents() {
    let r = recordings();
    assert_eq!(r.len(), 11);
    assert_eq!(r[0].0, "activate_interactive.mp3");
    assert_eq!(r[0].1, b"a");
    assert_eq!(r[3].0, "correct_answer_for_1.mp3");
    assert_eq!(r[10].0, "wrong_answer_3.mp3");
    assert_eq!(r[10].1, b"k");
}

#[test]
fn find_recording_takes_the_first_of_a_name() {
    let mut r = recordings();
    assert_eq!(find_recording(&r, "question_2.mp3"), Some(&b"f"[..]));
    assert_eq!(find_recording(&r, "cerebrum.mp3"), None);
    r.push(("question_2.mp3".to_string(), b"later"));
    assert_eq!(find_recording(&r, "question_2.mp3"), Some(&b"f"[..]));
    assert!(has_recording(&r, &"wrong_answer_1.mp3".to_string()));
    assert!(!has_recording(&r, &"medulla.mp3".to_string()));
}

#[test]
fn shipped_recordings_lack_the_interactive_ones() {
    let missing = find_missing_recording(&default_config(), &recordings());
    assert_eq!(missing, Some("cerebrum.mp3".to_string()));
}

#[test]
fn config_recordings_come_in_checking_order() {
    let names = config_recordings(&default_config());
    assert_eq!(names.len(), 4 + 9);
    assert_eq!(names[0], "cerebrum.mp3");
    assert_eq!(names[3], "hindbrain_2.mp3");
    assert_eq!(names[4], "question_1.mp3");
    assert_eq!(names[5], "correct_answer_for_1.mp3");
    assert_eq!(names[12], "wrong_answer_3.mp3");
}

#[test]
fn a_config_with_all_recordings_has_none_missing() {
    let config = Config {
        qna: vec![QnaEntry {
            name: "1".to_string(),
            question: "question_1.mp3".to_string(),
            led: 0,
            button: 0,
            correct_answer: "correct_answer_for_1.mp3".to_string(),
            wrong_answer: "wrong_answer_1.mp3".to_string(),
        }],
        interactive: vec![InteractiveEntry {
            name: "intro".to_string(),
            interactive: vec!["activate_qna.mp3".to_string()],
            led: 0,
            button: 0,
        }],
    };
    assert_eq!(find_missing_recording(&config, &recordings()), None);
    let mut partial = recordings();
    partial.remove(4);
    assert_eq!(find_missing_recording(&config, &partial), Some("wrong_answer_1.mp3".to_string()));
}

#[test]
fn every_mode_announcement_is_loaded() {
    let r = recordings();
    for mode in [Mode::Interactive, Mode::Qna] {
        assert!(find_recording(&r, mode_recording(&mode)).is_some());
    }
}
