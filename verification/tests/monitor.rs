use ha_agent::monitor::microphone::is_microphone_in_use;
use ha_agent::monitor::webcam::is_webcam_in_use;
use ha_agent::watcher::Watcher;

#[test]
fn microphone_is_in_use_where_an_input_source_runs() {
    let listing = "0\talsa_output.pci-0000_00_1f.3.analog-stereo.monitor\tmodule-alsa-card.c\ts16le 2ch 44100Hz\tSUSPENDED\n1\talsa_input.pci-0000_00_1f.3.analog-stereo\tmodule-alsa-card.c\ts16le 2ch 44100Hz\tRUNNING\n";
    assert!(is_microphone_in_use(listing));
    assert!(is_microphone_in_use("RUNNING input"));
    assert!(is_microphone_in_use("input RUNNING"));
    assert!(is_microphone_in_use("\n\ninputRUNNING"));
    assert!(is_microphone_in_use("x\r\n1\talsa_input\tRUNNING\r\ny"));
}

#[test]
fn microphone_is_not_in_use_otherwise() {
    let listing = "0\talsa_output.pci-0000_00_1f.3.analog-stereo.monitor\tmodule-alsa-card.c\ts16le 2ch 44100Hz\tRUNNING\n1\talsa_input.pci-0000_00_1f.3.analog-stereo\tmodule-alsa-card.c\ts16le 2ch 44100Hz\tSUSPENDED\n";
    assert!(!is_microphone_in_use(listing));
    assert!(!is_microphone_in_use(""));
    assert!(!is_microphone_in_use("\n"));
    assert!(!is_microphone_in_use("RUNNING\ninput"));
    assert!(!is_microphone_in_use("input\nRUNNING\n"));
    assert!(!is_microphone_in_use("running input"));
    assert!(!is_microphone_in_use("RUNNIN input"));
    assert!(!is_microphone_in_use("RUNNING inpu"));
    assert!(!is_microphone_in_use("RUNNING Input"));
    assert!(!is_microphone_in_use("1\tm\u{00fc}ll_input\tIDLE"));
}

#[test]
fn microphone_answers_as_a_search_of_the_lines_does() {
    let listings = [
        "a\nRUNNING x input\nb",
        "inputRUNNINGinput",
        "RUNNINinputG\nRUNNING",
        "\u{00e9}RUNNING\u{00e9}input\u{00e9}",
        "RUNNING\r\ninput\r\n",
        "inRUNNINGput",
    ];
    for listing in listings {
        let expected = listing
            .lines()
            .filter(|line| line.contains("RUNNING") && line.contains("input"))
            .count()
            > 0;
        assert_eq!(is_microphone_in_use(listing), expected);
    }
}

#[test]
fn webcam_is_in_use_where_the_device_is_held_open() {
    assert!(is_webcam_in_use(b"COMMAND PID USER FD TYPE DEVICE SIZE/OFF NODE NAME\ncheese 1 u mem CHR 81,0 0 /dev/video0\n"));
    assert!(is_webcam_in_use(b"\n"));
    assert!(!is_webcam_in_use(b""));
}

#[test]
fn watcher_passes_on_changes_only() {
    let mut watcher = Watcher::new();

    assert_eq!(watcher.observe(false), None);
    assert_eq!(watcher.observe(true), Some(true));
    assert_eq!(watcher.observe(true), None);
    assert_eq!(watcher.observe(false), Some(false));
    assert_eq!(watcher.observe(false), None);
    assert_eq!(watcher, Watcher::new());
}
