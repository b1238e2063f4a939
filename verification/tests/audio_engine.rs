use riff::audio_engine::{
    chain_summary, MixController, MixProcessor, MonoController, MonoProcessor, PanController,
    PitchController,
};

#[test]
fn disabled_processor_is_inactive() {
    let processor = MonoProcessor::new(MonoController::new(false));
    assert!(!processor.is_active());
}

#[test]
fn enabled_processor_is_active() {
    let processor = MonoProcessor::new(MonoController::new(true));
    assert!(processor.is_active());
}

#[test]
fn mono_processor_sees_live_updates() {
    let controller = MonoController::new(false);
    let mut processor = MonoProcessor::new(controller.share());
    assert!(!processor.is_active());
    assert!(!processor.downmixes(2));
    controller.update(true);
    processor.refresh();
    assert!(processor.is_active());
    assert!(processor.downmixes(2));
    assert!(!processor.downmixes(1));
    assert_eq!(controller.generation(), 1);
    assert_eq!(processor.name(), "mono");
}

#[test]
fn observe_ignores_an_unchanged_generation() {
    let mut processor = MonoProcessor::with_state(MonoController::new(false), false, 3);
    processor.observe(3, true);
    assert!(!processor.is_active());
    processor.observe(4, true);
    assert!(processor.is_active());
}

#[test]
fn mix_processor_tracks_its_controller() {
    let controller = MixController::new(false);
    let mut processor = MixProcessor::new(controller.share());
    assert!(!processor.is_active());
    controller.update(true);
    processor.refresh();
    assert!(processor.is_active());
    assert_eq!(processor.name(), "mixer");
}

#[test]
fn bit_controllers_hand_over_values() {
    let pan = PanController::from_bits(7);
    assert_eq!(pan.read_bits(), 7);
    assert_eq!(pan.generation(), 0);
    pan.share().update_bits(9);
    assert_eq!(pan.read_bits(), 9);
    assert_eq!(pan.generation(), 1);
    let pitch = PitchController::from_bits(0);
    pitch.update_bits(5);
    pitch.update_bits(6);
    assert_eq!(pitch.read_bits(), 6);
    assert_eq!(pitch.generation(), 2);
}

#[test]
fn summary_lists_stages() {
    assert_eq!(chain_summary(&vec![]), "<empty>");
    assert_eq!(
        chain_summary(&vec![("gain", true), ("gain", false)]),
        "gain[on] -> gain[off]"
    );
    assert_eq!(chain_summary(&vec![("equalizer", false)]), "equalizer[off]");
}
