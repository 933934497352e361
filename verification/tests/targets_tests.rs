use bg_core::targets::{
    ListTarget, ANIMATED_MEDIA, BACKEND, HELP, OUTPUT, SEAT, STATIC_MEDIA,
};

#[test]
fn media_targets_require_a_media_path() {
    assert!(ListTarget::Media.requires_media_path());
    assert!(ListTarget::Static.requires_media_path());
    assert!(ListTarget::Image.requires_media_path());
    assert!(ListTarget::Images.requires_media_path());
    assert!(ListTarget::Animated.requires_media_path());
    assert!(ListTarget::Video.requires_media_path());
    assert!(ListTarget::Videos.requires_media_path());
}

#[test]
fn display_targets_need_no_media_path() {
    assert!(!ListTarget::Seat.requires_media_path());
    assert!(!ListTarget::Outputs.requires_media_path());
    assert!(!ListTarget::Backend.requires_media_path());
    assert!(!ListTarget::Commands.requires_media_path());
}

#[test]
fn spellings_group_together() {
    assert!(ListTarget::Seat.is_in(&SEAT));
    assert!(ListTarget::Seats.is_in(&SEAT));
    assert!(!ListTarget::Output.is_in(&SEAT));
    assert!(ListTarget::Outputs.is_in(&OUTPUT));
    assert!(ListTarget::Backends.is_in(&BACKEND));
    assert!(ListTarget::Command.is_in(&HELP));
    assert!(ListTarget::Image.is_in(&STATIC_MEDIA));
    assert!(ListTarget::Videos.is_in(&ANIMATED_MEDIA));
    assert!(!ListTarget::Media.is_in(&STATIC_MEDIA));
}
