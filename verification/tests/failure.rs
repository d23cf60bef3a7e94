use signal_toolbox::failure::Failure;

#[test]
fn wrong_extension_message() {
    assert_eq!(Failure::WrongExtension.message(), "Wrong file extension, try again");
}

#[test]
fn decode_message() {
    assert_eq!(Failure::Decode.message(), "Couldn't load sound from file");
}

#[test]
fn engine_message() {
    assert_eq!(Failure::Engine.message(), "Couldn't create Audio Manager");
}

#[test]
fn track_message() {
    assert_eq!(Failure::Track.message(), "Couldn't create a mixer sub-track with a filter");
}

#[test]
fn play_message() {
    assert_eq!(Failure::Play.message(), "Couldn't play sound from file");
}

#[test]
fn only_a_wrong_extension_is_survived() {
    assert!(!Failure::WrongExtension.is_fatal());
    assert!(Failure::Decode.is_fatal());
    assert!(Failure::Engine.is_fatal());
    assert!(Failure::Track.is_fatal());
    assert!(Failure::Play.is_fatal());
}
