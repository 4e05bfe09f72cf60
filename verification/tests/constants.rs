use pwacc::constants::{
    channel_name_to_spa_audio_channel, direction_name_to_spa_direction, Direction,
    SPA_AUDIO_CHANNEL_FL, SPA_AUDIO_CHANNEL_FR, SPA_AUDIO_CHANNEL_UNKNOWN, SPA_DIRECTION_INPUT,
    SPA_DIRECTION_OUTPUT,
};

#[test]
fn get_channel_mappings() {
    assert_eq!(channel_name_to_spa_audio_channel("FR"), SPA_AUDIO_CHANNEL_FR);
    assert_eq!(channel_name_to_spa_audio_channel("FL"), SPA_AUDIO_CHANNEL_FL);
}

#[test]
fn channel_codes_are_spa_codes() {
    assert_eq!(SPA_AUDIO_CHANNEL_UNKNOWN, 0);
    assert_eq!(SPA_AUDIO_CHANNEL_FL, 3);
    assert_eq!(SPA_AUDIO_CHANNEL_FR, 4);
}

#[test]
fn other_channel_names_are_unknown() {
    assert_eq!(channel_name_to_spa_audio_channel("MONO"), SPA_AUDIO_CHANNEL_UNKNOWN);
    assert_eq!(channel_name_to_spa_audio_channel(""), SPA_AUDIO_CHANNEL_UNKNOWN);
    assert_eq!(channel_name_to_spa_audio_channel("fl"), SPA_AUDIO_CHANNEL_UNKNOWN);
    assert_eq!(channel_name_to_spa_audio_channel("FLX"), SPA_AUDIO_CHANNEL_UNKNOWN);
}

#[test]
fn direction_names() {
    assert_eq!(direction_name_to_spa_direction("in"), Some(Direction::Input));
    assert_eq!(direction_name_to_spa_direction("out"), Some(Direction::Output));
    assert_eq!(direction_name_to_spa_direction("control"), None);
    assert_eq!(direction_name_to_spa_direction(""), None);
}

#[test]
fn direction_raw_codes_and_reverse() {
    assert_eq!(Direction::from_raw(SPA_DIRECTION_INPUT), Direction::Input);
    assert_eq!(Direction::from_raw(SPA_DIRECTION_OUTPUT), Direction::Output);
    assert_eq!(Direction::from_raw(7), Direction::Other(7));
    assert_eq!(Direction::Input.as_raw(), 0);
    assert_eq!(Direction::Output.as_raw(), 1);
    assert_eq!(Direction::Other(7).as_raw(), 7);
    assert_eq!(Direction::Input.reverse(), Direction::Output);
    assert_eq!(Direction::Output.reverse(), Direction::Input);
    assert_eq!(Direction::Other(7).reverse(), Direction::Other(7));
}
