use arknights_macro::persist::parse_state;
use arknights_macro::persist::render_state;
use arknights_macro::state::AppState;
use arknights_macro::state::GameState;
use arknights_macro::state::ProgramState;

fn roundtrip(state: AppState) {
    let bytes = render_state(&state);
    let parsed = parse_state(&bytes);
    assert_eq!(parsed, Some(state));
}

#[test]
fn test_snapshot_bytes_are_canonical_json() {
    let state = AppState {
        program_state: ProgramState::Running,
        game_state: GameState::InBattle,
        last_updated: 1700000000,
    };
    let bytes = render_state(&state);
    let text = String::from_utf8(bytes).unwrap();
    assert_eq!(
        text,
        "{\"program_state\":\"Running\",\"game_state\":\"InBattle\",\"last_updated\":1700000000}"
    );
}

#[test]
fn test_snapshot_round_trip_all_states() {
    let programs = [
        ProgramState::Stopped,
        ProgramState::Starting,
        ProgramState::Running,
        ProgramState::Stopping,
    ];
    let games = [GameState::NotDetected, GameState::Detected, GameState::InBattle];
    let stamps = [0u64, 1, 9, 10, 99, 1700000000, u64::MAX];
    for p in programs {
        for g in games {
            for t in stamps {
                roundtrip(AppState { program_state: p, game_state: g, last_updated: t });
            }
        }
    }
}

#[test]
fn test_parse_rejects_noncanonical_input() {
    assert_eq!(parse_state(&Vec::new()), None);
    assert_eq!(parse_state(&b"{}".to_vec()), None);
    assert_eq!(
        parse_state(&b"{\"program_state\":\"Paused\",\"game_state\":\"Detected\",\"last_updated\":1}".to_vec()),
        None
    );
    // A leading zero is not the canonical rendering of any number.
    assert_eq!(
        parse_state(&b"{\"program_state\":\"Stopped\",\"game_state\":\"Detected\",\"last_updated\":01}".to_vec()),
        None
    );
    // A value beyond u64 cannot come from a snapshot.
    assert_eq!(
        parse_state(&b"{\"program_state\":\"Stopped\",\"game_state\":\"Detected\",\"last_updated\":99999999999999999999999}".to_vec()),
        None
    );
    // Trailing bytes are refused.
    assert_eq!(
        parse_state(&b"{\"program_state\":\"Stopped\",\"game_state\":\"Detected\",\"last_updated\":1} ".to_vec()),
        None
    );
}

#[test]
fn test_parse_accepts_exactly_the_rendering() {
    let state = AppState {
        program_state: ProgramState::Stopped,
        game_state: GameState::Detected,
        last_updated: 42,
    };
    let mut bytes = render_state(&state);
    assert_eq!(parse_state(&bytes), Some(state));

    // Any single-byte corruption makes the input unparsable or a
    // different state; flipping the last digit yields the other state.
    let n = bytes.len();
    bytes[n - 2] = b'3';
    let reparsed = parse_state(&bytes).unwrap();
    assert_eq!(reparsed.last_updated, 43);
}
