use nnue::features::get_features;
use nnue::features::piece_map;
use nnue::NnueError;

const START_POS: &str = "rnbqkbnr/pppppppp/8/8/8/8/PPPPPPPP/RNBQKBNR w KQkq - 0 1";

#[test]
fn piece_map_ordinals() {
    let letters = ['P', 'N', 'B', 'R', 'Q', 'K', 'p', 'n', 'b', 'r', 'q', 'k'];
    for (i, &c) in letters.iter().enumerate() {
        assert_eq!(piece_map(c), i);
    }
}

#[test]
fn start_position_feature_counts() {
    let (stm, ntm) = get_features(START_POS).unwrap();
    assert_eq!(stm.len(), 32);
    assert_eq!(ntm.len(), 32);
    // 16 side-to-move pieces, 16 opponent pieces on the board.
    assert_eq!(stm.iter().filter(|&&f| f / 64 < 6).count(), 16);
    assert_eq!(stm.iter().filter(|&&f| f / 64 >= 6).count(), 16);
    assert_eq!(ntm.iter().filter(|&&f| f / 64 < 6).count(), 16);
    assert_eq!(ntm.iter().filter(|&&f| f / 64 >= 6).count(), 16);
}

#[test]
fn start_position_first_indices() {
    // First board character is the black rook on a8 (square 56).
    let (stm, ntm) = get_features(START_POS).unwrap();
    assert_eq!(stm[0], 64 * 9 + 56);
    assert_eq!(ntm[0], 64 * 3 + 0);
}

#[test]
fn all_indices_in_range_and_paired() {
    let (stm, ntm) = get_features(START_POS).unwrap();
    for k in 0..stm.len() {
        let w = stm[k];
        let b = ntm[k];
        assert!(w < 768);
        assert!(b < 768);
        assert_eq!(b, 64 * ((w / 64 + 6) % 12) + ((w % 64) ^ 0x38));
    }
}

#[test]
fn side_swap_swaps_sets() {
    let white = get_features("rnbqkbnr/pppppppp/8/8/8/8/PPPPPPPP/RNBQKBNR w KQkq - 0 1").unwrap();
    let black = get_features("rnbqkbnr/pppppppp/8/8/8/8/PPPPPPPP/RNBQKBNR b KQkq - 0 1").unwrap();
    assert_eq!(white.0, black.1);
    assert_eq!(white.1, black.0);
}

#[test]
fn later_fields_are_ignored() {
    let bare = get_features("8/8/8/8/4k3/8/4K3/8 w").unwrap();
    let full = get_features("8/8/8/8/4k3/8/4K3/8 w - - 42 99").unwrap();
    assert_eq!(bare, full);
}

#[test]
fn non_w_side_token_means_black() {
    let white = get_features("4k3/8/8/8/8/8/8/4K3 w").unwrap();
    let other = get_features("4k3/8/8/8/8/8/8/4K3 x").unwrap();
    assert_eq!(white.0, other.1);
    assert_eq!(white.1, other.0);
}

#[test]
fn unknown_piece_letter_rejected() {
    let r = get_features("rnbqkbnr/pppppppp/8/8/8/8/PPPPPPPP/RNBQKBNZ w KQkq - 0 1");
    assert_eq!(r, Err(NnueError::InvalidEncoding));
}

#[test]
fn missing_side_token_rejected() {
    let r = get_features("rnbqkbnr/pppppppp/8/8/8/8/PPPPPPPP/RNBQKBNR");
    assert_eq!(r, Err(NnueError::InvalidEncoding));
}

#[test]
fn too_many_rank_separators_rejected() {
    let r = get_features("8/8/8/8/8/8/8/8/8 w");
    assert_eq!(r, Err(NnueError::InvalidEncoding));
}

#[test]
fn square_counter_overflow_rejected() {
    let r = get_features("RRRRRRRRR w");
    assert_eq!(r, Err(NnueError::InvalidEncoding));
}

#[test]
fn empty_board_has_no_features() {
    let (stm, ntm) = get_features("8/8/8/8/8/8/8/8 w").unwrap();
    assert!(stm.is_empty());
    assert!(ntm.is_empty());
}
