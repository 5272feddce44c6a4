use nnue::Network;
use nnue::NnueError;
use nnue::HIDDEN_SIZE;
use nnue::NET_BYTES;
use nnue::W0_LEN;
use nnue::W1_LEN;

const START_POS: &str = "rnbqkbnr/pppppppp/8/8/8/8/PPPPPPPP/RNBQKBNR w KQkq - 0 1";
const EMPTY_BOARD: &str = "8/8/8/8/8/8/8/8 w - - 0 1";

fn zero_blob() -> Vec<u8> {
    vec![0u8; NET_BYTES]
}

fn put_word(blob: &mut [u8], word: usize, v: i16) {
    let b = v.to_le_bytes();
    blob[2 * word] = b[0];
    blob[2 * word + 1] = b[1];
}

fn with_bias1(b1: i16) -> Network {
    let mut blob = zero_blob();
    put_word(&mut blob, W0_LEN + HIDDEN_SIZE + W1_LEN, b1);
    Network::from_bytes(&blob).unwrap()
}

#[test]
fn zero_net_start_position_scores_zero() {
    let net = Network::from_bytes(&zero_blob()).unwrap();
    assert_eq!(net.evaluate(START_POS), Ok(0));
}

#[test]
fn evaluate_is_deterministic() {
    let mut blob = zero_blob();
    for w in 0..W0_LEN {
        put_word(&mut blob, w, (w % 97) as i16 - 48);
    }
    for w in W0_LEN..W0_LEN + HIDDEN_SIZE + W1_LEN + 1 {
        put_word(&mut blob, w, (w % 53) as i16 - 26);
    }
    let net = Network::from_bytes(&blob).unwrap();
    let first = net.evaluate(START_POS);
    let second = net.evaluate(START_POS);
    assert!(first.is_ok());
    assert_eq!(first, second);
}

#[test]
fn empty_board_scores_from_bias_alone() {
    // Every accumulator lane is the first-layer bias 300, clamped to 255;
    // 128 lanes of weight 64 give 128 * 64 * 255 * 255, which rescales to
    // exactly 128 * 400.
    let mut blob = zero_blob();
    for lane in 0..HIDDEN_SIZE {
        put_word(&mut blob, W0_LEN + lane, 300);
    }
    for k in 0..W1_LEN {
        put_word(&mut blob, W0_LEN + HIDDEN_SIZE + k, 64);
    }
    let net = Network::from_bytes(&blob).unwrap();
    assert_eq!(net.evaluate(EMPTY_BOARD), Ok(51200));
}

#[test]
fn division_order_truncates_toward_zero() {
    // With no active feature and zero first-layer bias the output is
    // (QA * b1 / QA) * SCALE / (QA * QB) = b1 * 400 / 16320, truncating.
    assert_eq!(with_bias1(40).evaluate(EMPTY_BOARD), Ok(0));
    assert_eq!(with_bias1(41).evaluate(EMPTY_BOARD), Ok(1));
    assert_eq!(with_bias1(-163).evaluate(EMPTY_BOARD), Ok(-3));
    assert_eq!(with_bias1(163).evaluate(EMPTY_BOARD), Ok(3));
}

#[test]
fn single_piece_exact_score() {
    // A lone white pawn on a2 is square 8, feature 64 * 0 + 8 = 8 for the
    // side to move. Its weight row drives lane 0 to 300, clamped to QA=255;
    // squared and multiplied by the weight 64 = QB this rescales to exactly
    // SCALE. Lane 1 goes to -5, clamps to 0 and contributes nothing.
    let mut blob = zero_blob();
    put_word(&mut blob, 8 * HIDDEN_SIZE, 300);
    put_word(&mut blob, 8 * HIDDEN_SIZE + 1, -5);
    put_word(&mut blob, W0_LEN + HIDDEN_SIZE, 64);
    put_word(&mut blob, W0_LEN + HIDDEN_SIZE + 1, 7);
    let net = Network::from_bytes(&blob).unwrap();
    assert_eq!(net.evaluate("8/8/8/8/8/8/P7/8 w - - 0 1"), Ok(400));
}

#[test]
fn opponent_perspective_row_is_mirrored() {
    // The same lone pawn seen by the opponent is ordinal 6 on the mirrored
    // square 8 XOR 0x38 = 48: feature 64 * 6 + 48 = 432. Weighting that row
    // against the second half of the second-layer weights scores it, and the
    // contribution is subtracted nowhere: the sign comes from the weight.
    let mut blob = zero_blob();
    put_word(&mut blob, 432 * HIDDEN_SIZE, 300);
    put_word(&mut blob, W0_LEN + HIDDEN_SIZE + HIDDEN_SIZE, -64);
    let net = Network::from_bytes(&blob).unwrap();
    assert_eq!(net.evaluate("8/8/8/8/8/8/P7/8 w - - 0 1"), Ok(-400));
}

#[test]
fn invalid_encoding_surfaces_from_evaluate() {
    let net = Network::from_bytes(&zero_blob()).unwrap();
    assert_eq!(net.evaluate("not a position"), Err(NnueError::InvalidEncoding));
    assert_eq!(net.evaluate("8/8/8/8/8/8/8/8"), Err(NnueError::InvalidEncoding));
}
