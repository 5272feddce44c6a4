//! Feature extraction: parsing a board description into two
//! perspective-relative sparse feature index sequences.

use vstd::prelude::*;

use crate::network::NnueError;

verus! {

/// Piece-type-and-color ordinal of a piece letter: white pieces 0..=5,
/// black pieces 6..=11, or -1 for a letter that names no piece.
pub open spec fn piece_ord(c: char) -> int {
    if c == 'P' {
        0
    } else if c == 'N' {
        1
    } else if c == 'B' {
        2
    } else if c == 'R' {
        3
    } else if c == 'Q' {
        4
    } else if c == 'K' {
        5
    } else if c == 'p' {
        6
    } else if c == 'n' {
        7
    } else if c == 'b' {
        8
    } else if c == 'r' {
        9
    } else if c == 'q' {
        10
    } else if c == 'k' {
        11
    } else {
        -1
    }
}

pub open spec fn is_piece_char(c: char) -> bool {
    piece_ord(c) >= 0
}

/// An empty-square run-length token: a digit '1' through '8'.
pub open spec fn is_run_digit(c: char) -> bool {
    49 <= c as int <= 56
}

pub open spec fn run_len(c: char) -> int {
    c as int - 48
}

/// Vertical mirror of a square index in [0, 64): rank is flipped, file kept.
/// Equals `sq XOR 0x38` on that range (see `lemma_mirror_is_xor`).
pub open spec fn mirror(sq: int) -> int {
    8 * (7 - sq / 8) + sq % 8
}

/// White-perspective feature index of a piece with ordinal `ord` on square `sq`.
pub open spec fn feat_white(ord: int, sq: int) -> int {
    64 * ord + sq
}

/// Black-perspective feature index: the color of the ordinal is swapped and
/// the square vertically mirrored.
pub open spec fn feat_black(ord: int, sq: int) -> int {
    64 * ((ord + 6) % 12) + mirror(sq)
}

/// Walk of the board description: starting from square 56 (rank 8, file a),
/// a rank separator steps down one rank, a digit skips empty squares, a piece
/// letter emits one feature index per perspective and advances by one square.
/// `None` means the text is not a well-formed board: an unknown character, a
/// rank separator below the first rank, or square arithmetic leaving [0, 64].
/// On `Some((w, b, sq))`, `w` and `b` are the white- and black-perspective
/// index sequences in board order and `sq` the square counter after the walk.
pub open spec fn scan(s: Seq<char>) -> Option<(Seq<int>, Seq<int>, int)>
    decreases s.len(),
{
    if s.len() == 0 {
        Some((Seq::empty(), Seq::empty(), 56))
    } else {
        match scan(s.drop_last()) {
            None => None,
            Some(p) => {
                let w = p.0;
                let b = p.1;
                let sq = p.2;
                let c = s.last();
                if c == '/' {
                    if sq >= 16 {
                        Some((w, b, sq - 16))
                    } else {
                        None
                    }
                } else if is_run_digit(c) {
                    if sq + run_len(c) <= 64 {
                        Some((w, b, sq + run_len(c)))
                    } else {
                        None
                    }
                } else if is_piece_char(c) {
                    if sq <= 63 {
                        Some(
                            (
                                w.push(feat_white(piece_ord(c), sq)),
                                b.push(feat_black(piece_ord(c), sq)),
                                sq + 1,
                            ),
                        )
                    } else {
                        None
                    }
                } else {
                    None
                }
            },
        }
    }
}

/// Index of the first space in `s`, if any.
pub open spec fn space_idx(s: Seq<char>) -> Option<int>
    decreases s.len(),
{
    if s.len() == 0 {
        None
    } else if s[0] == ' ' {
        Some(0)
    } else {
        match space_idx(s.drop_first()) {
            None => None,
            Some(i) => Some(i + 1),
        }
    }
}

/// The side-to-move token (the field after the first space, at `i`) names
/// white: it is exactly the one-character field "w".
pub open spec fn side_is_white(s: Seq<char>, i: int) -> bool {
    &&& i + 1 < s.len()
    &&& s[i + 1] == 'w'
    &&& (i + 2 == s.len() || s[i + 2] == ' ')
}

/// Feature index sequences of a full position encoding, ordered
/// `(side to move, opponent)`; `None` where the encoding is rejected:
/// no side-to-move field, or a malformed board description.
pub open spec fn features_of(s: Seq<char>) -> Option<(Seq<int>, Seq<int>)> {
    match space_idx(s) {
        None => None,
        Some(i) => match scan(s.take(i)) {
            None => None,
            Some(p) => if side_is_white(s, i) {
                Some((p.0, p.1))
            } else {
                Some((p.1, p.0))
            },
        },
    }
}

/// On the square range, the vertical mirror is exactly `sq XOR 0x38`.
pub proof fn lemma_mirror_is_xor(sq: u32)
    requires
        sq < 64,
    ensures
        mirror(sq as int) == (sq ^ 0x38) as int,
{
    assert((sq ^ 0x38) == 8 * (7 - sq / 8) + sq % 8) by (bit_vector)
        requires
            sq < 64,
    ;
}

/// Number of piece letters in a board text.
pub open spec fn piece_count(s: Seq<char>) -> int
    decreases s.len(),
{
    if s.len() == 0 {
        0
    } else {
        piece_count(s.drop_last()) + (if is_piece_char(s.last()) {
            1int
        } else {
            0int
        })
    }
}

/// On every well-formed board text, the walk yields one feature index per
/// piece and per perspective, every index lies in [0, 768), and each black
/// index is determined by its white partner: the ordinal's color is swapped
/// and the square vertically mirrored.
pub proof fn lemma_scan_feature_sets(s: Seq<char>)
    requires
        scan(s) is Some,
    ensures
        ({
            let p = scan(s).unwrap();
            &&& p.0.len() == piece_count(s)
            &&& p.1.len() == piece_count(s)
            &&& 0 <= p.2 <= 64
            &&& forall|k: int| 0 <= k < p.0.len() ==> 0 <= #[trigger] p.0[k] < 768
            &&& forall|k: int| 0 <= k < p.1.len() ==> 0 <= #[trigger] p.1[k] < 768
            &&& forall|k: int|
                0 <= k < p.0.len() ==> #[trigger] p.1[k] == 64 * ((p.0[k] / 64 + 6) % 12)
                    + mirror(p.0[k] % 64)
        }),
    decreases s.len(),
{
    if s.len() > 0 {
        lemma_scan_feature_sets(s.drop_last());
        let q = scan(s.drop_last()).unwrap();
        let c = s.last();
        if c != '/' && !is_run_digit(c) {
            let o = piece_ord(c);
            let sq = q.2;
            assert(0 <= o < 12);
            assert(0 <= sq <= 63);
            vstd::arithmetic::div_mod::lemma_fundamental_div_mod_converse(64 * o + sq, 64, o, sq);
        }
    }
}

/// Two encodings with the same board field and opposite side-to-move tokens
/// yield the same two underlying index sequences, swapped between the
/// side-to-move and the opponent slot.
pub proof fn lemma_side_swap(s1: Seq<char>, s2: Seq<char>)
    requires
        space_idx(s1) is Some,
        space_idx(s2) is Some,
        s1.take(space_idx(s1).unwrap()) == s2.take(space_idx(s2).unwrap()),
        side_is_white(s1, space_idx(s1).unwrap()) != side_is_white(s2, space_idx(s2).unwrap()),
        features_of(s1) is Some,
    ensures
        features_of(s2) is Some,
        features_of(s2).unwrap().0 == features_of(s1).unwrap().1,
        features_of(s2).unwrap().1 == features_of(s1).unwrap().0,
{
}

/// On every accepted position encoding, the two feature index sequences have
/// one entry per piece and every index lies in [0, 768).
pub proof fn lemma_features_in_range(s: Seq<char>)
    requires
        features_of(s) is Some,
    ensures
        ({
            let ft = features_of(s).unwrap();
            &&& ft.0.len() == ft.1.len()
            &&& ft.0.len() == piece_count(s.take(space_idx(s).unwrap()))
            &&& forall|k: int| 0 <= k < ft.0.len() ==> 0 <= #[trigger] ft.0[k] < 768
            &&& forall|k: int| 0 <= k < ft.1.len() ==> 0 <= #[trigger] ft.1[k] < 768
        }),
{
    let i = space_idx(s).unwrap();
    lemma_scan_feature_sets(s.take(i));
}

/// A board text with a malformed prefix is malformed as a whole.
proof fn lemma_scan_none_prefix(s: Seq<char>, j: int)
    requires
        0 <= j <= s.len(),
        scan(s.take(j)) is None,
    ensures
        scan(s) is None,
    decreases s.len(),
{
    if j == s.len() {
        assert(s.take(j) =~= s);
    } else {
        assert(s.drop_last().take(j) =~= s.take(j));
        lemma_scan_none_prefix(s.drop_last(), j);
    }
}

/// `space_idx` finds exactly the first space.
proof fn lemma_space_idx_at(s: Seq<char>, i: int)
    requires
        0 <= i < s.len(),
        s[i] == ' ',
        forall|j: int| 0 <= j < i ==> s[j] != ' ',
    ensures
        space_idx(s) == Some(i),
    decreases i,
{
    if i > 0 {
        lemma_space_idx_at(s.drop_first(), i - 1);
    }
}

/// A text without a space has no side-to-move field.
proof fn lemma_space_idx_none(s: Seq<char>)
    requires
        forall|j: int| 0 <= j < s.len() ==> s[j] != ' ',
    ensures
        space_idx(s) is None,
    decreases s.len(),
{
    if s.len() > 0 {
        lemma_space_idx_none(s.drop_first());
    }
}

/// Map a piece letter to its piece-type-and-color ordinal in [0, 12).
pub fn piece_map(p: char) -> (r: usize)
    requires
        is_piece_char(p),
    ensures
        r == piece_ord(p),
{
    match p {
        'P' => 0,
        'N' => 1,
        'B' => 2,
        'R' => 3,
        'Q' => 4,
        'K' => 5,
        'p' => 6,
        'n' => 7,
        'b' => 8,
        'r' => 9,
        'q' => 10,
        'k' => 11,
        _ => 0,
    }
}

/// Whether a character names a piece.
fn is_piece(c: char) -> (b: bool)
    ensures
        b == is_piece_char(c),
{
    match c {
        'P' | 'N' | 'B' | 'R' | 'Q' | 'K' | 'p' | 'n' | 'b' | 'r' | 'q' | 'k' => true,
        _ => false,
    }
}

/// Extract the two feature index sequences of a position encoding, the side
/// to move's first. The board field is walked left to right from the top
/// rank; each piece contributes one index per perspective. An encoding
/// without a side-to-move field, with an unknown character in the board
/// field, or with out-of-range square arithmetic is rejected as
/// `InvalidEncoding`.
pub fn get_features(fen: &str) -> (r: Result<(Vec<usize>, Vec<usize>), NnueError>)
    ensures
        (match features_of(fen@) {
            Some(ft) => r matches Ok(p) && p.0@.map_values(|f: usize| f as int) == ft.0
                && p.1@.map_values(|f: usize| f as int) == ft.1,
            None => r == Err::<(Vec<usize>, Vec<usize>), NnueError>(NnueError::InvalidEncoding),
        }),
{
    let len = fen.unicode_len();

    // Find the first space; everything before it is the board field.
    let mut i: usize = 0;
    while i < len && fen.get_char(i) != ' '
        invariant
            i <= len,
            len == fen@.len(),
            forall|j: int| 0 <= j < i ==> fen@[j] != ' ',
        decreases len - i,
    {
        i += 1;
    }
    if i == len {
        proof {
            lemma_space_idx_none(fen@);
        }
        return Err(NnueError::InvalidEncoding);
    }
    proof {
        lemma_space_idx_at(fen@, i as int);
    }

    let ghost board = fen@.take(i as int);
    let mut widx: Vec<usize> = Vec::new();
    let mut bidx: Vec<usize> = Vec::new();
    let mut sq: usize = 56;
    let mut j: usize = 0;
    while j < i
        invariant
            j <= i,
            i < len,
            len == fen@.len(),
            board == fen@.take(i as int),
            space_idx(fen@) == Some(i as int),
            sq <= 64,
            scan(board.take(j as int)) == Some(
                (
                    widx@.map_values(|f: usize| f as int),
                    bidx@.map_values(|f: usize| f as int),
                    sq as int,
                ),
            ),
        decreases i - j,
    {
        let c = fen.get_char(j);
        let ghost prev = board.take(j as int);
        proof {
            assert(board.take(j + 1).drop_last() =~= prev);
            assert(board.take(j + 1).last() == c);
        }
        if c == '/' {
            if sq < 16 {
                proof {
                    lemma_scan_none_prefix(board, j + 1);
                }
                return Err(NnueError::InvalidEncoding);
            }
            sq -= 16;
        } else {
            let cu = c as u32;
            if 49 <= cu && cu <= 56 {
                let d = (cu - 48) as usize;
                if sq + d > 64 {
                    proof {
                        lemma_scan_none_prefix(board, j + 1);
                    }
                    return Err(NnueError::InvalidEncoding);
                }
                sq += d;
            } else {
                if !is_piece(c) || sq > 63 {
                    proof {
                        lemma_scan_none_prefix(board, j + 1);
                    }
                    return Err(NnueError::InvalidEncoding);
                }
                let wp = piece_map(c);
                let bp = (wp + 6) % 12;
                let msq = 56 - 8 * (sq / 8) + sq % 8;
                let ghost old_w = widx@;
                let ghost old_b = bidx@;
                widx.push(64 * wp + sq);
                bidx.push(64 * bp + msq);
                proof {
                    assert(widx@.map_values(|f: usize| f as int) =~= old_w.map_values(
                        |f: usize| f as int,
                    ).push(feat_white(piece_ord(c), sq as int)));
                    assert(bidx@.map_values(|f: usize| f as int) =~= old_b.map_values(
                        |f: usize| f as int,
                    ).push(feat_black(piece_ord(c), sq as int)));
                }
                sq += 1;
            }
        }
        j += 1;
    }
    proof {
        assert(board.take(j as int) =~= board);
    }

    // The side-to-move field is white exactly when it is the one-letter "w".
    let white: bool = if i + 1 < len {
        if fen.get_char(i + 1) == 'w' {
            i + 2 == len || fen.get_char(i + 2) == ' '
        } else {
            false
        }
    } else {
        false
    };
    assert(white == side_is_white(fen@, i as int));

    if white {
        Ok((widx, bidx))
    } else {
        Ok((bidx, widx))
    }
}

} // verus!
