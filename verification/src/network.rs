//! The weight store: a fixed-layout quantized parameter blob, decoded from
//! bytes by positional offset, with accessors for its four fields.

use vstd::prelude::*;

use crate::HIDDEN_SIZE;
use crate::NET_BYTES;
use crate::NUM_FEATURES;
use crate::W0_LEN;
use crate::W1_LEN;

verus! {

/// Why an evaluation or a load was rejected.
#[derive(Debug, Clone, Copy, PartialEq, Eq)]
pub enum NnueError {
    /// The position text cannot be parsed.
    InvalidEncoding,
    /// The weight blob does not have the expected byte size.
    MalformedNetwork { expected: usize, actual: usize },
}

/// Mathematical contents of a weight store.
pub struct NetView {
    pub w0: Seq<i16>,
    pub b0: Seq<i16>,
    pub w1: Seq<i16>,
    pub b1: i16,
}

/// A loaded, immutable quantized network.
///
/// `w0` is the first-layer weight matrix, column-major: each feature index
/// owns a contiguous run of `HIDDEN_SIZE` values. `b0` is the first-layer
/// bias, `w1` the second-layer weight vector (first half for the side to
/// move, second half for the opponent), `b1` the second-layer bias.
pub struct Network {
    w0: Vec<i16>,
    b0: Vec<i16>,
    w1: Vec<i16>,
    b1: i16,
}

impl View for Network {
    type V = NetView;

    closed spec fn view(&self) -> NetView {
        NetView { w0: self.w0@, b0: self.b0@, w1: self.w1@, b1: self.b1 }
    }
}

/// The two's-complement 16-bit integer stored little-endian as `lo`, `hi`.
pub open spec fn i16_le(lo: u8, hi: u8) -> i16 {
    if lo + 256 * hi < 32768 {
        (lo + 256 * hi) as i16
    } else {
        (lo + 256 * hi - 65536) as i16
    }
}

/// The i16 scalar at word index `i` of a little-endian byte blob.
pub open spec fn word_at(b: Seq<u8>, i: int) -> i16 {
    i16_le(b[2 * i], b[2 * i + 1])
}

/// The weight store encoded by a blob of exactly `NET_BYTES` bytes:
/// first-layer weights, first-layer bias, second-layer weights, second-layer
/// bias, in that order, every scalar a little-endian i16.
pub open spec fn decode_net(b: Seq<u8>) -> NetView {
    NetView {
        w0: Seq::new(W0_LEN as nat, |i: int| word_at(b, i)),
        b0: Seq::new(HIDDEN_SIZE as nat, |i: int| word_at(b, W0_LEN + i)),
        w1: Seq::new(W1_LEN as nat, |i: int| word_at(b, W0_LEN + HIDDEN_SIZE + i)),
        b1: word_at(b, W0_LEN + HIDDEN_SIZE + W1_LEN),
    }
}

/// Decode one little-endian i16 from two bytes.
fn decode_i16(lo: u8, hi: u8) -> (r: i16)
    ensures
        r == i16_le(lo, hi),
{
    let v: i32 = lo as i32 + 256 * (hi as i32);
    let w: i32 = if v >= 32768 {
        v - 65536
    } else {
        v
    };
    w as i16
}

/// Decode `count` consecutive i16 scalars, starting at word index `start`.
fn decode_words(bytes: &[u8], start: usize, count: usize) -> (r: Vec<i16>)
    requires
        2 * (start + count) <= bytes@.len(),
    ensures
        r@ == Seq::new(count as nat, |i: int| word_at(bytes@, start + i)),
{
    let n = bytes.len();
    let mut r: Vec<i16> = Vec::new();
    let mut k: usize = 0;
    while k < count
        invariant
            k <= count,
            n == bytes@.len(),
            2 * (start + count) <= n,
            r@.len() == k,
            forall|i: int| 0 <= i < k ==> r@[i] == word_at(bytes@, start + i),
        decreases count - k,
    {
        let lo = bytes[2 * (start + k)];
        let hi = bytes[2 * (start + k) + 1];
        r.push(decode_i16(lo, hi));
        k += 1;
    }
    proof {
        assert(r@ =~= Seq::new(count as nat, |i: int| word_at(bytes@, start + i)));
    }
    r
}

impl Network {
    /// The four fields have the widths of the fixed layout.
    pub open spec fn wf(&self) -> bool {
        &&& self@.w0.len() == W0_LEN
        &&& self@.b0.len() == HIDDEN_SIZE
        &&& self@.w1.len() == W1_LEN
    }

    /// Load a weight blob. A blob whose byte length is not exactly
    /// `NET_BYTES` is rejected with `MalformedNetwork`; one of exactly that
    /// length always decodes successfully.
    pub fn from_bytes(bytes: &[u8]) -> (r: Result<Network, NnueError>)
        ensures
            bytes@.len() == NET_BYTES ==> (r matches Ok(n) && n.wf() && n@ == decode_net(bytes@)),
            bytes@.len() != NET_BYTES ==> r == Err::<Network, NnueError>(
                NnueError::MalformedNetwork { expected: NET_BYTES, actual: bytes@.len() as usize },
            ),
    {
        let actual = bytes.len();
        if actual != NET_BYTES {
            return Err(NnueError::MalformedNetwork { expected: NET_BYTES, actual });
        }
        let w0 = decode_words(bytes, 0, W0_LEN);
        let b0 = decode_words(bytes, W0_LEN, HIDDEN_SIZE);
        let w1 = decode_words(bytes, W0_LEN + HIDDEN_SIZE, W1_LEN);
        let b1_lo = bytes[2 * (W0_LEN + HIDDEN_SIZE + W1_LEN)];
        let b1_hi = bytes[2 * (W0_LEN + HIDDEN_SIZE + W1_LEN) + 1];
        let b1 = decode_i16(b1_lo, b1_hi);
        let n = Network { w0, b0, w1, b1 };
        proof {
            assert(n@.w0 =~= decode_net(bytes@).w0);
            assert(n@.b0 =~= decode_net(bytes@).b0);
            assert(n@.w1 =~= decode_net(bytes@).w1);
        }
        Ok(n)
    }

    /// The first-layer weight row selected by one feature index.
    pub fn row(&self, feature: usize) -> (r: &[i16])
        requires
            self.wf(),
            feature < NUM_FEATURES,
        ensures
            r@ == self@.w0.subrange(
                HIDDEN_SIZE as int * feature,
                HIDDEN_SIZE as int * feature + HIDDEN_SIZE as int,
            ),
    {
        vstd::slice::slice_subrange(
            self.w0.as_slice(),
            feature * HIDDEN_SIZE,
            feature * HIDDEN_SIZE + HIDDEN_SIZE,
        )
    }

    /// The first-layer bias vector.
    pub fn bias0(&self) -> (r: &[i16])
        requires
            self.wf(),
        ensures
            r@ == self@.b0,
    {
        self.b0.as_slice()
    }

    /// One half of the second-layer weight vector: perspective 0 scores the
    /// side-to-move accumulator, perspective 1 the opponent accumulator.
    pub fn second_layer_half(&self, perspective: usize) -> (r: &[i16])
        requires
            self.wf(),
            perspective < 2,
        ensures
            r@ == self@.w1.subrange(
                HIDDEN_SIZE as int * perspective,
                HIDDEN_SIZE as int * perspective + HIDDEN_SIZE as int,
            ),
    {
        vstd::slice::slice_subrange(
            self.w1.as_slice(),
            perspective * HIDDEN_SIZE,
            perspective * HIDDEN_SIZE + HIDDEN_SIZE,
        )
    }

    /// The second-layer bias.
    pub fn bias1(&self) -> (r: i16)
        ensures
            r == self@.b1,
    {
        self.b1
    }
}

} // verus!
