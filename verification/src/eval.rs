//! The accumulator engine and the output stage: from feature index sequences
//! and a loaded weight store to the integer score.

use vstd::prelude::*;

use crate::features::features_of;
use crate::features::get_features;
use crate::features::lemma_features_in_range;
use crate::network::NetView;
use crate::network::Network;
use crate::network::NnueError;
use crate::HIDDEN_SIZE;
use crate::QA;
use crate::QB;
use crate::SCALE;
use crate::W1_LEN;

verus! {

/// 16-bit two's-complement wraparound addition, the accumulator lane width.
pub open spec fn wadd16(a: i16, b: i16) -> i16 {
    if a + b > i16::MAX {
        (a + b - 0x1_0000) as i16
    } else if a + b < i16::MIN {
        (a + b + 0x1_0000) as i16
    } else {
        (a + b) as i16
    }
}

/// 32-bit two's-complement wraparound addition, the running-sum width.
pub open spec fn wadd32(a: i32, b: i32) -> i32 {
    if a + b > i32::MAX {
        (a + b - 0x1_0000_0000) as i32
    } else if a + b < i32::MIN {
        (a + b + 0x1_0000_0000) as i32
    } else {
        (a + b) as i32
    }
}

/// 32-bit two's-complement wraparound multiplication.
pub open spec fn wmul32(a: i32, b: i32) -> i32 {
    if (a * b) % 0x1_0000_0000 > i32::MAX {
        ((a * b) % 0x1_0000_0000 - 0x1_0000_0000) as i32
    } else {
        ((a * b) % 0x1_0000_0000) as i32
    }
}

/// Integer division truncating toward zero (native `/`), for `b > 0`.
pub open spec fn tdiv(a: int, b: int) -> int {
    if a >= 0 {
        a / b
    } else {
        -((-a) / b)
    }
}

/// The first-layer weight row of feature index `f`.
pub open spec fn row_of(w0: Seq<i16>, f: int) -> Seq<i16> {
    w0.subrange(HIDDEN_SIZE as int * f, HIDDEN_SIZE as int * f + HIDDEN_SIZE as int)
}

/// Elementwise 16-bit wraparound sum of an accumulator and a weight row.
pub open spec fn add_row(acc: Seq<i16>, row: Seq<i16>) -> Seq<i16> {
    Seq::new(acc.len(), |i: int| wadd16(acc[i], row[i]))
}

/// The accumulator of a feature index sequence: the first-layer bias with
/// the weight row of every listed feature added in order, each lane kept at
/// the 16-bit width of the trained quantization.
pub open spec fn accum(w0: Seq<i16>, b0: Seq<i16>, feats: Seq<int>) -> Seq<i16>
    decreases feats.len(),
{
    if feats.len() == 0 {
        b0
    } else {
        add_row(accum(w0, b0, feats.drop_last()), row_of(w0, feats.last()))
    }
}

/// An accumulator lane clamped to the activation domain [0, QA].
pub open spec fn clamp_qa(x: i16) -> int {
    if x < 0 {
        0
    } else if x > QA {
        QA as int
    } else {
        x as int
    }
}

/// One lane's contribution to the output sum: the second-layer weight times
/// the squared clamped activation. Always within the 32-bit range.
pub open spec fn lane_term(w: i16, x: i16) -> i32 {
    (w * clamp_qa(x) * clamp_qa(x)) as i32
}

/// Multiply-accumulate of one perspective: every lane's term added to `init`
/// left to right, wrapping at the 32-bit width.
pub open spec fn mac(init: i32, acc: Seq<i16>, w: Seq<i16>) -> i32
    decreases acc.len(),
{
    if acc.len() == 0 {
        init
    } else {
        wadd32(mac(init, acc.drop_last(), w.drop_last()), lane_term(w.last(), acc.last()))
    }
}

/// The output stage on two accumulators: both multiply-accumulates into one
/// running sum, the second-layer bias scaled by QA added in, then the exact
/// rescaling order — divide by QA, multiply by SCALE, divide by QA * QB,
/// each division truncating toward zero.
pub open spec fn out_value(net: NetView, a_stm: Seq<i16>, a_ntm: Seq<i16>) -> i32 {
    let sum = mac(
        mac(0, a_stm, net.w1.subrange(0, HIDDEN_SIZE as int)),
        a_ntm,
        net.w1.subrange(HIDDEN_SIZE as int, W1_LEN as int),
    );
    let o1 = wadd32((QA as i32 * net.b1 as i32) as i32, sum);
    let o2 = tdiv(o1 as int, QA as int) as i32;
    let o3 = wmul32(o2, SCALE);
    tdiv(o3 as int, QA as int * QB as int) as i32
}

/// The score of a position given by its two feature index sequences.
pub open spec fn eval_value(net: NetView, f_stm: Seq<int>, f_ntm: Seq<int>) -> i32 {
    out_value(net, accum(net.w0, net.b0, f_stm), accum(net.w0, net.b0, f_ntm))
}

/// With no active feature, the accumulator is the first-layer bias
/// unchanged.
pub proof fn lemma_empty_accumulator(w0: Seq<i16>, b0: Seq<i16>)
    ensures
        accum(w0, b0, Seq::empty()) == b0,
{
}

/// What `Network::evaluate` returns: the score of the encoded position, or
/// `InvalidEncoding` exactly where feature extraction rejects the text. A
/// function of the weight store and the encoding alone, so evaluation is
/// deterministic.
pub open spec fn eval_result(net: NetView, fen: Seq<char>) -> Result<i32, NnueError> {
    match features_of(fen) {
        None => Err(NnueError::InvalidEncoding),
        Some(ft) => Ok(eval_value(net, ft.0, ft.1)),
    }
}

/// Evaluation is deterministic: any two results obtained from the same
/// weight store and the same encoding are identical, since `evaluate`
/// promises exactly `eval_result` of its arguments.
pub proof fn lemma_evaluate_deterministic(
    net: NetView,
    fen: Seq<char>,
    r1: Result<i32, NnueError>,
    r2: Result<i32, NnueError>,
)
    requires
        r1 == eval_result(net, fen),
        r2 == eval_result(net, fen),
    ensures
        r1 == r2,
{
}

impl Network {
    /// Evaluate the encoded position: a centipawn-scale score from the side
    /// to move's point of view, positive favoring the side to move.
    pub fn evaluate(&self, fen: &str) -> (r: Result<i32, NnueError>)
        requires
            self.wf(),
        ensures
            r == eval_result(self@, fen@),
    {
        let (stm_ft, ntm_ft) = match get_features(fen) {
            Ok(p) => p,
            Err(e) => {
                return Err(e);
            },
        };
        proof {
            lemma_features_in_range(fen@);
            let ft = features_of(fen@).unwrap();
            assert forall|t: int| 0 <= t < stm_ft@.len() implies stm_ft@[t] < 768 by {
                assert(ft.0[t] == stm_ft@.map_values(|f: usize| f as int)[t]);
            }
            assert forall|t: int| 0 <= t < ntm_ft@.len() implies ntm_ft@[t] < 768 by {
                assert(ft.1[t] == ntm_ft@.map_values(|f: usize| f as int)[t]);
            }
        }
        let a_stm = self.accumulate(&stm_ft);
        let a_ntm = self.accumulate(&ntm_ft);
        Ok(self.output(&a_stm, &a_ntm))
    }

    /// Sum the weight rows of the given feature indices onto the first-layer
    /// bias, one 16-bit lane at a time.
    fn accumulate(&self, feats: &Vec<usize>) -> (r: Vec<i16>)
        requires
            self.wf(),
            forall|i: int| 0 <= i < feats@.len() ==> feats@[i] < 768,
        ensures
            r@ == accum(self@.w0, self@.b0, feats@.map_values(|f: usize| f as int)),
            r@.len() == HIDDEN_SIZE,
    {
        let ghost gfeats = feats@.map_values(|f: usize| f as int);
        let bias = self.bias0();
        let mut acc: Vec<i16> = Vec::new();
        let mut k: usize = 0;
        while k < HIDDEN_SIZE
            invariant
                k <= HIDDEN_SIZE,
                bias@ == self@.b0,
                self.wf(),
                acc@ == self@.b0.take(k as int),
            decreases HIDDEN_SIZE - k,
        {
            acc.push(bias[k]);
            k += 1;
        }
        proof {
            assert(acc@ =~= self@.b0);
        }

        let mut i: usize = 0;
        while i < feats.len()
            invariant
                i <= feats@.len(),
                self.wf(),
                forall|t: int| 0 <= t < feats@.len() ==> feats@[t] < 768,
                gfeats == feats@.map_values(|f: usize| f as int),
                acc@.len() == HIDDEN_SIZE,
                acc@ == accum(self@.w0, self@.b0, gfeats.take(i as int)),
            decreases feats@.len() - i,
        {
            let f = feats[i];
            let row = self.row(f);
            let ghost prev = acc@;
            let mut k: usize = 0;
            while k < HIDDEN_SIZE
                invariant
                    k <= HIDDEN_SIZE,
                    acc@.len() == HIDDEN_SIZE,
                    row@.len() == HIDDEN_SIZE,
                    forall|t: int| 0 <= t < k ==> acc@[t] == wadd16(prev[t], row@[t]),
                    forall|t: int| k <= t < HIDDEN_SIZE ==> acc@[t] == prev[t],
                decreases HIDDEN_SIZE - k,
            {
                let a = acc[k];
                acc[k] = a.wrapping_add(row[k]);
                k += 1;
            }
            proof {
                assert(acc@ =~= add_row(prev, row_of(self@.w0, f as int)));
                assert(gfeats.take(i + 1).drop_last() =~= gfeats.take(i as int));
                assert(gfeats.take(i + 1).last() == f as int);
            }
            i += 1;
        }
        proof {
            assert(gfeats.take(feats@.len() as int) =~= gfeats);
        }
        acc
    }

    /// The output stage: clipped squared activations of both accumulators,
    /// multiplied into the second-layer weights, the scaled second-layer
    /// bias added, then rescaled to the output domain by the exact division
    /// order of the quantization scheme.
    fn output(&self, stm: &Vec<i16>, ntm: &Vec<i16>) -> (r: i32)
        requires
            self.wf(),
            stm@.len() == HIDDEN_SIZE,
            ntm@.len() == HIDDEN_SIZE,
        ensures
            r == out_value(self@, stm@, ntm@),
    {
        let w_stm = self.second_layer_half(0);
        let w_ntm = self.second_layer_half(1);
        let mut output: i32 = 0;

        let mut k: usize = 0;
        while k < HIDDEN_SIZE
            invariant
                k <= HIDDEN_SIZE,
                stm@.len() == HIDDEN_SIZE,
                w_stm@.len() == HIDDEN_SIZE,
                output == mac(0, stm@.take(k as int), w_stm@.take(k as int)),
            decreases HIDDEN_SIZE - k,
        {
            let t = lane(w_stm[k], stm[k]);
            output = output.wrapping_add(t);
            proof {
                assert(stm@.take(k + 1).drop_last() =~= stm@.take(k as int));
                assert(w_stm@.take(k + 1).drop_last() =~= w_stm@.take(k as int));
            }
            k += 1;
        }
        proof {
            assert(stm@.take(HIDDEN_SIZE as int) =~= stm@);
            assert(w_stm@.take(HIDDEN_SIZE as int) =~= w_stm@);
        }

        let ghost s1 = output;
        let mut k: usize = 0;
        while k < HIDDEN_SIZE
            invariant
                k <= HIDDEN_SIZE,
                ntm@.len() == HIDDEN_SIZE,
                w_ntm@.len() == HIDDEN_SIZE,
                output == mac(s1, ntm@.take(k as int), w_ntm@.take(k as int)),
            decreases HIDDEN_SIZE - k,
        {
            let t = lane(w_ntm[k], ntm[k]);
            output = output.wrapping_add(t);
            proof {
                assert(ntm@.take(k + 1).drop_last() =~= ntm@.take(k as int));
                assert(w_ntm@.take(k + 1).drop_last() =~= w_ntm@.take(k as int));
            }
            k += 1;
        }
        proof {
            assert(ntm@.take(HIDDEN_SIZE as int) =~= ntm@);
            assert(w_ntm@.take(HIDDEN_SIZE as int) =~= w_ntm@);
        }

        let b1 = self.bias1();
        output = ((QA as i32) * (b1 as i32)).wrapping_add(output);
        output = output / (QA as i32);
        output = output.wrapping_mul(SCALE);
        output = output / ((QA as i32) * (QB as i32));
        output
    }
}

/// One lane's term of the output sum: the activation clamped to [0, QA],
/// squared, times the second-layer weight, in 32-bit arithmetic.
fn lane(w: i16, x: i16) -> (r: i32)
    ensures
        r == lane_term(w, x),
{
    let xi = x as i32;
    let c: i32 = if xi < 0 {
        0
    } else if xi > QA as i32 {
        QA as i32
    } else {
        xi
    };
    proof {
        assert(c == clamp_qa(x));
        assert(-32768 * 255 <= (w as int) * (c as int) <= 32767 * 255) by (nonlinear_arith)
            requires
                -32768 <= w as int <= 32767,
                0 <= c as int <= 255,
        ;
    }
    let t1 = (w as i32) * c;
    proof {
        assert(-32768 * 255 * 255 <= (t1 as int) * (c as int) <= 32767 * 255 * 255)
            by (nonlinear_arith)
            requires
                -32768 * 255 <= t1 as int <= 32767 * 255,
                0 <= c as int <= 255,
        ;
    }
    t1 * c
}

} // verus!
