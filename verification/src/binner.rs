use vstd::prelude::*;

use crate::config::{AirSensorConfig, AirSensorData, NUM_SENSORS};
use crate::frame::{tested_points, Frame, Hand, Point3};

verus! {

/// Whether point `p` lands in band `b` under configuration `c`.
pub open spec fn point_sets_band(c: AirSensorConfig, p: Point3, b: int) -> bool {
    c.spec_sensor_index(p.y as int) == Some(b)
}

/// Whether any point of `ps` lands in band `b`.
pub open spec fn seq_sets_band(c: AirSensorConfig, ps: Seq<Point3>, b: int) -> bool {
    exists|j: int| 0 <= j < ps.len() && #[trigger] point_sets_band(c, ps[j], b)
}

/// Whether any tested point of any hand of `hands` lands in band `b`.
pub open spec fn hands_set_band(c: AirSensorConfig, hands: Seq<Hand>, b: int) -> bool {
    exists|h: int|
        0 <= h < hands.len() && #[trigger] seq_sets_band(
            c,
            tested_points(hands[h], c.check_fingers),
            b,
        )
}

/// Whether any tested point of the frame lands in band `b`.
pub open spec fn frame_sets_band(f: Frame, c: AirSensorConfig, b: int) -> bool {
    hands_set_band(c, f.hands@, b)
}

/// The sensor state of one frame: band `b` is set exactly when some tested
/// point of some hand lands in it — a pure OR-reduction over the frame.
pub open spec fn evaluate_spec(f: Frame, c: AirSensorConfig) -> Seq<bool> {
    Seq::new(NUM_SENSORS as nat, |b: int| frame_sets_band(f, c, b))
}

/// The all-released state.
pub open spec fn all_false_spec() -> Seq<bool> {
    Seq::new(NUM_SENSORS as nat, |b: int| false)
}

/// A fresh all-false sensor array of the configured length.
pub fn all_false() -> (r: AirSensorData)
    ensures
        r@ == all_false_spec(),
{
    let mut r: Vec<bool> = Vec::new();
    let mut i: usize = 0;
    while i < NUM_SENSORS
        invariant
            i <= NUM_SENSORS,
            r@.len() == i as int,
            forall|k: int| 0 <= k < i as int ==> !r@[k],
        decreases NUM_SENSORS - i,
    {
        r.push(false);
        i += 1;
    }
    proof {
        assert(r@ =~= all_false_spec());
    }
    r
}

/// An element-wise copy of a sensor array.
pub fn copy_array(a: &AirSensorData) -> (r: AirSensorData)
    ensures
        r@ == a@,
{
    let mut r: Vec<bool> = Vec::new();
    let mut i: usize = 0;
    while i < a.len()
        invariant
            i <= a@.len(),
            r@ =~= a@.take(i as int),
        decreases a@.len() - i,
    {
        r.push(a[i]);
        i += 1;
    }
    proof {
        assert(a@.take(a@.len() as int) =~= a@);
    }
    r
}

/// Sets the band containing `p`, if any; all other bands keep their value.
fn apply_point(out: &mut Vec<bool>, config: &AirSensorConfig, p: &Point3)
    requires
        config.wf(),
        old(out)@.len() == NUM_SENSORS as int,
    ensures
        final(out)@.len() == NUM_SENSORS as int,
        forall|b: int|
            0 <= b < NUM_SENSORS as int ==> #[trigger] final(out)@[b] == (old(out)@[b]
                || point_sets_band(*config, *p, b)),
{
    match config.sensor_index(p) {
        Some(i) => {
            let was = out[i];
            out.set(i, was || true);
        },
        None => {},
    }
}

/// Extending a point sequence by one point extends the set of bands it hits
/// by exactly the band of that point.
proof fn lemma_seq_sets_band_snoc(c: AirSensorConfig, ps: Seq<Point3>, j: int)
    requires
        0 <= j < ps.len(),
    ensures
        forall|b: int|
            seq_sets_band(c, ps.take(j + 1), b) == (seq_sets_band(c, ps.take(j), b)
                || point_sets_band(c, ps[j], b)),
{
    assert forall|b: int|
        seq_sets_band(c, ps.take(j + 1), b) == (seq_sets_band(c, ps.take(j), b)
            || point_sets_band(c, ps[j], b)) by {
        if seq_sets_band(c, ps.take(j + 1), b) {
            let w = choose|w: int|
                0 <= w < ps.take(j + 1).len() && #[trigger] point_sets_band(c, ps.take(j + 1)[w], b);
            if w < j {
                assert(ps.take(j)[w] == ps.take(j + 1)[w]);
                assert(seq_sets_band(c, ps.take(j), b));
            } else {
                assert(ps.take(j + 1)[w] == ps[j]);
            }
        }
        if seq_sets_band(c, ps.take(j), b) {
            let w = choose|w: int| 0 <= w < ps.take(j).len() && #[trigger] point_sets_band(c, ps.take(j)[w], b);
            assert(ps.take(j + 1)[w] == ps.take(j)[w]);
            assert(seq_sets_band(c, ps.take(j + 1), b));
        }
        if point_sets_band(c, ps[j], b) {
            assert(ps.take(j + 1)[j] == ps[j]);
            assert(seq_sets_band(c, ps.take(j + 1), b));
        }
    }
}

/// Extending a hand sequence by one hand extends the set of bands it hits by
/// exactly the bands hit by that hand's tested points.
proof fn lemma_hands_set_band_snoc(c: AirSensorConfig, hands: Seq<Hand>, h: int)
    requires
        0 <= h < hands.len(),
    ensures
        forall|b: int|
            hands_set_band(c, hands.take(h + 1), b) == (hands_set_band(c, hands.take(h), b)
                || seq_sets_band(c, tested_points(hands[h], c.check_fingers), b)),
{
    assert forall|b: int|
        hands_set_band(c, hands.take(h + 1), b) == (hands_set_band(c, hands.take(h), b)
            || seq_sets_band(c, tested_points(hands[h], c.check_fingers), b)) by {
        if hands_set_band(c, hands.take(h + 1), b) {
            let w = choose|w: int|
                0 <= w < hands.take(h + 1).len() && #[trigger] seq_sets_band(
                    c,
                    tested_points(hands.take(h + 1)[w], c.check_fingers),
                    b,
                );
            if w < h {
                assert(hands.take(h)[w] == hands.take(h + 1)[w]);
                assert(hands_set_band(c, hands.take(h), b));
            } else {
                assert(hands.take(h + 1)[w] == hands[h]);
            }
        }
        if hands_set_band(c, hands.take(h), b) {
            let w = choose|w: int|
                0 <= w < hands.take(h).len() && #[trigger] seq_sets_band(
                    c,
                    tested_points(hands.take(h)[w], c.check_fingers),
                    b,
                );
            assert(hands.take(h + 1)[w] == hands.take(h)[w]);
            assert(hands_set_band(c, hands.take(h + 1), b));
        }
        if seq_sets_band(c, tested_points(hands[h], c.check_fingers), b) {
            assert(hands.take(h + 1)[h] == hands[h]);
            assert(hands_set_band(c, hands.take(h + 1), b));
        }
    }
}

/// Computes the sensor state of one frame: an all-false array with the band
/// of every tested point set, palm first and digit joints only when
/// `config.check_fingers` is on. Out-of-range points contribute nothing.
#[verifier::loop_isolation(false)]
pub fn evaluate(frame: &Frame, config: &AirSensorConfig) -> (r: AirSensorData)
    requires
        config.wf(),
    ensures
        r@ == evaluate_spec(*frame, *config),
{
    let ghost cf = config.check_fingers;
    let mut out: AirSensorData = all_false();
    let mut h: usize = 0;
    while h < frame.hands.len()
        invariant
            config.wf(),
            cf == config.check_fingers,
            h <= frame.hands@.len(),
            out@.len() == NUM_SENSORS as int,
            forall|b: int|
                0 <= b < NUM_SENSORS as int ==> out@[b] == hands_set_band(
                    *config,
                    frame.hands@.take(h as int),
                    b,
                ),
        decreases frame.hands@.len() - h as int,
    {
        let hand = &frame.hands[h];
        let ghost pts = tested_points(*hand, cf);
        let ghost before = out@;
        // Materialize the tested points of this hand in priority order: the
        // palm always, the digit joints only when the configuration asks.
        let mut points: Vec<Point3> = Vec::new();
        points.push(hand.palm);
        if config.check_fingers {
            let mut d: usize = 0;
            while d < hand.digit_joints.len()
                invariant
                    d <= hand.digit_joints@.len(),
                    points@ =~= seq![hand.palm] + hand.digit_joints@.take(d as int),
                decreases hand.digit_joints@.len() - d as int,
            {
                points.push(hand.digit_joints[d]);
                d += 1;
            }
        }
        proof {
            assert(points@ =~= pts);
        }
        let mut j: usize = 0;
        while j < points.len()
            invariant
                config.wf(),
                j <= points@.len(),
                points@ == pts,
                before.len() == NUM_SENSORS as int,
                out@.len() == NUM_SENSORS as int,
                forall|b: int|
                    0 <= b < NUM_SENSORS as int ==> out@[b] == (before[b] || seq_sets_band(
                        *config,
                        pts.take(j as int),
                        b,
                    )),
            decreases points@.len() - j as int,
        {
            let ghost mid = out@;
            let ghost jj = j as int;
            proof {
                assert(forall|b: int|
                    0 <= b < NUM_SENSORS as int ==> mid[b] == (before[b] || seq_sets_band(
                        *config,
                        pts.take(jj),
                        b,
                    )));
            }
            let p = points[j];
            apply_point(&mut out, config, &p);
            proof {
                assert(forall|b: int|
                    0 <= b < NUM_SENSORS as int ==> out@[b] == (mid[b] || point_sets_band(
                        *config,
                        p,
                        b,
                    )));
                assert(pts[jj] == p);
                lemma_seq_sets_band_snoc(*config, pts, jj);
                assert forall|b: int|
                    0 <= b < NUM_SENSORS as int implies out@[b] == (before[b] || seq_sets_band(
                    *config,
                    pts.take(jj + 1),
                    b,
                )) by {
                    assert(seq_sets_band(*config, pts.take(jj + 1), b) == (seq_sets_band(
                        *config,
                        pts.take(jj),
                        b,
                    ) || point_sets_band(*config, pts[jj], b)));
                }
            }
            j += 1;
        }
        proof {
            assert(pts.take(pts.len() as int) =~= pts);
            assert forall|b: int|
                0 <= b < NUM_SENSORS as int implies out@[b] == (before[b] || seq_sets_band(
                *config,
                pts,
                b,
            )) by {
                assert(out@[b] == (before[b] || seq_sets_band(
                    *config,
                    pts.take(j as int),
                    b,
                )));
            }
            let ghost hh = h as int;
            assert(frame.hands@.take(hh + 1)[hh] == frame.hands@[hh]);
            lemma_hands_set_band_snoc(*config, frame.hands@, hh);
            assert(pts == tested_points(frame.hands@[hh], config.check_fingers));
            assert forall|b: int|
                0 <= b < NUM_SENSORS as int implies out@[b] == hands_set_band(
                *config,
                frame.hands@.take(hh + 1),
                b,
            ) by {
                assert(out@[b] == (before[b] || seq_sets_band(*config, pts, b)));
                assert(before[b] == hands_set_band(*config, frame.hands@.take(hh), b));
                assert(hands_set_band(*config, frame.hands@.take(hh + 1), b) == (hands_set_band(
                    *config,
                    frame.hands@.take(hh),
                    b,
                ) || seq_sets_band(
                    *config,
                    tested_points(frame.hands@[hh], config.check_fingers),
                    b,
                )));
            }
        }
        h += 1;
    }
    proof {
        assert(frame.hands@.take(frame.hands@.len() as int) =~= frame.hands@);
        assert(out@ =~= evaluate_spec(*frame, *config));
    }
    out
}

/// Determinism: the sensor state is a pure function of the frame and the
/// configuration — two evaluations of identical inputs are identical.
pub proof fn lemma_evaluate_deterministic(
    f: Frame,
    c: AirSensorConfig,
    r1: Seq<bool>,
    r2: Seq<bool>,
)
    requires
        r1 == evaluate_spec(f, c),
        r2 == evaluate_spec(f, c),
    ensures
        r1 == r2,
{
}

/// A frame with no hands yields the all-released state.
pub proof fn lemma_empty_frame(f: Frame, c: AirSensorConfig)
    requires
        f.hands@.len() == 0,
    ensures
        evaluate_spec(f, c) == all_false_spec(),
{
    assert(evaluate_spec(f, c) =~= all_false_spec());
}

/// Monotonicity of the OR-reduction: enlarging a frame — appending hands,
/// or appending digit joints to a hand while keeping its palm — never
/// clears a band that the smaller frame sets.
pub proof fn lemma_evaluate_monotonic(f1: Frame, f2: Frame, c: AirSensorConfig)
    requires
        f1.hands@.len() <= f2.hands@.len(),
        forall|h: int|
            0 <= h < f1.hands@.len() ==> (#[trigger] f2.hands@[h]).palm == f1.hands@[h].palm
                && f1.hands@[h].digit_joints@.is_prefix_of(f2.hands@[h].digit_joints@),
    ensures
        forall|b: int|
            0 <= b < NUM_SENSORS as int ==> (evaluate_spec(f1, c)[b]
                ==> #[trigger] evaluate_spec(f2, c)[b]),
{
    assert forall|b: int|
        0 <= b < NUM_SENSORS as int && evaluate_spec(f1, c)[b] implies #[trigger] evaluate_spec(
        f2,
        c,
    )[b] by {
        assert(frame_sets_band(f1, c, b));
        let h = choose|h: int|
            0 <= h < f1.hands@.len() && #[trigger] seq_sets_band(
                c,
                tested_points(f1.hands@[h], c.check_fingers),
                b,
            );
        let ps1 = tested_points(f1.hands@[h], c.check_fingers);
        let ps2 = tested_points(f2.hands@[h], c.check_fingers);
        let j = choose|j: int| 0 <= j < ps1.len() && #[trigger] point_sets_band(c, ps1[j], b);
        assert(ps1.len() <= ps2.len());
        assert(ps2[j] == ps1[j]);
        assert(seq_sets_band(c, ps2, b));
        assert(frame_sets_band(f2, c, b));
    }
}

/// With `check_fingers` off, the sensor state depends on the palms alone:
/// frames whose hands agree on every palm evaluate identically, whatever
/// their digit joints hold.
pub proof fn lemma_palm_only(f1: Frame, f2: Frame, c: AirSensorConfig)
    requires
        !c.check_fingers,
        f1.hands@.len() == f2.hands@.len(),
        forall|h: int|
            0 <= h < f1.hands@.len() ==> (#[trigger] f2.hands@[h]).palm == f1.hands@[h].palm,
    ensures
        evaluate_spec(f1, c) == evaluate_spec(f2, c),
{
    assert forall|b: int|
        0 <= b < NUM_SENSORS as int implies frame_sets_band(f1, c, b) == frame_sets_band(
        f2,
        c,
        b,
    ) by {
        if frame_sets_band(f1, c, b) {
            let h = choose|h: int|
                0 <= h < f1.hands@.len() && #[trigger] seq_sets_band(
                    c,
                    tested_points(f1.hands@[h], c.check_fingers),
                    b,
                );
            assert(tested_points(f1.hands@[h], c.check_fingers) =~= tested_points(
                f2.hands@[h],
                c.check_fingers,
            ));
            assert(frame_sets_band(f2, c, b));
        }
        if frame_sets_band(f2, c, b) {
            let h = choose|h: int|
                0 <= h < f2.hands@.len() && #[trigger] seq_sets_band(
                    c,
                    tested_points(f2.hands@[h], c.check_fingers),
                    b,
                );
            assert(tested_points(f2.hands@[h], c.check_fingers) =~= tested_points(
                f1.hands@[h],
                c.check_fingers,
            ));
            assert(frame_sets_band(f1, c, b));
        }
    }
    assert(evaluate_spec(f1, c) =~= evaluate_spec(f2, c));
}

} // verus!
