use vstd::prelude::*;
use crate::text::{decimal, push_decimal};

verus! {

/// A detected target, in thousandths of a pixel of the puzzle image.
pub type MilliPoint = (u32, u32);

/// A coordinate in the vendor's answer encoding: hundredths of a percent of the
/// 333.375-pixel rendered width, rounded half up. With `m` in thousandths of a
/// pixel this is `m / 333375 * 10000 = m * 80 / 2667`.
pub open spec fn normalized(milli: nat) -> nat {
    (milli * 160 + 2667) / 5334
}

/// One target in the answer key: `X_Y`.
pub open spec fn point_text(p: MilliPoint) -> Seq<char> {
    decimal(normalized(p.0 as nat)) + "_"@ + decimal(normalized(p.1 as nat))
}

/// The click answer key: each target's text, in detection order, joined by `,`.
pub open spec fn click_key_text(points: Seq<MilliPoint>) -> Seq<char>
    decreases points.len(),
{
    if points.len() == 0 {
        Seq::empty()
    } else if points.len() == 1 {
        point_text(points[0])
    } else {
        click_key_text(points.drop_last()) + ","@ + point_text(points.last())
    }
}

/// Maps a coordinate in thousandths of a pixel into the vendor's encoding.
pub fn normalize_coordinate(milli: u32) -> (r: u64)
    ensures
        r == normalized(milli as nat),
{
    (milli as u64 * 160 + 2667) / 5334
}

/// Appends `X_Y` for one target.
fn push_point(out: &mut String, p: MilliPoint)
    ensures
        final(out)@ == old(out)@ + point_text(p),
{
    push_decimal(out, normalize_coordinate(p.0));
    out.append("_");
    push_decimal(out, normalize_coordinate(p.1));
    assert(final(out)@ =~= old(out)@ + point_text(p));
}

/// The answer key of a click puzzle from the detector's targets, order kept.
pub fn click_answer_key(points: &Vec<MilliPoint>) -> (r: String)
    ensures
        r@ == click_key_text(points@),
{
    let mut out = String::new();
    let mut i: usize = 0;
    while i < points.len()
        invariant
            i <= points@.len(),
            out@ == click_key_text(points@.subrange(0, i as int)),
        decreases points.len() - i,
    {
        let ghost before = points@.subrange(0, i as int);
        let ghost after = points@.subrange(0, i + 1);
        assert(after.drop_last() =~= before);
        if i > 0 {
            out.append(",");
        }
        push_point(&mut out, points[i]);
        assert(out@ =~= click_key_text(after));
        i = i + 1;
    }
    assert(points@.subrange(0, points@.len() as int) =~= points@);
    out
}

/// A target further right (or lower) never encodes to a smaller number.
pub proof fn lemma_normalized_monotonic(a: nat, b: nat)
    requires
        a <= b,
    ensures
        normalized(a) <= normalized(b),
{
    assert(a * 160 + 2667 <= b * 160 + 2667) by (nonlinear_arith)
        requires a <= b;
    vstd::arithmetic::div_mod::lemma_div_is_ordered((a * 160 + 2667) as int, (b * 160 + 2667) as int, 5334);
}

/// The numbers a key spells: each target's encoded `(x, y)`, in detection order.
pub open spec fn key_numbers(points: Seq<MilliPoint>) -> Seq<(nat, nat)> {
    points.map_values(|p: MilliPoint| (normalized(p.0 as nat), normalized(p.1 as nat)))
}

/// `X_Y` for one encoded pair.
pub open spec fn pair_text(n: (nat, nat)) -> Seq<char> {
    decimal(n.0) + "_"@ + decimal(n.1)
}

/// Encoded pairs spelled as a key: `X_Y` for each, joined by `,`.
pub open spec fn pairs_text(ns: Seq<(nat, nat)>) -> Seq<char>
    decreases ns.len(),
{
    if ns.len() == 0 {
        Seq::empty()
    } else if ns.len() == 1 {
        pair_text(ns[0])
    } else {
        pairs_text(ns.drop_last()) + ","@ + pair_text(ns.last())
    }
}

/// A click key is the spelling of its encoded pairs, so it is determined by them.
pub proof fn lemma_key_spells_numbers(points: Seq<MilliPoint>)
    ensures
        click_key_text(points) == pairs_text(key_numbers(points)),
    decreases points.len(),
{
    if points.len() > 1 {
        assert(key_numbers(points).drop_last() =~= key_numbers(points.drop_last()));
        lemma_key_spells_numbers(points.drop_last());
    }
}

/// Each coordinate is encoded monotonically and independently of the other: if
/// two detections differ only at target `i`, where neither coordinate of `q`
/// is smaller than that of `p`, the keys spell the same pairs except at `i`,
/// whose numbers do not decrease, and an unchanged coordinate keeps its number.
pub proof fn lemma_click_key_monotonic(p: Seq<MilliPoint>, q: Seq<MilliPoint>, i: int)
    requires
        p.len() == q.len(),
        0 <= i < p.len(),
        forall|j: int| 0 <= j < p.len() && j != i ==> p[j] == q[j],
        p[i].0 <= q[i].0,
        p[i].1 <= q[i].1,
    ensures
        click_key_text(p) == pairs_text(key_numbers(p)),
        click_key_text(q) == pairs_text(key_numbers(q)),
        key_numbers(p).len() == key_numbers(q).len(),
        forall|j: int| 0 <= j < p.len() && j != i ==> key_numbers(p)[j] == key_numbers(q)[j],
        key_numbers(p)[i].0 <= key_numbers(q)[i].0,
        key_numbers(p)[i].1 <= key_numbers(q)[i].1,
        p[i].0 == q[i].0 ==> key_numbers(p)[i].0 == key_numbers(q)[i].0,
        p[i].1 == q[i].1 ==> key_numbers(p)[i].1 == key_numbers(q)[i].1,
{
    lemma_key_spells_numbers(p);
    lemma_key_spells_numbers(q);
    lemma_normalized_monotonic(p[i].0 as nat, q[i].0 as nat);
    lemma_normalized_monotonic(p[i].1 as nat, q[i].1 as nat);
}

} // verus!
