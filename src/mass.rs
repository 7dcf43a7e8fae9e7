//! Mass moments of a body's colliders: the centre of mass of the colliders
//! that carry a mass of their own is `moment / total` on each axis.
use vstd::prelude::*;
use crate::body::ColliderRecord;

verus! {

/// Sums over the colliders that carry a mass: the mass-weighted position on
/// each axis and the total mass.
#[derive(Clone, Copy, Debug, PartialEq, Eq, Structural)]
pub struct MassMoment {
    pub x: i128,
    pub y: i128,
    pub z: i128,
    pub total: i128,
}

/// The exact sums, as mathematical integers, over `cs`.
pub open spec fn moment_of(cs: Seq<ColliderRecord>) -> (int, int, int, int)
    decreases cs.len(),
{
    if cs.len() == 0 {
        (0, 0, 0, 0)
    } else {
        let rest = moment_of(cs.drop_last());
        let c = cs.last();
        let p = c.transform.translation;
        match c.mass {
            Some(m) => (rest.0 + m * p.x, rest.1 + m * p.y, rest.2 + m * p.z, rest.3 + m),
            None => rest,
        }
    }
}

pub open spec fn fits(v: int) -> bool {
    i128::MIN <= v <= i128::MAX
}

/// Every partial sum over a prefix of `cs` fits in an `i128`.
pub open spec fn moment_fits(cs: Seq<ColliderRecord>) -> bool {
    forall|k: int|
        0 <= k <= cs.len() ==> {
            let s = #[trigger] moment_of(cs.take(k));
            fits(s.0) && fits(s.1) && fits(s.2) && fits(s.3)
        }
}

proof fn lemma_term_bound(m: u64, x: i64)
    ensures
        fits(m * x),
{
    assert(-0x8000_0000_0000_0000_0000_0000_0000_0000 <= m * x <= 0x7fff_ffff_ffff_ffff_ffff_ffff_ffff_ffff)
        by (nonlinear_arith)
        requires
            0 <= m <= 0xffff_ffff_ffff_ffff,
            -0x8000_0000_0000_0000 <= x <= 0x7fff_ffff_ffff_ffff,
    ;
}

/// The mass moment of `cs`, or `None` when a partial sum leaves the `i128`
/// range.
pub fn mass_moment(cs: &Vec<ColliderRecord>) -> (r: Option<MassMoment>)
    ensures
        r is Some <==> moment_fits(cs@),
        r matches Some(mm) ==> (mm.x as int, mm.y as int, mm.z as int, mm.total as int)
            == moment_of(cs@),
{
    let mut acc = MassMoment { x: 0, y: 0, z: 0, total: 0 };
    let mut i: usize = 0;
    assert(cs@.take(0) =~= Seq::<ColliderRecord>::empty());
    while i < cs.len()
        invariant
            0 <= i <= cs@.len(),
            (acc.x as int, acc.y as int, acc.z as int, acc.total as int) == moment_of(
                cs@.take(i as int),
            ),
            forall|k: int|
                0 <= k <= i ==> {
                    let s = #[trigger] moment_of(cs@.take(k));
                    fits(s.0) && fits(s.1) && fits(s.2) && fits(s.3)
                },
        decreases cs@.len() - i,
    {
        let c = cs[i];
        assert(cs@.take(i + 1).drop_last() =~= cs@.take(i as int));
        assert(cs@.take(i + 1).last() == c);
        if let Some(m) = c.mass {
            let p = c.transform.translation;
            proof {
                lemma_term_bound(m, p.x);
                lemma_term_bound(m, p.y);
                lemma_term_bound(m, p.z);
            }
            let sx = acc.x.checked_add(m as i128 * p.x as i128);
            let sy = acc.y.checked_add(m as i128 * p.y as i128);
            let sz = acc.z.checked_add(m as i128 * p.z as i128);
            let st = acc.total.checked_add(m as i128);
            match (sx, sy, sz, st) {
                (Some(x), Some(y), Some(z), Some(total)) => {
                    acc = MassMoment { x, y, z, total };
                },
                _ => {
                    assert(!moment_fits(cs@)) by {
                        let k = i + 1;
                        assert(0 <= k <= cs@.len());
                        let s = moment_of(cs@.take(k));
                        assert(!(fits(s.0) && fits(s.1) && fits(s.2) && fits(s.3)));
                    }
                    return None;
                },
            }
        }
        i += 1;
    }
    assert(cs@.take(i as int) =~= cs@);
    Some(acc)
}

} // verus!
