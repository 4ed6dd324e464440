//! Sums and products of whole slices of `BoundedRational`s, step by step
//! through `add` and `multiply`.
use crate::evaluation::bounded_rational::{exceeds_size, lemma_same_size, BoundedRational};
use crate::rational::{
    lemma_rat_add_congruent, lemma_rat_eq_trans, lemma_rat_mul_congruent, rat_add, rat_eq,
    rat_mul, Frac,
};
use vstd::prelude::*;

verus! {

/// The fractions of a sequence of values.
pub open spec fn fracs_of(items: Seq<BoundedRational>) -> Seq<Frac> {
    Seq::new(items.len(), |i: int| items[i]@)
}

/// The exact sum of the fractions, from `0/1`, left to right.
pub open spec fn sum_spec(xs: Seq<Frac>) -> Frac
    decreases xs.len(),
{
    if xs.len() == 0 {
        (0, 1)
    } else {
        rat_add(sum_spec(xs.drop_last()), xs.last())
    }
}

/// The exact product of the fractions, from `1/1`, left to right.
pub open spec fn product_spec(xs: Seq<Frac>) -> Frac
    decreases xs.len(),
{
    if xs.len() == 0 {
        (1, 1)
    } else {
        rat_mul(product_spec(xs.drop_last()), xs.last())
    }
}

impl BoundedRational {
    /// The sum of all the values, `0` for none; each partial sum goes
    /// through `add`, so the result is `None` when some partial sum, in
    /// lowest terms, has more than `MAX_SIZE` bits.
    pub fn sum_all(items: &[BoundedRational]) -> (r: Option<BoundedRational>)
        ensures
            r is None <==> exists|k: int|
                1 <= k <= items@.len() && #[trigger] exceeds_size(
                    sum_spec(fracs_of(items@).take(k)),
                ),
            r matches Some(z) ==> rat_eq(z@, sum_spec(fracs_of(items@))) && z@.1 != 0,
    {
        let ghost xs = fracs_of(items@);
        let mut acc = BoundedRational::from_long(0);
        let mut i: usize = 0;
        proof {
            assert(xs.take(0) =~= Seq::<Frac>::empty());
        }
        while i < items.len()
            invariant
                i <= items.len(),
                xs == fracs_of(items@),
                rat_eq(acc@, sum_spec(xs.take(i as int))),
                acc@.1 != 0,
                sum_spec(xs.take(i as int)).1 != 0,
                forall|k: int| 1 <= k <= i ==> !#[trigger] exceeds_size(sum_spec(xs.take(k))),
            decreases items.len() - i,
        {
            let x = items[i].clone();
            let ghost prev = sum_spec(xs.take(i as int));
            proof {
                use_type_invariant(&x);
                assert(xs.take(i + 1).drop_last() =~= xs.take(i as int));
                assert(xs.take(i + 1).last() == x@);
                lemma_rat_add_congruent(acc@, x@, prev, x@);
                assert(rat_eq(x@, x@));
                assert(prev.1 * x@.1 != 0 && acc@.1 * x@.1 != 0) by (nonlinear_arith)
                    requires
                        prev.1 != 0,
                        acc@.1 != 0,
                        x@.1 != 0,
                ;
                lemma_same_size(rat_add(acc@, x@), sum_spec(xs.take(i + 1)));
            }
            let ghost a = acc@;
            match BoundedRational::add(Some(acc), Some(x)) {
                Some(z) => {
                    proof {
                        lemma_rat_eq_trans(z@, rat_add(a, x@), sum_spec(xs.take(i + 1)));
                    }
                    acc = z;
                },
                None => {
                    return None;
                },
            }
            i = i + 1;
        }
        assert(xs.take(items.len() as int) =~= xs);
        Some(acc)
    }

    /// The product of all the values, `1` for none; each partial product
    /// goes through `multiply`, so the result is `None` when some partial
    /// product, in lowest terms, has more than `MAX_SIZE` bits.
    pub fn product_all(items: &[BoundedRational]) -> (r: Option<BoundedRational>)
        ensures
            r is None <==> exists|k: int|
                1 <= k <= items@.len() && #[trigger] exceeds_size(
                    product_spec(fracs_of(items@).take(k)),
                ),
            r matches Some(z) ==> rat_eq(z@, product_spec(fracs_of(items@))) && z@.1 != 0,
    {
        let ghost xs = fracs_of(items@);
        let mut acc = BoundedRational::from_long(1);
        let mut i: usize = 0;
        proof {
            assert(xs.take(0) =~= Seq::<Frac>::empty());
        }
        while i < items.len()
            invariant
                i <= items.len(),
                xs == fracs_of(items@),
                rat_eq(acc@, product_spec(xs.take(i as int))),
                acc@.1 != 0,
                product_spec(xs.take(i as int)).1 != 0,
                forall|k: int| 1 <= k <= i ==> !#[trigger] exceeds_size(product_spec(xs.take(k))),
            decreases items.len() - i,
        {
            let x = items[i].clone();
            let ghost prev = product_spec(xs.take(i as int));
            proof {
                use_type_invariant(&x);
                assert(xs.take(i + 1).drop_last() =~= xs.take(i as int));
                assert(xs.take(i + 1).last() == x@);
                lemma_rat_mul_congruent(acc@, x@, prev, x@);
                assert(rat_eq(x@, x@));
                assert(prev.1 * x@.1 != 0 && acc@.1 * x@.1 != 0) by (nonlinear_arith)
                    requires
                        prev.1 != 0,
                        acc@.1 != 0,
                        x@.1 != 0,
                ;
                lemma_same_size(rat_mul(acc@, x@), product_spec(xs.take(i + 1)));
            }
            let ghost a = acc@;
            match BoundedRational::multiply(Some(acc), Some(x)) {
                Some(z) => {
                    proof {
                        lemma_rat_eq_trans(z@, rat_mul(a, x@), product_spec(xs.take(i + 1)));
                    }
                    acc = z;
                },
                None => {
                    return None;
                },
            }
            i = i + 1;
        }
        assert(xs.take(items.len() as int) =~= xs);
        Some(acc)
    }
}

} // verus!
