use core::ops::{Range, RangeBounds};
use intervals::types::interval_relaxed::IntervalDynamicRelaxed as LegacyRelaxed;
use intervals::{
    finite_bound_value, is_ordered, low_before_high, Bound, Endpoint, IntervalDynamicRelaxed, IntervalDynamicStrict,
    IntervalDynamicStrictMapError, IntervalStrictFinite, IntervalStrictFiniteExcExc, IntervalStrictFiniteExcInc,
    IntervalStrictFiniteIncExc, IntervalStrictFiniteIncInc, IntervalStrictFiniteMapError, Length, Overlaps,
    TryFromIntervalDynamicRelaxedForIntervalDynamicStrictError, TryFromIntervalDynamicRelaxedForRangeError,
    TryFromTupleForIntervalDynamicStrictError, TryFromTupleForIntervalStrictFiniteError, EXCLUDED, INCLUDED,
};

use Bound::{Excluded, Included, Unbounded};

#[test]
fn length_returns_none_when_strict_interval_length_overflows_output_type() {
    let interval = IntervalStrictFiniteIncInc::new_ordered(i8::MIN, i8::MAX);
    let length = interval.length();
    assert!(length.is_none(), "strict interval length must overflow the output type: {:?}", length);

    let direct_difference = i8::MAX.checked_sub(i8::MIN);
    assert!(direct_difference.is_none(), "direct i8 subtraction must overflow the output type: {:?}", direct_difference);
}

#[test]
fn finite_bound_value_returns_the_value_of_finite_bounds() {
    assert_eq!(finite_bound_value(&Included(3)), Some(&3));
    assert_eq!(finite_bound_value(&Excluded(-4)), Some(&-4));
    assert_eq!(finite_bound_value::<i32>(&Unbounded), None);
}

#[test]
fn is_ordered_compares_finite_values_only() {
    assert!(is_ordered(&Included(1), &Excluded(2)));
    assert!(is_ordered(&Excluded(2), &Excluded(2)));
    assert!(!is_ordered(&Included(3), &Included(2)));
    assert!(is_ordered(&Unbounded, &Included(2)));
    assert!(is_ordered(&Included(9), &Unbounded));
    assert!(is_ordered::<u8>(&Unbounded, &Unbounded));
}

#[test]
fn is_ordered_is_total_on_finite_bounds() {
    for (x, y) in [(Included(1), Excluded(5)), (Excluded(5), Included(1)), (Included(3), Included(3))] {
        assert!(is_ordered(&x, &y) || is_ordered(&y, &x));
    }
}

#[test]
fn low_before_high_allows_equal_values_only_when_both_included() {
    assert!(low_before_high(&Included(2), &Included(2)));
    assert!(!low_before_high(&Included(2), &Excluded(2)));
    assert!(!low_before_high(&Excluded(2), &Included(2)));
    assert!(!low_before_high(&Excluded(2), &Excluded(2)));
    assert!(low_before_high(&Excluded(1), &Excluded(2)));
    assert!(low_before_high(&Unbounded, &Excluded(i64::MIN)));
    assert!(low_before_high(&Included(i64::MAX), &Unbounded));
    // a lower bound that precedes an upper bound is ordered with it
    assert!(is_ordered(&Excluded(1), &Excluded(2)));
}

#[test]
fn endpoint_comparisons_and_difference() {
    assert!(3u16.value_le(&3));
    assert!(!3u16.value_lt(&3));
    assert!((-1i32).value_lt(&0));
    assert_eq!(10i64.checked_difference(&-5), Some(15));
    assert_eq!(0u8.checked_difference(&1), None);
}

#[test]
fn relaxed_constructors_and_accessors() {
    let x = IntervalDynamicRelaxed::new(Included(1), Unbounded);
    assert_eq!(x.a(), &Included(1));
    assert_eq!(x.b(), &Unbounded);
    assert_eq!(x.dissolve(), (Included(1), Unbounded));
    let y = IntervalDynamicRelaxed::new_inclusive_exclusive(2, 5);
    assert_eq!(y, IntervalDynamicRelaxed { a: Included(2), b: Excluded(5) });
    let z: IntervalDynamicRelaxed<i32> = (Excluded(1), Included(4)).into();
    assert_eq!(z, IntervalDynamicRelaxed::new(Excluded(1), Included(4)));
    let w: IntervalDynamicRelaxed<i32> = (3..7).into();
    assert_eq!(w, IntervalDynamicRelaxed::new(Included(3), Excluded(7)));
}

#[test]
fn relaxed_new_ordered_swaps_unordered_bounds() {
    let x = IntervalDynamicRelaxed::new_ordered(Included(5), Excluded(1));
    assert_eq!(x, IntervalDynamicRelaxed::new(Excluded(1), Included(5)));
    let y = IntervalDynamicRelaxed::new_ordered(Included(1), Excluded(5));
    assert_eq!(y, IntervalDynamicRelaxed::new(Included(1), Excluded(5)));
    let z = IntervalDynamicRelaxed::new_ordered(Unbounded, Included(-3));
    assert_eq!(z, IntervalDynamicRelaxed::new(Unbounded, Included(-3)));
}

#[test]
fn relaxed_normalize_is_idempotent() {
    let mut x = IntervalDynamicRelaxed::new(Included(9u8), Included(2));
    x.normalize();
    assert_eq!(x, IntervalDynamicRelaxed::new(Included(2), Included(9)));
    let once = x;
    x.normalize();
    assert_eq!(x, once);
}

#[test]
fn relaxed_length_is_the_distance_between_finite_bounds() {
    assert_eq!(IntervalDynamicRelaxed::new(Included(7u32), Excluded(2)).length(), Some(5));
    assert_eq!(IntervalDynamicRelaxed::new(Included(2u32), Excluded(7)).length(), Some(5));
    assert_eq!(IntervalDynamicRelaxed::new(Included(2u32), Unbounded).length(), None);
    assert_eq!(IntervalDynamicRelaxed::new(Included(i8::MAX), Included(i8::MIN)).length(), None);
    // normalizing keeps the length
    let mut x = IntervalDynamicRelaxed::new(Included(30i16), Excluded(-10));
    let before = x.length();
    x.normalize();
    assert_eq!(x.length(), before);
    assert_eq!(before, Some(40));
}

#[test]
fn relaxed_overlaps_checks_both_intervals_and_their_crossing() {
    let x = IntervalDynamicRelaxed::new(Included(0), Excluded(5));
    let y = IntervalDynamicRelaxed::new(Included(4), Excluded(9));
    let z = IntervalDynamicRelaxed::new(Included(5), Excluded(9));
    assert!(x.overlaps(&y));
    assert!(y.overlaps(&x));
    assert!(!x.overlaps(&z));
    assert!(!z.overlaps(&x));
    // an interval whose bounds are not in order overlaps nothing
    let reversed = IntervalDynamicRelaxed::new(Excluded(9), Included(0));
    assert!(!reversed.overlaps(&x));
    assert!(!Overlaps::overlaps(&x, &reversed));
    let all = IntervalDynamicRelaxed::<i32>::new(Unbounded, Unbounded);
    assert!(all.overlaps(&x));
}

#[test]
fn relaxed_converts_into_a_range_only_from_included_start_and_excluded_end() {
    let range: Result<Range<i32>, _> = IntervalDynamicRelaxed::new(Included(1), Excluded(4)).try_into();
    assert_eq!(range.unwrap(), 1..4);
    let failed: Result<Range<i32>, _> = IntervalDynamicRelaxed::new(Excluded(1), Excluded(4)).try_into();
    match failed {
        Err(TryFromIntervalDynamicRelaxedForRangeError::ConversionFailed { a, b }) => {
            assert_eq!(a, Excluded(1));
            assert_eq!(b, Excluded(4));
        },
        Ok(_) => panic!("an excluded start is not a range"),
    }
    // a range turned into an interval turns back into the same range
    let back: Result<Range<u64>, _> = IntervalDynamicRelaxed::from(10u64..20).try_into();
    assert_eq!(back.unwrap(), 10..20);
}

#[test]
fn relaxed_range_bounds() {
    let x = IntervalDynamicRelaxed::new(Included(1), Unbounded);
    assert_eq!(x.start_bound(), core::ops::Bound::Included(&1));
    assert_eq!(x.end_bound(), core::ops::Bound::Unbounded);
    assert!(x.contains(&100));
    assert!(!x.contains(&0));
}

#[test]
fn strict_new_ordered_swaps_unordered_bounds() {
    let x = IntervalDynamicStrict::new_ordered(Included(3u8), Excluded(1));
    assert_eq!(x.lo(), &Excluded(1));
    assert_eq!(x.hi(), &Included(3));
    let y = IntervalDynamicStrict::new_ordered(Unbounded, Excluded(1i32));
    assert_eq!(y.lo(), &Unbounded);
    assert_eq!(y.hi(), &Excluded(1));
}

#[test]
fn strict_try_from_tuple_checks_the_order() {
    let ok = IntervalDynamicStrict::try_from((Included(2i32), Excluded(2))).unwrap();
    assert_eq!(ok.lo(), &Included(2));
    let (lo, hi): (Bound<i32>, Bound<i32>) = ok.into();
    assert_eq!((lo, hi), (Included(2), Excluded(2)));
    match IntervalDynamicStrict::try_from((Included(3i32), Excluded(2))) {
        Err(TryFromTupleForIntervalDynamicStrictError::OrderCheckFailed { lo, hi }) => {
            assert_eq!(lo, Included(3));
            assert_eq!(hi, Excluded(2));
        },
        Ok(_) => panic!("unordered bounds were accepted"),
    }
}

#[test]
fn strict_and_relaxed_convert_into_each_other() {
    let strict = IntervalDynamicStrict::try_from(IntervalDynamicRelaxed::new(Included(-2i64), Unbounded)).unwrap();
    assert_eq!(strict.lo(), &Included(-2));
    let relaxed: IntervalDynamicRelaxed<i64> = strict.into();
    assert_eq!(relaxed, IntervalDynamicRelaxed::new(Included(-2), Unbounded));
    let again = IntervalDynamicStrict::try_from(relaxed).unwrap();
    assert_eq!(again, strict);
    match IntervalDynamicStrict::try_from(IntervalDynamicRelaxed::new(Included(5u16), Included(4))) {
        Err(TryFromIntervalDynamicRelaxedForIntervalDynamicStrictError::OrderCheckFailed { a, b }) => {
            assert_eq!(a, Included(5));
            assert_eq!(b, Included(4));
        },
        Ok(_) => panic!("unordered bounds were accepted"),
    }
}

#[test]
fn strict_length() {
    assert_eq!(IntervalDynamicStrict::new_ordered(Included(-100i8), Excluded(27)).length(), Some(127));
    assert_eq!(IntervalDynamicStrict::new_ordered(Included(-100i8), Excluded(28)).length(), None);
    assert_eq!(IntervalDynamicStrict::new_ordered(Unbounded, Excluded(28i8)).length(), None);
    assert_eq!(IntervalDynamicStrict::new_ordered(Included(3usize), Excluded(3)).length(), Some(0));
}

#[test]
fn strict_overlaps_is_symmetric() {
    let x = IntervalDynamicStrict::new_ordered(Included(0), Included(5));
    let y = IntervalDynamicStrict::new_ordered(Included(5), Excluded(9));
    let z = IntervalDynamicStrict::new_ordered(Excluded(5), Excluded(9));
    assert!(x.overlaps(&y));
    assert!(y.overlaps(&x));
    assert!(!x.overlaps(&z));
    assert!(!z.overlaps(&x));
    let empty = IntervalDynamicStrict::new_ordered(Included(2), Excluded(2));
    assert!(!empty.overlaps(&x));
}

#[test]
fn strict_map_checks_the_order_of_the_results() {
    let x = IntervalDynamicStrict::new_ordered(Included(1i32), Excluded(4));
    let doubled = x
        .map(|b| match b {
            Included(v) => Included(i64::from(v) * 2),
            Excluded(v) => Excluded(i64::from(v) * 2),
            Unbounded => Unbounded,
        })
        .unwrap();
    assert_eq!(doubled.lo(), &Included(2));
    assert_eq!(doubled.hi(), &Excluded(8));
    let negated = x.map(|b| match b {
        Included(v) => Included(-v),
        Excluded(v) => Excluded(-v),
        Unbounded => Unbounded,
    });
    match negated {
        Err(IntervalDynamicStrictMapError::TryFromFailed {
            source: TryFromTupleForIntervalDynamicStrictError::OrderCheckFailed { lo, hi },
        }) => {
            assert_eq!(lo, Included(-1));
            assert_eq!(hi, Excluded(-4));
        },
        Ok(_) => panic!("unordered bounds were accepted"),
    }
    let shifted = x.map_unchecked(|b| match b {
        Included(v) => Included(v + 10),
        Excluded(v) => Excluded(v + 10),
        Unbounded => Unbounded,
    });
    assert_eq!(shifted.lo(), &Included(11));
    assert_eq!(shifted.hi(), &Excluded(14));
}

#[test]
fn strict_range_bounds() {
    let x = IntervalDynamicStrict::new_ordered(Excluded(1), Included(3));
    assert_eq!(x.start_bound(), core::ops::Bound::Excluded(&1));
    assert_eq!(x.end_bound(), core::ops::Bound::Included(&3));
    assert!(x.contains(&3));
    assert!(!x.contains(&1));
}

#[test]
fn strict_finite_new_ordered_is_symmetric() {
    let x = IntervalStrictFiniteIncExc::new_ordered(9u32, 4);
    let y = IntervalStrictFiniteIncExc::new_ordered(4u32, 9);
    assert_eq!(x, y);
    assert_eq!((*x.lo(), *x.hi()), (4, 9));
    let (lo, hi): (u32, u32) = x.into();
    assert_eq!((lo, hi), (4, 9));
}

#[test]
fn strict_finite_try_from_checks_the_order() {
    let ok = IntervalStrictFiniteExcInc::try_from((3i16, 3)).unwrap();
    assert_eq!((*ok.lo(), *ok.hi()), (3, 3));
    match IntervalStrictFiniteExcInc::try_from((4i16, 3)) {
        Err(TryFromTupleForIntervalStrictFiniteError::OrderCheckFailed { lo, hi }) => assert_eq!((lo, hi), (4, 3)),
        Ok(_) => panic!("unordered endpoints were accepted"),
    }
    let (lo, hi): (i16, i16) = ok.into();
    let back = IntervalStrictFiniteExcInc::try_from((lo, hi)).unwrap();
    assert_eq!(back, ok);
}

#[test]
fn strict_finite_map() {
    let x = IntervalStrictFiniteIncInc::new_ordered(2u8, 6);
    let squared = x.map(|v| u16::from(v) * u16::from(v)).unwrap();
    assert_eq!((*squared.lo(), *squared.hi()), (4, 36));
    match x.map(|v| 10 - i32::from(v)) {
        Err(IntervalStrictFiniteMapError::TryFromFailed {
            source: TryFromTupleForIntervalStrictFiniteError::OrderCheckFailed { lo, hi },
        }) => assert_eq!((lo, hi), (8, 4)),
        Ok(_) => panic!("unordered endpoints were accepted"),
    }
    let shifted = x.map_unchecked(|v| i64::from(v) - 100);
    assert_eq!((*shifted.lo(), *shifted.hi()), (-98, -94));
}

#[test]
fn strict_finite_length_of_each_endpoint_type() {
    assert_eq!(IntervalStrictFiniteIncInc::new_ordered(-3i8, 100).length(), Some(103));
    assert_eq!(IntervalStrictFiniteIncInc::new_ordered(-30000i16, 30000).length(), None);
    assert_eq!(IntervalStrictFiniteIncInc::new_ordered(-7i32, 8).length(), Some(15));
    assert_eq!(IntervalStrictFiniteIncInc::new_ordered(i64::MIN, 0).length(), None);
    assert_eq!(IntervalStrictFiniteIncInc::new_ordered(-1i128, 1).length(), Some(2));
    assert_eq!(IntervalStrictFiniteIncInc::new_ordered(isize::MIN, -1).length(), Some(isize::MAX));
    assert_eq!(IntervalStrictFiniteIncInc::new_ordered(0u8, u8::MAX).length(), Some(u8::MAX));
    assert_eq!(IntervalStrictFiniteIncInc::new_ordered(7u16, 3).length(), Some(4));
    assert_eq!(IntervalStrictFiniteIncInc::new_ordered(70u32, 3).length(), Some(67));
    assert_eq!(IntervalStrictFiniteIncInc::new_ordered(1u64, 3).length(), Some(2));
    assert_eq!(IntervalStrictFiniteIncInc::new_ordered(1u128, 300).length(), Some(299));
    assert_eq!(IntervalStrictFiniteIncInc::new_ordered(10usize, 4).length(), Some(6));
}

#[test]
fn strict_finite_overlaps_depends_on_included_endpoints() {
    let inc_inc = IntervalStrictFiniteIncInc::new_ordered(0, 5);
    let inc_exc = IntervalStrictFiniteIncExc::new_ordered(5, 9);
    let exc_exc = IntervalStrictFiniteExcExc::new_ordered(5, 9);
    let exc_inc = IntervalStrictFiniteExcInc::new_ordered(-3, 0);
    assert!(inc_inc.overlaps(&inc_exc));
    assert!(inc_exc.overlaps(&inc_inc));
    assert!(!inc_inc.overlaps(&exc_exc));
    assert!(!exc_exc.overlaps(&inc_inc));
    assert!(inc_inc.overlaps(&exc_inc));
    assert!(exc_inc.overlaps(&inc_inc));
    let left = IntervalStrictFiniteIncExc::new_ordered(0, 5);
    assert!(!left.overlaps(&inc_exc));
    assert!(!inc_exc.overlaps(&left));
    // an empty interval still overlaps by the endpoint comparison alone
    let point = IntervalStrictFiniteExcExc::new_ordered(1, 1);
    assert!(point.overlaps(&inc_inc));
}

#[test]
fn strict_finite_range_bounds() {
    let x: IntervalStrictFinite<i32, EXCLUDED, INCLUDED> = IntervalStrictFinite::new_ordered(1, 3);
    assert_eq!(x.start_bound(), core::ops::Bound::Excluded(&1));
    assert_eq!(x.end_bound(), core::ops::Bound::Included(&3));
    let y: IntervalStrictFinite<i32, INCLUDED, EXCLUDED> = IntervalStrictFinite::new_ordered(1, 3);
    assert_eq!(y.start_bound(), core::ops::Bound::Included(&1));
    assert_eq!(y.end_bound(), core::ops::Bound::Excluded(&3));
    assert!(y.contains(&1));
    assert!(!y.contains(&3));
}

#[test]
fn legacy_relaxed_overlaps_compares_starts_with_ends_only() {
    let x = LegacyRelaxed::new_inclusive_exclusive(0, 5);
    let y = LegacyRelaxed::new(Included(4), Excluded(9));
    assert!(x.overlaps(&y));
    assert!(y.overlaps(&x));
    // the bounds of each interval are not checked against each other
    let reversed = LegacyRelaxed::new(Included(4), Included(1));
    assert!(reversed.overlaps(&x));
    assert!(x.overlaps(&reversed));
    assert_eq!(x.clone().dissolve(), (Included(0), Excluded(5)));
    assert_eq!(x.a(), &Included(0));
    assert_eq!(x.b(), &Excluded(5));
    assert_eq!(x.into_range(), 0..5);
    let from_range: LegacyRelaxed<i32> = (2..3).into();
    assert_eq!(from_range, LegacyRelaxed::new(Included(2), Excluded(3)));
    let from_tuple: LegacyRelaxed<i32> = (Unbounded, Included(3)).into();
    assert_eq!(from_tuple, LegacyRelaxed::new(Unbounded, Included(3)));
}

#[test]
fn strict_and_relaxed_lengths_agree() {
    let relaxed = IntervalDynamicRelaxed::new(Excluded(-20i32), Included(13));
    let strict = IntervalDynamicStrict::try_from(relaxed).unwrap();
    assert_eq!(strict.length(), relaxed.length());
    assert_eq!(strict.length(), Some(33));
}

#[test]
fn strict_finite_overlaps_agrees_with_strict_for_non_empty_intervals() {
    let x = IntervalStrictFiniteIncExc::new_ordered(0, 5);
    let y = IntervalStrictFiniteExcInc::new_ordered(5, 8);
    let z = IntervalStrictFiniteIncInc::new_ordered(4, 8);
    let dx = IntervalDynamicStrict::new_ordered(Included(0), Excluded(5));
    let dy = IntervalDynamicStrict::new_ordered(Excluded(5), Included(8));
    let dz = IntervalDynamicStrict::new_ordered(Included(4), Included(8));
    assert_eq!(x.overlaps(&y), dx.overlaps(&dy));
    assert_eq!(x.overlaps(&z), dx.overlaps(&dz));
    assert_eq!(y.overlaps(&z), dy.overlaps(&dz));
    assert!(!x.overlaps(&y));
    assert!(x.overlaps(&z));
    assert!(y.overlaps(&z));
}
