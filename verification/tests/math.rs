use kp::config::compute_trend_power;
use kp::math::{
    compute_attend_power_with, compute_content_power, compute_judge_power, compute_plain_power,
    Ratio,
};
use kp::maxima::{compute_comment_action_rate, update_comment_max, update_max};
use kp::CommentTrend::{Empty, Negative, Positive};
use kp::{CommentMaxRecord, DocumentPower, PowerSum};

#[test]
fn ratio_is_capped_and_zero_for_a_zero_maximum() {
    assert_eq!(Ratio::of(0, 0).parts(), 0);
    assert_eq!(Ratio::of(5, 0).parts(), 0);
    assert_eq!(Ratio::of(0, 5).parts(), 0);
    assert_eq!(Ratio::of(5, 5).parts(), 1_000_000_000);
    assert_eq!(Ratio::of(9, 5).parts(), 1_000_000_000);
    assert_eq!(Ratio::of(1, 3).parts(), 333_333_333);
    assert_eq!(Ratio::of(2, 3).parts(), 666_666_666);
    assert_eq!(Ratio::of(u64::MAX, u64::MAX).parts(), 1_000_000_000);
    assert_eq!(Ratio::of(u64::MAX - 1, u64::MAX).parts(), 999_999_999);
    assert_eq!(Ratio::from_parts(5_000_000_000).parts(), 1_000_000_000);
    assert_eq!(Ratio::zero().parts(), 0);
    assert_eq!(Ratio::one().parts(), 1_000_000_000);
}

#[test]
fn content_power_formula() {
    let one = Ratio::one();
    assert_eq!(compute_content_power(one, 60, one, 40, 30, 15), 450);
    assert_eq!(compute_content_power(Ratio::zero(), 60, Ratio::zero(), 40, 30, 15), 0);
    assert_eq!(compute_content_power(Ratio::of(1, 2), 60, Ratio::of(1, 4), 40, 30, 15), 180);
    // truncation happens once, at the end
    assert_eq!(compute_content_power(Ratio::of(1, 3), 50, Ratio::of(1, 3), 50, 100, 1), 33);
    assert_eq!(compute_content_power(one, 255, one, 255, 255, 255), 331_627);
}

#[test]
fn power_weights_commute() {
    let a = Ratio::of(3, 7);
    let b = Ratio::of(5, 9);
    assert_eq!(
        compute_content_power(a, 60, b, 40, 30, 15),
        compute_content_power(a, 60, b, 40, 15, 30)
    );
    assert_eq!(
        compute_content_power(a, 60, b, 40, 30, 15),
        compute_content_power(b, 40, a, 60, 30, 15)
    );
    let rates = (a, b, Ratio::one(), Ratio::zero());
    assert_eq!(
        compute_attend_power_with(rates, (35, 40, 20, 5), 40, 25),
        compute_attend_power_with(rates, (35, 40, 20, 5), 25, 40)
    );
}

#[test]
fn attend_and_judge_power_formulas() {
    let one = Ratio::one();
    assert_eq!(compute_attend_power_with((one, one, one, one), (35, 40, 20, 5), 40, 15), 600);
    let half = Ratio::of(1, 2);
    assert_eq!(compute_attend_power_with((one, half, half, Ratio::zero()), (35, 40, 20, 5), 100, 10), 650);
    assert_eq!(compute_attend_power_with((one, one, one, one), (255, 255, 255, 255), 255, 255), 663_255);
    assert_eq!(compute_judge_power(one, 15, 30), 450);
    assert_eq!(compute_judge_power(Ratio::from_parts(375_000_000), 25, 30), 281);
    assert_eq!(compute_judge_power(one, 255, 255), 65_025);
    assert_eq!(compute_plain_power(one), 10000);
    assert_eq!(compute_plain_power(Ratio::from_parts(375_000_000)), 3750);
    assert_eq!(compute_plain_power(Ratio::zero()), 0);
}

#[test]
fn trend_power_table() {
    let table = [
        (Empty, Empty, 1_000_000_000u64),
        (Negative, Negative, 0),
        (Positive, Positive, 375_000_000),
        (Positive, Negative, 250_000_000),
        (Negative, Positive, 250_000_000),
        (Empty, Negative, 500_000_000),
        (Negative, Empty, 500_000_000),
        (Empty, Positive, 750_000_000),
        (Positive, Empty, 750_000_000),
    ];
    for (expert, platform, parts) in table.iter() {
        assert_eq!(compute_trend_power(*expert, *platform).parts(), *parts);
    }
}

#[test]
fn update_max_uses_the_maximum_after_the_update() {
    let (max, ratio) = update_max(32, 0);
    assert_eq!((max, ratio.parts()), (32, 1_000_000_000));
    let (max, ratio) = update_max(16, 32);
    assert_eq!((max, ratio.parts()), (32, 500_000_000));
    let (max, ratio) = update_max(0, 0);
    assert_eq!((max, ratio.parts()), (0, 0));
    let (max, ratio) = update_max(0, 9);
    assert_eq!((max, ratio.parts()), (9, 0));
    let (max, ratio) = update_max(40, 32);
    assert_eq!((max, ratio.parts()), (40, 1_000_000_000));
}

#[test]
fn stored_maximum_is_non_decreasing() {
    let values: [u64; 8] = [3, 1, 4, 1, 5, 9, 2, 6];
    let mut max: u64 = 0;
    for v in values.iter() {
        let (next, _) = update_max(*v, max);
        assert!(next >= max);
        assert!(next >= *v);
        max = next;
    }
    assert_eq!(max, 9);
}

#[test]
fn comment_maxima_rise_field_by_field() {
    let mut max = CommentMaxRecord { max_count: 2, max_fee: 100, max_positive: 1, max_unit_fee: 50 };
    assert!(!update_comment_max(&mut max, 2, 100, 1, 50));
    assert!(!update_comment_max(&mut max, 1, 10, 0, 5));
    assert_eq!(max, CommentMaxRecord { max_count: 2, max_fee: 100, max_positive: 1, max_unit_fee: 50 });
    assert!(update_comment_max(&mut max, 3, 90, 0, 60));
    assert_eq!(max, CommentMaxRecord { max_count: 3, max_fee: 100, max_positive: 1, max_unit_fee: 60 });
    let rates = compute_comment_action_rate(&max, 6, 50, 1, 15);
    assert_eq!(rates.0.parts(), 1_000_000_000);
    assert_eq!(rates.1.parts(), 500_000_000);
    assert_eq!(rates.2.parts(), 250_000_000);
    assert_eq!(rates.3.parts(), 1_000_000_000);
    let none = CommentMaxRecord { max_count: 0, max_fee: 0, max_positive: 0, max_unit_fee: 0 };
    let rates = compute_comment_action_rate(&none, 6, 50, 1, 15);
    assert_eq!(
        (rates.0.parts(), rates.1.parts(), rates.2.parts(), rates.3.parts()),
        (0, 0, 0, 0)
    );
}

#[test]
fn document_power_adds_part_by_part() {
    let a = DocumentPower { attend: 1, content: 2, judge: 3 };
    let b = DocumentPower { attend: 10, content: 20, judge: 30 };
    assert_eq!(a + b, DocumentPower { attend: 11, content: 22, judge: 33 });
    assert_eq!(a.total(), 6);
    assert_eq!((a + b).total(), 66);
    let big = DocumentPower { attend: u64::MAX, content: 1, judge: 0 };
    assert_eq!(big.total(), u64::MAX);
    assert_eq!((big + a).attend, u64::MAX);
    assert_eq!(DocumentPower::empty().total(), 0);
}

#[test]
fn document_power_is_taken_away_part_by_part() {
    let a = DocumentPower { attend: 10, content: 20, judge: 30 };
    let b = DocumentPower { attend: 1, content: 20, judge: 31 };
    assert_eq!(a.without(&b), DocumentPower { attend: 9, content: 0, judge: 0 });
    assert_eq!(a.without(&DocumentPower::empty()), a);
    assert_eq!(&a + &b, DocumentPower { attend: 11, content: 40, judge: 61 });
}
