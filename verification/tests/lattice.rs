use yggdrasil_ir::counter::FieldCounter;
use yggdrasil_ir::operator::{chain_counter, YggdrasilOperator};

const ALL: [FieldCounter; 4] =
    [FieldCounter::Never, FieldCounter::Optional, FieldCounter::One, FieldCounter::Many];

#[test]
fn or_is_idempotent() {
    for a in ALL {
        assert_eq!(a.or(a), a);
    }
}

#[test]
fn or_widens_to_the_weaker_counter() {
    assert_eq!(FieldCounter::One.or(FieldCounter::Optional), FieldCounter::Optional);
    assert_eq!(FieldCounter::One.or(FieldCounter::Many), FieldCounter::Many);
    assert_eq!(FieldCounter::Optional.or(FieldCounter::Many), FieldCounter::Many);
    assert_eq!(FieldCounter::Never.or(FieldCounter::One), FieldCounter::Optional);
    assert_eq!(FieldCounter::Never.or(FieldCounter::Many), FieldCounter::Many);
}

#[test]
fn or_is_commutative_and_associative() {
    for a in ALL {
        for b in ALL {
            assert_eq!(a.or(b), b.or(a));
            for c in ALL {
                assert_eq!(a.or(b).or(c), a.or(b.or(c)));
            }
        }
    }
}

#[test]
fn and_with_never_is_never() {
    for a in ALL {
        assert_eq!(a.and(FieldCounter::Never), FieldCounter::Never);
        assert_eq!(FieldCounter::Never.and(a), FieldCounter::Never);
    }
}

#[test]
fn and_of_two_captures() {
    assert_eq!(FieldCounter::One.and(FieldCounter::One), FieldCounter::One);
    assert_eq!(FieldCounter::Optional.and(FieldCounter::Many), FieldCounter::Many);
    assert_eq!(FieldCounter::Optional.and(FieldCounter::Optional), FieldCounter::Many);
    assert_eq!(FieldCounter::One.and(FieldCounter::Optional), FieldCounter::Many);
}

#[test]
fn mul_composes_repetition() {
    assert_eq!(
        FieldCounter::One.mul(YggdrasilOperator::Repeats.counter()),
        FieldCounter::Many
    );
    assert_eq!(FieldCounter::One.mul(FieldCounter::Optional), FieldCounter::Optional);
    assert_eq!(FieldCounter::Optional.mul(FieldCounter::Many), FieldCounter::Many);
    assert_eq!(FieldCounter::Optional.mul(FieldCounter::Optional), FieldCounter::Optional);
    for a in ALL {
        assert_eq!(FieldCounter::Never.mul(a), FieldCounter::Never);
        assert_eq!(a.mul(FieldCounter::Never), FieldCounter::Never);
        assert_eq!(a.mul(FieldCounter::One), a);
        if a != FieldCounter::Never {
            assert_eq!(a.mul(FieldCounter::Many), FieldCounter::Many);
        }
    }
}

#[test]
fn or_absent_of_each_counter() {
    assert_eq!(FieldCounter::One.or_absent(), FieldCounter::Optional);
    assert_eq!(FieldCounter::Optional.or_absent(), FieldCounter::Optional);
    assert_eq!(FieldCounter::Many.or_absent(), FieldCounter::Many);
    assert_eq!(FieldCounter::Never.or_absent(), FieldCounter::Never);
}

#[test]
fn operators_from_signs() {
    assert_eq!(YggdrasilOperator::suffix("?"), YggdrasilOperator::Optional);
    assert_eq!(YggdrasilOperator::suffix("+"), YggdrasilOperator::Repeat1);
    assert_eq!(YggdrasilOperator::suffix("*"), YggdrasilOperator::Repeats);
    assert_eq!(YggdrasilOperator::prefix("*"), YggdrasilOperator::Recursive);
    assert_eq!(YggdrasilOperator::prefix("!"), YggdrasilOperator::Negative);
    assert_eq!(YggdrasilOperator::prefix("&"), YggdrasilOperator::Positive);
    assert_eq!(YggdrasilOperator::prefix("^"), YggdrasilOperator::Remark);
    assert_eq!(YggdrasilOperator::try_prefix("?"), None);
    assert_eq!(YggdrasilOperator::try_prefix("!!"), None);
    assert_eq!(YggdrasilOperator::try_suffix("!"), None);
    assert_eq!(YggdrasilOperator::try_suffix(""), None);
}

#[test]
fn counters_of_operators() {
    assert_eq!(YggdrasilOperator::Optional.counter(), FieldCounter::Optional);
    assert_eq!(YggdrasilOperator::Repeats.counter(), FieldCounter::Many);
    assert_eq!(YggdrasilOperator::Repeat1.counter(), FieldCounter::Many);
    assert_eq!(
        YggdrasilOperator::RepeatsBetween { min: 2, max: 5 }.counter(),
        FieldCounter::Many
    );
    assert_eq!(YggdrasilOperator::Negative.counter(), FieldCounter::Never);
    assert_eq!(YggdrasilOperator::Positive.counter(), FieldCounter::One);
    assert_eq!(YggdrasilOperator::Remark.counter(), FieldCounter::One);
    assert_eq!(YggdrasilOperator::Recursive.counter(), FieldCounter::One);
    assert_eq!(YggdrasilOperator::Boxing.counter(), FieldCounter::One);
}

#[test]
fn counter_of_a_chain() {
    assert_eq!(chain_counter(&vec![]), FieldCounter::One);
    assert_eq!(
        chain_counter(&vec![YggdrasilOperator::Optional, YggdrasilOperator::Repeat1]),
        FieldCounter::Many
    );
    assert_eq!(
        chain_counter(&vec![YggdrasilOperator::Optional, YggdrasilOperator::Optional]),
        FieldCounter::Optional
    );
    assert_eq!(
        chain_counter(&vec![YggdrasilOperator::Repeats, YggdrasilOperator::Negative]),
        FieldCounter::Never
    );
}
