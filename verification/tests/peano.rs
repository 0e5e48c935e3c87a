use generic_array::peano::{Succ, ToInt, Zero};

#[test]
fn peano_values() {
    assert_eq!(Zero::to_int(), 0);
    assert_eq!(<Succ<Zero>>::to_int(), 1);
    assert_eq!(<Succ<Succ<Succ<Succ<Zero>>>>>::to_int(), 4);
    assert_eq!(
        <Succ<Succ<Succ<Succ<Succ<Succ<Succ<Succ<Succ<Zero>>>>>>>>>>::to_int(),
        9
    );
}
