use recursive_array::{
    EmptyRecursiveArray, LengthMismatch, RecursiveArray, RecursiveArrayArrayWrapper,
    RecursiveArrayCompose, RecursiveArrayConcatenation, RecursiveArrayMultiplier,
    RecursiveArraySingleItem,
};

type Pair = RecursiveArrayConcatenation<u16, RecursiveArraySingleItem<u16>, RecursiveArraySingleItem<u16>>;
type Six = RecursiveArrayMultiplier<3, u16, Pair>;

#[test]
fn array_round_trip_keeps_elements() {
    let value = RecursiveArrayArrayWrapper::new([3u16, 1, 4])
        .append_back(RecursiveArrayArrayWrapper::new([1u16, 5, 9]));
    let original = value.as_slice().to_vec();
    let array = value.to_array::<6>().unwrap();
    assert_eq!(array, [3, 1, 4, 1, 5, 9]);
    let back = RecursiveArrayConcatenation::<
        u16,
        RecursiveArrayArrayWrapper<3, u16>,
        RecursiveArrayArrayWrapper<3, u16>,
    >::from_array(array)
    .unwrap();
    assert_eq!(back.as_slice(), original.as_slice());
}

#[test]
fn from_array_of_each_kind() {
    let six = Six::from_array([1, 2, 3, 4, 5, 6]).unwrap();
    assert_eq!(six.as_slice(), &[1, 2, 3, 4, 5, 6]);
    let single = RecursiveArraySingleItem::from_array([8u16]).unwrap();
    assert_eq!(single.as_slice(), &[8]);
    let wrapped = RecursiveArrayArrayWrapper::<2, u16>::from_array([4, 5]).unwrap();
    assert_eq!(wrapped.as_slice(), &[4, 5]);
    let empty = <EmptyRecursiveArray as RecursiveArray<u16>>::from_array([]);
    assert_eq!(empty, Ok(EmptyRecursiveArray));
}

#[test]
fn from_array_wrong_length_fails() {
    let short = Six::from_array([1, 2, 3, 4, 5]);
    assert_eq!(short.err(), Some(LengthMismatch { expected: Some(6), found: 5 }));
    let single = RecursiveArraySingleItem::<u16>::from_array([1, 2]);
    assert_eq!(single.err(), Some(LengthMismatch { expected: Some(1), found: 2 }));
    let empty = <EmptyRecursiveArray as RecursiveArray<u16>>::from_array([1]);
    assert_eq!(empty, Err(LengthMismatch { expected: Some(0), found: 1 }));
}

#[test]
fn to_array_of_each_kind() {
    let single = RecursiveArraySingleItem::new(2u16);
    assert_eq!(single.to_array::<1>(), Ok([2]));
    let wrapped = RecursiveArrayArrayWrapper::new([6u16, 7]);
    assert_eq!(wrapped.clone().to_array::<2>(), Ok([6, 7]));
    assert_eq!(
        wrapped.to_array::<1>(),
        Err(LengthMismatch { expected: Some(2), found: 1 })
    );
    let empty = <EmptyRecursiveArray as RecursiveArray<u16>>::to_array::<0>(EmptyRecursiveArray);
    assert_eq!(empty, Ok([]));
}

#[test]
fn from_slice_exact_length() {
    let items = [10u16, 20, 30, 40, 50, 60];
    let six = Six::from_slice(&items).unwrap();
    assert_eq!(six.as_slice(), &items);
}

#[test]
fn from_slice_one_short_or_one_long_fails() {
    let items = [1u16, 2, 3, 4, 5, 6, 7];
    assert_eq!(
        Six::from_slice(&items[..5]).err(),
        Some(LengthMismatch { expected: Some(6), found: 5 })
    );
    assert_eq!(
        Six::from_slice(&items).err(),
        Some(LengthMismatch { expected: Some(6), found: 7 })
    );
    assert_eq!(
        Pair::from_slice(&items[..1]).err(),
        Some(LengthMismatch { expected: Some(2), found: 1 })
    );
}

#[test]
fn from_slice_for_overlong_type_fails() {
    type Huge = RecursiveArrayMultiplier<{ usize::MAX }, u8, RecursiveArrayArrayWrapper<2, u8>>;
    assert_eq!(
        Huge::from_slice(&[1, 2]).err(),
        Some(LengthMismatch { expected: None, found: 2 })
    );
}

#[test]
fn from_vec_and_into_vec() {
    let pair = Pair::from_vec(vec![5, 6]).unwrap();
    assert_eq!(pair.into_vec(), vec![5, 6]);
    assert_eq!(
        Pair::from_vec(vec![5]).err(),
        Some(LengthMismatch { expected: Some(2), found: 1 })
    );
    let wrapped = RecursiveArrayArrayWrapper::new([1u16, 2, 3]);
    assert_eq!(wrapped.into_vec(), vec![1, 2, 3]);
    let single = RecursiveArraySingleItem::new(4u16);
    assert_eq!(single.into_vec(), vec![4]);
    assert_eq!(
        RecursiveArrayArrayWrapper::<3, u16>::from_vec(vec![1, 2]).err(),
        Some(LengthMismatch { expected: Some(3), found: 2 })
    );
}

#[test]
fn composed_value_converts_in_order() {
    let value = RecursiveArraySingleItem::new(2u16)
        .push_front(1)
        .push_back(3)
        .append_back(RecursiveArrayMultiplier::new([
            RecursiveArraySingleItem::new(4u16),
            RecursiveArraySingleItem::new(5u16),
        ]));
    assert_eq!(value.to_array::<5>(), Ok([1, 2, 3, 4, 5]));
}
