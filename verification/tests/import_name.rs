use generic_array as gen_arr;
use gen_arr::GenericArray;

#[test]
fn test_different_crate_name() {
    let _: GenericArray<u32, 4> = GenericArray::from_array([0, 1, 2, 3]);
    let _: GenericArray<u32, 0> = GenericArray::from_array([]);
}

#[test]
fn test_crate_usage() {
    let _: gen_arr::GenericArray<u32, 0> = gen_arr::GenericArray::from_array([]);
}
