use salfa_gate::seed::compose_seed;

#[test]
fn first_draw_is_the_upper_half() {
    assert_eq!(compose_seed(0xdead_beef, 0x0bad_f00d), 0xdead_beef_0bad_f00d);
    assert_eq!(compose_seed(1, 0), 1u64 << 32);
    assert_eq!(compose_seed(0, 1), 1);
}

#[test]
fn extreme_draws() {
    assert_eq!(compose_seed(0, 0), 0);
    assert_eq!(compose_seed(u32::MAX, u32::MAX), u64::MAX);
    assert_eq!(compose_seed(u32::MAX, 0), 0xffff_ffff_0000_0000);
    assert_eq!(compose_seed(0, u32::MAX), 0x0000_0000_ffff_ffff);
}

#[test]
fn draws_in_the_other_order_give_another_seed() {
    assert_ne!(compose_seed(3, 4), compose_seed(4, 3));
    assert_eq!(compose_seed(3, 4), 3 * 4_294_967_296 + 4);
}
