use arkiv_sdk::entity::BlocksToLive;
use std::time;

#[test]
fn btl_const_compiles() {
    let _thirty_seconds: BlocksToLive = BlocksToLive::new(15u64);
}

#[test]
fn btl_from_duration() {
    let thirty_secs = BlocksToLive::from_secs(time::Duration::from_secs(30).as_secs());
    assert_eq!(u64::from(thirty_secs), 15);
}

#[test]
fn btl_default_is_fifteen_blocks() {
    assert_eq!(BlocksToLive::default().value(), 15);
    assert_eq!(BlocksToLive::from_secs(3).value(), 1);
    assert_eq!(BlocksToLive::new(7), BlocksToLive::new(7));
}
