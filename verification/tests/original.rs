use swr_survival::debug::encode;
use swr_survival::survival_manager::u64_to_be_bytes;
use swr_survival::text::zero_pad;

#[test]
fn it_works() {
    let units = encode("こんにちわ、世界！");
    let expected: Vec<u16> = "こんにちわ、世界！".encode_utf16().chain(Some(0)).collect();
    assert_eq!(units, expected);
}

#[test]
fn zero_padding() {
    assert_eq!(&format!("{:>03}", 1), "001");
    assert_eq!(zero_pad(1, 3), "001");
}

#[test]
fn bytes() {
    assert_eq!(
        &[0x01u8, 0x02u8, 0x03u8, 0x04u8, 0x05u8],
        &0x0102030405u64.to_be_bytes()[3..8]
    );
    assert_eq!(
        &[0x01u8, 0x02u8, 0x03u8, 0x04u8, 0x05u8],
        &u64_to_be_bytes(0x0102030405)[3..8]
    );
}
