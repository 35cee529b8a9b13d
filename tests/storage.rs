use wups::error::StorageError;
use wups::item_store::{ItemStore, ItemType};
use wups::storage::{
    delete, load, load_or_default, reload, reset, save, store, storage_key, DoubleBits, FloatBits,
    StorageCompatible, STORAGE_MAX_LENGTH,
};

#[test]
fn round_trip_i32() {
    let mut s = ItemStore::new();
    for v in [0i32, 42, -1, i32::MIN, i32::MAX] {
        store::<i32>(&mut s, "integer", v).unwrap();
        assert_eq!(load::<i32>(&s, "integer").unwrap(), v);
    }
}

#[test]
fn round_trip_i64() {
    let mut s = ItemStore::new();
    for v in [0i64, -420, i64::MIN, i64::MAX] {
        store::<i64>(&mut s, "big", v).unwrap();
        assert_eq!(load::<i64>(&s, "big").unwrap(), v);
    }
}

#[test]
fn round_trip_u32_u64_bool() {
    let mut s = ItemStore::new();
    store::<u32>(&mut s, "a", u32::MAX).unwrap();
    store::<u64>(&mut s, "b", 420).unwrap();
    store::<bool>(&mut s, "c", true).unwrap();
    assert_eq!(load::<u32>(&s, "a").unwrap(), u32::MAX);
    assert_eq!(load::<u64>(&s, "b").unwrap(), 420);
    assert_eq!(load::<bool>(&s, "c").unwrap(), true);
    store::<bool>(&mut s, "c", false).unwrap();
    assert_eq!(load::<bool>(&s, "c").unwrap(), false);
}

#[test]
fn round_trip_float_bits() {
    let mut s = ItemStore::new();
    store::<FloatBits>(&mut s, "float", FloatBits(3.14f32.to_bits())).unwrap();
    store::<DoubleBits>(&mut s, "double", DoubleBits((-2.5f64).to_bits())).unwrap();
    assert_eq!(f32::from_bits(load::<FloatBits>(&s, "float").unwrap().0), 3.14f32);
    assert_eq!(f64::from_bits(load::<DoubleBits>(&s, "double").unwrap().0), -2.5f64);
}

#[test]
fn round_trip_text() {
    let mut s = ItemStore::new();
    store::<String>(&mut s, "string", "Hello there!".to_string()).unwrap();
    assert_eq!(load::<String>(&s, "string").unwrap(), "Hello there!");
    store::<String>(&mut s, "string", "héllo ✓ 日本".to_string()).unwrap();
    assert_eq!(load::<String>(&s, "string").unwrap(), "héllo ✓ 日本");
    store::<String>(&mut s, "empty", String::new()).unwrap();
    assert_eq!(load::<String>(&s, "empty").unwrap(), "");
}

#[test]
fn round_trip_binary() {
    let mut s = ItemStore::new();
    let data = vec![0u8, 1, 2, 255, 0];
    store::<Vec<u8>>(&mut s, "bin", data.clone()).unwrap();
    assert_eq!(load::<Vec<u8>>(&s, "bin").unwrap(), data);
}

#[test]
fn fixed_width_bytes_are_big_endian() {
    assert_eq!(0x01020304u32.encode().unwrap(), vec![1, 2, 3, 4]);
    assert_eq!((-2i32).encode().unwrap(), vec![0xff, 0xff, 0xff, 0xfe]);
    assert_eq!(1u64.encode().unwrap(), vec![0, 0, 0, 0, 0, 0, 0, 1]);
    assert_eq!(true.encode().unwrap(), vec![1]);
    assert_eq!(u32::decode(&[0, 0, 1, 0]).unwrap(), 256);
}

#[test]
fn fixed_width_wrong_length_is_reported() {
    assert_eq!(u32::decode(&[1, 2, 3]), Err(StorageError::UnexpectedDataType));
    assert_eq!(i64::decode(&[1, 2, 3, 4]), Err(StorageError::UnexpectedDataType));
    assert_eq!(bool::decode(&[]), Err(StorageError::UnexpectedDataType));
}

#[test]
fn text_decode_strips_one_terminator() {
    assert_eq!(String::decode(b"ab\0").unwrap(), "ab");
    assert_eq!(String::decode(b"ab\0\0").unwrap(), "ab\0");
    assert_eq!(String::decode(b"ab").unwrap(), "ab");
    assert_eq!(String::decode("é".as_bytes()).unwrap(), "é");
    assert_eq!(String::decode(&[0x61, 0xff]).unwrap(), "a\u{fffd}");
}

#[test]
fn load_absent_is_not_found() {
    let s = ItemStore::new();
    assert_eq!(load::<i32>(&s, "doesnt exist"), Err(StorageError::NotFound));
    assert_eq!(load::<String>(&s, "doesnt exist"), Err(StorageError::NotFound));
}

#[test]
fn load_or_default_absent_is_default() {
    let mut s = ItemStore::new();
    assert_eq!(load_or_default::<i32>(&s, "nonexistent"), 0);
    assert_eq!(load_or_default::<bool>(&s, "nonexistent"), false);
    assert_eq!(load_or_default::<String>(&s, "nonexistent"), "");
    assert_eq!(load_or_default::<Vec<u8>>(&s, "nonexistent"), Vec::<u8>::new());
    store::<i32>(&mut s, "exists", 42).unwrap();
    assert_eq!(load_or_default::<i32>(&s, "exists"), 42);
}

#[test]
fn load_with_other_type_is_unexpected() {
    let mut s = ItemStore::new();
    store::<i32>(&mut s, "k", 7).unwrap();
    assert_eq!(load::<u32>(&s, "k"), Err(StorageError::UnexpectedDataType));
    assert_eq!(load_or_default::<u32>(&s, "k"), 0);
}

#[test]
fn long_text_is_refused_and_keeps_old_value() {
    let mut s = ItemStore::new();
    store::<String>(&mut s, "t", "old".to_string()).unwrap();
    let long = "x".repeat(STORAGE_MAX_LENGTH - 1);
    assert_eq!(store::<String>(&mut s, "t", long), Err(StorageError::BufferTooSmall));
    assert_eq!(load::<String>(&s, "t").unwrap(), "old");
    let longer = "x".repeat(STORAGE_MAX_LENGTH);
    assert_eq!(store::<String>(&mut s, "t", longer), Err(StorageError::BufferTooSmall));
    let fits = "y".repeat(STORAGE_MAX_LENGTH - 2);
    store::<String>(&mut s, "t", fits.clone()).unwrap();
    assert_eq!(load::<String>(&s, "t").unwrap(), fits);
}

#[test]
fn long_binary_is_refused_and_keeps_old_value() {
    let mut s = ItemStore::new();
    store::<Vec<u8>>(&mut s, "b", vec![9]).unwrap();
    assert_eq!(
        store::<Vec<u8>>(&mut s, "b", vec![0u8; STORAGE_MAX_LENGTH - 1]),
        Err(StorageError::BufferTooSmall)
    );
    assert_eq!(load::<Vec<u8>>(&s, "b").unwrap(), vec![9]);
    store::<Vec<u8>>(&mut s, "b", vec![1u8; STORAGE_MAX_LENGTH - 2]).unwrap();
    assert_eq!(load::<Vec<u8>>(&s, "b").unwrap().len(), STORAGE_MAX_LENGTH - 2);
}

#[test]
fn null_bytes_are_refused() {
    let mut s = ItemStore::new();
    assert_eq!(store::<i32>(&mut s, "a\0b", 1), Err(StorageError::ContainsNullBytes));
    assert_eq!(load::<i32>(&s, "a\0b"), Err(StorageError::ContainsNullBytes));
    assert_eq!(delete(&mut s, "a\0b"), Err(StorageError::ContainsNullBytes));
    assert_eq!(
        store::<String>(&mut s, "t", "a\0b".to_string()),
        Err(StorageError::ContainsNullBytes)
    );
    assert_eq!(load::<String>(&s, "t"), Err(StorageError::NotFound));
    assert!(storage_key("a\0").is_err());
    assert_eq!(storage_key("ké").unwrap(), "ké".as_bytes().to_vec());
}

#[test]
fn delete_removes_item() {
    let mut s = ItemStore::new();
    store::<i32>(&mut s, "integer", 42).unwrap();
    delete(&mut s, "integer").unwrap();
    assert_eq!(load::<i32>(&s, "integer"), Err(StorageError::NotFound));
    assert_eq!(delete(&mut s, "integer"), Err(StorageError::NotFound));
}

#[test]
fn reset_then_load_is_not_found() {
    let mut s = ItemStore::new();
    store::<i32>(&mut s, "a", 1).unwrap();
    store::<String>(&mut s, "b", "x".to_string()).unwrap();
    save(&mut s, true).unwrap();
    reset(&mut s).unwrap();
    assert_eq!(load::<i32>(&s, "a"), Err(StorageError::NotFound));
    assert_eq!(load::<String>(&s, "b"), Err(StorageError::NotFound));
    reload(&mut s).unwrap();
    assert_eq!(load::<i32>(&s, "a"), Err(StorageError::NotFound));
}

#[test]
fn reload_drops_unsaved_changes() {
    let mut s = ItemStore::new();
    store::<i32>(&mut s, "a", 1).unwrap();
    save(&mut s, false).unwrap();
    store::<i32>(&mut s, "a", 2).unwrap();
    store::<i32>(&mut s, "b", 3).unwrap();
    reload(&mut s).unwrap();
    assert_eq!(load::<i32>(&s, "a").unwrap(), 1);
    assert_eq!(load::<i32>(&s, "b"), Err(StorageError::NotFound));
}

#[test]
fn host_read_into_small_buffer() {
    let mut s = ItemStore::new();
    store::<String>(&mut s, "t", "abc".to_string()).unwrap();
    let (status, bytes) = s.get_item(b"t", ItemType::String, 3);
    assert_eq!(status, -4);
    assert!(bytes.is_empty());
    let (status, bytes) = s.get_item(b"t", ItemType::String, 4);
    assert_eq!(status, 0);
    assert_eq!(bytes, b"abc\0".to_vec());
}

#[test]
fn item_type_codes() {
    assert_eq!(ItemType::S32.code(), 0);
    assert_eq!(ItemType::String.code(), 4);
    assert_eq!(ItemType::Double.code(), 8);
}
