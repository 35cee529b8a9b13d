//! Typed values over the storage host: each type has one tag and one byte
//! form, text and binary values share a bound, and every host status is read
//! into a `StorageError`.
use vstd::prelude::*;
use vstd::string::StrSliceExecFns;
use vstd::utf8::{decode_utf8, encode_utf8, valid_utf8, encode_utf8_valid_utf8, encode_utf8_decode_utf8};
use crate::bytes::{
    be_bytes_u32, be_bytes_u64, u32_from_be, u64_from_be, u32_to_be, u32_of_be, u64_to_be,
    u64_of_be, lemma_u32_round_trip, lemma_u64_round_trip,
};
use crate::error::{StorageError, storage_result, spec_storage_status};
use crate::item_store::{ItemStore, ItemType, readback};
use vstd::slice::{slice_subrange, slice_to_vec};

verus! {

/// The bound on a text or binary item, terminator included.
pub const STORAGE_MAX_LENGTH: usize = 1024;

/// What `String::from_utf8_lossy` makes of bytes that are not valid UTF-8.
pub uninterp spec fn utf8_lossy(b: Seq<u8>) -> Seq<char>;

/// Text read back from `b`: valid UTF-8 decodes as it is.
pub open spec fn text_of(b: Seq<u8>) -> Seq<char> {
    if valid_utf8(b) {
        decode_utf8(b)
    } else {
        utf8_lossy(b)
    }
}

/// Relies on `String::from_utf8_lossy`: valid UTF-8 comes back unchanged, and
/// what it makes of other input depends on the bytes alone.
#[verifier::external_body]
fn text_from_bytes(b: &[u8]) -> (r: String)
    ensures
        r@ == (if valid_utf8(b@) {
            decode_utf8(b@)
        } else {
            utf8_lossy(b@)
        }),
{
    String::from_utf8_lossy(b).into_owned()
}

/// `Ok` of the view of a value, or the same error.
pub open spec fn result_view<T: View>(r: Result<T, StorageError>) -> Result<T::V, StorageError> {
    match r {
        Ok(v) => Ok(v@),
        Err(e) => Err(e),
    }
}

/// `b` without one trailing 0 byte, where it ends in one.
pub open spec fn strip_terminator(b: Seq<u8>) -> Seq<u8> {
    if b.len() > 0 && b.last() == 0u8 {
        b.drop_last()
    } else {
        b
    }
}

/// The bytes of a key, or `ContainsNullBytes` where one of them is 0.
pub open spec fn spec_key(name: Seq<char>) -> Result<Seq<u8>, StorageError> {
    if encode_utf8(name).contains(0u8) {
        Err(StorageError::ContainsNullBytes)
    } else {
        Ok(encode_utf8(name))
    }
}

pub fn contains_zero(b: &[u8]) -> (r: bool)
    ensures
        r == b@.contains(0u8),
{
    let mut i: usize = 0;
    while i < b.len()
        invariant
            0 <= i <= b@.len(),
            forall|j: int| 0 <= j < i ==> b@[j] != 0u8,
        decreases b@.len() - i,
    {
        if b[i] == 0u8 {
            assert(b@[i as int] == 0u8);
            return true;
        }
        i = i + 1;
    }
    false
}

/// The bytes under which `name` is stored.
pub fn storage_key(name: &str) -> (r: Result<Vec<u8>, StorageError>)
    ensures
        result_view(r) == spec_key(name@),
{
    let b = name.as_bytes_vec();
    if contains_zero(b.as_slice()) {
        Err(StorageError::ContainsNullBytes)
    } else {
        Ok(b)
    }
}

/// A type whose values the storage host keeps.
pub trait StorageCompatible: Sized + View {
    /// The tag the host keeps with values of this type.
    spec fn spec_item_type() -> ItemType;

    /// The buffer a read of this type hands to the host.
    spec fn spec_capacity() -> nat;

    /// The bytes that stand for `v`, or why `v` cannot be stored.
    spec fn spec_encode(v: Self::V) -> Result<Seq<u8>, StorageError>;

    /// The value that bytes read back from the host stand for.
    spec fn spec_decode(b: Seq<u8>) -> Result<Self::V, StorageError>;

    /// The value a failed read falls back to.
    spec fn spec_default() -> Self::V;

    fn item_type() -> (r: ItemType)
        ensures
            r == Self::spec_item_type(),
    ;

    fn capacity() -> (r: usize)
        ensures
            r == Self::spec_capacity(),
    ;

    fn encode(&self) -> (r: Result<Vec<u8>, StorageError>)
        ensures
            result_view(r) == Self::spec_encode(self@),
    ;

    fn decode(b: &[u8]) -> (r: Result<Self, StorageError>)
        ensures
            result_view(r) == Self::spec_decode(b@),
    ;

    fn default_value() -> (r: Self)
        ensures
            r@ == Self::spec_default(),
    ;

    /// What is stored reads back as the same value.
    proof fn lemma_round_trip(v: Self::V)
        requires
            Self::spec_encode(v) is Ok,
        ensures
            readback(Self::spec_item_type(), Self::spec_encode(v)->Ok_0).len()
                <= Self::spec_capacity(),
            Self::spec_decode(readback(Self::spec_item_type(), Self::spec_encode(v)->Ok_0)) == Ok::<
                Self::V,
                StorageError,
            >(v),
    ;
}

impl StorageCompatible for i32 {
    open spec fn spec_item_type() -> ItemType {
        ItemType::S32
    }

    open spec fn spec_capacity() -> nat {
        4
    }

    open spec fn spec_encode(v: i32) -> Result<Seq<u8>, StorageError> {
        Ok(be_bytes_u32(v as u32))
    }

    open spec fn spec_decode(b: Seq<u8>) -> Result<i32, StorageError> {
        if b.len() == 4 {
            Ok(u32_from_be(b) as i32)
        } else {
            Err(StorageError::UnexpectedDataType)
        }
    }

    open spec fn spec_default() -> i32 {
        0
    }

    fn item_type() -> (r: ItemType) {
        ItemType::S32
    }

    fn capacity() -> (r: usize) {
        4
    }

    fn encode(&self) -> (r: Result<Vec<u8>, StorageError>) {
        Ok(u32_to_be(*self as u32))
    }

    fn decode(b: &[u8]) -> (r: Result<i32, StorageError>) {
        if b.len() == 4 {
            Ok(u32_of_be(b) as i32)
        } else {
            Err(StorageError::UnexpectedDataType)
        }
    }

    fn default_value() -> (r: i32) {
        0
    }

    proof fn lemma_round_trip(v: i32) {
        let u = #[verifier::truncate] (v as u32);
        lemma_u32_round_trip(u);
        assert(#[verifier::truncate] (u as i32) == v) by (bit_vector)
            requires
                u == #[verifier::truncate] (v as u32),
        ;
    }
}

impl StorageCompatible for i64 {
    open spec fn spec_item_type() -> ItemType {
        ItemType::S64
    }

    open spec fn spec_capacity() -> nat {
        8
    }

    open spec fn spec_encode(v: i64) -> Result<Seq<u8>, StorageError> {
        Ok(be_bytes_u64(v as u64))
    }

    open spec fn spec_decode(b: Seq<u8>) -> Result<i64, StorageError> {
        if b.len() == 8 {
            Ok(u64_from_be(b) as i64)
        } else {
            Err(StorageError::UnexpectedDataType)
        }
    }

    open spec fn spec_default() -> i64 {
        0
    }

    fn item_type() -> (r: ItemType) {
        ItemType::S64
    }

    fn capacity() -> (r: usize) {
        8
    }

    fn encode(&self) -> (r: Result<Vec<u8>, StorageError>) {
        Ok(u64_to_be(*self as u64))
    }

    fn decode(b: &[u8]) -> (r: Result<i64, StorageError>) {
        if b.len() == 8 {
            Ok(u64_of_be(b) as i64)
        } else {
            Err(StorageError::UnexpectedDataType)
        }
    }

    fn default_value() -> (r: i64) {
        0
    }

    proof fn lemma_round_trip(v: i64) {
        let u = #[verifier::truncate] (v as u64);
        lemma_u64_round_trip(u);
        assert(#[verifier::truncate] (u as i64) == v) by (bit_vector)
            requires
                u == #[verifier::truncate] (v as u64),
        ;
    }
}

impl StorageCompatible for u32 {
    open spec fn spec_item_type() -> ItemType {
        ItemType::U32
    }

    open spec fn spec_capacity() -> nat {
        4
    }

    open spec fn spec_encode(v: u32) -> Result<Seq<u8>, StorageError> {
        Ok(be_bytes_u32(v))
    }

    open spec fn spec_decode(b: Seq<u8>) -> Result<u32, StorageError> {
        if b.len() == 4 {
            Ok(u32_from_be(b))
        } else {
            Err(StorageError::UnexpectedDataType)
        }
    }

    open spec fn spec_default() -> u32 {
        0
    }

    fn item_type() -> (r: ItemType) {
        ItemType::U32
    }

    fn capacity() -> (r: usize) {
        4
    }

    fn encode(&self) -> (r: Result<Vec<u8>, StorageError>) {
        Ok(u32_to_be(*self))
    }

    fn decode(b: &[u8]) -> (r: Result<u32, StorageError>) {
        if b.len() == 4 {
            Ok(u32_of_be(b))
        } else {
            Err(StorageError::UnexpectedDataType)
        }
    }

    fn default_value() -> (r: u32) {
        0
    }

    proof fn lemma_round_trip(v: u32) {
        lemma_u32_round_trip(v);
    }
}

impl StorageCompatible for u64 {
    open spec fn spec_item_type() -> ItemType {
        ItemType::U64
    }

    open spec fn spec_capacity() -> nat {
        8
    }

    open spec fn spec_encode(v: u64) -> Result<Seq<u8>, StorageError> {
        Ok(be_bytes_u64(v))
    }

    open spec fn spec_decode(b: Seq<u8>) -> Result<u64, StorageError> {
        if b.len() == 8 {
            Ok(u64_from_be(b))
        } else {
            Err(StorageError::UnexpectedDataType)
        }
    }

    open spec fn spec_default() -> u64 {
        0
    }

    fn item_type() -> (r: ItemType) {
        ItemType::U64
    }

    fn capacity() -> (r: usize) {
        8
    }

    fn encode(&self) -> (r: Result<Vec<u8>, StorageError>) {
        Ok(u64_to_be(*self))
    }

    fn decode(b: &[u8]) -> (r: Result<u64, StorageError>) {
        if b.len() == 8 {
            Ok(u64_of_be(b))
        } else {
            Err(StorageError::UnexpectedDataType)
        }
    }

    fn default_value() -> (r: u64) {
        0
    }

    proof fn lemma_round_trip(v: u64) {
        lemma_u64_round_trip(v);
    }
}

impl StorageCompatible for bool {
    open spec fn spec_item_type() -> ItemType {
        ItemType::Bool
    }

    open spec fn spec_capacity() -> nat {
        1
    }

    open spec fn spec_encode(v: bool) -> Result<Seq<u8>, StorageError> {
        Ok(seq![if v { 1u8 } else { 0u8 }])
    }

    open spec fn spec_decode(b: Seq<u8>) -> Result<bool, StorageError> {
        if b.len() == 1 {
            Ok(b[0] != 0u8)
        } else {
            Err(StorageError::UnexpectedDataType)
        }
    }

    open spec fn spec_default() -> bool {
        false
    }

    fn item_type() -> (r: ItemType) {
        ItemType::Bool
    }

    fn capacity() -> (r: usize) {
        1
    }

    fn encode(&self) -> (r: Result<Vec<u8>, StorageError>) {
        let r = vec![if *self { 1u8 } else { 0u8 }];
        assert(r@ =~= seq![if *self { 1u8 } else { 0u8 }]);
        Ok(r)
    }

    fn decode(b: &[u8]) -> (r: Result<bool, StorageError>) {
        if b.len() == 1 {
            Ok(b[0] != 0u8)
        } else {
            Err(StorageError::UnexpectedDataType)
        }
    }

    fn default_value() -> (r: bool) {
        false
    }

    proof fn lemma_round_trip(v: bool) {
    }
}

/// The encoded form of a text value: its UTF-8 bytes, which must leave room
/// for a terminator under the bound and hold no 0 byte.
pub open spec fn spec_encode_text(s: Seq<char>) -> Result<Seq<u8>, StorageError> {
    if encode_utf8(s).len() >= STORAGE_MAX_LENGTH - 1 {
        Err(StorageError::BufferTooSmall)
    } else if encode_utf8(s).contains(0u8) {
        Err(StorageError::ContainsNullBytes)
    } else {
        Ok(encode_utf8(s))
    }
}

impl StorageCompatible for String {
    open spec fn spec_item_type() -> ItemType {
        ItemType::String
    }

    open spec fn spec_capacity() -> nat {
        STORAGE_MAX_LENGTH as nat
    }

    open spec fn spec_encode(v: Seq<char>) -> Result<Seq<u8>, StorageError> {
        spec_encode_text(v)
    }

    open spec fn spec_decode(b: Seq<u8>) -> Result<Seq<char>, StorageError> {
        Ok(text_of(strip_terminator(b)))
    }

    open spec fn spec_default() -> Seq<char> {
        Seq::empty()
    }

    fn item_type() -> (r: ItemType) {
        ItemType::String
    }

    fn capacity() -> (r: usize) {
        STORAGE_MAX_LENGTH
    }

    fn encode(&self) -> (r: Result<Vec<u8>, StorageError>) {
        let b = self.as_str().as_bytes_vec();
        if b.len() >= STORAGE_MAX_LENGTH - 1 {
            Err(StorageError::BufferTooSmall)
        } else if contains_zero(b.as_slice()) {
            Err(StorageError::ContainsNullBytes)
        } else {
            Ok(b)
        }
    }

    fn decode(b: &[u8]) -> (r: Result<String, StorageError>) {
        let n = b.len();
        let body = if n > 0 && b[n - 1] == 0u8 {
            slice_subrange(b, 0, n - 1)
        } else {
            b
        };
        assert(body@ =~= strip_terminator(b@));
        Ok(text_from_bytes(body))
    }

    fn default_value() -> (r: String) {
        String::new()
    }

    proof fn lemma_round_trip(v: Seq<char>) {
        let b = encode_utf8(v);
        assert(b.push(0u8).drop_last() =~= b);
        encode_utf8_valid_utf8(v);
        encode_utf8_decode_utf8(v);
    }
}

impl StorageCompatible for Vec<u8> {
    open spec fn spec_item_type() -> ItemType {
        ItemType::Binary
    }

    open spec fn spec_capacity() -> nat {
        STORAGE_MAX_LENGTH as nat
    }

    open spec fn spec_encode(v: Seq<u8>) -> Result<Seq<u8>, StorageError> {
        if v.len() >= STORAGE_MAX_LENGTH - 1 {
            Err(StorageError::BufferTooSmall)
        } else {
            Ok(v)
        }
    }

    open spec fn spec_decode(b: Seq<u8>) -> Result<Seq<u8>, StorageError> {
        Ok(b)
    }

    open spec fn spec_default() -> Seq<u8> {
        Seq::empty()
    }

    fn item_type() -> (r: ItemType) {
        ItemType::Binary
    }

    fn capacity() -> (r: usize) {
        STORAGE_MAX_LENGTH
    }

    fn encode(&self) -> (r: Result<Vec<u8>, StorageError>) {
        if self.len() >= STORAGE_MAX_LENGTH - 1 {
            Err(StorageError::BufferTooSmall)
        } else {
            Ok(slice_to_vec(self.as_slice()))
        }
    }

    fn decode(b: &[u8]) -> (r: Result<Vec<u8>, StorageError>) {
        Ok(slice_to_vec(b))
    }

    fn default_value() -> (r: Vec<u8>) {
        Vec::new()
    }

    proof fn lemma_round_trip(v: Seq<u8>) {
    }
}

/// The bit pattern of a single-precision float, stored under the float tag.
#[derive(Clone, Copy, Debug, PartialEq, Eq, Structural)]
pub struct FloatBits(pub u32);

/// The bit pattern of a double-precision float, stored under the double tag.
#[derive(Clone, Copy, Debug, PartialEq, Eq, Structural)]
pub struct DoubleBits(pub u64);

impl View for FloatBits {
    type V = u32;

    open spec fn view(&self) -> u32 {
        self.0
    }
}

impl View for DoubleBits {
    type V = u64;

    open spec fn view(&self) -> u64 {
        self.0
    }
}

impl StorageCompatible for FloatBits {
    open spec fn spec_item_type() -> ItemType {
        ItemType::Float
    }

    open spec fn spec_capacity() -> nat {
        4
    }

    open spec fn spec_encode(v: u32) -> Result<Seq<u8>, StorageError> {
        Ok(be_bytes_u32(v))
    }

    open spec fn spec_decode(b: Seq<u8>) -> Result<u32, StorageError> {
        if b.len() == 4 {
            Ok(u32_from_be(b))
        } else {
            Err(StorageError::UnexpectedDataType)
        }
    }

    open spec fn spec_default() -> u32 {
        0
    }

    fn item_type() -> (r: ItemType) {
        ItemType::Float
    }

    fn capacity() -> (r: usize) {
        4
    }

    fn encode(&self) -> (r: Result<Vec<u8>, StorageError>) {
        Ok(u32_to_be(self.0))
    }

    fn decode(b: &[u8]) -> (r: Result<FloatBits, StorageError>) {
        if b.len() == 4 {
            Ok(FloatBits(u32_of_be(b)))
        } else {
            Err(StorageError::UnexpectedDataType)
        }
    }

    fn default_value() -> (r: FloatBits) {
        FloatBits(0)
    }

    proof fn lemma_round_trip(v: u32) {
        lemma_u32_round_trip(v);
    }
}

impl StorageCompatible for DoubleBits {
    open spec fn spec_item_type() -> ItemType {
        ItemType::Double
    }

    open spec fn spec_capacity() -> nat {
        8
    }

    open spec fn spec_encode(v: u64) -> Result<Seq<u8>, StorageError> {
        Ok(be_bytes_u64(v))
    }

    open spec fn spec_decode(b: Seq<u8>) -> Result<u64, StorageError> {
        if b.len() == 8 {
            Ok(u64_from_be(b))
        } else {
            Err(StorageError::UnexpectedDataType)
        }
    }

    open spec fn spec_default() -> u64 {
        0
    }

    fn item_type() -> (r: ItemType) {
        ItemType::Double
    }

    fn capacity() -> (r: usize) {
        8
    }

    fn encode(&self) -> (r: Result<Vec<u8>, StorageError>) {
        Ok(u64_to_be(self.0))
    }

    fn decode(b: &[u8]) -> (r: Result<DoubleBits, StorageError>) {
        if b.len() == 8 {
            Ok(DoubleBits(u64_of_be(b)))
        } else {
            Err(StorageError::UnexpectedDataType)
        }
    }

    fn default_value() -> (r: DoubleBits) {
        DoubleBits(0)
    }

    proof fn lemma_round_trip(v: u64) {
        lemma_u64_round_trip(v);
    }
}

// The operations on a store.

/// The items of a store, by key: each with its type tag and payload.
pub type Items = Map<Seq<u8>, (ItemType, Seq<u8>)>;

/// What `load::<T>(name)` gives on a store holding `items`.
pub open spec fn spec_load<T: StorageCompatible>(items: Items, name: Seq<char>) -> Result<
    T::V,
    StorageError,
> {
    match spec_key(name) {
        Err(e) => Err(e),
        Ok(k) => if !items.contains_key(k) {
            Err(StorageError::NotFound)
        } else if items[k].0 != T::spec_item_type() {
            Err(StorageError::UnexpectedDataType)
        } else if readback(T::spec_item_type(), items[k].1).len() > T::spec_capacity() {
            Err(StorageError::BufferTooSmall)
        } else {
            T::spec_decode(readback(T::spec_item_type(), items[k].1))
        },
    }
}

/// What `store::<T>(name, v)` returns.
pub open spec fn spec_store_result<T: StorageCompatible>(name: Seq<char>, v: T::V) -> Result<
    (),
    StorageError,
> {
    match spec_key(name) {
        Err(e) => Err(e),
        Ok(k) => match T::spec_encode(v) {
            Err(e) => Err(e),
            Ok(b) => Ok(()),
        },
    }
}

/// The items after `store::<T>(name, v)`: unchanged unless the store succeeds.
pub open spec fn spec_store_items<T: StorageCompatible>(
    items: Items,
    name: Seq<char>,
    v: T::V,
) -> Items {
    match spec_key(name) {
        Err(e) => items,
        Ok(k) => match T::spec_encode(v) {
            Err(e) => items,
            Ok(b) => items.insert(k, (T::spec_item_type(), b)),
        },
    }
}

/// Reads the host's answer to a read as a value of `T`.
pub fn finish_load<T: StorageCompatible>(status: i32, b: &[u8]) -> (r: Result<T, StorageError>)
    ensures
        result_view(r) == (if status >= 0 {
            T::spec_decode(b@)
        } else {
            Err(spec_storage_status(status)->Err_0)
        }),
{
    match storage_result(status) {
        Err(e) => Err(e),
        Ok(()) => T::decode(b),
    }
}

/// Loads the value stored under `name`.
pub fn load<T: StorageCompatible>(storage: &ItemStore, name: &str) -> (r: Result<T, StorageError>)
    requires
        storage.wf(),
    ensures
        result_view(r) == spec_load::<T>(storage@.items, name@),
{
    let key = match storage_key(name) {
        Ok(k) => k,
        Err(e) => return Err(e),
    };
    let (status, bytes) = storage.get_item(key.as_slice(), T::item_type(), T::capacity());
    finish_load::<T>(status, bytes.as_slice())
}

/// Loads the value stored under `name`, or the type's default where that fails.
pub fn load_or_default<T: StorageCompatible>(storage: &ItemStore, name: &str) -> (r: T)
    requires
        storage.wf(),
    ensures
        r@ == (match spec_load::<T>(storage@.items, name@) {
            Ok(v) => v,
            Err(_) => T::spec_default(),
        }),
{
    match load::<T>(storage, name) {
        Ok(v) => v,
        Err(_) => T::default_value(),
    }
}

/// Stores `value` under `name`, replacing what was there.
pub fn store<T: StorageCompatible>(storage: &mut ItemStore, name: &str, value: T) -> (r: Result<
    (),
    StorageError,
>)
    requires
        old(storage).wf(),
    ensures
        final(storage).wf(),
        r == spec_store_result::<T>(name@, value@),
        final(storage)@.items == spec_store_items::<T>(old(storage)@.items, name@, value@),
        final(storage)@.saved == old(storage)@.saved,
{
    let key = match storage_key(name) {
        Ok(k) => k,
        Err(e) => return Err(e),
    };
    let payload = match value.encode() {
        Ok(b) => b,
        Err(e) => return Err(e),
    };
    let status = storage.store_item(key.as_slice(), T::item_type(), payload);
    storage_result(status)
}

/// Deletes the item stored under `name`.
pub fn delete(storage: &mut ItemStore, name: &str) -> (r: Result<(), StorageError>)
    requires
        old(storage).wf(),
    ensures
        final(storage).wf(),
        r == (match spec_key(name@) {
            Err(e) => Err(e),
            Ok(k) => if old(storage)@.items.contains_key(k) {
                Ok(())
            } else {
                Err(StorageError::NotFound)
            },
        }),
        final(storage)@.items == (match spec_key(name@) {
            Err(_) => old(storage)@.items,
            Ok(k) => old(storage)@.items.remove(k),
        }),
        final(storage)@.saved == old(storage)@.saved,
{
    let key = match storage_key(name) {
        Ok(k) => k,
        Err(e) => return Err(e),
    };
    let status = storage.delete_item(key.as_slice());
    storage_result(status)
}

/// Wipes the whole store, saved items included.
pub fn reset(storage: &mut ItemStore) -> (r: Result<(), StorageError>)
    requires
        old(storage).wf(),
    ensures
        final(storage).wf(),
        r is Ok,
        final(storage)@.items == Items::empty(),
        final(storage)@.saved == Items::empty(),
{
    let status = storage.wipe();
    storage_result(status)
}

/// Reads the store again from its medium, dropping unsaved changes.
pub fn reload(storage: &mut ItemStore) -> (r: Result<(), StorageError>)
    requires
        old(storage).wf(),
    ensures
        final(storage).wf(),
        r is Ok,
        final(storage)@.items == old(storage)@.saved,
        final(storage)@.saved == old(storage)@.saved,
{
    let status = storage.force_reload();
    storage_result(status)
}

/// Writes pending changes to the medium; `force` bypasses the host's delay.
pub fn save(storage: &mut ItemStore, force: bool) -> (r: Result<(), StorageError>)
    requires
        old(storage).wf(),
    ensures
        final(storage).wf(),
        r is Ok,
        final(storage)@.items == old(storage)@.items,
        final(storage)@.saved == old(storage)@.items,
{
    let status = storage.save(force);
    storage_result(status)
}

// Laws of the store.

/// A value that can be stored reads back unchanged: after `store(name, v)`
/// succeeds, `load(name)` returns `v`. Every fixed-width value can be stored.
pub proof fn law_store_then_load<T: StorageCompatible>(items: Items, name: Seq<char>, v: T::V)
    requires
        spec_key(name) is Ok,
        T::spec_encode(v) is Ok,
    ensures
        spec_store_result::<T>(name, v) is Ok,
        spec_load::<T>(spec_store_items::<T>(items, name, v), name) == Ok::<T::V, StorageError>(v),
{
    T::lemma_round_trip(v);
}

/// Loading a key that holds nothing fails with `NotFound`, and
/// `load_or_default` then gives the type's default.
pub proof fn law_load_absent<T: StorageCompatible>(items: Items, name: Seq<char>)
    requires
        spec_key(name) is Ok,
        !items.contains_key(spec_key(name)->Ok_0),
    ensures
        spec_load::<T>(items, name) == Err::<T::V, StorageError>(StorageError::NotFound),
        (match spec_load::<T>(items, name) {
            Ok(v) => v,
            Err(_) => T::spec_default(),
        }) == T::spec_default(),
{
}

/// Text whose bytes reach one less than the bound is refused with
/// `BufferTooSmall`, and what the key held stays as it was.
pub proof fn law_store_long_text(items: Items, name: Seq<char>, s: Seq<char>)
    requires
        spec_key(name) is Ok,
        encode_utf8(s).len() >= STORAGE_MAX_LENGTH - 1,
    ensures
        spec_store_result::<String>(name, s) == Err::<(), StorageError>(StorageError::BufferTooSmall),
        spec_store_items::<String>(items, name, s) == items,
{
}

/// Binary data that reaches one less than the bound is refused with
/// `BufferTooSmall`, and what the key held stays as it was.
pub proof fn law_store_long_binary(items: Items, name: Seq<char>, b: Seq<u8>)
    requires
        spec_key(name) is Ok,
        b.len() >= STORAGE_MAX_LENGTH - 1,
    ensures
        spec_store_result::<Vec<u8>>(name, b) == Err::<(), StorageError>(StorageError::BufferTooSmall),
        spec_store_items::<Vec<u8>>(items, name, b) == items,
{
}

/// `reset` leaves no items, so whatever was stored before, every key then
/// reads as `NotFound`.
pub proof fn law_reset_then_load<T: StorageCompatible>(name: Seq<char>)
    requires
        spec_key(name) is Ok,
    ensures
        spec_load::<T>(Items::empty(), name) == Err::<T::V, StorageError>(StorageError::NotFound),
{
}

} // verus!
