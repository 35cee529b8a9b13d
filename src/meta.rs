//! Metadata records: `name=value` followed by a 0 byte, read by the loader.
use vstd::prelude::*;
use vstd::string::{StrSliceExecFns, StringExecFns};
use vstd::utf8::encode_utf8;
use crate::storage::contains_zero;

verus! {

/// Why a metadata record cannot be made.
#[derive(Clone, Copy, Debug, PartialEq, Eq, Structural)]
pub enum MetaError {
    /// The name is not an identifier.
    InvalidName,
    /// The value holds a 0 byte, which would end the record early.
    NullByte,
}

pub open spec fn is_ident_start(b: u8) -> bool {
    (97 <= b <= 122) || (65 <= b <= 90) || b == 95
}

pub open spec fn is_ident_continue(b: u8) -> bool {
    is_ident_start(b) || (48 <= b <= 57)
}

/// `n` spells an identifier: a letter or `_`, then letters, digits or `_`.
pub open spec fn valid_name(n: Seq<u8>) -> bool {
    n.len() > 0 && is_ident_start(n[0]) && forall|i: int| 1 <= i < n.len() ==> is_ident_continue(#[trigger] n[i])
}

/// The record for `name` and `value`, or why there is none.
pub open spec fn spec_meta_record(name: Seq<char>, value: Seq<char>) -> Result<Seq<u8>, MetaError> {
    if !valid_name(encode_utf8(name)) {
        Err(MetaError::InvalidName)
    } else if encode_utf8(value).contains(0u8) {
        Err(MetaError::NullByte)
    } else {
        Ok(encode_utf8(name) + seq![61u8] + encode_utf8(value) + seq![0u8])
    }
}

fn is_valid_name(n: &[u8]) -> (r: bool)
    ensures
        r == valid_name(n@),
{
    if n.len() == 0 {
        return false;
    }
    let c = n[0];
    if !((97 <= c && c <= 122) || (65 <= c && c <= 90) || c == 95) {
        return false;
    }
    let mut i: usize = 1;
    while i < n.len()
        invariant
            1 <= i <= n@.len(),
            forall|j: int| 1 <= j < i ==> is_ident_continue(#[trigger] n@[j]),
        decreases n@.len() - i,
    {
        let c = n[i];
        if !((97 <= c && c <= 122) || (65 <= c && c <= 90) || c == 95 || (48 <= c && c <= 57)) {
            assert(!is_ident_continue(n@[i as int]));
            return false;
        }
        i = i + 1;
    }
    true
}

/// The bytes `name=value` and a terminating 0.
pub fn meta_record(name: &str, value: &str) -> (r: Result<Vec<u8>, MetaError>)
    ensures
        match r {
            Ok(b) => spec_meta_record(name@, value@) == Ok::<Seq<u8>, MetaError>(b@),
            Err(e) => spec_meta_record(name@, value@) == Err::<Seq<u8>, MetaError>(e),
        },
{
    let mut out = name.as_bytes_vec();
    if !is_valid_name(out.as_slice()) {
        return Err(MetaError::InvalidName);
    }
    let v = value.as_bytes_vec();
    if contains_zero(v.as_slice()) {
        return Err(MetaError::NullByte);
    }
    out.push(61u8);
    out.extend_from_slice(v.as_slice());
    out.push(0u8);
    assert(out@ =~= encode_utf8(name@) + seq![61u8] + encode_utf8(value@) + seq![0u8]);
    Ok(out)
}

/// What a plugin says of itself.
pub struct PluginInfo {
    pub name: String,
    pub description: String,
    pub version: String,
    pub author: String,
    pub license: String,
    pub build_timestamp: String,
    pub loader_version: String,
}

/// The one-line summary the loader shows.
pub open spec fn spec_info_dump(info: PluginInfo) -> Seq<char> {
    "(plugin: "@ + info.name@ + "; wups: "@ + info.loader_version@ + "; buildtime: "@
        + info.build_timestamp@ + ")"@
}

/// The message shown when the plugin named `name` was linked in the wrong order.
pub open spec fn spec_linking_order_text(name: Seq<char>) -> Seq<char> {
    "Loading \""@ + name
        + "\" failed.\nFunction \"wut_get_thread_specific\" returned unexpected value.\nPlease check linking order (expected \"-lwups -lwut\")"@
}

/// The linking-order message of `info`'s plugin.
pub open spec fn spec_linking_order(info: PluginInfo) -> Seq<char> {
    spec_linking_order_text(info.name@)
}

/// The (name, value) pairs of a plugin's metadata, in the order they are placed.
pub open spec fn spec_plugin_pairs(info: PluginInfo) -> Seq<(Seq<char>, Seq<char>)> {
    seq![
        ("name"@, info.name@),
        ("description"@, info.description@),
        ("version"@, info.version@),
        ("author"@, info.author@),
        ("license"@, info.license@),
        ("buildtimestamp"@, info.build_timestamp@),
        ("wups"@, info.loader_version@),
        ("storage_id"@, info.name@),
        ("info_dump"@, spec_info_dump(info)),
        ("info_linking_order"@, spec_linking_order(info)),
    ]
}

fn pair(name: &str, value: &str) -> (r: (String, String))
    ensures
        r.0@ == name@,
        r.1@ == value@,
{
    (name.to_string(), value.to_string())
}

fn plugin_pairs(info: &PluginInfo) -> (r: Vec<(String, String)>)
    ensures
        r@.len() == spec_plugin_pairs(*info).len(),
        forall|i: int|
            0 <= i < r@.len() ==> (#[trigger] r@[i]).0@ == spec_plugin_pairs(*info)[i].0 && r@[i].1@
                == spec_plugin_pairs(*info)[i].1,
{
    let mut dump = String::from_str("(plugin: ");
    dump.append(info.name.as_str());
    dump.append("; wups: ");
    dump.append(info.loader_version.as_str());
    dump.append("; buildtime: ");
    dump.append(info.build_timestamp.as_str());
    dump.append(")");
    let linking = linking_order_message(info.name.as_str());
    let r = vec![
        pair("name", info.name.as_str()),
        pair("description", info.description.as_str()),
        pair("version", info.version.as_str()),
        pair("author", info.author.as_str()),
        pair("license", info.license.as_str()),
        pair("buildtimestamp", info.build_timestamp.as_str()),
        pair("wups", info.loader_version.as_str()),
        pair("storage_id", info.name.as_str()),
        pair("info_dump", dump.as_str()),
        pair("info_linking_order", linking.as_str()),
    ];
    r
}

/// Every metadata record of a plugin, in order.
pub fn plugin_meta(info: &PluginInfo) -> (r: Result<Vec<Vec<u8>>, MetaError>)
    ensures
        match r {
            Ok(v) => v@.len() == spec_plugin_pairs(*info).len() && forall|i: int|
                0 <= i < v@.len() ==> spec_meta_record(
                    spec_plugin_pairs(*info)[i].0,
                    spec_plugin_pairs(*info)[i].1,
                ) == Ok::<Seq<u8>, MetaError>((#[trigger] v@[i])@),
            Err(e) => exists|i: int|
                0 <= i < spec_plugin_pairs(*info).len() && #[trigger] spec_meta_record(
                    spec_plugin_pairs(*info)[i].0,
                    spec_plugin_pairs(*info)[i].1,
                ) == Err::<Seq<u8>, MetaError>(e),
        },
{
    let pairs = plugin_pairs(info);
    let mut out: Vec<Vec<u8>> = Vec::new();
    let mut i: usize = 0;
    while i < pairs.len()
        invariant
            pairs@.len() == spec_plugin_pairs(*info).len(),
            forall|j: int|
                0 <= j < pairs@.len() ==> (#[trigger] pairs@[j]).0@ == spec_plugin_pairs(*info)[j].0
                    && pairs@[j].1@ == spec_plugin_pairs(*info)[j].1,
            0 <= i <= pairs@.len(),
            out@.len() == i,
            forall|j: int|
                0 <= j < i ==> spec_meta_record(
                    spec_plugin_pairs(*info)[j].0,
                    spec_plugin_pairs(*info)[j].1,
                ) == Ok::<Seq<u8>, MetaError>((#[trigger] out@[j])@),
        decreases pairs@.len() - i,
    {
        let p = &pairs[i];
        match meta_record(p.0.as_str(), p.1.as_str()) {
            Ok(b) => out.push(b),
            Err(e) => {
                assert(pairs@[i as int].0@ == spec_plugin_pairs(*info)[i as int].0);
                return Err(e);
            },
        }
        i = i + 1;
    }
    Ok(out)
}

/// The record that holds the plugin's name alone: its bytes and a 0.
pub open spec fn spec_plugin_name_record(name: Seq<char>) -> Result<Seq<u8>, MetaError> {
    if encode_utf8(name).contains(0u8) {
        Err(MetaError::NullByte)
    } else {
        Ok(encode_utf8(name) + seq![0u8])
    }
}

/// The bytes of the plugin's name and a terminating 0.
pub fn plugin_name_record(name: &str) -> (r: Result<Vec<u8>, MetaError>)
    ensures
        match r {
            Ok(b) => spec_plugin_name_record(name@) == Ok::<Seq<u8>, MetaError>(b@),
            Err(e) => spec_plugin_name_record(name@) == Err::<Seq<u8>, MetaError>(e),
        },
{
    let mut out = name.as_bytes_vec();
    if contains_zero(out.as_slice()) {
        return Err(MetaError::NullByte);
    }
    let ghost bytes = out@;
    out.push(0u8);
    assert(out@ =~= bytes + seq![0u8]);
    Ok(out)
}

/// The value the loader's support library leaves in the thread-specific slot
/// when it was linked before the C library.
pub const LINKING_ORDER_MARK: u32 = 0x42424242;

/// Whether the plugin was linked in the right order, judged from the value of
/// the thread-specific slot; where it was not, initialisation must stop with
/// the `info_linking_order` message.
pub fn linking_order_ok(thread_value: u32) -> (r: bool)
    ensures
        r == (thread_value == LINKING_ORDER_MARK),
{
    thread_value == LINKING_ORDER_MARK
}

/// The message to stop with when the plugin was linked in the wrong order.
pub fn linking_order_message(name: &str) -> (r: String)
    ensures
        r@ == spec_linking_order_text(name@),
{
    let mut m = String::from_str("Loading \"");
    m.append(name);
    m.append(
        "\" failed.\nFunction \"wut_get_thread_specific\" returned unexpected value.\nPlease check linking order (expected \"-lwups -lwut\")",
    );
    m
}

} // verus!
