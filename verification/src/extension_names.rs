//! Extension names: the NUL-padded byte arrays that the native API reports,
//! the strings that a caller asks for, and how the two are matched.
use vstd::prelude::*;
use vstd::utf8::{decode_utf8, encode_utf8, valid_utf8};
use crate::vulkan_bindings::VkExtensionProperties;

verus! {

/// The bytes of `bytes` without its trailing NUL bytes.
pub open spec fn trim_nul(bytes: Seq<u8>) -> Seq<u8>
    decreases bytes.len(),
{
    if bytes.len() > 0 && bytes.last() == 0u8 {
        trim_nul(bytes.drop_last())
    } else {
        bytes
    }
}

/// A reported name matches a desired one when its bytes, without the NUL
/// padding, are the desired name's UTF-8 encoding. The match is exact:
/// letter case counts.
pub open spec fn name_matches(reported: Seq<u8>, desired: Seq<char>) -> bool {
    trim_nul(reported) == encode_utf8(desired)
}

/// True when some entry of `available` matches `desired`.
pub open spec fn has_extension(available: Seq<VkExtensionProperties>, desired: Seq<char>) -> bool {
    exists|i: int|
        0 <= i < available.len() && name_matches(
            #[trigger] available[i].extensionName@,
            desired,
        )
}

/// True when `index` is the first position of `desired` whose name no entry
/// of `available` matches.
pub open spec fn is_first_missing(
    available: Seq<VkExtensionProperties>,
    desired: Seq<String>,
    index: int,
) -> bool {
    &&& 0 <= index < desired.len()
    &&& !has_extension(available, desired[index]@)
    &&& forall|j: int| 0 <= j < index ==> has_extension(available, #[trigger] desired[j]@)
}

/// True when every name of `desired` is matched by some entry of `available`.
pub open spec fn has_all_extensions(
    available: Seq<VkExtensionProperties>,
    desired: Seq<String>,
) -> bool {
    forall|j: int| 0 <= j < desired.len() ==> has_extension(available, #[trigger] desired[j]@)
}

/// What trimming leaves is a prefix of the input that does not end in NUL,
/// and everything after it is NUL.
pub proof fn lemma_trim_nul_shape(bytes: Seq<u8>)
    ensures
        trim_nul(bytes).len() <= bytes.len(),
        trim_nul(bytes) == bytes.take(trim_nul(bytes).len() as int),
        trim_nul(bytes).len() > 0 ==> trim_nul(bytes).last() != 0u8,
        forall|i: int| trim_nul(bytes).len() <= i < bytes.len() ==> bytes[i] == 0u8,
    decreases bytes.len(),
{
    if bytes.len() > 0 && bytes.last() == 0u8 {
        let shorter = bytes.drop_last();
        lemma_trim_nul_shape(shorter);
        let n = trim_nul(shorter).len() as int;
        assert(shorter.take(n) =~= bytes.take(n));
        assert forall|i: int| n <= i < bytes.len() implies bytes[i] == 0u8 by {
            if i < shorter.len() {
                assert(shorter[i] == bytes[i]);
            }
        }
    } else {
        assert(bytes.take(bytes.len() as int) =~= bytes);
    }
}

/// Length of `bytes` without its trailing NUL bytes.
pub fn trimmed_len(bytes: &[u8]) -> (n: usize)
    ensures
        n <= bytes@.len(),
        bytes@.take(n as int) == trim_nul(bytes@),
{
    let mut n: usize = bytes.len();
    proof {
        assert(bytes@.take(n as int) =~= bytes@);
    }
    while n > 0 && bytes[n - 1] == 0
        invariant
            n <= bytes@.len(),
            trim_nul(bytes@.take(n as int)) == trim_nul(bytes@),
        decreases n,
    {
        proof {
            assert(bytes@.take(n as int).drop_last() =~= bytes@.take(n as int - 1));
        }
        n = n - 1;
    }
    n
}

/// Tells whether a reported, NUL-padded name is the desired name.
pub fn extension_name_matches(reported: &Vec<u8>, desired: &String) -> (r: bool)
    ensures
        r == name_matches(reported@, desired@),
{
    let wanted = desired.as_str().as_bytes();
    let n = trimmed_len(reported.as_slice());
    if n != wanted.len() {
        return false;
    }
    let mut i: usize = 0;
    while i < n
        invariant
            i <= n,
            n == wanted@.len(),
            n <= reported@.len(),
            reported@.take(n as int) == trim_nul(reported@),
            wanted@ == encode_utf8(desired@),
            forall|k: int| 0 <= k < i ==> reported@[k] == wanted@[k],
        decreases n - i,
    {
        if reported[i] != wanted[i] {
            proof {
                assert(reported@.take(n as int)[i as int] != wanted@[i as int]);
            }
            return false;
        }
        i = i + 1;
    }
    proof {
        assert(reported@.take(n as int) =~= wanted@);
    }
    true
}

/// Tells whether `available` holds the desired extension.
pub fn find_extension(available: &Vec<VkExtensionProperties>, desired: &String) -> (found: bool)
    ensures
        found == has_extension(available@, desired@),
{
    let mut i: usize = 0;
    while i < available.len()
        invariant
            i <= available@.len(),
            forall|k: int| 0 <= k < i ==> !name_matches(
                #[trigger] available@[k].extensionName@,
                desired@,
            ),
        decreases available@.len() - i,
    {
        if extension_name_matches(&available[i].extensionName, desired) {
            return true;
        }
        i = i + 1;
    }
    false
}

/// Position of the first desired name that `available` lacks, if any.
pub fn first_missing_extension(
    available: &Vec<VkExtensionProperties>,
    desired: &Vec<String>,
) -> (missing: Option<usize>)
    ensures
        missing is None <==> has_all_extensions(available@, desired@),
        missing matches Some(index) ==> is_first_missing(available@, desired@, index as int),
{
    let mut i: usize = 0;
    while i < desired.len()
        invariant
            i <= desired@.len(),
            forall|j: int| 0 <= j < i ==> has_extension(available@, #[trigger] desired@[j]@),
        decreases desired@.len() - i,
    {
        if !find_extension(available, &desired[i]) {
            return Some(i);
        }
        i = i + 1;
    }
    None
}

/// `String::from_utf8`: the string that the bytes encode, or nothing when
/// they are not valid UTF-8.
#[verifier::external_body]
pub(crate) fn string_from_utf8(bytes: Vec<u8>) -> (decoded: Option<String>)
    ensures
        decoded is Some <==> valid_utf8(bytes@),
        decoded matches Some(s) ==> s@ == decode_utf8(bytes@),
{
    String::from_utf8(bytes).ok()
}

/// Copy of the first `n` bytes of `bytes`.
pub fn prefix_bytes(bytes: &[u8], n: usize) -> (out: Vec<u8>)
    requires
        n <= bytes@.len(),
    ensures
        out@ == bytes@.take(n as int),
{
    let mut out: Vec<u8> = Vec::new();
    let mut i: usize = 0;
    while i < n
        invariant
            i <= n,
            n <= bytes@.len(),
            out@ == bytes@.take(i as int),
        decreases n - i,
    {
        out.push(bytes[i]);
        proof {
            assert(out@ =~= bytes@.take(i as int + 1));
        }
        i = i + 1;
    }
    out
}

/// The name that a NUL-padded byte string holds, or nothing when the bytes
/// before the padding are not valid UTF-8.
pub fn extension_name_from_bytes(bytes: &[u8]) -> (name: Option<String>)
    ensures
        name is Some <==> valid_utf8(trim_nul(bytes@)),
        name matches Some(s) ==> s@ == decode_utf8(trim_nul(bytes@)),
{
    let n = trimmed_len(bytes);
    string_from_utf8(prefix_bytes(bytes, n))
}

/// Turns NUL-terminated byte strings into extension names.
pub fn load_extension_names(extensions: &[&[u8]]) -> (names: Vec<String>)
    requires
        forall|i: int| 0 <= i < extensions@.len() ==> valid_utf8(trim_nul(#[trigger] extensions@[i]@)),
    ensures
        names@.len() == extensions@.len(),
        forall|i: int|
            0 <= i < extensions@.len() ==> (#[trigger] names@[i])@ == decode_utf8(
                trim_nul(extensions@[i]@),
            ),
{
    let mut names: Vec<String> = Vec::with_capacity(extensions.len());
    let mut i: usize = 0;
    while i < extensions.len()
        invariant
            i <= extensions@.len(),
            names@.len() == i,
            forall|k: int|
                0 <= k < extensions@.len() ==> valid_utf8(trim_nul(#[trigger] extensions@[k]@)),
            forall|k: int|
                0 <= k < i ==> (#[trigger] names@[k])@ == decode_utf8(trim_nul(extensions@[k]@)),
        decreases extensions@.len() - i,
    {
        let ext: &[u8] = extensions[i];
        let name = extension_name_from_bytes(ext);
        names.push(name.unwrap());
        i = i + 1;
    }
    names
}

/// A name read from NUL-padded bytes matches a reported name exactly when
/// the two byte strings agree up to their padding.
pub proof fn lemma_loaded_name_matches(reported: Seq<u8>, source: Seq<u8>)
    requires
        valid_utf8(trim_nul(source)),
    ensures
        name_matches(reported, decode_utf8(trim_nul(source))) <==> trim_nul(reported) == trim_nul(
            source,
        ),
{
    vstd::utf8::decode_utf8_encode_utf8(trim_nul(source));
}

/// True when every reported name, padding included, is valid UTF-8.
pub open spec fn names_are_text(list: Seq<VkExtensionProperties>) -> bool {
    forall|i: int| 0 <= i < list.len() ==> valid_utf8((#[trigger] list[i]).extensionName@)
}

/// Tells whether bytes are valid UTF-8.
pub fn is_text(bytes: &[u8]) -> (valid: bool)
    ensures
        valid == valid_utf8(bytes@),
{
    let copy = prefix_bytes(bytes, bytes.len());
    proof {
        assert(copy@ =~= bytes@);
    }
    string_from_utf8(copy).is_some()
}

/// Tells whether every reported name, padding included, is valid UTF-8.
pub fn all_names_are_text(list: &Vec<VkExtensionProperties>) -> (valid: bool)
    ensures
        valid == names_are_text(list@),
{
    let mut i: usize = 0;
    while i < list.len()
        invariant
            i <= list@.len(),
            forall|k: int| 0 <= k < i ==> valid_utf8((#[trigger] list@[k]).extensionName@),
        decreases list@.len() - i,
    {
        if !is_text(list[i].extensionName.as_slice()) {
            return false;
        }
        i = i + 1;
    }
    true
}

/// The reported names as text, one line for each extension, padding
/// included.
pub fn extension_lines(list: &Vec<VkExtensionProperties>) -> (lines: Vec<String>)
    requires
        names_are_text(list@),
    ensures
        lines@.len() == list@.len(),
        forall|i: int|
            0 <= i < list@.len() ==> (#[trigger] lines@[i])@ == decode_utf8(
                list@[i].extensionName@,
            ),
{
    let mut lines: Vec<String> = Vec::new();
    let mut i: usize = 0;
    while i < list.len()
        invariant
            i <= list@.len(),
            lines@.len() == i,
            names_are_text(list@),
            forall|k: int|
                0 <= k < i ==> (#[trigger] lines@[k])@ == decode_utf8(list@[k].extensionName@),
        decreases list@.len() - i,
    {
        let name = &list[i].extensionName;
        let bytes = prefix_bytes(name.as_slice(), name.len());
        proof {
            assert(bytes@ =~= name@);
            assert(valid_utf8(list@[i as int].extensionName@));
        }
        let line = string_from_utf8(bytes);
        lines.push(line.unwrap());
        i = i + 1;
    }
    lines
}

} // verus!
