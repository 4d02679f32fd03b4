//! Canonical form of a subject address and the default chain.

use vstd::prelude::*;
use vstd::string::*;

verus! {

/// The text that `str::to_lowercase` returns for `text`.
pub uninterp spec fn lowercase_text(text: Seq<char>) -> Seq<char>;

/// Whether `text` begins with the two characters `0x`.
pub open spec fn has_hex_marker(text: Seq<char>) -> bool {
    text.len() >= 2 && text[0] == '0' && text[1] == 'x'
}

/// `text` with every leading `0x` removed.
pub open spec fn without_hex_markers(text: Seq<char>) -> Seq<char>
    decreases text.len(),
{
    if has_hex_marker(text) {
        without_hex_markers(text.skip(2))
    } else {
        text
    }
}

/// The stored form of an address: lowercase, with no leading `0x`.
pub open spec fn normalized_address(text: Seq<char>) -> Seq<char> {
    without_hex_markers(lowercase_text(text))
}

/// The chain that a registration is filed under.
pub open spec fn effective_chain(chain: Option<String>) -> Seq<char> {
    match chain {
        Some(name) => name@,
        None => "sui"@,
    }
}

/// Calls `str::to_lowercase`. Trusted: the result is the text that
/// `lowercase_text` names.
#[verifier::external_body]
fn lowercase(text: &str) -> (lowered: String)
    ensures
        lowered@ == lowercase_text(text@),
{
    text.to_lowercase()
}

fn marker_at(text: &str, start: usize, len: usize) -> (found: bool)
    requires
        len == text@.len(),
        start <= len,
    ensures
        found == has_hex_marker(text@.skip(start as int)),
{
    if len - start < 2 {
        false
    } else {
        let first = text.get_char(start);
        let second = text.get_char(start + 1);
        first == '0' && second == 'x'
    }
}

/// Removes every leading `0x` from `text`.
pub fn strip_hex_markers(text: &str) -> (stripped: String)
    ensures
        stripped@ == without_hex_markers(text@),
{
    let len = text.unicode_len();
    let mut start: usize = 0;
    assert(text@.skip(0) =~= text@);
    while marker_at(text, start, len)
        invariant
            len == text@.len(),
            start <= len,
            without_hex_markers(text@) == without_hex_markers(text@.skip(start as int)),
        decreases len - start,
    {
        assert(text@.skip(start as int).skip(2) =~= text@.skip(start + 2));
        start = start + 2;
    }
    assert(text@.skip(start as int) =~= text@.subrange(start as int, len as int));
    String::from_str(text.substring_char(start, len))
}

/// Brings an address to its stored form.
pub fn normalize_address(address: &str) -> (normalized: String)
    ensures
        normalized@ == normalized_address(address@),
{
    let lowered = lowercase(address);
    strip_hex_markers(lowered.as_str())
}

/// The chain named by the caller, or `"sui"` where none was named.
pub fn chain_or_default(chain: &Option<String>) -> (name: String)
    ensures
        name@ == effective_chain(*chain),
{
    match chain {
        Some(given) => given.clone(),
        None => String::from_str("sui"),
    }
}

/// What is left after stripping does not begin with `0x`.
pub proof fn stripped_has_no_marker(text: Seq<char>)
    ensures
        !has_hex_marker(without_hex_markers(text)),
    decreases text.len(),
{
    if has_hex_marker(text) {
        stripped_has_no_marker(text.skip(2));
    }
}

/// Stripping twice gives what stripping once gives.
pub proof fn stripping_is_idempotent(text: Seq<char>)
    ensures
        without_hex_markers(without_hex_markers(text)) == without_hex_markers(text),
{
    stripped_has_no_marker(text);
}

/// A stored address never begins with `0x`, whatever was submitted.
pub proof fn normalized_has_no_marker(address: Seq<char>)
    ensures
        !has_hex_marker(normalized_address(address)),
{
    stripped_has_no_marker(lowercase_text(address));
}

/// One more leading `0x` changes nothing in what is stored.
pub proof fn leading_marker_is_dropped(text: Seq<char>)
    ensures
        without_hex_markers(seq!['0', 'x'] + text) == without_hex_markers(text),
{
    let marked = seq!['0', 'x'] + text;
    assert(marked.skip(2) =~= text);
}

} // verus!
