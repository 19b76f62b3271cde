//! Foreign identifiers and the host identifiers they are given.
//!
//! A foreign type name of the form `cef_<segment>_t`, with or without a leading
//! underscore, becomes the segment in upper camel case; a foreign value name
//! becomes snake case; a foreign function name `cef_<rest>` becomes `<rest>`.

use crate::text::{has_prefix, option_text, starts_with};
use convert_case::{Case, Casing};
use regex::Regex;
use vstd::prelude::*;
use vstd::string::*;

verus! {

/// The prefix that keeps a host type name apart from the built-in text type.
pub const STRING_GUARD: &'static str = "Cef";

/// The word that a host type name may not begin with.
pub const STRING_WORD: &'static str = "String";

/// Whether `c` is of the class `\w` of the `regex` crate: a word character of
/// Unicode.
pub uninterp spec fn is_word_char(c: char) -> bool;

/// The text that `convert_case` gives for `text`, read as snake case and
/// written in upper camel case.
pub uninterp spec fn upper_camel_of_snake(text: Seq<char>) -> Seq<char>;

/// The text that `convert_case` gives for `text`, read as camel case and
/// written in snake case.
pub uninterp spec fn snake_of_camel(text: Seq<char>) -> Seq<char>;

/// Whether `text` is one character or more, each of the class `\w`.
pub open spec fn is_word(text: Seq<char>) -> bool {
    text.len() > 0 && forall|i: int| 0 <= i < text.len() ==> is_word_char(#[trigger] text[i])
}

/// The segment of `name` between `prefix` and `suffix`, where `name` is made of
/// these three and the segment is a word.
pub open spec fn framed_word(name: Seq<char>, prefix: Seq<char>, suffix: Seq<char>) -> Option<
    Seq<char>,
> {
    let end = name.len() - suffix.len();
    if prefix.len() < end && name.subrange(0, prefix.len() as int) == prefix && name.subrange(
        end,
        name.len() as int,
    ) == suffix && is_word(name.subrange(prefix.len() as int, end)) {
        Some(name.subrange(prefix.len() as int, end))
    } else {
        None
    }
}

/// The segment that the pattern `^_?cef_(\w+)_t$` captures in `name`.
pub open spec fn type_name_segment(name: Seq<char>) -> Option<Seq<char>> {
    if name.len() > 0 && name[0] == '_' {
        framed_word(name.skip(1), "cef_"@, "_t"@)
    } else {
        framed_word(name, "cef_"@, "_t"@)
    }
}

/// The remainder that the pattern `^cef_(\w+)$` captures in `name`.
pub open spec fn global_name_segment(name: Seq<char>) -> Option<Seq<char>> {
    framed_word(name, "cef_"@, Seq::empty())
}

/// An upper camel case name, guarded where it would begin with the word `String`.
pub open spec fn host_name(camel: Seq<char>) -> Seq<char> {
    if has_prefix(camel, STRING_WORD@) {
        STRING_GUARD@ + camel
    } else {
        camel
    }
}

/// The host name of a foreign type name, where it has the recognised form.
pub open spec fn mapped_type_name(name: Seq<char>) -> Option<Seq<char>> {
    match type_name_segment(name) {
        Some(segment) => Some(host_name(upper_camel_of_snake(segment))),
        None => None,
    }
}

/// The host name of a foreign type name, or the name itself where it has no
/// recognised form.
pub open spec fn resolved_type_name(name: Seq<char>) -> Seq<char> {
    match mapped_type_name(name) {
        Some(host) => host,
        None => name,
    }
}

/// The host name of a foreign function and the foreign name where the two
/// differ, given what the pattern captured in the foreign name.
pub open spec fn global_name(name: Seq<char>, captured: Option<Seq<char>>) -> (
    Seq<char>,
    Option<Seq<char>>,
) {
    match captured {
        Some(rest) => (rest, Some(name)),
        None => (name, None),
    }
}

/// The host name of a foreign function, and the foreign name where the two differ.
pub open spec fn mapped_global_name(name: Seq<char>) -> (Seq<char>, Option<Seq<char>>) {
    global_name(name, global_name_segment(name))
}

/// Runs the pattern `^_?cef_(\w+)_t$` of the `regex` crate on `name` and hands
/// out its first capture group. The contract restates the pattern: an optional
/// underscore, the literal `cef_`, one or more characters of the class `\w`, the
/// literal `_t`, all of it anchored at both ends of `name`.
#[verifier::external_body]
fn capture_type_segment(name: &str) -> (r: Option<String>)
    ensures
        option_text(r) == type_name_segment(name@),
        r matches Some(segment) ==> forall|i: int|
            0 <= i < segment@.len() ==> is_word_char(#[trigger] segment@[i]),
{
    match Regex::new(r"^_?cef_(\w+)_t$").unwrap().captures(name) {
        Some(captures) => Some(captures[1].to_string()),
        None => None,
    }
}

/// Runs the pattern `^cef_(\w+)$` of the `regex` crate on `name` and hands out
/// its first capture group. The contract restates the pattern: the literal
/// `cef_`, then one or more characters of the class `\w`, anchored at both ends.
#[verifier::external_body]
fn capture_global_segment(name: &str) -> (r: Option<String>)
    ensures
        option_text(r) == global_name_segment(name@),
        r matches Some(rest) ==> forall|i: int|
            0 <= i < rest@.len() ==> is_word_char(#[trigger] rest@[i]),
{
    match Regex::new(r"^cef_(\w+)$").unwrap().captures(name) {
        Some(captures) => Some(captures[1].to_string()),
        None => None,
    }
}

/// Converts `text` with `convert_case`, from `Case::Snake` to `Case::UpperCamel`.
/// The result is named, not described; the one fact stated of it is that it
/// holds no underscore, since the snake boundary consumes every underscore and
/// the words are joined by nothing.
#[verifier::external_body]
fn snake_to_upper_camel(text: &str) -> (r: String)
    ensures
        r@ == upper_camel_of_snake(text@),
        !r@.contains('_'),
{
    text.from_case(Case::Snake).to_case(Case::UpperCamel)
}

/// Converts `text` with `convert_case`, from `Case::Camel` to `Case::Snake`.
/// The result is named, not described.
#[verifier::external_body]
fn camel_to_snake(text: &str) -> (r: String)
    ensures
        r@ == snake_of_camel(text@),
{
    text.from_case(Case::Camel).to_case(Case::Snake)
}

/// A name that holds no underscore has no recognised foreign form.
pub proof fn lemma_plain_name_unmapped(name: Seq<char>)
    requires
        !name.contains('_'),
    ensures
        type_name_segment(name) is None,
        mapped_type_name(name) is None,
        resolved_type_name(name) == name,
{
    reveal_strlit("cef_");
    if name.len() >= 4 {
        assert(name.subrange(0, 4)[3] == name[3]);
        assert(name.contains(name[3]));
    }
}

/// Guards an upper camel case name against the built-in text type: a name that
/// begins with `String` is given the prefix `Cef`, any other is returned as it is.
pub fn host_type_name(camel: String) -> (r: String)
    ensures
        r@ == host_name(camel@),
        !has_prefix(r@, STRING_WORD@),
        host_name(r@) == r@,
        camel@.contains('_') == r@.contains('_'),
{
    proof {
        reveal_strlit("Cef");
        reveal_strlit("String");
    }
    if starts_with(camel.as_str(), STRING_WORD) {
        let mut out = String::from_str(STRING_GUARD);
        out.append(camel.as_str());
        proof {
            assert(out@.subrange(0, 6)[0] == 'C');
            assert(STRING_WORD@[0] == 'S');
            if out@.contains('_') {
                let i = choose|i: int| 0 <= i < out@.len() && out@[i] == '_';
                assert(camel@[i - 3] == '_');
            }
            if camel@.contains('_') {
                let i = choose|i: int| 0 <= i < camel@.len() && camel@[i] == '_';
                assert(out@[i + 3] == '_');
            }
        }
        out
    } else {
        camel
    }
}

/// The host name of the foreign type name `name`: `None` where the name has not
/// the form `cef_<segment>_t`, with or without a leading underscore. A name that
/// was mapped is left alone by a second mapping, and never begins with `String`.
pub fn make_rust_type_name(name: &str) -> (r: Option<String>)
    ensures
        option_text(r) == mapped_type_name(name@),
        r matches Some(host) ==> !has_prefix(host@, STRING_WORD@) && mapped_type_name(host@)
            is None && resolved_type_name(host@) == host@,
{
    match capture_type_segment(name) {
        Some(segment) => {
            let host = host_type_name(snake_to_upper_camel(segment.as_str()));
            proof {
                lemma_plain_name_unmapped(host@);
            }
            Some(host)
        },
        None => None,
    }
}

/// The host name of `name`, or `name` itself where it has no recognised form.
/// Resolving a resolved name changes nothing.
pub fn resolve_type_name(name: &str) -> (r: String)
    ensures
        r@ == resolved_type_name(name@),
        resolved_type_name(r@) == r@,
{
    match make_rust_type_name(name) {
        Some(host) => host,
        None => name.to_owned(),
    }
}

/// The host name of the foreign argument or field name `name`, in snake case.
pub fn make_snake_case_value_name(name: &str) -> (r: String)
    ensures
        r@ == snake_of_camel(name@),
{
    camel_to_snake(name)
}

/// The host name of the foreign function `name` and the name to forward to,
/// given what the pattern captured in `name`: the captured rest with `name`
/// as the target, or `name` alone where nothing was captured.
pub fn global_fn_name(name: &str, captured: Option<String>) -> (r: (String, Option<String>))
    ensures
        (r.0@, option_text(r.1)) == global_name(name@, option_text(captured)),
{
    match captured {
        Some(rest) => (rest, Some(name.to_owned())),
        None => (name.to_owned(), None),
    }
}

/// The host name of the foreign function `name`, and `name` itself as the
/// target to forward to where the two differ: `cef_<rest>` gives
/// `(<rest>, Some(name))`, any other name gives `(name, None)`.
pub fn make_global_fn_name(name: &str) -> (r: (String, Option<String>))
    ensures
        (r.0@, option_text(r.1)) == mapped_global_name(name@),
{
    global_fn_name(name, capture_global_segment(name))
}

} // verus!
