//! The reference to the interpreter's module in the web server's
//! configuration, and how a switch rewrites it.
//!
//! A configuration names the module in one of two forms: as it is
//! shipped, `php/php8apache2_4.dll`, or behind the indirection, as a
//! switch leaves it: `php/current/php`, the digits of a version, and
//! `apache2_4.dll`. A switch replaces every reference of either form by
//! the reference to the module of the new version and keeps the rest of
//! the text as it is.

use crate::text::{
    append_chars, concat3, contains, from_chars, is_digit, is_digit_char, lemma_contains_middle,
    lemma_contains_transitive, matches_at, occurs_at, strip_char, to_chars, without_char,
};
use vstd::prelude::*;
use vstd::string::*;

verus! {

/// The tag of `version` in the name of its module: the version without
/// its dots.
pub open spec fn module_tag(version: Seq<char>) -> Seq<char> {
    without_char(version, '.')
}

/// The tag of `version` in the name of its module.
pub fn module_tag_text(version: &str) -> (tag: String)
    ensures
        tag@ == module_tag(version@),
{
    let chars = to_chars(version);
    let tag = strip_char(&chars, '.');
    from_chars(&tag)
}

/// Whether `tag` is made of digits, as the tag of a version is that is
/// written with digits and dots.
pub open spec fn is_tag(tag: Seq<char>) -> bool {
    forall|i: int| 0 <= i < tag.len() ==> is_digit(#[trigger] tag[i])
}

/// The reference to the interpreter's module in a configuration as it is
/// shipped.
pub open spec fn shipped_module_reference() -> Seq<char> {
    "php/php8apache2_4.dll"@
}

/// What stands before the tag in a reference behind the indirection.
pub open spec fn module_prefix() -> Seq<char> {
    "php/current/php"@
}

/// What stands behind the tag in a reference behind the indirection.
pub open spec fn module_suffix() -> Seq<char> {
    "apache2_4.dll"@
}

/// The reference to the module with the given tag behind the
/// indirection.
pub open spec fn tagged_reference(tag: Seq<char>) -> Seq<char> {
    module_prefix() + tag + module_suffix()
}

/// The reference to the module of `version` behind the indirection.
pub open spec fn module_reference(version: Seq<char>) -> Seq<char> {
    tagged_reference(module_tag(version))
}

/// The reference to the module of `version` behind the indirection.
pub fn module_reference_text(version: &str) -> (reference: String)
    ensures
        reference@ == module_reference(version@),
{
    let tag = module_tag_text(version);
    concat3("php/current/php", tag.as_str(), "apache2_4.dll")
}

/// Where the run of digits that begins at `from` ends: at the first
/// character at or after `from` that is no digit, or at the end of the
/// text.
pub open spec fn digits_end(text: Seq<char>, from: int) -> int
    decreases text.len() - from,
{
    if from < 0 || from >= text.len() || !is_digit(text[from]) {
        from
    } else {
        digits_end(text, from + 1)
    }
}

/// The length of the module reference that stands in `text` at `at`, or
/// 0 if none stands there. A reference is the shipped one, or the prefix,
/// a run of digits and the suffix.
pub open spec fn reference_length(text: Seq<char>, at: int) -> int {
    let tag_from = at + module_prefix().len();
    if occurs_at(text, shipped_module_reference(), at) {
        shipped_module_reference().len() as int
    } else if occurs_at(text, module_prefix(), at) && occurs_at(
        text,
        module_suffix(),
        digits_end(text, tag_from),
    ) {
        digits_end(text, tag_from) - at + module_suffix().len()
    } else {
        0
    }
}

/// Whether a module reference stands somewhere in `config`.
pub open spec fn names_module(config: Seq<char>) -> bool {
    exists|at: int| reference_length(config, at) > 0
}

/// `config` from `at` on, with every module reference replaced by the
/// reference to the module of `version`. References are taken from left
/// to right.
pub open spec fn patched_from(config: Seq<char>, at: int, version: Seq<char>) -> Seq<char>
    decreases config.len() - at,
{
    if at < 0 || at >= config.len() {
        Seq::empty()
    } else if reference_length(config, at) > 0 {
        module_reference(version) + patched_from(
            config,
            at + reference_length(config, at),
            version,
        )
    } else {
        seq![config[at]] + patched_from(config, at + 1, version)
    }
}

/// The web server's configuration after a switch to `version`: every
/// module reference, shipped or left by an earlier switch, is replaced by
/// the reference to the module of `version`, and the rest stays as it is.
pub open spec fn patched_config(config: Seq<char>, version: Seq<char>) -> Seq<char> {
    patched_from(config, 0, version)
}

/// What the parts of a reference are made of.
proof fn lemma_reference_parts()
    ensures
        module_prefix().len() == 15,
        module_suffix().len() == 13,
        shipped_module_reference().len() == 21,
        module_prefix()[0] == 'p',
        module_prefix()[4] == 'c',
        module_prefix()[8] == 'e',
        forall|i: int|
            0 <= i < 15 ==> ((#[trigger] module_prefix()[i]) == '/' <==> (i == 3 || i == 11)),
        module_suffix()[0] == 'a',
        module_suffix()[10] == 'd',
        module_suffix()[11] == 'l',
        module_suffix()[12] == 'l',
        forall|i: int| 0 <= i < 13 ==> (#[trigger] module_suffix()[i]) != '/',
        shipped_module_reference()[0] == 'p',
        shipped_module_reference()[4] == 'p',
        shipped_module_reference()[18] == 'd',
        shipped_module_reference()[19] == 'l',
        shipped_module_reference()[20] == 'l',
        forall|i: int| 0 <= i < 21 ==> ((#[trigger] shipped_module_reference()[i]) == '/' <==> i == 3),
{
    reveal_strlit("php/current/php");
    reveal_strlit("apache2_4.dll");
    reveal_strlit("php/php8apache2_4.dll");
}

/// What a reference with a tag of digits is made of.
proof fn lemma_tagged_reference(tag: Seq<char>)
    requires
        is_tag(tag),
    ensures
        tagged_reference(tag).len() == 28 + tag.len(),
        forall|i: int| 0 <= i < 15 ==> (#[trigger] tagged_reference(tag)[i]) == module_prefix()[i],
        forall|i: int|
            0 <= i < tag.len() ==> (#[trigger] tagged_reference(tag)[15 + i]) == tag[i],
        forall|i: int|
            0 <= i < 13 ==> (#[trigger] tagged_reference(tag)[15 + tag.len() + i])
                == module_suffix()[i],
        forall|i: int|
            0 <= i < tagged_reference(tag).len() ==> ((#[trigger] tagged_reference(tag)[i]) == '/'
                <==> (i == 3 || i == 11)),
{
    lemma_reference_parts();
    let reference = tagged_reference(tag);
    assert forall|i: int| 0 <= i < reference.len() implies ((#[trigger] reference[i]) == '/' <==> (i
        == 3 || i == 11)) by {
        if i < 15 {
            assert(reference[i] == module_prefix()[i]);
        } else if i < 15 + tag.len() {
            assert(reference[i] == tag[i - 15]);
            assert(is_digit(tag[i - 15]));
        } else {
            assert(reference[i] == module_suffix()[i - 15 - tag.len()]);
        }
    }
}

/// The run of digits ends within the text, holds digits only, and stops
/// at a character that is no digit or where the text stops.
proof fn lemma_digits_end(text: Seq<char>, from: int)
    requires
        0 <= from <= text.len(),
    ensures
        from <= digits_end(text, from) <= text.len(),
        forall|k: int| from <= k < digits_end(text, from) ==> is_digit(text[k]),
        digits_end(text, from) < text.len() ==> !is_digit(text[digits_end(text, from)]),
    decreases text.len() - from,
{
    if from < text.len() && is_digit(text[from]) {
        lemma_digits_end(text, from + 1);
    }
}

/// A run of `count` digits that is followed by a character that is no
/// digit ends behind these digits.
proof fn lemma_digits_run(text: Seq<char>, from: int, count: int)
    requires
        0 <= from,
        0 <= count,
        from + count < text.len(),
        forall|k: int| from <= k < from + count ==> is_digit(text[k]),
        !is_digit(text[from + count]),
    ensures
        digits_end(text, from) == from + count,
    decreases count,
{
    if count > 0 {
        lemma_digits_run(text, from + 1, count - 1);
    }
}

/// A reference that stands in a text lies within it and is not empty.
proof fn lemma_reference_length(text: Seq<char>, at: int)
    ensures
        reference_length(text, at) >= 0,
        reference_length(text, at) > 0 ==> 0 <= at && at + reference_length(text, at) <= text.len(),
        reference_length(text, at) > 0 ==> reference_length(text, at) >= 21,
        occurs_at(text, shipped_module_reference(), at) ==> reference_length(text, at) > 0,
{
    lemma_reference_parts();
    if !occurs_at(text, shipped_module_reference(), at) && occurs_at(text, module_prefix(), at) {
        lemma_digits_end(text, at + 15);
    }
}

/// Where a reference with a tag of digits stands in a text, a reference
/// stands there.
proof fn lemma_tagged_reference_stands(text: Seq<char>, tag: Seq<char>, at: int)
    requires
        is_tag(tag),
        occurs_at(text, tagged_reference(tag), at),
    ensures
        reference_length(text, at) > 0,
{
    lemma_reference_parts();
    lemma_tagged_reference(tag);
    lemma_reference_length(text, at);
    let reference = tagged_reference(tag);
    let window = text.subrange(at, at + reference.len());
    if !occurs_at(text, shipped_module_reference(), at) {
        assert forall|i: int| 0 <= i < reference.len() implies text[at + i] == reference[i] by {
            assert(window[i] == text[at + i]);
        }
        assert(text.subrange(at, at + 15) =~= module_prefix()) by {
            assert forall|i: int| 0 <= i < 15 implies text[at + i] == module_prefix()[i] by {
                assert(text[at + i] == reference[i]);
            }
        }
        assert forall|k: int| at + 15 <= k < at + 15 + tag.len() implies is_digit(text[k]) by {
            assert(text[at + (k - at)] == reference[15 + (k - at - 15)]);
            assert(is_digit(tag[k - at - 15]));
        }
        assert(text[at + (15 + tag.len())] == reference[15 + tag.len() as int]);
        lemma_digits_run(text, at + 15, tag.len() as int);
        assert(text.subrange(at + 15 + tag.len(), at + 15 + tag.len() + 13) =~= module_suffix()) by {
            assert forall|i: int| 0 <= i < 13 implies text[at + 15 + tag.len() + i]
                == module_suffix()[i] by {
                assert(text[at + (15 + tag.len() + i)] == reference[15 + tag.len() + i]);
            }
        }
    }
}

/// In a text that holds the reference with the tag `tag` behind `before`,
/// a reference with a tag of digits that reaches into that reference is
/// that reference.
proof fn lemma_reference_in_new_text(
    before: Seq<char>,
    tag: Seq<char>,
    after: Seq<char>,
    other: Seq<char>,
    k: int,
)
    requires
        is_tag(tag),
        is_tag(other),
        occurs_at(before + tagged_reference(tag) + after, tagged_reference(other), k),
        before.len() < k + tagged_reference(other).len(),
        k < before.len() + tagged_reference(tag).len(),
    ensures
        k == before.len(),
        other == tag,
{
    lemma_reference_parts();
    lemma_tagged_reference(tag);
    lemma_tagged_reference(other);
    let new = tagged_reference(tag);
    let found = tagged_reference(other);
    let whole = before + new + after;
    let x = before.len() as int;
    let window = whole.subrange(k, k + found.len());
    assert forall|j: int| 0 <= j < found.len() implies whole[k + j] == found[j] by {
        assert(window[j] == whole[k + j]);
    }
    assert forall|j: int| 0 <= j < new.len() implies whole[x + j] == new[j] by {}
    if k == x {
        if other.len() < tag.len() {
            assert(whole[k + (15 + other.len())] == found[15 + other.len() as int]);
            assert(whole[x + (15 + other.len())] == new[15 + other.len() as int]);
            assert(is_digit(tag[other.len() as int]));
            assert(false);
        }
        if other.len() > tag.len() {
            assert(whole[k + (15 + tag.len())] == found[15 + tag.len() as int]);
            assert(whole[x + (15 + tag.len())] == new[15 + tag.len() as int]);
            assert(is_digit(other[tag.len() as int]));
            assert(false);
        }
        assert forall|i: int| 0 <= i < tag.len() implies other[i] == tag[i] by {
            assert(whole[k + (15 + i)] == found[15 + i]);
            assert(whole[x + (15 + i)] == new[15 + i]);
        }
        assert(other =~= tag);
    } else if k > x {
        let j = k - x;
        if j + 3 < new.len() {
            assert(whole[k + 3] == found[3]);
            assert(whole[x + (j + 3)] == new[j + 3]);
            assert(j == 8);
            assert(whole[k + 0] == found[0]);
            assert(whole[x + 8] == new[8]);
            assert(false);
        } else {
            assert(whole[k + 0] == found[0]);
            assert(whole[x + j] == new[j]);
            assert(new[15 + tag.len() + (j - 15 - tag.len())] == module_suffix()[j - 15 - tag.len()]);
            assert(false);
        }
    } else {
        let m = x - k;
        assert(whole[x + 0] == new[0]);
        assert(whole[k + m] == found[m]);
        if m + 3 < found.len() {
            assert(whole[x + 3] == new[3]);
            assert(whole[k + (m + 3)] == found[m + 3]);
            assert(m == 8);
            assert(false);
        } else {
            assert(found[15 + other.len() + (m - 15 - other.len())] == module_suffix()[m - 15
                - other.len()]);
            assert(false);
        }
    }
}

/// In a text that holds the reference with the tag `tag` behind `before`,
/// no shipped reference reaches into that reference.
proof fn lemma_shipped_not_in_new_text(before: Seq<char>, tag: Seq<char>, after: Seq<char>, k: int)
    requires
        is_tag(tag),
        before.len() < k + shipped_module_reference().len(),
        k < before.len() + tagged_reference(tag).len(),
    ensures
        !occurs_at(before + tagged_reference(tag) + after, shipped_module_reference(), k),
{
    lemma_reference_parts();
    lemma_tagged_reference(tag);
    let new = tagged_reference(tag);
    let found = shipped_module_reference();
    let whole = before + new + after;
    let x = before.len() as int;
    if occurs_at(whole, found, k) {
        let window = whole.subrange(k, k + found.len());
        assert forall|j: int| 0 <= j < found.len() implies whole[k + j] == found[j] by {
            assert(window[j] == whole[k + j]);
        }
        assert forall|j: int| 0 <= j < new.len() implies whole[x + j] == new[j] by {}
        if k == x {
            assert(whole[k + 4] == found[4]);
            assert(whole[x + 4] == new[4]);
        } else if k > x {
            let j = k - x;
            assert(whole[k + 0] == found[0]);
            assert(whole[x + j] == new[j]);
            if j + 3 < new.len() {
                assert(whole[k + 3] == found[3]);
                assert(whole[x + (j + 3)] == new[j + 3]);
                assert(j == 8);
                assert(whole[x + 8] == new[8]);
            } else {
                assert(new[15 + tag.len() + (j - 15 - tag.len())] == module_suffix()[j - 15
                    - tag.len()]);
            }
        } else {
            let m = x - k;
            assert(whole[x + 0] == new[0]);
            assert(whole[k + m] == found[m]);
            if m + 3 < found.len() {
                assert(whole[x + 3] == new[3]);
                assert(whole[k + (m + 3)] == found[m + 3]);
            }
        }
    }
}

/// Every module reference that stands in `text` is the reference with
/// the tag `tag` behind the indirection: no reference with another tag
/// of digits stands in it, and no shipped one.
pub open spec fn holds_only_reference(text: Seq<char>, tag: Seq<char>) -> bool {
    &&& forall|other: Seq<char>, k: int|
        is_tag(other) && #[trigger] occurs_at(text, tagged_reference(other), k) ==> other == tag
    &&& forall|k: int| !#[trigger] occurs_at(text, shipped_module_reference(), k)
}

/// What was kept of `config` from `from` up to `at`, where no reference
/// begins, followed by what is patched from `at` on, holds no reference
/// but that to the module of `version`.
proof fn lemma_patched_holds_only_new(config: Seq<char>, version: Seq<char>, from: int, at: int)
    requires
        is_tag(module_tag(version)),
        0 <= from <= at <= config.len(),
        forall|p: int| from <= p < at ==> reference_length(config, p) == 0,
    ensures
        holds_only_reference(
            config.subrange(from, at) + patched_from(config, at, version),
            module_tag(version),
        ),
    decreases config.len() - at,
{
    lemma_reference_parts();
    let tag = module_tag(version);
    let kept = config.subrange(from, at);
    let text = kept + patched_from(config, at, version);
    if at == config.len() {
        assert(text =~= kept);
        assert forall|other: Seq<char>, k: int|
            is_tag(other) && #[trigger] occurs_at(text, tagged_reference(other), k) implies other
            == tag by {
            lemma_kept_holds_no_reference(config, from, at, other, k);
        }
        assert forall|k: int| !#[trigger] occurs_at(text, shipped_module_reference(), k) by {
            lemma_kept_holds_no_shipped(config, from, at, k);
        }
    } else if reference_length(config, at) > 0 {
        let length = reference_length(config, at);
        lemma_reference_length(config, at);
        let rest = patched_from(config, at + length, version);
        let new = tagged_reference(tag);
        lemma_tagged_reference(tag);
        lemma_patched_holds_only_new(config, version, at + length, at + length);
        assert(config.subrange(at + length, at + length) + rest =~= rest);
        assert(text =~= kept + new + rest);
        assert forall|other: Seq<char>, k: int|
            is_tag(other) && #[trigger] occurs_at(text, tagged_reference(other), k) implies other
            == tag by {
            let found = tagged_reference(other);
            lemma_tagged_reference(other);
            if k >= kept.len() + new.len() {
                let inner = k - kept.len() - new.len();
                assert(rest.subrange(inner, inner + found.len()) =~= text.subrange(
                    k,
                    k + found.len(),
                ));
                assert(occurs_at(rest, tagged_reference(other), inner));
            } else if k + found.len() <= kept.len() {
                assert(kept.subrange(k, k + found.len()) =~= text.subrange(k, k + found.len()));
                assert(occurs_at(kept, tagged_reference(other), k));
                lemma_kept_holds_no_reference(config, from, at, other, k);
            } else {
                lemma_reference_in_new_text(kept, tag, rest, other, k);
            }
        }
        assert forall|k: int| !#[trigger] occurs_at(text, shipped_module_reference(), k) by {
            let found = shipped_module_reference();
            if occurs_at(text, found, k) {
                if k >= kept.len() + new.len() {
                    let inner = k - kept.len() - new.len();
                    assert(rest.subrange(inner, inner + found.len()) =~= text.subrange(
                        k,
                        k + found.len(),
                    ));
                    assert(occurs_at(rest, shipped_module_reference(), inner));
                } else if k + found.len() <= kept.len() {
                    assert(kept.subrange(k, k + found.len()) =~= text.subrange(
                        k,
                        k + found.len(),
                    ));
                    assert(occurs_at(kept, shipped_module_reference(), k));
                    lemma_kept_holds_no_shipped(config, from, at, k);
                } else {
                    lemma_shipped_not_in_new_text(kept, tag, rest, k);
                }
            }
        }
    } else {
        lemma_reference_length(config, at);
        lemma_patched_holds_only_new(config, version, from, at + 1);
        assert(text =~= config.subrange(from, at + 1) + patched_from(config, at + 1, version));
    }
}

/// No reference with a tag of digits stands in a part of a text in which
/// no reference begins.
proof fn lemma_kept_holds_no_reference(
    config: Seq<char>,
    from: int,
    at: int,
    other: Seq<char>,
    k: int,
)
    requires
        0 <= from <= at <= config.len(),
        forall|p: int| from <= p < at ==> reference_length(config, p) == 0,
        is_tag(other),
    ensures
        !occurs_at(config.subrange(from, at), tagged_reference(other), k),
{
    lemma_tagged_reference(other);
    let found = tagged_reference(other);
    if occurs_at(config.subrange(from, at), found, k) {
        assert(config.subrange(from + k, from + k + found.len()) =~= config.subrange(
            from,
            at,
        ).subrange(k, k + found.len()));
        assert(occurs_at(config, found, from + k));
        lemma_tagged_reference_stands(config, other, from + k);
    }
}

/// No shipped reference stands in a part of a text in which no reference
/// begins.
proof fn lemma_kept_holds_no_shipped(config: Seq<char>, from: int, at: int, k: int)
    requires
        0 <= from <= at <= config.len(),
        forall|p: int| from <= p < at ==> reference_length(config, p) == 0,
    ensures
        !occurs_at(config.subrange(from, at), shipped_module_reference(), k),
{
    lemma_reference_parts();
    let found = shipped_module_reference();
    if occurs_at(config.subrange(from, at), found, k) {
        assert(config.subrange(from + k, from + k + found.len()) =~= config.subrange(
            from,
            at,
        ).subrange(k, k + found.len()));
        assert(occurs_at(config, found, from + k));
        lemma_reference_length(config, from + k);
    }
}

/// Where a reference stands at or behind `from`, what is patched from
/// `from` on holds the reference to the module of `version`.
proof fn lemma_patched_names_new(config: Seq<char>, version: Seq<char>, from: int, at: int)
    requires
        0 <= from <= at,
        reference_length(config, at) > 0,
    ensures
        contains(patched_from(config, from, version), module_reference(version)),
    decreases at - from,
{
    lemma_reference_length(config, at);
    let new = module_reference(version);
    let patched = patched_from(config, from, version);
    if reference_length(config, from) > 0 {
        assert(patched.subrange(0, new.len() as int) =~= new);
        assert(occurs_at(patched, new, 0));
    } else {
        lemma_patched_names_new(config, version, from + 1, at);
        let rest = patched_from(config, from + 1, version);
        let inner = choose|inner: int| occurs_at(rest, new, inner);
        assert(patched.subrange(inner + 1, inner + 1 + new.len()) =~= rest.subrange(
            inner,
            inner + new.len(),
        ));
        assert(occurs_at(patched, new, inner + 1));
    }
}

/// Where no reference stands in a text, what is patched is the text.
proof fn lemma_patched_without_reference(config: Seq<char>, version: Seq<char>, at: int)
    requires
        !names_module(config),
        0 <= at <= config.len(),
    ensures
        patched_from(config, at, version) == config.subrange(at, config.len() as int),
    decreases config.len() - at,
{
    if at < config.len() {
        assert(!(reference_length(config, at) > 0));
        lemma_patched_without_reference(config, version, at + 1);
        assert(seq![config[at]] + config.subrange(at + 1, config.len() as int)
            =~= config.subrange(at, config.len() as int));
    } else {
        assert(config.subrange(at, config.len() as int) =~= Seq::<char>::empty());
    }
}

/// Where the run of digits that begins at `from` ends.
fn scan_digits(text: &Vec<char>, from: usize) -> (end: usize)
    ensures
        end == digits_end(text@, from as int),
        from <= end,
        from <= text.len() ==> end <= text.len(),
{
    let mut end: usize = from;
    while end < text.len() && is_digit_char(text[end])
        invariant
            from <= end,
            from <= text.len() ==> end <= text.len(),
            digits_end(text@, from as int) == digits_end(text@, end as int),
        decreases text.len() - end,
    {
        end += 1;
    }
    end
}

/// The length of the module reference that stands in `text` at `at`, or
/// 0 if none stands there.
fn reference_length_at(
    text: &Vec<char>,
    shipped: &Vec<char>,
    prefix: &Vec<char>,
    suffix: &Vec<char>,
    at: usize,
) -> (length: usize)
    requires
        shipped@ == shipped_module_reference(),
        prefix@ == module_prefix(),
        suffix@ == module_suffix(),
    ensures
        length == reference_length(text@, at as int),
{
    if matches_at(text, shipped, at) {
        return shipped.len();
    }
    let limit = text.len();
    if matches_at(text, prefix, at) {
        assert(at + prefix.len() <= limit);
        let end = scan_digits(text, at + prefix.len());
        if matches_at(text, suffix, end) {
            assert(end + suffix.len() <= limit);
            return end - at + suffix.len();
        }
    }
    0
}

/// The web server's configuration after a switch to `version`.
pub fn patch_module_reference(config: &str, version: &str) -> (patched: String)
    ensures
        patched@ == patched_config(config@, version@),
{
    let text = to_chars(config);
    let shipped = to_chars("php/php8apache2_4.dll");
    let prefix = to_chars("php/current/php");
    let suffix = to_chars("apache2_4.dll");
    let reference = module_reference_text(version);
    let new = to_chars(reference.as_str());
    let mut out: Vec<char> = Vec::new();
    let mut at: usize = 0;
    assert(out@ + patched_from(text@, 0, version@) =~= patched_from(text@, 0, version@));
    while at < text.len()
        invariant
            at <= text.len(),
            shipped@ == shipped_module_reference(),
            prefix@ == module_prefix(),
            suffix@ == module_suffix(),
            new@ == module_reference(version@),
            out@ + patched_from(text@, at as int, version@) == patched_from(text@, 0, version@),
        decreases text.len() - at,
    {
        let length = reference_length_at(&text, &shipped, &prefix, &suffix, at);
        if length > 0 {
            proof {
                lemma_reference_length(text@, at as int);
                let rest = patched_from(text@, at + length, version@);
                assert(out@ + (new@ + rest) =~= (out@ + new@) + rest);
            }
            append_chars(&mut out, &new);
            at += length;
        } else {
            proof {
                let rest = patched_from(text@, at + 1, version@);
                assert(out@ + (seq![text@[at as int]] + rest) =~= out@.push(text@[at as int])
                    + rest);
            }
            out.push(text[at]);
            at += 1;
        }
    }
    assert(out@ + Seq::<char>::empty() =~= out@);
    from_chars(&out)
}

/// A configuration names a module where it holds the shipped reference,
/// and where it holds the reference to the module of a version that is
/// written with digits and dots, as a switch to that version leaves it.
pub proof fn law_references_are_named(config: Seq<char>, version: Seq<char>)
    ensures
        contains(config, shipped_module_reference()) ==> names_module(config),
        is_tag(module_tag(version)) && contains(config, module_reference(version)) ==> names_module(
            config,
        ),
{
    if contains(config, shipped_module_reference()) {
        let at = choose|at: int| occurs_at(config, shipped_module_reference(), at);
        lemma_reference_length(config, at);
    }
    if is_tag(module_tag(version)) && contains(config, module_reference(version)) {
        let at = choose|at: int| occurs_at(config, module_reference(version), at);
        lemma_tagged_reference_stands(config, module_tag(version), at);
    }
}

/// The tag of a version that is written with digits and dots is made of
/// digits.
pub proof fn law_tag_of_digits_and_dots(version: Seq<char>)
    requires
        forall|i: int| 0 <= i < version.len() ==> is_digit(version[i]) || version[i] == '.',
    ensures
        is_tag(module_tag(version)),
    decreases version.len(),
{
    if version.len() > 0 {
        law_tag_of_digits_and_dots(version.drop_last());
    }
}

/// A configuration that names the interpreter's module, as shipped or as
/// an earlier switch left it, names the module of the new version after
/// the switch, and with it the version without its dots.
pub proof fn law_patched_config_names_version(config: Seq<char>, version: Seq<char>)
    requires
        names_module(config),
    ensures
        contains(patched_config(config, version), module_reference(version)),
        contains(patched_config(config, version), module_tag(version)),
{
    let at = choose|at: int| reference_length(config, at) > 0;
    lemma_reference_length(config, at);
    lemma_patched_names_new(config, version, 0, at);
    lemma_contains_middle(module_prefix(), module_tag(version), module_suffix());
    lemma_contains_transitive(
        patched_config(config, version),
        module_reference(version),
        module_tag(version),
    );
}

/// `text` names the module of no version but `version`, among the
/// versions that are written with digits and dots, and no module as it
/// is shipped.
pub open spec fn contains_no_other_reference(text: Seq<char>, version: Seq<char>) -> bool {
    &&& forall|other: Seq<char>|
        is_tag(module_tag(other)) && module_tag(other) != module_tag(version) ==> !contains(
            text,
            #[trigger] module_reference(other),
        )
    &&& !contains(text, shipped_module_reference())
}

/// After a switch to a version that is written with digits and dots, the
/// configuration names the module of no other such version, and no
/// module as it is shipped: every reference in it is the reference to the
/// module of the new version.
pub proof fn law_patched_config_names_no_other_version(config: Seq<char>, version: Seq<char>)
    requires
        is_tag(module_tag(version)),
    ensures
        holds_only_reference(patched_config(config, version), module_tag(version)),
        contains_no_other_reference(patched_config(config, version), version),
{
    let patched = patched_config(config, version);
    lemma_patched_holds_only_new(config, version, 0, 0);
    assert(config.subrange(0, 0) + patched =~= patched);
    assert forall|other: Seq<char>|
        is_tag(module_tag(other)) && module_tag(other) != module_tag(version) implies !contains(
        patched,
        #[trigger] module_reference(other),
    ) by {
        if contains(patched, module_reference(other)) {
            let k = choose|k: int| occurs_at(patched, module_reference(other), k);
            assert(occurs_at(patched, tagged_reference(module_tag(other)), k));
        }
    }
}

/// A configuration that names no module is left as it is.
pub proof fn law_patch_leaves_other_config(config: Seq<char>, version: Seq<char>)
    requires
        !names_module(config),
    ensures
        patched_config(config, version) == config,
{
    lemma_patched_without_reference(config, version, 0);
    assert(config.subrange(0, config.len() as int) =~= config);
}

} // verus!
