//! The shorthand vocabulary: which notations are recognised and the markup
//! each one stands for.
//!
//! An autolink whose destination begins with `fa:` stands for an icon, one
//! whose destination begins with `time:` for a timestamp. A code span wrapped
//! in single dollars and a fenced block tagged `math` stand for formulas,
//! which an outside renderer turns into markup.

use vstd::prelude::*;

verus! {

/// The prefix of an icon shorthand.
pub open spec fn icon_prefix() -> Seq<char> {
    "fa:"@
}

/// The prefix of a timestamp shorthand.
pub open spec fn time_prefix() -> Seq<char> {
    "time:"@
}

/// The language tag that marks a fenced block as a formula.
pub open spec fn formula_language() -> Seq<char> {
    "math"@
}

/// What is left of `text` behind `prefix`, where `text` begins with it.
pub open spec fn without_prefix(text: Seq<char>, prefix: Seq<char>) -> Option<Seq<char>> {
    if prefix.is_prefix_of(text) {
        Some(text.skip(prefix.len() as int))
    } else {
        None
    }
}

/// The markup of the icon called `name`.
pub open spec fn icon_markup(name: Seq<char>) -> Seq<char> {
    "<i class=\"fa fa-"@ + name + "\" aria-hidden=\"true\"></i>"@
}

/// The markup of a timestamp: `value` is both what a machine reads and what
/// a person sees.
pub open spec fn time_markup(value: Seq<char>) -> Seq<char> {
    "<time datetime=\""@ + value + "\">"@ + value + "</time>"@
}

/// The markup that an autolink to `destination` stands for, if it is a
/// shorthand. The rules are tried in a fixed order and the first match wins.
pub open spec fn expansion(destination: Seq<char>) -> Option<Seq<char>> {
    if let Some(name) = without_prefix(destination, icon_prefix()) {
        Some(icon_markup(name))
    } else if let Some(value) = without_prefix(destination, time_prefix()) {
        Some(time_markup(value))
    } else {
        None
    }
}

/// The formula inside a code span that is wrapped in single dollars.
pub open spec fn inline_formula(code: Seq<char>) -> Option<Seq<char>> {
    if code.len() >= 2 && code.first() == '$' && code.last() == '$' {
        Some(code.subrange(1, code.len() - 1))
    } else {
        None
    }
}

/// No destination matches two rules: the prefixes differ in their first
/// character.
pub proof fn lemma_prefixes_exclusive(destination: Seq<char>)
    ensures
        !(icon_prefix().is_prefix_of(destination) && time_prefix().is_prefix_of(destination)),
{
    reveal_strlit("fa:");
    reveal_strlit("time:");
    if icon_prefix().is_prefix_of(destination) && time_prefix().is_prefix_of(destination) {
        assert(destination.subrange(0, 3)[0] == 'f');
        assert(destination.subrange(0, 5)[0] == 't');
    }
}

/// Splits `prefix` off the front of `text`.
pub fn strip_prefix<'a>(text: &'a str, prefix: &str) -> (rest: Option<&'a str>)
    ensures
        rest.deep_view() == without_prefix(text@, prefix@),
{
    let length = text.unicode_len();
    let width = prefix.unicode_len();
    if length < width {
        return None;
    }
    let mut at: usize = 0;
    while at < width
        invariant
            at <= width <= length,
            length == text@.len(),
            width == prefix@.len(),
            forall|i: int| 0 <= i < at ==> text@[i] == prefix@[i],
        decreases width - at,
    {
        if text.get_char(at) != prefix.get_char(at) {
            assert(text@.subrange(0, width as int)[at as int] != prefix@[at as int]);
            return None;
        }
        at += 1;
    }
    assert(prefix@ =~= text@.subrange(0, width as int));
    Some(text.substring_char(width, length))
}

/// Builds the markup of the icon called `name`.
pub fn icon(name: &str) -> (markup: String)
    ensures
        markup@ == icon_markup(name@),
{
    let mut markup = String::from_str("<i class=\"fa fa-");
    markup.append(name);
    markup.append("\" aria-hidden=\"true\"></i>");
    markup
}

/// Builds the markup of the timestamp `value`.
pub fn time(value: &str) -> (markup: String)
    ensures
        markup@ == time_markup(value@),
{
    let mut markup = String::from_str("<time datetime=\"");
    markup.append(value);
    markup.append("\">");
    markup.append(value);
    markup.append("</time>");
    markup
}

/// Expands the destination of an autolink, if it is a shorthand.
pub fn expand(destination: &str) -> (markup: Option<String>)
    ensures
        markup.deep_view() == expansion(destination@),
{
    if let Some(name) = strip_prefix(destination, "fa:") {
        Some(icon(name))
    } else if let Some(value) = strip_prefix(destination, "time:") {
        Some(time(value))
    } else {
        None
    }
}

/// Takes the formula out of a code span that is wrapped in single dollars.
pub fn unwrap_formula<'a>(code: &'a str) -> (formula: Option<&'a str>)
    ensures
        formula.deep_view() == inline_formula(code@),
{
    let length = code.unicode_len();
    if length >= 2 && code.get_char(0) == '$' && code.get_char(length - 1) == '$' {
        Some(code.substring_char(1, length - 1))
    } else {
        None
    }
}

/// Whether `language` marks a fenced block as a formula.
pub fn is_formula_language(language: &str) -> (yes: bool)
    ensures
        yes == (language@ == formula_language()),
{
    let given = String::from_str(language);
    let wanted = String::from_str("math");
    given == wanted
}

} // verus!
