//! The template engine: what is asked of it, and what is believed of its
//! answers.

use crate::name_map::NameMap;
use std::collections::BTreeMap;
use vstd::prelude::*;
use vstd::string::*;

verus! {

/// The error of the template engine, `handlebars::RenderError`. Nothing is
/// known of what it holds.
#[verifier::external_type_specification]
#[verifier::external_body]
pub struct ExRenderError(handlebars::RenderError);

/// What may stand between the two braces that open a tag and the sign that
/// tells its kind.
pub open spec fn is_filler(sign: char) -> bool {
    sign == ' ' || sign == '\t' || sign == '\n' || sign == '\r' || sign == '~' || sign == '#'
}

/// At `at` two braces open a tag whose sign, at `sign`, is the one that
/// includes a partial.
pub open spec fn partial_tag_at(template: Seq<char>, at: int, sign: int) -> bool {
    &&& 0 <= at
    &&& at + 2 <= sign < template.len()
    &&& template[at] == '{'
    &&& template[at + 1] == '{'
    &&& template[sign] == '>'
    &&& forall|between: int| at + 2 <= between < sign ==> is_filler(#[trigger] template[between])
}

/// The template holds a tag that includes a partial, that is another
/// template. This reads the text alone: a tag that the engine would take
/// for plain text, behind a backslash or inside a comment, counts too.
pub open spec fn includes_partial(template: Seq<char>) -> bool {
    exists|at: int, sign: int| partial_tag_at(template, at, sign)
}

/// Whether the template holds a tag that includes a partial.
pub fn has_partial_tag(template: &str) -> (found: bool)
    ensures
        found == includes_partial(template@),
{
    let count = template.unicode_len();
    let mut at: usize = 0;
    while at < count && count - at > 2
        invariant
            count == template@.len(),
            at <= count,
            forall|before: int, sign: int| before < at ==> !partial_tag_at(template@, before, sign),
        decreases count - at,
    {
        if template.get_char(at) == '{' && template.get_char(at + 1) == '{' {
            let mut sign: usize = at + 2;
            while sign < count && filler_sign(template.get_char(sign))
                invariant
                    count == template@.len(),
                    at + 2 <= sign <= count,
                    forall|between: int|
                        at + 2 <= between < sign ==> is_filler(#[trigger] template@[between]),
                decreases count - sign,
            {
                sign = sign + 1;
            }
            if sign < count && template.get_char(sign) == '>' {
                assert(partial_tag_at(template@, at as int, sign as int));
                return true;
            }
            assert(forall|other: int| !partial_tag_at(template@, at as int, other));
        }
        at = at + 1;
    }
    false
}

/// Whether `sign` may stand between the braces of a tag and its sign.
pub fn filler_sign(sign: char) -> (filler: bool)
    ensures
        filler == is_filler(sign),
{
    sign == ' ' || sign == '\t' || sign == '\n' || sign == '\r' || sign == '~' || sign == '#'
}

/// The text that the template engine renders `template` to, where each
/// name of `data` stands for the text stored with it, or `None` where the
/// engine reports an error. With `strict`, a variable of the template that
/// `data` does not name is an error; without, it renders to nothing.
pub uninterp spec fn template_output(
    template: Seq<char>,
    data: Seq<(Seq<char>, Seq<char>)>,
    strict: bool,
) -> Option<Seq<char>>;

/// Calls `handlebars::Handlebars::render_template` on a registry that was
/// made by `Handlebars::new` and set to `strict` by `set_strict_mode`, with
/// the entries of `data` as the fields of the object that the template
/// reads. The contract claims that what comes back depends on `template`,
/// the entries of `data` and `strict` alone: the text where the engine
/// returns one, and none where it returns an error. A template that
/// includes a partial is left out: partials that include each other make
/// the engine call itself without end.
#[verifier::external_body]
pub(crate) fn render_template(template: &str, data: &NameMap<String>, strict: bool) -> (rendered:
    Result<String, handlebars::RenderError>)
    requires
        !includes_partial(template@),
    ensures
        match rendered {
            Ok(text) => template_output(template@, data.deep_view(), strict) == Some(text@),
            Err(_) => template_output(template@, data.deep_view(), strict) is None,
        },
{
    let mut registry = handlebars::Handlebars::new();
    registry.set_strict_mode(strict);
    let fields: BTreeMap<&str, &str> = data.pairs().iter().map(
        |pair| (pair.0.as_str(), pair.1.as_str()),
    ).collect();
    registry.render_template(template, &fields)
}

/// Calls `to_string` on a `handlebars::RenderError`, which writes the error
/// out in words. Nothing is claimed of the words.
#[verifier::external_body]
pub(crate) fn render_error_message(error: &handlebars::RenderError) -> (message: String) {
    error.to_string()
}

} // verus!
