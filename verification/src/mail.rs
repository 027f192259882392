//! The body of an outgoing mail: a template with its placeholders filled in.

use vstd::prelude::*;
use vstd::string::*;

verus! {

/// A text with every occurrence of `from` replaced by `to`, found from the
/// left and not overlapping. An empty `from` matches before every character
/// and at the end.
pub open spec fn replaced(text: Seq<char>, from: Seq<char>, to: Seq<char>) -> Seq<char>
    decreases text.len(),
{
    if from.len() == 0 {
        if text.len() == 0 {
            to
        } else {
            to + seq![text[0]] + replaced(text.skip(1), from, to)
        }
    } else if text.len() < from.len() {
        text
    } else if text.subrange(0, from.len() as int) == from {
        to + replaced(text.skip(from.len() as int), from, to)
    } else {
        seq![text[0]] + replaced(text.skip(1), from, to)
    }
}

/// `str::replace`: all matches of the pattern, which do not overlap, are
/// replaced, the text between them kept.
#[verifier::external_body]
fn replace_all(text: &str, from: &str, to: &str) -> (r: String)
    ensures
        r@ == replaced(text@, from@, to@),
{
    text.replace(from, to)
}

/// A template after its placeholders were filled in, one after the other:
/// each pair is a key and the value that replaces it.
pub open spec fn rendered(template: Seq<char>, placeholders: Seq<(String, String)>) -> Seq<char>
    decreases placeholders.len(),
{
    if placeholders.len() == 0 {
        template
    } else {
        replaced(
            rendered(template, placeholders.drop_last()),
            placeholders.last().0@,
            placeholders.last().1@,
        )
    }
}

/// Fills the placeholders of a template in, in their order.
pub fn render_template(template: &str, placeholders: &Vec<(String, String)>) -> (r: String)
    ensures
        r@ == rendered(template@, placeholders@),
{
    let mut body = template.to_owned();
    let mut i: usize = 0;
    while i < placeholders.len()
        invariant
            i <= placeholders.len(),
            body@ == rendered(template@, placeholders@.take(i as int)),
        decreases placeholders.len() - i,
    {
        let next = replace_all(body.as_str(), placeholders[i].0.as_str(), placeholders[i].1.as_str());
        proof {
            let upto = placeholders@.take(i as int + 1);
            assert(upto.drop_last() =~= placeholders@.take(i as int));
            assert(upto.last() == placeholders@[i as int]);
        }
        body = next;
        i = i + 1;
    }
    proof {
        assert(placeholders@.take(placeholders.len() as int) =~= placeholders@);
    }
    body
}

} // verus!
