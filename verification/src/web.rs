//! The computed parts of the HTTP surface: the body of the catch-all route
//! and the header values that describe an encoded image. The routing itself
//! is a thin facade around the snapshot and configuration stores and stays
//! outside the library.

use crate::data::Tag;
use crate::frame::Frame;
use crate::text::{dec_chars, dec_string};
use vstd::prelude::*;
use vstd::string::StringExecFns;

verus! {

/// The JSON array of every reported target, identified or not, joined from
/// their opaque JSON attributes. Unlike the telemetry payload, nothing is
/// filtered here: the monitoring surface shows everything the detector
/// reported.
pub open spec fn all_tags_inner(tags: Seq<Tag>) -> Seq<char>
    decreases tags.len(),
{
    if tags.len() == 0 {
        Seq::empty()
    } else {
        let rest = all_tags_inner(tags.drop_last());
        if rest.len() == 0 {
            tags.last().json@
        } else {
            rest + ","@ + tags.last().json@
        }
    }
}

/// The complete body served for the tags endpoint.
pub open spec fn all_tags_text(tags: Seq<Tag>) -> Seq<char> {
    "["@ + all_tags_inner(tags) + "]"@
}

/// Renders the body of the tags endpoint: the JSON array of every reported
/// target.
pub fn tags_body(tags: &Vec<Tag>) -> (r: String)
    ensures
        r@ == all_tags_text(tags@),
{
    let mut inner = String::new();
    let n = tags.len();
    for i in 0..n
        invariant
            n == tags@.len(),
            inner@ == all_tags_inner(tags@.take(i as int)),
    {
        proof {
            assert(tags@.take(i + 1).drop_last() =~= tags@.take(i as int));
            assert(tags@.take(i + 1).last() == tags@[i as int]);
        }
        if !inner.as_str().is_empty() {
            inner.append(",");
        }
        inner.append(tags[i].json.as_str());
        proof {
            assert(inner@ =~= all_tags_inner(tags@.take(i + 1)));
        }
    }
    proof {
        assert(tags@.take(n as int) =~= tags@);
    }
    let mut s = String::new();
    s.append("[");
    s.append(inner.as_str());
    s.append("]");
    proof {
        assert(s@ =~= all_tags_text(tags@));
    }
    s
}

/// The body served for a route that matches nothing.
pub open spec fn not_found_text(path: Seq<char>) -> Seq<char> {
    "no such route: "@ + path
}

/// Renders the catch-all body for an unmatched path.
pub fn not_found_body(path: &str) -> (r: String)
    ensures
        r@ == not_found_text(path@),
{
    let mut s = String::new();
    s.append("no such route: ");
    s.append(path);
    proof {
        assert(s@ =~= not_found_text(path@));
    }
    s
}

/// Renders the dimension and scale headers that accompany an image body:
/// the width, the height, and the display-scale divisor, each in decimal.
pub fn frame_headers(f: &Frame, scale: u32) -> (r: (String, String, String))
    ensures
        r.0@ == dec_chars(f.width as nat),
        r.1@ == dec_chars(f.height as nat),
        r.2@ == dec_chars(scale as nat),
{
    (dec_string(f.width as u64), dec_string(f.height as u64), dec_string(scale as u64))
}

} // verus!
