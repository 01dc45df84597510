//! Label names in request paths and label colours.
use vstd::prelude::*;

use crate::error::{opt_view, other, str_result, Failure, GbError};
use crate::text::{
    chars_of, is_hex_digit, lemma_lower_idempotent, lower, lowered,
    push_all, push_str, string_of, trim, trim_start_all, trim_start_matches, trimmed,
    is_whitespace, has_prefix, trim_start, trim_end,
};
use crate::weburl::{segments_path, segments_size, url_segments_path, url_size_ok};

verus! {

/// The request path of a label: `/repos/OWNER/REPO/labels/NAME`, each segment percent-encoded.
pub open spec fn spec_label_path(owner: Seq<char>, repo: Seq<char>, name: Seq<char>) -> Seq<char> {
    url_segments_path(seq!["repos"@, owner, repo, "labels"@, name])
}

/// The label path's segments are short enough for the URL library.
pub open spec fn label_path_fits(owner: Seq<char>, repo: Seq<char>, name: Seq<char>) -> bool {
    url_size_ok(owner.len() + repo.len() + name.len() + 16)
}

/// The request path of the label `name` in `owner/repo`.
pub fn label_path(owner: &str, repo: &str, name: &str) -> (r: String)
    requires
        label_path_fits(owner@, repo@, name@),
    ensures
        r@ == spec_label_path(owner@, repo@, name@),
{
    proof {
        reveal_strlit("repos");
        reveal_strlit("labels");
    }
    let mut segs: Vec<String> = Vec::new();
    segs.push(string_of(&chars_of("repos")));
    segs.push(string_of(&chars_of(owner)));
    segs.push(string_of(&chars_of(repo)));
    segs.push(string_of(&chars_of("labels")));
    segs.push(string_of(&chars_of(name)));
    assert(segs@.map_values(|s: String| s@) =~= seq!["repos"@, owner@, repo@, "labels"@, name@]);
    proof {
        let v = seq!["repos"@, owner@, repo@, "labels"@, name@];
        reveal_with_fuel(segments_size, 6);
        assert(v.drop_last() =~= seq!["repos"@, owner@, repo@, "labels"@]);
        assert(v.drop_last().drop_last() =~= seq!["repos"@, owner@, repo@]);
        assert(v.drop_last().drop_last().drop_last() =~= seq!["repos"@, owner@]);
        assert(v.drop_last().drop_last().drop_last().drop_last() =~= seq!["repos"@]);
        assert(seq!["repos"@].drop_last() =~= Seq::<Seq<char>>::empty());
        assert(segments_size(v) == owner@.len() + repo@.len() + name@.len() + 16);
    }
    segments_path(&segs)
}

/// A six-digit hexadecimal colour, with surrounding whitespace and leading `#` removed, lower-cased.
pub open spec fn spec_normalize_label_color(value: Seq<char>) -> Result<Seq<char>, Failure> {
    let t = trim_start_matches(trim(value), "#"@);
    if t.len() == 6 && (forall|i: int| 0 <= i < t.len() ==> is_hex_digit(#[trigger] t[i])) {
        Ok(lower(t))
    } else {
        Err(
            Failure::Other(
                "Invalid label color '"@ + value + "'. Expected a 6-digit hex value like ff0000."@,
            ),
        )
    }
}

/// Checks and normalises a label colour.
pub fn normalize_label_color(value: &str) -> (r: Result<String, GbError>)
    ensures
        str_result(r) == spec_normalize_label_color(value@),
{
    let v = chars_of(value);
    let t0 = trimmed(&v);
    let t = trim_start_all(&t0, &chars_of("#"));
    let mut ok = t.len() == 6;
    let mut i: usize = 0;
    while ok && i < t.len()
        invariant
            i <= t@.len(),
            ok ==> t@.len() == 6,
            ok ==> forall|j: int| 0 <= j < i ==> is_hex_digit(#[trigger] t@[j]),
            !ok ==> !(t@.len() == 6 && (forall|j: int|
                0 <= j < t@.len() ==> is_hex_digit(#[trigger] t@[j]))),
        decreases t.len() - i,
    {
        let c = t[i];
        if !(('0' <= c && c <= '9') || ('a' <= c && c <= 'f') || ('A' <= c && c <= 'F')) {
            ok = false;
        }
        i += 1;
    }
    if ok {
        Ok(string_of(&lowered(&t)))
    } else {
        let mut msg = chars_of("Invalid label color '");
        push_all(&mut msg, &v);
        push_str(&mut msg, "'. Expected a 6-digit hex value like ff0000.");
        Err(other(&msg))
    }
}

/// A normalised colour is accepted again unchanged.
pub proof fn lemma_normalize_label_color_idempotent(value: Seq<char>)
    requires
        spec_normalize_label_color(value) is Ok,
    ensures
        spec_normalize_label_color(spec_normalize_label_color(value)->Ok_0) == spec_normalize_label_color(
            value,
        ),
{
    reveal_strlit("#");
    let t = trim_start_matches(trim(value), "#"@);
    let n = lower(t);
    assert forall|i: int| 0 <= i < n.len() implies is_hex_digit(#[trigger] n[i]) && !is_whitespace(n[i]) && n[i] != '#' by {
        assert(is_hex_digit(t[i]));
        let c = t[i];
        if 'A' <= c && c <= 'Z' {
            assert(((c as u32) + 32) as char >= 'a');
        }
    }
    assert(trim_start(n) == n) by {
        if n.len() > 0 {
            assert(!is_whitespace(n[0]));
        }
    }
    assert(trim_end(n) == n) by {
        if n.len() > 0 {
            assert(!is_whitespace(n[n.len() - 1]));
        }
    }
    assert(!has_prefix(n, "#"@)) by {
        if has_prefix(n, "#"@) {
            assert(n.subrange(0, 1)[0] == n[0]);
        }
    }
    assert(trim_start_matches(n, "#"@) == n);
    lemma_lower_idempotent(t);
}

/// A colour for display: one leading `#`.
pub open spec fn spec_format_color(color: Seq<char>) -> Seq<char> {
    "#"@ + trim_start_matches(color, "#"@)
}

/// A colour for display, with exactly the one leading `#` of any run of them.
pub fn format_color(color: &str) -> (r: String)
    ensures
        r@ == spec_format_color(color@),
{
    let c = chars_of(color);
    let t = trim_start_all(&c, &chars_of("#"));
    let mut out = chars_of("#");
    push_all(&mut out, &t);
    string_of(&out)
}

/// The changes `gb label edit` was asked for.
pub struct LabelEditRequest {
    pub new_name: Option<String>,
    pub color: Option<String>,
    pub description: Option<String>,
    pub remove_description: bool,
}

/// The body of a label update request; `None` leaves a field as it is.
pub struct LabelUpdate {
    pub name: Option<String>,
    /// Lower-case hex without `#`.
    pub color: Option<String>,
    /// The new description; an empty one clears it.
    pub description: Option<String>,
}

/// The refusal of a label edit that changes nothing.
pub open spec fn no_label_changes() -> Failure {
    Failure::Other(
        "No label changes requested. Pass at least one of --name, --color, --description, or --remove-description."@,
    )
}

/// A label edit: something must change, and a new colour must be valid; removing the
/// description sends an empty one.
pub open spec fn spec_plan_label_edit(
    new_name: Option<Seq<char>>,
    color: Option<Seq<char>>,
    description: Option<Seq<char>>,
    remove_description: bool,
) -> Result<(Option<Seq<char>>, Option<Seq<char>>, Option<Seq<char>>), Failure> {
    if new_name is None && color is None && description is None && !remove_description {
        Err(no_label_changes())
    } else {
        let d = if remove_description {
            Some(Seq::empty())
        } else {
            description
        };
        match color {
            Some(c) => match spec_normalize_label_color(c) {
                Ok(n) => Ok((new_name, Some(n), d)),
                Err(e) => Err(e),
            },
            None => Ok((new_name, None, d)),
        }
    }
}

/// Validates a label edit and builds its request.
pub fn plan_label_edit(request: LabelEditRequest) -> (r: Result<LabelUpdate, GbError>)
    ensures
        match r {
            Ok(u) => spec_plan_label_edit(
                opt_view(request.new_name),
                opt_view(request.color),
                opt_view(request.description),
                request.remove_description,
            ) == Ok::<(Option<Seq<char>>, Option<Seq<char>>, Option<Seq<char>>), Failure>(
                (opt_view(u.name), opt_view(u.color), opt_view(u.description)),
            ),
            Err(e) => spec_plan_label_edit(
                opt_view(request.new_name),
                opt_view(request.color),
                opt_view(request.description),
                request.remove_description,
            ) == Err::<(Option<Seq<char>>, Option<Seq<char>>, Option<Seq<char>>), Failure>(e@),
        },
{
    if request.new_name.is_none() && request.color.is_none() && request.description.is_none()
        && !request.remove_description {
        return Err(
            other(
                &chars_of(
                    "No label changes requested. Pass at least one of --name, --color, --description, or --remove-description.",
                ),
            ),
        );
    }
    let color = match &request.color {
        Some(c) => Some(normalize_label_color(c.as_str())?),
        None => None,
    };
    let description = if request.remove_description {
        Some(string_of(&Vec::new()))
    } else {
        request.description
    };
    proof {
        reveal_strlit("");
    }
    Ok(LabelUpdate { name: request.new_name, color, description })
}

} // verus!
