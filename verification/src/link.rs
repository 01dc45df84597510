//! Pagination through the `Link` response header.
use vstd::prelude::*;

use crate::error::opt_view;
use crate::text::{
    chars_of, eq_str, find, find_char, lemma_find_char, slice, split_on, split_pieces, string_of,
    trim, trim_end_all_str, trim_end_matches, trim_start_all, trim_start_matches, trimmed,
};

verus! {

/// The parameter that marks the next page.
pub open spec fn rel_next() -> Seq<char> {
    "rel=\"next\""@
}

/// Some `;`-separated parameter, trimmed, is `rel="next"`.
pub open spec fn has_rel_next(params: Seq<char>) -> bool {
    exists|k: int| 0 <= k < split_on(params, ';').len() && #[trigger] trim(split_on(params, ';')[k]) == rel_next()
}

/// The URL of one `Link` entry (`<URL>; rel="..."`) when it is the next page.
pub open spec fn spec_link_entry(entry: Seq<char>) -> Option<Seq<char>> {
    let t = trim(entry);
    match find_char(t, ';') {
        None => None,
        Some(i) => {
            let url_part = t.subrange(0, i);
            let params = t.subrange(i + 1, t.len() as int);
            if has_rel_next(params) {
                Some(trim_end_matches(trim_start_matches(trim(url_part), "<"@), ">"@))
            } else {
                None
            }
        },
    }
}

/// The first entry that names the next page.
pub open spec fn spec_first_next(entries: Seq<Seq<char>>) -> Option<Seq<char>>
    decreases entries.len(),
{
    if entries.len() == 0 {
        None
    } else {
        match spec_link_entry(entries[0]) {
            Some(u) => Some(u),
            None => spec_first_next(entries.drop_first()),
        }
    }
}

/// The next-page URL of a `Link` header value.
pub open spec fn spec_next_link(header: Option<Seq<char>>) -> Option<Seq<char>> {
    match header {
        None => None,
        Some(h) => spec_first_next(split_on(h, ',')),
    }
}

fn rel_next_among(params: &[char]) -> (r: bool)
    ensures
        r == has_rel_next(params@),
{
    let pieces = split_pieces(params, ';');
    let ghost views = pieces@.map_values(|v: Vec<char>| v@);
    let mut k: usize = 0;
    while k < pieces.len()
        invariant
            k <= pieces@.len(),
            views == pieces@.map_values(|v: Vec<char>| v@),
            views == split_on(params@, ';'),
            forall|j: int| 0 <= j < k ==> #[trigger] trim(views[j]) != rel_next(),
        decreases pieces.len() - k,
    {
        let t = trimmed(&pieces[k]);
        assert(views[k as int] == pieces@[k as int]@);
        if eq_str(&t, "rel=\"next\"") {
            return true;
        }
        k += 1;
    }
    false
}

fn link_entry(entry: &[char]) -> (r: Option<Vec<char>>)
    ensures
        match r {
            Some(u) => spec_link_entry(entry@) == Some(u@),
            None => spec_link_entry(entry@) is None,
        },
{
    let t = trimmed(entry);
    proof {
        lemma_find_char(t@, ';');
    }
    match find(&t, ';') {
        None => None,
        Some(i) => {
            assert(i < t.len());
            let url_part = slice(&t, 0, i);
            let params = slice(&t, i + 1, t.len());
            if rel_next_among(&params) {
                let u = trimmed(&url_part);
                let u = trim_start_all(&u, &chars_of("<"));
                Some(trim_end_all_str(&u, ">"))
            } else {
                None
            }
        },
    }
}

/// The next-page URL named by a `Link` header value, if any.
pub fn next_link(header: Option<&str>) -> (r: Option<String>)
    ensures
        opt_view(r) == spec_next_link(match header {
            Some(h) => Some(h@),
            None => None,
        }),
{
    let h = match header {
        None => return None,
        Some(h) => h,
    };
    let entries = split_pieces(&chars_of(h), ',');
    let ghost views = entries@.map_values(|v: Vec<char>| v@);
    let mut i: usize = 0;
    assert(views.skip(0) =~= views);
    while i < entries.len()
        invariant
            i <= entries@.len(),
            views == entries@.map_values(|v: Vec<char>| v@),
            views == split_on(h@, ','),
            header == Some(h),
            spec_first_next(views) == spec_first_next(views.skip(i as int)),
        decreases entries.len() - i,
    {
        assert(views.skip(i as int)[0] == entries@[i as int]@);
        assert(views.skip(i as int).drop_first() =~= views.skip(i + 1));
        if let Some(u) = link_entry(&entries[i]) {
            assert(spec_link_entry(views.skip(i as int)[0]) == Some(u@));
            assert(spec_first_next(views.skip(i as int)) == Some(u@));
            return Some(string_of(&u));
        }
        i += 1;
    }
    assert(views.skip(entries@.len() as int).len() == 0);
    None
}

} // verus!
