//! Properties that hold across calls: of the stored configuration, of the value lists that edits
//! merge, and of the normalizations that inputs go through.
use vstd::prelude::*;

use crate::auth::{spec_sanitize_profile_name, spec_status_output};
use crate::common::{
    spec_add_missing, spec_merge_named_values, spec_normalize_edit_state,
    spec_normalize_list_state, spec_normalize_str_vec, spec_parse_owner_repo, spec_without,
    lemma_add_missing_members, lemma_without_members,
};
use crate::config::{
    spec_active_profile_name, spec_config_hostname, spec_config_repo, spec_get_host_for_profile,
    spec_remove_host, spec_remove_profile_host, spec_set_host, spec_set_profile, stored_for_profile,
    AuthView, HostView,
};
use crate::api_url::{
    api_suffix, spec_candidate_url, spec_normalize_base_url, spec_origin_and_path,
    spec_path_has_base_prefix,
};
use crate::weburl::url_parse_outcome;
use crate::error::Failure;
use crate::text::{
    has_prefix, has_suffix, is_whitespace, lemma_suffix_of_concat, trim_end, trim_start,
    find_char, lemma_find_char, lemma_lower_idempotent, lemma_trim_idempotent,
    strip_prefix, trim, trim_end_matches, trim_start_matches,
};

verus! {

// ---------------------------------------------------------------------------
// The stored configuration
// ---------------------------------------------------------------------------

/// Credentials saved for a host, in a profile or globally, are the ones that host then uses
/// in that profile (or without one).
pub proof fn law_saved_credentials_are_used(
    c: AuthView,
    profile: Option<Seq<char>>,
    hostname: Seq<char>,
    host: HostView,
)
    ensures
        spec_get_host_for_profile(spec_set_host(c, profile, hostname, host), hostname, profile)
            == Ok::<HostView, Failure>(host),
{
}

/// Saving credentials for one host changes nothing for any other host, in any profile.
pub proof fn law_saving_keeps_other_hosts(
    c: AuthView,
    profile: Option<Seq<char>>,
    hostname: Seq<char>,
    host: HostView,
    other: Seq<char>,
    lookup_profile: Option<Seq<char>>,
)
    requires
        other != hostname,
    ensures
        spec_get_host_for_profile(spec_set_host(c, profile, hostname, host), other, lookup_profile)
            == spec_get_host_for_profile(c, other, lookup_profile),
{
    let c2 = spec_set_host(c, profile, hostname, host);
    match lookup_profile {
        Some(q) => {
            assert(stored_for_profile(c2, q, other) == stored_for_profile(c, q, other));
        },
        None => {},
    }
}

/// After logging out of a host globally, no credentials remain for it outside profiles.
pub proof fn law_logout_forgets_credentials(c: AuthView, hostname: Seq<char>)
    ensures
        spec_get_host_for_profile(spec_remove_host(c, hostname), hostname, None) == Err::<
            HostView,
            Failure,
        >(Failure::NotAuthenticated),
{
}

/// After a profile logs out of a host, the profile falls back on the global credentials, if any.
pub proof fn law_profile_logout_falls_back(c: AuthView, profile: Seq<char>, hostname: Seq<char>)
    ensures
        spec_get_host_for_profile(
            spec_remove_profile_host(c, profile, hostname),
            hostname,
            Some(profile),
        ) == (if c.hosts.dom().contains(hostname) {
            Ok::<HostView, Failure>(c.hosts[hostname])
        } else {
            Err::<HostView, Failure>(Failure::NotAuthenticated)
        }),
{
}

/// `gb auth status` never fails for the profile in use when no host is named on the command
/// line, whether it shows every profile or just that one.
pub proof fn law_status_of_active_profile_succeeds(
    c: AuthView,
    cli_profile: Option<Seq<char>>,
    env_profile: Option<Seq<char>>,
    narrowed: bool,
    env_token: bool,
)
    requires
        spec_active_profile_name(c, cli_profile, env_profile) is Ok,
    ensures
        ({
            let active = spec_active_profile_name(c, cli_profile, env_profile)->Ok_0;
            spec_status_output(c, None, active, if narrowed {
                active
            } else {
                None
            }, env_token) is Ok
        }),
{
}

/// A host named on the command line is the one used; without one and without a profile, the
/// stored default host is.
pub proof fn law_hostname_precedence(c: AuthView, hostname: Seq<char>, profile: Option<Seq<char>>)
    ensures
        spec_config_hostname(c, Some(hostname), profile) == Ok::<Option<Seq<char>>, Failure>(
            Some(hostname),
        ),
        spec_config_hostname(AuthView { default_host: Some(hostname), ..c }, None, None) == Ok::<
            Option<Seq<char>>,
            Failure,
        >(Some(hostname)),
{
}

/// After `gb config set profile`, the profile can be selected, and the default host and
/// repository it was given are the ones its commands use.
pub proof fn law_profile_defaults_are_used(
    c: AuthView,
    name: Seq<char>,
    default_host: Option<Seq<char>>,
    default_repo: Option<Seq<char>>,
)
    requires
        spec_set_profile(c, name, default_host, default_repo) is Ok,
    ensures
        ({
            let c2 = spec_set_profile(c, name, default_host, default_repo)->Ok_0;
            &&& spec_active_profile_name(c2, Some(name), None) == Ok::<Option<Seq<char>>, Failure>(
                Some(name),
            )
            &&& default_host is Some ==> spec_config_hostname(c2, None, Some(name)) == Ok::<
                Option<Seq<char>>,
                Failure,
            >(default_host)
            &&& default_repo is Some ==> spec_config_repo(c2, None, Some(name)) == Ok::<
                Option<Seq<char>>,
                Failure,
            >(default_repo)
        }),
{
}

// ---------------------------------------------------------------------------
// Value lists
// ---------------------------------------------------------------------------

/// Merging removes first and adds afterwards: a value ends up present exactly when it is added,
/// or when it was there and is not removed; the kept values come first, in their old order.
pub proof fn law_merge_named_values(
    current: Seq<Seq<char>>,
    additions: Seq<Seq<char>>,
    removals: Seq<Seq<char>>,
)
    ensures
        forall|x: Seq<char>| #[trigger]
            spec_merge_named_values(current, additions, removals).contains(x) <==> ((current.contains(
                x,
            ) && !removals.contains(x)) || additions.contains(x)),
        spec_merge_named_values(current, additions, removals).subrange(
            0,
            spec_without(current, removals).len() as int,
        ) == spec_without(current, removals),
{
    lemma_without_members(current, removals);
    lemma_add_missing_members(spec_without(current, removals), additions);
}

/// Removing values of which `vs` holds none leaves `vs` as it is.
proof fn lemma_without_nothing_held(vs: Seq<Seq<char>>, other: Seq<Seq<char>>)
    requires
        forall|x: Seq<char>| vs.contains(x) ==> !other.contains(x),
    ensures
        spec_without(vs, other) == vs,
    decreases vs.len(),
{
    if vs.len() > 0 {
        let d = vs.drop_last();
        assert forall|x: Seq<char>| d.contains(x) implies !other.contains(x) by {
            let k = choose|k: int| 0 <= k < d.len() && d[k] == x;
            assert(vs[k] == x);
        }
        lemma_without_nothing_held(d, other);
        assert(vs.contains(vs.last())) by {
            assert(vs[vs.len() - 1] == vs.last());
        }
        assert(d.push(vs.last()) =~= vs);
    }
}

/// Adding values that `vs` already holds leaves `vs` as it is.
proof fn lemma_add_missing_all_held(vs: Seq<Seq<char>>, additions: Seq<Seq<char>>)
    requires
        forall|x: Seq<char>| additions.contains(x) ==> vs.contains(x),
    ensures
        spec_add_missing(vs, additions) == vs,
    decreases additions.len(),
{
    if additions.len() > 0 {
        let d = additions.drop_last();
        assert forall|x: Seq<char>| d.contains(x) implies vs.contains(x) by {
            let k = choose|k: int| 0 <= k < d.len() && d[k] == x;
            assert(additions[k] == x);
        }
        lemma_add_missing_all_held(vs, d);
        assert(additions.contains(additions.last())) by {
            assert(additions[additions.len() - 1] == additions.last());
        }
    }
}

/// When no value is both added and removed, merging the same additions and removals a second
/// time changes nothing.
pub proof fn law_merge_is_idempotent(
    current: Seq<Seq<char>>,
    additions: Seq<Seq<char>>,
    removals: Seq<Seq<char>>,
)
    requires
        forall|x: Seq<char>| additions.contains(x) ==> !removals.contains(x),
    ensures
        spec_merge_named_values(
            spec_merge_named_values(current, additions, removals),
            additions,
            removals,
        ) == spec_merge_named_values(current, additions, removals),
{
    let m = spec_merge_named_values(current, additions, removals);
    lemma_without_members(current, removals);
    lemma_add_missing_members(spec_without(current, removals), additions);
    assert forall|x: Seq<char>| m.contains(x) implies !removals.contains(x) by {
        assert(spec_without(current, removals).contains(x) || additions.contains(x));
    }
    lemma_without_nothing_held(m, removals);
    assert forall|x: Seq<char>| additions.contains(x) implies m.contains(x) by {}
    lemma_add_missing_all_held(m, additions);
}

/// Normalized values are trimmed and non-empty, and normalizing them again changes nothing.
pub proof fn law_normalize_str_vec(values: Seq<Seq<char>>)
    ensures
        forall|i: int|
            0 <= i < spec_normalize_str_vec(values).len() ==> #[trigger] trim(
                spec_normalize_str_vec(values)[i],
            ) == spec_normalize_str_vec(values)[i] && spec_normalize_str_vec(values)[i].len() > 0,
        spec_normalize_str_vec(spec_normalize_str_vec(values)) == spec_normalize_str_vec(values),
    decreases values.len(),
{
    if values.len() > 0 {
        let prev = spec_normalize_str_vec(values.drop_last());
        law_normalize_str_vec(values.drop_last());
        let t = trim(values.last());
        lemma_trim_idempotent(values.last());
        if t.len() > 0 {
            assert(prev.push(t).drop_last() =~= prev);
            assert(prev.push(t).last() == t);
        }
    }
}

// ---------------------------------------------------------------------------
// Normalized inputs
// ---------------------------------------------------------------------------

/// A normalized list state normalizes to itself.
pub proof fn law_list_state_is_stable(state: Seq<char>)
    requires
        spec_normalize_list_state(state) is Ok,
    ensures
        spec_normalize_list_state(spec_normalize_list_state(state)->Ok_0) == spec_normalize_list_state(
            state,
        ),
{
    lemma_lower_idempotent(state);
}

/// A normalized edit state normalizes to itself.
pub proof fn law_edit_state_is_stable(kind: Seq<char>, state: Option<Seq<char>>)
    requires
        spec_normalize_edit_state(kind, state) is Ok,
    ensures
        spec_normalize_edit_state(kind, spec_normalize_edit_state(kind, state)->Ok_0)
            == spec_normalize_edit_state(kind, state),
{
    if let Some(v) = state {
        lemma_lower_idempotent(v);
    }
}

/// A sanitized profile name sanitizes to itself.
pub proof fn law_profile_name_is_stable(profile: Seq<char>)
    requires
        spec_sanitize_profile_name(profile) is Ok,
    ensures
        spec_sanitize_profile_name(spec_sanitize_profile_name(profile)->Ok_0)
            == spec_sanitize_profile_name(profile),
{
    lemma_trim_idempotent(profile);
}

/// `OWNER/REPO` reads back as the owner and repository it was made of, when the owner holds no
/// `/` and neither part is empty.
pub proof fn law_owner_repo_round_trip(owner: Seq<char>, repo: Seq<char>)
    requires
        owner.len() > 0,
        repo.len() > 0,
        forall|i: int| 0 <= i < owner.len() ==> owner[i] != '/',
    ensures
        spec_parse_owner_repo(owner + "/"@ + repo) == Ok::<(Seq<char>, Seq<char>), Failure>(
            (owner, repo),
        ),
{
    reveal_strlit("/");
    let s = owner + "/"@ + repo;
    lemma_find_char(s, '/');
    assert(s[owner.len() as int] == '/');
    match find_char(s, '/') {
        Some(i) => {
            if i < owner.len() {
                assert(s[i] == owner[i]);
            }
            assert(i == owner.len());
            assert(s.subrange(0, i) =~= owner);
            assert(s.subrange(i + 1, s.len() as int) =~= repo);
        },
        None => {},
    }
}

/// `trim_end_matches(s, "/")` is a prefix of `s` followed only by slashes.
proof fn lemma_trim_slashes(s: Seq<char>)
    ensures
        trim_end_matches(s, "/"@).len() <= s.len(),
        s.subrange(0, trim_end_matches(s, "/"@).len() as int) == trim_end_matches(s, "/"@),
        forall|j: int| trim_end_matches(s, "/"@).len() <= j < s.len() ==> s[j] == '/',
    decreases s.len(),
{
    reveal_strlit("/");
    let p = "/"@;
    if p.len() > 0 && crate::text::has_suffix(s, p) {
        let d = s.subrange(0, s.len() - 1);
        lemma_trim_slashes(d);
        let t = trim_end_matches(d, p);
        assert(trim_end_matches(s, p) == t);
        assert(s.subrange(0, t.len() as int) =~= d.subrange(0, t.len() as int));
        assert forall|j: int| t.len() <= j < s.len() implies s[j] == '/' by {
            if j < s.len() - 1 {
                assert(s[j] == d[j]);
            } else {
                assert(s.subrange(s.len() - 1, s.len() as int)[0] == '/');
            }
        }
    } else {
        assert(s.subrange(0, s.len() as int) =~= s);
    }
}

/// Every path lies under itself as a base.
pub proof fn law_path_under_itself(path: Seq<char>)
    ensures
        spec_path_has_base_prefix(path, path),
{
    let nb = trim_end_matches(path, "/"@);
    lemma_trim_slashes(path);
    if nb.len() > 0 && path != nb {
        assert(crate::text::has_prefix(path, nb));
        let rest = path.subrange(nb.len() as int, path.len() as int);
        assert(strip_prefix(path, nb) == Some(rest));
        if rest.len() == 0 {
            assert(path =~= nb);
        } else {
            assert(rest[0] == path[nb.len() as int]);
        }
    }
}


/// Removing the assignees that `next` lacks and adding those that `current` lacks turns the
/// assignees of `current` into exactly those of `next`.
pub proof fn law_assignee_moves(current: Seq<Seq<char>>, next: Seq<Seq<char>>)
    ensures
        forall|x: Seq<char>|
            #![trigger next.contains(x)]
            ((current.contains(x) && !spec_without(current, next).contains(x)) || spec_without(
                next,
                current,
            ).contains(x)) <==> next.contains(x),
{
    lemma_without_members(current, next);
    lemma_without_members(next, current);
}


/// A string that starts with `p` still does after anything is appended.
proof fn lemma_prefix_kept(a: Seq<char>, x: Seq<char>, p: Seq<char>)
    requires
        has_prefix(a, p),
    ensures
        has_prefix(a + x, p),
{
    assert((a + x).subrange(0, p.len() as int) =~= a.subrange(0, p.len() as int));
}

/// A string without surrounding whitespace, without a trailing `/` and starting with
/// `http://` or `https://` is its own candidate URL, for any protocol.
proof fn lemma_candidate_of_absolute(b: Seq<char>, protocol: Seq<char>)
    requires
        has_prefix(b, "http://"@) || has_prefix(b, "https://"@),
        b.len() > 0 && !is_whitespace(b[0]) && !is_whitespace(b.last()) && b.last() != '/',
    ensures
        spec_candidate_url(b, protocol) == b,
{
    assert(trim_start(b) == b);
    assert(trim_end(b) == b);
    reveal_strlit("/");
    assert(!has_suffix(b, "/"@)) by {
        if has_suffix(b, "/"@) {
            assert(b.subrange(b.len() - 1, b.len() as int)[0] == b.last());
        }
    }
    assert(trim_end_matches(b, "/"@) == b);
}

/// An API base built from a host or URL with the `http` or `https` protocol is built again
/// unchanged from itself, whatever protocol is then given, provided that `url` parses the
/// host or URL with an `http` or `https` scheme and reads back from the base the scheme, host,
/// port and path that it was built from.
pub proof fn law_normalized_base_is_kept(
    hostname: Seq<char>,
    protocol: Seq<char>,
    other_protocol: Seq<char>,
)
    requires
        spec_normalize_base_url(hostname, protocol) is Ok,
        url_parse_outcome(spec_candidate_url(hostname, protocol)) matches Ok(u) && (u.0 == "http"@
            || u.0 == "https"@),
        ({
            let b = spec_normalize_base_url(hostname, protocol)->Ok_0;
            url_parse_outcome(b) matches Ok(v) && v.1 matches Some(hv) && spec_origin_and_path(
                v,
                hv,
            ) == b
        }),
    ensures
        spec_normalize_base_url(spec_normalize_base_url(hostname, protocol)->Ok_0, other_protocol)
            == spec_normalize_base_url(hostname, protocol),
{
    reveal_strlit("/api/v3");
    reveal_strlit("://");
    reveal_strlit("http");
    reveal_strlit("https");
    reveal_strlit("http://");
    reveal_strlit("https://");
    reveal_strlit(":");
    let b = spec_normalize_base_url(hostname, protocol)->Ok_0;
    let u = url_parse_outcome(spec_candidate_url(hostname, protocol))->Ok_0;
    let host = u.1->Some_0;
    let base = spec_origin_and_path(u, host);
    let pre = u.0 + "://"@;
    assert(pre =~= "http://"@ || pre =~= "https://"@);
    assert(has_prefix(pre + host, pre)) by {
        assert(pre.subrange(0, pre.len() as int) =~= pre);
        lemma_prefix_kept(pre, host, pre);
    }
    let with_port = match u.2 {
        Some(p) => u.0 + "://"@ + host + ":"@ + crate::text::decimal(p as nat),
        None => u.0 + "://"@ + host,
    };
    assert(has_prefix(with_port, pre)) by {
        if let Some(p) = u.2 {
            lemma_prefix_kept(pre + host, ":"@, pre);
            lemma_prefix_kept(pre + host + ":"@, crate::text::decimal(p as nat), pre);
        }
    }
    let path = trim_end_matches(u.4, "/"@);
    assert(has_prefix(base, pre)) by {
        if path.len() > 0 && path != "/"@ {
            lemma_prefix_kept(with_port, path, pre);
        }
    }
    if !has_suffix(base, api_suffix()) {
        lemma_prefix_kept(base, api_suffix(), pre);
        lemma_suffix_of_concat(base, api_suffix());
    }
    assert(has_prefix(b, pre));
    assert(has_suffix(b, api_suffix()));
    assert(b[0] == 'h') by {
        assert(b.subrange(0, pre.len() as int)[0] == b[0]);
    }
    assert(b.last() == '3') by {
        assert(b.subrange(b.len() - 7, b.len() as int)[6] == b.last());
    }
    assert(!is_whitespace('h') && !is_whitespace('3'));
    lemma_candidate_of_absolute(b, other_protocol);
}


// ---------------------------------------------------------------------------
// Pagination, label and issue edits, profile selection, API paths
// ---------------------------------------------------------------------------

proof fn lemma_first_next(es: Seq<Seq<char>>)
    ensures
        (crate::link::spec_first_next(es) is None) <==> (forall|i: int|
            0 <= i < es.len() ==> (#[trigger] crate::link::spec_link_entry(es[i])) is None),
        forall|i: int|
            0 <= i < es.len() && (#[trigger] crate::link::spec_link_entry(es[i])) is Some && (
            forall|j: int| 0 <= j < i ==> crate::link::spec_link_entry(es[j]) is None)
                ==> crate::link::spec_first_next(es) == crate::link::spec_link_entry(es[i]),
    decreases es.len(),
{
    if es.len() > 0 {
        let rest = es.drop_first();
        lemma_first_next(rest);
        assert forall|i: int| 0 < i < es.len() implies es[i] == rest[i - 1] by {}
        if crate::link::spec_link_entry(es[0]) is None {
            assert forall|i: int|
                0 <= i < es.len() && (#[trigger] crate::link::spec_link_entry(es[i])) is Some && (
                forall|j: int| 0 <= j < i ==> crate::link::spec_link_entry(es[j]) is None)
                implies crate::link::spec_first_next(es) == crate::link::spec_link_entry(es[i]) by {
                assert(i > 0);
                assert(rest[i - 1] == es[i]);
                assert forall|j: int| 0 <= j < i - 1 implies crate::link::spec_link_entry(rest[j])
                    is None by {
                    assert(rest[j] == es[j + 1]);
                }
            }
            if crate::link::spec_first_next(es) is None {
                assert forall|i: int| 0 <= i < es.len() implies (#[trigger] crate::link::spec_link_entry(
                    es[i],
                )) is None by {
                    if i > 0 {
                        assert(rest[i - 1] == es[i]);
                    }
                }
            } else {
                let k = choose|k: int| 0 <= k < rest.len() && (#[trigger] crate::link::spec_link_entry(
                    rest[k],
                )) is Some;
                assert(es[k + 1] == rest[k]);
            }
        }
    }
}

/// The next page of a `Link` header is the URL of the first comma-separated entry that carries
/// the parameter `rel="next"`, however many entries come before it; there is none exactly when
/// no entry carries it, or when there is no header.
pub proof fn law_next_link_is_first_next_entry(header: Seq<char>)
    ensures
        crate::link::spec_next_link(None) is None,
        (crate::link::spec_next_link(Some(header)) is None) <==> (forall|i: int|
            0 <= i < crate::text::split_on(header, ',').len() ==> (
            #[trigger] crate::link::spec_link_entry(crate::text::split_on(header, ',')[i])) is None),
        forall|i: int|
            0 <= i < crate::text::split_on(header, ',').len() && (
            #[trigger] crate::link::spec_link_entry(crate::text::split_on(header, ',')[i])) is Some
                && (forall|j: int|
                0 <= j < i ==> crate::link::spec_link_entry(crate::text::split_on(header, ',')[j])
                    is None) ==> crate::link::spec_next_link(Some(header))
                == crate::link::spec_link_entry(crate::text::split_on(header, ',')[i]),
{
    lemma_first_next(crate::text::split_on(header, ','));
}

/// A label edit succeeds exactly when it asks for some change and any new colour is valid; it
/// then renames to exactly the requested name, sets the normalised colour when one is asked
/// for, and sends exactly the requested description, or an empty one when its removal is
/// asked for.
pub proof fn law_label_edit_sends_what_is_asked(
    new_name: Option<Seq<char>>,
    color: Option<Seq<char>>,
    description: Option<Seq<char>>,
    remove_description: bool,
)
    ensures
        ({
            let r = crate::label::spec_plan_label_edit(new_name, color, description, remove_description);
            &&& (r is Ok) <==> ((new_name is Some || color is Some || description is Some
                || remove_description) && (color matches Some(c)
                ==> crate::label::spec_normalize_label_color(c) is Ok))
            &&& r matches Ok(t) ==> t.0 == new_name
            &&& r matches Ok(t) ==> (remove_description ==> t.2 == Some(Seq::<char>::empty()))
            &&& r matches Ok(t) ==> (!remove_description ==> t.2 == description)
            &&& r matches Ok(t) ==> (color is None ==> t.1 is None)
            &&& r matches Ok(t) ==> (color matches Some(c) ==> t.1 == Some(
                crate::label::spec_normalize_label_color(c)->Ok_0,
            ))
        }),
{
}

/// The profile in use is the one named on the command line, else the one named in the
/// environment, else the stored default profile; it is used when it is saved and refused
/// otherwise, and there is none only when none of the three names one.
pub proof fn law_active_profile_precedence(
    c: AuthView,
    cli_profile: Option<Seq<char>>,
    env_profile: Option<Seq<char>>,
)
    ensures
        ({
            let r = spec_active_profile_name(c, cli_profile, env_profile);
            let chosen = if cli_profile is Some {
                cli_profile
            } else if env_profile is Some {
                env_profile
            } else {
                c.default_profile
            };
            &&& chosen is None ==> r == Ok::<Option<Seq<char>>, Failure>(None)
            &&& (chosen is Some && c.profiles.dom().contains(chosen->Some_0) ==> (r == Ok::<
                Option<Seq<char>>,
                Failure,
            >(chosen)))
            &&& (chosen is Some && !c.profiles.dom().contains(chosen->Some_0) ==> r is Err)
            &&& cli_profile is None && env_profile is None ==> (r is Ok ==> r->Ok_0 == c.default_profile)
        }),
{
}

/// An issue edit removes the milestone when asked to, else moves the issue to the requested
/// milestone; it leaves the milestone alone only when neither is asked for.
pub proof fn law_milestone_change(milestone: Option<u64>, remove: bool)
    ensures
        remove ==> crate::issue::spec_milestone_change(milestone, remove) == Some(None::<u64>),
        !remove ==> (milestone matches Some(m) ==> crate::issue::spec_milestone_change(milestone, remove)
            == Some(Some(m))),
        (crate::issue::spec_milestone_change(milestone, remove) is None) <==> (!remove
            && milestone is None),
{
}

/// A tail that starts a new path segment, query or fragment (or is empty).
pub open spec fn request_tail(rest: Seq<char>) -> bool {
    rest.len() == 0 || rest[0] == '/' || rest[0] == '?' || rest[0] == '#'
}

/// Under a base URL that parses, a root-relative path made of the base's own API path and a
/// request tail is reduced to that tail; so is a path made of `/api/v3` and a request tail that
/// does not start with the base's own API path, whatever path the base is served under.
pub proof fn law_api_prefix_is_removed(base_url: Seq<char>, rest: Seq<char>)
    requires
        url_parse_outcome(base_url) is Ok,
        request_tail(rest),
    ensures
        ({
            let api_path = trim_end_matches(url_parse_outcome(base_url)->Ok_0.4, "/"@);
            &&& has_prefix(api_path + rest, "/"@) ==> crate::api_url::spec_normalize_relative_api_path(
                api_path + rest,
                base_url,
            ) == rest
            &&& crate::api_url::spec_strip_prefix_with_boundary(api_suffix() + rest, api_path)
                is None ==> crate::api_url::spec_normalize_relative_api_path(
                api_suffix() + rest,
                base_url,
            ) == rest
        }),
{
    reveal_strlit("/api/v3");
    reveal_strlit("/");
    let api_path = trim_end_matches(url_parse_outcome(base_url)->Ok_0.4, "/"@);
    let p1 = api_path + rest;
    assert(p1.subrange(0, api_path.len() as int) =~= api_path);
    assert(p1.subrange(api_path.len() as int, p1.len() as int) =~= rest);
    let p2 = api_suffix() + rest;
    assert(p2.subrange(0, 7) =~= api_suffix());
    assert(p2.subrange(7, p2.len() as int) =~= rest);
    assert(p2[0] == '/');
    assert(p2.subrange(0, 1) =~= "/"@);
}


/// One `Link` entry `<URL>;PARAMS` names the next page exactly when one of its
/// `;`-separated parameters is `rel="next"`, and then its URL is the one between the angle
/// brackets.
pub proof fn law_link_entry_reads_url(url: Seq<char>, params: Seq<char>)
    requires
        forall|j: int| 0 <= j < url.len() ==> url[j] != ';',
        url.len() > 0 ==> url[0] != '<' && url.last() != '>',
        params.len() > 0,
        !is_whitespace(params.last()),
    ensures
        crate::link::spec_link_entry("<"@ + url + ">;"@ + params) == if crate::link::has_rel_next(
            params,
        ) {
            Some(url)
        } else {
            None
        },
{
    reveal_strlit("<");
    reveal_strlit(">;");
    reveal_strlit(">");
    let e = "<"@ + url + ">;"@ + params;
    let n: int = url.len() as int;
    assert(e[0] == '<');
    assert(e.last() == params.last());
    assert(!is_whitespace('<') && !is_whitespace('>'));
    assert(trim_start(e) == e);
    assert(trim_end(e) == e);
    assert(trim(e) == e);
    assert(e[n + 2] == ';');
    assert forall|j: int| 0 <= j < n + 2 implies e[j] != ';' by {
        if 1 <= j <= n {
            assert(e[j] == url[j - 1]);
        }
    }
    crate::text::lemma_find_char(e, ';');
    assert(crate::text::find_char(e, ';') == Some(n + 2));
    let url_part = e.subrange(0, n + 2);
    assert(url_part =~= "<"@ + url + ">"@);
    assert(e.subrange(n + 3, e.len() as int) =~= params);
    assert(trim_start(url_part) == url_part);
    assert(url_part.last() == '>');
    assert(trim_end(url_part) == url_part);
    assert(trim(url_part) == url_part);
    let after = url + ">"@;
    assert(url_part.subrange(0, 1) =~= "<"@);
    assert(url_part.subrange(1, url_part.len() as int) =~= after);
    assert(!has_prefix(after, "<"@)) by {
        assert(after.subrange(0, 1)[0] == after[0]);
    }
    assert(trim_start_matches(after, "<"@) == after);
    assert(trim_start_matches(url_part, "<"@) == after);
    assert(after.subrange(after.len() - 1, after.len() as int) =~= ">"@);
    assert(after.subrange(0, after.len() - 1) =~= url);
    assert(!has_suffix(url, ">"@)) by {
        if url.len() > 0 {
            assert(url.subrange(url.len() - 1, url.len() as int)[0] == url.last());
        }
    }
    assert(trim_end_matches(url, ">"@) == url);
    assert(trim_end_matches(after, ">"@) == url);
}

} // verus!
