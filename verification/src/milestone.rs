//! Milestone edits and creations: the REST request, the web-form fallback, and the view text.
use vstd::prelude::*;

use crate::common::{normalize_edit_state, spec_normalize_edit_state};
use crate::due_date::{
    due_on_to_form_date, format_due_on, normalize_due_on_for_create, normalize_due_on_for_edit,
    spec_due_on_to_form_date, spec_format_due_on, spec_normalize_due_on_for_create,
    spec_normalize_due_on_for_edit, DueOnChange, DueOnInput, NormalizedDueOn,
};
use crate::error::{opt_view, other, Failure, GbError};
use crate::models::Milestone;
use crate::text::{chars_of, decimal, decimal_of, eq, eq_str, push_all, push_str, string_of};

verus! {

/// The Unicode lower-case form of a string, as `str::to_lowercase` computes it.
pub uninterp spec fn unicode_lower(s: Seq<char>) -> Seq<char>;

/// Lower-cases `s` with `str::to_lowercase`.
#[verifier::external_body]
fn to_lowercase(s: &str) -> (r: String)
    ensures
        r@ == unicode_lower(s@),
{
    s.to_lowercase()
}

// ---------------------------------------------------------------------------
// Editing
// ---------------------------------------------------------------------------

/// The body of a milestone update request; `None` leaves a field as it is.
pub struct MilestoneUpdate {
    pub title: Option<String>,
    pub description: Option<String>,
    /// The new due date in API form; an empty string clears it.
    pub due_on: Option<String>,
    /// `open` or `closed`.
    pub state: Option<String>,
}

/// A validated milestone edit: the REST request and the due-date change behind it.
pub struct MilestoneEdit {
    pub update: MilestoneUpdate,
    pub due_on: DueOnInput,
}

/// The abstract value of a milestone edit: title, description, API due date, state, and the
/// due-date change.
pub type EditView = (Option<Seq<char>>, Option<Seq<char>>, Option<Seq<char>>, Option<Seq<char>>, DueOnChange);

/// The due date that the REST request sends for a due-date change.
pub open spec fn spec_api_due_on(d: DueOnChange) -> Option<Seq<char>> {
    match d {
        DueOnChange::Unchanged => None,
        DueOnChange::Clear => Some(Seq::empty()),
        DueOnChange::SetTo(api, _) => Some(api),
    }
}

/// The refusal of an edit that changes nothing.
pub open spec fn nothing_to_edit() -> Failure {
    Failure::Other(
        "No milestone changes requested. Pass at least one of --title, --description, --due-on, or --state."@,
    )
}

/// A milestone edit: the due date is checked first, then the state, then that something changes.
pub open spec fn spec_plan_milestone_edit(
    title: Option<Seq<char>>,
    description: Option<Seq<char>>,
    due_on: Option<Seq<char>>,
    state: Option<Seq<char>>,
) -> Result<EditView, Failure> {
    match spec_normalize_due_on_for_edit(due_on) {
        Err(e) => Err(e),
        Ok(d) => match spec_normalize_edit_state("milestone"@, state) {
            Err(e) => Err(e),
            Ok(s) => if title is None && description is None && d is Unchanged && s is None {
                Err(nothing_to_edit())
            } else {
                Ok((title, description, spec_api_due_on(d), s, d))
            },
        },
    }
}

/// The abstract value of a due-date change.
pub open spec fn due_change(d: DueOnInput) -> DueOnChange {
    match d {
        DueOnInput::Unchanged => DueOnChange::Unchanged,
        DueOnInput::Clear => DueOnChange::Clear,
        DueOnInput::SetTo(n) => DueOnChange::SetTo(n.api_value@, n.form_value@),
    }
}

/// The abstract value of a planned milestone edit.
pub open spec fn edit_view(e: MilestoneEdit) -> EditView {
    (
        opt_view(e.update.title),
        opt_view(e.update.description),
        opt_view(e.update.due_on),
        opt_view(e.update.state),
        due_change(e.due_on),
    )
}

/// Validates a milestone edit and builds its REST request.
pub fn plan_milestone_edit(
    title: Option<String>,
    description: Option<String>,
    due_on: Option<String>,
    state: Option<String>,
) -> (r: Result<MilestoneEdit, GbError>)
    ensures
        match r {
            Ok(e) => spec_plan_milestone_edit(
                opt_view(title),
                opt_view(description),
                opt_view(due_on),
                opt_view(state),
            ) == Ok::<EditView, Failure>(edit_view(e)),
            Err(e) => spec_plan_milestone_edit(
                opt_view(title),
                opt_view(description),
                opt_view(due_on),
                opt_view(state),
            ) == Err::<EditView, Failure>(e@),
        },
{
    let ghost t = opt_view(title);
    let ghost d = opt_view(description);
    let due = normalize_due_on_for_edit(due_on)?;
    let state = normalize_edit_state("milestone", state)?;
    let unchanged = match due {
        DueOnInput::Unchanged => true,
        _ => false,
    };
    if title.is_none() && description.is_none() && unchanged && state.is_none() {
        return Err(
            other(
                &chars_of(
                    "No milestone changes requested. Pass at least one of --title, --description, --due-on, or --state.",
                ),
            ),
        );
    }
    let api_due = match &due {
        DueOnInput::Unchanged => None,
        DueOnInput::Clear => Some(string_of(&Vec::new())),
        DueOnInput::SetTo(v) => Some(string_of(&chars_of(v.api_value.as_str()))),
    };
    proof {
        reveal_strlit("milestone");
    }
    let e = MilestoneEdit {
        update: MilestoneUpdate { title, description, due_on: api_due, state },
        due_on: due,
    };
    assert(edit_view(e).0 == t);
    assert(edit_view(e).1 == d);
    Ok(e)
}

/// The web form of a milestone: title, description and due date (`YYYY-MM-DD`).
pub struct MilestoneForm {
    pub title: String,
    pub description: Option<String>,
    pub due_date: Option<String>,
}

/// The web-form steps that carry out a milestone edit when REST editing is unavailable.
pub struct MilestoneWebPlan {
    /// Submit the edit form with these values.
    pub form: Option<MilestoneForm>,
    /// `close` or `open`, when the state changes.
    pub state_action: Option<String>,
}

/// The web-form due date: the current one kept, none, or the new one.
pub open spec fn spec_form_due_date(d: DueOnChange, current: Option<Seq<char>>) -> Result<
    Option<Seq<char>>,
    Failure,
> {
    match d {
        DueOnChange::Unchanged => match current {
            Some(c) => match spec_due_on_to_form_date(c) {
                Ok(f) => Ok(Some(f)),
                Err(e) => Err(e),
            },
            None => Ok(None),
        },
        DueOnChange::Clear => Ok(None),
        DueOnChange::SetTo(_, form) => Ok(Some(form)),
    }
}

/// The web action that moves a milestone to `next` from `current`, if any.
pub open spec fn spec_milestone_state_change(next: Option<Seq<char>>, current: Seq<char>) -> Option<
    Seq<char>,
> {
    match next {
        Some(s) => if s != unicode_lower(current) {
            if s == "closed"@ {
                Some("close"@)
            } else {
                Some("open"@)
            }
        } else {
            None
        },
        None => None,
    }
}

/// Whether the edit form has to be submitted.
pub open spec fn form_needed(e: EditView) -> bool {
    e.0 is Some || e.1 is Some || !(e.4 is Unchanged)
}

/// The abstract value of a web form.
pub open spec fn form_view(f: MilestoneForm) -> (Seq<char>, Option<Seq<char>>, Option<Seq<char>>) {
    (f.title@, opt_view(f.description), opt_view(f.due_date))
}

/// The web-form fallback of a milestone edit against the milestone as it stands.
pub open spec fn spec_plan_milestone_web_edit(current: Milestone, e: EditView) -> Result<
    (Option<(Seq<char>, Option<Seq<char>>, Option<Seq<char>>)>, Option<Seq<char>>),
    Failure,
> {
    let state = spec_milestone_state_change(e.3, current.state@);
    if form_needed(e) {
        match spec_form_due_date(e.4, opt_view(current.due_on)) {
            Err(err) => Err(err),
            Ok(due) => {
                let title = match e.0 {
                    Some(t) => t,
                    None => current.title@,
                };
                let description = match e.1 {
                    Some(d) => Some(d),
                    None => opt_view(current.description),
                };
                Ok((Some((title, description, due)), state))
            },
        }
    } else {
        Ok((None, state))
    }
}

fn copy_opt(o: &Option<String>) -> (r: Option<String>)
    ensures
        opt_view(r) == opt_view(*o),
{
    match o {
        Some(s) => Some(string_of(&chars_of(s.as_str()))),
        None => None,
    }
}

/// Plans the web-form edit of a milestone after REST editing failed.
pub fn plan_milestone_web_edit(current: &Milestone, edit: &MilestoneEdit) -> (r: Result<
    MilestoneWebPlan,
    GbError,
>)
    ensures
        match r {
            Ok(p) => spec_plan_milestone_web_edit(*current, edit_view(*edit)) == Ok::<
                (Option<(Seq<char>, Option<Seq<char>>, Option<Seq<char>>)>, Option<Seq<char>>),
                Failure,
            >(
                (
                    match p.form {
                        Some(f) => Some(form_view(f)),
                        None => None,
                    },
                    opt_view(p.state_action),
                ),
            ),
            Err(e) => spec_plan_milestone_web_edit(*current, edit_view(*edit)) == Err::<
                (Option<(Seq<char>, Option<Seq<char>>, Option<Seq<char>>)>, Option<Seq<char>>),
                Failure,
            >(e@),
        },
{
    let unchanged = match edit.due_on {
        DueOnInput::Unchanged => true,
        _ => false,
    };
    let form = if edit.update.title.is_some() || edit.update.description.is_some() || !unchanged {
        let due_date = match &edit.due_on {
            DueOnInput::Unchanged => match &current.due_on {
                Some(c) => Some(due_on_to_form_date(c.as_str())?),
                None => None,
            },
            DueOnInput::Clear => None,
            DueOnInput::SetTo(v) => Some(string_of(&chars_of(v.form_value.as_str()))),
        };
        let title = match &edit.update.title {
            Some(t) => string_of(&chars_of(t.as_str())),
            None => string_of(&chars_of(current.title.as_str())),
        };
        let description = match &edit.update.description {
            Some(d) => Some(string_of(&chars_of(d.as_str()))),
            None => copy_opt(&current.description),
        };
        Some(MilestoneForm { title, description, due_date })
    } else {
        None
    };
    let state_action = match &edit.update.state {
        Some(s) => {
            let sv = chars_of(s.as_str());
            let cur = to_lowercase(current.state.as_str());
            if !eq(&sv, &chars_of(cur.as_str())) {
                if eq_str(&sv, "closed") {
                    Some(string_of(&chars_of("close")))
                } else {
                    Some(string_of(&chars_of("open")))
                }
            } else {
                None
            }
        },
        None => None,
    };
    Ok(MilestoneWebPlan { form, state_action })
}

// ---------------------------------------------------------------------------
// Creation
// ---------------------------------------------------------------------------

/// A validated milestone creation: the REST request and the web-form due date.
pub struct MilestoneCreate {
    pub title: String,
    pub description: Option<String>,
    /// The due date in API form.
    pub due_on: Option<String>,
    /// The due date in web-form form, for the fallback.
    pub form_due_on: Option<String>,
}

/// Validates a milestone creation and builds its request.
pub fn plan_milestone_create(title: String, description: Option<String>, due_on: Option<String>) -> (r:
    Result<MilestoneCreate, GbError>)
    ensures
        match r {
            Ok(c) => {
                &&& c.title@ == title@
                &&& opt_view(c.description) == opt_view(description)
                &&& spec_normalize_due_on_for_create(opt_view(due_on)) == Ok::<
                    Option<(Seq<char>, Seq<char>)>,
                    Failure,
                >(
                    match (opt_view(c.due_on), opt_view(c.form_due_on)) {
                        (Some(a), Some(f)) => Some((a, f)),
                        _ => None,
                    },
                )
                &&& (c.due_on is Some <==> c.form_due_on is Some)
            },
            Err(e) => spec_normalize_due_on_for_create(opt_view(due_on)) == Err::<
                Option<(Seq<char>, Seq<char>)>,
                Failure,
            >(e@),
        },
{
    let due = normalize_due_on_for_create(due_on)?;
    let (api, form) = match due {
        Some(NormalizedDueOn { api_value, form_value }) => (Some(api_value), Some(form_value)),
        None => (None, None),
    };
    Ok(MilestoneCreate { title, description, due_on: api, form_due_on: form })
}

/// The index of the last milestone titled `title`.
pub open spec fn last_titled(ms: Seq<Milestone>, title: Seq<char>) -> Option<int>
    decreases ms.len(),
{
    if ms.len() == 0 {
        None
    } else if ms.last().title@ == title {
        Some(ms.len() - 1)
    } else {
        last_titled(ms.drop_last(), title)
    }
}

/// The confirmation printed after a web-form creation, given the milestones listed afterwards
/// (`None` when listing failed).
pub open spec fn spec_created_milestone_line(listed: Option<Seq<Milestone>>, title: Seq<char>) -> Seq<
    char,
> {
    match listed {
        Some(ms) => match last_titled(ms, title) {
            Some(i) => "\u{2713} Created milestone #"@ + decimal(ms[i].number as nat) + ": "@
                + ms[i].title@,
            None => "\u{2713} Created milestone "@ + title,
        },
        None => "\u{2713} Created milestone "@ + title,
    }
}

proof fn lemma_last_titled_bounds(ms: Seq<Milestone>, title: Seq<char>)
    ensures
        last_titled(ms, title) matches Some(i) ==> 0 <= i < ms.len() && ms[i].title@ == title,
    decreases ms.len(),
{
    if ms.len() > 0 && ms.last().title@ != title {
        lemma_last_titled_bounds(ms.drop_last(), title);
    }
}

/// Finds the milestone a web-form creation made and says so.
pub fn created_milestone_line(listed: Option<&Vec<Milestone>>, title: &str) -> (r: String)
    ensures
        r@ == spec_created_milestone_line(
            match listed {
                Some(v) => Some(v@),
                None => None,
            },
            title@,
        ),
{
    let mut out = chars_of("\u{2713} Created milestone ");
    match listed {
        Some(ms) => {
            let t = chars_of(title);
            let ghost prefix = out@;
            let mut i: usize = ms.len();
            assert(ms@.take(ms@.len() as int) =~= ms@);
            while i > 0
                invariant
                    i <= ms.len(),
                    t@ == title@,
                    out@ == prefix,
                    listed == Some(ms),
                    prefix == "\u{2713} Created milestone "@,
                    last_titled(ms@.take(i as int), title@) == last_titled(ms@, title@),
                decreases i,
            {
                let ghost pre = ms@.take(i as int);
                assert(pre.drop_last() =~= ms@.take(i - 1));
                if eq(&chars_of(ms[i - 1].title.as_str()), &t) {
                    assert(pre.last() == ms@[i - 1]);
                    assert(last_titled(ms@, title@) == Some((i - 1) as int));
                    out.push('#');
                    let d = decimal_of(ms[i - 1].number);
                    push_all(&mut out, &d);
                    push_str(&mut out, ": ");
                    push_str(&mut out, ms[i - 1].title.as_str());
                    proof {
                        reveal_strlit("\u{2713} Created milestone #");
                        reveal_strlit("\u{2713} Created milestone ");
                        reveal_strlit(": ");
                        assert(out@ =~= "\u{2713} Created milestone #"@ + decimal(
                            ms@[i - 1].number as nat,
                        ) + ": "@ + ms@[i - 1].title@);
                    }
                    return string_of(&out);
                }
                i = i - 1;
            }
            assert(ms@.take(0) =~= Seq::<Milestone>::empty());
            push_str(&mut out, title);
        },
        None => {
            push_str(&mut out, title);
        },
    }
    string_of(&out)
}

// ---------------------------------------------------------------------------
// Viewing
// ---------------------------------------------------------------------------

/// The optional text of a milestone description block.
pub open spec fn description_part(m: Milestone) -> Seq<char> {
    match m.description {
        Some(d) => if d@.len() > 0 {
            "\n"@ + d@ + "\n"@
        } else {
            Seq::empty()
        },
        None => Seq::empty(),
    }
}

/// The optional due-date line of a milestone view.
pub open spec fn due_part(m: Milestone) -> Seq<char> {
    let due = spec_format_due_on(opt_view(m.due_on));
    if due.len() > 0 {
        "Due: "@ + due + "\n"@
    } else {
        Seq::empty()
    }
}

/// A count the API may leave out, read as zero.
pub open spec fn count_or_zero(n: Option<u64>) -> nat {
    match n {
        Some(n) => n as nat,
        None => 0,
    }
}

/// The issue-count line of a milestone view.
pub open spec fn counts_part(m: Milestone) -> Seq<char> {
    "Open issues: "@ + decimal(count_or_zero(m.open_issues)) + "  Closed issues: "@ + decimal(
        count_or_zero(m.closed_issues),
    ) + "\n"@
}

/// The optional URL block of a milestone view.
pub open spec fn url_part(m: Milestone) -> Seq<char> {
    match m.html_url {
        Some(u) => "\nURL: "@ + u@ + "\n"@,
        None => Seq::empty(),
    }
}

/// The text `gb milestone view` prints, given the styled title, number and state.
pub open spec fn spec_format_milestone_view(
    m: Milestone,
    title: Seq<char>,
    number: Seq<char>,
    state: Seq<char>,
) -> Seq<char> {
    title + " "@ + number + "\n"@ + state + "\n\n"@ + due_part(m) + counts_part(m) + description_part(m)
        + url_part(m)
}

fn due_text(m: &Milestone) -> (r: Vec<char>)
    ensures
        r@ == due_part(*m),
{
    let due = format_due_on(
        match &m.due_on {
            Some(d) => Some(d.as_str()),
            None => None,
        },
    );
    proof {
        assert(opt_view(m.due_on) == match m.due_on {
            Some(d) => Some(d@),
            None => None::<Seq<char>>,
        });
    }
    let dv = chars_of(due.as_str());
    if dv.len() > 0 {
        let mut out = chars_of("Due: ");
        push_all(&mut out, &dv);
        push_str(&mut out, "\n");
        out
    } else {
        Vec::new()
    }
}

fn counts_text(m: &Milestone) -> (r: Vec<char>)
    ensures
        r@ == counts_part(*m),
{
    let open: u64 = match m.open_issues {
        Some(n) => n,
        None => 0,
    };
    let closed: u64 = match m.closed_issues {
        Some(n) => n,
        None => 0,
    };
    let mut out = chars_of("Open issues: ");
    push_all(&mut out, &decimal_of(open));
    push_str(&mut out, "  Closed issues: ");
    push_all(&mut out, &decimal_of(closed));
    push_str(&mut out, "\n");
    out
}

fn description_text(m: &Milestone) -> (r: Vec<char>)
    ensures
        r@ == description_part(*m),
{
    match &m.description {
        Some(d) => {
            let dv = chars_of(d.as_str());
            if dv.len() > 0 {
                let mut out = chars_of("\n");
                push_all(&mut out, &dv);
                push_str(&mut out, "\n");
                out
            } else {
                Vec::new()
            }
        },
        None => Vec::new(),
    }
}

fn url_text(m: &Milestone) -> (r: Vec<char>)
    ensures
        r@ == url_part(*m),
{
    match &m.html_url {
        Some(u) => {
            let mut out = chars_of("\nURL: ");
            push_str(&mut out, u.as_str());
            push_str(&mut out, "\n");
            out
        },
        None => Vec::new(),
    }
}

/// Renders a milestone for `gb milestone view`.
pub fn format_milestone_view(m: &Milestone, title: &str, number: &str, state: &str) -> (r: String)
    ensures
        r@ == spec_format_milestone_view(*m, title@, number@, state@),
{
    let mut out = chars_of(title);
    push_str(&mut out, " ");
    push_str(&mut out, number);
    push_str(&mut out, "\n");
    push_str(&mut out, state);
    push_str(&mut out, "\n\n");
    push_all(&mut out, &due_text(m));
    push_all(&mut out, &counts_text(m));
    push_all(&mut out, &description_text(m));
    push_all(&mut out, &url_text(m));
    string_of(&out)
}

} // verus!
