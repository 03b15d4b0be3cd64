//! Index levels of the airport reader and its answers to requests.
use crate::nasr::apt_base_csv::{Detail, Summary};
use crate::nasr::common::Named;
use crate::nasr::{quoted, spec_quoted};
use crate::text;
use vstd::prelude::*;

verus! {

/// No index.
pub const NONE: u8 = 0;

/// A chart transformation is set.
pub const TRANSFORM: u8 = 1;

/// Summary-level (airport) indexes are built.
pub const SUMMARY: u8 = 2;

/// Detail-level (frequency, runway, remark) indexes are built too.
pub const DETAIL: u8 = 3;

/// How far the airport indexes have been built; each level includes the ones below.
#[derive(Clone, Copy, Debug, PartialEq, Eq, Structural)]
pub struct IndexStatus {
    pub level: u8,
}

impl IndexStatus {
    /// No index.
    pub fn new() -> (r: Self)
        ensures
            r.level == NONE,
    {
        Self { level: NONE }
    }

    /// Drop back to no index.
    pub fn reset(&mut self)
        ensures
            final(self).level == NONE,
    {
        self.level = NONE;
    }

    /// A chart transformation is set.
    pub fn set_has_chart_transformation(&mut self)
        ensures
            final(self).level == TRANSFORM,
    {
        self.level = TRANSFORM;
    }

    /// Summary-level indexes are built.
    pub fn set_has_summary_index(&mut self)
        ensures
            final(self).level == SUMMARY,
    {
        self.level = SUMMARY;
    }

    /// Detail-level indexes are built.
    pub fn set_has_detail_index(&mut self)
        ensures
            final(self).level == DETAIL,
    {
        self.level = DETAIL;
    }

    /// At least a chart transformation.
    pub open spec fn spec_has_chart_transformation(&self) -> bool {
        self.level >= TRANSFORM
    }

    /// At least summary-level indexes.
    pub open spec fn spec_has_summary_index(&self) -> bool {
        self.level >= SUMMARY
    }

    /// Detail-level indexes.
    pub open spec fn spec_has_detail_index(&self) -> bool {
        self.level >= DETAIL
    }

    /// Whether a chart transformation is set.
    pub fn has_chart_transformation(&self) -> (r: bool)
        ensures
            r == self.spec_has_chart_transformation(),
    {
        self.level >= TRANSFORM
    }

    /// Whether summary-level indexes are built.
    pub fn has_summary_index(&self) -> (r: bool)
        ensures
            r == self.spec_has_summary_index(),
    {
        self.level >= SUMMARY
    }

    /// Whether detail-level indexes are built.
    pub fn has_detail_index(&self) -> (r: bool)
        ensures
            r == self.spec_has_detail_index(),
    {
        self.level >= DETAIL
    }
}

/// Each index level includes the ones below it: detail-level indexes imply
/// summary-level ones, which imply a chart transformation.
pub proof fn lemma_index_levels_nested(s: IndexStatus)
    ensures
        s.spec_has_detail_index() ==> s.spec_has_summary_index(),
        s.spec_has_summary_index() ==> s.spec_has_chart_transformation(),
{
}

/// Where setting up the indexes ends: the level reached and, when a step failed,
/// the error reported. `transform` is the error message of creating the chart
/// transformation, if it failed; `summary_ok` and `detail_ok` tell whether the
/// summary-level and the detail-level indexes were built (the detail-level ones
/// are only attempted after the summary-level ones).
pub fn index_setup(transform: Option<&str>, summary_ok: bool, detail_ok: bool) -> (r: (IndexStatus, Option<String>))
    ensures
        transform is Some ==> r.0.level == NONE && (r.1 matches Some(e) && e@
            == "Unable to create transformation:\n"@ + transform->0@),
        transform is None && !summary_ok ==> r.0.level == TRANSFORM && (r.1 matches Some(e) && e@
            == "Failed to create airport summary-level indexing"@),
        transform is None && summary_ok && !detail_ok ==> r.0.level == SUMMARY && (r.1 matches Some(
            e,
        ) && e@ == "Failed to create airport detail-level indexing"@),
        transform is None && summary_ok && detail_ok ==> r.0.level == DETAIL && r.1 is None,
{
    let mut status = IndexStatus::new();
    if let Some(err) = transform {
        let mut msg = text::owned("Unable to create transformation:\n");
        msg.append(err);
        return (status, Some(msg));
    }
    status.set_has_chart_transformation();
    if !summary_ok {
        return (status, Some(text::owned("Failed to create airport summary-level indexing")));
    }
    status.set_has_summary_index();
    if !detail_ok {
        return (status, Some(text::owned("Failed to create airport detail-level indexing")));
    }
    status.set_has_detail_index();
    (status, None)
}

impl<C> Named for Summary<C> {
    open spec fn name_view(&self) -> Seq<char> {
        self.name@
    }

    fn name_text(&self) -> (r: &str) {
        self.name.as_str()
    }
}

/// Reply to an airport request.
pub enum Reply<C> {
    /// Airport summary information from ID search.
    Airport(Summary<C>),
    /// Airport detail information.
    Detail(Detail<C>),
    /// Airport summaries from a nearby search.
    Nearby(Vec<Summary<C>>),
    /// Airport summaries matching a name/ID search.
    Search(Vec<Summary<C>>),
    /// Request resulted in an error.
    Error(String),
}

fn error_reply<C>(msg: &str) -> (r: Reply<C>)
    ensures
        r matches Reply::Error(e) && e@ == msg@,
{
    Reply::Error(text::owned(msg))
}

/// Answer an airport ID lookup for `id` (already normalized) that found `found`.
pub fn airport<C>(status: IndexStatus, id: &str, found: Option<Summary<C>>) -> (r: Reply<C>)
    ensures
        !status.spec_has_summary_index() ==> (r matches Reply::Error(e) && e@
            == "Airport summary-level indexing is required for airport ID search"@),
        status.spec_has_summary_index() && found is Some ==> r == Reply::Airport(found->0),
        status.spec_has_summary_index() && found is None ==> (r matches Reply::Error(e) && e@
            == spec_quoted("No airport on this chart matches ID"@, id@)),
{
    if !status.has_summary_index() {
        return error_reply("Airport summary-level indexing is required for airport ID search");
    }
    match found {
        Some(summary) => Reply::Airport(summary),
        None => Reply::Error(quoted("No airport on this chart matches ID", id)),
    }
}

/// Answer a detail request for the airport `id` whose detail lookup gave `found`.
pub fn detail<C>(status: IndexStatus, id: &str, found: Option<Detail<C>>) -> (r: Reply<C>)
    ensures
        !status.spec_has_detail_index() ==> (r matches Reply::Error(e) && e@
            == "Airport detail-level indexing is required for airport information"@),
        status.spec_has_detail_index() && found is Some ==> r == Reply::Detail(found->0),
        status.spec_has_detail_index() && found is None ==> (r matches Reply::Error(e) && e@
            == spec_quoted("Unable to get airport detail information for ID"@, id@)),
{
    if !status.has_detail_index() {
        return error_reply("Airport detail-level indexing is required for airport information");
    }
    match found {
        Some(detail) => Reply::Detail(detail),
        None => Reply::Error(quoted("Unable to get airport detail information for ID", id)),
    }
}

/// Answer a nearby request whose search found `summaries`.
pub fn nearby<C>(status: IndexStatus, summaries: Vec<Summary<C>>) -> (r: Reply<C>)
    ensures
        !status.spec_has_summary_index() ==> (r matches Reply::Error(e) && e@
            == "Airport summary-level indexing is required to find nearby airports"@),
        status.spec_has_summary_index() ==> r == Reply::Nearby(summaries),
{
    if !status.has_summary_index() {
        return error_reply("Airport summary-level indexing is required to find nearby airports");
    }
    Reply::Nearby(summaries)
}

/// Answer a search for `term` (already normalized): an ID match wins; otherwise
/// the name matches, or an error naming the term when there are none.
pub fn search<C>(status: IndexStatus, term: &str, by_id: Option<Summary<C>>, by_name: Vec<Summary<C>>) -> (r: Reply<C>)
    ensures
        !status.spec_has_summary_index() ==> (r matches Reply::Error(e) && e@
            == "Airport summary-level indexing is required for airport search"@),
        status.spec_has_summary_index() && by_id is Some ==> r == Reply::Airport(by_id->0),
        status.spec_has_summary_index() && by_id is None && by_name@.len() == 0 ==> (r matches Reply::Error(e)
            && e@ == spec_quoted("Nothing on this chart matches"@, term@)),
        status.spec_has_summary_index() && by_id is None && by_name@.len() > 0 ==> r == Reply::Search(by_name),
{
    if !status.has_summary_index() {
        return error_reply("Airport summary-level indexing is required for airport search");
    }
    if let Some(summary) = by_id {
        return Reply::Airport(summary);
    }
    if by_name.len() == 0 {
        return Reply::Error(quoted("Nothing on this chart matches", term));
    }
    Reply::Search(by_name)
}

} // verus!
