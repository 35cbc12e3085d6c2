use vstd::prelude::*;

use crate::classify::{
    has_owner_bucket, no_owner_bucket, no_team, no_team_bucket, partition_by_ownership, ref_views,
    team_bucket, team_scoped,
};
use crate::config::CommonTriageConfig;
use crate::issue_metadata::{record_views, IssueMetadata, IssueView};
use crate::markdown::{
    RenderError, date_text, inline_code_list, push_date, push_inline_code_list, wg_labels, working_groups,
};
use crate::text::{decimal, push_decimal};
use crate::timestamp::{format_rfc3339, rfc3339_format, Timestamp};

verus! {

/// The team whose issues are split by ownership.
pub const TEAM_LABEL: &'static str = "T-compiler";

/// Tracker search for high-priority issues without a team label. It restates
/// the no-team rule as a query and is kept in step with it by hand.
pub const NO_TEAM_URL: &'static str = "is:open is:issue label:P-high -label:T-cargo -label:T-community -label:T-compiler -label:T-core -label:T-crates-io -label:T-dev-tools -label:T-docs-rs -label:T-infra -label:T-libs -label:T-libs-api -label:T-release -label:T-release -label:T-rustdoc -label:T-style -label:T-types -label:T-lang -label:T-leadership-council";

/// Tracker search for high-priority compiler issues without an owner. It
/// restates the ownership rule as a query and is kept in step with it by hand.
pub const NO_OWNER_URL: &'static str = "https://github.com/rust-lang/rust/issues?q=is%3Aissue%20is%3Aopen%20label%3AT-compiler%20label%3AP-high%20-label%3Awg-debugging%20-label%3AWG-embedded%20-label%3AWG-diagnostics%20-label%3AWG-async%20-label%3AWG-incr-comp%20no%3Aassignee%20sort%3Acreated-asc%20-label%3AI-types-nominated%20-label%3AI-lang-nominated%20-label%3AI-compiler-nominated%20-label%3AT-types%20-label%3AWG-llvm";

/// The high-priority issues under review, sorted by number.
pub struct ReviewInfo<'a> {
    pub p_high: &'a [IssueMetadata],
}

impl<'a> ReviewInfo<'a> {
    pub fn new(p_high: &'a [IssueMetadata]) -> (r: Self)
        ensures
            r.p_high == p_high,
    {
        Self { p_high }
    }

    /// The issues without a team label.
    pub fn p_high_no_team(&self) -> (r: Vec<&'a IssueMetadata>)
        ensures
            ref_views(r@) == no_team_bucket(record_views(self.p_high@)),
    {
        no_team(self.p_high)
    }

    /// The compiler team's issues, split into `(no owner, has owner)`. An
    /// owner is a working-group label or an assignee.
    pub fn t_compiler_p_high_partition_by_ownership(&self) -> (r: (
        Vec<&'a IssueMetadata>,
        Vec<&'a IssueMetadata>,
    ))
        ensures
            ref_views(r.0@) == no_owner_bucket(team_bucket(record_views(self.p_high@), TEAM_LABEL@)),
            ref_views(r.1@) == has_owner_bucket(team_bucket(record_views(self.p_high@), TEAM_LABEL@)),
    {
        let scoped = team_scoped(self.p_high, TEAM_LABEL);
        partition_by_ownership(scoped.as_slice())
    }
}

/// The document's opening: generator comment, title and snapshot time.
pub open spec fn header(title: Seq<char>, generated_at: Seq<char>) -> Seq<char> {
    "<!-- stubs generated with pcr-util -->\n\n"@ + "# "@ + title + "\n\n"@
        + "*Issues snapshot collected on "@ + generated_at + "*\n\n\n"@
}

/// One issue's block.
pub open spec fn issue_block(v: IssueView) -> Seq<char> {
    "### #"@ + decimal(v.number as nat) + ": "@ + v.title + "\n"@
        + "Link: <"@ + v.url + ">\n"@
        + "Creation date: "@ + date_text(v.created_at) + "\n"@
        + "Labels: "@ + inline_code_list(v.labels) + "\n"@
        + "Author: `"@ + v.author + "`\n"@
        + "Working groups: "@ + inline_code_list(wg_labels(v.labels)) + "\n"@
        + "Assignees: "@ + inline_code_list(v.assignees) + "\n"@
        + "\n**TODO**\n\n\n"@
}

/// The blocks of the issues, in their order.
pub open spec fn issue_blocks(s: Seq<IssueView>) -> Seq<char>
    decreases s.len(),
{
    if s.len() == 0 {
        Seq::empty()
    } else {
        issue_blocks(s.drop_last()) + issue_block(s.last())
    }
}

pub open spec fn no_team_section(s: Seq<IssueView>) -> Seq<char> {
    "## P-high missing team label\n\n"@ + "[P-high issues without team label]("@ + NO_TEAM_URL@
        + ")\n\n\n"@ + (if s.len() == 0 {
        "**Did not find P-high issues without a team label**\n"@
    } else {
        issue_blocks(s)
    }) + "\n\n"@
}

pub open spec fn no_owner_section(s: Seq<IssueView>) -> Seq<char> {
    "## P-high T-compiler issues missing owner (no WG and no assignee)\n\n"@
        + "[P-high issues with no owner]("@ + NO_OWNER_URL@ + ")\n\n\n"@ + issue_blocks(s)
        + "\n\n"@
}

pub open spec fn has_owner_section(s: Seq<IssueView>) -> Seq<char> {
    "## P-high T-compiler issues with owner (WG or assignee)\n\n"@ + issue_blocks(s) + "\n\n"@
}

/// The whole review document for the issues `s`.
pub open spec fn p_high_document(title: Seq<char>, generated_at: Seq<char>, s: Seq<IssueView>) -> Seq<char> {
    let scoped = team_bucket(s, TEAM_LABEL@);
    header(title, generated_at) + no_team_section(no_team_bucket(s))
        + no_owner_section(no_owner_bucket(scoped)) + has_owner_section(has_owner_bucket(scoped))
}

/// Builds one document; dropped once the text is taken out.
struct RenderCtxt {
    buf: String,
}

impl RenderCtxt {
    fn new() -> (r: Self)
        ensures
            r.buf@ == Seq::<char>::empty(),
    {
        Self { buf: String::new() }
    }

    fn finish(self) -> (r: String)
        ensures
            r@ == self.buf@,
    {
        self.buf
    }

    fn render_document_header(&mut self, title: &str, generated_at: &str)
        ensures
            final(self).buf@ == old(self).buf@ + header(title@, generated_at@),
    {
        self.buf.append("<!-- stubs generated with pcr-util -->\n\n");
        self.buf.append("# ");
        self.buf.append(title);
        self.buf.append("\n\n");
        self.buf.append("*Issues snapshot collected on ");
        self.buf.append(generated_at);
        self.buf.append("*\n\n\n");
        assert(self.buf@ =~= old(self).buf@ + header(title@, generated_at@));
    }

    fn render_issue(&mut self, issue: &IssueMetadata)
        ensures
            final(self).buf@ == old(self).buf@ + issue_block(issue@),
    {
        self.buf.append("### #");
        push_decimal(&mut self.buf, issue.number);
        self.buf.append(": ");
        self.buf.append(issue.title.as_str());
        self.buf.append("\n");
        self.buf.append("Link: <");
        self.buf.append(issue.url.as_str());
        self.buf.append(">\n");
        self.buf.append("Creation date: ");
        push_date(&mut self.buf, &issue.created_at);
        self.buf.append("\n");
        self.buf.append("Labels: ");
        push_inline_code_list(&mut self.buf, &issue.labels);
        self.buf.append("\n");
        self.buf.append("Author: `");
        self.buf.append(issue.author.as_str());
        self.buf.append("`\n");
        self.buf.append("Working groups: ");
        let wg = working_groups(&issue.labels);
        push_inline_code_list(&mut self.buf, &wg);
        self.buf.append("\n");
        self.buf.append("Assignees: ");
        push_inline_code_list(&mut self.buf, &issue.assignees);
        self.buf.append("\n");
        self.buf.append("\n**TODO**\n\n\n");
        assert(self.buf@ =~= old(self).buf@ + issue_block(issue@));
    }

    fn render_issues(&mut self, issues: &[&IssueMetadata])
        ensures
            final(self).buf@ == old(self).buf@ + issue_blocks(ref_views(issues@)),
    {
        let ghost s = ref_views(issues@);
        let mut i: usize = 0;
        while i < issues.len()
            invariant
                i <= issues@.len(),
                s == ref_views(issues@),
                self.buf@ == old(self).buf@ + issue_blocks(s.subrange(0, i as int)),
            decreases issues@.len() - i,
        {
            self.render_issue(issues[i]);
            assert(s.subrange(0, i + 1).drop_last() == s.subrange(0, i as int));
            assert(self.buf@ =~= old(self).buf@ + issue_blocks(s.subrange(0, i + 1)));
            i = i + 1;
        }
        assert(s.subrange(0, i as int) == s);
    }

    fn render_no_team(&mut self, no_team: &[&IssueMetadata])
        ensures
            final(self).buf@ == old(self).buf@ + no_team_section(ref_views(no_team@)),
    {
        self.buf.append("## P-high missing team label\n\n");
        self.buf.append("[P-high issues without team label](");
        self.buf.append(NO_TEAM_URL);
        self.buf.append(")\n\n\n");
        if no_team.len() == 0 {
            self.buf.append("**Did not find P-high issues without a team label**\n");
        } else {
            self.render_issues(no_team);
        }
        self.buf.append("\n\n");
        assert(self.buf@ =~= old(self).buf@ + no_team_section(ref_views(no_team@)));
    }

    fn render_no_owner(&mut self, no_owner: &[&IssueMetadata])
        ensures
            final(self).buf@ == old(self).buf@ + no_owner_section(ref_views(no_owner@)),
    {
        self.buf.append("## P-high T-compiler issues missing owner (no WG and no assignee)\n\n");
        self.buf.append("[P-high issues with no owner](");
        self.buf.append(NO_OWNER_URL);
        self.buf.append(")\n\n\n");
        self.render_issues(no_owner);
        self.buf.append("\n\n");
        assert(self.buf@ =~= old(self).buf@ + no_owner_section(ref_views(no_owner@)));
    }

    fn render_has_owner(&mut self, has_owner: &[&IssueMetadata])
        ensures
            final(self).buf@ == old(self).buf@ + has_owner_section(ref_views(has_owner@)),
    {
        self.buf.append("## P-high T-compiler issues with owner (WG or assignee)\n\n");
        self.render_issues(has_owner);
        self.buf.append("\n\n");
        assert(self.buf@ =~= old(self).buf@ + has_owner_section(ref_views(has_owner@)));
    }

    fn render_markdown_stub(&mut self, title: &str, generated_at: &str, info: &ReviewInfo)
        ensures
            final(self).buf@ == old(self).buf@ + p_high_document(
                title@,
                generated_at@,
                record_views(info.p_high@),
            ),
    {
        self.render_document_header(title, generated_at);
        let no_team = info.p_high_no_team();
        let (no_owner, has_owner) = info.t_compiler_p_high_partition_by_ownership();
        self.render_no_team(no_team.as_slice());
        self.render_no_owner(no_owner.as_slice());
        self.render_has_owner(has_owner.as_slice());
        assert(self.buf@ =~= old(self).buf@ + p_high_document(
            title@,
            generated_at@,
            record_views(info.p_high@),
        ));
    }
}

/// The review document for `info`, titled `title`, stating that the snapshot
/// was taken at `generated_at`.
pub fn render_document(title: &str, generated_at: &str, info: &ReviewInfo) -> (r: String)
    ensures
        r@ == p_high_document(title@, generated_at@, record_views(info.p_high@)),
{
    let mut ctx = RenderCtxt::new();
    ctx.render_markdown_stub(title, generated_at, info);
    ctx.finish()
}

/// The review document for `info`, with the title of `config` and the snapshot
/// time `generated_at` written as RFC 3339.
pub fn render_markdown_stub(
    config: &CommonTriageConfig,
    generated_at: &Timestamp,
    info: &ReviewInfo,
) -> (r: Result<String, RenderError>)
    ensures
        r is Ok <==> rfc3339_format(generated_at.fields()) is Some,
        r matches Ok(doc) ==> doc@ == p_high_document(
            config.markdown_stub_title@,
            rfc3339_format(generated_at.fields())->Some_0,
            record_views(info.p_high@),
        ),
{
    match format_rfc3339(generated_at) {
        Some(stamp) => Ok(render_document(config.markdown_stub_title.as_str(), stamp.as_str(), info)),
        None => Err(RenderError::UnformattableTimestamp),
    }
}

/// Rendering is deterministic: two documents rendered from the same title,
/// generation time and records hold the same text.
pub proof fn lemma_render_deterministic(
    title: Seq<char>,
    generated_at: Seq<char>,
    issues: Seq<IssueMetadata>,
    first: Seq<char>,
    second: Seq<char>,
)
    requires
        first == p_high_document(title, generated_at, record_views(issues)),
        second == p_high_document(title, generated_at, record_views(issues)),
    ensures
        first == second,
{
}

/// With no issues the document still has every section heading, the no-team
/// section says that none was found, and no section holds an issue block.
pub proof fn lemma_empty_batch_document(title: Seq<char>, generated_at: Seq<char>)
    ensures
        p_high_document(title, generated_at, Seq::empty()) == header(title, generated_at)
            + "## P-high missing team label\n\n"@ + "[P-high issues without team label]("@
            + NO_TEAM_URL@ + ")\n\n\n"@ + "**Did not find P-high issues without a team label**\n"@
            + "\n\n"@ + "## P-high T-compiler issues missing owner (no WG and no assignee)\n\n"@
            + "[P-high issues with no owner]("@ + NO_OWNER_URL@ + ")\n\n\n"@ + "\n\n"@
            + "## P-high T-compiler issues with owner (WG or assignee)\n\n"@ + "\n\n"@,
{
    reveal(Seq::filter);
    let e = Seq::<IssueView>::empty();
    assert(no_team_bucket(e) =~= e);
    assert(team_bucket(e, TEAM_LABEL@) =~= e);
    assert(no_owner_bucket(e) =~= e);
    assert(has_owner_bucket(e) =~= e);
    assert(issue_blocks(e) =~= Seq::<char>::empty());
    assert(p_high_document(title, generated_at, e) =~= header(title, generated_at)
        + "## P-high missing team label\n\n"@ + "[P-high issues without team label]("@
        + NO_TEAM_URL@ + ")\n\n\n"@ + "**Did not find P-high issues without a team label**\n"@
        + "\n\n"@ + "## P-high T-compiler issues missing owner (no WG and no assignee)\n\n"@
        + "[P-high issues with no owner]("@ + NO_OWNER_URL@ + ")\n\n\n"@ + "\n\n"@
        + "## P-high T-compiler issues with owner (WG or assignee)\n\n"@ + "\n\n"@);
}

} // verus!
