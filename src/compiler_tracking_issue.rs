use vstd::prelude::*;

use crate::config::CommonTriageConfig;
use crate::issue_metadata::{record_views, IssueMetadata, IssueView};
use crate::markdown::{
    date_text, inline_code_list, push_date, push_inline_code_list, wg_labels, working_groups,
    RenderError,
};
use crate::text::{decimal, push_decimal};
use crate::timestamp::{format_rfc3339, rfc3339_format, Timestamp};

verus! {

/// The document's opening: generator comment, title and snapshot time.
pub open spec fn header(title: Seq<char>, generated_at: Seq<char>) -> Seq<char> {
    "<!-- stubs generated with pcr-util -->\n"@ + "# "@ + title + "\n\n"@
        + "*Issues snapshot collected on "@ + generated_at + "*\n"@ + "\n"@
}

/// One issue's block, its fields laid out as a two-column table.
pub open spec fn issue_block(v: IssueView) -> Seq<char> {
    "### #"@ + decimal(v.number as nat) + ": "@ + v.title + "\n"@
        + "| Kind | Value |\n"@ + "| - | - |\n"@
        + "| Link | <"@ + v.url + "> |\n"@
        + "| Creation date | "@ + date_text(v.created_at) + " |\n"@
        + "| Labels | "@ + inline_code_list(v.labels) + "|\n"@
        + "| Author | `"@ + v.author + "` |\n"@
        + "| Working groups | "@ + inline_code_list(wg_labels(v.labels)) + "|\n"@
        + "| Assignees | "@ + inline_code_list(v.assignees) + "|\n"@
        + "\n**TODO**\n\n\n"@
}

/// The blocks of the issues, in their order.
pub open spec fn issue_blocks(s: Seq<IssueView>) -> Seq<char>
    decreases s.len(),
{
    if s.len() == 0 {
        Seq::empty()
    } else {
        issue_blocks(s.drop_last()) + issue_block(s.last())
    }
}

/// The whole tracking-issue review document for the issues `s`.
pub open spec fn tracking_document(title: Seq<char>, generated_at: Seq<char>, s: Seq<IssueView>) -> Seq<char> {
    header(title, generated_at) + "## T-compiler-only tracking issues\n\n"@ + issue_blocks(s)
}

/// Builds one document; dropped once the text is taken out.
struct RenderCtxt {
    buf: String,
}

impl RenderCtxt {
    fn new() -> (r: Self)
        ensures
            r.buf@ == Seq::<char>::empty(),
    {
        Self { buf: String::new() }
    }

    fn finish(self) -> (r: String)
        ensures
            r@ == self.buf@,
    {
        self.buf
    }

    fn render_document_header(&mut self, title: &str, generated_at: &str)
        ensures
            final(self).buf@ == old(self).buf@ + header(title@, generated_at@),
    {
        self.buf.append("<!-- stubs generated with pcr-util -->\n");
        self.buf.append("# ");
        self.buf.append(title);
        self.buf.append("\n\n");
        self.buf.append("*Issues snapshot collected on ");
        self.buf.append(generated_at);
        self.buf.append("*\n");
        self.buf.append("\n");
        assert(self.buf@ =~= old(self).buf@ + header(title@, generated_at@));
    }

    fn render_issue(&mut self, issue: &IssueMetadata)
        ensures
            final(self).buf@ == old(self).buf@ + issue_block(issue@),
    {
        self.buf.append("### #");
        push_decimal(&mut self.buf, issue.number);
        self.buf.append(": ");
        self.buf.append(issue.title.as_str());
        self.buf.append("\n");
        self.buf.append("| Kind | Value |\n");
        self.buf.append("| - | - |\n");
        self.buf.append("| Link | <");
        self.buf.append(issue.url.as_str());
        self.buf.append("> |\n");
        self.buf.append("| Creation date | ");
        push_date(&mut self.buf, &issue.created_at);
        self.buf.append(" |\n");
        self.buf.append("| Labels | ");
        push_inline_code_list(&mut self.buf, &issue.labels);
        self.buf.append("|\n");
        self.buf.append("| Author | `");
        self.buf.append(issue.author.as_str());
        self.buf.append("` |\n");
        self.buf.append("| Working groups | ");
        let wg = working_groups(&issue.labels);
        push_inline_code_list(&mut self.buf, &wg);
        self.buf.append("|\n");
        self.buf.append("| Assignees | ");
        push_inline_code_list(&mut self.buf, &issue.assignees);
        self.buf.append("|\n");
        self.buf.append("\n**TODO**\n\n\n");
        assert(self.buf@ =~= old(self).buf@ + issue_block(issue@));
    }

    fn render_issues(&mut self, issues: &[IssueMetadata])
        ensures
            final(self).buf@ == old(self).buf@ + issue_blocks(record_views(issues@)),
    {
        let ghost s = record_views(issues@);
        let mut i: usize = 0;
        while i < issues.len()
            invariant
                i <= issues@.len(),
                s == record_views(issues@),
                self.buf@ == old(self).buf@ + issue_blocks(s.subrange(0, i as int)),
            decreases issues@.len() - i,
        {
            self.render_issue(&issues[i]);
            assert(s.subrange(0, i + 1).drop_last() == s.subrange(0, i as int));
            assert(self.buf@ =~= old(self).buf@ + issue_blocks(s.subrange(0, i + 1)));
            i = i + 1;
        }
        assert(s.subrange(0, i as int) == s);
    }

    fn render_section(&mut self, issues: &[IssueMetadata])
        ensures
            final(self).buf@ == old(self).buf@ + "## T-compiler-only tracking issues\n\n"@
                + issue_blocks(record_views(issues@)),
    {
        self.buf.append("## T-compiler-only tracking issues\n\n");
        self.render_issues(issues);
        assert(self.buf@ =~= old(self).buf@ + "## T-compiler-only tracking issues\n\n"@
            + issue_blocks(record_views(issues@)));
    }

    fn render_markdown_stub(&mut self, title: &str, generated_at: &str, issues: &[IssueMetadata])
        ensures
            final(self).buf@ == old(self).buf@ + tracking_document(
                title@,
                generated_at@,
                record_views(issues@),
            ),
    {
        self.render_document_header(title, generated_at);
        self.render_section(issues);
        assert(self.buf@ =~= old(self).buf@ + tracking_document(
            title@,
            generated_at@,
            record_views(issues@),
        ));
    }
}

/// The tracking-issue review document for `issues`, titled `title`, stating
/// that the snapshot was taken at `generated_at`.
pub fn render_document(title: &str, generated_at: &str, issues: &[IssueMetadata]) -> (r: String)
    ensures
        r@ == tracking_document(title@, generated_at@, record_views(issues@)),
{
    let mut ctx = RenderCtxt::new();
    ctx.render_markdown_stub(title, generated_at, issues);
    ctx.finish()
}

/// The tracking-issue review document for `issues`, with the title of
/// `config` and the snapshot time `generated_at` written as RFC 3339.
pub fn render_markdown_stub(
    config: &CommonTriageConfig,
    generated_at: &Timestamp,
    issues: &[IssueMetadata],
) -> (r: Result<String, RenderError>)
    ensures
        r is Ok <==> rfc3339_format(generated_at.fields()) is Some,
        r matches Ok(doc) ==> doc@ == tracking_document(
            config.markdown_stub_title@,
            rfc3339_format(generated_at.fields())->Some_0,
            record_views(issues@),
        ),
{
    match format_rfc3339(generated_at) {
        Some(stamp) => Ok(render_document(config.markdown_stub_title.as_str(), stamp.as_str(), issues)),
        None => Err(RenderError::UnformattableTimestamp),
    }
}

} // verus!
