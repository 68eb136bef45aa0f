//! The diff reporter's verified half: given the raw output of the
//! external tree-comparison tool, keep exactly the lines that mark a path
//! as present only under the watched source tree, and render them — one
//! per line — as the full contents of the report log, which is overwritten
//! on every computation, never appended to. Running the comparison tool
//! and touching the log file happen outside this crate.

use vstd::prelude::*;
use vstd::string::StrSliceExecFns;
use vstd::string::StringExecFns;

verus! {

/// The text split at every newline separator: one field per segment, so a
/// trailing newline yields a final empty field and empty text is the one
/// empty field.
pub open spec fn spec_lines(text: Seq<char>) -> Seq<Seq<char>>
    decreases text.len(),
{
    if text.len() == 0 {
        seq![Seq::<char>::empty()]
    } else {
        let fields = spec_lines(text.drop_last());
        if text.last() == '\n' {
            fields.push(Seq::<char>::empty())
        } else {
            fields.update(fields.len() - 1, fields.last().push(text.last()))
        }
    }
}

pub open spec fn spec_has_prefix(line: Seq<char>, prefix: Seq<char>) -> bool {
    prefix.len() <= line.len() && line.subrange(0, prefix.len() as int) == prefix
}

/// The lines that carry the prefix, in the order they appear.
pub open spec fn spec_matching_lines(lines: Seq<Seq<char>>, prefix: Seq<char>) -> Seq<Seq<char>>
    decreases lines.len(),
{
    if lines.len() == 0 {
        Seq::<Seq<char>>::empty()
    } else {
        let kept = spec_matching_lines(lines.drop_last(), prefix);
        if spec_has_prefix(lines.last(), prefix) {
            kept.push(lines.last())
        } else {
            kept
        }
    }
}

/// What a diff report computed for this source directory holds: the
/// comparison tool marks a path present only under the first tree with a
/// line opening "Only in " followed by that tree's path, and exactly those
/// lines are the report.
pub open spec fn spec_report_lines(diff_output: Seq<char>, source_dir: Seq<char>) -> Seq<
    Seq<char>,
> {
    spec_matching_lines(spec_lines(diff_output), "Only in "@ + source_dir)
}

/// The rendered report: each line followed by a newline, in order.
pub open spec fn spec_render(lines: Seq<Seq<char>>) -> Seq<char>
    decreases lines.len(),
{
    if lines.len() == 0 {
        Seq::<char>::empty()
    } else {
        spec_render(lines.drop_last()) + lines.last() + seq!['\n']
    }
}

/// The report log's contents after a report is written over it: the new
/// report's rendering alone. What the log held before does not enter.
pub open spec fn spec_written(previous: Seq<char>, lines: Seq<Seq<char>>) -> Seq<char> {
    spec_render(lines)
}

/// The report log is recomputed, never appended to: writing one report
/// and then another leaves exactly the second report's rendering, whatever
/// the log held at the start.
pub proof fn lemma_log_overwritten(
    initial: Seq<char>,
    first: Seq<Seq<char>>,
    second: Seq<Seq<char>>,
)
    ensures
        spec_written(spec_written(initial, first), second) == spec_written(initial, second),
        spec_written(spec_written(initial, first), second) == spec_render(second),
{
}

/// Splits text into its newline-separated fields.
pub fn split_lines(text: &str) -> (lines: Vec<String>)
    ensures
        lines.deep_view() == spec_lines(text@),
{
    let n = text.unicode_len();
    let mut lines: Vec<String> = Vec::new();
    let mut start: usize = 0;
    let mut i: usize = 0;
    proof {
        assert(text@.subrange(0, 0) =~= Seq::<char>::empty());
        assert(lines.deep_view().push(text@.subrange(0, 0)) =~~= spec_lines(
            text@.subrange(0, 0),
        ));
    }
    while i < n
        invariant
            start <= i <= n,
            n == text@.len(),
            lines.deep_view().push(text@.subrange(start as int, i as int)) == spec_lines(
                text@.subrange(0, i as int),
            ),
        decreases n - i,
    {
        let ghost done = text@.subrange(0, i as int);
        let ghost done_next = text@.subrange(0, i as int + 1);
        proof {
            assert(done_next.drop_last() =~= done);
            assert(done_next.last() == text@[i as int]);
        }
        let c = text.get_char(i);
        if c == '\n' {
            let line = text.substring_char(start, i).to_owned();
            let ghost previous = lines.deep_view();
            lines.push(line);
            proof {
                assert(lines.deep_view() =~~= previous.push(
                    text@.subrange(start as int, i as int),
                ));
                assert(spec_lines(done_next) == spec_lines(done).push(Seq::<char>::empty()));
                assert(text@.subrange(i as int + 1, i as int + 1) =~= Seq::<char>::empty());
            }
            start = i + 1;
        } else {
            proof {
                let fields = spec_lines(done);
                assert(fields == lines.deep_view().push(text@.subrange(start as int, i as int)));
                assert(fields.last() == text@.subrange(start as int, i as int));
                assert(fields.update(fields.len() - 1, fields.last().push(text@[i as int]))
                    =~~= lines.deep_view().push(
                    text@.subrange(start as int, i as int).push(text@[i as int]),
                ));
                assert(text@.subrange(start as int, i as int).push(text@[i as int])
                    =~= text@.subrange(start as int, i as int + 1));
            }
        }
        i = i + 1;
    }
    let tail = text.substring_char(start, n).to_owned();
    let ghost previous = lines.deep_view();
    lines.push(tail);
    proof {
        assert(lines.deep_view() =~~= previous.push(text@.subrange(start as int, n as int)));
        assert(text@.subrange(0, n as int) =~= text@);
    }
    lines
}

/// Whether the line opens with the prefix, character for character.
pub fn has_prefix(line: &str, prefix: &str) -> (carries: bool)
    ensures
        carries == spec_has_prefix(line@, prefix@),
{
    let n = line.unicode_len();
    let m = prefix.unicode_len();
    if m > n {
        return false;
    }
    let mut i: usize = 0;
    while i < m
        invariant
            i <= m,
            m <= n,
            m == prefix@.len(),
            n == line@.len(),
            forall|j: int| 0 <= j < i ==> line@[j] == prefix@[j],
        decreases m - i,
    {
        if line.get_char(i) != prefix.get_char(i) {
            proof {
                if spec_has_prefix(line@, prefix@) {
                    assert(line@.subrange(0, prefix@.len() as int)[i as int] == prefix@[
                        i as int
                    ]);
                    assert(false);
                }
            }
            return false;
        }
        i = i + 1;
    }
    proof {
        assert(line@.subrange(0, m as int) =~= prefix@);
    }
    true
}

/// The marker the comparison tool puts in front of a path present only
/// under the first compared tree.
pub fn only_in_prefix(source_dir: &str) -> (prefix: String)
    ensures
        prefix@ == "Only in "@ + source_dir@,
{
    let mut prefix = String::from_str("Only in ");
    prefix.append(source_dir);
    prefix
}

/// The paths judged present only under the source tree, as the comparison
/// tool reported them: an ordered sequence of its "Only in" lines.
pub struct DiffReport {
    pub lines: Vec<String>,
}

impl DiffReport {
    /// Computes the report for this source directory from the comparison
    /// tool's raw output: exactly the output lines opening with
    /// "Only in " and the source directory, in order.
    pub fn from_diff_output(source_dir: &str, diff_output: &str) -> (report: DiffReport)
        ensures
            report.lines.deep_view() == spec_report_lines(diff_output@, source_dir@),
    {
        let prefix = only_in_prefix(source_dir);
        let all = split_lines(diff_output);
        let mut kept: Vec<String> = Vec::new();
        let mut i: usize = 0;
        proof {
            assert(all.deep_view().take(0) =~~= Seq::<Seq<char>>::empty());
        }
        while i < all.len()
            invariant
                i <= all.len(),
                prefix@ == "Only in "@ + source_dir@,
                all.deep_view() == spec_lines(diff_output@),
                kept.deep_view() == spec_matching_lines(all.deep_view().take(i as int), prefix@),
        decreases all.len() - i,
        {
            let ghost seen = all.deep_view().take(i as int);
            let ghost seen_next = all.deep_view().take(i as int + 1);
            proof {
                assert(seen_next.drop_last() =~~= seen);
                assert(seen_next.last() == all.deep_view()[i as int]);
            }
            if has_prefix(all[i].as_str(), prefix.as_str()) {
                let ghost previous = kept.deep_view();
                kept.push(all[i].clone());
                proof {
                    assert(kept.deep_view() =~~= previous.push(all.deep_view()[i as int]));
                }
            }
            i = i + 1;
        }
        proof {
            assert(all.deep_view().take(all.len() as int) =~~= all.deep_view());
        }
        DiffReport { lines: kept }
    }

    /// Renders the report as the full log contents: one path line per
    /// report line, each closed by a newline; an empty report renders as
    /// empty contents.
    pub fn render(&self) -> (text: String)
        ensures
            text@ == spec_render(self.lines.deep_view()),
    {
        let mut text = String::new();
        let mut i: usize = 0;
        proof {
            assert(self.lines.deep_view().take(0) =~~= Seq::<Seq<char>>::empty());
        }
        while i < self.lines.len()
            invariant
                i <= self.lines.len(),
                text@ == spec_render(self.lines.deep_view().take(i as int)),
            decreases self.lines.len() - i,
        {
            let ghost seen_next = self.lines.deep_view().take(i as int + 1);
            proof {
                reveal_strlit("\n");
                assert("\n"@ =~= seq!['\n']);
                assert(seen_next.drop_last() =~~= self.lines.deep_view().take(i as int));
                assert(seen_next.last() == self.lines.deep_view()[i as int]);
            }
            text.append(self.lines[i].as_str());
            text.append("\n");
            i = i + 1;
        }
        proof {
            assert(self.lines.deep_view().take(self.lines.len() as int) =~~= self.lines.deep_view());
        }
        text
    }
}

/// A failure of the external comparison pipeline itself: best-effort
/// observability, never a reason to roll back or fail the sync that
/// triggered the report.
#[derive(Clone, Debug)]
pub struct DiffError {
    pub exit_status: i32,
    pub stderr: String,
}

/// Classifies the comparison tool's exit: status zero (no differences)
/// and one (differences found) both mean the comparison ran; anything
/// else means the tool itself failed, reported with its diagnostic text.
pub fn diff_outcome(exit_status: i32, stderr: &str) -> (result: Result<(), DiffError>)
    ensures
        result is Ok <==> (exit_status == 0 || exit_status == 1),
        result matches Err(e) ==> e.exit_status == exit_status && e.stderr@ == stderr@,
{
    if exit_status == 0 || exit_status == 1 {
        Ok(())
    } else {
        Err(DiffError { exit_status, stderr: stderr.to_owned() })
    }
}

/// The report log file, modelled by its contents. The surrounding shell
/// mirrors this value to the fixed log path after every write.
pub struct DiffLog {
    content: String,
}

impl DiffLog {
    pub closed spec fn spec_content(self) -> Seq<char> {
        self.content@
    }

    pub fn new() -> (log: DiffLog)
        ensures
            log.spec_content() == Seq::<char>::empty(),
    {
        DiffLog { content: String::new() }
    }

    /// Writes a freshly computed report over the log: afterwards the log
    /// holds that report's rendering and nothing else.
    pub fn write_report(&mut self, report: &DiffReport)
        ensures
            final(self).spec_content() == spec_written(
                old(self).spec_content(),
                report.lines.deep_view(),
            ),
    {
        self.content = report.render();
    }

    /// The log's current contents, for the shell to persist.
    pub fn contents(&self) -> (text: String)
        ensures
            text@ == self.spec_content(),
    {
        self.content.clone()
    }
}

} // verus!
