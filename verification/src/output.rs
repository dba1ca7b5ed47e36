//! From the captured output of a build to the path of its dynamic library.

use crate::artifact::{
    is_cdylib, lemma_no_library_not_found, lemma_sole_library_selected, path_text, select_cdylib,
    select_cdylib_of,
};
use crate::error::BuildError;
use crate::stream::{
    accepted_len, lemma_accepted_len, lemma_accepted_len_is, read_len, read_messages,
    stream_messages, views, well_formed, CompilerMessage, MessageView,
};
use crate::text::texts;
use vstd::prelude::*;

verus! {

/// How a run of `cargo` ended.
#[derive(Debug)]
pub struct ProcessResult {
    /// Whether the process exited with success.
    pub success: bool,
    /// Everything the process wrote to its standard output.
    pub stdout: Vec<u8>,
}

/// What a build's output comes to.
#[derive(Debug)]
pub struct BuildReport {
    /// The diagnostics to show, in the order in which they were reported.
    pub diagnostics: Vec<String>,
    /// The path of the dynamic library, as `cargo` reported it.
    pub result: Result<String, BuildError>,
}

/// A [`BuildReport`] as mathematical values.
pub struct ReportView {
    pub diagnostics: Seq<Seq<char>>,
    pub result: Result<Seq<char>, BuildError>,
}

impl View for BuildReport {
    type V = ReportView;

    open spec fn view(&self) -> ReportView {
        ReportView { diagnostics: texts(self.diagnostics@), result: path_text(self.result) }
    }
}

/// The texts of the diagnostics among `messages`, in order.
pub open spec fn diagnostics_of(messages: Seq<MessageView>) -> Seq<Seq<char>>
    decreases messages.len(),
{
    if messages.len() == 0 {
        Seq::empty()
    } else {
        let before = diagnostics_of(messages.drop_last());
        match messages.last() {
            MessageView::Diagnostic(text) => before.push(text),
            _ => before,
        }
    }
}

/// The files of the last artifact among `messages`.
pub open spec fn last_artifact(messages: Seq<MessageView>) -> Option<Seq<Seq<char>>>
    decreases messages.len(),
{
    if messages.len() == 0 {
        None
    } else {
        match messages.last() {
            MessageView::Artifact(files) => Some(files),
            _ => last_artifact(messages.drop_last()),
        }
    }
}

/// What the output of a build comes to, given all the messages of its
/// standard output and whether the process exited with success.
///
/// The messages before the first unrecognized line are acted on: their
/// diagnostics are shown, and the last artifact among them is kept. An
/// unrecognized line is an error of its own. Otherwise a failed process is a
/// failed build, and so is one that reported no artifact; and the path is the
/// first dynamic library among the files of the artifact that was kept.
pub open spec fn report_of(messages: Seq<MessageView>, success: bool) -> ReportView {
    let acted_on = messages.take(accepted_len(messages) as int);
    ReportView {
        diagnostics: diagnostics_of(acted_on),
        result: if accepted_len(messages) < messages.len() {
            Err(BuildError::Message)
        } else if !success {
            Err(BuildError::CargoFail)
        } else {
            match last_artifact(acted_on) {
                Some(files) => select_cdylib_of(files),
                None => Err(BuildError::CargoFail),
            }
        },
    }
}

/// Acts on messages that were read: collects the diagnostics, keeps the last
/// artifact, stops at the first unrecognized line, and then settles the
/// result by the exit status and the files of the artifact.
pub fn report_messages(messages: &Vec<CompilerMessage>, success: bool) -> (report: BuildReport)
    ensures
        report@ == report_of(views(messages@), success),
{
    let ghost all = views(messages@);
    let mut diagnostics: Vec<String> = Vec::new();
    let mut artifact: Option<&Vec<String>> = None;
    let mut i: usize = 0;
    proof {
        assert(all.skip(0) =~= all);
        assert(texts(diagnostics@) =~= diagnostics_of(all.take(0)));
    }
    while i < messages.len()
        invariant
            i <= messages.len(),
            all == views(messages@),
            accepted_len(all) == i + accepted_len(all.skip(i as int)),
            texts(diagnostics@) == diagnostics_of(all.take(i as int)),
            match artifact {
                Some(files) => last_artifact(all.take(i as int)) == Some(texts(files@)),
                None => last_artifact(all.take(i as int)) is None,
            },
        decreases messages.len() - i,
    {
        let ghost shown = diagnostics@;
        proof {
            assert(all.skip(i as int)[0] == all[i as int]);
            assert(all.skip(i as int).drop_first() =~= all.skip(i + 1));
            assert(all.take(i + 1).drop_last() =~= all.take(i as int));
            assert(all.take(i + 1).last() == messages@[i as int]@);
        }
        match &messages[i] {
            CompilerMessage::Diagnostic(text) => {
                diagnostics.push(text.clone());
                proof {
                    assert(texts(diagnostics@) =~= texts(shown).push(text@));
                }
            },
            CompilerMessage::Artifact(files) => {
                artifact = Some(files);
            },
            CompilerMessage::Other => {},
            CompilerMessage::Text => {
                return BuildReport { diagnostics, result: Err(BuildError::Message) };
            },
            CompilerMessage::Unreadable => {
                return BuildReport { diagnostics, result: Err(BuildError::Message) };
            },
        }
        i = i + 1;
    }
    proof {
        assert(all.take(all.len() as int) =~= all);
    }
    if !success {
        return BuildReport { diagnostics, result: Err(BuildError::CargoFail) };
    }
    match artifact {
        Some(files) => BuildReport { diagnostics, result: select_cdylib(files) },
        None => BuildReport { diagnostics, result: Err(BuildError::CargoFail) },
    }
}

/// Reads the messages of a finished build and reports the diagnostics and
/// the path of the dynamic library that was built.
pub fn parse_output(result: ProcessResult) -> (report: BuildReport)
    ensures
        report@ == report_of(stream_messages(result.stdout@), result.success),
{
    let success = result.success;
    proof {
        lemma_read_is_enough(stream_messages(result.stdout@), success);
    }
    let messages = read_messages(result.stdout);
    report_messages(&messages, success)
}

/// What a build that was started comes to: `launched` is `None` where
/// `cargo` could not be started, else how the process ended.
pub open spec fn build_report_of(launched: Option<ProcessResult>) -> ReportView {
    match launched {
        Some(result) => report_of(stream_messages(result.stdout@), result.success),
        None => ReportView { diagnostics: Seq::empty(), result: Err(BuildError::Cargo) },
    }
}

/// Reports on a build, given how starting it went. A process that could not
/// be started is an error of its own, apart from a build that failed.
pub fn report_build(launched: Option<ProcessResult>) -> (report: BuildReport)
    ensures
        report@ == build_report_of(launched),
{
    match launched {
        Some(result) => parse_output(result),
        None => {
            let diagnostics: Vec<String> = Vec::new();
            assert(texts(diagnostics@) =~= Seq::empty());
            BuildReport { diagnostics, result: Err(BuildError::Cargo) }
        },
    }
}

/// What lies behind the messages that are read has no part in the report.
pub proof fn lemma_read_is_enough(messages: Seq<MessageView>, success: bool)
    ensures
        report_of(messages.take(read_len(messages) as int), success) == report_of(
            messages,
            success,
        ),
{
    let n = accepted_len(messages) as int;
    lemma_accepted_len(messages);
    if n < messages.len() {
        let read = messages.take(n + 1);
        lemma_accepted_len_is(read, n);
        assert(read.take(n) =~= messages.take(n));
    } else {
        assert(messages.take(n) =~= messages);
    }
}

/// Where every line is recognized, every message is acted on.
pub proof fn lemma_well_formed_all_accepted(messages: Seq<MessageView>)
    requires
        well_formed(messages),
    ensures
        accepted_len(messages) == messages.len(),
        messages.take(accepted_len(messages) as int) == messages,
{
    lemma_accepted_len_is(messages, messages.len() as int);
    assert(messages.take(messages.len() as int) =~= messages);
}

/// Of several artifacts the last one is kept: the artifact behind which no
/// other artifact follows, whatever else stands before, between or behind.
pub proof fn lemma_last_artifact_is_kept(messages: Seq<MessageView>, k: int)
    requires
        0 <= k < messages.len(),
        messages[k] is Artifact,
        forall|j: int| k < j < messages.len() ==> !(#[trigger] messages[j] is Artifact),
    ensures
        last_artifact(messages) == Some(messages[k]->Artifact_0),
    decreases messages.len(),
{
    if k < messages.len() - 1 {
        let before = messages.drop_last();
        assert(!(messages[messages.len() - 1] is Artifact));
        assert(before[k] == messages[k]);
        assert forall|j: int| k < j < before.len() implies !(#[trigger] before[j] is Artifact) by {
            assert(before[j] == messages[j]);
        }
        lemma_last_artifact_is_kept(before, k);
    }
}

/// Where no message is an artifact, none is kept.
pub proof fn lemma_no_artifact_is_kept(messages: Seq<MessageView>)
    requires
        forall|j: int| 0 <= j < messages.len() ==> !(#[trigger] messages[j] is Artifact),
    ensures
        last_artifact(messages) is None,
    decreases messages.len(),
{
    if messages.len() > 0 {
        let before = messages.drop_last();
        assert(!(messages[messages.len() - 1] is Artifact));
        assert forall|j: int| 0 <= j < before.len() implies !(#[trigger] before[j] is Artifact) by {
            assert(before[j] == messages[j]);
        }
        lemma_no_artifact_is_kept(before);
    }
}

/// In a stream of recognized lines from a process that succeeded, the path
/// is selected among the files of the last artifact, whatever diagnostics
/// and other messages stand before, between or behind the artifacts.
pub proof fn lemma_last_artifact_wins(messages: Seq<MessageView>, k: int)
    requires
        well_formed(messages),
        0 <= k < messages.len(),
        messages[k] is Artifact,
        forall|j: int| k < j < messages.len() ==> !(#[trigger] messages[j] is Artifact),
    ensures
        report_of(messages, true).result == select_cdylib_of(messages[k]->Artifact_0),
{
    lemma_well_formed_all_accepted(messages);
    lemma_last_artifact_is_kept(messages, k);
}

/// A process that failed is a failed build, also where it reported an
/// artifact. (Its lines must be recognized: an unrecognized line comes
/// first.)
pub proof fn lemma_failed_process_is_failed_build(messages: Seq<MessageView>)
    requires
        well_formed(messages),
    ensures
        report_of(messages, false).result == Err::<Seq<char>, BuildError>(BuildError::CargoFail),
{
    lemma_well_formed_all_accepted(messages);
}

/// A process that succeeded without reporting an artifact is a failed build.
pub proof fn lemma_no_artifact_is_failed_build(messages: Seq<MessageView>)
    requires
        well_formed(messages),
        forall|j: int| 0 <= j < messages.len() ==> !(#[trigger] messages[j] is Artifact),
    ensures
        report_of(messages, true).result == Err::<Seq<char>, BuildError>(BuildError::CargoFail),
{
    lemma_well_formed_all_accepted(messages);
    lemma_no_artifact_is_kept(messages);
}

/// Where the process succeeded with one artifact, and exactly one of its
/// files is a dynamic library, that file is the result, unchanged.
pub proof fn lemma_sole_library_is_result(messages: Seq<MessageView>, k: int, q: int)
    requires
        well_formed(messages),
        0 <= k < messages.len(),
        messages[k] is Artifact,
        forall|j: int| 0 <= j < messages.len() && j != k ==> !(#[trigger] messages[j] is Artifact),
        0 <= q < messages[k]->Artifact_0.len(),
        is_cdylib(messages[k]->Artifact_0[q]),
        forall|i: int|
            0 <= i < messages[k]->Artifact_0.len() && i != q ==> !is_cdylib(
                #[trigger] messages[k]->Artifact_0[i],
            ),
    ensures
        report_of(messages, true).result == Ok::<Seq<char>, BuildError>(messages[k]->Artifact_0[q]),
{
    lemma_last_artifact_wins(messages, k);
    lemma_sole_library_selected(messages[k]->Artifact_0, q);
}

/// Where the process succeeded and none of the files of its last artifact is
/// a dynamic library, the result is `CdylibNotFound`.
pub proof fn lemma_no_library_is_not_found(messages: Seq<MessageView>, k: int)
    requires
        well_formed(messages),
        0 <= k < messages.len(),
        messages[k] is Artifact,
        forall|j: int| k < j < messages.len() ==> !(#[trigger] messages[j] is Artifact),
        forall|i: int|
            0 <= i < messages[k]->Artifact_0.len() ==> !is_cdylib(
                #[trigger] messages[k]->Artifact_0[i],
            ),
    ensures
        report_of(messages, true).result == Err::<Seq<char>, BuildError>(BuildError::CdylibNotFound),
{
    lemma_last_artifact_wins(messages, k);
    lemma_no_library_not_found(messages[k]->Artifact_0);
}

/// An unrecognized line anywhere in the stream makes the result `Message`,
/// whatever the exit status and whatever else the stream holds.
pub proof fn lemma_unrecognized_line_is_error(messages: Seq<MessageView>, k: int, success: bool)
    requires
        0 <= k < messages.len(),
        messages[k].is_unrecognized(),
    ensures
        report_of(messages, success).result == Err::<Seq<char>, BuildError>(BuildError::Message),
{
    lemma_accepted_len(messages);
}

/// Reading halts at an unrecognized line: two streams that agree up to and
/// including such a line give the same report, whatever follows the line in
/// either and however the two processes exited.
pub proof fn lemma_reading_halts(
    a: Seq<MessageView>,
    b: Seq<MessageView>,
    k: int,
    success_a: bool,
    success_b: bool,
)
    requires
        0 <= k < a.len(),
        k < b.len(),
        a[k].is_unrecognized(),
        a.take(k + 1) == b.take(k + 1),
    ensures
        report_of(a, success_a) == report_of(b, success_b),
{
    lemma_accepted_len(a);
    let n = accepted_len(a) as int;
    assert(n <= k);
    assert forall|i: int| 0 <= i <= n implies a[i] == b[i] by {
        assert(a[i] == a.take(k + 1)[i]);
        assert(b[i] == b.take(k + 1)[i]);
    }
    lemma_accepted_len_is(b, n);
    assert(a.take(n) =~= b.take(n));
}

/// Diagnostics are shown in the order of the stream: one that follows
/// recognized lines comes behind all that were shown for them.
pub proof fn lemma_diagnostics_in_order(messages: Seq<MessageView>, text: Seq<char>, success: bool)
    requires
        well_formed(messages),
    ensures
        report_of(messages.push(MessageView::Diagnostic(text)), success).diagnostics == report_of(
            messages,
            success,
        ).diagnostics.push(text),
{
    let longer = messages.push(MessageView::Diagnostic(text));
    lemma_well_formed_all_accepted(messages);
    lemma_well_formed_all_accepted(longer);
    assert(longer.drop_last() =~= messages);
}

} // verus!
