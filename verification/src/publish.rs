//! Publishing a static snapshot of a project: which files and which of the
//! local assets they refer to go into the output directory, and how the
//! snapshot is then committed and pushed.

use crate::paths::{is_absolute, join, parent, path_is_absolute, path_join, path_parent};
use crate::text::{
    begins_with,
    blank,
    chars_of,
    copy_texts,
    find_from,
    first_occurrence,
    first_word,
    first_word_of,
    has_prefix,
    join2,
    opt_as_str,
    opt_str_text,
    opt_text,
    skip_char,
    skip_chars,
    slice_of,
    starts_with,
    string_from,
    strip_chars,
    stripped,
    texts,
    trim,
    trim_chars,
    trimmed,
};
use vstd::prelude::*;

verus! {

/// A request to publish files of a project.
#[derive(Debug)]
pub struct PublishRequest {
    pub project_root: String,
    pub files: Vec<String>,
    pub output_dir: Option<String>,
}

/// What became of a request to publish.
#[derive(Debug)]
pub struct PublishResponse {
    pub ok: bool,
    pub summary: String,
    pub warnings: Vec<String>,
}

/// A request to deploy what was published.
#[derive(Debug)]
pub struct DeployRequest {
    pub project_root: String,
    pub output_dir: Option<String>,
    pub remote: String,
    pub branch: Option<String>,
}

/// What became of a request to deploy.
#[derive(Debug)]
pub struct DeployResponse {
    pub ok: bool,
    pub summary: String,
    pub logs: Vec<String>,
}

/// The name of the output directory where the request gives none.
pub open spec fn default_output_dir() -> Seq<char> {
    "_publish"@
}

/// The name that a request gives to the output directory, without the
/// white space around it.
pub open spec fn output_dir_name(output_dir: Option<Seq<char>>) -> Seq<char> {
    trimmed(
        match output_dir {
            Some(dir) => dir,
            None => default_output_dir(),
        },
    )
}

/// The output directory: the name itself where it is absolute, else the
/// name under the project root. An empty name is refused.
pub fn resolve_output_dir(project_root: &str, output_dir: Option<&str>) -> (r: Result<
    String,
    String,
>)
    ensures
        ({
            let name = output_dir_name(opt_str_text(output_dir));
            if name.len() == 0 {
                r is Err && r->Err_0@ == "Publish directory cannot be empty"@
            } else if path_is_absolute(name) {
                r is Ok && r->Ok_0@ == name
            } else {
                r is Ok && r->Ok_0@ == path_join(project_root@, name)
            }
        }),
{
    let value = trim(
        match output_dir {
            Some(dir) => dir,
            None => "_publish",
        },
    );
    if value.as_str().unicode_len() == 0 {
        return Err(String::from_str("Publish directory cannot be empty"));
    }
    if is_absolute(value.as_str()) {
        Ok(value)
    } else {
        Ok(join(project_root, value.as_str()))
    }
}

/// Whether `url` names a remote that is reached over the secure shell.
pub open spec fn ssh_url(url: Seq<char>) -> bool {
    has_prefix(url, "git@"@) || has_prefix(url, "ssh://"@)
}

/// Tests whether `url` names a remote that is reached over the secure
/// shell.
pub fn is_ssh_url(url: &str) -> (b: bool)
    ensures
        b == ssh_url(url@),
{
    starts_with(url, "git@") || starts_with(url, "ssh://")
}

/// What a link points to, given the text between its brackets: the first
/// word of that text, taken after white space, then `<`, then `>` were
/// removed from both of its ends.
pub open spec fn link_target(raw: Seq<char>) -> Seq<char> {
    first_word(stripped(stripped(trimmed(raw), '<'), '>'))
}

/// Whether a link target names a file of the project: it is not empty, no
/// web or mail or phone address, and no anchor.
pub open spec fn is_local_target(target: Seq<char>) -> bool {
    &&& target.len() > 0
    &&& !has_prefix(target, "http://"@)
    &&& !has_prefix(target, "https://"@)
    &&& !has_prefix(target, "mailto:"@)
    &&& !has_prefix(target, "tel:"@)
    &&& target[0] != '#'
}

/// The local link targets of `content` from index `cursor` on, in order.
/// A link begins with `](` and ends at the next `)`; the search goes on
/// behind that `)`, and ends at a link that is not closed.
pub open spec fn local_assets(content: Seq<char>, cursor: int) -> Seq<Seq<char>>
    decreases content.len() - cursor,
{
    match first_occurrence(content, "]("@, cursor) {
        Some(open) => match first_occurrence(content, ")"@, open + 2) {
            Some(close) => if cursor <= open && open + 2 <= close < content.len() {
                let target = link_target(content.subrange(open + 2, close));
                let found = if is_local_target(target) {
                    seq![target]
                } else {
                    Seq::empty()
                };
                found + local_assets(content, close + 1)
            } else {
                Seq::empty()
            },
            None => Seq::empty(),
        },
        None => Seq::empty(),
    }
}

fn is_local(target: &Vec<char>) -> (b: bool)
    ensures
        b == is_local_target(target@),
{
    target.len() > 0 && !begins_with(target, "http://") && !begins_with(target, "https://")
        && !begins_with(target, "mailto:") && !begins_with(target, "tel:") && target[0] != '#'
}

/// Lists the local files that the links of `content` point to, in the
/// order of the links.
pub fn extract_local_assets(content: &str) -> (assets: Vec<String>)
    ensures
        texts(assets@) == local_assets(content@, 0),
{
    let v = chars_of(content);
    let open_mark = chars_of("](");
    let close_mark = chars_of(")");
    proof {
        reveal_strlit("](");
        reveal_strlit(")");
    }
    let mut assets: Vec<String> = Vec::new();
    let mut cursor: usize = 0;
    assert(texts(assets@) =~= Seq::<Seq<char>>::empty());
    loop
        invariant
            v@ == content@,
            open_mark@ == "]("@,
            close_mark@ == ")"@,
            open_mark@.len() == 2,
            close_mark@.len() == 1,
            cursor <= v.len(),
            texts(assets@) + local_assets(v@, cursor as int) == local_assets(v@, 0),
        ensures
            texts(assets@) == local_assets(v@, 0),
        decreases v.len() - cursor,
    {
        let open = match find_from(&v, &open_mark, cursor) {
            Some(open) => open,
            None => {
                assert(local_assets(v@, cursor as int) =~= Seq::<Seq<char>>::empty());
                assert(texts(assets@) + Seq::<Seq<char>>::empty() =~= texts(assets@));
                break ;
            },
        };
        let start: usize = open + 2;
        let close = match find_from(&v, &close_mark, start) {
            Some(close) => close,
            None => {
                assert(local_assets(v@, cursor as int) =~= Seq::<Seq<char>>::empty());
                assert(texts(assets@) + Seq::<Seq<char>>::empty() =~= texts(assets@));
                break ;
            },
        };
        let raw = slice_of(&v, start, close);
        let inner = trim_chars(&raw);
        let inner = strip_chars(&inner, '<');
        let inner = strip_chars(&inner, '>');
        let target = first_word_of(&inner);
        let ghost before = assets@;
        let ghost found = if is_local_target(target@) {
            seq![target@]
        } else {
            Seq::<Seq<char>>::empty()
        };
        if is_local(&target) {
            assets.push(string_from(&target, 0, target.len()));
            proof {
                assert(target@.subrange(0, target@.len() as int) =~= target@);
                assert(texts(assets@) =~= texts(before).push(target@));
            }
        }
        proof {
            assert(target@ == link_target(v@.subrange(start as int, close as int)));
            assert(local_assets(v@, cursor as int) == found + local_assets(v@, close + 1));
            assert(texts(assets@) =~= texts(before) + found);
            assert(texts(assets@) + local_assets(v@, close + 1) =~= texts(before) + (found
                + local_assets(v@, close + 1)));
        }
        cursor = close + 1;
    }
    assets
}

/// Where an asset lies that a file refers to: for a reference that begins
/// with a slash, under the project root; else beside the file. A blank
/// reference, and a relative one from a file without a directory, lead
/// nowhere.
pub open spec fn asset_location(project_root: Seq<char>, file_path: Seq<char>, asset: Seq<char>)
    -> Option<Seq<char>> {
    let reference = trimmed(asset);
    if reference.len() == 0 {
        None
    } else if reference[0] == '/' {
        Some(path_join(project_root, skip_char(reference, '/')))
    } else {
        match path_parent(file_path) {
            Some(dir) => Some(path_join(dir, reference)),
            None => None,
        }
    }
}

/// Resolves the place of an asset that the file at `file_path` refers to.
pub fn resolve_asset_path(project_root: &str, file_path: &str, asset: &str) -> (r: Option<String>)
    ensures
        opt_text(r) == asset_location(project_root@, file_path@, asset@),
{
    let reference = trim_chars(&chars_of(asset));
    if reference.len() == 0 {
        return None;
    }
    if reference[0] == '/' {
        let rest = skip_chars(&reference, '/');
        let rest = string_from(&rest, 0, rest.len());
        assert(rest@ =~= skip_char(reference@, '/'));
        return Some(join(project_root, rest.as_str()));
    }
    match parent(file_path) {
        Some(dir) => {
            let reference = string_from(&reference, 0, reference.len());
            assert(reference@ =~= trimmed(asset@));
            Some(join(dir.as_str(), reference.as_str()))
        },
        None => None,
    }
}

/// The name of the log file in the output directory.
pub open spec fn deploy_log_name() -> Seq<char> {
    ".deploy.log"@
}

/// A line of the log file: the time, the label in square brackets, and
/// the message.
pub open spec fn log_line(timestamp: Seq<char>, label: Seq<char>, message: Seq<char>) -> Seq<
    char,
> {
    timestamp + " ["@ + label + "] "@ + message + "\n"@
}

/// Writes a line of the log file.
pub fn log_entry(timestamp: &str, label: &str, message: &str) -> (line: String)
    ensures
        line@ == log_line(timestamp@, label@, message@),
{
    let mut line = String::from_str(timestamp);
    line.append(" [");
    line.append(label);
    line.append("] ");
    line.append(message);
    line.append("\n");
    line
}

/// Calls `chrono::Local::now` and renders the time as year, month, day,
/// hours, minutes and seconds. Trusted: nothing is claimed of the result,
/// which is the time of the call.
#[verifier::external_body]
pub(crate) fn timestamp_now() -> (stamp: String) {
    chrono::Local::now().format("%Y-%m-%d %H:%M:%S").to_string()
}

/// The line to append to the log file for `message` under `label`, with
/// the present time at its start.
pub fn append_log(label: &str, message: &str) -> (line: String)
    ensures
        exists|timestamp: Seq<char>| line@ == log_line(timestamp, label@, message@),
{
    let stamp = timestamp_now();
    let line = log_entry(stamp.as_str(), label, message);
    assert(line@ == log_line(stamp@, label@, message@));
    line
}

/// What a publish run waits for.
#[derive(Clone, Copy, Debug, PartialEq, Eq, Structural)]
pub enum PublishPending {
    /// The output directory, created, and the canonical paths of the
    /// project root and of the output directory.
    Prepare,
    /// Whether the current file exists, and its canonical path.
    ProbeFile,
    /// The current file, copied from `copy_from` to `copy_to`.
    CopyFile,
    /// The text of the current file.
    ReadFile,
    /// Whether the current asset exists, and whether it is a file.
    ProbeAsset,
    /// The current asset, copied from `copy_from` to `copy_to`.
    CopyAsset,
    /// The log message, appended to the log file.
    WriteLog,
}

/// What came back from outside.
#[derive(Debug)]
pub enum PublishEvent {
    /// The canonical paths of the project root and of the output
    /// directory, or why they could not be had.
    Prepared(Result<(String, String), String>),
    /// Nothing for a file that does not exist, else its canonical path, or
    /// why that could not be had.
    FileProbed(Option<Result<String, String>>),
    /// The copy is made, or why it is not.
    Copied(Result<(), String>),
    /// The text of the file; empty where it could not be read.
    Content(String),
    /// Whether the asset exists, and whether it is a file.
    AssetProbed { exists: bool, is_file: bool },
    /// The log line is written, or why it is not.
    Logged(Result<(), String>),
}

/// A publish run that waits for something from outside.
#[derive(Debug)]
pub struct PublishRun {
    pub pending: PublishPending,
    pub project_root: String,
    pub output_dir: String,
    pub files: Vec<String>,
    pub next_file: usize,
    pub current_file: String,
    pub file_canon: String,
    pub assets: Vec<String>,
    pub next_asset: usize,
    pub current_asset: String,
    pub asset_path: String,
    pub copy_from: String,
    pub copy_to: String,
    pub seen: Vec<String>,
    pub copied: Vec<String>,
    pub warnings: Vec<String>,
    pub log_message: String,
}

/// A waiting publish run, as text.
pub struct PublishRunView {
    pub pending: PublishPending,
    pub project_root: Seq<char>,
    pub output_dir: Seq<char>,
    pub files: Seq<Seq<char>>,
    pub next_file: nat,
    pub current_file: Seq<char>,
    pub file_canon: Seq<char>,
    pub assets: Seq<Seq<char>>,
    pub next_asset: nat,
    pub current_asset: Seq<char>,
    pub asset_path: Seq<char>,
    pub copy_from: Seq<char>,
    pub copy_to: Seq<char>,
    pub seen: Seq<Seq<char>>,
    pub copied: Seq<Seq<char>>,
    pub warnings: Seq<Seq<char>>,
    pub log_message: Seq<char>,
}

impl View for PublishRun {
    type V = PublishRunView;

    open spec fn view(&self) -> PublishRunView {
        PublishRunView {
            pending: self.pending,
            project_root: self.project_root@,
            output_dir: self.output_dir@,
            files: texts(self.files@),
            next_file: self.next_file as nat,
            current_file: self.current_file@,
            file_canon: self.file_canon@,
            assets: texts(self.assets@),
            next_asset: self.next_asset as nat,
            current_asset: self.current_asset@,
            asset_path: self.asset_path@,
            copy_from: self.copy_from@,
            copy_to: self.copy_to@,
            seen: texts(self.seen@),
            copied: texts(self.copied@),
            warnings: texts(self.warnings@),
            log_message: self.log_message@,
        }
    }
}

/// A response to a request to publish, as text.
pub struct PublishResponseView {
    pub ok: bool,
    pub summary: Seq<char>,
    pub warnings: Seq<Seq<char>>,
}

impl View for PublishResponse {
    type V = PublishResponseView;

    open spec fn view(&self) -> PublishResponseView {
        PublishResponseView {
            ok: self.ok,
            summary: self.summary@,
            warnings: texts(self.warnings@),
        }
    }
}

/// Where a publish run stands.
#[derive(Debug)]
pub enum PublishStep {
    Run(PublishRun),
    Done(Result<PublishResponse, String>),
}

/// A step, as text.
pub enum PublishStepView {
    Run(PublishRunView),
    Done(Result<PublishResponseView, Seq<char>>),
}

impl View for PublishStep {
    type V = PublishStepView;

    open spec fn view(&self) -> PublishStepView {
        match self {
            PublishStep::Run(r) => PublishStepView::Run(r@),
            PublishStep::Done(Ok(r)) => PublishStepView::Done(Ok(r@)),
            PublishStep::Done(Err(e)) => PublishStepView::Done(Err(e@)),
        }
    }
}

/// A run that ends with the failure `reason`.
pub open spec fn publish_failed(reason: Seq<char>) -> PublishStepView {
    PublishStepView::Done(Err(reason))
}

/// The message that the log file gets at the end of a run.
pub open spec fn publish_log_text(files: nat, assets: nat) -> Seq<char> {
    "Published "@ + crate::text::decimal(files) + " file(s), "@ + crate::text::decimal(assets)
        + " asset(s)"@
}

/// The summary of a run.
pub open spec fn publish_summary_text(files: nat, assets: nat) -> Seq<char> {
    "Published "@ + crate::text::decimal(files) + " file(s) and "@ + crate::text::decimal(
        assets,
    ) + " asset(s)"@
}

/// How a publish run begins: the project root must be a directory, files
/// must be selected, and the output directory must have a name; then the
/// output directory is prepared.
pub open spec fn publish_begin(request: PublishRequest, root_is_dir: bool) -> PublishStepView {
    let name = output_dir_name(opt_text(request.output_dir));
    if !root_is_dir {
        publish_failed("Project root is missing"@)
    } else if request.files.len() == 0 {
        publish_failed("No files selected for publish"@)
    } else if name.len() == 0 {
        publish_failed("Publish directory cannot be empty"@)
    } else {
        PublishStepView::Run(
            PublishRunView {
                pending: PublishPending::Prepare,
                project_root: request.project_root@,
                output_dir: if path_is_absolute(name) {
                    name
                } else {
                    path_join(request.project_root@, name)
                },
                files: texts(request.files@),
                next_file: 0,
                current_file: Seq::empty(),
                file_canon: Seq::empty(),
                assets: Seq::empty(),
                next_asset: 0,
                current_asset: Seq::empty(),
                asset_path: Seq::empty(),
                copy_from: Seq::empty(),
                copy_to: Seq::empty(),
                seen: Seq::empty(),
                copied: Seq::empty(),
                warnings: Seq::empty(),
                log_message: Seq::empty(),
            },
        )
    }
}

/// The run turns to the next selected file, or, where none is left, to
/// the log file.
pub open spec fn to_next_file(r: PublishRunView) -> PublishStepView {
    if r.next_file < r.files.len() {
        PublishStepView::Run(
            PublishRunView {
                pending: PublishPending::ProbeFile,
                current_file: r.files[r.next_file as int],
                next_file: r.next_file + 1,
                ..r
            },
        )
    } else {
        PublishStepView::Run(
            PublishRunView {
                pending: PublishPending::WriteLog,
                log_message: publish_log_text(r.copied.len(), r.seen.len()),
                ..r
            },
        )
    }
}

/// The run turns to the next asset of the current file that leads
/// somewhere, or, where none is left, to the next file.
pub open spec fn to_next_asset(r: PublishRunView) -> PublishStepView
    decreases r.assets.len() - r.next_asset,
{
    if r.next_asset < r.assets.len() {
        let asset = r.assets[r.next_asset as int];
        let turned = PublishRunView {
            current_asset: asset,
            next_asset: r.next_asset + 1,
            ..r
        };
        match asset_location(r.project_root, r.file_canon, asset) {
            Some(path) => PublishStepView::Run(
                PublishRunView { pending: PublishPending::ProbeAsset, asset_path: path, ..turned },
            ),
            None => to_next_asset(turned),
        }
    } else {
        to_next_file(r)
    }
}

/// Whether `path`, as it is written, begins with the components of
/// `root`. A path that goes up again through `..` still counts as inside.
pub open spec fn inside(root: Seq<char>, path: Seq<char>) -> bool {
    crate::paths::path_starts_with(path, root)
}

/// The place in the output directory of a path under the project root.
pub open spec fn published_place(r: PublishRunView, path: Seq<char>) -> Option<Seq<char>> {
    match crate::paths::path_strip_prefix(path, r.project_root) {
        Some(relative) => Some(path_join(r.output_dir, relative)),
        None => None,
    }
}

/// Whether one of `seen` is the same path as `path`, however the two are
/// spelled.
pub open spec fn seen_before(seen: Seq<Seq<char>>, path: Seq<char>) -> bool {
    exists|i: int| 0 <= i < seen.len() && crate::paths::path_same(#[trigger] seen[i], path)
}

/// What an event means for the run. A file that does not exist or lies
/// outside the project is passed over with a warning, and so is an asset
/// that is missing or lies outside the project; an asset that is no file,
/// or that was copied before, is passed over in silence. Any failure from
/// outside ends the run. An event that the run does not wait for changes
/// nothing.
pub open spec fn publish_advance(r: PublishRunView, event: PublishEvent) -> PublishStepView {
    match (r.pending, event) {
        (PublishPending::Prepare, PublishEvent::Prepared(Ok(paths))) => {
            if !inside(paths.0@, paths.1@) {
                publish_failed("Publish directory must stay inside the project root"@)
            } else {
                to_next_file(PublishRunView { project_root: paths.0@, output_dir: paths.1@, ..r })
            }
        },
        (PublishPending::Prepare, PublishEvent::Prepared(Err(e))) => publish_failed(e@),
        (PublishPending::ProbeFile, PublishEvent::FileProbed(None)) => to_next_file(
            PublishRunView {
                warnings: r.warnings.push("File not found: "@ + r.current_file),
                ..r
            },
        ),
        (PublishPending::ProbeFile, PublishEvent::FileProbed(Some(Err(e)))) => publish_failed(e@),
        (PublishPending::ProbeFile, PublishEvent::FileProbed(Some(Ok(canon)))) => {
            if !inside(r.project_root, canon@) {
                to_next_file(
                    PublishRunView {
                        warnings: r.warnings.push(
                            "Skipped file outside project: "@ + r.current_file,
                        ),
                        ..r
                    },
                )
            } else {
                match published_place(r, canon@) {
                    Some(place) => PublishStepView::Run(
                        PublishRunView {
                            pending: PublishPending::CopyFile,
                            file_canon: canon@,
                            copy_from: canon@,
                            copy_to: place,
                            ..r
                        },
                    ),
                    None => publish_failed("Unable to resolve relative path"@),
                }
            }
        },
        (PublishPending::CopyFile, PublishEvent::Copied(Ok(_))) => PublishStepView::Run(
            PublishRunView {
                pending: PublishPending::ReadFile,
                copied: r.copied.push(r.file_canon),
                ..r
            },
        ),
        (PublishPending::CopyFile, PublishEvent::Copied(Err(e))) => publish_failed(e@),
        (PublishPending::ReadFile, PublishEvent::Content(text)) => to_next_asset(
            PublishRunView { assets: local_assets(text@, 0), next_asset: 0, ..r },
        ),
        (PublishPending::ProbeAsset, PublishEvent::AssetProbed { exists, is_file }) => {
            if !exists {
                to_next_asset(
                    PublishRunView {
                        warnings: r.warnings.push("Missing asset: "@ + r.current_asset),
                        ..r
                    },
                )
            } else if !is_file {
                to_next_asset(r)
            } else if !inside(r.project_root, r.asset_path) {
                to_next_asset(
                    PublishRunView {
                        warnings: r.warnings.push(
                            "Skipped asset outside project: "@ + r.current_asset,
                        ),
                        ..r
                    },
                )
            } else if seen_before(r.seen, r.asset_path) {
                to_next_asset(r)
            } else {
                match published_place(r, r.asset_path) {
                    Some(place) => PublishStepView::Run(
                        PublishRunView {
                            pending: PublishPending::CopyAsset,
                            seen: r.seen.push(r.asset_path),
                            copy_from: r.asset_path,
                            copy_to: place,
                            ..r
                        },
                    ),
                    None => publish_failed("Unable to resolve asset path"@),
                }
            }
        },
        (PublishPending::CopyAsset, PublishEvent::Copied(Ok(_))) => to_next_asset(r),
        (PublishPending::CopyAsset, PublishEvent::Copied(Err(e))) => publish_failed(e@),
        (PublishPending::WriteLog, PublishEvent::Logged(Ok(_))) => PublishStepView::Done(
            Ok(
                PublishResponseView {
                    ok: true,
                    summary: publish_summary_text(r.copied.len(), r.seen.len()),
                    warnings: r.warnings,
                },
            ),
        ),
        (PublishPending::WriteLog, PublishEvent::Logged(Err(e))) => publish_failed(e@),
        _ => PublishStepView::Run(r),
    }
}

/// A copy is asked for only of a path that is written under the project
/// root, and goes to the same place under the output directory. No asset
/// is copied twice: a copy is asked for only of an asset that is the same
/// path as none that was copied before, and the asset then joins those.
/// The warnings of a run only grow, and so do the lists of what was
/// copied.
pub proof fn lemma_publish_containment(r: PublishRunView, event: PublishEvent)
    ensures
        match publish_advance(r, event) {
            PublishStepView::Run(next) => {
                &&& (next.pending == PublishPending::CopyFile || next.pending
                    == PublishPending::CopyAsset) && next.pending != r.pending ==> inside(
                    r.project_root,
                    next.copy_from,
                ) && published_place(r, next.copy_from) == Some(next.copy_to)
                    && next.project_root == r.project_root
                &&& next.pending == PublishPending::CopyFile ==> r.pending
                    == PublishPending::CopyFile || r.pending == PublishPending::ProbeFile
                &&& next.pending == PublishPending::CopyAsset ==> r.pending
                    == PublishPending::CopyAsset || r.pending == PublishPending::ProbeAsset
                &&& next.pending == PublishPending::CopyAsset && r.pending
                    == PublishPending::ProbeAsset ==> !seen_before(r.seen, next.copy_from)
                    && next.seen == r.seen.push(next.copy_from)
                &&& next.seen != r.seen ==> next.pending == PublishPending::CopyAsset
                    && r.pending == PublishPending::ProbeAsset
                &&& r.warnings.is_prefix_of(next.warnings)
                &&& r.copied.is_prefix_of(next.copied)
                &&& r.seen.is_prefix_of(next.seen)
            },
            PublishStepView::Done(Ok(response)) => response.ok && response.warnings == r.warnings,
            PublishStepView::Done(Err(_)) => true,
        },
{
    lemma_turns_keep(r);
    match (r.pending, event) {
        (PublishPending::Prepare, PublishEvent::Prepared(Ok(paths))) => {
            lemma_turns_keep(
                PublishRunView { project_root: paths.0@, output_dir: paths.1@, ..r },
            );
        },
        (PublishPending::ProbeFile, PublishEvent::FileProbed(None)) => {
            lemma_turns_keep(
                PublishRunView {
                    warnings: r.warnings.push("File not found: "@ + r.current_file),
                    ..r
                },
            );
        },
        (PublishPending::ProbeFile, PublishEvent::FileProbed(Some(Ok(canon)))) => {
            lemma_turns_keep(
                PublishRunView {
                    warnings: r.warnings.push("Skipped file outside project: "@ + r.current_file),
                    ..r
                },
            );
        },
        (PublishPending::ReadFile, PublishEvent::Content(text)) => {
            lemma_turns_keep(
                PublishRunView { assets: local_assets(text@, 0), next_asset: 0, ..r },
            );
        },
        (PublishPending::ProbeAsset, PublishEvent::AssetProbed { exists, is_file }) => {
            lemma_turns_keep(
                PublishRunView {
                    warnings: r.warnings.push("Missing asset: "@ + r.current_asset),
                    ..r
                },
            );
            lemma_turns_keep(
                PublishRunView {
                    warnings: r.warnings.push(
                        "Skipped asset outside project: "@ + r.current_asset,
                    ),
                    ..r
                },
            );
        },
        _ => {},
    }
}

/// Turning to the next asset or file asks for a probe or for the log, and
/// keeps the lists of the run.
proof fn lemma_turns_keep(r: PublishRunView)
    ensures
        to_next_file(r) is Run,
        to_next_asset(r) is Run,
        ({
            let next = to_next_file(r)->Run_0;
            &&& next.pending == PublishPending::ProbeFile || next.pending
                == PublishPending::WriteLog
            &&& next.warnings == r.warnings
            &&& next.copied == r.copied
            &&& next.seen == r.seen
        }),
        ({
            let next = to_next_asset(r)->Run_0;
            &&& next.pending == PublishPending::ProbeAsset || next.pending
                == PublishPending::ProbeFile || next.pending == PublishPending::WriteLog
            &&& next.warnings == r.warnings
            &&& next.copied == r.copied
            &&& next.seen == r.seen
        }),
    decreases r.assets.len() - r.next_asset,
{
    if r.next_asset < r.assets.len() {
        let asset = r.assets[r.next_asset as int];
        let turned = PublishRunView { current_asset: asset, next_asset: r.next_asset + 1, ..r };
        if asset_location(r.project_root, r.file_canon, asset) is None {
            lemma_turns_keep(turned);
        }
    }
}

/// Tests whether one of `seen` is the same path as `path`.
pub fn was_seen(seen: &Vec<String>, path: &str) -> (b: bool)
    ensures
        b == seen_before(texts(seen@), path@),
{
    let mut i: usize = 0;
    while i < seen.len()
        invariant
            i <= seen.len(),
            forall|j: int| 0 <= j < i ==> !crate::paths::path_same(texts(seen@)[j], path@),
        decreases seen.len() - i,
    {
        if crate::paths::same_path(seen[i].as_str(), path) {
            assert(crate::paths::path_same(texts(seen@)[i as int], path@));
            return true;
        }
        i += 1;
    }
    false
}

fn publish_fail(reason: &str) -> (step: PublishStep)
    ensures
        step@ == publish_failed(reason@),
{
    PublishStep::Done(Err(String::from_str(reason)))
}

fn count_text(head: &str, files: usize, middle: &str, assets: usize) -> (r: String)
    ensures
        r@ == head@ + crate::text::decimal(files as nat) + middle@ + crate::text::decimal(
            assets as nat,
        ) + " asset(s)"@,
{
    let mut r = String::from_str(head);
    r.append(crate::text::decimal_text(files as u64).as_str());
    r.append(middle);
    r.append(crate::text::decimal_text(assets as u64).as_str());
    r.append(" asset(s)");
    r
}

/// Begins a publish run. `root_is_dir` says whether the project root of
/// the request is a directory.
pub fn publish_project(request: &PublishRequest, root_is_dir: bool) -> (step: PublishStep)
    ensures
        step@ == publish_begin(*request, root_is_dir),
{
    if !root_is_dir {
        return publish_fail("Project root is missing");
    }
    if request.files.len() == 0 {
        return publish_fail("No files selected for publish");
    }
    let output_dir = match resolve_output_dir(
        request.project_root.as_str(),
        opt_as_str(&request.output_dir),
    ) {
        Ok(dir) => dir,
        Err(e) => {
            return PublishStep::Done(Err(e));
        },
    };
    let files = copy_texts(&request.files);
    let run = PublishRun {
        pending: PublishPending::Prepare,
        project_root: request.project_root.clone(),
        output_dir,
        files,
        next_file: 0,
        current_file: String::new(),
        file_canon: String::new(),
        assets: Vec::new(),
        next_asset: 0,
        current_asset: String::new(),
        asset_path: String::new(),
        copy_from: String::new(),
        copy_to: String::new(),
        seen: Vec::new(),
        copied: Vec::new(),
        warnings: Vec::new(),
        log_message: String::new(),
    };
    assert(texts(run.assets@) =~= Seq::<Seq<char>>::empty());
    assert(texts(run.seen@) =~= Seq::<Seq<char>>::empty());
    assert(texts(run.copied@) =~= Seq::<Seq<char>>::empty());
    assert(texts(run.warnings@) =~= Seq::<Seq<char>>::empty());
    PublishStep::Run(run)
}

impl PublishRun {
    fn turn_to_next_file(self) -> (step: PublishStep)
        ensures
            step@ == to_next_file(self@),
    {
        if self.next_file < self.files.len() {
            let current_file = self.files[self.next_file].clone();
            let next_file: usize = self.next_file + 1;
            PublishStep::Run(
                PublishRun { pending: PublishPending::ProbeFile, current_file, next_file, ..self },
            )
        } else {
            let log_message = count_text(
                "Published ",
                self.copied.len(),
                " file(s), ",
                self.seen.len(),
            );
            PublishStep::Run(
                PublishRun { pending: PublishPending::WriteLog, log_message, ..self },
            )
        }
    }

    fn turn_to_next_asset(self) -> (step: PublishStep)
        ensures
            step@ == to_next_asset(self@),
        decreases self.assets.len() - self.next_asset,
    {
        if self.next_asset < self.assets.len() {
            let asset = self.assets[self.next_asset].clone();
            let place = resolve_asset_path(
                self.project_root.as_str(),
                self.file_canon.as_str(),
                asset.as_str(),
            );
            let next_asset: usize = self.next_asset + 1;
            let turned = PublishRun { current_asset: asset, next_asset, ..self };
            match place {
                Some(path) => PublishStep::Run(
                    PublishRun { pending: PublishPending::ProbeAsset, asset_path: path, ..turned },
                ),
                None => turned.turn_to_next_asset(),
            }
        } else {
            self.turn_to_next_file()
        }
    }

    fn warn(self, head: &str, subject: &str) -> (r: PublishRun)
        ensures
            r@ == (PublishRunView { warnings: self@.warnings.push(head@ + subject@), ..self@ }),
    {
        let mut warnings = self.warnings;
        let ghost before = warnings@;
        warnings.push(join2(head, subject));
        assert(texts(warnings@) =~= texts(before).push(head@ + subject@));
        PublishRun { warnings, ..self }
    }

    fn place_of(&self, path: &str) -> (r: Option<String>)
        ensures
            opt_text(r) == published_place(self@, path@),
    {
        match crate::paths::strip_prefix(path, self.project_root.as_str()) {
            Some(relative) => Some(join(self.output_dir.as_str(), relative.as_str())),
            None => None,
        }
    }

    /// Takes an event from outside and says how the run goes on.
    pub fn advance(self, event: PublishEvent) -> (step: PublishStep)
        ensures
            step@ == publish_advance(self@, event),
    {
        match (self.pending, event) {
            (PublishPending::Prepare, PublishEvent::Prepared(Ok(paths))) => {
                let (root, out) = paths;
                if !crate::paths::starts_with(out.as_str(), root.as_str()) {
                    publish_fail("Publish directory must stay inside the project root")
                } else {
                    let run = PublishRun { project_root: root, output_dir: out, ..self };
                    run.turn_to_next_file()
                }
            },
            (PublishPending::Prepare, PublishEvent::Prepared(Err(e))) => PublishStep::Done(Err(e)),
            (PublishPending::ProbeFile, PublishEvent::FileProbed(None)) => {
                let file = self.current_file.clone();
                self.warn("File not found: ", file.as_str()).turn_to_next_file()
            },
            (PublishPending::ProbeFile, PublishEvent::FileProbed(Some(Err(e)))) => {
                PublishStep::Done(Err(e))
            },
            (PublishPending::ProbeFile, PublishEvent::FileProbed(Some(Ok(canon)))) => {
                if !crate::paths::starts_with(canon.as_str(), self.project_root.as_str()) {
                    let file = self.current_file.clone();
                    self.warn("Skipped file outside project: ", file.as_str()).turn_to_next_file()
                } else {
                    match self.place_of(canon.as_str()) {
                        Some(place) => PublishStep::Run(
                            PublishRun {
                                pending: PublishPending::CopyFile,
                                file_canon: canon.clone(),
                                copy_from: canon,
                                copy_to: place,
                                ..self
                            },
                        ),
                        None => publish_fail("Unable to resolve relative path"),
                    }
                }
            },
            (PublishPending::CopyFile, PublishEvent::Copied(Ok(_))) => {
                let mut copied = self.copied;
                let ghost before = copied@;
                copied.push(self.file_canon.clone());
                assert(texts(copied@) =~= texts(before).push(self.file_canon@));
                PublishStep::Run(
                    PublishRun { pending: PublishPending::ReadFile, copied, ..self },
                )
            },
            (PublishPending::CopyFile, PublishEvent::Copied(Err(e))) => PublishStep::Done(Err(e)),
            (PublishPending::ReadFile, PublishEvent::Content(text)) => {
                let assets = extract_local_assets(text.as_str());
                let run = PublishRun { assets, next_asset: 0, ..self };
                run.turn_to_next_asset()
            },
            (PublishPending::ProbeAsset, PublishEvent::AssetProbed { exists, is_file }) => {
                if !exists {
                    let asset = self.current_asset.clone();
                    self.warn("Missing asset: ", asset.as_str()).turn_to_next_asset()
                } else if !is_file {
                    self.turn_to_next_asset()
                } else if !crate::paths::starts_with(
                    self.asset_path.as_str(),
                    self.project_root.as_str(),
                ) {
                    let asset = self.current_asset.clone();
                    self.warn("Skipped asset outside project: ", asset.as_str()).turn_to_next_asset()
                } else if was_seen(&self.seen, self.asset_path.as_str()) {
                    self.turn_to_next_asset()
                } else {
                    match self.place_of(self.asset_path.as_str()) {
                        Some(place) => {
                            let mut seen = self.seen;
                            let ghost before = seen@;
                            seen.push(self.asset_path.clone());
                            assert(texts(seen@) =~= texts(before).push(self.asset_path@));
                            PublishStep::Run(
                                PublishRun {
                                    pending: PublishPending::CopyAsset,
                                    seen,
                                    copy_from: self.asset_path.clone(),
                                    copy_to: place,
                                    ..self
                                },
                            )
                        },
                        None => publish_fail("Unable to resolve asset path"),
                    }
                }
            },
            (PublishPending::CopyAsset, PublishEvent::Copied(Ok(_))) => self.turn_to_next_asset(),
            (PublishPending::CopyAsset, PublishEvent::Copied(Err(e))) => PublishStep::Done(Err(e)),
            (PublishPending::WriteLog, PublishEvent::Logged(Ok(_))) => {
                let summary = count_text(
                    "Published ",
                    self.copied.len(),
                    " file(s) and ",
                    self.seen.len(),
                );
                PublishStep::Done(
                    Ok(PublishResponse { ok: true, summary, warnings: self.warnings }),
                )
            },
            (PublishPending::WriteLog, PublishEvent::Logged(Err(e))) => PublishStep::Done(Err(e)),
            (_, _) => PublishStep::Run(self),
        }
    }
}

} // verus!
