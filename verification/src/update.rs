//! The update protocol.
//!
//! An update attempt is a conversation between this library and the process
//! around it. The library keeps the attempt's state; the process performs
//! one filesystem, network or child-process operation at a time — the one
//! the current state asks for — and feeds the outcome back through
//! [`update_step`]. Every decision (what counts as a corrupt download, when
//! the staged binary may replace the installed one, which rename failure has
//! a fallback) is taken here; the process outside only moves bytes.

use vstd::prelude::*;

use crate::digits::dec_str;
use crate::digits::render_usize;
use crate::errors::ConfigIssue;
use crate::errors::UpdateError;
use crate::errors::UpdateErrorV;
use crate::identity::parse_quality;
use crate::identity::Platform;
use crate::identity::Quality;
use crate::paths::join_path;
use crate::paths::joined;
use crate::paths::with_ext;
use crate::paths::with_extension;

verus! {

/// Extension of the staging file, the not-yet-activated new binary beside
/// the installed one.
pub open spec fn staging_ext() -> Seq<char> {
    ".update"@
}

/// Extension of the sentinel file: the retired old binary, left beside the
/// installed one when the primary retirement rename is unavailable, and
/// removed by a later cleanup.
pub open spec fn sentinel_ext() -> Seq<char> {
    "atualizando cli"@
}

/// Name under which the old binary is retired into the temporary directory.
pub open spec fn retired_name() -> Seq<char> {
    "old-code-cli"@
}

/// Name of the directory, inside the temporary directory, that receives the
/// extracted archive contents.
pub open spec fn contents_name() -> Seq<char> {
    "content"@
}

/// The latest available build for an identity's platform and channel.
pub struct Release {
    /// The build commit the release was made from.
    pub commit: String,
    /// Where the release archive can be fetched.
    pub download_url: String,
}

/// What a spawned process reported back.
pub struct ProcessOutput {
    /// Whether the process exited with status zero.
    pub success: bool,
    /// Captured standard output.
    pub stdout: String,
    /// Captured standard error.
    pub stderr: String,
}

/// The mathematical value of a [`ProcessOutput`].
pub struct OutputV {
    pub success: bool,
    pub stdout: Seq<char>,
    pub stderr: Seq<char>,
}

impl View for ProcessOutput {
    type V = OutputV;

    open spec fn view(&self) -> OutputV {
        OutputV { success: self.success, stdout: self.stdout@, stderr: self.stderr@ }
    }
}

/// The value of a string result.
pub open spec fn str_result_v(r: Result<String, String>) -> Result<Seq<char>, Seq<char>> {
    match r {
        Ok(s) => Ok(s@),
        Err(c) => Err(c@),
    }
}

/// The value of a unit result whose error is an operating-system message.
pub open spec fn unit_result_v(r: Result<(), String>) -> Result<(), Seq<char>> {
    match r {
        Ok(u) => Ok(u),
        Err(c) => Err(c@),
    }
}

/// The value of a result whose error is already an [`UpdateError`].
pub open spec fn pass_result_v(r: Result<(), UpdateError>) -> Result<(), UpdateErrorV> {
    match r {
        Ok(u) => Ok(u),
        Err(e) => Err(e@),
    }
}

/// The value of a string result whose error is an [`UpdateError`].
pub open spec fn str_or_error_v(r: Result<String, UpdateError>) -> Result<
    Seq<char>,
    UpdateErrorV,
> {
    match r {
        Ok(s) => Ok(s@),
        Err(e) => Err(e@),
    }
}

/// The value of a captured-output result.
pub open spec fn output_result_v(r: Result<ProcessOutput, String>) -> Result<
    OutputV,
    Seq<char>,
> {
    match r {
        Ok(o) => Ok(o@),
        Err(c) => Err(c@),
    }
}

/// The values of a list of directory entries, each either a path or an
/// operating-system message.
pub open spec fn entries_v(es: Seq<Result<String, String>>) -> Seq<
    Result<Seq<char>, Seq<char>>,
> {
    Seq::new(es.len(), |i: int| str_result_v(es[i]))
}

/// What the process outside reports back to the protocol. Each variant
/// answers the state of the same name.
pub enum UpdateEvent {
    /// A fresh temporary work directory, or why none could be made.
    TempDirReady(Result<String, String>),
    /// The release archive's file name, or the transport error, unchanged.
    StreamOpened(Result<String, UpdateError>),
    /// The download finished, or the transport error, unchanged.
    Downloaded(Result<(), UpdateError>),
    /// The running executable's path, or why it could not be resolved.
    TargetResolved(Result<String, String>),
    /// The archive was extracted, or the extractor's error, unchanged.
    Extracted(Result<(), UpdateError>),
    /// The extracted directory's entries, each a path or a read error.
    EntriesListed(Result<Vec<Result<String, String>>, String>),
    /// The single entry was copied to the staging path, or why not.
    Staged(Result<(), String>),
    /// Permissions and ownership were carried over, or why not.
    MetadataCopied(Result<(), String>),
    /// What the staged binary's self-check reported, or why it would not
    /// even spawn.
    Validated(Result<ProcessOutput, String>),
    /// The old binary was renamed into the temporary directory, or why not.
    Retired(Result<(), String>),
    /// The old binary was renamed to the sentinel path, or why not.
    SentinelRetired(Result<(), String>),
    /// The staged binary was renamed onto the executable's path, or why not.
    Activated(Result<(), String>),
}

/// The mathematical value of an [`UpdateEvent`].
pub enum EventV {
    TempDirReady(Result<Seq<char>, Seq<char>>),
    StreamOpened(Result<Seq<char>, UpdateErrorV>),
    Downloaded(Result<(), UpdateErrorV>),
    TargetResolved(Result<Seq<char>, Seq<char>>),
    Extracted(Result<(), UpdateErrorV>),
    EntriesListed(Result<Seq<Result<Seq<char>, Seq<char>>>, Seq<char>>),
    Staged(Result<(), Seq<char>>),
    MetadataCopied(Result<(), Seq<char>>),
    Validated(Result<OutputV, Seq<char>>),
    Retired(Result<(), Seq<char>>),
    SentinelRetired(Result<(), Seq<char>>),
    Activated(Result<(), Seq<char>>),
}

impl View for UpdateEvent {
    type V = EventV;

    open spec fn view(&self) -> EventV {
        match self {
            UpdateEvent::TempDirReady(r) => EventV::TempDirReady(str_result_v(*r)),
            UpdateEvent::StreamOpened(r) => EventV::StreamOpened(str_or_error_v(*r)),
            UpdateEvent::Downloaded(r) => EventV::Downloaded(pass_result_v(*r)),
            UpdateEvent::TargetResolved(r) => EventV::TargetResolved(str_result_v(*r)),
            UpdateEvent::Extracted(r) => EventV::Extracted(pass_result_v(*r)),
            UpdateEvent::EntriesListed(r) => EventV::EntriesListed(
                match r {
                    Ok(v) => Ok(entries_v(v@)),
                    Err(c) => Err(c@),
                },
            ),
            UpdateEvent::Staged(r) => EventV::Staged(unit_result_v(*r)),
            UpdateEvent::MetadataCopied(r) => EventV::MetadataCopied(unit_result_v(*r)),
            UpdateEvent::Validated(r) => EventV::Validated(output_result_v(*r)),
            UpdateEvent::Retired(r) => EventV::Retired(unit_result_v(*r)),
            UpdateEvent::SentinelRetired(r) => EventV::SentinelRetired(unit_result_v(*r)),
            UpdateEvent::Activated(r) => EventV::Activated(unit_result_v(*r)),
        }
    }
}

/// The state of an update attempt. Each `Await` state names the one
/// operation the process outside must perform next; the paths it needs
/// stand in the state.
pub enum UpdateState {
    /// Create a temporary work directory.
    AwaitTempDir,
    /// Open the release's download stream and report the archive file name.
    AwaitStream { temp_dir: String },
    /// Stream the download into `archive`.
    AwaitDownload { temp_dir: String, archive: String },
    /// Resolve the running executable's path.
    AwaitTarget { temp_dir: String, archive: String },
    /// Extract `archive` into `contents`.
    AwaitExtract {
        temp_dir: String,
        target: String,
        staging: String,
        archive: String,
        contents: String,
    },
    /// List the entries of `contents`.
    AwaitEntries { temp_dir: String, target: String, staging: String, contents: String },
    /// Copy `source` to `staging`.
    AwaitStaging { temp_dir: String, target: String, staging: String, source: String },
    /// Copy permissions (and, where the platform has it, ownership) from
    /// `target` to `staging`.
    AwaitMetadata { temp_dir: String, target: String, staging: String },
    /// Run `staging` with a version self-check and capture its output.
    AwaitValidation { temp_dir: String, target: String, staging: String },
    /// Rename `target` to `retire_to`, inside the temporary directory.
    AwaitRetire { target: String, staging: String, retire_to: String },
    /// Rename `target` to `sentinel`, beside itself.
    AwaitSentinelRetire { target: String, staging: String, sentinel: String },
    /// Rename `staging` onto `target`: the activation.
    AwaitActivate { target: String, staging: String },
    /// The update is committed.
    Done,
    /// The attempt failed; the installed binary is whatever the last
    /// completed step left, never a half-written file.
    Failed(UpdateError),
}

/// The mathematical value of an [`UpdateState`].
pub enum StateV {
    AwaitTempDir,
    AwaitStream { temp_dir: Seq<char> },
    AwaitDownload { temp_dir: Seq<char>, archive: Seq<char> },
    AwaitTarget { temp_dir: Seq<char>, archive: Seq<char> },
    AwaitExtract {
        temp_dir: Seq<char>,
        target: Seq<char>,
        staging: Seq<char>,
        archive: Seq<char>,
        contents: Seq<char>,
    },
    AwaitEntries { temp_dir: Seq<char>, target: Seq<char>, staging: Seq<char>, contents: Seq<char> },
    AwaitStaging { temp_dir: Seq<char>, target: Seq<char>, staging: Seq<char>, source: Seq<char> },
    AwaitMetadata { temp_dir: Seq<char>, target: Seq<char>, staging: Seq<char> },
    AwaitValidation { temp_dir: Seq<char>, target: Seq<char>, staging: Seq<char> },
    AwaitRetire { target: Seq<char>, staging: Seq<char>, retire_to: Seq<char> },
    AwaitSentinelRetire { target: Seq<char>, staging: Seq<char>, sentinel: Seq<char> },
    AwaitActivate { target: Seq<char>, staging: Seq<char> },
    Done,
    Failed(UpdateErrorV),
}

impl View for UpdateState {
    type V = StateV;

    open spec fn view(&self) -> StateV {
        match self {
            UpdateState::AwaitTempDir => StateV::AwaitTempDir,
            UpdateState::AwaitStream { temp_dir } => StateV::AwaitStream { temp_dir: temp_dir@ },
            UpdateState::AwaitDownload { temp_dir, archive } => StateV::AwaitDownload {
                temp_dir: temp_dir@,
                archive: archive@,
            },
            UpdateState::AwaitTarget { temp_dir, archive } => StateV::AwaitTarget {
                temp_dir: temp_dir@,
                archive: archive@,
            },
            UpdateState::AwaitExtract { temp_dir, target, staging, archive, contents } => (
            StateV::AwaitExtract {
                temp_dir: temp_dir@,
                target: target@,
                staging: staging@,
                archive: archive@,
                contents: contents@,
            }),
            UpdateState::AwaitEntries { temp_dir, target, staging, contents } => (
            StateV::AwaitEntries {
                temp_dir: temp_dir@,
                target: target@,
                staging: staging@,
                contents: contents@,
            }),
            UpdateState::AwaitStaging { temp_dir, target, staging, source } => (
            StateV::AwaitStaging {
                temp_dir: temp_dir@,
                target: target@,
                staging: staging@,
                source: source@,
            }),
            UpdateState::AwaitMetadata { temp_dir, target, staging } => StateV::AwaitMetadata {
                temp_dir: temp_dir@,
                target: target@,
                staging: staging@,
            },
            UpdateState::AwaitValidation { temp_dir, target, staging } => StateV::AwaitValidation {
                temp_dir: temp_dir@,
                target: target@,
                staging: staging@,
            },
            UpdateState::AwaitRetire { target, staging, retire_to } => StateV::AwaitRetire {
                target: target@,
                staging: staging@,
                retire_to: retire_to@,
            },
            UpdateState::AwaitSentinelRetire { target, staging, sentinel } => (
            StateV::AwaitSentinelRetire {
                target: target@,
                staging: staging@,
                sentinel: sentinel@,
            }),
            UpdateState::AwaitActivate { target, staging } => StateV::AwaitActivate {
                target: target@,
                staging: staging@,
            },
            UpdateState::Done => StateV::Done,
            UpdateState::Failed(e) => StateV::Failed(e@),
        }
    }
}

/// The message of the corrupt-download error raised when the staged binary
/// could not be spawned at all.
pub open spec fn spawn_failure_msg(cause: Seq<char>) -> Seq<char> {
    "could not run the new binary, aborting: "@ + cause
}

/// The message of the corrupt-download error raised when the staged
/// binary's self-check exited nonzero; it carries both captured streams.
pub open spec fn validation_failure_msg(out: Seq<char>, err: Seq<char>) -> Seq<char> {
    "could not run the new binary, aborting. stdout:\n\n"@ + out + "\n\nstderr:\n\n"@ + err
}

/// The message of the corrupt-download error raised when the archive did
/// not hold exactly one entry; it reports the observed count.
pub open spec fn entry_count_msg(n: nat) -> Seq<char> {
    "expected exactly one file in the update, got "@ + dec_str(n)
}

/// What [`validate_cli_is_good`] decides, over values.
pub open spec fn validate_v(out: Result<OutputV, Seq<char>>) -> Result<(), UpdateErrorV> {
    match out {
        Err(c) => Err(UpdateErrorV::CorruptDownload(spawn_failure_msg(c))),
        Ok(o) => if o.success {
            Ok(())
        } else {
            Err(UpdateErrorV::CorruptDownload(validation_failure_msg(o.stdout, o.stderr)))
        },
    }
}

/// Judges the staged binary by what its version self-check reported: the
/// binary is good exactly when it spawned and exited with status zero.
/// Anything else is a corrupt download, and a nonzero exit carries both
/// captured streams in the message.
pub fn validate_cli_is_good(output: Result<ProcessOutput, String>) -> (r: Result<(), UpdateError>)
    ensures
        pass_result_v(r) == validate_v(output_result_v(output)),
{
    match output {
        Err(cause) => {
            let mut m = "could not run the new binary, aborting: ".to_owned();
            m.append(cause.as_str());
            Err(UpdateError::CorruptDownload(m))
        },
        Ok(o) => {
            if o.success {
                Ok(())
            } else {
                let mut m = "could not run the new binary, aborting. stdout:\n\n".to_owned();
                m.append(o.stdout.as_str());
                m.append("\n\nstderr:\n\n");
                m.append(o.stderr.as_str());
                Err(UpdateError::CorruptDownload(m))
            }
        },
    }
}

/// What [`select_archive_entry`] decides, over values.
pub open spec fn select_v(es: Seq<Result<Seq<char>, Seq<char>>>) -> Result<
    Seq<char>,
    UpdateErrorV,
> {
    if es.len() != 1 {
        Err(UpdateErrorV::CorruptDownload(entry_count_msg(es.len())))
    } else {
        match es[0] {
            Ok(p) => Ok(p),
            Err(c) => Err(
                UpdateErrorV::Filesystem {
                    context: "error while reading an update file entry"@,
                    cause: c,
                },
            ),
        }
    }
}

fn fs_error(context: &str, cause: String) -> (e: UpdateError)
    ensures
        e@ == (UpdateErrorV::Filesystem { context: context@, cause: cause@ }),
{
    UpdateError::Filesystem { context: context.to_owned(), cause }
}

/// Picks the one entry the extracted archive must hold. Any other count is
/// a corrupt download whose message reports the observed count; a single
/// entry that could not be read is a filesystem error.
pub fn select_archive_entry(entries: Vec<Result<String, String>>) -> (r: Result<
    String,
    UpdateError,
>)
    ensures
        str_or_error_v(r) == select_v(entries_v(entries@)),
{
    let mut entries = entries;
    if entries.len() != 1 {
        let mut m = "expected exactly one file in the update, got ".to_owned();
        let n = render_usize(entries.len());
        m.append(n.as_str());
        Err(UpdateError::CorruptDownload(m))
    } else {
        match entries.pop() {
            Some(Ok(p)) => Ok(p),
            Some(Err(cause)) => Err(fs_error("error while reading an update file entry", cause)),
            None => {
                proof {
                    assert(false);
                }
                Err(UpdateError::CorruptDownload(String::new()))
            },
        }
    }
}

/// The transition of the update protocol: from the attempt's state and the
/// reported outcome to the next state. An outcome that answers no pending
/// request leaves the attempt where it was.
pub open spec fn step_v(s: StateV, e: EventV) -> StateV {
    match (s, e) {
        (StateV::AwaitTempDir, EventV::TempDirReady(r)) => match r {
            Ok(d) => StateV::AwaitStream { temp_dir: d },
            Err(c) => StateV::Failed(
                UpdateErrorV::Filesystem {
                    context: "failed to create temporary directory"@,
                    cause: c,
                },
            ),
        },
        (StateV::AwaitStream { temp_dir }, EventV::StreamOpened(r)) => match r {
            Ok(name) => StateV::AwaitDownload { temp_dir, archive: joined(temp_dir, name) },
            Err(err) => StateV::Failed(err),
        },
        (StateV::AwaitDownload { temp_dir, archive }, EventV::Downloaded(r)) => match r {
            Ok(_) => StateV::AwaitTarget { temp_dir, archive },
            Err(err) => StateV::Failed(err),
        },
        (StateV::AwaitTarget { temp_dir, archive }, EventV::TargetResolved(r)) => match r {
            Ok(t) => StateV::AwaitExtract {
                temp_dir,
                target: t,
                staging: with_ext(t, staging_ext()),
                archive,
                contents: joined(temp_dir, contents_name()),
            },
            Err(c) => StateV::Failed(
                UpdateErrorV::Filesystem {
                    context: "could not resolve the current executable"@,
                    cause: c,
                },
            ),
        },
        (
            StateV::AwaitExtract { temp_dir, target, staging, archive, contents },
            EventV::Extracted(r),
        ) => match r {
            Ok(_) => StateV::AwaitEntries { temp_dir, target, staging, contents },
            Err(err) => StateV::Failed(err),
        },
        (
            StateV::AwaitEntries { temp_dir, target, staging, contents },
            EventV::EntriesListed(r),
        ) => match r {
            Ok(es) => match select_v(es) {
                Ok(src) => StateV::AwaitStaging { temp_dir, target, staging, source: src },
                Err(err) => StateV::Failed(err),
            },
            Err(c) => StateV::Failed(
                UpdateErrorV::Filesystem {
                    context: "could not read the updated contents"@,
                    cause: c,
                },
            ),
        },
        (StateV::AwaitStaging { temp_dir, target, staging, source }, EventV::Staged(r)) => match r {
            Ok(_) => StateV::AwaitMetadata { temp_dir, target, staging },
            Err(c) => StateV::Failed(
                UpdateErrorV::Filesystem { context: "error copying the staging file"@, cause: c },
            ),
        },
        (StateV::AwaitMetadata { temp_dir, target, staging }, EventV::MetadataCopied(r)) => match r {
            Ok(_) => StateV::AwaitValidation { temp_dir, target, staging },
            Err(c) => StateV::Failed(
                UpdateErrorV::Filesystem { context: "failed to copy file permissions"@, cause: c },
            ),
        },
        (StateV::AwaitValidation { temp_dir, target, staging }, EventV::Validated(out)) => match
        validate_v(out) {
            Ok(_) => StateV::AwaitRetire {
                target,
                staging,
                retire_to: joined(temp_dir, retired_name()),
            },
            Err(err) => StateV::Failed(err),
        },
        (StateV::AwaitRetire { target, staging, retire_to }, EventV::Retired(r)) => match r {
            Ok(_) => StateV::AwaitActivate { target, staging },
            Err(_) => StateV::AwaitSentinelRetire {
                staging,
                sentinel: with_ext(target, sentinel_ext()),
                target,
            },
        },
        (
            StateV::AwaitSentinelRetire { target, staging, sentinel },
            EventV::SentinelRetired(r),
        ) => match r {
            Ok(_) => StateV::AwaitActivate { target, staging },
            Err(c) => StateV::Failed(
                UpdateErrorV::Filesystem { context: "failed to rename the old binary"@, cause: c },
            ),
        },
        (StateV::AwaitActivate { target, staging }, EventV::Activated(r)) => match r {
            Ok(_) => StateV::Done,
            Err(c) => StateV::Failed(
                UpdateErrorV::Filesystem {
                    context: "failed to rename the newly installed binary"@,
                    cause: c,
                },
            ),
        },
        (other, _) => other,
    }
}

/// Advances an update attempt by one reported outcome.
pub fn update_step(s: UpdateState, e: UpdateEvent) -> (r: UpdateState)
    ensures
        r@ == step_v(s@, e@),
{
    match (s, e) {
        (UpdateState::AwaitTempDir, UpdateEvent::TempDirReady(res)) => match res {
            Ok(d) => UpdateState::AwaitStream { temp_dir: d },
            Err(cause) => UpdateState::Failed(
                fs_error("failed to create temporary directory", cause),
            ),
        },
        (UpdateState::AwaitStream { temp_dir }, UpdateEvent::StreamOpened(res)) => match res {
            Ok(name) => {
                let archive = join_path(temp_dir.as_str(), name.as_str());
                UpdateState::AwaitDownload { temp_dir, archive }
            },
            Err(err) => UpdateState::Failed(err),
        },
        (UpdateState::AwaitDownload { temp_dir, archive }, UpdateEvent::Downloaded(res)) => match
        res {
            Ok(_) => UpdateState::AwaitTarget { temp_dir, archive },
            Err(err) => UpdateState::Failed(err),
        },
        (UpdateState::AwaitTarget { temp_dir, archive }, UpdateEvent::TargetResolved(res)) => match
        res {
            Ok(target) => {
                let staging = with_extension(target.as_str(), ".update");
                let contents = join_path(temp_dir.as_str(), "content");
                UpdateState::AwaitExtract { temp_dir, target, staging, archive, contents }
            },
            Err(cause) => UpdateState::Failed(
                fs_error("could not resolve the current executable", cause),
            ),
        },
        (
            UpdateState::AwaitExtract { temp_dir, target, staging, archive: _, contents },
            UpdateEvent::Extracted(res),
        ) => match res {
            Ok(_) => UpdateState::AwaitEntries { temp_dir, target, staging, contents },
            Err(err) => UpdateState::Failed(err),
        },
        (
            UpdateState::AwaitEntries { temp_dir, target, staging, contents: _ },
            UpdateEvent::EntriesListed(res),
        ) => match res {
            Ok(list) => match select_archive_entry(list) {
                Ok(source) => UpdateState::AwaitStaging { temp_dir, target, staging, source },
                Err(err) => UpdateState::Failed(err),
            },
            Err(cause) => UpdateState::Failed(
                fs_error("could not read the updated contents", cause),
            ),
        },
        (
            UpdateState::AwaitStaging { temp_dir, target, staging, source: _ },
            UpdateEvent::Staged(res),
        ) => match res {
            Ok(_) => UpdateState::AwaitMetadata { temp_dir, target, staging },
            Err(cause) => UpdateState::Failed(fs_error("error copying the staging file", cause)),
        },
        (
            UpdateState::AwaitMetadata { temp_dir, target, staging },
            UpdateEvent::MetadataCopied(res),
        ) => match res {
            Ok(_) => UpdateState::AwaitValidation { temp_dir, target, staging },
            Err(cause) => UpdateState::Failed(fs_error("failed to copy file permissions", cause)),
        },
        (
            UpdateState::AwaitValidation { temp_dir, target, staging },
            UpdateEvent::Validated(res),
        ) => match validate_cli_is_good(res) {
            Ok(_) => {
                let retire_to = join_path(temp_dir.as_str(), "old-code-cli");
                UpdateState::AwaitRetire { target, staging, retire_to }
            },
            Err(err) => UpdateState::Failed(err),
        },
        (
            UpdateState::AwaitRetire { target, staging, retire_to: _ },
            UpdateEvent::Retired(res),
        ) => match res {
            Ok(_) => UpdateState::AwaitActivate { target, staging },
            Err(_) => {
                let sentinel = with_extension(target.as_str(), "atualizando cli");
                UpdateState::AwaitSentinelRetire { target, staging, sentinel }
            },
        },
        (
            UpdateState::AwaitSentinelRetire { target, staging, sentinel: _ },
            UpdateEvent::SentinelRetired(res),
        ) => match res {
            Ok(_) => UpdateState::AwaitActivate { target, staging },
            Err(cause) => UpdateState::Failed(fs_error("failed to rename the old binary", cause)),
        },
        (UpdateState::AwaitActivate { target, staging }, UpdateEvent::Activated(res)) => match res {
            Ok(_) => {
                let _ = (target, staging);
                UpdateState::Done
            },
            Err(cause) => UpdateState::Failed(
                fs_error("failed to rename the newly installed binary", cause),
            ),
        },
        (other, _) => other,
    }
}

/// The path where a retired old binary waits for cleanup, beside the
/// installed executable.
pub fn sentinel_path_for(target: &str) -> (r: String)
    ensures
        r@ == with_ext(target@, sentinel_ext()),
{
    with_extension(target, "atualizando cli")
}

/// Decides the result of a cleanup run from what the process outside saw
/// and did: nothing to remove is success, a completed removal is success,
/// and a failed removal surfaces the operating system's message unchanged.
pub fn cleanup_verdict(sentinel_exists: bool, remove_result: Option<Result<(), String>>) -> (r:
    Result<(), String>)
    requires
        sentinel_exists == remove_result is Some,
    ensures
        match remove_result {
            Option::None => r is Ok,
            Option::Some(Result::Ok(_)) => r is Ok,
            Option::Some(Result::Err(c)) => r matches Err(m) && m@ == c@,
        },
{
    match remove_result {
        None => Ok(()),
        Some(Ok(_)) => Ok(()),
        Some(Err(cause)) => Err(cause),
    }
}

/// The resolved identity of the running build.
pub struct SelfUpdate {
    /// The commit this binary was built from.
    pub commit: String,
    /// The release channel this binary belongs to.
    pub quality: Quality,
    /// The platform this binary runs on.
    pub platform: Platform,
}

/// The value of an optional string.
pub open spec fn opt_str_v(o: Option<String>) -> Option<Seq<char>> {
    match o {
        Some(s) => Some(s@),
        None => None,
    }
}

/// How a build's identity resolves from what was baked into it and what the
/// machine reports: each missing or unknown piece has its own distinct
/// cause, in this order of checks.
pub open spec fn resolve_identity(
    commit: Option<Seq<char>>,
    quality: Option<Seq<char>>,
    platform: Option<Platform>,
) -> Result<(Seq<char>, Quality, Platform), ConfigIssue> {
    match commit {
        None => Err(ConfigIssue::MissingCommit),
        Some(c) => match quality {
            None => Err(ConfigIssue::MissingQuality),
            Some(q) => match parse_quality(q) {
                None => Err(ConfigIssue::UnknownQuality),
                Some(ql) => match platform {
                    None => Err(ConfigIssue::UnknownPlatform),
                    Some(p) => Ok((c, ql, p)),
                },
            },
        },
    }
}

impl SelfUpdate {
    /// Resolves the running build's identity. `commit` and `quality` are
    /// what the build carries baked in; `platform` is what detection made
    /// of the machine. All three must be known, or the build cannot
    /// self-update and the distinct cause is reported.
    pub fn new(
        commit: Option<String>,
        quality: Option<String>,
        platform: Option<Platform>,
    ) -> (r: Result<SelfUpdate, UpdateError>)
        ensures
            match r {
                Ok(s) => resolve_identity(opt_str_v(commit), opt_str_v(quality), platform)
                    == Ok::<_, ConfigIssue>((s.commit@, s.quality, s.platform)),
                Err(e) => e@ matches UpdateErrorV::NotConfigured(i) && resolve_identity(
                    opt_str_v(commit),
                    opt_str_v(quality),
                    platform,
                ) == Err::<(Seq<char>, Quality, Platform), _>(i),
            },
    {
        let commit = match commit {
            Some(c) => c,
            None => {
                return Err(UpdateError::NotConfigured(ConfigIssue::MissingCommit));
            },
        };
        let quality = match quality {
            Some(q) => q,
            None => {
                return Err(UpdateError::NotConfigured(ConfigIssue::MissingQuality));
            },
        };
        let quality = match Quality::parse(quality.as_str()) {
            Some(q) => q,
            None => {
                return Err(UpdateError::NotConfigured(ConfigIssue::UnknownQuality));
            },
        };
        let platform = match platform {
            Some(p) => p,
            None => {
                return Err(UpdateError::NotConfigured(ConfigIssue::UnknownPlatform));
            },
        };
        Ok(SelfUpdate { commit, quality, platform })
    }

    /// Whether the running build already is the given release: true exactly
    /// when the release's commit equals the build's own.
    pub fn is_up_to_date_with(&self, release: &Release) -> (r: bool)
        ensures
            r == (release.commit@ == self.commit@),
    {
        release.commit == self.commit
    }
}

} // verus!
