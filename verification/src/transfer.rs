//! The upload over the secure protocol: connection, authentication, and
//! the chunked stream of the document with its progress events.

use crate::ftp::{UPLOAD_AUTH_FAILED, UPLOAD_CANCELLED};
use crate::response::{percent_of, ExportProgress};
use vstd::prelude::*;

verus! {

/// The number of bytes that are read and sent at a time.
pub const CHUNK_SIZE: usize = 8192;

/// What an upload waits for.
#[derive(Clone, Copy, Debug, PartialEq, Eq, Structural)]
pub enum SftpPending {
    /// The connection and the handshake.
    Connect,
    /// Authentication with the keys of the agent.
    AgentAuth,
    /// Authentication with the stored password.
    PasswordAuth,
    /// The remote file and the local file, opened.
    Open,
    /// The next chunk of the local file.
    Read,
    /// The chunk that was read, written to the remote file.
    Write,
}

/// What came back from outside.
#[derive(Debug)]
pub enum SftpEvent {
    /// The connection stands, or why it does not.
    Connected(Result<(), String>),
    /// Whether the session is authenticated after the agent was tried.
    AgentTried(bool),
    /// Whether the session is authenticated after the password was tried,
    /// or why the attempt failed.
    PasswordTried(Result<bool, String>),
    /// Both files are open, or why they are not.
    Opened(Result<(), String>),
    /// The number of bytes that were read, 0 at the end of the file.
    Read(Result<usize, String>),
    /// The chunk is written, or why it is not.
    Written(Result<(), String>),
}

/// An event, as text.
pub enum SftpEventView {
    Connected(Result<(), Seq<char>>),
    AgentTried(bool),
    PasswordTried(Result<bool, Seq<char>>),
    Opened(Result<(), Seq<char>>),
    Read(Result<usize, Seq<char>>),
    Written(Result<(), Seq<char>>),
}

impl View for SftpEvent {
    type V = SftpEventView;

    open spec fn view(&self) -> SftpEventView {
        match self {
            SftpEvent::Connected(Ok(_)) => SftpEventView::Connected(Ok(())),
            SftpEvent::Connected(Err(e)) => SftpEventView::Connected(Err(e@)),
            SftpEvent::AgentTried(a) => SftpEventView::AgentTried(*a),
            SftpEvent::PasswordTried(Ok(a)) => SftpEventView::PasswordTried(Ok(*a)),
            SftpEvent::PasswordTried(Err(e)) => SftpEventView::PasswordTried(Err(e@)),
            SftpEvent::Opened(Ok(_)) => SftpEventView::Opened(Ok(())),
            SftpEvent::Opened(Err(e)) => SftpEventView::Opened(Err(e@)),
            SftpEvent::Read(Ok(n)) => SftpEventView::Read(Ok(*n)),
            SftpEvent::Read(Err(e)) => SftpEventView::Read(Err(e@)),
            SftpEvent::Written(Ok(_)) => SftpEventView::Written(Ok(())),
            SftpEvent::Written(Err(e)) => SftpEventView::Written(Err(e@)),
        }
    }
}

/// An upload that waits for something from outside.
#[derive(Debug)]
pub struct SftpUpload {
    pub pending: SftpPending,
    pub job_id: String,
    pub has_password: bool,
    pub chunk_len: usize,
    pub sent_bytes: u64,
    pub total_bytes: u64,
}

/// A waiting upload, as text.
pub struct SftpUploadView {
    pub pending: SftpPending,
    pub job_id: Seq<char>,
    pub has_password: bool,
    pub chunk_len: usize,
    pub sent_bytes: u64,
    pub total_bytes: u64,
}

impl View for SftpUpload {
    type V = SftpUploadView;

    open spec fn view(&self) -> SftpUploadView {
        SftpUploadView {
            pending: self.pending,
            job_id: self.job_id@,
            has_password: self.has_password,
            chunk_len: self.chunk_len,
            sent_bytes: self.sent_bytes,
            total_bytes: self.total_bytes,
        }
    }
}

/// A progress event, as text.
pub struct ProgressView {
    pub job_id: Seq<char>,
    pub sent_bytes: u64,
    pub total_bytes: u64,
}

impl View for ExportProgress {
    type V = ProgressView;

    open spec fn view(&self) -> ProgressView {
        ProgressView {
            job_id: self.job_id@,
            sent_bytes: self.sent_bytes,
            total_bytes: self.total_bytes,
        }
    }
}

/// How an upload goes on.
#[derive(Debug)]
pub enum SftpNext {
    Run(SftpUpload),
    Done(Result<(), String>),
}

/// How an upload goes on, as text.
pub enum SftpNextView {
    Run(SftpUploadView),
    Done(Result<(), Seq<char>>),
}

impl View for SftpNext {
    type V = SftpNextView;

    open spec fn view(&self) -> SftpNextView {
        match self {
            SftpNext::Run(u) => SftpNextView::Run(u@),
            SftpNext::Done(Ok(_)) => SftpNextView::Done(Ok(())),
            SftpNext::Done(Err(e)) => SftpNextView::Done(Err(e@)),
        }
    }
}

/// A step of an upload: the progress event to emit, if any, and how the
/// upload goes on.
#[derive(Debug)]
pub struct SftpStep {
    pub progress: Option<ExportProgress>,
    pub next: SftpNext,
}

/// A step, as text.
pub struct SftpStepView {
    pub progress: Option<ProgressView>,
    pub next: SftpNextView,
}

impl View for SftpStep {
    type V = SftpStepView;

    open spec fn view(&self) -> SftpStepView {
        SftpStepView {
            progress: match self.progress {
                Some(p) => Some(p@),
                None => None,
            },
            next: self.next@,
        }
    }
}

/// The upload of a document of `total_bytes` bytes, before anything is
/// done.
pub open spec fn sftp_begin(job_id: Seq<char>, has_password: bool, total_bytes: u64)
    -> SftpUploadView {
    SftpUploadView {
        pending: SftpPending::Connect,
        job_id,
        has_password,
        chunk_len: 0,
        sent_bytes: 0,
        total_bytes,
    }
}

/// The bytes sent after `n` more, held at the largest number where the sum
/// is beyond it.
pub open spec fn sent_after(sent: u64, n: usize) -> u64 {
    if sent + n > u64::MAX {
        u64::MAX
    } else {
        (sent + n) as u64
    }
}

/// A step without a progress event.
pub open spec fn quiet(next: SftpNextView) -> SftpStepView {
    SftpStepView { progress: None, next }
}

/// What an event means for the upload. The cancellation flag is looked at
/// before each read. An event that the upload does not wait for changes
/// nothing.
pub open spec fn sftp_advance(u: SftpUploadView, event: SftpEventView, cancelled: bool)
    -> SftpStepView {
    match (u.pending, event) {
        (SftpPending::Connect, SftpEventView::Connected(Ok(_))) => quiet(
            SftpNextView::Run(SftpUploadView { pending: SftpPending::AgentAuth, ..u }),
        ),
        (SftpPending::Connect, SftpEventView::Connected(Err(e))) => quiet(
            SftpNextView::Done(Err(e)),
        ),
        (SftpPending::AgentAuth, SftpEventView::AgentTried(authenticated)) => if authenticated {
            quiet(SftpNextView::Run(SftpUploadView { pending: SftpPending::Open, ..u }))
        } else if u.has_password {
            quiet(SftpNextView::Run(SftpUploadView { pending: SftpPending::PasswordAuth, ..u }))
        } else {
            quiet(SftpNextView::Done(Err(UPLOAD_AUTH_FAILED@)))
        },
        (SftpPending::PasswordAuth, SftpEventView::PasswordTried(Ok(authenticated))) => if authenticated {
            quiet(SftpNextView::Run(SftpUploadView { pending: SftpPending::Open, ..u }))
        } else {
            quiet(SftpNextView::Done(Err(UPLOAD_AUTH_FAILED@)))
        },
        (SftpPending::PasswordAuth, SftpEventView::PasswordTried(Err(e))) => quiet(
            SftpNextView::Done(Err(e)),
        ),
        (SftpPending::Open, SftpEventView::Opened(Ok(_))) => if cancelled {
            quiet(SftpNextView::Done(Err(UPLOAD_CANCELLED@)))
        } else {
            quiet(SftpNextView::Run(SftpUploadView { pending: SftpPending::Read, ..u }))
        },
        (SftpPending::Open, SftpEventView::Opened(Err(e))) => quiet(SftpNextView::Done(Err(e))),
        (SftpPending::Read, SftpEventView::Read(Ok(n))) => if n == 0 {
            quiet(SftpNextView::Done(Ok(())))
        } else {
            quiet(
                SftpNextView::Run(
                    SftpUploadView { pending: SftpPending::Write, chunk_len: n, ..u },
                ),
            )
        },
        (SftpPending::Read, SftpEventView::Read(Err(e))) => quiet(SftpNextView::Done(Err(e))),
        (SftpPending::Write, SftpEventView::Written(Ok(_))) => {
            let sent = sent_after(u.sent_bytes, u.chunk_len);
            SftpStepView {
                progress: Some(
                    ProgressView {
                        job_id: u.job_id,
                        sent_bytes: sent,
                        total_bytes: u.total_bytes,
                    },
                ),
                next: if cancelled {
                    SftpNextView::Done(Err(UPLOAD_CANCELLED@))
                } else {
                    SftpNextView::Run(
                        SftpUploadView { pending: SftpPending::Read, sent_bytes: sent, ..u },
                    )
                },
            }
        },
        (SftpPending::Write, SftpEventView::Written(Err(e))) => quiet(SftpNextView::Done(Err(e))),
        _ => quiet(SftpNextView::Run(u)),
    }
}

/// Begins the upload of a document of `total_bytes` bytes for the job
/// `job_id`. `has_password` says whether a stored password can be tried
/// where the agent does not authenticate.
pub fn upload_sftp(job_id: &str, has_password: bool, total_bytes: u64) -> (u: SftpUpload)
    ensures
        u@ == sftp_begin(job_id@, has_password, total_bytes),
{
    SftpUpload {
        pending: SftpPending::Connect,
        job_id: String::from_str(job_id),
        has_password,
        chunk_len: 0,
        sent_bytes: 0,
        total_bytes,
    }
}

fn go_on(next: SftpNext) -> (step: SftpStep)
    ensures
        step@ == quiet(next@),
{
    SftpStep { progress: None, next }
}

fn fail(reason: &str) -> (step: SftpStep)
    ensures
        step@ == quiet(SftpNextView::Done(Err(reason@))),
{
    SftpStep { progress: None, next: SftpNext::Done(Err(String::from_str(reason))) }
}

impl SftpUpload {
    /// Takes an event from outside and says how the upload goes on.
    /// `cancelled` is the cancellation flag as it stands now.
    pub fn advance(self, event: SftpEvent, cancelled: bool) -> (step: SftpStep)
        ensures
            step@ == sftp_advance(self@, event@, cancelled),
    {
        match (self.pending, event) {
            (SftpPending::Connect, SftpEvent::Connected(Ok(_))) => go_on(
                SftpNext::Run(SftpUpload { pending: SftpPending::AgentAuth, ..self }),
            ),
            (SftpPending::Connect, SftpEvent::Connected(Err(e))) => go_on(SftpNext::Done(Err(e))),
            (SftpPending::AgentAuth, SftpEvent::AgentTried(authenticated)) => {
                if authenticated {
                    go_on(SftpNext::Run(SftpUpload { pending: SftpPending::Open, ..self }))
                } else if self.has_password {
                    go_on(
                        SftpNext::Run(SftpUpload { pending: SftpPending::PasswordAuth, ..self }),
                    )
                } else {
                    fail(UPLOAD_AUTH_FAILED)
                }
            },
            (SftpPending::PasswordAuth, SftpEvent::PasswordTried(Ok(authenticated))) => {
                if authenticated {
                    go_on(SftpNext::Run(SftpUpload { pending: SftpPending::Open, ..self }))
                } else {
                    fail(UPLOAD_AUTH_FAILED)
                }
            },
            (SftpPending::PasswordAuth, SftpEvent::PasswordTried(Err(e))) => go_on(
                SftpNext::Done(Err(e)),
            ),
            (SftpPending::Open, SftpEvent::Opened(Ok(_))) => {
                if cancelled {
                    fail(UPLOAD_CANCELLED)
                } else {
                    go_on(SftpNext::Run(SftpUpload { pending: SftpPending::Read, ..self }))
                }
            },
            (SftpPending::Open, SftpEvent::Opened(Err(e))) => go_on(SftpNext::Done(Err(e))),
            (SftpPending::Read, SftpEvent::Read(Ok(n))) => {
                if n == 0 {
                    go_on(SftpNext::Done(Ok(())))
                } else {
                    go_on(
                        SftpNext::Run(
                            SftpUpload { pending: SftpPending::Write, chunk_len: n, ..self },
                        ),
                    )
                }
            },
            (SftpPending::Read, SftpEvent::Read(Err(e))) => go_on(SftpNext::Done(Err(e))),
            (SftpPending::Write, SftpEvent::Written(Ok(_))) => {
                let sent: u64 = self.sent_bytes.saturating_add(self.chunk_len as u64);
                let progress = ExportProgress {
                    job_id: self.job_id.clone(),
                    sent_bytes: sent,
                    total_bytes: self.total_bytes,
                };
                let next = if cancelled {
                    SftpNext::Done(Err(String::from_str(UPLOAD_CANCELLED)))
                } else {
                    SftpNext::Run(
                        SftpUpload { pending: SftpPending::Read, sent_bytes: sent, ..self },
                    )
                };
                SftpStep { progress: Some(progress), next }
            },
            (SftpPending::Write, SftpEvent::Written(Err(e))) => go_on(SftpNext::Done(Err(e))),
            (_, _) => go_on(SftpNext::Run(self)),
        }
    }
}

/// A progress event is emitted only for a chunk that was written, and
/// once for each. It holds the job and the total of the upload, and never
/// fewer bytes than were sent before; it holds more where the chunk was
/// not empty and the count has room. The upload goes on from the count of
/// its last event.
pub proof fn lemma_progress_steps(u: SftpUploadView, event: SftpEventView, cancelled: bool)
    ensures
        match sftp_advance(u, event, cancelled).progress {
            Some(p) => {
                &&& u.pending == SftpPending::Write
                &&& event is Written && event->Written_0 is Ok
                &&& p.job_id == u.job_id
                &&& p.total_bytes == u.total_bytes
                &&& p.sent_bytes >= u.sent_bytes
                &&& u.chunk_len > 0 && u.sent_bytes < u64::MAX ==> p.sent_bytes > u.sent_bytes
                &&& match sftp_advance(u, event, cancelled).next {
                    SftpNextView::Run(next) => next.sent_bytes == p.sent_bytes,
                    SftpNextView::Done(_) => cancelled,
                }
            },
            None => match sftp_advance(u, event, cancelled).next {
                SftpNextView::Run(next) => next.sent_bytes == u.sent_bytes,
                SftpNextView::Done(_) => true,
            },
        },
{
}

/// The sizes of the chunks into which a document of `n` bytes is split:
/// `c` bytes each, and what is left for the last.
pub open spec fn chunk_sizes(n: nat, c: nat) -> Seq<nat>
    decreases n,
{
    if n == 0 || c == 0 {
        Seq::empty()
    } else if n <= c {
        seq![n]
    } else {
        seq![c] + chunk_sizes((n - c) as nat, c)
    }
}

/// The number of chunks of `c` bytes that hold `n` bytes: `n / c`, rounded
/// up.
pub open spec fn chunk_count(n: nat, c: nat) -> nat {
    if c == 0 {
        0
    } else {
        ((n + c - 1) / (c as int)) as nat
    }
}

/// The progress events of a transfer that is not cancelled and in which
/// each read gives the next of `reads` bytes and each write succeeds.
pub open spec fn progress_trail(u: SftpUploadView, reads: Seq<nat>) -> Seq<ProgressView>
    decreases reads.len(),
{
    if reads.len() == 0 {
        Seq::empty()
    } else {
        let read = sftp_advance(u, SftpEventView::Read(Ok(reads[0] as usize)), false);
        match read.next {
            SftpNextView::Run(w) => {
                let written = sftp_advance(w, SftpEventView::Written(Ok(())), false);
                let emitted = match written.progress {
                    Some(p) => seq![p],
                    None => Seq::empty(),
                };
                match written.next {
                    SftpNextView::Run(r) => emitted + progress_trail(r, reads.drop_first()),
                    SftpNextView::Done(_) => emitted,
                }
            },
            SftpNextView::Done(_) => Seq::empty(),
        }
    }
}

/// The bytes that a sequence of reads gives in all.
pub open spec fn total_read(reads: Seq<nat>) -> nat
    decreases reads.len(),
{
    if reads.len() == 0 {
        0
    } else {
        reads[0] + total_read(reads.drop_first())
    }
}

/// The whole percents that a progress event shows.
pub open spec fn percent_shown(p: ProgressView) -> nat {
    percent_of(p.sent_bytes as nat, p.total_bytes as nat)
}

/// A transfer that is not cancelled emits one progress event for each
/// read that is not empty, whatever the sizes of the reads. Each event
/// holds the total and the job, and as sent the bytes of all reads so far;
/// so the bytes sent grow from each event to the next, and the last event
/// holds the bytes of all reads.
pub proof fn lemma_progress_of_reads(u: SftpUploadView, reads: Seq<nat>)
    requires
        u.pending == SftpPending::Read,
        forall|i: int| 0 <= i < reads.len() ==> 0 < #[trigger] reads[i] <= usize::MAX,
        u.sent_bytes + total_read(reads) <= u64::MAX,
    ensures
        ({
            let t = progress_trail(u, reads);
            &&& t.len() == reads.len()
            &&& forall|i: int|
                0 <= i < t.len() ==> (#[trigger] t[i]).total_bytes == u.total_bytes && t[i].job_id
                    == u.job_id && t[i].sent_bytes == u.sent_bytes + total_read(
                    reads.take(i + 1),
                ) && u.sent_bytes < t[i].sent_bytes <= u.sent_bytes + total_read(reads)
            &&& forall|i: int, j: int|
                0 <= i < j < t.len() ==> (#[trigger] t[i]).sent_bytes < (
                #[trigger] t[j]).sent_bytes
            &&& t.len() > 0 ==> t.last().sent_bytes == u.sent_bytes + total_read(reads)
        }),
    decreases reads.len(),
{
    let t = progress_trail(u, reads);
    if reads.len() > 0 {
        let first = reads[0];
        let rest = reads.drop_first();
        let w = SftpUploadView { pending: SftpPending::Write, chunk_len: first as usize, ..u };
        let sent = (u.sent_bytes + first) as u64;
        let p = ProgressView { job_id: u.job_id, sent_bytes: sent, total_bytes: u.total_bytes };
        let r = SftpUploadView { pending: SftpPending::Read, sent_bytes: sent, ..w };
        assert(sftp_advance(u, SftpEventView::Read(Ok(first as usize)), false).next
            == SftpNextView::Run(w));
        assert(sftp_advance(w, SftpEventView::Written(Ok(())), false) == SftpStepView {
            progress: Some(p),
            next: SftpNextView::Run(r),
        });
        let tail = progress_trail(r, rest);
        assert(t == seq![p] + tail);
        assert forall|i: int| 0 <= i < rest.len() implies 0 < #[trigger] rest[i]
            <= usize::MAX by {
            assert(rest[i] == reads[i + 1]);
        }
        lemma_progress_of_reads(r, rest);
        assert(reads.take(1).drop_first() =~= Seq::<nat>::empty());
        assert(total_read(Seq::<nat>::empty()) == 0);
        assert(reads.take(1)[0] == first);
        assert(total_read(reads.take(1)) == first);
        assert forall|i: int| 0 <= i < t.len() implies (#[trigger] t[i]).total_bytes
            == u.total_bytes && t[i].job_id == u.job_id && t[i].sent_bytes == u.sent_bytes
            + total_read(reads.take(i + 1)) && u.sent_bytes < t[i].sent_bytes <= u.sent_bytes
            + total_read(reads) by {
            if i > 0 {
                assert(t[i] == tail[i - 1]);
                assert(reads.take(i + 1).drop_first() =~= rest.take(i));
                assert(reads.take(i + 1)[0] == first);
            }
        }
        assert forall|i: int, j: int| 0 <= i < j < t.len() implies (#[trigger] t[i]).sent_bytes
            < (#[trigger] t[j]).sent_bytes by {
            assert(t[j] == tail[j - 1]);
            if i > 0 {
                assert(t[i] == tail[i - 1]);
            }
        }
        if tail.len() > 0 {
            assert(t.last() == tail.last());
        } else {
            assert(rest.len() == 0);
            assert(t.last() == p);
        }
    }
}

/// The whole percents of a share grow with the share, are 100 for the
/// whole, and are 0 where the whole is nothing.
pub proof fn lemma_percent_of(a: nat, b: nat, total: nat)
    ensures
        a <= b ==> percent_of(a, total) <= percent_of(b, total),
        total > 0 ==> percent_of(total, total) == 100,
        a <= total ==> percent_of(a, total) <= 100,
        percent_of(a, 0) == 0,
{
    if total > 0 {
        if a <= b {
            assert((a * 100) / total <= (b * 100) / total) by (nonlinear_arith)
                requires
                    a <= b,
                    total > 0,
            ;
        }
        assert((total * 100) / total == 100) by (nonlinear_arith)
            requires
                total > 0,
        ;
        if a <= total {
            assert((a * 100) / total <= (total * 100) / total) by (nonlinear_arith)
                requires
                    a <= total,
                    total > 0,
            ;
        }
    }
}

/// What the progress events of a transfer show in whole percents, where
/// the reads give the document to its end: the percents never fall from
/// one event to the next, none is above 100, and the last event shows 100.
/// Whole percents are rounded down, so two events of a large document may
/// show the same.
pub proof fn lemma_percent_across_events(u: SftpUploadView, reads: Seq<nat>)
    requires
        u.pending == SftpPending::Read,
        forall|i: int| 0 <= i < reads.len() ==> 0 < #[trigger] reads[i] <= usize::MAX,
        u.sent_bytes + total_read(reads) == u.total_bytes,
    ensures
        ({
            let t = progress_trail(u, reads);
            &&& forall|i: int| 0 <= i < t.len() ==> percent_shown(#[trigger] t[i]) <= 100
            &&& forall|i: int, j: int|
                0 <= i < j < t.len() ==> percent_shown(#[trigger] t[i]) <= percent_shown(
                    #[trigger] t[j],
                )
            &&& t.len() > 0 ==> percent_shown(t.last()) == 100
        }),
{
    lemma_progress_of_reads(u, reads);
    let t = progress_trail(u, reads);
    let total = u.total_bytes as nat;
    assert forall|i: int| 0 <= i < t.len() implies percent_shown(#[trigger] t[i]) <= 100 by {
        lemma_percent_of(t[i].sent_bytes as nat, t[i].sent_bytes as nat, total);
    }
    assert forall|i: int, j: int| 0 <= i < j < t.len() implies percent_shown(#[trigger] t[i])
        <= percent_shown(#[trigger] t[j]) by {
        lemma_percent_of(t[i].sent_bytes as nat, t[j].sent_bytes as nat, total);
    }
    if t.len() > 0 {
        lemma_percent_of(total, total, total);
    }
}

proof fn lemma_chunk_count(n: nat, c: nat)
    requires
        c > 0,
    ensures
        n == 0 ==> chunk_count(n, c) == 0,
        0 < n <= c ==> chunk_count(n, c) == 1,
        n > c ==> chunk_count(n, c) == 1 + chunk_count((n - c) as nat, c),
{
    let ci = c as int;
    if n == 0 {
        assert((n + c - 1) / ci == 0) by (nonlinear_arith)
            requires
                n == 0,
                c > 0,
                ci == c,
        ;
    } else if n <= c {
        assert((n + c - 1) / ci == 1) by (nonlinear_arith)
            requires
                0 < n <= c,
                ci == c,
        ;
    } else {
        assert((n + c - 1) / ci == 1 + (n - c + c - 1) / ci) by (nonlinear_arith)
            requires
                n > c,
                c > 0,
                ci == c,
        ;
    }
}

/// A document of `n` bytes splits into `n / c`, rounded up, chunks, none
/// of them empty and none above `c` bytes, that hold `n` bytes in all.
pub proof fn lemma_chunk_sizes(n: nat, c: nat)
    requires
        c > 0,
    ensures
        chunk_sizes(n, c).len() == chunk_count(n, c),
        forall|i: int| 0 <= i < chunk_sizes(n, c).len() ==> 0 < #[trigger] chunk_sizes(n, c)[i] <= c,
        total_read(chunk_sizes(n, c)) == n,
    decreases n,
{
    lemma_chunk_count(n, c);
    let reads = chunk_sizes(n, c);
    if n == 0 {
    } else if n <= c {
        assert(reads.drop_first() =~= Seq::<nat>::empty());
        assert(total_read(reads.drop_first()) == 0);
    } else {
        let rest = chunk_sizes((n - c) as nat, c);
        lemma_chunk_sizes((n - c) as nat, c);
        assert(reads.drop_first() =~= rest);
        assert forall|i: int| 0 <= i < reads.len() implies 0 < #[trigger] reads[i] <= c by {
            if i > 0 {
                assert(reads[i] == rest[i - 1]);
            }
        }
    }
}

/// A transfer that is not cancelled and reads a document of `total` bytes
/// in chunks of `chunk` bytes emits one progress event for each chunk,
/// `total / chunk` rounded up in all. Each event holds the total and the
/// job; the bytes sent grow from each event to the next, and so does the
/// share of the total that they make; the last event holds the total as
/// sent.
pub proof fn lemma_transfer_progress(
    job_id: Seq<char>,
    has_password: bool,
    total: u64,
    chunk: usize,
)
    requires
        chunk > 0,
    ensures
        ({
            let start = SftpUploadView {
                pending: SftpPending::Read,
                ..sftp_begin(job_id, has_password, total)
            };
            let t = progress_trail(start, chunk_sizes(total as nat, chunk as nat));
            &&& t.len() == chunk_count(total as nat, chunk as nat)
            &&& forall|i: int|
                0 <= i < t.len() ==> (#[trigger] t[i]).total_bytes == total && t[i].job_id
                    == job_id && 0 < t[i].sent_bytes <= total
            &&& forall|i: int, j: int|
                0 <= i < j < t.len() ==> (#[trigger] t[i]).sent_bytes < (
                #[trigger] t[j]).sent_bytes
            &&& forall|i: int, j: int|
                0 <= i < j < t.len() ==> (#[trigger] t[i]).sent_bytes * 100 * t[j].total_bytes < (
                #[trigger] t[j]).sent_bytes * 100 * t[i].total_bytes
            &&& total > 0 ==> t.len() > 0 && t.last().sent_bytes == total
        }),
{
    let start = SftpUploadView {
        pending: SftpPending::Read,
        ..sftp_begin(job_id, has_password, total)
    };
    let reads = chunk_sizes(total as nat, chunk as nat);
    lemma_chunk_sizes(total as nat, chunk as nat);
    lemma_chunk_count(total as nat, chunk as nat);
    lemma_progress_of_reads(start, reads);
    let t = progress_trail(start, reads);
    assert forall|i: int, j: int| 0 <= i < j < t.len() implies (#[trigger] t[i]).sent_bytes * 100
        * t[j].total_bytes < (#[trigger] t[j]).sent_bytes * 100 * t[i].total_bytes by {
        let a = t[i].sent_bytes as int;
        let b = t[j].sent_bytes as int;
        let n = total as int;
        assert(t[i].total_bytes == total && t[j].total_bytes == total);
        assert(a < b);
        assert(n > 0);
        assert(a * 100 * n < b * 100 * n) by (nonlinear_arith)
            requires
                a < b,
                n > 0,
        ;
    }
}

} // verus!
