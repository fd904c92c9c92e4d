use vstd::prelude::*;
use crate::paths::{file_name, file_name_of};
use crate::text::{decimal, decimal_string, parse_u64, parsed_u64};

verus! {

/// How many transfers run at once; the rest wait for a slot.
pub const MAX_IN_FLIGHT: usize = 4;

/// Why one artifact did not arrive whole.
#[derive(PartialEq, Eq, Structural, Clone, Copy, Debug)]
pub enum DownloadError {
    /// The request or the response stream failed.
    Network,
    /// The destination file could not be opened or written.
    Filesystem,
    /// The server sent more bytes than the artifact's expected size.
    Overrun,
    /// The transfer ended before the expected size was reached.
    Incomplete,
    /// The file already on disk is larger than the artifact.
    Oversized,
}

/// Reads the expected size of an artifact from its size probe: the
/// `Content-Length` of a successful response, read as a decimal number, and
/// unknown otherwise.
pub fn probe_size(success: bool, content_length: Option<&str>) -> (r: Option<u64>)
    ensures
        success && content_length is Some ==> r == parsed_u64(content_length->0@),
        !(success && content_length is Some) ==> r is None,
{
    match content_length {
        Some(v) if success => parse_u64(v),
        _ => None,
    }
}

/// The `Range` header value that asks for everything from `offset` on.
pub open spec fn range_from(offset: nat) -> Seq<char> {
    "bytes="@ + decimal(offset) + "-"@
}

/// One artifact being fetched into a file that may already hold its first bytes.
pub struct DownloadTask {
    /// Where the artifact is fetched from.
    pub url: String,
    /// The file it is written to, inside the staging directory.
    pub file_name: String,
    /// Bytes that were on disk before this transfer began.
    pub offset: u64,
    /// Bytes appended by this transfer.
    pub received: u64,
    /// The artifact's size, when the probe gave one.
    pub total: Option<u64>,
    /// The first failure met, if any.
    pub failure: Option<DownloadError>,
    /// The bytes appended by this transfer.
    pub appended: Ghost<Seq<u8>>,
}

impl DownloadTask {
    /// The task's own invariant: the appended bytes are counted, the file's size
    /// fits in 64 bits, and a task that has not failed never holds more bytes
    /// than the artifact's expected size.
    pub open spec fn wf(&self) -> bool {
        &&& self.appended@.len() == self.received
        &&& self.offset + self.received <= u64::MAX
        &&& (self.failure is None && self.total is Some) ==> self.offset + self.received
            <= self.total->0
    }

    /// Whether `n` more bytes keep the file within the artifact's size.
    pub open spec fn fits(&self, n: nat) -> bool {
        self.offset + self.received + n <= match self.total {
            Some(t) => t as int,
            None => u64::MAX as int,
        }
    }

    /// How the transfer ended: the first failure, or a file short of (or past)
    /// the expected size, or the file's final size.
    pub open spec fn outcome_of(&self) -> Result<u64, DownloadError> {
        match self.failure {
            Some(e) => Err(e),
            None => match self.total {
                Some(t) if self.offset + self.received != t => Err(DownloadError::Incomplete),
                _ => Ok((self.offset + self.received) as u64),
            },
        }
    }

    /// The task once it has been handed the chunk `c`: a failed task is left
    /// as it is, a chunk that fits is appended, and one that does not fails the
    /// task.
    pub open spec fn after_chunk(self, c: Seq<u8>) -> DownloadTask {
        if self.failure is Some {
            self
        } else if self.fits(c.len()) {
            DownloadTask {
                url: self.url,
                file_name: self.file_name,
                offset: self.offset,
                received: (self.received + c.len()) as u64,
                total: self.total,
                failure: self.failure,
                appended: Ghost(self.appended@ + c),
            }
        } else {
            DownloadTask {
                url: self.url,
                file_name: self.file_name,
                offset: self.offset,
                received: self.received,
                total: self.total,
                failure: Some(DownloadError::Overrun),
                appended: self.appended,
            }
        }
    }

    /// Starts a task for the artifact at `url`, resuming after the `existing`
    /// bytes of a file already on disk, towards a `total` size when one is known.
    pub fn new(url: &str, existing: Option<u64>, total: Option<u64>) -> (t: DownloadTask)
        ensures
            t.wf(),
            t.url@ == url@,
            t.file_name@ == file_name_of(url@),
            t.offset == match existing {
                Some(n) => n,
                None => 0,
            },
            t.received == 0,
            t.appended@ == Seq::<u8>::empty(),
            t.total == total,
            t.failure == (match total {
                Some(n) if t.offset > n => Some(DownloadError::Oversized),
                _ => None,
            }),
    {
        let offset = match existing {
            Some(n) => n,
            None => 0,
        };
        let failure = match total {
            Some(n) if offset > n => Some(DownloadError::Oversized),
            _ => None,
        };
        DownloadTask {
            url: String::from_str(url),
            file_name: file_name(url),
            offset,
            received: 0,
            total,
            failure,
            appended: Ghost(Seq::empty()),
        }
    }

    /// Whether a request is still to be sent: the task has not failed and the
    /// file is not known to be whole already.
    pub fn needs_request(&self) -> (r: bool)
        ensures
            r == (self.failure is None && match self.total {
                Some(t) => self.offset < t,
                None => true,
            }),
    {
        if self.failure.is_some() {
            return false;
        }
        match self.total {
            Some(t) => self.offset < t,
            None => true,
        }
    }

    /// The `Range` header that resumes the transfer exactly where the file on
    /// disk ends; none when there is nothing on disk.
    pub fn range_header(&self) -> (r: Option<String>)
        ensures
            self.offset == 0 ==> r is None,
            self.offset > 0 ==> (r matches Some(h) && h@ == range_from(self.offset as nat)),
    {
        if self.offset == 0 {
            return None;
        }
        let mut h = String::from_str("bytes=");
        let d = decimal_string(self.offset);
        h.append(d.as_str());
        h.append("-");
        Some(h)
    }

    /// Takes one chunk of the response before it is written. A chunk that
    /// would carry the file past the artifact's size is refused and fails the
    /// task; a task that has failed refuses every chunk.
    pub fn accept_chunk(&mut self, chunk: &Vec<u8>) -> (r: Result<(), DownloadError>)
        requires
            old(self).wf(),
        ensures
            final(self).wf(),
            *final(self) == old(self).after_chunk(chunk@),
            final(self).url == old(self).url,
            final(self).file_name == old(self).file_name,
            final(self).offset == old(self).offset,
            final(self).total == old(self).total,
            old(self).failure matches Some(e) ==> r == Err::<(), DownloadError>(e) && *final(self)
                == *old(self),
            old(self).failure is None && old(self).fits(chunk@.len()) ==> {
                &&& r is Ok
                &&& final(self).failure is None
                &&& final(self).received == old(self).received + chunk@.len()
                &&& final(self).appended@ == old(self).appended@ + chunk@
            },
            old(self).failure is None && !old(self).fits(chunk@.len()) ==> {
                &&& r == Err::<(), DownloadError>(DownloadError::Overrun)
                &&& final(self).failure == Some(DownloadError::Overrun)
                &&& final(self).received == old(self).received
                &&& final(self).appended@ == old(self).appended@
            },
    {
        if let Some(e) = self.failure {
            return Err(e);
        }
        let limit: u64 = match self.total {
            Some(t) => t,
            None => u64::MAX,
        };
        let size = self.offset + self.received;
        let n = chunk.len();
        if n as u64 > limit - size {
            self.failure = Some(DownloadError::Overrun);
            return Err(DownloadError::Overrun);
        }
        self.received = self.received + n as u64;
        self.appended = Ghost(self.appended@ + chunk@);
        Ok(())
    }

    /// Records a failure of the request, the stream or the file; the first
    /// failure recorded is the one that is kept.
    pub fn fail(&mut self, e: DownloadError)
        requires
            old(self).wf(),
        ensures
            final(self).wf(),
            final(self).failure == match old(self).failure {
                Some(f) => Some(f),
                None => Some(e),
            },
            final(self).url == old(self).url,
            final(self).file_name == old(self).file_name,
            final(self).offset == old(self).offset,
            final(self).received == old(self).received,
            final(self).total == old(self).total,
            final(self).appended == old(self).appended,
    {
        if self.failure.is_none() {
            self.failure = Some(e);
        }
    }

    /// How the transfer ended: `Ok` with the file's size when nothing failed
    /// and the file has the expected size (or none was known).
    pub fn outcome(&self) -> (r: Result<u64, DownloadError>)
        requires
            self.wf(),
        ensures
            r == self.outcome_of(),
    {
        match self.failure {
            Some(e) => Err(e),
            None => {
                let size = self.offset + self.received;
                match self.total {
                    Some(t) if size != t => Err(DownloadError::Incomplete),
                    _ => Ok(size),
                }
            },
        }
    }
}

/// The file's content after a transfer that resumed a file holding `pre`.
pub open spec fn file_after(pre: Seq<u8>, t: DownloadTask) -> Seq<u8> {
    pre + t.appended@
}

/// The indices, in order, of the first `n` tasks whose transfer failed.
pub open spec fn failed_among(ts: Seq<DownloadTask>, n: int) -> Seq<usize>
    decreases n,
{
    if n <= 0 {
        Seq::empty()
    } else if ts[n - 1].outcome_of() is Err {
        failed_among(ts, n - 1).push((n - 1) as usize)
    } else {
        failed_among(ts, n - 1)
    }
}

/// The indices of the tasks of a finished batch whose transfer failed; a batch
/// succeeded when this is empty.
pub fn failed_tasks(tasks: &Vec<DownloadTask>) -> (r: Vec<usize>)
    requires
        forall|i: int| 0 <= i < tasks@.len() ==> (#[trigger] tasks@[i]).wf(),
    ensures
        r@ == failed_among(tasks@, tasks@.len() as int),
{
    let mut out: Vec<usize> = Vec::new();
    let mut i: usize = 0;
    while i < tasks.len()
        invariant
            i <= tasks@.len(),
            forall|k: int| 0 <= k < tasks@.len() ==> (#[trigger] tasks@[k]).wf(),
            out@ == failed_among(tasks@, i as int),
        decreases tasks@.len() - i,
    {
        if tasks[i].outcome().is_err() {
            out.push(i);
        }
        i = i + 1;
    }
    out
}

/// The bytes of a sequence of chunks, in order.
pub open spec fn concat(cs: Seq<Seq<u8>>) -> Seq<u8>
    decreases cs.len(),
{
    if cs.len() == 0 {
        Seq::empty()
    } else {
        cs[0] + concat(cs.drop_first())
    }
}

/// The task once it has been handed each chunk of `cs` in turn.
pub open spec fn after_chunks(t: DownloadTask, cs: Seq<Seq<u8>>) -> DownloadTask
    decreases cs.len(),
{
    if cs.len() == 0 {
        t
    } else {
        after_chunks(t.after_chunk(cs[0]), cs.drop_first())
    }
}

/// Chunks that together fit within the artifact are all appended, in order.
pub proof fn lemma_chunks_fit(t: DownloadTask, cs: Seq<Seq<u8>>)
    requires
        t.wf(),
        t.failure is None,
        t.fits(concat(cs).len()),
    ensures
        after_chunks(t, cs).wf(),
        after_chunks(t, cs).failure is None,
        after_chunks(t, cs).offset == t.offset,
        after_chunks(t, cs).total == t.total,
        after_chunks(t, cs).received == t.received + concat(cs).len(),
        after_chunks(t, cs).appended@ == t.appended@ + concat(cs),
    decreases cs.len(),
{
    if cs.len() == 0 {
        assert(t.appended@ + concat(cs) =~= t.appended@);
    } else {
        let c = cs[0];
        let rest = cs.drop_first();
        let t1 = t.after_chunk(c);
        assert(concat(cs).len() == c.len() + concat(rest).len());
        lemma_chunks_fit(t1, rest);
        assert(t.appended@ + c + concat(rest) =~= t.appended@ + concat(cs));
    }
}

/// Resuming a file that holds `pre`, `S` bytes, towards an artifact `body` of
/// `T > S` bytes: once the artifact's bytes from `S` on have arrived, in any
/// chunks, the transfer succeeds with `T` bytes, and the file is `pre`
/// followed by those bytes, so its first `S` bytes are unchanged.
pub proof fn lemma_resume(pre: Seq<u8>, body: Seq<u8>, t: DownloadTask, cs: Seq<Seq<u8>>)
    requires
        t.wf(),
        t.offset == pre.len(),
        t.received == 0,
        t.appended@ == Seq::<u8>::empty(),
        t.failure is None,
        body.len() <= u64::MAX,
        t.total == Some(body.len() as u64),
        pre.len() < body.len(),
        concat(cs) == body.subrange(pre.len() as int, body.len() as int),
    ensures
        after_chunks(t, cs).outcome_of() == Ok::<u64, DownloadError>(body.len() as u64),
        file_after(pre, after_chunks(t, cs)) == pre + body.subrange(
            pre.len() as int,
            body.len() as int,
        ),
        file_after(pre, after_chunks(t, cs)).len() == body.len(),
        file_after(pre, after_chunks(t, cs)).subrange(0, pre.len() as int) == pre,
{
    lemma_chunks_fit(t, cs);
    let f = after_chunks(t, cs);
    assert(Seq::<u8>::empty() + concat(cs) =~= concat(cs));
    assert(file_after(pre, f).subrange(0, pre.len() as int) =~= pre);
}

/// A batch of transfers that all start from nothing, each handed its own
/// artifact's bytes in any chunks, reports no failure, and each file is
/// exactly its own artifact: no byte of one lands in another.
pub proof fn lemma_fresh_batch(
    ts: Seq<DownloadTask>,
    bodies: Seq<Seq<u8>>,
    chunks: Seq<Seq<Seq<u8>>>,
)
    requires
        ts.len() == bodies.len(),
        ts.len() == chunks.len(),
        forall|i: int|
            0 <= i < ts.len() ==> {
                &&& (#[trigger] ts[i]).wf()
                &&& ts[i].offset == 0
                &&& ts[i].received == 0
                &&& ts[i].appended@ == Seq::<u8>::empty()
                &&& ts[i].failure is None
                &&& bodies[i].len() <= u64::MAX
                &&& ts[i].total == Some(bodies[i].len() as u64)
                &&& concat(chunks[i]) == bodies[i]
            },
    ensures
        ({
            let fs = Seq::new(ts.len(), |i: int| after_chunks(ts[i], chunks[i]));
            &&& failed_among(fs, fs.len() as int) == Seq::<usize>::empty()
            &&& forall|i: int|
                0 <= i < fs.len() ==> (#[trigger] fs[i]).outcome_of() == Ok::<u64, DownloadError>(
                    bodies[i].len() as u64,
                ) && file_after(Seq::empty(), fs[i]) == bodies[i]
        }),
{
    let fs = Seq::new(ts.len(), |i: int| after_chunks(ts[i], chunks[i]));
    assert forall|i: int| 0 <= i < fs.len() implies (#[trigger] fs[i]).outcome_of() == Ok::<
        u64,
        DownloadError,
    >(bodies[i].len() as u64) && file_after(Seq::empty(), fs[i]) == bodies[i] by {
        assert(ts[i].wf());
        lemma_chunks_fit(ts[i], chunks[i]);
        assert(Seq::<u8>::empty() + concat(chunks[i]) =~= bodies[i]);
    }
    lemma_no_failures(fs, fs.len() as int);
}

proof fn lemma_no_failures(ts: Seq<DownloadTask>, n: int)
    requires
        0 <= n <= ts.len(),
        forall|i: int| 0 <= i < ts.len() ==> (#[trigger] ts[i]).outcome_of() is Ok,
    ensures
        failed_among(ts, n) == Seq::<usize>::empty(),
    decreases n,
{
    if n > 0 {
        assert(ts[n - 1].outcome_of() is Ok);
        lemma_no_failures(ts, n - 1);
    }
}

} // verus!
