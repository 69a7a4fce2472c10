//! What a request is answered with: the outcome of each part, the summary of
//! a whole request, and the status and message sent back to the client.
//!
//! A request may carry several parts and each part ends on its own. The
//! answer is built from all of them: a request without parts is a client
//! error, a request whose parts were all stored is a success, and as soon as
//! one part failed the answer names the first failure. That answer is a
//! client error where the request is at fault (a file name that is not
//! plain, a body whose framing is broken) and a server error where reading
//! or storing failed. A later success never hides an earlier failure.

use vstd::prelude::*;

verus! {

/// Why a part could not be stored.
#[derive(Clone, Copy, Debug, PartialEq, Eq, Structural)]
pub enum Failure {
    /// The file name that the client supplied is not plain.
    UnsafeName,
    /// The framing of the request body is broken: no part could be read
    /// where one was asked for.
    MalformedBody,
    /// The destination file could not be created.
    CreateFile,
    /// A chunk could not be written to the destination file.
    WriteChunk,
    /// The chunk stream of the part broke off.
    ReadChunk,
}

/// How the handling of one part of a request ended. A body whose framing is
/// broken is recorded as the failure of the part that could not be read from
/// it.
#[derive(Clone, Copy, Debug, PartialEq, Eq, Structural)]
pub enum PartOutcome {
    /// The part's chunk stream ended and every chunk received was written.
    Stored,
    /// The part was given up.
    Failed(Failure),
}

/// The answer to a request: a status code and a message.
#[derive(Clone, Copy, Debug, PartialEq, Eq, Structural)]
pub enum Reply {
    /// Every part of the request was stored.
    Uploaded,
    /// The request held no part.
    NoFile,
    /// At least one part failed; the payload is the first failure.
    Failed(Failure),
}

/// The outcomes of all parts of one request, taken together.
#[derive(Clone, Copy, Debug, PartialEq, Eq, Structural)]
pub enum Summary {
    /// The request held no part.
    NoFile,
    /// Every part was stored.
    AllStored { stored: usize },
    /// Some parts were stored and some failed.
    PartialFailure { stored: usize, failed: usize, first: Failure },
    /// Every part failed.
    AllFailed { failed: usize, first: Failure },
}

/// Status code of a successful upload.
pub const STATUS_OK: u16 = 200;

/// Status code of a request that is at fault: it holds no file, a file name
/// that is not plain, or a body whose framing is broken.
pub const STATUS_BAD_REQUEST: u16 = 400;

/// Status code of a request of which a part could not be read or stored.
pub const STATUS_INTERNAL_SERVER_ERROR: u16 = 500;

/// Number of failed parts among `outcomes`.
pub open spec fn count_failed(outcomes: Seq<PartOutcome>) -> nat
    decreases outcomes.len(),
{
    if outcomes.len() == 0 {
        0
    } else {
        count_failed(outcomes.drop_last()) + if outcomes.last() is Failed {
            1nat
        } else {
            0nat
        }
    }
}

/// The failure of the earliest failed part among `outcomes`, if any failed.
pub open spec fn first_failure(outcomes: Seq<PartOutcome>) -> Option<Failure>
    decreases outcomes.len(),
{
    if outcomes.len() == 0 {
        None
    } else {
        match first_failure(outcomes.drop_last()) {
            Some(f) => Some(f),
            None => match outcomes.last() {
                PartOutcome::Stored => None,
                PartOutcome::Failed(f) => Some(f),
            },
        }
    }
}

/// The summary of a request whose parts ended as `outcomes` says, in order.
pub open spec fn summary_of(outcomes: Seq<PartOutcome>) -> Summary {
    let failed = count_failed(outcomes);
    match first_failure(outcomes) {
        None => if outcomes.len() == 0 {
            Summary::NoFile
        } else {
            Summary::AllStored { stored: outcomes.len() as usize }
        },
        Some(first) => if failed == outcomes.len() {
            Summary::AllFailed { failed: failed as usize, first }
        } else {
            Summary::PartialFailure {
                stored: (outcomes.len() - failed) as usize,
                failed: failed as usize,
                first,
            }
        },
    }
}

/// The answer to a request whose parts ended as `outcomes` says, in order.
pub open spec fn reply_of(outcomes: Seq<PartOutcome>) -> Reply {
    summary_of(outcomes).reply_spec()
}

impl PartOutcome {
    /// Whether the part failed.
    pub fn is_failure(&self) -> (b: bool)
        ensures
            b == (*self is Failed),
    {
        match self {
            PartOutcome::Stored => false,
            PartOutcome::Failed(_) => true,
        }
    }
}

impl Failure {
    /// Whether the request is at fault for this failure, not the server.
    pub open spec fn is_client_fault(self) -> bool {
        self == Failure::UnsafeName || self == Failure::MalformedBody
    }

    /// The status code that tells the client of this failure.
    pub open spec fn status_spec(self) -> u16 {
        if self.is_client_fault() {
            STATUS_BAD_REQUEST
        } else {
            STATUS_INTERNAL_SERVER_ERROR
        }
    }

    /// The message that tells the client of this failure.
    pub open spec fn message_spec(self) -> Seq<char> {
        match self {
            Failure::UnsafeName => "Invalid file name"@,
            Failure::MalformedBody => "Malformed multipart body"@,
            Failure::CreateFile => "Failed to create file on server"@,
            Failure::WriteChunk => "Failed to write file"@,
            Failure::ReadChunk => "Failed to read file"@,
        }
    }

    /// The status code that tells the client of this failure: 400 where the
    /// request is at fault, 500 where reading or storing failed.
    pub fn status(&self) -> (code: u16)
        ensures
            code == self.status_spec(),
    {
        match self {
            Failure::UnsafeName => STATUS_BAD_REQUEST,
            Failure::MalformedBody => STATUS_BAD_REQUEST,
            Failure::CreateFile => STATUS_INTERNAL_SERVER_ERROR,
            Failure::WriteChunk => STATUS_INTERNAL_SERVER_ERROR,
            Failure::ReadChunk => STATUS_INTERNAL_SERVER_ERROR,
        }
    }

    /// The message that tells the client of this failure.
    pub fn message(&self) -> (text: &'static str)
        ensures
            text@ == self.message_spec(),
    {
        match self {
            Failure::UnsafeName => "Invalid file name",
            Failure::MalformedBody => "Malformed multipart body",
            Failure::CreateFile => "Failed to create file on server",
            Failure::WriteChunk => "Failed to write file",
            Failure::ReadChunk => "Failed to read file",
        }
    }
}

impl Reply {
    /// The status code of this answer.
    pub open spec fn status_spec(self) -> u16 {
        match self {
            Reply::Uploaded => STATUS_OK,
            Reply::NoFile => STATUS_BAD_REQUEST,
            Reply::Failed(f) => f.status_spec(),
        }
    }

    /// The message of this answer.
    pub open spec fn message_spec(self) -> Seq<char> {
        match self {
            Reply::Uploaded => "File uploaded successfully."@,
            Reply::NoFile => "No file uploaded"@,
            Reply::Failed(f) => f.message_spec(),
        }
    }

    /// The status code of this answer: 200 for an upload, 400 for a request
    /// without a file, and for a failure the code of that failure.
    pub fn status(&self) -> (code: u16)
        ensures
            code == self.status_spec(),
    {
        match self {
            Reply::Uploaded => STATUS_OK,
            Reply::NoFile => STATUS_BAD_REQUEST,
            Reply::Failed(f) => f.status(),
        }
    }

    /// The message of this answer.
    pub fn message(&self) -> (text: &'static str)
        ensures
            text@ == self.message_spec(),
    {
        match self {
            Reply::Uploaded => "File uploaded successfully.",
            Reply::NoFile => "No file uploaded",
            Reply::Failed(f) => f.message(),
        }
    }

    /// Whether this answer reports an upload.
    pub fn is_success(&self) -> (b: bool)
        ensures
            b == (*self == Reply::Uploaded),
            b == (self.status_spec() == STATUS_OK),
    {
        match self {
            Reply::Uploaded => true,
            _ => false,
        }
    }
}

impl Summary {
    /// The answer that this summary is sent back as.
    pub open spec fn reply_spec(self) -> Reply {
        match self {
            Summary::NoFile => Reply::NoFile,
            Summary::AllStored { .. } => Reply::Uploaded,
            Summary::PartialFailure { first, .. } => Reply::Failed(first),
            Summary::AllFailed { first, .. } => Reply::Failed(first),
        }
    }

    /// The answer that this summary is sent back as: the first failure if
    /// there is one, a client error if there was no part, a success
    /// otherwise.
    pub fn reply(&self) -> (r: Reply)
        ensures
            r == self.reply_spec(),
    {
        match self {
            Summary::NoFile => Reply::NoFile,
            Summary::AllStored { .. } => Reply::Uploaded,
            Summary::PartialFailure { first, .. } => Reply::Failed(*first),
            Summary::AllFailed { first, .. } => Reply::Failed(*first),
        }
    }
}

/// No more parts failed than there are parts.
pub proof fn lemma_count_failed_bounded(outcomes: Seq<PartOutcome>)
    ensures
        count_failed(outcomes) <= outcomes.len(),
    decreases outcomes.len(),
{
    if outcomes.len() > 0 {
        lemma_count_failed_bounded(outcomes.drop_last());
    }
}

/// There is a first failure exactly if some part failed; it is the failure
/// of a part before which every part was stored.
pub proof fn lemma_first_failure_is_earliest(outcomes: Seq<PartOutcome>)
    ensures
        first_failure(outcomes) is None <==> count_failed(outcomes) == 0,
        first_failure(outcomes) is None <==> forall|i: int|
            0 <= i < outcomes.len() ==> outcomes[i] == PartOutcome::Stored,
        first_failure(outcomes) matches Some(f) ==> (exists|i: int|
            {
                &&& 0 <= i < outcomes.len()
                &&& #[trigger] outcomes[i] == PartOutcome::Failed(f)
                &&& forall|j: int| 0 <= j < i ==> outcomes[j] == PartOutcome::Stored
            }),
    decreases outcomes.len(),
{
    if outcomes.len() > 0 {
        let front = outcomes.drop_last();
        lemma_first_failure_is_earliest(front);
        assert(forall|i: int| 0 <= i < front.len() ==> front[i] == outcomes[i]);
    }
}

/// The summary accounts for every part: its counts add up to the number of
/// parts, a request without parts is summed up as such, and the summary
/// speaks of a failure exactly if a part failed.
pub proof fn lemma_summary_accounts_for_every_part(outcomes: Seq<PartOutcome>)
    requires
        outcomes.len() <= usize::MAX,
    ensures
        match summary_of(outcomes) {
            Summary::NoFile => outcomes.len() == 0,
            Summary::AllStored { stored } => {
                &&& stored == outcomes.len()
                &&& stored > 0
                &&& count_failed(outcomes) == 0
            },
            Summary::PartialFailure { stored, failed, first } => {
                &&& stored + failed == outcomes.len()
                &&& stored > 0
                &&& failed == count_failed(outcomes)
                &&& failed > 0
                &&& first_failure(outcomes) == Some(first)
            },
            Summary::AllFailed { failed, first } => {
                &&& failed == outcomes.len()
                &&& failed == count_failed(outcomes)
                &&& failed > 0
                &&& first_failure(outcomes) == Some(first)
            },
        },
{
    lemma_count_failed_bounded(outcomes);
    lemma_first_failure_is_earliest(outcomes);
}

/// What a request is answered with: a client error exactly if it held no
/// part, a success exactly if it held parts and all were stored, and
/// otherwise the failure of the earliest part that failed.
pub proof fn lemma_reply_reports_first_failure(outcomes: Seq<PartOutcome>)
    ensures
        reply_of(outcomes) == Reply::NoFile <==> outcomes.len() == 0,
        reply_of(outcomes) == Reply::Uploaded <==> outcomes.len() > 0 && forall|i: int|
            0 <= i < outcomes.len() ==> outcomes[i] == PartOutcome::Stored,
        reply_of(outcomes) matches Reply::Failed(f) ==> (exists|i: int|
            {
                &&& 0 <= i < outcomes.len()
                &&& #[trigger] outcomes[i] == PartOutcome::Failed(f)
                &&& forall|j: int| 0 <= j < i ==> outcomes[j] == PartOutcome::Stored
            }),
{
    lemma_first_failure_is_earliest(outcomes);
}

/// Sums up the outcomes of the parts of one request.
pub fn summarize(outcomes: &Vec<PartOutcome>) -> (summary: Summary)
    ensures
        summary == summary_of(outcomes@),
{
    let mut failed: usize = 0;
    let mut first: Option<Failure> = None;
    let mut i: usize = 0;
    while i < outcomes.len()
        invariant
            i <= outcomes.len(),
            failed == count_failed(outcomes@.take(i as int)),
            first == first_failure(outcomes@.take(i as int)),
            failed <= i,
        decreases outcomes.len() - i,
    {
        assert(outcomes@.take(i + 1).drop_last() == outcomes@.take(i as int));
        match outcomes[i] {
            PartOutcome::Stored => {},
            PartOutcome::Failed(f) => {
                failed = failed + 1;
                if first.is_none() {
                    first = Some(f);
                }
            },
        }
        i = i + 1;
    }
    assert(outcomes@.take(i as int) == outcomes@);
    match first {
        None => if outcomes.len() == 0 {
            Summary::NoFile
        } else {
            Summary::AllStored { stored: outcomes.len() }
        },
        Some(f) => if failed == outcomes.len() {
            Summary::AllFailed { failed, first: f }
        } else {
            Summary::PartialFailure { stored: outcomes.len() - failed, failed, first: f }
        },
    }
}

/// The answer to a request whose parts ended as `outcomes` says, in order.
pub fn reply_for(outcomes: &Vec<PartOutcome>) -> (reply: Reply)
    ensures
        reply == reply_of(outcomes@),
{
    summarize(outcomes).reply()
}

} // verus!
