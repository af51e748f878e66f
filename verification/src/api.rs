//! The upload and delete pipelines.
//!
//! The pipelines themselves are pure decision logic: a host embeds them in
//! an HTTP server, performs the actual disk and network operations, and
//! reports each outcome back as an event. Header validation, staged-path
//! derivation, byte accounting, response classification, and the guaranteed
//! cleanup obligation are all decided — and verified — here.

use vstd::prelude::*;
use vstd::string::StringExecFns;

use crate::api_error::ApiError;

verus! {

broadcast use vstd::string::next_postcondition, vstd::string::axiom_spec_iter;

/// The characters of `s`, in order.
fn str_chars(s: &str) -> (v: Vec<char>)
    ensures
        v@ == s@,
{
    let mut it = s.chars();
    let mut v: Vec<char> = Vec::new();
    loop
        invariant
            v@ + vstd::std_specs::iter::IteratorSpec::remaining(&it) == s@,
        ensures
            v@ == s@,
        decreases s@.len() - v@.len(),
    {
        match it.next() {
            Some(c) => {
                v.push(c);
                proof {
                    assert(v@ + vstd::std_specs::iter::IteratorSpec::remaining(&it) =~= s@);
                }
            },
            None => {
                proof {
                    assert(v@ =~= s@);
                }
                break ;
            },
        }
    }
    v
}

/// Whether a path segment may become part of the base name: it is nonempty
/// and is not the no-op segment `"."`.
pub open spec fn spec_seg_keep(seg: Seq<char>) -> bool {
    seg.len() > 0 && seg != seq!['.']
}

/// Scans a `'/'`-separated name from the left: yields the still-open final
/// segment and the last kept, terminated segment.
pub open spec fn spec_scan_segments(s: Seq<char>) -> (Seq<char>, Option<Seq<char>>)
    decreases s.len(),
{
    if s.len() == 0 {
        (Seq::empty(), None)
    } else {
        let (cur, last) = spec_scan_segments(s.drop_last());
        if s.last() == '/' {
            (Seq::empty(), if spec_seg_keep(cur) { Some(cur) } else { last })
        } else {
            (cur.push(s.last()), last)
        }
    }
}

/// The base name of a requested name: its final path segment, after empty
/// and `"."` segments are dropped; nothing if no segment remains or the
/// final segment is the traversal segment `".."`.
pub open spec fn spec_base_name(s: Seq<char>) -> Option<Seq<char>> {
    let (cur, last) = spec_scan_segments(s);
    let cand = if spec_seg_keep(cur) {
        Some(cur)
    } else {
        last
    };
    match cand {
        Some(b) => if b == seq!['.', '.'] {
            None
        } else {
            Some(b)
        },
        None => None,
    }
}

/// The view of an optional segment.
pub open spec fn spec_opt_seg(o: Option<Vec<char>>) -> Option<Seq<char>> {
    match o {
        Some(v) => Some(v@),
        None => None,
    }
}

/// Whether `cur` is a segment to keep.
fn seg_keep(cur: &Vec<char>) -> (r: bool)
    ensures
        r == spec_seg_keep(cur@),
{
    let r = cur.len() > 0 && !(cur.len() == 1 && cur[0] == '.');
    proof {
        if cur@.len() == 1 {
            if cur@[0] == '.' {
                assert(cur@ =~= seq!['.']);
            } else {
                assert(cur@ != seq!['.']);
            }
        } else {
            assert(cur@ != seq!['.']);
        }
    }
    r
}

/// The base name of a requested name, per `spec_base_name`.
fn base_name(chars: &Vec<char>) -> (r: Option<Vec<char>>)
    ensures
        match r {
            Some(b) => spec_base_name(chars@) == Some(b@),
            None => spec_base_name(chars@) is None,
        },
{
    let mut cur: Vec<char> = Vec::new();
    let mut last: Option<Vec<char>> = None;
    let mut i: usize = 0;
    while i < chars.len()
        invariant
            i <= chars@.len(),
            (cur@, spec_opt_seg(last)) == spec_scan_segments(chars@.take(i as int)),
        decreases chars@.len() - i,
    {
        let ghost prev = chars@.take(i as int);
        let c = chars[i];
        if c == '/' {
            if seg_keep(&cur) {
                last = Some(cur);
            }
            cur = Vec::new();
        } else {
            cur.push(c);
        }
        i = i + 1;
        proof {
            let now = chars@.take(i as int);
            assert(now.drop_last() =~= prev);
            assert(now.last() == chars@[i - 1]);
            assert((cur@, spec_opt_seg(last)) == spec_scan_segments(now));
        }
    }
    proof {
        assert(chars@.take(chars@.len() as int) =~= chars@);
    }
    let ghost scan = spec_scan_segments(chars@);
    let keep = seg_keep(&cur);
    let cand: Option<Vec<char>> = if keep {
        Some(cur)
    } else {
        last
    };
    proof {
        assert(spec_opt_seg(cand) == (if spec_seg_keep(scan.0) {
            Some(scan.0)
        } else {
            scan.1
        }));
    }
    match cand {
        Some(b) => {
            if b.len() == 2 && b[0] == '.' && b[1] == '.' {
                proof {
                    assert(b@ =~= seq!['.', '.']);
                }
                None
            } else {
                proof {
                    if b@.len() == 2 {
                        assert(b@ != seq!['.', '.']);
                    } else {
                        assert(b@ != seq!['.', '.']);
                    }
                }
                Some(b)
            }
        },
        None => None,
    }
}

/// What the filename sanitizer maps a segment to.
pub uninterp spec fn sanitize_of(s: Seq<char>) -> Seq<char>;

/// Relies on sanitize_filename::sanitize_with_options, called with fixed
/// options (windows rules on, truncation on, empty replacement), so that the
/// result is a pure function of the input characters on every platform.
#[verifier::external_body]
fn sanitize_segment(chars: &Vec<char>) -> (r: String)
    ensures
        r@ == sanitize_of(chars@),
{
    let s: String = chars.iter().collect();
    sanitize_filename::sanitize_with_options(
        s,
        sanitize_filename::Options { windows: true, truncate: true, replacement: "" },
    )
}

/// Whether a file name is a single safe path segment: nonempty, free of
/// path separators, and not a traversal or no-op segment. A staged path
/// with this shape can only resolve inside the working directory.
pub open spec fn spec_safe_segment(s: Seq<char>) -> bool {
    &&& s.len() > 0
    &&& s != seq!['.']
    &&& s != seq!['.', '.']
    &&& forall|i: int| 0 <= i < s.len() ==> s[i] != '/' && s[i] != '\\'
}

/// Checks that a file name is a single safe path segment.
fn is_safe_segment(chars: &Vec<char>) -> (r: bool)
    ensures
        r == spec_safe_segment(chars@),
{
    if chars.len() == 0 {
        return false;
    }
    if chars.len() == 1 && chars[0] == '.' {
        proof {
            assert(chars@ =~= seq!['.']);
        }
        return false;
    }
    if chars.len() == 2 && chars[0] == '.' && chars[1] == '.' {
        proof {
            assert(chars@ =~= seq!['.', '.']);
        }
        return false;
    }
    let mut i: usize = 0;
    while i < chars.len()
        invariant
            i <= chars@.len(),
            forall|j: int| 0 <= j < i ==> chars@[j] != '/' && chars@[j] != '\\',
        decreases chars@.len() - i,
    {
        if chars[i] == '/' || chars[i] == '\\' {
            return false;
        }
        i = i + 1;
    }
    proof {
        if chars@ == seq!['.'] {
            assert(chars@.len() == 1 && chars@[0] == '.');
        }
        if chars@ == seq!['.', '.'] {
            assert(chars@.len() == 2 && chars@[0] == '.' && chars@[1] == '.');
        }
    }
    true
}

/// The name a staged file gets inside the fixed working directory: the
/// sanitized base name of the requested name, accepted only if it is a
/// safe single segment.
pub open spec fn spec_staged_name(name: Seq<char>) -> Option<Seq<char>> {
    match spec_base_name(name) {
        Some(b) => {
            let f = sanitize_of(b);
            if spec_safe_segment(f) {
                Some(f)
            } else {
                None
            }
        },
        None => None,
    }
}

/// Derives the staged file name for a requested name: the sanitized base
/// name, confined to a single safe path segment. Fails with
/// `MissingFilename` when no usable segment remains.
pub fn staged_file_name(name: &str) -> (r: Result<String, ApiError>)
    ensures
        r matches Ok(f) ==> spec_staged_name(name@) == Some(f@) && spec_safe_segment(f@),
        r matches Err(e) ==> spec_staged_name(name@) is None && (e matches ApiError::MissingFilename(n)
            && n@ == name@),
{
    let chars = str_chars(name);
    match base_name(&chars) {
        Some(b) => {
            let f = sanitize_segment(&b);
            let fchars = str_chars(f.as_str());
            if is_safe_segment(&fchars) {
                Ok(f)
            } else {
                Err(ApiError::MissingFilename(name.to_owned()))
            }
        },
        None => Err(ApiError::MissingFilename(name.to_owned())),
    }
}

/// What the mime parser decides about a declared media type.
pub uninterp spec fn mime_parses(s: Seq<char>) -> bool;

/// Relies on the mime crate's parser (`str::parse::<mime::Mime>`): whether
/// a declared media type is well formed is a pure function of the string.
#[verifier::external_body]
fn mime_is_valid(s: &str) -> (r: bool)
    ensures
        r == mime_parses(s@),
{
    s.parse::<mime::Mime>().is_ok()
}

/// The remote-assigned metadata returned on a successful insert.
#[derive(Debug)]
pub struct ObjectDescriptor {
    pub name: String,
    pub bucket: String,
    pub generation: String,
}

/// The classified result of a remote call.
pub enum RemoteOutcome {
    /// The remote service answered with a success status.
    Success(ObjectDescriptor),
    /// The remote service answered with a non-success status; carries the
    /// status and the response body.
    Rejected(u16, String),
    /// The call failed before a status came back; carries a short cause
    /// description.
    TransportFailure(String),
}

/// Tells whether an HTTP-style status counts as success: any status in
/// `200..300`.
pub open spec fn spec_is_success_status(status: u16) -> bool {
    200 <= status < 300
}

/// Classifies the remote answer to an insert call: any success status is
/// `Success` carrying the returned descriptor, anything else is `Rejected`
/// carrying the status and body.
pub fn classify_insert_response(status: u16, descriptor: ObjectDescriptor, body: String) -> (r:
    RemoteOutcome)
    ensures
        spec_is_success_status(status) ==> r == RemoteOutcome::Success(descriptor),
        !spec_is_success_status(status) ==> r == RemoteOutcome::Rejected(status, body),
{
    if 200 <= status && status < 300 {
        RemoteOutcome::Success(descriptor)
    } else {
        RemoteOutcome::Rejected(status, body)
    }
}

/// The upload response decided by a remote outcome: a success hands the
/// descriptor back, a rejected call becomes `NotSuccessResponse`, and a
/// transport failure becomes `UploadObjectError`.
pub open spec fn spec_upload_response(outcome: RemoteOutcome) -> Result<ObjectDescriptor, ApiError> {
    match outcome {
        RemoteOutcome::Success(d) => Ok(d),
        RemoteOutcome::Rejected(status, body) => Err(ApiError::NotSuccessResponse(status, body)),
        RemoteOutcome::TransportFailure(cause) => Err(ApiError::UploadObjectError(cause)),
    }
}

/// Classifies the status of a remote delete answer: any success status is
/// `Success` (a delete returns no descriptor, so it carries an empty one),
/// anything else is `Rejected` with the status and body.
pub fn classify_delete_response(status: u16, body: String) -> (r: RemoteOutcome)
    ensures
        spec_is_success_status(status) ==> r matches RemoteOutcome::Success(_),
        !spec_is_success_status(status) ==> r == RemoteOutcome::Rejected(status, body),
{
    if 200 <= status && status < 300 {
        RemoteOutcome::Success(
            ObjectDescriptor {
                name: String::new(),
                bucket: String::new(),
                generation: String::new(),
            },
        )
    } else {
        RemoteOutcome::Rejected(status, body)
    }
}

/// Classifies the remote answer to a delete call. A success status yields
/// a bare success (the external answer is an empty no-content response); a
/// rejected call keeps its status and body; a transport failure becomes
/// `DeleteObjectFailed`. Every failure maps to a server error.
pub fn classify_delete_outcome(outcome: RemoteOutcome) -> (r: Result<(), ApiError>)
    ensures
        outcome matches RemoteOutcome::Success(_) <==> r is Ok,
        outcome matches RemoteOutcome::Rejected(status, body) ==> r == Err::<(), ApiError>(
            ApiError::NotSuccessResponse(status, body),
        ),
        outcome matches RemoteOutcome::TransportFailure(_) ==> r == Err::<(), ApiError>(
            ApiError::DeleteObjectFailed,
        ),
        r matches Err(e) ==> crate::api_error::spec_is_server_error(e.spec_status_code()),
{
    match outcome {
        RemoteOutcome::Success(_) => Ok(()),
        RemoteOutcome::Rejected(status, body) => Err(ApiError::NotSuccessResponse(status, body)),
        RemoteOutcome::TransportFailure(_) => Err(ApiError::DeleteObjectFailed),
    }
}

/// The validated upload request metadata.
#[derive(Clone)]
pub struct UploadHeaders {
    pub name: String,
    pub bucket: String,
    pub mime_type: String,
}

/// The view of an optional header value.
pub open spec fn spec_opt_str(o: &Option<String>) -> Option<Seq<char>> {
    match o {
        Some(v) => Some(v@),
        None => None,
    }
}

/// Whether a header value is present and nonempty.
pub open spec fn spec_present(h: Option<Seq<char>>) -> bool {
    match h {
        Some(v) => v.len() > 0,
        None => false,
    }
}

/// The first required header that is absent or empty, in the order
/// `Name`, `Bucket`, `Mime-Type`; nothing when all three are present.
pub open spec fn spec_first_missing(
    name: Option<Seq<char>>,
    bucket: Option<Seq<char>>,
    mime_type: Option<Seq<char>>,
) -> Option<Seq<char>> {
    if !spec_present(name) {
        Some("Name"@)
    } else if !spec_present(bucket) {
        Some("Bucket"@)
    } else if !spec_present(mime_type) {
        Some("Mime-Type"@)
    } else {
        None
    }
}

/// The staged local copy of an upload: its path inside the working
/// directory, and an exact account of the bytes written to it.
pub struct StagedFile {
    pub path: String,
    pub bytes_written: u64,
    pub content: Ghost<Seq<u8>>,
}

impl StagedFile {
    /// The path is a safe single segment and the byte count is exact.
    pub open spec fn wf(&self) -> bool {
        &&& spec_safe_segment(self.path@)
        &&& self.bytes_written == self.content@.len()
    }
}

/// Where an upload stands.
#[derive(Clone, Copy, PartialEq, Eq, Structural, Debug)]
pub enum UploadPhase {
    /// Validating the request metadata; nothing has touched disk.
    ReadingHeaders,
    /// The staged file has been created and chunks are being ingested.
    Staging,
    /// The payload is staged; the credential provider runs next.
    FetchingCredentials,
    /// Credentials are ready; the remote insert call is authorized.
    CallingRemote,
    /// A response is decided; the staged file must be removed.
    CleaningUp,
    /// The response is ready and every obligation has been met.
    Done,
}

/// One upload request, from header validation to the final response, as a
/// step-by-step decision machine. The host performs the disk writes, the
/// credential handshake, the remote call and the removal, and reports each
/// outcome as an event; the machine decides every transition.
///
/// Multiple payload parts are ingested by concatenation in arrival order:
/// all chunks of all parts accumulate in one staged file.
///
/// Once staging has begun (`staged_ever`), every path to `Done` passes
/// through the cleanup step, including credential failures after staging.
pub struct UploadFlow {
    pub phase: UploadPhase,
    pub headers: Option<UploadHeaders>,
    pub staged: Option<StagedFile>,
    pub chunks: Ghost<Seq<Seq<u8>>>,
    pub staged_ever: bool,
    pub remote_attempted: bool,
    pub cleanup_requested: bool,
    pub pending: Option<Result<ObjectDescriptor, ApiError>>,
    pub response: Option<Result<ObjectDescriptor, ApiError>>,
}

impl UploadFlow {
    /// The machine invariant: byte accounting is exact, each phase carries
    /// what it needs, validation errors prove that nothing was staged or
    /// sent, and a finished flow that ever staged has requested cleanup.
    pub open spec fn wf(&self) -> bool {
        &&& (match self.staged {
            Some(sf) => sf.wf() && sf.content@ == self.chunks@.flatten(),
            None => self.chunks@.len() == 0,
        })
        &&& (self.phase is ReadingHeaders ==> !self.staged_ever && self.staged is None
            && self.headers is None && self.response is None && self.pending is None
            && !self.remote_attempted && !self.cleanup_requested)
        &&& (self.phase is Staging ==> self.staged is Some && self.staged_ever
            && self.headers is Some && self.response is None && self.pending is None
            && !self.remote_attempted && !self.cleanup_requested)
        &&& (self.phase is FetchingCredentials ==> self.staged is Some && self.staged_ever
            && self.headers is Some && self.response is None && self.pending is None
            && !self.remote_attempted && !self.cleanup_requested)
        &&& (self.phase is CallingRemote ==> self.staged is Some && self.staged_ever
            && self.headers is Some && self.response is None && self.pending is None
            && self.remote_attempted && !self.cleanup_requested)
        &&& (self.phase is CleaningUp ==> self.staged is Some && self.staged_ever
            && self.pending is Some && self.response is None && !self.cleanup_requested)
        &&& (self.phase is Done ==> self.response is Some)
        &&& (self.phase is Done && self.staged_ever ==> self.cleanup_requested)
        &&& (!self.staged_ever ==> self.staged is None && self.chunks@.len() == 0
            && !self.remote_attempted)
        &&& (match self.pending {
            Some(res) => !(res matches Err(e) && e.spec_is_validation_error()),
            None => true,
        })
        &&& (match self.response {
            Some(res) => (res matches Err(e) && e.spec_is_validation_error())
                ==> !self.staged_ever && !self.remote_attempted,
            None => true,
        })
    }

    /// A fresh flow, ready to validate headers.
    pub fn new() -> (r: UploadFlow)
        ensures
            r.wf(),
            r.phase is ReadingHeaders,
    {
        UploadFlow {
            phase: UploadPhase::ReadingHeaders,
            headers: None,
            staged: None,
            chunks: Ghost(Seq::empty()),
            staged_ever: false,
            remote_attempted: false,
            cleanup_requested: false,
            pending: None,
            response: None,
        }
    }

    /// Ends the flow with a validation error, before anything was staged.
    fn fail_validation(&mut self, e: ApiError)
        requires
            old(self).wf(),
            old(self).phase is ReadingHeaders,
            e.spec_is_validation_error(),
        ensures
            final(self).wf(),
            final(self).phase is Done,
            final(self).response == Some(Err::<ObjectDescriptor, ApiError>(e)),
            !final(self).staged_ever,
            !final(self).remote_attempted,
            final(self).staged is None,
            final(self).chunks@.len() == 0,
    {
        self.phase = UploadPhase::Done;
        self.response = Some(Err(e));
    }

    /// Validates the request metadata, in order: the `Name`, `Bucket` and
    /// `Mime-Type` headers must be present and nonempty; the declared MIME
    /// type must parse; a staged file name must be derivable from the
    /// requested name. Any failure ends the flow with the matching
    /// validation error before anything touches disk or network; on
    /// success the staged file is created (empty) and staging begins.
    /// Returns whether the flow proceeds to staging.
    pub fn on_headers(&mut self, name: Option<String>, bucket: Option<String>, mime_type: Option<
        String,
    >) -> (r: bool)
        requires
            old(self).wf(),
            old(self).phase is ReadingHeaders,
        ensures
            final(self).wf(),
            r == (final(self).phase is Staging),
            !r ==> final(self).phase is Done && !final(self).staged_ever && !final(self).remote_attempted,
            spec_first_missing(spec_opt_str(&name), spec_opt_str(&bucket), spec_opt_str(&mime_type))
                matches Some(field) ==> !r && (final(self).response matches Some(Err(e))
                && e matches ApiError::MissingHeader(h) && h@ == field),
            ({
                &&& spec_first_missing(spec_opt_str(&name), spec_opt_str(&bucket), spec_opt_str(&mime_type)) is None
                &&& !mime_parses(mime_type.unwrap()@)
            }) ==> !r && (final(self).response matches Some(Err(e)) && e is MimeTypeParsingError),
            ({
                &&& spec_first_missing(spec_opt_str(&name), spec_opt_str(&bucket), spec_opt_str(&mime_type)) is None
                &&& mime_parses(mime_type.unwrap()@)
                &&& spec_staged_name(name.unwrap()@) is None
            }) ==> !r && (final(self).response matches Some(Err(e))
                && e matches ApiError::MissingFilename(n) && n@ == name.unwrap()@),
            ({
                &&& spec_first_missing(spec_opt_str(&name), spec_opt_str(&bucket), spec_opt_str(&mime_type)) is None
                &&& mime_parses(mime_type.unwrap()@)
                &&& spec_staged_name(name.unwrap()@) is Some
            }) ==> r && (final(self).staged matches Some(sf) && sf.bytes_written == 0
                && Some(sf.path@) == spec_staged_name(name.unwrap()@)) && (final(self).headers
                matches Some(h) && h.name@ == name.unwrap()@ && h.bucket@ == bucket.unwrap()@
                && h.mime_type@ == mime_type.unwrap()@) && final(self).chunks@.len() == 0,
    {
        let name = match name {
            Some(n) => n,
            None => {
                self.fail_validation(ApiError::MissingHeader("Name"));
                return false;
            },
        };
        if name.as_str().is_empty() {
            self.fail_validation(ApiError::MissingHeader("Name"));
            return false;
        }
        let bucket = match bucket {
            Some(b) => b,
            None => {
                self.fail_validation(ApiError::MissingHeader("Bucket"));
                return false;
            },
        };
        if bucket.as_str().is_empty() {
            self.fail_validation(ApiError::MissingHeader("Bucket"));
            return false;
        }
        let mime_type = match mime_type {
            Some(m) => m,
            None => {
                self.fail_validation(ApiError::MissingHeader("Mime-Type"));
                return false;
            },
        };
        if mime_type.as_str().is_empty() {
            self.fail_validation(ApiError::MissingHeader("Mime-Type"));
            return false;
        }
        if !mime_is_valid(mime_type.as_str()) {
            self.fail_validation(ApiError::MimeTypeParsingError);
            return false;
        }
        let path = match staged_file_name(name.as_str()) {
            Ok(p) => p,
            Err(e) => {
                self.fail_validation(e);
                return false;
            },
        };
        self.headers = Some(UploadHeaders { name, bucket, mime_type });
        self.staged = Some(StagedFile { path, bytes_written: 0, content: Ghost(Seq::empty()) });
        self.staged_ever = true;
        self.phase = UploadPhase::Staging;
        proof {
            assert(self.chunks@.flatten() =~= Seq::<u8>::empty());
        }
        true
    }

    /// The byte count of the staged file so far.
    pub open spec fn spec_bytes_staged(&self) -> nat {
        match self.staged {
            Some(sf) => sf.bytes_written as nat,
            None => 0,
        }
    }

    /// Ingests one chunk of the payload: the staged file grows by exactly
    /// these bytes, appended after everything ingested before.
    pub fn on_chunk(&mut self, chunk: &[u8])
        requires
            old(self).wf(),
            old(self).phase is Staging,
            old(self).spec_bytes_staged() + chunk@.len() <= u64::MAX,
        ensures
            final(self).wf(),
            final(self).phase is Staging,
            final(self).chunks@ == old(self).chunks@.push(chunk@),
            final(self).staged matches Some(sf) && old(self).staged matches Some(so)
                && sf.path == so.path && sf.content@ == so.content@ + chunk@
                && sf.bytes_written == so.bytes_written + chunk@.len(),
            final(self).headers == old(self).headers,
            final(self).staged_ever == old(self).staged_ever,
            final(self).remote_attempted == old(self).remote_attempted,
            final(self).cleanup_requested == old(self).cleanup_requested,
            final(self).pending == old(self).pending,
            final(self).response == old(self).response,
    {
        let mut sf = self.staged.take().unwrap();
        sf.content = Ghost(sf.content@ + chunk@);
        sf.bytes_written = sf.bytes_written + (chunk.len() as u64);
        self.staged = Some(sf);
        self.chunks = Ghost(self.chunks@.push(chunk@));
        proof {
            broadcast use vstd::seq_lib::group_seq_lib_default;

            old(self).chunks@.lemma_flatten_push(chunk@);
        }
    }

    /// Ends ingestion: the staged file is complete and the credential
    /// provider runs next.
    pub fn on_stream_end(&mut self)
        requires
            old(self).wf(),
            old(self).phase is Staging,
        ensures
            final(self).wf(),
            final(self).phase is FetchingCredentials,
            *final(self) == (UploadFlow { phase: UploadPhase::FetchingCredentials, ..*old(self) }),
    {
        self.phase = UploadPhase::FetchingCredentials;
    }

    /// A write failed while staging: the flow carries an `IoError` with the
    /// given cause, and cleanup is still owed for the partial file.
    pub fn on_stage_error(&mut self, cause: String)
        requires
            old(self).wf(),
            old(self).phase is Staging,
        ensures
            final(self).wf(),
            final(self).phase is CleaningUp,
            final(self).pending == Some(Err::<ObjectDescriptor, ApiError>(ApiError::IoError(cause))),
            final(self).staged == old(self).staged,
            final(self).chunks == old(self).chunks,
            final(self).staged_ever == old(self).staged_ever,
            final(self).remote_attempted == old(self).remote_attempted,
    {
        self.phase = UploadPhase::CleaningUp;
        self.pending = Some(Err(ApiError::IoError(cause)));
    }

    /// Reports whether the credential provider produced a token source.
    /// On failure the flow carries `ServiceAccountNotFound` — and, by
    /// design, cleanup of the already staged file is still owed. On success
    /// the remote call is authorized.
    pub fn on_credentials(&mut self, ok: bool)
        requires
            old(self).wf(),
            old(self).phase is FetchingCredentials,
        ensures
            final(self).wf(),
            ok ==> final(self).phase is CallingRemote && final(self).remote_attempted
                && final(self).pending is None,
            !ok ==> final(self).phase is CleaningUp && final(self).pending == Some(Err::<
                ObjectDescriptor,
                ApiError,
            >(ApiError::ServiceAccountNotFound)) && final(self).remote_attempted == old(self).remote_attempted,
            final(self).staged == old(self).staged,
            final(self).chunks == old(self).chunks,
            final(self).staged_ever == old(self).staged_ever,
            final(self).headers == old(self).headers,
    {
        if ok {
            self.phase = UploadPhase::CallingRemote;
            self.remote_attempted = true;
        } else {
            self.phase = UploadPhase::CleaningUp;
            self.pending = Some(Err(ApiError::ServiceAccountNotFound));
        }
    }

    /// Records the classified outcome of the remote insert call and decides
    /// the response: the descriptor on success, `NotSuccessResponse` for a
    /// rejected call, `UploadObjectError` for a transport failure. Cleanup
    /// is owed next in every case.
    pub fn on_remote(&mut self, outcome: RemoteOutcome)
        requires
            old(self).wf(),
            old(self).phase is CallingRemote,
        ensures
            final(self).wf(),
            final(self).phase is CleaningUp,
            final(self).pending == Some(spec_upload_response(outcome)),
            final(self).staged == old(self).staged,
            final(self).chunks == old(self).chunks,
            final(self).staged_ever == old(self).staged_ever,
            final(self).remote_attempted == old(self).remote_attempted,
    {
        self.phase = UploadPhase::CleaningUp;
        self.pending = Some(
            match outcome {
                RemoteOutcome::Success(d) => Ok(d),
                RemoteOutcome::Rejected(status, body) => Err(
                    ApiError::NotSuccessResponse(status, body),
                ),
                RemoteOutcome::TransportFailure(cause) => Err(ApiError::UploadObjectError(cause)),
            },
        );
    }

    /// Records that removal of the staged file was attempted. Whether the
    /// removal itself succeeded does not change the response: a removal
    /// failure never masks the decided outcome.
    #[allow(unused_variables)]
    pub fn on_cleanup(&mut self, removed: bool)
        requires
            old(self).wf(),
            old(self).phase is CleaningUp,
        ensures
            final(self).wf(),
            final(self).phase is Done,
            final(self).cleanup_requested,
            final(self).response == old(self).pending,
            final(self).staged_ever == old(self).staged_ever,
            final(self).remote_attempted == old(self).remote_attempted,
            final(self).chunks == old(self).chunks,
    {
        self.phase = UploadPhase::Done;
        self.cleanup_requested = true;
        self.response = self.pending.take();
    }

    /// Hands the decided response out of a finished flow.
    pub fn into_response(self) -> (r: Result<ObjectDescriptor, ApiError>)
        requires
            self.wf(),
            self.phase is Done,
        ensures
            self.response == Some(r),
    {
        match self.response {
            Some(r) => r,
            None => Err(ApiError::UploadFailed),
        }
    }
}

/// LAW (staged bytes are exact): at the moment the remote call is
/// authorized, the staged file holds exactly the ingested chunks,
/// concatenated in arrival order, and its byte count is their total length.
pub proof fn lemma_staged_bytes_exact(flow: &UploadFlow)
    requires
        flow.wf(),
        flow.phase is CallingRemote,
    ensures
        flow.staged matches Some(sf) && sf.content@ == flow.chunks@.flatten()
            && sf.bytes_written == flow.chunks@.flatten().len(),
{
}

/// LAW (guaranteed cleanup): a finished upload that ever staged a file has
/// requested its removal — after success, rejection, transport failure,
/// write failure, and credential failure after staging alike.
pub proof fn lemma_cleanup_guaranteed(flow: &UploadFlow)
    requires
        flow.wf(),
        flow.phase is Done,
        flow.staged_ever,
    ensures
        flow.cleanup_requested,
{
}

/// LAW (validation failures have no side effects): a flow whose response is
/// a validation error never created a staged file, never ingested a byte,
/// and never authorized a remote call.
pub proof fn lemma_validation_failure_no_side_effects(flow: &UploadFlow)
    requires
        flow.wf(),
        flow.response matches Some(res) && res matches Err(e) && e.spec_is_validation_error(),
    ensures
        !flow.staged_ever,
        !flow.remote_attempted,
        flow.staged is None,
        flow.chunks@.len() == 0,
{
}

/// LAW (path confinement): every staged name is a nonempty single path
/// segment, free of separators and traversal, so the staged file resolves
/// only inside the fixed working directory.
pub proof fn lemma_staged_name_confined(name: Seq<char>, f: Seq<char>)
    requires
        spec_staged_name(name) == Some(f),
    ensures
        f.len() > 0,
        f != seq!['.', '.'],
        f != seq!['.'],
        forall|i: int| 0 <= i < f.len() ==> f[i] != '/' && f[i] != '\\',
{
}

/// LAW (distinct staged paths): uploads whose requested names sanitize to
/// different base names stage to different paths, so they never write to
/// the same file.
pub proof fn lemma_distinct_staged_names(n1: Seq<char>, n2: Seq<char>, f1: Seq<char>, f2: Seq<char>)
    requires
        spec_staged_name(n1) == Some(f1),
        spec_staged_name(n2) == Some(f2),
        sanitize_of(spec_base_name(n1).unwrap()) != sanitize_of(spec_base_name(n2).unwrap()),
    ensures
        f1 != f2,
{
}

/// LAW (shared-path policy): the staged path is a function of the requested
/// name alone. Two uploads with the same name therefore contend for one
/// path, and the host must serialize them: the second waits until the
/// first's file lifecycle (staging through cleanup) has completed.
pub proof fn lemma_same_name_same_path(n1: Seq<char>, n2: Seq<char>)
    requires
        n1 == n2,
    ensures
        spec_staged_name(n1) == spec_staged_name(n2),
{
}

/// LAW (rejected upload is a server error): a non-success remote status
/// decides an upload response of `NotSuccessResponse` with that status,
/// classified externally as a server error.
pub proof fn lemma_rejected_upload_is_server_error(status: u16, body: String)
    requires
        !spec_is_success_status(status),
    ensures
        spec_upload_response(RemoteOutcome::Rejected(status, body)) matches Err(e)
            && e.spec_status_code() == 500,
{
}

} // verus!

