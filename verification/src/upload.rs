//! Uploading plans without an account: the requests that go with an upload,
//! how a large file is cut into parts, the upload form and its progress.
use vstd::prelude::*;
use vstd::string::*;
use crate::text::{
    byte_len, concat, contains_char, ends_with, ends_with_seq, lowercase, push_decimal, decimal,
    str_eq, to_lowercase, trim, trim_seq,
};

verus! {

/// Size of one part of a multipart upload: 5 MiB.
pub const CHUNK_SIZE: usize = 5242880;

/// Upload namespace of plans.
pub open spec fn plan_namespace() -> Seq<char> {
    "plan"@
}

/// A file that has been uploaded, as the project will link it.
pub struct UploadedFileInfo {
    pub image_id: String,
    pub file_name: String,
    pub url: String,
    pub content_type: String,
    pub file_size: u64,
}

/// The project created from a public upload.
pub struct PublicProjectBootstrap {
    pub project_id: String,
    pub block_id: String,
    pub project_name: String,
    pub project_email: String,
}

/// Request that announces an upload.
pub struct InitiateUploadRequest {
    pub file_name: String,
    pub content_type: String,
    pub file_size: usize,
    pub upload_namespace: String,
}

/// One uploaded part of a multipart upload.
pub struct CompletedPart {
    pub part_number: i32,
    pub etag: String,
}

/// Request that completes an upload.
pub struct CompleteUploadRequest {
    pub image_id: String,
    pub upload_id: String,
    pub extension: String,
    pub parts: Vec<CompletedPart>,
    pub upload_namespace: String,
}

/// Request that creates a project from uploaded files.
pub struct CreatePublicProjectRequest {
    pub project_name: String,
    pub email: String,
    pub file_ids: Vec<UploadedFileInfo>,
}

/// Content type sent for a file: its own, or PDF when the browser gave none.
pub open spec fn spec_upload_content_type(file_type: Seq<char>) -> Seq<char> {
    if file_type.len() == 0 {
        "application/pdf"@
    } else {
        file_type
    }
}

/// Request that announces the upload of a file.
pub fn initiate_upload_request(file_name: &str, file_type: &str, file_size: usize) -> (r:
    InitiateUploadRequest)
    ensures
        r.file_name@ == file_name@,
        r.content_type@ == spec_upload_content_type(file_type@),
        r.file_size == file_size,
        r.upload_namespace@ == plan_namespace(),
{
    InitiateUploadRequest {
        file_name: String::from_str(file_name),
        content_type: upload_content_type(file_type),
        file_size,
        upload_namespace: String::from_str("plan"),
    }
}

/// Content type sent for a file (see `spec_upload_content_type`).
pub fn upload_content_type(file_type: &str) -> (r: String)
    ensures
        r@ == spec_upload_content_type(file_type@),
{
    if file_type.unicode_len() == 0 {
        String::from_str("application/pdf")
    } else {
        String::from_str(file_type)
    }
}

/// Request that completes a single-part upload.
pub fn complete_single_upload_request(image_id: &str, extension: &str) -> (r: CompleteUploadRequest)
    ensures
        r.image_id@ == image_id@,
        r.upload_id@ == Seq::<char>::empty(),
        r.extension@ == extension@,
        r.parts@.len() == 0,
        r.upload_namespace@ == plan_namespace(),
{
    CompleteUploadRequest {
        image_id: String::from_str(image_id),
        upload_id: String::new(),
        extension: String::from_str(extension),
        parts: Vec::new(),
        upload_namespace: String::from_str("plan"),
    }
}

/// Request that completes a multipart upload with the parts that were sent.
pub fn complete_multipart_upload_request(
    image_id: &str,
    upload_id: &str,
    extension: &str,
    parts: Vec<CompletedPart>,
) -> (r: CompleteUploadRequest)
    ensures
        r.image_id@ == image_id@,
        r.upload_id@ == upload_id@,
        r.extension@ == extension@,
        r.parts@ == parts@,
        r.upload_namespace@ == plan_namespace(),
{
    CompleteUploadRequest {
        image_id: String::from_str(image_id),
        upload_id: String::from_str(upload_id),
        extension: String::from_str(extension),
        parts,
        upload_namespace: String::from_str("plan"),
    }
}

/// Byte range `[start, end)` of part `index` of a file of `file_size` bytes.
pub open spec fn spec_part_range(index: int, file_size: int) -> (int, int) {
    let start = index * CHUNK_SIZE;
    let end = (index + 1) * CHUNK_SIZE;
    (start, if end < file_size {
        end
    } else {
        file_size
    })
}

/// Byte range of part `index` of a multipart upload.
pub fn part_range(index: usize, file_size: usize) -> (r: (usize, usize))
    requires
        (index + 1) * CHUNK_SIZE <= usize::MAX,
    ensures
        r.0 == spec_part_range(index as int, file_size as int).0,
        r.1 == spec_part_range(index as int, file_size as int).1,
{
    assert(index * CHUNK_SIZE <= (index + 1) * CHUNK_SIZE) by (nonlinear_arith);
    let start = index * CHUNK_SIZE;
    let end = (index + 1) * CHUNK_SIZE;
    (start, if end < file_size {
        end
    } else {
        file_size
    })
}

/// The parts of a file, in order, fit together without gaps or overlaps and
/// cover it: each part ends where the next begins, no part is longer than
/// `CHUNK_SIZE`, and the part that holds the last byte ends at the end of
/// the file.
pub proof fn lemma_parts_tile_file(index: int, file_size: int)
    requires
        0 <= index,
        index * CHUNK_SIZE < file_size,
    ensures
        spec_part_range(index, file_size).0 < spec_part_range(index, file_size).1,
        spec_part_range(index, file_size).1 - spec_part_range(index, file_size).0 <= CHUNK_SIZE,
        spec_part_range(index + 1, file_size).0 == (index + 1) * CHUNK_SIZE,
        spec_part_range(index, file_size).1 < file_size ==> spec_part_range(index, file_size).1
            == spec_part_range(index + 1, file_size).0,
        spec_part_range(index, file_size).1 == file_size ==> (index + 1) * CHUNK_SIZE
            >= file_size,
{
    assert((index + 1) * CHUNK_SIZE == index * CHUNK_SIZE + CHUNK_SIZE) by (nonlinear_arith);
}

/// Number of parts a file of `file_size` bytes is cut into.
pub open spec fn part_count(file_size: nat) -> nat {
    ((file_size + CHUNK_SIZE - 1) / (CHUNK_SIZE as int)) as nat
}

/// With as many parts as `part_count` says, the last part ends exactly at
/// the end of the file, and every earlier part is full.
pub proof fn lemma_part_count_covers_file(file_size: nat)
    requires
        file_size > 0,
    ensures
        part_count(file_size) >= 1,
        (part_count(file_size) - 1) * CHUNK_SIZE < file_size,
        part_count(file_size) * CHUNK_SIZE >= file_size,
        spec_part_range(part_count(file_size) - 1, file_size as int).1 == file_size,
{
    let n = part_count(file_size);
    let c = CHUNK_SIZE as int;
    assert(n * c <= file_size + c - 1 && file_size + c - 1 < (n + 1) * c) by (nonlinear_arith)
        requires
            n == (file_size + c - 1) / c,
            c > 0,
            file_size > 0,
    ;
    assert((n - 1) * c == n * c - c) by (nonlinear_arith);
}

/// `s` without the double quotes at its two ends (what `trim_matches('"')` returns).
pub open spec fn strip_quotes(s: Seq<char>) -> Seq<char>
    decreases s.len(),
{
    if s.len() > 0 && s[0] == '"' {
        strip_quotes(s.drop_first())
    } else if s.len() > 0 && s.last() == '"' {
        strip_quotes(s.drop_last())
    } else {
        s
    }
}

proof fn lemma_strip_quotes_interior(s: Seq<char>, i: int, j: int)
    requires
        0 <= i <= j <= s.len(),
        forall|k: int| 0 <= k < i ==> s[k] == '"',
        forall|k: int| j <= k < s.len() ==> s[k] == '"',
        i < j ==> s[i] != '"' && s[j - 1] != '"',
        i == j ==> j == s.len(),
    ensures
        strip_quotes(s) == s.subrange(i, j),
    decreases s.len(),
{
    if s.len() > 0 && s[0] == '"' {
        let t = s.drop_first();
        if i == 0 {
            assert(i < j);
        }
        lemma_strip_quotes_interior(t, i - 1, j - 1);
        assert(t.subrange(i - 1, j - 1) =~= s.subrange(i, j));
    } else if s.len() > 0 && s.last() == '"' {
        let t = s.drop_last();
        if j == s.len() {
            if i < j {
                assert(s[j - 1] != '"');
            }
        }
        lemma_strip_quotes_interior(t, i, if j == s.len() { j - 1 } else { j });
        if j == s.len() {
            assert(i == j);
        }
        assert(t.subrange(i, if j == s.len() { j - 1 } else { j }) =~= s.subrange(i, j));
    } else {
        if s.len() > 0 {
            assert(i == 0);
            assert(j == s.len());
        }
        assert(s.subrange(i, j) =~= s);
    }
}

/// ETag of an uploaded part, from its header: without the surrounding quotes.
pub fn etag_value(header: &str) -> (etag: String)
    ensures
        etag@ == strip_quotes(header@),
{
    let n = header.unicode_len();
    let mut i: usize = 0;
    while i < n && header.get_char(i) == '"'
        invariant
            n == header@.len(),
            i <= n,
            forall|k: int| 0 <= k < i ==> header@[k] == '"',
        decreases n - i,
    {
        i = i + 1;
    }
    let mut j: usize = n;
    while j > i && header.get_char(j - 1) == '"'
        invariant
            n == header@.len(),
            i <= j <= n,
            forall|k: int| j <= k < n ==> header@[k] == '"',
        decreases j,
    {
        j = j - 1;
    }
    proof {
        if i == j && i < n {
            assert(header@[i as int] == '"');
        }
        lemma_strip_quotes_interior(header@, i as int, j as int);
    }
    if i == j {
        assert(header@.subrange(i as int, j as int) =~= Seq::<char>::empty());
        return String::new();
    }
    String::from_str(header.substring_char(i, j))
}

/// Request that creates a project from the uploaded files.
pub fn create_public_project(project_name: &str, email: &str, files: Vec<UploadedFileInfo>) -> (r:
    CreatePublicProjectRequest)
    ensures
        r.project_name@ == project_name@,
        r.email@ == email@,
        r.file_ids@ == files@,
{
    CreatePublicProjectRequest {
        project_name: String::from_str(project_name),
        email: String::from_str(email),
        file_ids: files,
    }
}

/// Whether an email looks usable: not blank and with an `@`.
pub open spec fn spec_has_email(email: Seq<char>) -> bool {
    trim_seq(email).len() > 0 && email.contains('@')
}

/// Whether a project name is long enough: three bytes or more once trimmed.
pub open spec fn spec_has_name(name: Seq<char>) -> bool {
    byte_len(trim_seq(name)) >= 3
}

/// Whether an email looks usable (see `spec_has_email`).
pub fn has_email(email: &str) -> (r: bool)
    ensures
        r == spec_has_email(email@),
{
    let t = trim(email);
    t.as_str().unicode_len() > 0 && contains_char(email, '@')
}

/// Whether a project name is long enough (see `spec_has_name`).
pub fn has_name(name: &str) -> (r: bool)
    ensures
        byte_len(trim_seq(name@)) <= usize::MAX ==> r == spec_has_name(name@),
{
    let t = trim(name);
    t.as_str().len() >= 3
}

/// Whether the plans form may be sent: plans uploaded, a name, an email, and
/// no request already under way.
pub fn can_submit_plans(uploaded_count: usize, name: &str, email: &str, is_submitting: bool) -> (r:
    bool)
    ensures
        byte_len(trim_seq(name@)) <= usize::MAX ==> r == (uploaded_count > 0 && spec_has_name(
            name@,
        ) && spec_has_email(email@) && !is_submitting),
{
    uploaded_count > 0 && has_name(name) && has_email(email) && !is_submitting
}

/// Whether the email form that follows an upload may be sent.
pub fn can_submit_collect_email(name: &str, email: &str) -> (r: bool)
    ensures
        byte_len(trim_seq(name@)) <= usize::MAX ==> r == (spec_has_name(name@) && spec_has_email(
            email@,
        )),
{
    has_name(name) && has_email(email)
}

/// Caption of the button that sends the plans form.
pub fn submit_button_label(is_submitting: bool, is_uploading: bool) -> (label: &'static str)
    ensures
        is_submitting ==> label@ == "Creating..."@,
        !is_submitting && is_uploading ==> label@ == "Uploading..."@,
        !is_submitting && !is_uploading ==> label@ == "Submit"@,
{
    if is_submitting {
        "Creating..."
    } else if is_uploading {
        "Uploading..."
    } else {
        "Submit"
    }
}

/// Number of files listed on the form: the ones just picked, or else the
/// ones uploaded earlier.
pub fn listed_file_count(selected: usize, uploaded: usize) -> (count: usize)
    ensures
        selected > 0 ==> count == selected,
        selected == 0 ==> count == uploaded,
{
    if selected > 0 {
        selected
    } else {
        uploaded
    }
}

/// Whether drafts of the upload form are kept in the browser: only away
/// from the production site (`doxle.ai` and its subdomains), and never when
/// the host name is unknown.
pub fn upload_draft_storage_enabled(hostname: Option<&str>) -> (enabled: bool)
    ensures
        hostname is None ==> !enabled,
        hostname matches Some(h) ==> enabled == (lowercase(h@) != "doxle.ai"@ && !ends_with_seq(
            lowercase(h@),
            ".doxle.ai"@,
        )),
{
    match hostname {
        Some(h) => {
            let host = to_lowercase(h);
            !str_eq(host.as_str(), "doxle.ai") && !ends_with(host.as_str(), ".doxle.ai")
        },
        None => false,
    }
}

/// Progress of a batch of uploads: how many have finished, how many failed,
/// and the files that made it, in the order they finished.
pub struct UploadTally {
    pub total: usize,
    pub finished: usize,
    pub failed: usize,
    pub results: Vec<UploadedFileInfo>,
}

impl UploadTally {
    /// Whether the counts fit together.
    pub open spec fn wf(&self) -> bool {
        &&& self.finished <= self.total
        &&& self.failed <= self.finished
        &&& self.results@.len() + self.failed == self.finished
    }

    /// A batch of `total` uploads, none finished.
    pub fn new(total: usize) -> (t: Self)
        ensures
            t.wf(),
            t.total == total,
            t.finished == 0,
            t.failed == 0,
            t.results@.len() == 0,
    {
        UploadTally { total, finished: 0, failed: 0, results: Vec::new() }
    }

    /// Records the outcome of one upload of the batch.
    pub fn record(&mut self, outcome: Result<UploadedFileInfo, String>)
        requires
            old(self).wf(),
            old(self).finished < old(self).total,
        ensures
            final(self).wf(),
            final(self).total == old(self).total,
            final(self).finished == old(self).finished + 1,
            outcome is Ok ==> final(self).failed == old(self).failed && final(self).results@
                == old(self).results@.push(outcome->Ok_0),
            outcome is Err ==> final(self).failed == old(self).failed + 1 && final(self).results@
                == old(self).results@,
    {
        self.finished = self.finished + 1;
        match outcome {
            Ok(info) => self.results.push(info),
            Err(_) => {
                self.failed = self.failed + 1;
            },
        }
    }

    /// Progress text, "Uploading F/T".
    pub fn progress_label(&self) -> (label: String)
        ensures
            label@ == "Uploading "@ + decimal(self.finished as nat) + "/"@ + decimal(
                self.total as nat,
            ),
    {
        let mut s = String::from_str("Uploading ");
        push_decimal(&mut s, self.finished as u64);
        s.append("/");
        push_decimal(&mut s, self.total as u64);
        s
    }

    /// Message once the batch is done: how many failed, or how many arrived.
    pub fn result_message(&self) -> (message: String)
        ensures
            self.failed > 0 ==> message@ == decimal(self.failed as nat) + " of "@ + decimal(
                self.total as nat,
            ) + " uploads failed"@,
            self.failed == 0 ==> message@ == "Uploaded "@ + decimal(self.total as nat)
                + " plans"@,
    {
        let mut s = String::new();
        if self.failed > 0 {
            push_decimal(&mut s, self.failed as u64);
            s.append(" of ");
            push_decimal(&mut s, self.total as u64);
            s.append(" uploads failed");
        } else {
            s.append("Uploaded ");
            push_decimal(&mut s, self.total as u64);
            s.append(" plans");
        }
        s
    }
}

} // verus!
