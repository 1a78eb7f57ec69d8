//! Intake of identity documents: one file per request, of an allowed type,
//! read piece by piece and refused as soon as it grows past the ceiling.

use crate::error::{AppError, AppErrorView};
use crate::reply::{Reply, OK};
use crate::text::{as_optional_str, optional_str, optional_text, str_equal};
use vstd::prelude::*;
use vstd::string::*;

verus! {

/// The most bytes a document may have: 10 MiB.
pub const MAX_FILE_SIZE: usize = 10 * 1024 * 1024;

/// The content type assumed for a file that declares none.
pub open spec fn default_content_type() -> Seq<char> {
    "application/octet-stream"@
}

/// The content types a document may have: JPEG and PNG images, and PDF.
pub open spec fn valid_document_type(content_type: Seq<char>) -> bool {
    ||| content_type == "image/jpeg"@
    ||| content_type == "image/jpg"@
    ||| content_type == "image/png"@
    ||| content_type == "application/pdf"@
}

/// Whether a content type is allowed for identity documents.
pub fn is_valid_document_type(content_type: &str) -> (valid: bool)
    ensures
        valid == valid_document_type(content_type@),
{
    str_equal(content_type, "image/jpeg")
        || str_equal(content_type, "image/jpg")
        || str_equal(content_type, "image/png")
        || str_equal(content_type, "application/pdf")
}

/// The error for a file without a name.
pub open spec fn no_filename() -> AppErrorView {
    AppErrorView::Validation("No filename provided"@)
}

/// The error for a file of a type that is not allowed.
pub open spec fn invalid_file_type() -> AppErrorView {
    AppErrorView::Validation("Invalid file type. Only images and PDFs are allowed."@)
}

/// The error for a file of more than [`MAX_FILE_SIZE`] bytes.
pub open spec fn file_too_large() -> AppErrorView {
    AppErrorView::Validation("File size exceeds the maximum allowed size of 10485760 bytes"@)
}

/// The error for a request that carries no file.
pub open spec fn no_file() -> AppErrorView {
    AppErrorView::Validation("No file provided"@)
}

/// A document while it is being received: its name and the bytes read so
/// far, never more of them than [`MAX_FILE_SIZE`].
#[derive(Debug)]
pub struct DocumentUpload {
    filename: String,
    data: Vec<u8>,
}

/// The acknowledgment of a received document.
#[derive(Debug, Clone, PartialEq, Eq)]
pub struct UploadReceipt {
    pub message: String,
    pub filename: String,
}

pub struct UploadReceiptView {
    pub message: Seq<char>,
    pub filename: Seq<char>,
}

impl View for UploadReceipt {
    type V = UploadReceiptView;

    open spec fn view(&self) -> UploadReceiptView {
        UploadReceiptView { message: self.message@, filename: self.filename@ }
    }
}

/// The acknowledgment of a document received under `filename`.
pub open spec fn receipt(filename: Seq<char>) -> UploadReceiptView {
    UploadReceiptView { message: "File received successfully"@, filename }
}

/// Whether a file with this name and content type may be received, and
/// the error if it may not: a file needs a name, and its type, or the
/// default where it declares none, must be an allowed one.
pub open spec fn admission(
    filename: Option<Seq<char>>,
    content_type: Option<Seq<char>>,
) -> Result<Seq<char>, AppErrorView> {
    match filename {
        None => Err(no_filename()),
        Some(name) => {
            let declared = match content_type {
                Some(t) => t,
                None => default_content_type(),
            };
            if valid_document_type(declared) {
                Ok(name)
            } else {
                Err(invalid_file_type())
            }
        },
    }
}

impl DocumentUpload {
    #[verifier::type_invariant]
    spec fn within_ceiling(self) -> bool {
        self.data@.len() <= MAX_FILE_SIZE
    }

    /// The name the document was sent under.
    pub closed spec fn name(self) -> Seq<char> {
        self.filename@
    }

    /// The bytes received so far.
    pub closed spec fn received(self) -> Seq<u8> {
        self.data@
    }

    /// Starts receiving a file, given the name and the content type that
    /// its part of the request declares.
    pub fn begin(
        filename: Option<&str>,
        content_type: Option<&str>,
    ) -> (upload: Result<DocumentUpload, AppError>)
        ensures
            match upload {
                Ok(u) => admission(optional_str(filename), optional_str(content_type)) == Ok::<
                    Seq<char>,
                    AppErrorView,
                >(u.name()) && u.received().len() == 0,
                Err(e) => admission(optional_str(filename), optional_str(content_type)) == Err::<
                    Seq<char>,
                    AppErrorView,
                >(e@),
            },
    {
        let name = match filename {
            Some(name) => name,
            None => {
                return Err(AppError::Validation(String::from_str("No filename provided")));
            },
        };
        let declared = match content_type {
            Some(t) => t,
            None => "application/octet-stream",
        };
        if !is_valid_document_type(declared) {
            return Err(
                AppError::Validation(
                    String::from_str("Invalid file type. Only images and PDFs are allowed."),
                ),
            );
        }
        Ok(DocumentUpload { filename: String::from_str(name), data: Vec::new() })
    }

    /// The number of bytes received so far.
    pub fn size(&self) -> (size: usize)
        ensures
            size == self.received().len(),
            size <= MAX_FILE_SIZE,
    {
        proof {
            use_type_invariant(self);
        }
        self.data.len()
    }

    /// The name the document was sent under.
    pub fn filename(&self) -> (name: &str)
        ensures
            name@ == self.name(),
    {
        self.filename.as_str()
    }

    /// The bytes received so far.
    pub fn data(&self) -> (data: &Vec<u8>)
        ensures
            data@ == self.received(),
            data@.len() <= MAX_FILE_SIZE,
    {
        proof {
            use_type_invariant(self);
        }
        &self.data
    }

    /// Takes in the next piece of the file. A piece that would take the
    /// document past [`MAX_FILE_SIZE`] is refused and nothing of it is
    /// kept.
    pub fn write_chunk(&mut self, chunk: &[u8]) -> (outcome: Result<(), AppError>)
        ensures
            final(self).name() == old(self).name(),
            match outcome {
                Ok(_) => {
                    &&& old(self).received().len() + chunk@.len() <= MAX_FILE_SIZE
                    &&& final(self).received() == old(self).received() + chunk@
                },
                Err(e) => {
                    &&& old(self).received().len() + chunk@.len() > MAX_FILE_SIZE
                    &&& final(self).received() == old(self).received()
                    &&& e@ == file_too_large()
                },
            },
    {
        proof {
            use_type_invariant(&*self);
        }
        if chunk.len() > MAX_FILE_SIZE - self.data.len() {
            return Err(
                AppError::Validation(
                    String::from_str(
                        "File size exceeds the maximum allowed size of 10485760 bytes",
                    ),
                ),
            );
        }
        let mut data: Vec<u8> = Vec::new();
        std::mem::swap(&mut data, &mut self.data);
        data.extend_from_slice(chunk);
        self.data = data;
        Ok(())
    }

    /// Ends the upload and acknowledges the document.
    pub fn finish(self) -> (done: UploadReceipt)
        ensures
            done@ == receipt(self.name()),
    {
        UploadReceipt {
            message: String::from_str("File received successfully"),
            filename: self.filename,
        }
    }
}

/// One file of a multipart request, as it was sent: the name and content
/// type that the part declares, and its bytes in the pieces they came in.
#[derive(Debug, Clone, PartialEq, Eq)]
pub struct FilePart {
    pub filename: Option<String>,
    pub content_type: Option<String>,
    pub chunks: Vec<Vec<u8>>,
}

/// The number of bytes in all the pieces together.
pub open spec fn total_size(chunks: Seq<Vec<u8>>) -> nat
    decreases chunks.len(),
{
    if chunks.len() == 0 {
        0
    } else {
        total_size(chunks.drop_last()) + chunks.last()@.len()
    }
}

/// The outcome of an upload: a request without a file is refused; of the
/// files only the first counts, which must be admitted and must not have
/// more than [`MAX_FILE_SIZE`] bytes.
pub open spec fn upload_outcome(parts: Seq<FilePart>) -> Result<UploadReceiptView, AppErrorView> {
    if parts.len() == 0 {
        Err(no_file())
    } else {
        match admission(optional_text(parts[0].filename), optional_text(parts[0].content_type)) {
            Err(e) => Err(e),
            Ok(name) => if total_size(parts[0].chunks@) > MAX_FILE_SIZE {
                Err(file_too_large())
            } else {
                Ok(receipt(name))
            },
        }
    }
}

/// The first pieces of a file never hold more bytes than all of them.
pub proof fn lemma_total_size_monotonic(chunks: Seq<Vec<u8>>, n: int)
    requires
        0 <= n <= chunks.len(),
    ensures
        total_size(chunks.take(n)) <= total_size(chunks),
    decreases chunks.len() - n,
{
    if n == chunks.len() {
        assert(chunks.take(n) =~= chunks);
    } else {
        lemma_total_size_monotonic(chunks, n + 1);
        assert(chunks.take(n + 1).drop_last() =~= chunks.take(n));
    }
}

/// A file of more than [`MAX_FILE_SIZE`] bytes is refused, whatever its
/// name and type and however its bytes are cut into pieces; a file that is
/// admitted and has no more bytes than that is acknowledged under its
/// name.
pub proof fn lemma_upload_ceiling(parts: Seq<FilePart>)
    requires
        parts.len() > 0,
    ensures
        total_size(parts[0].chunks@) > MAX_FILE_SIZE ==> upload_outcome(parts) is Err,
        total_size(parts[0].chunks@) <= MAX_FILE_SIZE ==> (upload_outcome(parts) is Ok
            <==> admission(
            optional_text(parts[0].filename),
            optional_text(parts[0].content_type),
        ) is Ok),
        upload_outcome(parts) matches Ok(done) ==> parts[0].filename matches Some(name)
            && done == receipt(name@),
{
}

/// Receives the document of a request from the files it carries. Only the
/// first file is read; its pieces are taken in one by one, and the upload
/// is refused at the first piece that takes it past the ceiling.
pub fn upload_document(parts: &Vec<FilePart>) -> (outcome: Result<Reply<UploadReceipt>, AppError>)
    ensures
        match outcome {
            Ok(reply) => reply.status == OK && upload_outcome(parts@) == Ok::<
                UploadReceiptView,
                AppErrorView,
            >(reply.body@),
            Err(e) => upload_outcome(parts@) == Err::<UploadReceiptView, AppErrorView>(e@),
        },
{
    if parts.len() == 0 {
        return Err(AppError::Validation(String::from_str("No file provided")));
    }
    let part = &parts[0];
    let mut upload = match DocumentUpload::begin(
        as_optional_str(&part.filename),
        as_optional_str(&part.content_type),
    ) {
        Ok(upload) => upload,
        Err(e) => {
            return Err(e);
        },
    };
    let ghost name = upload.name();
    let mut i: usize = 0;
    while i < part.chunks.len()
        invariant
            i <= part.chunks.len(),
            parts@.len() > 0,
            *part == parts@[0],
            admission(optional_text(part.filename), optional_text(part.content_type)) == Ok::<
                Seq<char>,
                AppErrorView,
            >(name),
            upload.name() == name,
            upload.received().len() == total_size(part.chunks@.take(i as int)),
        decreases part.chunks.len() - i,
    {
        proof {
            assert(part.chunks@.take(i + 1).drop_last() =~= part.chunks@.take(i as int));
            lemma_total_size_monotonic(part.chunks@, i + 1);
        }
        match upload.write_chunk(part.chunks[i].as_slice()) {
            Ok(_) => {},
            Err(e) => {
                return Err(e);
            },
        }
        i = i + 1;
    }
    proof {
        assert(part.chunks@.take(i as int) =~= part.chunks@);
        use_type_invariant(&upload);
    }
    Ok(Reply { status: OK, body: upload.finish() })
}

/// A stored document as it is sent back.
#[derive(Debug, Clone, PartialEq, Eq)]
pub struct DocumentBody {
    pub content_type: String,
    pub body: String,
}

/// Hands out the document stored under `document_key`. Nothing is stored
/// yet: the answer is a stand-in that names the key.
pub fn get_document(document_key: &str) -> (reply: Reply<DocumentBody>)
    ensures
        reply.status == OK,
        reply.body.content_type@ == "application/octet-stream"@,
        reply.body.body@ == "Dummy content for document: "@ + document_key@,
{
    Reply {
        status: OK,
        body: DocumentBody {
            content_type: String::from_str("application/octet-stream"),
            body: String::from_str("Dummy content for document: ").concat(document_key),
        },
    }
}

} // verus!
