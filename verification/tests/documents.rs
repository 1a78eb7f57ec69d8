use admin_backend::error::AppError;
use admin_backend::handlers::document::{
    get_document, is_valid_document_type, upload_document, DocumentUpload, FilePart,
    UploadReceipt, MAX_FILE_SIZE,
};

const MIB: usize = 1024 * 1024;

fn part(filename: Option<&str>, content_type: Option<&str>, chunks: Vec<Vec<u8>>) -> FilePart {
    FilePart {
        filename: filename.map(|f| f.to_string()),
        content_type: content_type.map(|t| t.to_string()),
        chunks,
    }
}

fn too_large() -> AppError {
    AppError::Validation(
        "File size exceeds the maximum allowed size of 10485760 bytes".to_string(),
    )
}

#[test]
fn ceiling_is_ten_mebibytes() {
    assert_eq!(MAX_FILE_SIZE, 10_485_760);
}

#[test]
fn only_images_and_pdf_are_documents() {
    for good in ["image/jpeg", "image/jpg", "image/png", "application/pdf"] {
        assert!(is_valid_document_type(good));
    }
    for bad in [
        "",
        "image/gif",
        "IMAGE/PNG",
        "image/png ",
        "image/png; charset=binary",
        "application/octet-stream",
        "text/plain",
        "application/pdfx",
    ] {
        assert!(!is_valid_document_type(bad), "{:?}", bad);
    }
}

#[test]
fn fifteen_mebibytes_are_refused_before_they_are_buffered() {
    let mut upload = DocumentUpload::begin(Some("id.png"), Some("image/png")).unwrap();
    let chunk = vec![7u8; MIB];
    let mut accepted = 0;
    let mut refused = None;
    for _ in 0..15 {
        match upload.write_chunk(&chunk) {
            Ok(()) => accepted += 1,
            Err(e) => {
                refused = Some(e);
                break;
            }
        }
        assert!(upload.size() <= MAX_FILE_SIZE);
    }
    assert_eq!(accepted, 10);
    assert_eq!(refused, Some(too_large()));
    assert_eq!(upload.size(), 10 * MIB);
    assert_eq!(upload.data().len(), 10 * MIB);

    let whole = part(Some("id.png"), Some("image/png"), vec![chunk; 15]);
    let outcome = upload_document(&vec![whole]);
    assert_eq!(outcome, Err(too_large()));
    assert_eq!(outcome.unwrap_err().status_code(), 400);
}

#[test]
fn upload_at_the_ceiling_is_accepted_and_one_byte_more_is_not() {
    let mut upload = DocumentUpload::begin(Some("scan.pdf"), Some("application/pdf")).unwrap();
    assert_eq!(upload.write_chunk(&vec![1u8; MAX_FILE_SIZE - 1]), Ok(()));
    assert_eq!(upload.write_chunk(&[2u8, 3u8]), Err(too_large()));
    assert_eq!(upload.size(), MAX_FILE_SIZE - 1);
    assert_eq!(upload.write_chunk(&[2u8]), Ok(()));
    assert_eq!(upload.size(), MAX_FILE_SIZE);
    assert_eq!(upload.write_chunk(&[]), Ok(()));
    assert_eq!(upload.write_chunk(&[9u8]), Err(too_large()));
    assert_eq!(upload.size(), MAX_FILE_SIZE);
    assert_eq!(upload.data()[MAX_FILE_SIZE - 1], 2);

    let single = part(Some("a.pdf"), Some("application/pdf"), vec![vec![0u8; MAX_FILE_SIZE]]);
    assert!(upload_document(&vec![single]).is_ok());
    let over = part(Some("a.pdf"), Some("application/pdf"), vec![vec![0u8; MAX_FILE_SIZE + 1]]);
    assert_eq!(upload_document(&vec![over]), Err(too_large()));
}

#[test]
fn pieces_are_kept_in_order() {
    let mut upload = DocumentUpload::begin(Some("a.jpg"), Some("image/jpeg")).unwrap();
    assert_eq!(upload.size(), 0);
    assert_eq!(upload.filename(), "a.jpg");
    upload.write_chunk(&[1, 2, 3]).unwrap();
    upload.write_chunk(&[]).unwrap();
    upload.write_chunk(&[4]).unwrap();
    assert_eq!(upload.data(), &vec![1u8, 2, 3, 4]);
    assert_eq!(upload.size(), 4);
    assert_eq!(
        upload.finish(),
        UploadReceipt {
            message: "File received successfully".to_string(),
            filename: "a.jpg".to_string(),
        }
    );
}

#[test]
fn file_needs_a_name_and_an_allowed_type() {
    let no_name = AppError::Validation("No filename provided".to_string());
    let bad_type = AppError::Validation(
        "Invalid file type. Only images and PDFs are allowed.".to_string(),
    );
    assert_eq!(DocumentUpload::begin(None, Some("image/png")).unwrap_err(), no_name);
    assert_eq!(DocumentUpload::begin(None, None).unwrap_err(), no_name);
    assert_eq!(DocumentUpload::begin(None, Some("text/plain")).unwrap_err(), no_name);
    assert_eq!(DocumentUpload::begin(Some("a.txt"), Some("text/plain")).unwrap_err(), bad_type);
    assert_eq!(DocumentUpload::begin(Some("a.bin"), None).unwrap_err(), bad_type);
    assert!(DocumentUpload::begin(Some(""), Some("image/jpg")).is_ok());
    assert_eq!(no_name.status_code(), 400);
    assert_eq!(bad_type.status_code(), 400);
}

#[test]
fn only_the_first_file_of_a_request_counts() {
    let good = part(Some("id.png"), Some("image/png"), vec![vec![1, 2], vec![3]]);
    let bad = part(None, Some("text/plain"), vec![vec![0u8; 11 * MIB]]);

    let reply = upload_document(&vec![good.clone(), bad.clone()]).unwrap();
    assert_eq!(reply.status, 200);
    assert_eq!(
        reply.body,
        UploadReceipt {
            message: "File received successfully".to_string(),
            filename: "id.png".to_string(),
        }
    );

    assert_eq!(
        upload_document(&vec![bad, good]),
        Err(AppError::Validation("No filename provided".to_string()))
    );
    assert_eq!(
        upload_document(&Vec::new()),
        Err(AppError::Validation("No file provided".to_string()))
    );
}

#[test]
fn type_is_looked_at_before_the_size() {
    let huge_text = part(Some("a.txt"), Some("text/plain"), vec![vec![0u8; 11 * MIB]]);
    assert_eq!(
        upload_document(&vec![huge_text]),
        Err(AppError::Validation(
            "Invalid file type. Only images and PDFs are allowed.".to_string()
        ))
    );
    let empty = part(Some("e.pdf"), Some("application/pdf"), Vec::new());
    assert_eq!(upload_document(&vec![empty]).unwrap().body.filename, "e.pdf");
}

#[test]
fn stored_document_is_a_stand_in() {
    let reply = get_document("passport-17");
    assert_eq!(reply.status, 200);
    assert_eq!(reply.body.content_type, "application/octet-stream");
    assert_eq!(reply.body.body, "Dummy content for document: passport-17");
}
