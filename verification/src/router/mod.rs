//! The HTTP layer's own rules: upload limits, request validation and the
//! decisions behind each route.
use vstd::prelude::*;

pub mod file_downloads;
pub mod image_downloads;
pub mod messages;
pub mod chats;
pub mod contacts;
pub mod sync;
pub mod ui;

verus! {

/// One mebibyte.
pub const MIB: usize = 1048576;

/// The largest decoded upload accepted.
pub const MAX_UPLOAD_BYTES: usize = 134217728;

/// The base64 length of the largest upload: four characters per started group of three bytes.
pub const MAX_UPLOAD_BASE64_BYTES: usize = (MAX_UPLOAD_BYTES + 2) / 3 * 4;

/// The HTTP body limit: the encoded upload plus one mebibyte of JSON around it.
pub const HTTP_BODY_LIMIT_BYTES: usize = MAX_UPLOAD_BASE64_BYTES + MIB;

/// The length of the base64 text of `n` bytes, with padding.
pub open spec fn base64_len(n: int) -> int {
    (n + 2) / 3 * 4
}

/// The body limit leaves room for the base64 text of the largest upload and
/// one mebibyte more.
pub proof fn lemma_body_limit_holds_encoded_upload()
    ensures
        MAX_UPLOAD_BYTES == 128 * MIB,
        MAX_UPLOAD_BASE64_BYTES == base64_len(MAX_UPLOAD_BYTES as int),
        HTTP_BODY_LIMIT_BYTES == base64_len(MAX_UPLOAD_BYTES as int) + MIB,
        forall|n: int| 0 <= n <= MAX_UPLOAD_BYTES ==> #[trigger] base64_len(n) + MIB <= HTTP_BODY_LIMIT_BYTES,
{
}

} // verus!
