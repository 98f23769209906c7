//! Shaping a file-copy request into the document that the policy sees.
use crate::text::{clone_string, copy_bytes};
use vstd::prelude::*;

verus! {

/// The file-type bits of a symbolic link.
pub const S_IFLNK: u32 = 0o120000;

/// A mode whose file-type bits include those of a symbolic link.
pub open spec fn is_symlink_mode(mode: u32) -> bool {
    mode & S_IFLNK == S_IFLNK
}

/// Relies on nix's `SFlag::from_bits_truncate` and `SFlag::contains`: the
/// truncation keeps every known file-type bit, `S_IFLNK` among them, and
/// `contains` holds when all of `S_IFLNK`'s bits are set.
#[verifier::external_body]
fn mode_has_symlink_bits(mode: u32) -> (r: bool)
    ensures
        r == is_symlink_mode(mode),
{
    let sflag = nix::sys::stat::SFlag::from_bits_truncate(mode);
    sflag.contains(nix::sys::stat::SFlag::S_IFLNK)
}

/// A request to copy a file into the guest.
#[derive(Debug, Clone, PartialEq, Eq)]
pub struct CopyFileRequest {
    pub path: String,
    pub file_size: i64,
    pub file_mode: u32,
    pub dir_mode: u32,
    pub uid: i32,
    pub gid: i32,
    pub offset: i64,
    /// File contents, or the link target when a symbolic link is created.
    pub data: Vec<u8>,
}

/// What the policy sees of a file-copy request: the data bytes only as the
/// target of a symbolic link, never as file contents.
#[derive(Debug, Clone, PartialEq, Eq)]
pub struct PolicyCopyFileRequest {
    pub path: String,
    pub file_size: i64,
    pub file_mode: u32,
    pub dir_mode: u32,
    pub uid: i32,
    pub gid: i32,
    pub offset: i64,
    /// The link target, byte for byte; empty unless a link is created.
    pub symlink_src: Vec<u8>,
}

/// The link target that the policy sees for a request.
pub open spec fn symlink_src_of(req: CopyFileRequest) -> Seq<u8> {
    if is_symlink_mode(req.file_mode) {
        req.data@
    } else {
        Seq::empty()
    }
}

/// `doc` is the policy's view of `req`.
pub open spec fn sanitized_from(doc: PolicyCopyFileRequest, req: CopyFileRequest) -> bool {
    &&& doc.path@ == req.path@
    &&& doc.file_size == req.file_size
    &&& doc.file_mode == req.file_mode
    &&& doc.dir_mode == req.dir_mode
    &&& doc.uid == req.uid
    &&& doc.gid == req.gid
    &&& doc.offset == req.offset
    &&& doc.symlink_src@ == symlink_src_of(req)
}

/// A sanitised document read back as a request, its link target as the data.
pub open spec fn as_request(doc: PolicyCopyFileRequest) -> CopyFileRequest {
    CopyFileRequest {
        path: doc.path,
        file_size: doc.file_size,
        file_mode: doc.file_mode,
        dir_mode: doc.dir_mode,
        uid: doc.uid,
        gid: doc.gid,
        offset: doc.offset,
        data: doc.symlink_src,
    }
}

/// The document that the policy sees for a file-copy request: for a symbolic
/// link the data bytes become the link target; otherwise they are dropped.
pub fn sanitize_copy_file(req: &CopyFileRequest) -> (r: PolicyCopyFileRequest)
    ensures
        sanitized_from(r, *req),
{
    let symlink_src = if mode_has_symlink_bits(req.file_mode) {
        copy_bytes(req.data.as_slice())
    } else {
        Vec::new()
    };
    PolicyCopyFileRequest {
        path: clone_string(&req.path),
        file_size: req.file_size,
        file_mode: req.file_mode,
        dir_mode: req.dir_mode,
        uid: req.uid,
        gid: req.gid,
        offset: req.offset,
        symlink_src,
    }
}

/// The sanitised document read back as a request.
pub fn to_request(doc: &PolicyCopyFileRequest) -> (r: CopyFileRequest)
    ensures
        r.path@ == doc.path@,
        r.data@ == doc.symlink_src@,
        r.file_size == doc.file_size && r.file_mode == doc.file_mode,
        r.dir_mode == doc.dir_mode && r.uid == doc.uid && r.gid == doc.gid,
        r.offset == doc.offset,
{
    CopyFileRequest {
        path: clone_string(&doc.path),
        file_size: doc.file_size,
        file_mode: doc.file_mode,
        dir_mode: doc.dir_mode,
        uid: doc.uid,
        gid: doc.gid,
        offset: doc.offset,
        data: copy_bytes(doc.symlink_src.as_slice()),
    }
}

/// Sanitising is idempotent: a sanitised document, read back as a request and
/// sanitised again, gives the same document.
pub proof fn lemma_sanitize_idempotent(
    req: CopyFileRequest,
    doc: PolicyCopyFileRequest,
    again: PolicyCopyFileRequest,
)
    requires
        sanitized_from(doc, req),
        sanitized_from(again, as_request(doc)),
    ensures
        again.path@ == doc.path@,
        again.symlink_src@ == doc.symlink_src@,
        again.file_size == doc.file_size && again.file_mode == doc.file_mode,
        again.dir_mode == doc.dir_mode && again.uid == doc.uid && again.gid == doc.gid,
        again.offset == doc.offset,
{
}

/// For a symbolic link the target is the raw data, byte for byte; for any
/// other file the target is empty, whatever the data holds.
pub proof fn lemma_symlink_target(req: CopyFileRequest, doc: PolicyCopyFileRequest)
    requires
        sanitized_from(doc, req),
    ensures
        is_symlink_mode(req.file_mode) ==> doc.symlink_src@ == req.data@,
        !is_symlink_mode(req.file_mode) ==> doc.symlink_src@.len() == 0,
{
}

} // verus!
