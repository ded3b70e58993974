use vstd::prelude::*;

verus! {

/// walkdir's walk builder, opaque here.
#[verifier::external_type_specification]
#[verifier::external_body]
pub struct ExWalkDir(walkdir::WalkDir);

/// walkdir's entry iterator, opaque here.
#[verifier::external_type_specification]
#[verifier::external_body]
pub struct ExIntoIter(walkdir::IntoIter);

/// walkdir's directory entry, opaque here; the wrappers below read it.
#[verifier::external_type_specification]
#[verifier::external_body]
pub struct ExDirEntry(walkdir::DirEntry);

/// walkdir's error, opaque here; carried on only as its debug text.
#[verifier::external_type_specification]
#[verifier::external_body]
pub struct ExWalkError(walkdir::Error);

/// Relies on walkdir::WalkDir::new: a walk of the tree rooted at `root`, in
/// the crate's fixed traversal order.
#[verifier::external_body]
pub(crate) fn walk_new(root: &str) -> walkdir::WalkDir {
    walkdir::WalkDir::new(root)
}

/// Relies on walkdir::WalkDir::max_depth: the walk will neither yield
/// entries deeper than `depth` levels below the root nor descend past that
/// depth.
#[verifier::external_body]
pub(crate) fn walk_max_depth(w: walkdir::WalkDir, depth: usize) -> walkdir::WalkDir {
    w.max_depth(depth)
}

/// Relies on walkdir's IntoIterator impl for WalkDir: the entry iterator of
/// the configured walk.
#[verifier::external_body]
pub(crate) fn walk_into_iter(w: walkdir::WalkDir) -> walkdir::IntoIter {
    w.into_iter()
}

/// Relies on walkdir::IntoIter::next: the walk's next entry, an error where
/// a step failed (a bad root among them), or nothing once the walk is done.
/// The error is carried as its debug text.
#[verifier::external_body]
pub(crate) fn walk_next(it: &mut walkdir::IntoIter) -> Option<
    Result<walkdir::DirEntry, String>,
> {
    it.next().map(|step| step.map_err(|e| format!("{:?}", e)))
}

/// Relies on walkdir::DirEntry::path: the path this entry names, as text.
#[verifier::external_body]
pub(crate) fn entry_path(e: &walkdir::DirEntry) -> String {
    e.path().to_string_lossy().into_owned()
}

/// Relies on walkdir::DirEntry::depth: how many levels below the walk's
/// root this entry lies; the root itself is at zero.
#[verifier::external_body]
pub(crate) fn entry_depth(e: &walkdir::DirEntry) -> usize {
    e.depth()
}

/// Relies on walkdir::DirEntry::metadata, and on Metadata::is_dir of std's
/// filesystem module: whether the entry is a directory, or the metadata
/// error's debug text where the read failed.
#[verifier::external_body]
pub(crate) fn entry_is_dir(e: &walkdir::DirEntry) -> Result<bool, String> {
    match e.metadata() {
        Ok(m) => Ok(m.is_dir()),
        Err(err) => Err(format!("{:?}", err)),
    }
}

/// Relies on xattr::get: the value of the named extended attribute on the
/// entry at `path`. Absence and a failed read are alike to the caller: both
/// yield nothing, as both leave an entry unselected.
#[verifier::external_body]
pub(crate) fn attr_get(path: &str, name: &str) -> Option<Vec<u8>> {
    match xattr::get(path, name) {
        Ok(v) => v,
        Err(_) => None,
    }
}

}
