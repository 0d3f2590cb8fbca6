use vstd::prelude::*;

use crate::error::{AppError, Fault};
use crate::path::{is_within, AbsPath};
use crate::security::path_within;

verus! {

/// What a delete request does to the filesystem.
#[derive(Debug, Clone, Copy, PartialEq, Eq, Structural)]
pub enum DeleteAction {
    RemoveFile,
    RemoveEmptyDir,
    RemoveTree,
}

/// Whether two paths are the same, component by component.
pub fn same_path(a: &AbsPath, b: &AbsPath) -> (r: bool)
    ensures
        r == (a@ == b@),
{
    let r = a.parts.len() == b.parts.len() && path_within(a, b);
    proof {
        assert(a@.len() == a.parts@.len() && b@.len() == b.parts@.len());
        if a@ == b@ {
            assert(b@.subrange(0, b@.len() as int) =~= b@);
        }
        if a@.len() == b@.len() && is_within(a@, b@) {
            assert(b@.subrange(0, a@.len() as int) =~= b@);
        }
    }
    r
}

/// The verdict on deleting the resolved path `path`, and what to remove:
/// deleting may be switched off, the root itself is never deleted, and a
/// directory goes with its contents only where the client asked for that.
pub fn plan_delete(
    enable_delete: bool,
    root: &AbsPath,
    path: &AbsPath,
    is_dir: bool,
    recursive: bool,
) -> (r: Result<DeleteAction, AppError>)
    ensures
        !enable_delete ==> r is Err && r->Err_0.fault_spec() == Fault::Forbidden,
        enable_delete && path@ == root@ ==> r is Err && r->Err_0.fault_spec() == Fault::Malformed,
        enable_delete && path@ != root@ ==> r == Ok::<DeleteAction, AppError>(
            if !is_dir {
                DeleteAction::RemoveFile
            } else if recursive {
                DeleteAction::RemoveTree
            } else {
                DeleteAction::RemoveEmptyDir
            },
        ),
{
    if !enable_delete {
        return Err(AppError::Forbidden);
    }
    if same_path(path, root) {
        return Err(AppError::BadRequest(String::from_str("cannot delete root directory")));
    }
    if !is_dir {
        Ok(DeleteAction::RemoveFile)
    } else if recursive {
        Ok(DeleteAction::RemoveTree)
    } else {
        Ok(DeleteAction::RemoveEmptyDir)
    }
}

/// The verdict on moving the resolved path `from` to the resolved path `to`:
/// the root never moves, an existing destination is replaced only on request,
/// and a directory cannot move into itself or below itself.
pub fn plan_move(
    root: &AbsPath,
    from: &AbsPath,
    to: &AbsPath,
    from_is_dir: bool,
    to_exists: bool,
    overwrite: bool,
) -> (r: Result<(), AppError>)
    ensures
        from@ == root@ ==> r is Err && r->Err_0.fault_spec() == Fault::Malformed,
        from@ != root@ && to_exists && !overwrite ==> r is Err && r->Err_0.fault_spec()
            == Fault::Conflict,
        from@ != root@ && !(to_exists && !overwrite) && from_is_dir && is_within(from@, to@)
            ==> r is Err && r->Err_0.fault_spec() == Fault::Malformed,
        r is Ok <==> from@ != root@ && !(to_exists && !overwrite) && !(from_is_dir && is_within(
            from@,
            to@,
        )),
{
    if same_path(from, root) {
        return Err(AppError::BadRequest(String::from_str("cannot move root directory")));
    }
    if to_exists && !overwrite {
        return Err(AppError::Conflict(String::from_str("destination already exists")));
    }
    if from_is_dir && path_within(from, to) {
        return Err(AppError::BadRequest(String::from_str("cannot move directory into itself")));
    }
    Ok(())
}

/// The verdict on creating a directory at a resolved path: something already
/// there is a conflict.
pub fn plan_mkdir(exists: bool) -> (r: Result<(), AppError>)
    ensures
        r is Err <==> exists,
        r is Err ==> r->Err_0.fault_spec() == Fault::Conflict,
{
    if exists {
        Err(AppError::Conflict(String::from_str("path already exists")))
    } else {
        Ok(())
    }
}

} // verus!
