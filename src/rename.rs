use vstd::prelude::*;

verus! {

/// A rename that went through, or would have.
#[derive(Clone, Copy, Debug, PartialEq, Eq)]
pub enum RenameOutcome {
    Renamed,
    /// Nothing was changed on disk: the rename was only reported.
    DryRun,
}

#[derive(Clone, Debug, PartialEq, Eq)]
pub enum RenameError {
    /// A file already has the new name; it is never overwritten.
    DestinationExists,
    /// The operating system refused the rename, for the reason given.
    RenameFailed(String),
}

/// The result of an attempt, given whether the destination existed and what
/// the rename itself returned (not consulted unless it was performed).
pub open spec fn attempt_result(
    destination_exists: bool,
    dry_run: bool,
    os_result: Result<(), String>,
) -> Result<RenameOutcome, RenameError> {
    if destination_exists {
        Err(RenameError::DestinationExists)
    } else if dry_run {
        Ok(RenameOutcome::DryRun)
    } else {
        match os_result {
            Ok(_) => Ok(RenameOutcome::Renamed),
            Err(e) => Err(RenameError::RenameFailed(e)),
        }
    }
}

/// What `execute` guarantees of `r`: the destination check ran once, and the
/// rename ran only when the destination was missing and this is no dry run.
pub open spec fn execute_post<X, R>(
    new_name: &str,
    dry_run: bool,
    destination_exists: X,
    rename: R,
    r: Result<RenameOutcome, RenameError>,
) -> bool where X: FnOnce(&str) -> bool, R: FnOnce(&str) -> Result<(), String> {
    exists|b: bool|
        {
            &&& destination_exists.ensures((new_name,), b)
            &&& (b || dry_run) ==> r == attempt_result(b, dry_run, Ok(()))
            &&& (!b && !dry_run) ==> exists|o: Result<(), String>|
                rename.ensures((new_name,), o) && r == attempt_result(b, dry_run, o)
        }
}

/// Renames to `new_name` unless a file of that name exists, which makes it
/// fail with `DestinationExists`. With `dry_run` the rename is reported and
/// not made. `rename` is called at most once, and only when the destination
/// was found missing and `dry_run` is false: the `requires` lets a caller
/// hand in a `rename` that may not run in any other case.
pub fn execute<X, R>(new_name: &str, dry_run: bool, destination_exists: X, rename: R) -> (r: Result<
    RenameOutcome,
    RenameError,
>) where X: FnOnce(&str) -> bool, R: FnOnce(&str) -> Result<(), String>
    requires
        destination_exists.requires((new_name,)),
        !dry_run && destination_exists.ensures((new_name,), false) ==> rename.requires((new_name,)),
    ensures
        execute_post(new_name, dry_run, destination_exists, rename, r),
{
    let exists = destination_exists(new_name);
    if exists {
        let r = Err(RenameError::DestinationExists);
        assert(r == attempt_result(exists, dry_run, Ok(())));
        return r;
    }
    if dry_run {
        let r = Ok(RenameOutcome::DryRun);
        assert(r == attempt_result(exists, dry_run, Ok(())));
        return r;
    }
    let o = rename(new_name);
    let r = match o {
        Ok(_) => Ok(RenameOutcome::Renamed),
        Err(e) => Err(RenameError::RenameFailed(e)),
    };
    assert(r == attempt_result(exists, dry_run, o));
    r
}

/// An attempt whose destination check can only answer "exists" fails with
/// `DestinationExists`; `execute` then never calls the rename, since its
/// `requires` asks nothing of `rename` in that case.
pub proof fn existing_destination_is_kept<X, R>(
    new_name: &str,
    dry_run: bool,
    destination_exists: X,
    rename: R,
    r: Result<RenameOutcome, RenameError>,
) where X: FnOnce(&str) -> bool, R: FnOnce(&str) -> Result<(), String>
    requires
        execute_post(new_name, dry_run, destination_exists, rename, r),
        forall|b: bool| destination_exists.ensures((new_name,), b) ==> b,
    ensures
        r == Err::<RenameOutcome, RenameError>(RenameError::DestinationExists),
{
}

/// A dry run reports `DryRun` or `DestinationExists` and never renames:
/// `execute` asks nothing of `rename` when `dry_run` holds.
pub proof fn dry_run_changes_nothing<X, R>(
    new_name: &str,
    destination_exists: X,
    rename: R,
    r: Result<RenameOutcome, RenameError>,
) where X: FnOnce(&str) -> bool, R: FnOnce(&str) -> Result<(), String>
    requires
        execute_post(new_name, true, destination_exists, rename, r),
    ensures
        r == Ok::<RenameOutcome, RenameError>(RenameOutcome::DryRun) || r == Err::<
            RenameOutcome,
            RenameError,
        >(RenameError::DestinationExists),
{
}

} // verus!
