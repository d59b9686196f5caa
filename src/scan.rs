use vstd::prelude::*;

use crate::classify::{classify, classify_post, fixed_target, is_unnamed, RenameDecision};
use crate::datetime::UnixTime;
use crate::rename::{execute, execute_post, RenameError, RenameOutcome};

verus! {

/// What became of one directory entry during a scan.
#[derive(Debug, PartialEq, Eq)]
pub enum EntryOutcome {
    /// The directory entry itself could not be read.
    Unreadable,
    /// The file name is not valid Unicode.
    UndecodableName,
    /// No naming rule matched.
    Skipped,
    /// A rule matched but the new name could not be worked out.
    Undetermined(String),
    /// A rename to the given name was attempted, with this result.
    Attempted(String, Result<RenameOutcome, RenameError>),
}

/// What `process_entry` guarantees: the name is classified, and a `Rename`
/// decision is handed to `execute` with the new name.
pub open spec fn entry_post<M, X, R>(
    file_name: Option<String>,
    dry_run: bool,
    mtime_provider: M,
    destination_exists: X,
    rename: R,
    r: EntryOutcome,
) -> bool where
    M: FnOnce() -> Result<UnixTime, String>,
    X: FnOnce(&str) -> bool,
    R: FnOnce(&str) -> Result<(), String>,
 {
    match file_name {
        None => r is UndecodableName,
        Some(n) => exists|d: RenameDecision|
            #[trigger] classify_post(n@, mtime_provider, d) && match d {
                RenameDecision::Skip => r is Skipped,
                RenameDecision::Error(e) => r == EntryOutcome::Undetermined(e),
                RenameDecision::Rename(t) => exists|s: &str, res: Result<RenameOutcome, RenameError>|
                    {
                        &&& s@ == t@
                        &&& r == EntryOutcome::Attempted(t, res)
                        &&& #[trigger] execute_post(s, dry_run, destination_exists, rename, res)
                    },
            },
    }
}

/// Works on one entry: classifies its name and, where a rule gives a new
/// name, renames it safely. Failures are reported in the result and go no
/// further.
pub fn process_entry<M, X, R>(
    file_name: Option<String>,
    dry_run: bool,
    mtime_provider: M,
    destination_exists: X,
    rename: R,
) -> (r: EntryOutcome) where
    M: FnOnce() -> Result<UnixTime, String>,
    X: FnOnce(&str) -> bool,
    R: FnOnce(&str) -> Result<(), String>,

    requires
        file_name matches Some(n) && fixed_target(n@) is None && is_unnamed(n@)
            ==> mtime_provider.requires(()),
        forall|s: &str| #[trigger] destination_exists.requires((s,)),
        !dry_run ==> forall|s: &str|
            #[trigger] destination_exists.ensures((s,), false) ==> rename.requires((s,)),
    ensures
        entry_post(file_name, dry_run, mtime_provider, destination_exists, rename, r),
{
    let name = match file_name {
        Some(n) => n,
        None => return EntryOutcome::UndecodableName,
    };
    let d = classify(name.as_str(), mtime_provider);
    assert(classify_post(name@, mtime_provider, d));
    match d {
        RenameDecision::Skip => EntryOutcome::Skipped,
        RenameDecision::Error(e) => EntryOutcome::Undetermined(e),
        RenameDecision::Rename(t) => {
            let s = t.as_str();
            let res = execute(s, dry_run, destination_exists, rename);
            assert(execute_post(s, dry_run, destination_exists, rename, res));
            EntryOutcome::Attempted(t, res)
        },
    }
}

/// Goes once over a directory listing, `None` standing for an entry that
/// could not be read. Every entry is processed whatever became of the others;
/// only a listing that could not be made fails the scan.
pub fn scan_and_rename<E, P>(listing: Result<Vec<Option<E>>, String>, process: P) -> (r: Result<
    Vec<EntryOutcome>,
    String,
>) where P: Fn(&E) -> EntryOutcome
    requires
        forall|e: &E| #[trigger] process.requires((e,)),
    ensures
        listing matches Err(e) ==> r == Err::<Vec<EntryOutcome>, String>(e),
        listing matches Ok(v) ==> r matches Ok(out) && out.len() == v.len() && forall|i: int|
            0 <= i < v.len() ==> match #[trigger] v[i] {
                None => out[i] is Unreadable,
                Some(e) => process.ensures((&e,), out[i]),
            },
{
    let entries = match listing {
        Ok(v) => v,
        Err(e) => return Err(e),
    };
    let mut out: Vec<EntryOutcome> = Vec::new();
    let mut i: usize = 0;
    while i < entries.len()
        invariant
            forall|e: &E| #[trigger] process.requires((e,)),
            i <= entries.len(),
            out.len() == i,
            forall|k: int|
                0 <= k < i ==> match #[trigger] entries[k] {
                    None => out[k] is Unreadable,
                    Some(e) => process.ensures((&e,), out[k]),
                },
        decreases entries.len() - i,
    {
        let o = match &entries[i] {
            None => EntryOutcome::Unreadable,
            Some(e) => process(e),
        };
        out.push(o);
        i = i + 1;
    }
    Ok(out)
}

/// One scan of the directory, then, in watch mode, the watch. A failed scan
/// ends the run before any watching; without watch mode `watch` never runs.
pub fn run<S, W, T>(watch_mode: bool, scan: S, watch: W) -> (r: Result<(), String>) where
    S: FnOnce() -> Result<T, String>,
    W: FnOnce() -> Result<(), String>,

    requires
        scan.requires(()),
        watch_mode ==> watch.requires(()),
    ensures
        exists|s: Result<T, String>|
            {
                &&& #[trigger] scan.ensures((), s)
                &&& s matches Err(e) ==> r == Err::<(), String>(e)
                &&& s is Ok && !watch_mode ==> r is Ok
                &&& s is Ok && watch_mode ==> watch.ensures((), r)
            },
{
    let s = scan();
    match s {
        Err(e) => Err(e),
        Ok(_) => {
            if watch_mode {
                watch()
            } else {
                Ok(())
            }
        },
    }
}

} // verus!
