use vstd::prelude::*;

use crate::datetime::{format_timestamp, local_time_of, timestamp_text, LocalDateTime, UnixTime};
use crate::text::{all_digits, chars_of, digits_between, is_digit, push_digits};

verus! {

/// What to do with one directory entry.
#[derive(Clone, Debug, PartialEq, Eq)]
pub enum RenameDecision {
    /// No naming rule matched.
    Skip,
    /// Rename the entry to this file name.
    Rename(String),
    /// The new name could not be worked out; the text says why.
    Error(String),
}

/// The localized name the snipping tool gives a screenshot.
pub open spec fn tool_prefix() -> Seq<char> {
    seq!['ス', 'ク', 'リ', 'ー', 'ン', 'シ', 'ョ', 'ッ', 'ト']
}

pub open spec fn png_suffix() -> Seq<char> {
    seq!['.', 'p', 'n', 'g']
}

/// `Screenshot <ts>.png`.
pub open spec fn canonical(ts: Seq<char>) -> Seq<char> {
    seq!['S', 'c', 'r', 'e', 'e', 'n', 's', 'h', 'o', 't', ' '] + ts + png_suffix()
}

/// `YYYY-MM-DD HHMMSS`, all digits.
pub open spec fn is_timestamp(t: Seq<char>) -> bool {
    &&& t.len() == 17
    &&& all_digits(t.subrange(0, 4))
    &&& t[4] == '-'
    &&& all_digits(t.subrange(5, 7))
    &&& t[7] == '-'
    &&& all_digits(t.subrange(8, 10))
    &&& t[10] == ' '
    &&& all_digits(t.subrange(11, 17))
}

/// The current tool's form: prefix, a space, `YYYY-MM-DD HHMMSS`, `.png`.
pub open spec fn is_current_name(n: Seq<char>) -> bool {
    &&& n.len() == 31
    &&& n.subrange(0, 9) == tool_prefix()
    &&& n[9] == ' '
    &&& is_timestamp(n.subrange(10, 27))
    &&& n.subrange(27, 31) == png_suffix()
}

/// The legacy tool's form: prefix, `_`, `YYYYMMDD`, `_`, `HHMMSS`, `.png`.
pub open spec fn is_legacy_name(n: Seq<char>) -> bool {
    &&& n.len() == 29
    &&& n.subrange(0, 9) == tool_prefix()
    &&& n[9] == '_'
    &&& all_digits(n.subrange(10, 18))
    &&& n[18] == '_'
    &&& all_digits(n.subrange(19, 25))
    &&& n.subrange(25, 29) == png_suffix()
}

/// The digit groups of a legacy name, re-punctuated as `YYYY-MM-DD HHMMSS`.
pub open spec fn legacy_timestamp(n: Seq<char>) -> Seq<char> {
    n.subrange(10, 14) + seq!['-'] + n.subrange(14, 16) + seq!['-'] + n.subrange(16, 18) + seq![' ']
        + n.subrange(19, 25)
}

/// Empty, or ` (<digits>)` with at least one digit.
pub open spec fn is_counter_suffix(m: Seq<char>) -> bool {
    ||| m.len() == 0
    ||| {
        &&& m.len() >= 4
        &&& m[0] == ' '
        &&& m[1] == '('
        &&& m[m.len() - 1] == ')'
        &&& all_digits(m.subrange(2, m.len() - 1))
    }
}

/// The default form: prefix, an optional ` (<counter>)`, `.png`.
pub open spec fn is_unnamed(n: Seq<char>) -> bool {
    &&& n.len() >= 13
    &&& n.subrange(0, 9) == tool_prefix()
    &&& n.subrange(n.len() - 4, n.len() as int) == png_suffix()
    &&& is_counter_suffix(n.subrange(9, n.len() - 4))
}

/// The new name given by the two rules that carry their own timestamp.
pub open spec fn fixed_target(n: Seq<char>) -> Option<Seq<char>> {
    if is_current_name(n) {
        Some(canonical(n.subrange(10, 27)))
    } else if is_legacy_name(n) {
        Some(canonical(legacy_timestamp(n)))
    } else {
        None
    }
}

/// What `classify` may return for an unnamed screenshot once the
/// modification time `m` has been asked for.
pub open spec fn unnamed_outcome(m: Result<UnixTime, String>, r: RenameDecision) -> bool {
    match m {
        Err(e) => r == RenameDecision::Error(e),
        Ok(_) => match r {
            RenameDecision::Rename(s) => exists|d: LocalDateTime|
                d.wf() && s@ == canonical(#[trigger] timestamp_text(d)),
            RenameDecision::Error(_) => true,
            RenameDecision::Skip => false,
        },
    }
}

fn starts_with_prefix(v: &Vec<char>) -> (r: bool)
    ensures
        r == (v@.len() >= 9 && v@.subrange(0, 9) == tool_prefix()),
{
    if v.len() < 9 {
        return false;
    }
    let r = v[0] == 'ス' && v[1] == 'ク' && v[2] == 'リ' && v[3] == 'ー' && v[4] == 'ン'
        && v[5] == 'シ' && v[6] == 'ョ' && v[7] == 'ッ' && v[8] == 'ト';
    if r {
        assert(v@.subrange(0, 9) =~= tool_prefix());
    } else {
        assert(v@.subrange(0, 9) != tool_prefix()) by {
            if v@.subrange(0, 9) == tool_prefix() {
                assert(v@.subrange(0, 9)[0] == tool_prefix()[0]);
                assert(v@.subrange(0, 9)[1] == tool_prefix()[1]);
                assert(v@.subrange(0, 9)[2] == tool_prefix()[2]);
                assert(v@.subrange(0, 9)[3] == tool_prefix()[3]);
                assert(v@.subrange(0, 9)[4] == tool_prefix()[4]);
                assert(v@.subrange(0, 9)[5] == tool_prefix()[5]);
                assert(v@.subrange(0, 9)[6] == tool_prefix()[6]);
                assert(v@.subrange(0, 9)[7] == tool_prefix()[7]);
                assert(v@.subrange(0, 9)[8] == tool_prefix()[8]);
            }
        }
    }
    r
}

fn ends_with_png(v: &Vec<char>) -> (r: bool)
    ensures
        r == (v@.len() >= 4 && v@.subrange(v@.len() - 4, v@.len() as int) == png_suffix()),
{
    let n = v.len();
    if n < 4 {
        return false;
    }
    let r = v[n - 4] == '.' && v[n - 3] == 'p' && v[n - 2] == 'n' && v[n - 1] == 'g';
    let ghost tail = v@.subrange(n - 4, n as int);
    if r {
        assert(tail =~= png_suffix());
    } else {
        assert(tail != png_suffix()) by {
            if tail == png_suffix() {
                assert(tail[0] == png_suffix()[0]);
                assert(tail[1] == png_suffix()[1]);
                assert(tail[2] == png_suffix()[2]);
                assert(tail[3] == png_suffix()[3]);
            }
        }
    }
    r
}

fn start_canonical() -> (r: String)
    ensures
        r@ == seq!['S', 'c', 'r', 'e', 'e', 'n', 's', 'h', 'o', 't', ' '],
{
    proof { reveal_strlit("Screenshot "); }
    String::from_str("Screenshot ")
}

fn end_canonical(out: &mut String)
    ensures
        final(out)@ == old(out)@ + png_suffix(),
{
    proof { reveal_strlit(".png"); }
    out.append(".png");
}

/// The new name for the current tool's form and the legacy form.
fn fixed_target_of(v: &Vec<char>) -> (r: Option<String>)
    ensures
        match fixed_target(v@) {
            Some(t) => r matches Some(s) && s@ == t,
            None => r is None,
        },
{
    let n = v.len();
    let prefixed = starts_with_prefix(v);
    let png = ends_with_png(v);
    proof {
        reveal_strlit("-");
        reveal_strlit(" ");
    }
    if prefixed && png && n == 31 && v[9] == ' ' && digits_between(v, 10, 14) && v[14] == '-'
        && digits_between(v, 15, 17) && v[17] == '-' && digits_between(v, 18, 20) && v[20] == ' '
        && digits_between(v, 21, 27) {
        let ghost ts = v@.subrange(10, 27);
        assert(ts.subrange(0, 4) =~= v@.subrange(10, 14));
        assert(ts.subrange(5, 7) =~= v@.subrange(15, 17));
        assert(ts.subrange(8, 10) =~= v@.subrange(18, 20));
        assert(ts.subrange(11, 17) =~= v@.subrange(21, 27));
        let mut out = start_canonical();
        push_digits(&mut out, v, 10, 14);
        out.append("-");
        push_digits(&mut out, v, 15, 17);
        out.append("-");
        push_digits(&mut out, v, 18, 20);
        out.append(" ");
        push_digits(&mut out, v, 21, 27);
        end_canonical(&mut out);
        assert(out@ =~= canonical(ts));
        return Some(out);
    }
    assert(!is_current_name(v@)) by {
        if is_current_name(v@) {
            let ts = v@.subrange(10, 27);
            assert(ts.subrange(0, 4) =~= v@.subrange(10, 14));
            assert(ts.subrange(5, 7) =~= v@.subrange(15, 17));
            assert(ts.subrange(8, 10) =~= v@.subrange(18, 20));
            assert(ts.subrange(11, 17) =~= v@.subrange(21, 27));
            assert(ts[4] == v@[14]);
            assert(ts[7] == v@[17]);
            assert(ts[10] == v@[20]);
        }
    }
    if prefixed && png && n == 29 && v[9] == '_' && digits_between(v, 10, 18) && v[18] == '_'
        && digits_between(v, 19, 25) {
        assert(all_digits(v@.subrange(10, 14)) && all_digits(v@.subrange(14, 16)) && all_digits(
            v@.subrange(16, 18),
        )) by {
            assert forall|k: int| 0 <= k < 4 implies is_digit(#[trigger] v@.subrange(10, 14)[k]) by {
                assert(v@.subrange(10, 14)[k] == v@.subrange(10, 18)[k]);
            }
            assert forall|k: int| 0 <= k < 2 implies is_digit(#[trigger] v@.subrange(14, 16)[k]) by {
                assert(v@.subrange(14, 16)[k] == v@.subrange(10, 18)[k + 4]);
            }
            assert forall|k: int| 0 <= k < 2 implies is_digit(#[trigger] v@.subrange(16, 18)[k]) by {
                assert(v@.subrange(16, 18)[k] == v@.subrange(10, 18)[k + 6]);
            }
        }
        let mut out = start_canonical();
        push_digits(&mut out, v, 10, 14);
        out.append("-");
        push_digits(&mut out, v, 14, 16);
        out.append("-");
        push_digits(&mut out, v, 16, 18);
        out.append(" ");
        push_digits(&mut out, v, 19, 25);
        end_canonical(&mut out);
        assert(out@ =~= canonical(legacy_timestamp(v@)));
        return Some(out);
    }
    None
}

/// Whether `v` has the default form, with or without a counter.
fn unnamed_form(v: &Vec<char>) -> (r: bool)
    ensures
        r == is_unnamed(v@),
{
    let n = v.len();
    if n < 13 || !starts_with_prefix(v) || !ends_with_png(v) {
        return false;
    }
    let ghost m = v@.subrange(9, n - 4);
    if n == 13 {
        assert(m.len() == 0);
        return true;
    }
    let r = n >= 17 && v[9] == ' ' && v[10] == '(' && v[n - 5] == ')' && digits_between(
        v,
        11,
        n - 5,
    );
    proof {
        if n >= 17 {
            assert(m[0] == v@[9]);
            assert(m[1] == v@[10]);
            assert(m[m.len() - 1] == v@[n - 5]);
            assert(m.subrange(2, m.len() - 1) =~= v@.subrange(11, n - 5));
        }
    }
    r
}

/// What `classify` returns for `name`; for the default form, it depends on
/// the modification time that `mtime_provider` handed back.
pub open spec fn classify_post<M>(name: Seq<char>, mtime_provider: M, r: RenameDecision) -> bool where
    M: FnOnce() -> Result<UnixTime, String>,
 {
    match fixed_target(name) {
        Some(t) => r matches RenameDecision::Rename(s) && s@ == t,
        None => if is_unnamed(name) {
            exists|m: Result<UnixTime, String>|
                mtime_provider.ensures((), m) && unnamed_outcome(m, r)
        } else {
            r is Skip
        },
    }
}

/// Applies the naming rules in order: the current tool's form, the legacy
/// form, then the default form, whose new name comes from the file's
/// modification time. `mtime_provider` is called for the default form only.
pub fn classify<M>(file_name: &str, mtime_provider: M) -> (r: RenameDecision) where
    M: FnOnce() -> Result<UnixTime, String>,

    requires
        fixed_target(file_name@) is None && is_unnamed(file_name@) ==> mtime_provider.requires(()),
    ensures
        classify_post(file_name@, mtime_provider, r),
{
    let v = chars_of(file_name);
    match fixed_target_of(&v) {
        Some(s) => return RenameDecision::Rename(s),
        None => {},
    }
    if !unnamed_form(&v) {
        return RenameDecision::Skip;
    }
    let m = mtime_provider();
    let r = match m {
        Err(e) => RenameDecision::Error(e),
        Ok(t) => rename_for_local_time(local_time_of(t)),
    };
    assert(unnamed_outcome(m, r));
    r
}

/// The decision for an unnamed screenshot whose modification time, in
/// local time, is `local`; `None` stands for a time that cannot be shown.
pub fn rename_for_local_time(local: Option<LocalDateTime>) -> (r: RenameDecision)
    requires
        local matches Some(d) ==> d.wf(),
    ensures
        match local {
            Some(d) => r matches RenameDecision::Rename(s) && s@ == canonical(timestamp_text(d)),
            None => r is Error,
        },
{
    match local {
        Some(d) => {
            let mut out = start_canonical();
            let ts = format_timestamp(&d);
            out.append(ts.as_str());
            end_canonical(&mut out);
            RenameDecision::Rename(out)
        },
        None => RenameDecision::Error(String::from_str("modification time out of range")),
    }
}

/// `<prefix> <ts>.png`, the name the current tool writes.
pub open spec fn current_name(ts: Seq<char>) -> Seq<char> {
    tool_prefix() + seq![' '] + ts + png_suffix()
}

/// `<prefix>_<date>_<time>.png`, the name the legacy tool writes.
pub open spec fn legacy_name(date: Seq<char>, time: Seq<char>) -> Seq<char> {
    tool_prefix() + seq!['_'] + date + seq!['_'] + time + png_suffix()
}

/// A name in the current tool's form with timestamp `ts` is renamed to
/// `Screenshot <ts>.png`, the timestamp kept exactly.
pub proof fn current_name_keeps_timestamp(ts: Seq<char>)
    requires
        is_timestamp(ts),
    ensures
        fixed_target(current_name(ts)) == Some(canonical(ts)),
{
    let n = current_name(ts);
    assert(n.subrange(0, 9) =~= tool_prefix());
    assert(n.subrange(10, 27) =~= ts);
    assert(n.subrange(27, 31) =~= png_suffix());
}

/// A name in the legacy form with date `YYYYMMDD` and time `HHMMSS` is
/// renamed to `Screenshot YYYY-MM-DD HHMMSS.png`: the digit groups are kept
/// and only punctuation is added.
pub proof fn legacy_name_is_repunctuated(date: Seq<char>, time: Seq<char>)
    requires
        date.len() == 8,
        time.len() == 6,
        all_digits(date),
        all_digits(time),
    ensures
        fixed_target(legacy_name(date, time)) == Some(
            canonical(
                date.subrange(0, 4) + seq!['-'] + date.subrange(4, 6) + seq!['-'] + date.subrange(
                    6,
                    8,
                ) + seq![' '] + time,
            ),
        ),
{
    let n = legacy_name(date, time);
    assert(n.subrange(0, 9) =~= tool_prefix());
    assert(n.subrange(10, 18) =~= date);
    assert(n.subrange(19, 25) =~= time);
    assert(n.subrange(25, 29) =~= png_suffix());
    assert(legacy_timestamp(n) =~= date.subrange(0, 4) + seq!['-'] + date.subrange(4, 6) + seq![
        '-',
    ] + date.subrange(6, 8) + seq![' '] + time);
}

/// A name already in the form `Screenshot <anything>.png` matches no rule,
/// so a second pass over a directory renames nothing it renamed before.
pub proof fn canonical_names_are_skipped(ts: Seq<char>)
    ensures
        fixed_target(canonical(ts)) is None,
        !is_unnamed(canonical(ts)),
{
    let n = canonical(ts);
    assert(n[0] == 'S');
    if n.len() >= 9 {
        assert(n.subrange(0, 9)[0] == 'S');
        assert(tool_prefix()[0] == 'ス');
        assert(n.subrange(0, 9) != tool_prefix());
    }
}

} // verus!
