//! Where the cgroup hierarchies are mounted, read off the text of the
//! process's mount table (`/proc/self/mountinfo`).

use crate::error::{RuntimeError, RuntimeErrorView};
use crate::text::{
    chars_of, contains_text, find_text, join, join_path, pieces, range_equals, ranges_within,
    split, split_ranges,
};
use vstd::prelude::*;

verus! {

/// `line` without one carriage return at its end, if it has one.
pub open spec fn strip_cr(line: Seq<char>) -> Seq<char> {
    if line.len() > 0 && line.last() == '\r' {
        line.drop_last()
    } else {
        line
    }
}

/// The lines of `text`. A line ends at a line feed; the carriage return
/// before the line feed, if there is one, belongs to the line ending. What
/// follows the last line feed is a line of its own unless it is empty.
pub open spec fn lines(text: Seq<char>) -> Seq<Seq<char>> {
    let parts = split(text, '\n');
    let ended = Seq::new((parts.len() - 1) as nat, |k: int| strip_cr(parts[k]));
    if parts.last().len() == 0 {
        ended
    } else {
        ended.push(parts.last())
    }
}

/// The mount point that a line of the mount table gives for `subsystem`:
/// the fifth of the fields that single spaces separate, provided that the
/// last field, cut at its commas, holds `subsystem`. A line of fewer than
/// five fields gives none.
pub open spec fn line_mount_point(line: Seq<char>, subsystem: Seq<char>) -> Option<Seq<char>> {
    let fields = split(line, ' ');
    if fields.len() >= 5 && split(fields.last(), ',').contains(subsystem) {
        Some(fields[4])
    } else {
        None
    }
}

/// The mount point that the first of `table`'s lines to give one gives.
pub open spec fn first_mount_point(table: Seq<Seq<char>>, subsystem: Seq<char>) -> Option<
    Seq<char>,
>
    decreases table.len(),
{
    if table.len() == 0 {
        None
    } else {
        match line_mount_point(table[0], subsystem) {
            Some(p) => Some(p),
            None => first_mount_point(table.drop_first(), subsystem),
        }
    }
}

/// Whether the mount table shows the unified (version 2) hierarchy.
pub open spec fn shows_v2(mountinfo: Seq<char>) -> bool {
    contains_text(mountinfo, "cgroup2"@)
}

/// Where the hierarchy of `subsystem` is mounted: under the unified
/// hierarchy always `/sys/fs/cgroup`, otherwise what the mount table says.
pub open spec fn mount_point_of(subsystem: Seq<char>, mountinfo: Seq<char>) -> Option<Seq<char>> {
    if shows_v2(mountinfo) {
        Some("/sys/fs/cgroup"@)
    } else {
        first_mount_point(lines(mountinfo), subsystem)
    }
}

/// Whether the mount table shows the unified (version 2) hierarchy: whether
/// `cgroup2` occurs in it.
pub fn is_cgroup_v2(mountinfo: &str) -> (v2: bool)
    ensures
        v2 == shows_v2(mountinfo@),
{
    let table = chars_of(mountinfo);
    let word = chars_of("cgroup2");
    find_text(&table, &word)
}

/// The lines of `text`, as index pairs into it.
fn line_ranges(text: &Vec<char>) -> (out: Vec<(usize, usize)>)
    ensures
        pieces(text@, out@) == lines(text@),
        ranges_within(out@, 0, text.len() as int),
{
    let parts = split_ranges(text, 0, text.len(), '\n');
    assert(text@.subrange(0, text.len() as int) =~= text@);
    let ghost spec_parts = split(text@, '\n');
    let n: usize = parts.len();
    let mut out: Vec<(usize, usize)> = Vec::new();
    let mut k: usize = 0;
    while k < n - 1
        invariant
            n == parts.len(),
            n >= 1,
            k <= n - 1,
            out.len() == k,
            pieces(text@, parts@) == spec_parts,
            ranges_within(parts@, 0, text.len() as int),
            ranges_within(out@, 0, text.len() as int),
            forall|j: int|
                0 <= j < k ==> #[trigger] pieces(text@, out@)[j] == strip_cr(spec_parts[j]),
        decreases n - 1 - k,
    {
        let (a, b) = parts[k];
        assert(ranges_within(parts@, 0, text.len() as int));
        assert(0 <= parts@[k as int].0 <= parts@[k as int].1 <= text.len());
        assert(spec_parts[k as int] == pieces(text@, parts@)[k as int]);
        let ghost before = pieces(text@, out@);
        let end: usize = if b > a && text[b - 1] == '\r' {
            b - 1
        } else {
            b
        };
        out.push((a, end));
        proof {
            let line = text@.subrange(a as int, b as int);
            if b > a && text@[b - 1] == '\r' {
                assert(line.last() == '\r');
                assert(line.drop_last() =~= text@.subrange(a as int, end as int));
            }
            assert(pieces(text@, out@)[k as int] == strip_cr(spec_parts[k as int]));
            assert forall|j: int| 0 <= j < k + 1 implies #[trigger] pieces(text@, out@)[j]
                == strip_cr(spec_parts[j]) by {
                if j < k {
                    assert(pieces(text@, out@)[j] == before[j]);
                }
            }
        }
        k = k + 1;
    }
    let (a, b) = parts[n - 1];
    assert(0 <= parts@[n - 1].0 <= parts@[n - 1].1 <= text.len());
    assert(spec_parts[n - 1] == pieces(text@, parts@)[n - 1]);
    let ghost ended = pieces(text@, out@);
    assert(ended =~= Seq::new((spec_parts.len() - 1) as nat, |k: int| strip_cr(spec_parts[k])));
    if b > a {
        out.push((a, b));
        assert(pieces(text@, out@) =~= ended.push(spec_parts.last()));
    }
    out
}

/// Whether one of the comma-separated words in `from..to` is `word`.
fn has_option(text: &Vec<char>, from: usize, to: usize, word: &Vec<char>) -> (found: bool)
    requires
        from <= to <= text.len(),
    ensures
        found == split(text@.subrange(from as int, to as int), ',').contains(word@),
{
    let options = split_ranges(text, from, to, ',');
    let ghost spec_options = split(text@.subrange(from as int, to as int), ',');
    let mut k: usize = 0;
    while k < options.len()
        invariant
            k <= options.len(),
            spec_options == split(text@.subrange(from as int, to as int), ','),
            pieces(text@, options@) == spec_options,
            ranges_within(options@, from as int, to as int),
            from <= to <= text.len(),
            forall|j: int| 0 <= j < k ==> spec_options[j] != word@,
        decreases options.len() - k,
    {
        let (a, b) = options[k];
        assert(from <= options@[k as int].0 <= options@[k as int].1 <= to);
        assert(spec_options[k as int] == pieces(text@, options@)[k as int]);
        if range_equals(text, a, b, word) {
            assert(spec_options[k as int] == word@);
            assert(spec_options.contains(word@));
            return true;
        }
        k = k + 1;
    }
    false
}

/// Finds the directory where the hierarchy of `subsystem` is mounted, given
/// the text of the mount table.
pub fn find_cgroup_mount_point(subsystem: &str, mountinfo: &str) -> (found: Result<
    String,
    RuntimeError,
>)
    ensures
        match mount_point_of(subsystem@, mountinfo@) {
            Some(p) => found is Ok && found->Ok_0@ == p,
            None => found is Err && found->Err_0@ == (RuntimeErrorView::MountPointNotFound {
                subsystem: subsystem@,
            }),
        },
{
    if is_cgroup_v2(mountinfo) {
        return Ok(String::from_str("/sys/fs/cgroup"));
    }
    let text = chars_of(mountinfo);
    let word = chars_of(subsystem);
    let table = line_ranges(&text);
    let ghost spec_table = lines(mountinfo@);
    let mut k: usize = 0;
    assert(spec_table.skip(0) =~= spec_table);
    while k < table.len()
        invariant
            k <= table.len(),
            !shows_v2(mountinfo@),
            spec_table == lines(mountinfo@),
            text@ == mountinfo@,
            word@ == subsystem@,
            pieces(text@, table@) == spec_table,
            ranges_within(table@, 0, text.len() as int),
            first_mount_point(spec_table, subsystem@) == first_mount_point(
                spec_table.skip(k as int),
                subsystem@,
            ),
        decreases table.len() - k,
    {
        let (a, b) = table[k];
        assert(0 <= table@[k as int].0 <= table@[k as int].1 <= text.len());
        let ghost line = spec_table[k as int];
        assert(line == pieces(text@, table@)[k as int]);
        assert(spec_table.skip(k as int)[0] == line);
        assert(spec_table.skip(k as int).drop_first() =~= spec_table.skip(k + 1));
        let fields = split_ranges(&text, a, b, ' ');
        let ghost spec_fields = split(line, ' ');
        if fields.len() >= 5 {
            let (oa, ob) = fields[fields.len() - 1];
            let last: usize = fields.len() - 1;
            assert(a <= fields@[last as int].0 <= fields@[last as int].1 <= b);
            assert(spec_fields.last() == pieces(text@, fields@)[last as int]);
            if has_option(&text, oa, ob, &word) {
                let (pa, pb) = fields[4];
                assert(a <= fields@[4].0 <= fields@[4].1 <= b);
                assert(spec_fields[4] == pieces(text@, fields@)[4]);
                let point = mountinfo.substring_char(pa, pb);
                assert(spec_fields.len() == fields.len());
                assert(line_mount_point(line, subsystem@) == Some(spec_fields[4]));
                assert(first_mount_point(spec_table.skip(k as int), subsystem@) == Some(
                    spec_fields[4],
                ));
                return Ok(String::from_str(point));
            }
        }
        k = k + 1;
    }
    Err(RuntimeError::MountPointNotFound { subsystem: String::from_str(subsystem) })
}

/// A cgroup's directory, and whether it is to be created when it is missing.
pub struct CgroupPath {
    /// The absolute path of the directory.
    pub path: String,
    /// Whether to create the directory, and the directories above it, with
    /// mode `0755` when nothing exists at `path`.
    pub create_if_missing: bool,
}

/// The directory of the cgroup `cgroup_path` in the hierarchy of `subsystem`:
/// the mount point with `cgroup_path` placed under it. With `auto_create` the
/// directory is to be created when it is missing; without, the path is
/// returned as it is composed.
pub fn get_cgroup_path(
    subsystem: &str,
    cgroup_path: &str,
    auto_create: bool,
    mountinfo: &str,
) -> (found: Result<CgroupPath, RuntimeError>)
    ensures
        match mount_point_of(subsystem@, mountinfo@) {
            Some(p) => found is Ok && found->Ok_0.path@ == join_path(p, cgroup_path@)
                && found->Ok_0.create_if_missing == auto_create,
            None => found is Err && found->Err_0@ == (RuntimeErrorView::MountPointNotFound {
                subsystem: subsystem@,
            }),
        },
{
    match find_cgroup_mount_point(subsystem, mountinfo) {
        Ok(mount_point) => Ok(
            CgroupPath {
                path: join(mount_point.as_str(), cgroup_path),
                create_if_missing: auto_create,
            },
        ),
        Err(e) => Err(e),
    }
}

} // verus!
