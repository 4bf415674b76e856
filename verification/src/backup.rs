//! Which files of a directory are backups of the document.

use crate::model::{BackupFileInfo, BackupFileInfoView};
use crate::text::{has_prefix, matches_at, stands_at, starts_with};
use vstd::prelude::*;
use vstd::string::*;

verus! {

/// What the name of every backup starts with.
pub const BACKUP_PREFIX: &'static str = "doggy-daycare-backup-";

/// What the name of every backup ends with.
pub const BACKUP_SUFFIX: &'static str = ".json";

/// `text` ends with `suffix`.
pub open spec fn ends_with(text: Seq<char>, suffix: Seq<char>) -> bool {
    suffix.len() <= text.len() && stands_at(text, suffix, text.len() - suffix.len())
}

/// Whether `text` ends with `suffix`.
pub fn has_suffix(text: &str, suffix: &str) -> (r: bool)
    ensures
        r == ends_with(text@, suffix@),
{
    let n = text.unicode_len();
    let m = suffix.unicode_len();
    if m > n {
        return false;
    }
    matches_at(text, suffix, n - m)
}

/// A file name is that of a backup: it starts with the backup prefix and
/// ends with the backup suffix.
pub open spec fn backup_name(name: Seq<char>) -> bool {
    starts_with(name, BACKUP_PREFIX@) && ends_with(name, BACKUP_SUFFIX@)
}

/// Whether a file name is that of a backup.
pub fn is_backup_name(name: &str) -> (r: bool)
    ensures
        r == backup_name(name@),
{
    has_prefix(name, BACKUP_PREFIX) && has_suffix(name, BACKUP_SUFFIX)
}

/// How many of `count` backups, the newest first, are beyond the limit and
/// to be removed.
pub fn backups_to_remove(count: usize, max_backups: u32) -> (r: usize)
    ensures
        r == (if count > max_backups {
            count - max_backups
        } else {
            0
        }),
{
    if count > max_backups as usize {
        count - max_backups as usize
    } else {
        0
    }
}

/// `a` comes before `b` in the order of texts: at the first place where
/// they differ `a` has the lower character, or `a` ends there and `b` goes
/// on.
pub open spec fn text_lt(a: Seq<char>, b: Seq<char>) -> bool
    decreases a.len(),
{
    if b.len() == 0 {
        false
    } else if a.len() == 0 {
        true
    } else if a[0] as u32 != b[0] as u32 {
        (a[0] as u32) < (b[0] as u32)
    } else {
        text_lt(a.drop_first(), b.drop_first())
    }
}

/// Whether `a` comes before `b` in the order of texts.
pub fn text_before(a: &str, b: &str) -> (r: bool)
    ensures
        r == text_lt(a@, b@),
{
    let n = a.unicode_len();
    let m = b.unicode_len();
    let mut i: usize = 0;
    assert(a@.subrange(0, n as int) =~= a@);
    assert(b@.subrange(0, m as int) =~= b@);
    while i < n && i < m
        invariant
            n == a@.len(),
            m == b@.len(),
            i <= n,
            i <= m,
            text_lt(a@, b@) == text_lt(a@.subrange(i as int, n as int), b@.subrange(i as int, m as int)),
        decreases n - i,
    {
        let c = a.get_char(i);
        let d = b.get_char(i);
        let ghost rest_a = a@.subrange(i as int, n as int);
        let ghost rest_b = b@.subrange(i as int, m as int);
        assert(rest_a[0] == c);
        assert(rest_b[0] == d);
        if c as u32 != d as u32 {
            return (c as u32) < (d as u32);
        }
        assert(rest_a.drop_first() =~= a@.subrange(i + 1, n as int));
        assert(rest_b.drop_first() =~= b@.subrange(i + 1, m as int));
        i = i + 1;
    }
    i < m
}

/// The views of a list of backup files.
pub open spec fn file_views(files: Seq<BackupFileInfo>) -> Seq<BackupFileInfoView> {
    Seq::new(files.len(), |i: int| files[i]@)
}

/// Where a file goes into a list that has the newest first: before the
/// first file that was changed earlier than it.
pub open spec fn place_of(sorted: Seq<BackupFileInfoView>, file: BackupFileInfoView) -> int
    decreases sorted.len(),
{
    if sorted.len() == 0 {
        0
    } else if text_lt(sorted[0].modified_time, file.modified_time) {
        0
    } else {
        1 + place_of(sorted.drop_first(), file)
    }
}

/// The place of a file lies in the list or at its end; no file before it
/// was changed earlier than the file, and the file at it was.
pub proof fn lemma_place_of(sorted: Seq<BackupFileInfoView>, file: BackupFileInfoView)
    ensures
        0 <= place_of(sorted, file) <= sorted.len(),
        place_of(sorted, file) < sorted.len() ==> text_lt(
            sorted[place_of(sorted, file)].modified_time,
            file.modified_time,
        ),
        forall|i: int|
            0 <= i < place_of(sorted, file) ==> !text_lt(
                (#[trigger] sorted[i]).modified_time,
                file.modified_time,
            ),
    decreases sorted.len(),
{
    if sorted.len() != 0 && !text_lt(sorted[0].modified_time, file.modified_time) {
        let rest = sorted.drop_first();
        lemma_place_of(rest, file);
        assert forall|i: int| 0 <= i < place_of(sorted, file) implies !text_lt(
            (#[trigger] sorted[i]).modified_time,
            file.modified_time,
        ) by {
            if i > 0 {
                assert(sorted[i] == rest[i - 1]);
            }
        }
    }
}

/// The first `n` files with the one changed last first; of two files
/// changed at the same time the one that came first stays first.
pub open spec fn newest_first(files: Seq<BackupFileInfoView>, n: nat) -> Seq<BackupFileInfoView>
    decreases n,
{
    if n == 0 {
        Seq::empty()
    } else {
        let sorted = newest_first(files, (n - 1) as nat);
        sorted.insert(place_of(sorted, files[n - 1]), files[n - 1])
    }
}

/// Finds where a file goes into a list that has the newest first.
pub fn find_place(sorted: &Vec<BackupFileInfo>, file: &BackupFileInfo) -> (r: usize)
    ensures
        r == place_of(file_views(sorted@), file@),
        r <= sorted@.len(),
{
    let ghost views = file_views(sorted@);
    proof {
        lemma_place_of(views, file@);
    }
    let mut i: usize = 0;
    assert(views.subrange(0, views.len() as int) =~= views);
    while i < sorted.len()
        invariant
            views == file_views(sorted@),
            i <= sorted@.len(),
            place_of(views, file@) == i + place_of(views.subrange(i as int, views.len() as int), file@),
        decreases sorted@.len() - i,
    {
        let ghost rest = views.subrange(i as int, views.len() as int);
        assert(rest[0] == sorted@[i as int]@);
        if text_before(sorted[i].modified_time.as_str(), file.modified_time.as_str()) {
            return i;
        }
        assert(rest.drop_first() =~= views.subrange(i + 1, views.len() as int));
        i = i + 1;
    }
    i
}

/// Puts backup files in order, the one changed last first.
pub fn sort_newest_first(files: &Vec<BackupFileInfo>) -> (r: Vec<BackupFileInfo>)
    ensures
        file_views(r@) == newest_first(file_views(files@), files@.len()),
{
    let ghost views = file_views(files@);
    let mut sorted: Vec<BackupFileInfo> = Vec::new();
    assert(file_views(sorted@) =~= newest_first(views, 0));
    let mut i: usize = 0;
    while i < files.len()
        invariant
            views == file_views(files@),
            i <= files@.len(),
            file_views(sorted@) == newest_first(views, i as nat),
        decreases files@.len() - i,
    {
        let file = files[i].duplicate();
        let ghost before = file_views(sorted@);
        let at = find_place(&sorted, &file);
        assert(views[i as int] == file@);
        sorted.insert(at, file);
        assert(file_views(sorted@) =~= before.insert(at as int, views[i as int]));
        i = i + 1;
    }
    sorted
}

/// The files in order are the same files: each as often as before.
pub proof fn lemma_newest_first_same_files(files: Seq<BackupFileInfoView>, n: nat)
    requires
        n <= files.len(),
    ensures
        newest_first(files, n).len() == n,
        newest_first(files, n).to_multiset() == files.subrange(0, n as int).to_multiset(),
    decreases n,
{
    if n == 0 {
        assert(files.subrange(0, 0) =~= Seq::<BackupFileInfoView>::empty());
    } else {
        let sorted = newest_first(files, (n - 1) as nat);
        lemma_newest_first_same_files(files, (n - 1) as nat);
        lemma_place_of(sorted, files[n - 1]);
        vstd::seq_lib::to_multiset_insert(sorted, place_of(sorted, files[n - 1]), files[n - 1]);
        vstd::seq_lib::to_multiset_build(files.subrange(0, n - 1), files[n - 1]);
        assert(files.subrange(0, n - 1).push(files[n - 1]) =~= files.subrange(0, n as int));
    }
}

/// In the order no file stands before one that was changed later.
pub proof fn lemma_newest_first_in_order(files: Seq<BackupFileInfoView>, n: nat, i: int, j: int)
    requires
        n <= files.len(),
        0 <= i < j < newest_first(files, n).len(),
    ensures
        !text_lt(newest_first(files, n)[i].modified_time, newest_first(files, n)[j].modified_time),
    decreases n,
{
    if n > 0 {
        let sorted = newest_first(files, (n - 1) as nat);
        let file = files[n - 1];
        let at = place_of(sorted, file);
        let all = newest_first(files, n);
        lemma_place_of(sorted, file);
        lemma_newest_first_same_files(files, (n - 1) as nat);
        // Where the two files stood before the new one came in.
        let from_i = if i < at {
            i
        } else {
            i - 1
        };
        let from_j = if j < at {
            j
        } else {
            j - 1
        };
        assert(all == sorted.insert(at, file));
        if i != at && j != at {
            assert(all[i] == sorted[from_i]);
            assert(all[j] == sorted[from_j]);
            lemma_newest_first_in_order(files, (n - 1) as nat, from_i, from_j);
        } else if i == at {
            // The new file stands before an old one at or after its place.
            assert(all[i] == file);
            assert(all[j] == sorted[from_j]);
            if at < from_j {
                lemma_newest_first_in_order(files, (n - 1) as nat, at, from_j);
                lemma_text_order(
                    sorted[at].modified_time,
                    file.modified_time,
                    sorted[from_j].modified_time,
                );
                lemma_text_lt_one_way(sorted[from_j].modified_time, file.modified_time);
            } else {
                lemma_text_lt_one_way(sorted[at].modified_time, file.modified_time);
            }
        } else {
            // An old file before the place of the new one.
            assert(all[j] == file);
            assert(all[i] == sorted[i]);
        }
    }
}

/// Of two texts at most one comes before the other.
pub proof fn lemma_text_lt_one_way(a: Seq<char>, b: Seq<char>)
    ensures
        !(text_lt(a, b) && text_lt(b, a)),
    decreases a.len(),
{
    if a.len() != 0 && b.len() != 0 && a[0] as u32 == b[0] as u32 {
        lemma_text_lt_one_way(a.drop_first(), b.drop_first());
    }
}

/// Where `a` comes before `b` and `c` does not come after `a`, `c` comes
/// before `b` too.
pub proof fn lemma_text_order(a: Seq<char>, b: Seq<char>, c: Seq<char>)
    requires
        text_lt(a, b),
        !text_lt(a, c),
    ensures
        text_lt(c, b),
    decreases a.len(),
{
    assert(b.len() != 0);
    if c.len() != 0 && a.len() != 0 && a[0] as u32 == b[0] as u32 && a[0] as u32 == c[0] as u32 {
        lemma_text_order(a.drop_first(), b.drop_first(), c.drop_first());
    }
}

} // verus!
