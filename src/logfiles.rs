//! The set of log files of one build, the rename plan that rotates it, and an
//! in-memory model of that set on which rotation is proved.
use vstd::prelude::*;
use vstd::string::StringSliceAdditionalSpecFns;
use vstd::utf8::encode_utf8;

use crate::logger::{get_log_filename, slot_name, MAX_LOG_SIZE_BYTES};
use crate::text::digit_char;

verus! {

/// The `k`-th rename of a rotation, as (from slot, to slot): 4 to 5 first, 0 to 1 last.
pub open spec fn rename_pair(k: int) -> (nat, nat) {
    ((4 - k) as nat, (5 - k) as nat)
}

/// Name of the file in slot `i` (0 is the current file, 1..=5 the generations).
pub fn slot_file_name(i: usize) -> (r: String)
    requires
        i <= 5,
    ensures
        r@ == slot_name(i as nat),
{
    let mut out = get_log_filename();
    if i > 0 {
        proof {
            reveal_strlit(".");
            reveal_strlit("1");
            reveal_strlit("2");
            reveal_strlit("3");
            reveal_strlit("4");
            reveal_strlit("5");
        }
        out.append(".");
        let d: &str = if i == 1 {
            "1"
        } else if i == 2 {
            "2"
        } else if i == 3 {
            "3"
        } else if i == 4 {
            "4"
        } else {
            "5"
        };
        assert(d@ =~= seq![digit_char(i as nat)]);
        out.append(d);
        assert(out@ =~= slot_name(i as nat));
    }
    out
}

/// The renames that rotate the log file set, in the order they are carried out.
/// A rename whose source is missing is skipped.
pub fn rotation_renames() -> (r: Vec<(String, String)>)
    ensures
        r@.len() == 5,
        forall|k: int|
            0 <= k < 5 ==> (#[trigger] r@[k]).0@ == slot_name(rename_pair(k).0) && r@[k].1@
                == slot_name(rename_pair(k).1),
{
    let mut r: Vec<(String, String)> = Vec::new();
    let mut k: usize = 0;
    while k < 5
        invariant
            k <= 5,
            r@.len() == k,
            forall|j: int|
                0 <= j < k ==> (#[trigger] r@[j]).0@ == slot_name(rename_pair(j).0) && r@[j].1@
                    == slot_name(rename_pair(j).1),
        decreases 5 - k,
    {
        let from = slot_file_name(4 - k);
        let to = slot_file_name(5 - k);
        r.push((from, to));
        k = k + 1;
    }
    r
}

/// What a log file holds: its lines, and its size in bytes.
pub struct LogFileView {
    pub lines: Seq<Seq<char>>,
    pub size: nat,
}

/// One log file of the model.
pub struct LogFile {
    pub lines: Vec<String>,
    pub size: u64,
}

impl View for LogFile {
    type V = LogFileView;

    open spec fn view(&self) -> LogFileView {
        LogFileView { lines: self.lines@.map_values(|l: String| l@), size: self.size as nat }
    }
}

/// The view of a slot that may hold no file.
pub open spec fn slot_view(f: Option<LogFile>) -> Option<LogFileView> {
    match f {
        Some(file) => Some(file@),
        None => None,
    }
}

/// Size of `line` in bytes once written.
pub open spec fn byte_len(line: Seq<char>) -> nat {
    encode_utf8(line).len()
}

/// Moves the file in slot `from` to slot `to`, replacing what was there; nothing
/// happens when `from` holds no file.
pub open spec fn apply_rename(fs: Seq<Option<LogFileView>>, from: nat, to: nat) -> Seq<
    Option<LogFileView>,
> {
    if fs[from as int] is None {
        fs
    } else {
        fs.update(to as int, fs[from as int]).update(from as int, None)
    }
}

/// The file set after the first `n` renames of a rotation.
pub open spec fn apply_renames(fs: Seq<Option<LogFileView>>, n: nat) -> Seq<Option<LogFileView>>
    decreases n,
{
    if n == 0 {
        fs
    } else {
        let p = rename_pair(n - 1);
        apply_rename(apply_renames(fs, (n - 1) as nat), p.0, p.1)
    }
}

/// Every slot shifted one generation older: the oldest is dropped, the current one is empty.
pub open spec fn rotated(fs: Seq<Option<LogFileView>>) -> Seq<Option<LogFileView>> {
    seq![None].add(fs.subrange(0, 5))
}

/// No generation is missing below one that exists.
pub open spec fn contiguous(fs: Seq<Option<LogFileView>>) -> bool {
    forall|j: int| 1 <= j < 5 && (#[trigger] fs[j]) is None ==> fs[j + 1] is None
}

/// Whether the next append first rotates the set.
pub open spec fn rotation_due(fs: Seq<Option<LogFileView>>) -> bool {
    fs[0] matches Some(f) && f.size > MAX_LOG_SIZE_BYTES
}

/// The current file after `line` is appended to it (created if missing).
pub open spec fn appended_file(f: Option<LogFileView>, line: Seq<char>) -> LogFileView {
    match f {
        Some(v) => LogFileView { lines: v.lines.push(line), size: v.size + byte_len(line) },
        None => LogFileView { lines: seq![line], size: byte_len(line) },
    }
}

/// The file set after one append of `line`: rotated first when due.
pub open spec fn after_append(fs: Seq<Option<LogFileView>>, line: Seq<char>) -> Seq<
    Option<LogFileView>,
> {
    let r = if rotation_due(fs) {
        rotated(fs)
    } else {
        fs
    };
    r.update(0, Some(appended_file(r[0], line)))
}

/// Carrying out the rename plan in order shifts every file one generation older,
/// whenever generation 5 is absent or generation 4 exists (as in any set without gaps).
pub proof fn lemma_rename_plan_rotates(fs: Seq<Option<LogFileView>>)
    requires
        fs.len() == 6,
        fs[4] is Some || fs[5] is None,
    ensures
        apply_renames(fs, 5) == rotated(fs),
{
    reveal_with_fuel(apply_renames, 6);
    assert(apply_renames(fs, 5) =~= rotated(fs));
}

/// Once the current file is over the limit, the next append leaves the old
/// content as generation 1, starts the current file afresh with the new line,
/// and the set still has six slots.
pub proof fn lemma_rotation_keeps_history(fs: Seq<Option<LogFileView>>, line: Seq<char>)
    requires
        fs.len() == 6,
        rotation_due(fs),
    ensures
        after_append(fs, line).len() == 6,
        after_append(fs, line)[1] == fs[0],
        after_append(fs, line)[1] matches Some(g) && g.size > MAX_LOG_SIZE_BYTES,
        after_append(fs, line)[0] == Some(LogFileView { lines: seq![line], size: byte_len(line) }),
        forall|j: int| 2 <= j < 6 ==> after_append(fs, line)[j] == #[trigger] fs[j - 1],
{
}

/// A current file at or under the limit is appended to in place: no generation moves.
pub proof fn lemma_no_rotation_within_limit(fs: Seq<Option<LogFileView>>, line: Seq<char>)
    requires
        fs.len() == 6,
        fs[0] matches Some(f) && f.size <= MAX_LOG_SIZE_BYTES,
    ensures
        forall|j: int| 1 <= j < 6 ==> after_append(fs, line)[j] == #[trigger] fs[j],
{
}

/// After any append, the last line of the current file is the line appended.
pub proof fn lemma_last_line_is_appended(fs: Seq<Option<LogFileView>>, line: Seq<char>)
    requires
        fs.len() == 6,
    ensures
        after_append(fs, line)[0] matches Some(f) && f.lines.len() > 0 && f.lines.last() == line,
{
}

/// The current log file and its five generations, slot 0 being the current file.
pub struct LogFileSet {
    files: Vec<Option<LogFile>>,
}

impl View for LogFileSet {
    type V = Seq<Option<LogFileView>>;

    closed spec fn view(&self) -> Seq<Option<LogFileView>> {
        self.files@.map_values(|f: Option<LogFile>| slot_view(f))
    }
}

impl LogFileSet {
    /// Exactly six slots, with no missing generation below an existing one.
    pub open spec fn wf(&self) -> bool {
        self@.len() == 6 && contiguous(self@)
    }

    /// A set in which no file exists yet.
    pub fn new() -> (r: LogFileSet)
        ensures
            r.wf(),
            forall|i: int| 0 <= i < 6 ==> (#[trigger] r@[i]) is None,
    {
        let mut files: Vec<Option<LogFile>> = Vec::new();
        let mut i: usize = 0;
        while i < 6
            invariant
                i <= 6,
                files@.len() == i,
                forall|j: int| 0 <= j < i ==> (#[trigger] files@[j]) is None,
            decreases 6 - i,
        {
            files.push(None);
            i = i + 1;
        }
        let r = LogFileSet { files };
        assert(r@.len() == 6);
        r
    }

    /// The file in slot `i`, if it exists.
    pub fn file(&self, i: usize) -> (r: &Option<LogFile>)
        requires
            self.wf(),
            i < 6,
        ensures
            slot_view(*r) == self@[i as int],
    {
        &self.files[i]
    }

    /// Appends `line` to the current file, rotating the set first when the
    /// current file is larger than the limit.
    pub fn append(&mut self, line: String)
        requires
            old(self).wf(),
            byte_len(line@) <= u64::MAX - MAX_LOG_SIZE_BYTES,
            byte_len(line@) <= usize::MAX,
        ensures
            final(self).wf(),
            final(self)@ == after_append(old(self)@, line@),
    {
        let ghost fs0 = self@;
        let due = match &self.files[0] {
            Some(f) => f.size > MAX_LOG_SIZE_BYTES,
            None => false,
        };
        if due {
            self.files.pop();
            self.files.insert(0, None);
            assert(self@ =~= rotated(fs0));
        }
        let ghost fs1 = self@;
        let ghost lv = line@;
        let text = line.as_str();
        assert(text.spec_bytes() == encode_utf8(lv));
        let n = text.len();
        assert(n == byte_len(lv));
        let cur = self.files.remove(0);
        let f = match cur {
            Some(mut f) => {
                let ghost before = f@;
                f.lines.push(line);
                f.size = f.size + n as u64;
                assert(f@.lines =~= before.lines.push(lv));
                f
            },
            None => {
                let mut lines: Vec<String> = Vec::new();
                lines.push(line);
                let f = LogFile { lines, size: n as u64 };
                assert(f@.lines =~= seq![lv]);
                f
            },
        };
        assert(f@ == appended_file(fs1[0], lv));
        self.files.insert(0, Some(f));
        assert(self@ =~= fs1.update(0, Some(appended_file(fs1[0], line@))));
        assert(self@ =~= after_append(fs0, line@));
        assert(contiguous(self@));
    }
}

} // verus!
