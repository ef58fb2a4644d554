//! Log files: which directory a log source lives in, which file of a
//! directory is the newest `.log`, the last lines of a log, and how far a
//! followed log file has been read.
use vstd::prelude::*;
use crate::config::AppPaths;
use crate::text::{chars_of, concat2, string_from_chars};

verus! {

// ---------------------------------------------------------------- extensions

/// Position of the last occurrence of `c` in `s`, or -1.
pub open spec fn last_index_of(s: Seq<char>, c: char) -> int
    decreases s.len(),
{
    if s.len() == 0 {
        -1
    } else if s.last() == c {
        s.len() - 1
    } else {
        last_index_of(s.drop_last(), c)
    }
}

/// `Path::extension` of a file name: the part after the last `.`, unless there
/// is no `.`, the only `.` starts the name, or the name is `..`.
pub open spec fn extension_of(name: Seq<char>) -> Option<Seq<char>> {
    let k = last_index_of(name, '.');
    if name == seq!['.', '.'] || k <= 0 {
        None
    } else {
        Some(name.skip(k + 1))
    }
}

proof fn lemma_last_index_bounds(s: Seq<char>, c: char)
    ensures
        -1 <= last_index_of(s, c) < s.len(),
        last_index_of(s, c) >= 0 ==> s[last_index_of(s, c)] == c,
        forall|j: int| last_index_of(s, c) < j < s.len() ==> s[j] != c,
    decreases s.len(),
{
    if s.len() > 0 && s.last() != c {
        lemma_last_index_bounds(s.drop_last(), c);
        assert forall|j: int| last_index_of(s, c) < j < s.len() implies s[j] != c by {
            if j < s.len() - 1 {
                assert(s.drop_last()[j] == s[j]);
            }
        }
    }
}

/// Whether a file name has the extension `log` (as `path.extension() == Some("log")`).
pub fn has_log_extension(file_name: &str) -> (r: bool)
    ensures
        r == (extension_of(file_name@) == Some(seq!['l', 'o', 'g'])),
{
    let v = chars_of(file_name);
    let n = v.len();
    proof {
        lemma_last_index_bounds(v@, '.');
    }
    if n < 5 {
        // "x.log" is the shortest name whose extension is "log".
        proof {
            let k = last_index_of(v@, '.');
            if k > 0 && v@ != seq!['.', '.'] {
                assert(v@.skip(k + 1).len() != 3);
            }
        }
        return false;
    }
    let ok = v[n - 4] == '.' && v[n - 3] == 'l' && v[n - 2] == 'o' && v[n - 1] == 'g';
    proof {
        let k = last_index_of(v@, '.');
        if ok {
            assert(k == n - 4);
            assert(v@ != seq!['.', '.']);
            assert(v@.skip(k + 1) =~= seq!['l', 'o', 'g']);
        } else {
            if k > 0 && v@ != seq!['.', '.'] && v@.skip(k + 1) == seq!['l', 'o', 'g'] {
                assert(v@.skip(k + 1).len() == 3);
                assert(k == n - 4);
                assert(v@[n - 3] == v@.skip(k + 1)[0]);
                assert(v@[n - 2] == v@.skip(k + 1)[1]);
                assert(v@[n - 1] == v@.skip(k + 1)[2]);
            }
        }
    }
    ok
}

// ---------------------------------------------------------------- sources

/// `read_log_tail`'s choice of directory: `yunzai` and `napcat` name the two
/// configured log directories; any other source is refused.
pub open spec fn log_dir_spec(paths: AppPaths, source: Seq<char>) -> Result<Seq<char>, Seq<char>> {
    if source == "yunzai"@ {
        Ok(paths.yunzai_log_dir@)
    } else if source == "napcat"@ {
        Ok(paths.napcat_log_dir@)
    } else {
        Err("未知 source: "@ + source)
    }
}

pub fn log_dir_for_source(paths: &AppPaths, source: &str) -> (r: Result<String, String>)
    ensures
        match (r, log_dir_spec(*paths, source@)) {
            (Ok(d), Ok(e)) => d@ == e,
            (Err(m), Err(e)) => m@ == e,
            _ => false,
        },
{
    if crate::text::str_eq(source, "yunzai") {
        Ok(paths.yunzai_log_dir.clone())
    } else if crate::text::str_eq(source, "napcat") {
        Ok(paths.napcat_log_dir.clone())
    } else {
        Err(concat2("未知 source: ", source))
    }
}

// ---------------------------------------------------------------- newest file

/// A directory entry as `read_log_tail` sees it: its file name and its
/// modification time in nanoseconds relative to the Unix epoch, when the
/// file system reports one.
pub struct LogFileEntry {
    pub file_name: String,
    pub modified: Option<i128>,
}

/// The order `max_by_key` uses on `Option` keys: `None` below every `Some`.
pub open spec fn key_le(a: Option<i128>, b: Option<i128>) -> bool {
    match (a, b) {
        (None, _) => true,
        (Some(_), None) => false,
        (Some(x), Some(y)) => x <= y,
    }
}

pub open spec fn is_log_entry(e: LogFileEntry) -> bool {
    extension_of(e.file_name@) == Some(seq!['l', 'o', 'g'])
}

/// Entry `i` is what `filter(.log).max_by_key(modified)` picks: a `.log`
/// file with the greatest key, the last one among equal greatest keys.
pub open spec fn is_latest_log(es: Seq<LogFileEntry>, i: int) -> bool {
    &&& 0 <= i < es.len()
    &&& is_log_entry(es[i])
    &&& forall|j: int| 0 <= j < es.len() && is_log_entry(es[j]) ==> key_le(es[j].modified, es[i].modified)
    &&& forall|j: int| i < j < es.len() && is_log_entry(es[j]) ==> !key_le(es[i].modified, es[j].modified)
}

fn key_le_exec(a: Option<i128>, b: Option<i128>) -> (r: bool)
    ensures
        r == key_le(a, b),
{
    match (a, b) {
        (None, _) => true,
        (Some(_), None) => false,
        (Some(x), Some(y)) => x <= y,
    }
}

/// The newest `.log` file of a directory listing; `无日志文件` when there is none.
pub fn select_latest_log(entries: &Vec<LogFileEntry>) -> (r: Result<usize, String>)
    ensures
        match r {
            Ok(i) => is_latest_log(entries@, i as int),
            Err(m) => m@ == "无日志文件"@ && forall|j: int|
                0 <= j < entries@.len() ==> !is_log_entry(#[trigger] entries@[j]),
        },
{
    let mut best: Option<usize> = None;
    let n = entries.len();
    let mut i: usize = 0;
    while i < n
        invariant
            n == entries@.len(),
            i <= n,
            match best {
                None => forall|j: int| 0 <= j < i ==> !is_log_entry(#[trigger] entries@[j]),
                Some(b) => {
                    &&& b < i
                    &&& is_log_entry(entries@[b as int])
                    &&& forall|j: int| 0 <= j < i && is_log_entry(entries@[j])
                        ==> key_le(entries@[j].modified, entries@[b as int].modified)
                    &&& forall|j: int| b < j < i && is_log_entry(entries@[j])
                        ==> !key_le(entries@[b as int].modified, entries@[j].modified)
                },
            },
        decreases n - i,
    {
        if has_log_extension(entries[i].file_name.as_str()) {
            match best {
                None => {
                    best = Some(i);
                },
                Some(b) => {
                    if key_le_exec(entries[b].modified, entries[i].modified) {
                        best = Some(i);
                    }
                },
            }
        }
        i = i + 1;
    }
    match best {
        Some(b) => Ok(b),
        None => Err(String::from_str("无日志文件")),
    }
}

// ---------------------------------------------------------------- lines

/// Position of the first `'\n'` in `s`, or -1.
pub open spec fn first_newline(s: Seq<char>) -> int
    decreases s.len(),
{
    if s.len() == 0 {
        -1
    } else if s[0] == '\n' {
        0
    } else {
        let r = first_newline(s.drop_first());
        if r < 0 { -1 } else { r + 1 }
    }
}

/// A line that ended in `'\n'` loses a trailing `'\r'` too.
pub open spec fn strip_cr(p: Seq<char>) -> Seq<char> {
    if p.len() > 0 && p.last() == '\r' { p.drop_last() } else { p }
}

/// `str::lines`: pieces ended by `'\n'` (with a `'\r'` before it dropped),
/// then the unterminated remainder if it is not empty.
pub open spec fn lines_of(s: Seq<char>) -> Seq<Seq<char>>
    decreases s.len(),
{
    if s.len() == 0 {
        seq![]
    } else {
        let k = first_newline(s);
        proof {
            lemma_first_newline_bounds(s);
        }
        if k < 0 {
            seq![s]
        } else {
            seq![strip_cr(s.take(k))] + lines_of(s.skip(k + 1))
        }
    }
}

/// The lines joined with `"\n"` between them (`[&str]::join("\n")`).
pub open spec fn join_lines(ls: Seq<Seq<char>>) -> Seq<char>
    decreases ls.len(),
{
    if ls.len() == 0 {
        seq![]
    } else if ls.len() == 1 {
        ls[0]
    } else {
        join_lines(ls.drop_last()) + seq!['\n'] + ls.last()
    }
}

/// `read_log_tail`'s text: the last `n` lines of `content`, in order, joined by `"\n"`.
pub open spec fn tail_spec(content: Seq<char>, n: nat) -> Seq<char> {
    let ls = lines_of(content);
    let from = if ls.len() > n { ls.len() - n } else { 0 };
    join_lines(ls.subrange(from as int, ls.len() as int))
}

pub proof fn lemma_first_newline_bounds(s: Seq<char>)
    ensures
        -1 <= first_newline(s) < s.len(),
    decreases s.len(),
{
    if s.len() > 0 && s[0] != '\n' {
        lemma_first_newline_bounds(s.drop_first());
    }
}

proof fn lemma_first_newline(s: Seq<char>, k: int)
    requires
        0 <= k < s.len(),
        s[k] == '\n',
        forall|j: int| 0 <= j < k ==> s[j] != '\n',
    ensures
        first_newline(s) == k,
    decreases k,
{
    if k > 0 {
        lemma_first_newline(s.drop_first(), k - 1);
    }
}

proof fn lemma_no_newline(s: Seq<char>)
    requires
        forall|j: int| 0 <= j < s.len() ==> s[j] != '\n',
    ensures
        first_newline(s) == -1,
    decreases s.len(),
{
    if s.len() > 0 {
        lemma_no_newline(s.drop_first());
    }
}

/// Where each line of `v` starts and ends, in order.
fn line_bounds(v: &Vec<char>) -> (b: Vec<(usize, usize)>)
    ensures
        b@.len() == lines_of(v@).len(),
        forall|i: int| 0 <= i < b@.len() ==> (#[trigger] b@[i]).0 <= b@[i].1 <= v@.len(),
        forall|i: int| 0 <= i < b@.len() ==>
            #[trigger] lines_of(v@)[i] == v@.subrange(b@[i].0 as int, b@[i].1 as int),
{
    let n = v.len();
    let mut b: Vec<(usize, usize)> = Vec::new();
    let mut start: usize = 0;
    let mut i: usize = 0;
    proof {
        assert(v@.skip(0) =~= v@);
        assert(b@.map_values(|p: (usize, usize)| v@.subrange(p.0 as int, p.1 as int)) =~= Seq::<Seq<char>>::empty());
        assert(lines_of(v@) =~= b@.map_values(|p: (usize, usize)| v@.subrange(p.0 as int, p.1 as int))
            + lines_of(v@.skip(start as int)));
    }
    while i < n
        invariant
            n == v@.len(),
            start <= i <= n,
            forall|j: int| start <= j < i ==> v@[j] != '\n',
            lines_of(v@) == b@.map_values(|p: (usize, usize)| v@.subrange(p.0 as int, p.1 as int))
                + lines_of(v@.skip(start as int)),
            forall|k: int| 0 <= k < b@.len() ==> (#[trigger] b@[k]).0 <= b@[k].1 <= n,
        decreases n - i,
    {
        if v[i] == '\n' {
            let ghost rest = v@.skip(start as int);
            proof {
                lemma_first_newline(rest, i - start);
                assert(rest.len() > 0);
                assert(rest.take(i - start) =~= v@.subrange(start as int, i as int));
                assert(rest.skip(i - start + 1) =~= v@.skip(i + 1));
            }
            let end = if i > start && v[i - 1] == '\r' { i - 1 } else { i };
            proof {
                assert(strip_cr(v@.subrange(start as int, i as int))
                    =~= v@.subrange(start as int, end as int));
            }
            let ghost old_b = b@;
            b.push((start, end));
            proof {
                assert(b@.map_values(|p: (usize, usize)| v@.subrange(p.0 as int, p.1 as int))
                    =~= old_b.map_values(|p: (usize, usize)| v@.subrange(p.0 as int, p.1 as int))
                        + seq![v@.subrange(start as int, end as int)]);
            }
            start = i + 1;
        }
        i = i + 1;
    }
    let ghost rest = v@.skip(start as int);
    if start < n {
        proof {
            lemma_no_newline(rest);
            assert(rest =~= v@.subrange(start as int, n as int));
        }
        let ghost old_b = b@;
        b.push((start, n));
        proof {
            assert(b@.map_values(|p: (usize, usize)| v@.subrange(p.0 as int, p.1 as int))
                =~= old_b.map_values(|p: (usize, usize)| v@.subrange(p.0 as int, p.1 as int))
                    + seq![v@.subrange(start as int, n as int)]);
        }
    } else {
        proof {
            assert(rest.len() == 0);
        }
    }
    proof {
        assert(lines_of(v@) =~= b@.map_values(|p: (usize, usize)| v@.subrange(p.0 as int, p.1 as int)));
        assert forall|i: int| 0 <= i < b@.len() implies
            #[trigger] lines_of(v@)[i] == v@.subrange(b@[i].0 as int, b@[i].1 as int) by {}
    }
    b
}

/// The last `n` lines of `content` joined by `"\n"`, as `read_log_tail` returns them.
pub fn tail_lines(content: &str, n: usize) -> (r: String)
    ensures
        r@ == tail_spec(content@, n as nat),
{
    let v = chars_of(content);
    let b = line_bounds(&v);
    let total = b.len();
    let from: usize = if total > n { total - n } else { 0 };
    let ghost ls = lines_of(v@);
    let mut out: Vec<char> = Vec::new();
    let mut k: usize = from;
    proof {
        assert(ls.subrange(from as int, from as int) =~= Seq::<Seq<char>>::empty());
    }
    while k < total
        invariant
            total == b@.len(),
            total == ls.len(),
            ls == lines_of(v@),
            from <= k <= total,
            v@ == content@,
            forall|i: int| 0 <= i < b@.len() ==> (#[trigger] b@[i]).0 <= b@[i].1 <= v@.len(),
            forall|i: int| 0 <= i < b@.len() ==> #[trigger] ls[i] == v@.subrange(b@[i].0 as int, b@[i].1 as int),
            out@ == join_lines(ls.subrange(from as int, k as int)),
        decreases total - k,
    {
        let ghost before = out@;
        if k > from {
            out.push('\n');
        }
        let (s, e) = b[k];
        proof {
            assert(ls[k as int] == v@.subrange(b@[k as int].0 as int, b@[k as int].1 as int));
        }
        let mut j: usize = s;
        let ghost mid = out@;
        proof {
            assert(v@.subrange(s as int, s as int) =~= Seq::<char>::empty());
            assert(out@ =~= mid + v@.subrange(s as int, j as int));
        }
        while j < e
            invariant
                s <= j <= e <= v@.len(),
                out@ == mid + v@.subrange(s as int, j as int),
            decreases e - j,
        {
            out.push(v[j]);
            proof {
                assert(v@.subrange(s as int, j + 1) =~= v@.subrange(s as int, j as int).push(v@[j as int]));
            }
            j = j + 1;
        }
        proof {
            let sub = ls.subrange(from as int, k + 1);
            assert(sub.drop_last() =~= ls.subrange(from as int, k as int));
            assert(sub.last() == ls[k as int]);
            if k > from {
                assert(out@ =~= join_lines(sub.drop_last()) + seq!['\n'] + sub.last());
            } else {
                assert(sub.len() == 1);
                assert(out@ =~= sub[0]);
            }
        }
        k = k + 1;
    }
    string_from_chars(out)
}

/// Asking for at least as many lines as the log has gives the whole log's
/// lines; asking for none gives the empty text.
pub proof fn law_tail_bounds(content: Seq<char>, n: nat)
    ensures
        n >= lines_of(content).len() ==> tail_spec(content, n) == join_lines(lines_of(content)),
        tail_spec(content, 0) == Seq::<char>::empty(),
{
    let ls = lines_of(content);
    assert(ls.subrange(0, ls.len() as int) =~= ls);
    assert(ls.subrange(ls.len() as int, ls.len() as int) =~= Seq::<Seq<char>>::empty());
}

// ---------------------------------------------------------------- following a file

/// What to do with one followed log file whose length is now `len`, when
/// `last` is the position recorded for it (if any).
pub struct TailPlan {
    /// A position to record before reading (the file shrank: start over at 0).
    pub record_first: Option<u64>,
    /// Where to start reading, when there is anything new.
    pub read_from: Option<u64>,
    /// The position to record once the read succeeded.
    pub record_after_read: u64,
}

/// The position reading starts from: the recorded one, or 0 when there is
/// none or the file became shorter than it.
pub open spec fn tail_position(len: u64, last: Option<u64>) -> u64 {
    match last {
        Some(l) => if len < l { 0 } else { l },
        None => 0,
    }
}

/// Where reading starts, when the file holds anything past the position.
pub open spec fn tail_read_from(len: u64, last: Option<u64>) -> Option<u64> {
    let pos = tail_position(len, last);
    if len <= pos { None } else { Some(pos) }
}

/// `tail_file`'s decisions: a file shorter than the recorded position was
/// truncated or rotated and is read again from the start; nothing is read
/// when the file has not grown past the position; after a read the
/// position becomes the length that was seen.
pub fn plan_tail(len: u64, last: Option<u64>) -> (p: TailPlan)
    ensures
        p.record_first == (match last {
            Some(l) => if len < l { Some(0u64) } else { None },
            None => None,
        }),
        p.read_from == tail_read_from(len, last),
        p.record_after_read == len,
{
    let reset = match last {
        Some(l) => len < l,
        None => false,
    };
    let record_first = if reset { Some(0u64) } else { None };
    let pos: u64 = if reset {
        0
    } else {
        match last {
            Some(l) => l,
            None => 0,
        }
    };
    let read_from = if len <= pos { None } else { Some(pos) };
    TailPlan { record_first, read_from, record_after_read: len }
}

/// Following a file emits each part of it once: once a read recorded the
/// length `len`, the same length reads nothing; growth to `len2` reads exactly
/// the new part from `len`; a file that shrank is read again from its start.
pub proof fn law_tail_reads_once(len: u64, len2: u64)
    ensures
        tail_read_from(len, Some(len)) is None,
        len < len2 ==> tail_read_from(len2, Some(len)) == Some(len),
        0 < len2 < len ==> tail_read_from(len2, Some(len)) == Some(0u64),
        tail_read_from(len2, None) == (if len2 == 0 { None } else { Some(0u64) }),
{
}

} // verus!
