//! Finding the console's services among the running processes. The host
//! lists the processes; this module decides which of them match.
use vstd::prelude::*;
use crate::text::{chars_of, eq_ignore_ascii_case, contains_ignore_ascii_case, lower_seq, seq_contains, vec_contains};

verus! {

/// A running process as the host lists it.
#[derive(Debug, Clone)]
pub struct ProcessEntry {
    pub pid: u32,
    /// The file name of its executable, when known and valid UTF-8.
    pub exe_name: Option<String>,
    /// Its command line, arguments joined by spaces.
    pub cmd: String,
}

/// The executable's file name equals `name`, ignoring ASCII case.
pub open spec fn name_matches(e: ProcessEntry, name: Seq<char>) -> bool {
    match e.exe_name {
        Some(n) => lower_seq(n@) == lower_seq(name),
        None => false,
    }
}

/// The name matches and the command line contains `needle`, ignoring ASCII case.
pub open spec fn cmdline_matches(e: ProcessEntry, name: Seq<char>, needle: Seq<char>) -> bool {
    name_matches(e, name) && seq_contains(lower_seq(e.cmd@), lower_seq(needle))
}

/// `i` is the first process whose executable is `name`.
pub open spec fn first_named(procs: Seq<ProcessEntry>, i: int, name: Seq<char>) -> bool {
    &&& 0 <= i < procs.len()
    &&& name_matches(procs[i], name)
    &&& forall|j: int| 0 <= j < i ==> !name_matches(#[trigger] procs[j], name)
}

/// `i` is the first process named `name` whose command line contains `needle`.
pub open spec fn first_with_cmdline(procs: Seq<ProcessEntry>, i: int, name: Seq<char>, needle: Seq<char>) -> bool {
    &&& 0 <= i < procs.len()
    &&& cmdline_matches(procs[i], name, needle)
    &&& forall|j: int| 0 <= j < i ==> !cmdline_matches(#[trigger] procs[j], name, needle)
}

/// `r` is what a first-match search by executable name returns.
pub open spec fn is_first_pid(procs: Seq<ProcessEntry>, name: Seq<char>, r: Option<u32>) -> bool {
    match r {
        Some(pid) => exists|i: int| #[trigger] first_named(procs, i, name) && procs[i].pid == pid,
        None => forall|j: int| 0 <= j < procs.len() ==> !name_matches(#[trigger] procs[j], name),
    }
}

/// `r` is what a first-match search by name and command line returns.
pub open spec fn is_first_cmdline_pid(procs: Seq<ProcessEntry>, name: Seq<char>, needle: Seq<char>, r: Option<u32>) -> bool {
    match r {
        Some(pid) => exists|i: int| #[trigger] first_with_cmdline(procs, i, name, needle) && procs[i].pid == pid,
        None => forall|j: int| 0 <= j < procs.len() ==> !cmdline_matches(#[trigger] procs[j], name, needle),
    }
}

/// `is_running` agrees with `find_pid`: a name runs exactly when a pid is
/// found for it, and a found pid belongs to a process of that name.
pub proof fn law_running_iff_pid(procs: Seq<ProcessEntry>, name: Seq<char>, r: Option<u32>)
    requires
        is_first_pid(procs, name, r),
    ensures
        (r is Some) == (exists|i: int| 0 <= i < procs.len() && name_matches(#[trigger] procs[i], name)),
        r matches Some(pid) ==> exists|i: int|
            0 <= i < procs.len() && name_matches(#[trigger] procs[i], name) && procs[i].pid == pid,
{
    if r is Some {
        let i = choose|i: int| #[trigger] first_named(procs, i, name) && procs[i].pid == r->0;
        assert(0 <= i < procs.len() && name_matches(procs[i], name));
    }
}

/// The same agreement for the search by name and command line.
pub proof fn law_running_with_cmdline_iff_pid(
    procs: Seq<ProcessEntry>,
    name: Seq<char>,
    needle: Seq<char>,
    r: Option<u32>,
)
    requires
        is_first_cmdline_pid(procs, name, needle, r),
    ensures
        (r is Some) == (exists|i: int| 0 <= i < procs.len() && cmdline_matches(#[trigger] procs[i], name, needle)),
        r matches Some(pid) ==> exists|i: int|
            0 <= i < procs.len() && cmdline_matches(#[trigger] procs[i], name, needle) && procs[i].pid == pid,
{
    if r is Some {
        let i = choose|i: int| #[trigger] first_with_cmdline(procs, i, name, needle) && procs[i].pid == r->0;
        assert(0 <= i < procs.len() && cmdline_matches(procs[i], name, needle));
    }
}

fn entry_name_matches(e: &ProcessEntry, name: &str) -> (r: bool)
    ensures
        r == name_matches(*e, name@),
{
    match &e.exe_name {
        Some(n) => eq_ignore_ascii_case(n.as_str(), name),
        None => false,
    }
}

/// `find_pid`: the pid of the first process whose executable is `name`.
pub fn find_pid(procs: &Vec<ProcessEntry>, name: &str) -> (r: Option<u32>)
    ensures
        is_first_pid(procs@, name@, r),
{
    let n = procs.len();
    let mut i: usize = 0;
    while i < n
        invariant
            n == procs@.len(),
            i <= n,
            forall|j: int| 0 <= j < i ==> !name_matches(#[trigger] procs@[j], name@),
        decreases n - i,
    {
        if entry_name_matches(&procs[i], name) {
            assert(first_named(procs@, i as int, name@));
            return Some(procs[i].pid);
        }
        i = i + 1;
    }
    None
}

/// `is_running`: some process's executable is `name`.
pub fn is_running(procs: &Vec<ProcessEntry>, name: &str) -> (r: bool)
    ensures
        r == exists|i: int| 0 <= i < procs@.len() && name_matches(#[trigger] procs@[i], name@),
{
    let r = find_pid(procs, name);
    r.is_some()
}

/// `find_pid_with_cmdline`: the pid of the first process named `name` whose
/// command line contains `cmd_substr`.
pub fn find_pid_with_cmdline(procs: &Vec<ProcessEntry>, name: &str, cmd_substr: &str) -> (r: Option<u32>)
    ensures
        is_first_cmdline_pid(procs@, name@, cmd_substr@, r),
{
    let n = procs.len();
    let mut i: usize = 0;
    while i < n
        invariant
            n == procs@.len(),
            i <= n,
            forall|j: int| 0 <= j < i ==> !cmdline_matches(#[trigger] procs@[j], name@, cmd_substr@),
        decreases n - i,
    {
        if entry_name_matches(&procs[i], name) && contains_ignore_ascii_case(procs[i].cmd.as_str(), cmd_substr) {
            assert(first_with_cmdline(procs@, i as int, name@, cmd_substr@));
            return Some(procs[i].pid);
        }
        i = i + 1;
    }
    None
}

/// `is_running_with_cmdline`.
pub fn is_running_with_cmdline(procs: &Vec<ProcessEntry>, name: &str, cmd_substr: &str) -> (r: bool)
    ensures
        r == exists|i: int| 0 <= i < procs@.len() && cmdline_matches(#[trigger] procs@[i], name@, cmd_substr@),
{
    let r = find_pid_with_cmdline(procs, name, cmd_substr);
    r.is_some()
}

/// The pids, in list order, of the processes satisfying `p`.
pub open spec fn pids_where(procs: Seq<ProcessEntry>, p: spec_fn(ProcessEntry) -> bool) -> Seq<u32> {
    procs.filter(p).map_values(|e: ProcessEntry| e.pid)
}

proof fn lemma_filter_push(s: Seq<ProcessEntry>, p: spec_fn(ProcessEntry) -> bool, x: ProcessEntry)
    ensures
        s.push(x).filter(p) == if p(x) { s.filter(p).push(x) } else { s.filter(p) },
{
    reveal(Seq::filter);
    assert(s.push(x).drop_last() =~= s);
}

/// `kill_by_name`'s selection: every process whose executable is `name`.
pub fn pids_named(procs: &Vec<ProcessEntry>, name: &str) -> (r: Vec<u32>)
    ensures
        r@ == pids_where(procs@, |e: ProcessEntry| name_matches(e, name@)),
{
    let ghost p = |e: ProcessEntry| name_matches(e, name@);
    let mut r: Vec<u32> = Vec::new();
    let n = procs.len();
    let mut i: usize = 0;
    while i < n
        invariant
            n == procs@.len(),
            i <= n,
            p == (|e: ProcessEntry| name_matches(e, name@)),
            r@ == pids_where(procs@.take(i as int), p),
        decreases n - i,
    {
        proof {
            assert(procs@.take(i + 1) =~= procs@.take(i as int).push(procs@[i as int]));
            lemma_filter_push(procs@.take(i as int), p, procs@[i as int]);
        }
        if entry_name_matches(&procs[i], name) {
            r.push(procs[i].pid);
            proof {
                assert(r@ =~= pids_where(procs@.take(i + 1), p));
            }
        } else {
            proof {
                assert(r@ =~= pids_where(procs@.take(i + 1), p));
            }
        }
        i = i + 1;
    }
    assert(procs@.take(n as int) =~= procs@);
    r
}

/// What `str::to_lowercase` returns (full Unicode lower-casing).
pub uninterp spec fn unicode_lowercase(s: Seq<char>) -> Seq<char>;

/// `str::to_lowercase`.
#[verifier::external_body]
fn to_lowercase(s: &str) -> (r: String)
    ensures
        r@ == unicode_lowercase(s@),
{
    s.to_lowercase()
}

/// The command line, lower-cased as `str::to_lowercase` does, contains `needle`.
pub open spec fn cmd_contains(e: ProcessEntry, needle: Seq<char>) -> bool {
    seq_contains(unicode_lowercase(e.cmd@), needle)
}

/// The sweep's selection: the executable is `name` (ignoring ASCII case) and
/// the lower-cased command line contains `needle`.
pub open spec fn sweep_matches(e: ProcessEntry, name: Seq<char>, needle: Seq<char>) -> bool {
    name_matches(e, name) && cmd_contains(e, needle)
}

/// The sweep that stops Yunzai by command line: every process whose
/// executable is `name` and whose lower-cased command line contains `needle`.
pub fn pids_with_cmdline(procs: &Vec<ProcessEntry>, name: &str, needle: &str) -> (r: Vec<u32>)
    ensures
        r@ == pids_where(procs@, |e: ProcessEntry| sweep_matches(e, name@, needle@)),
{
    let ghost p = |e: ProcessEntry| sweep_matches(e, name@, needle@);
    let nv = chars_of(needle);
    let mut r: Vec<u32> = Vec::new();
    let n = procs.len();
    let mut i: usize = 0;
    while i < n
        invariant
            n == procs@.len(),
            i <= n,
            nv@ == needle@,
            p == (|e: ProcessEntry| sweep_matches(e, name@, needle@)),
            r@ == pids_where(procs@.take(i as int), p),
        decreases n - i,
    {
        proof {
            assert(procs@.take(i + 1) =~= procs@.take(i as int).push(procs@[i as int]));
            lemma_filter_push(procs@.take(i as int), p, procs@[i as int]);
        }
        let named = entry_name_matches(&procs[i], name);
        let lowered = to_lowercase(procs[i].cmd.as_str());
        let hv = chars_of(lowered.as_str());
        if named && vec_contains(&hv, &nv) {
            r.push(procs[i].pid);
            proof {
                assert(r@ =~= pids_where(procs@.take(i + 1), p));
            }
        } else {
            proof {
                assert(r@ =~= pids_where(procs@.take(i + 1), p));
            }
        }
        i = i + 1;
    }
    assert(procs@.take(n as int) =~= procs@);
    r
}

} // verus!
