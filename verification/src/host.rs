//! What the state machines of this library ask their host to run, and what
//! the host reports back about it.
use vstd::prelude::*;

verus! {

/// The view of a list of strings.
pub open spec fn strings_view(v: Seq<String>) -> Seq<Seq<char>> {
    v.map_values(|s: String| s@)
}

/// An external program to start.
pub struct CommandSpec {
    pub program: String,
    pub args: Vec<String>,
    /// The working directory, when it is not the console's own.
    pub cwd: Option<String>,
    /// Extra environment variables.
    pub env: Vec<(String, String)>,
    /// Start without a console window (`CREATE_NO_WINDOW` on Windows).
    pub hide_window: bool,
}

pub struct CommandView {
    pub program: Seq<char>,
    pub args: Seq<Seq<char>>,
    pub cwd: Option<Seq<char>>,
    pub env: Seq<(Seq<char>, Seq<char>)>,
    pub hide_window: bool,
}

pub open spec fn opt_string_view(o: Option<String>) -> Option<Seq<char>> {
    match o {
        Some(s) => Some(s@),
        None => None,
    }
}

impl View for CommandSpec {
    type V = CommandView;

    open spec fn view(&self) -> CommandView {
        CommandView {
            program: self.program@,
            args: strings_view(self.args@),
            cwd: opt_string_view(self.cwd),
            env: self.env@.map_values(|p: (String, String)| (p.0@, p.1@)),
            hide_window: self.hide_window,
        }
    }
}

/// How running a program to completion ended.
pub enum CommandOutcome {
    /// The program could not be started at all.
    SpawnFailed,
    /// The program ran and exited; `stderr` is its error output, decoded lossily.
    Exited { success: bool, stderr: String },
}

pub enum OutcomeView {
    SpawnFailed,
    Exited { success: bool, stderr: Seq<char> },
}

impl View for CommandOutcome {
    type V = OutcomeView;

    open spec fn view(&self) -> OutcomeView {
        match self {
            CommandOutcome::SpawnFailed => OutcomeView::SpawnFailed,
            CommandOutcome::Exited { success, stderr } => OutcomeView::Exited {
                success: *success,
                stderr: stderr@,
            },
        }
    }
}

pub fn copy_strings(v: &Vec<String>) -> (r: Vec<String>)
    ensures
        strings_view(r@) == strings_view(v@),
{
    let mut r: Vec<String> = Vec::new();
    let n = v.len();
    let mut i: usize = 0;
    while i < n
        invariant
            n == v@.len(),
            i <= n,
            strings_view(r@) == strings_view(v@.take(i as int)),
        decreases n - i,
    {
        let ghost before = r@;
        r.push(v[i].clone());
        proof {
            assert(v@.take(i + 1) =~= v@.take(i as int).push(v@[i as int]));
            assert(strings_view(r@) =~= strings_view(before).push(v@[i as int]@));
            assert(strings_view(v@.take(i + 1)) =~= strings_view(v@.take(i as int)).push(v@[i as int]@));
        }
        i = i + 1;
    }
    assert(v@.take(n as int) =~= v@);
    r
}

impl CommandSpec {
    pub fn copy(&self) -> (r: Self)
        ensures
            r@ == self@,
    {
        let mut env: Vec<(String, String)> = Vec::new();
        let n = self.env.len();
        let mut i: usize = 0;
        while i < n
            invariant
                n == self.env@.len(),
                i <= n,
                env@.map_values(|p: (String, String)| (p.0@, p.1@))
                    == self.env@.take(i as int).map_values(|p: (String, String)| (p.0@, p.1@)),
            decreases n - i,
        {
            let k = self.env[i].0.clone();
            let x = self.env[i].1.clone();
            let ghost before = env@;
            env.push((k, x));
            proof {
                let f = |p: (String, String)| (p.0@, p.1@);
                assert(self.env@.take(i + 1) =~= self.env@.take(i as int).push(self.env@[i as int]));
                assert(env@.map_values(f) =~= before.map_values(f).push(f(self.env@[i as int])));
                assert(self.env@.take(i + 1).map_values(f) =~= self.env@.take(i as int).map_values(f).push(f(self.env@[i as int])));
            }
            i = i + 1;
        }
        assert(self.env@.take(n as int) =~= self.env@);
        let cwd = match &self.cwd {
            Some(c) => Some(c.clone()),
            None => None,
        };
        CommandSpec {
            program: self.program.clone(),
            args: copy_strings(&self.args),
            cwd,
            env,
            hide_window: self.hide_window,
        }
    }
}

/// Builds a list of strings from literals.
pub fn strings2(a: &str, b: &str) -> (r: Vec<String>)
    ensures
        strings_view(r@) == seq![a@, b@],
{
    let mut r: Vec<String> = Vec::new();
    r.push(String::from_str(a));
    r.push(String::from_str(b));
    assert(strings_view(r@) =~= seq![a@, b@]);
    r
}

} // verus!
