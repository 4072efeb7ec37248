use vstd::prelude::*;
use vstd::string::*;

verus! {

/// The interpreter to launch and the script to hand it, with no further arguments.
#[derive(Debug, Clone, PartialEq, Eq)]
pub struct ScriptCommand {
    pub interpreter: String,
    pub script: String,
}

/// `rel` resolved against the directory `base`: an absolute `rel`, or an empty `base`,
/// leaves `rel` as it is; otherwise the two are joined by one `/`.
pub open spec fn join_path(base: Seq<char>, rel: Seq<char>) -> Seq<char> {
    if base.len() == 0 || (rel.len() > 0 && rel[0] == '/') {
        rel
    } else if base.last() == '/' {
        base + rel
    } else {
        base + seq!['/'] + rel
    }
}

impl ScriptCommand {
    pub fn new(interpreter: String, script: String) -> (r: ScriptCommand)
        ensures
            r.interpreter@ == interpreter@,
            r.script@ == script@,
    {
        ScriptCommand { interpreter, script }
    }

    /// `python3` running `../app.py`.
    pub fn python_default() -> (r: ScriptCommand)
        ensures
            r.interpreter@ == "python3"@,
            r.script@ == "../app.py"@,
    {
        ScriptCommand { interpreter: String::from_str("python3"), script: String::from_str("../app.py") }
    }

    /// The same command with its script resolved against the directory `base_dir`, so that
    /// the script is found wherever the process was started.
    pub fn resolved_in(&self, base_dir: &str) -> (r: ScriptCommand)
        ensures
            r.interpreter@ == self.interpreter@,
            r.script@ == join_path(base_dir@, self.script@),
    {
        let base_len = base_dir.unicode_len();
        let rel = self.script.as_str();
        let rel_len = rel.unicode_len();
        let script = if base_len == 0 || (rel_len > 0 && rel.get_char(0) == '/') {
            self.script.clone()
        } else {
            let mut joined = String::from_str(base_dir);
            if base_dir.get_char(base_len - 1) != '/' {
                joined.append("/");
                proof {
                    reveal_strlit("/");
                    assert(joined@ == base_dir@ + seq!['/']);
                }
            }
            joined.append(rel);
            joined
        };
        ScriptCommand { interpreter: self.interpreter.clone(), script }
    }
}

} // verus!
