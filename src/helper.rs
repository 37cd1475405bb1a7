use vstd::prelude::*;

use std::path::PathBuf;

use rhai::Engine;
use serde_json::Value;

use crate::invoke::{new_engine, run_script, ScriptError};

verus! {

#[verifier::external_type_specification]
#[verifier::external_body]
pub struct ExPathBuf(std::path::PathBuf);

/// A helper whose script is held in memory for its whole life.
pub struct ScriptHelper {
    script: String,
    engine: Engine,
}

/// A helper whose script lives in a file: either the text read when the
/// helper was made is kept, or the file is read afresh for every call.
pub struct FileScriptHelper {
    file_path: PathBuf,
    script: String,
    engine: Engine,
    cache: bool,
}

impl ScriptHelper {
    /// The script's text.
    pub closed spec fn source_spec(&self) -> Seq<char> {
        self.script@
    }

    pub fn new(script: String) -> (r: Self)
        ensures
            r.source_spec() == script@,
    {
        ScriptHelper { script, engine: new_engine() }
    }

    /// The script's text; never fails, never reads anything.
    pub fn get_source(&self) -> (r: &str)
        ensures
            r@ == self.source_spec(),
    {
        self.script.as_str()
    }

    /// Runs the script with `params` and `hash` bound to the positional and
    /// named arguments. Fails only with an evaluation failure.
    pub fn call(&self, params: &Vec<Value>, hash: &serde_json::Map<String, Value>) -> (r: Result<
        Option<Value>,
        ScriptError,
    >)
        ensures
            r is Ok ==> r->Ok_0 is Some,
            r is Err ==> r->Err_0 is Eval,
    {
        match run_script(&self.engine, self.script.as_str(), params, hash) {
            Ok(v) => Ok(Some(v)),
            Err(e) => Err(e),
        }
    }
}

/// The message of a missing read, for a helper that reads its file on each call.
pub open spec fn unread_message() -> Seq<char> {
    "script file was not read for this call"@
}

impl FileScriptHelper {
    /// The path of the script file.
    pub closed spec fn path_spec(&self) -> PathBuf {
        self.file_path
    }

    /// The text read when the helper was made.
    pub closed spec fn snapshot_spec(&self) -> Seq<char> {
        self.script@
    }

    /// Whether that text is kept for every call.
    pub closed spec fn cache_spec(&self) -> bool {
        self.cache
    }

    /// Makes a helper from the file's path, the text read from it now, and
    /// whether that text is kept (`cache`) or the file read again on each
    /// call; in the second case the text given here is never used.
    pub fn new(file_path: PathBuf, script: String, cache: bool) -> (r: Self)
        ensures
            r.path_spec() == file_path,
            r.snapshot_spec() == script@,
            r.cache_spec() == cache,
    {
        FileScriptHelper { file_path, script, engine: new_engine(), cache }
    }

    pub fn file_path(&self) -> (r: &PathBuf)
        ensures
            *r == self.path_spec(),
    {
        &self.file_path
    }

    /// Whether a call needs the file's current text: exactly when nothing is kept.
    pub fn needs_read(&self) -> (r: bool)
        ensures
            r == !self.cache_spec(),
    {
        !self.cache
    }

    /// The script text for one call. A cached helper uses the text it kept and
    /// ignores `fresh`. Otherwise `fresh` is the outcome of reading the file for
    /// this call: its text, or the read's error message, which fails this call
    /// only. A missing read fails the call as a read failure too.
    pub fn get_source(&self, fresh: Option<Result<String, String>>) -> (r: Result<String, ScriptError>)
        ensures
            self.cache_spec() ==> r is Ok && r->Ok_0@ == self.snapshot_spec(),
            !self.cache_spec() ==> match fresh {
                Some(Ok(t)) => r is Ok && r->Ok_0@ == t@,
                Some(Err(m)) => r == Err::<String, ScriptError>(ScriptError::Io(m)),
                None => r is Err && r->Err_0 is Io && r->Err_0->Io_0@ == unread_message(),
            },
    {
        if self.cache {
            Ok(self.script.clone())
        } else {
            match fresh {
                Some(Ok(t)) => Ok(t),
                Some(Err(m)) => Err(ScriptError::Io(m)),
                None => Err(ScriptError::Io("script file was not read for this call".to_string())),
            }
        }
    }

    /// Runs the script of this call (see `get_source`) with `params` and `hash`
    /// bound to the positional and named arguments. A read failure is returned
    /// before anything is evaluated.
    pub fn call(
        &self,
        fresh: Option<Result<String, String>>,
        params: &Vec<Value>,
        hash: &serde_json::Map<String, Value>,
    ) -> (r: Result<Option<Value>, ScriptError>)
        ensures
            r is Ok ==> r->Ok_0 is Some,
            self.cache_spec() ==> (r is Err ==> r->Err_0 is Eval),
            !self.cache_spec() ==> match fresh {
                Some(Ok(_)) => r is Err ==> r->Err_0 is Eval,
                Some(Err(m)) => r == Err::<Option<Value>, ScriptError>(ScriptError::Io(m)),
                None => r is Err && r->Err_0 is Io,
            },
    {
        let script = match self.get_source(fresh) {
            Ok(s) => s,
            Err(e) => {
                return Err(e);
            },
        };
        match run_script(&self.engine, script.as_str(), params, hash) {
            Ok(v) => Ok(Some(v)),
            Err(e) => Err(e),
        }
    }
}

} // verus!
