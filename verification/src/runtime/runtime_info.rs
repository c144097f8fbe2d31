use vstd::prelude::*;

verus! {

/// Where in the source a runtime fault was noticed, with an optional
/// description.
#[derive(Debug, Clone)]
pub struct RuntimeInfo {
    pub source_file: &'static str,
    pub module: &'static str,
    pub line: u32,
    pub message: Option<String>,
}

impl RuntimeInfo {
    pub fn new(
        source_file: &'static str,
        module: &'static str,
        line: u32,
        message: Option<String>,
    ) -> (r: Self)
        ensures
            r.source_file@ == source_file@,
            r.module@ == module@,
            r.line == line,
            r.message == message,
    {
        RuntimeInfo { source_file, module, line, message }
    }

    pub fn without_message(source_file: &'static str, module: &'static str, line: u32) -> (r: Self)
        ensures
            r.source_file@ == source_file@,
            r.module@ == module@,
            r.line == line,
            r.message is None,
    {
        Self::new(source_file, module, line, None)
    }
}

} // verus!
