//! What an external tool left behind when it exited, and the one-line
//! diagnostic made of it.

use vstd::prelude::*;
use vstd::string::StringExecFns;
use crate::text::{lossy_of, lossy_text, signed_decimal, signed_decimal_string, trim_text, trimmed_of};

verus! {

/// The outcome of one run of an external tool: its exit code, when it
/// exited with one, and the bytes it wrote to its two streams.
pub struct ToolOutput {
    pub code: Option<i32>,
    pub stdout: Vec<u8>,
    pub stderr: Vec<u8>,
}

/// The trimmed text of a captured stream.
pub open spec fn stream_text(b: Seq<u8>) -> Seq<char> {
    trimmed_of(lossy_of(b))
}

/// The diagnostic for a run: `exit code N` when there is a code, then the
/// error stream's text, or the output stream's where the error stream says
/// nothing, joined by `: ` where both parts are present.
pub open spec fn detail_of(code: Option<i32>, stdout: Seq<u8>, stderr: Seq<u8>) -> Seq<char> {
    let head = match code {
        Some(c) => "exit code "@ + signed_decimal(c as int),
        None => Seq::<char>::empty(),
    };
    let extra = if stream_text(stderr).len() > 0 {
        stream_text(stderr)
    } else {
        stream_text(stdout)
    };
    if extra.len() == 0 {
        head
    } else if head.len() == 0 {
        extra
    } else {
        head + ": "@ + extra
    }
}

impl ToolOutput {
    /// Whether the tool exited with status zero.
    pub open spec fn succeeded(&self) -> bool {
        self.code == Some(0i32)
    }

    pub fn success(&self) -> (r: bool)
        ensures
            r == self.succeeded(),
    {
        match self.code {
            Some(c) => c == 0,
            None => false,
        }
    }
}

/// A describable record of a finished process.
pub trait OutputExt {
    /// The diagnostic, as text.
    spec fn info_spec(&self) -> Seq<char>;

    /// Renders the diagnostic.
    fn info(&self) -> (r: String)
        ensures
            r@ == self.info_spec(),
    ;
}

impl OutputExt for ToolOutput {
    open spec fn info_spec(&self) -> Seq<char> {
        detail_of(self.code, self.stdout@, self.stderr@)
    }

    fn info(&self) -> (r: String) {
        let mut out = String::new();
        if let Some(code) = self.code {
            out.append("exit code ");
            let digits = signed_decimal_string(code as i64);
            out.append(digits.as_str());
        }
        let err_lossy = lossy_text(self.stderr.as_slice());
        let err_text = String::from_str(trim_text(err_lossy.as_str()));
        let extra = if err_text.as_str().is_empty() {
            let out_lossy = lossy_text(self.stdout.as_slice());
            String::from_str(trim_text(out_lossy.as_str()))
        } else {
            err_text
        };
        proof {
            reveal_strlit("exit code ");
            reveal_strlit(": ");
        }
        if !extra.as_str().is_empty() {
            if !out.as_str().is_empty() {
                out.append(": ");
            }
            out.append(extra.as_str());
        }
        out
    }
}

} // verus!
