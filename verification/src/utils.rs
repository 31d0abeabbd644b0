//! Failures of child processes: when one is an error, what its message says,
//! and which exit code the program ends with.

use crate::error::{Error, ErrorKind, ExitStatus, ProcessError};
use crate::text::{replace_char, replace_spec, strs};
pub use crate::fetch::get;
pub use crate::source_build::ensure_binary;
use vstd::prelude::*;
use vstd::slice::slice_to_vec;

verus! {

/// The text that `bytes` decodes to as UTF-8, with the replacement character
/// in the place of what is not UTF-8.
pub uninterp spec fn lossy_text(bytes: Seq<u8>) -> Seq<char>;

/// `String::from_utf8_lossy`: the text of `bytes`, invalid sequences
/// replaced. The result depends on the bytes alone.
#[verifier::external_body]
fn lossy(bytes: &[u8]) -> (text: String)
    ensures
        text@ == lossy_text(bytes@),
{
    String::from_utf8_lossy(bytes).into_owned()
}

/// Ok if `status` reports success; else the failure of the process, with the
/// command line and what the process wrote, not hidden.
pub fn check_success(cmd_desc: &str, status: &ExitStatus, stdout: &[u8], stderr: &[u8]) -> (r:
    Result<(), Error>)
    ensures
        r is Ok <==> status.succeeded(),
        r matches Err(e) ==> e.context@.len() == 0 && (e.kind matches ErrorKind::Process(p)
            && p.status.code == status.code && p.status.text@ == status.text@ && !p.hidden
            && p.stdout@ == stdout@ && p.stderr@ == stderr@ && p.cmd_desc@ == cmd_desc@),
{
    if status.success() {
        return Ok(());
    }
    Err(
        Error::process(
            ProcessError {
                status: ExitStatus { code: status.code, text: status.text.clone() },
                hidden: false,
                stdout: slice_to_vec(stdout),
                stderr: slice_to_vec(stderr),
                cmd_desc: cmd_desc.to_owned(),
            },
        ),
    )
}

/// Whether a failed process ended the way a program ends that has said all
/// there is to say: with an exit code from 0 to 127 and nothing captured
/// from either stream.
pub open spec fn is_normal_exit(p: ProcessError) -> bool {
    match p.status.code {
        Some(code) => 0 <= code < 128 && p.stdout@.len() == 0 && p.stderr@.len() == 0,
        None => false,
    }
}

/// What `hide_normal_process_exit` returns.
pub open spec fn hidden_spec(error: Error, verbose: bool) -> Error {
    match error.kind {
        ErrorKind::Process(p) => if !verbose && is_normal_exit(p) {
            Error { kind: ErrorKind::Process(ProcessError { hidden: true, ..p }), ..error }
        } else {
            error
        },
        _ => error,
    }
}

/// Marks the failure of a process as hidden if it looks like a normal exit
/// and the run is not verbose. Any other failure comes back as it is.
pub fn hide_normal_process_exit(error: Error, verbose: bool) -> (out: Error)
    ensures
        out == hidden_spec(error, verbose),
{
    if verbose {
        return error;
    }
    let Error { kind, message, context } = error;
    match kind {
        ErrorKind::Process(p) => {
            let normal = match p.status.code {
                Some(code) => 0 <= code && code < 128 && p.stdout.len() == 0 && p.stderr.len()
                    == 0,
                None => false,
            };
            if normal {
                let ProcessError { status, hidden, stdout, stderr, cmd_desc } = p;
                Error {
                    kind: ErrorKind::Process(
                        ProcessError { status, hidden: true, stdout, stderr, cmd_desc },
                    ),
                    message,
                    context,
                }
            } else {
                Error { kind: ErrorKind::Process(p), message, context }
            }
        },
        other => Error { kind: other, message, context },
    }
}

/// The exit code of a hidden process failure; none for any other failure.
pub open spec fn normal_exit_code_spec(error: Error) -> Option<i32> {
    match error.kind {
        ErrorKind::Process(p) => if p.hidden {
            p.status.code
        } else {
            None
        },
        _ => None,
    }
}

/// The exit code of a process failure that `hide_normal_process_exit` has
/// hidden.
pub fn normal_process_exit_code(error: &Error) -> (code: Option<i32>)
    ensures
        code == normal_exit_code_spec(*error),
{
    match &error.kind {
        ErrorKind::Process(p) => {
            if !p.hidden {
                return None;
            }
            p.status.code
        },
        _ => None,
    }
}

/// The exit code of the program: 0 after success, the child's own code after
/// a hidden process failure, 1 after any other failure.
pub open spec fn exit_code_spec(outcome: Result<(), Error>) -> i32 {
    match outcome {
        Ok(_) => 0i32,
        Err(e) => match normal_exit_code_spec(e) {
            Some(code) => code,
            None => 1i32,
        },
    }
}

/// The exit code of the program after `outcome`.
pub fn exit_code(outcome: &Result<(), Error>) -> (code: i32)
    ensures
        code == exit_code_spec(*outcome),
{
    match outcome {
        Ok(_) => 0,
        Err(e) => match normal_process_exit_code(e) {
            Some(code) => code,
            None => 1,
        },
    }
}

/// Whether a failure is reported with a message: every failure but a hidden
/// process failure that carries an exit code.
pub fn needs_report(error: &Error) -> (r: bool)
    ensures
        r == (normal_exit_code_spec(*error) is None),
{
    normal_process_exit_code(error).is_none()
}

/// One captured stream in a message: nothing if the stream is empty, else a
/// heading and the text, each of its lines indented.
pub open spec fn stream_section(heading: Seq<char>, bytes: Seq<u8>) -> Seq<char> {
    if bytes.len() == 0 {
        Seq::empty()
    } else {
        "\n    "@ + heading + ":\n        "@ + replace_spec(
            lossy_text(bytes),
            '\n',
            "\n        "@,
        )
    }
}

/// The message of a process failure.
pub open spec fn process_message(p: ProcessError) -> Seq<char> {
    "failed to execute "@ + p.cmd_desc@ + "\n    status: "@ + p.status.text@ + stream_section(
        "stdout"@,
        p.stdout@,
    ) + stream_section("stderr"@, p.stderr@)
}

fn push_stream(out: &mut String, heading: &str, bytes: &Vec<u8>)
    ensures
        final(out)@ == old(out)@ + stream_section(heading@, bytes@),
{
    if bytes.len() == 0 {
        assert(out@ + Seq::<char>::empty() =~= out@);
        return ;
    }
    let ghost before = out@;
    let text = lossy(bytes.as_slice());
    let indented = replace_char(text.as_str(), '\n', "\n        ");
    out.append("\n    ");
    out.append(heading);
    out.append(":\n        ");
    out.append(indented.as_str());
    assert(out@ =~= before + stream_section(heading@, bytes@));
}

impl ProcessError {
    /// The message: the command line, the status, and what was captured.
    pub fn message(&self) -> (text: String)
        ensures
            text@ == process_message(*self),
    {
        let mut out = "failed to execute ".to_owned();
        out.append(self.cmd_desc.as_str());
        out.append("\n    status: ");
        out.append(self.status.text.as_str());
        push_stream(&mut out, "stdout", &self.stdout);
        push_stream(&mut out, "stderr", &self.stderr);
        out
    }
}

/// The message of a failure: that of the process for a process failure, else
/// the failure's own.
pub open spec fn message_spec(e: Error) -> Seq<char> {
    match e.kind {
        ErrorKind::Process(p) => process_message(p),
        _ => e.message@,
    }
}

/// `message` with the lines of `context` before it, outermost first, a colon
/// and a space after each.
pub open spec fn report_spec(context: Seq<Seq<char>>, message: Seq<char>) -> Seq<char>
    decreases context.len(),
{
    if context.len() == 0 {
        message
    } else {
        context.last() + ": "@ + report_spec(context.drop_last(), message)
    }
}

impl Error {
    /// The message without context.
    pub fn message_text(&self) -> (text: String)
        ensures
            text@ == message_spec(*self),
    {
        match &self.kind {
            ErrorKind::Process(p) => p.message(),
            _ => self.message.clone(),
        }
    }

    /// The whole report: context, outermost first, then the message.
    pub fn report(&self) -> (text: String)
        ensures
            text@ == report_spec(strs(self.context@), message_spec(*self)),
    {
        let message = self.message_text();
        let mut out = String::new();
        let n = self.context.len();
        let mut i: usize = n;
        proof {
            let all = strs(self.context@);
            assert(all.take(n as int) =~= all);
            assert forall|tail: Seq<char>|
                out@ + #[trigger] report_spec(all.take(n as int), tail) == report_spec(
                    all,
                    tail,
                ) by {
                assert(out@ + report_spec(all, tail) =~= report_spec(all, tail));
            }
        }
        // `out` holds the lines from the outermost down to line `i`.
        while i > 0
            invariant
                i <= n,
                n == self.context.len(),
                forall|tail: Seq<char>|
                    out@ + #[trigger] report_spec(strs(self.context@).take(i as int), tail)
                        == report_spec(strs(self.context@), tail),
            decreases i,
        {
            i -= 1;
            let ghost before = out@;
            out.append(self.context[i].as_str());
            out.append(": ");
            proof {
                let all = strs(self.context@);
                assert(all.take(i + 1).drop_last() =~= all.take(i as int));
                assert(all.take(i + 1).last() == self.context@[i as int]@);
                assert forall|tail: Seq<char>|
                    out@ + #[trigger] report_spec(all.take(i as int), tail) == report_spec(
                        all,
                        tail,
                    ) by {
                    assert(before + report_spec(all.take(i + 1), tail) == report_spec(all, tail));
                    assert(out@ + report_spec(all.take(i as int), tail) =~= before + (all.take(
                        i + 1,
                    ).last() + ": "@ + report_spec(all.take(i as int), tail)));
                }
            }
        }
        proof {
            let all = strs(self.context@);
            assert(all.take(0).len() == 0);
            assert(report_spec(all.take(0), message@) == message@);
        }
        out.append(message.as_str());
        out
    }
}

/// The names of the environment variables that may name an HTTP proxy, in
/// the order in which they are tried.
pub fn proxy_variables() -> (names: Vec<String>)
    ensures
        strs(names@) == seq!["http_proxy"@, "HTTP_PROXY"@, "https_proxy"@, "HTTPS_PROXY"@],
{
    let mut names: Vec<String> = Vec::new();
    names.push("http_proxy".to_owned());
    names.push("HTTP_PROXY".to_owned());
    names.push("https_proxy".to_owned());
    names.push("HTTPS_PROXY".to_owned());
    assert(strs(names@) =~= seq!["http_proxy"@, "HTTP_PROXY"@, "https_proxy"@, "HTTPS_PROXY"@]);
    names
}

/// The first value that is set.
pub open spec fn first_set(values: Seq<Option<String>>) -> Option<Seq<char>>
    decreases values.len(),
{
    if values.len() == 0 {
        None
    } else {
        match values[0] {
            Some(v) => Some(v@),
            None => first_set(values.drop_first()),
        }
    }
}

/// The HTTP proxy to use: the value of the first variable of
/// `proxy_variables` that is set, `values` holding their values in that
/// order.
pub fn get_http_proxy(values: &Vec<Option<String>>) -> (proxy: Option<String>)
    ensures
        match proxy {
            Some(p) => first_set(values@) == Some(p@),
            None => first_set(values@) is None,
        },
{
    let mut i: usize = 0;
    assert(values@.subrange(0, values.len() as int) =~= values@);
    while i < values.len()
        invariant
            i <= values.len(),
            first_set(values@) == first_set(values@.subrange(i as int, values.len() as int)),
        decreases values.len() - i,
    {
        let ghost rest = values@.subrange(i as int, values.len() as int);
        assert(rest.drop_first() =~= values@.subrange(i + 1, values.len() as int));
        assert(rest[0] == values@[i as int]);
        match &values[i] {
            Some(v) => {
                return Some(v.clone());
            },
            None => {},
        }
        i += 1;
    }
    None
}

/// What stands at a path.
#[derive(Clone, Copy, Debug, PartialEq, Eq, Structural)]
pub enum FileKind {
    File,
    Dir,
    Symlink,
    Other,
}

/// What is done with one path of a tree that is copied.
#[derive(Clone, Copy, Debug, PartialEq, Eq, Structural)]
pub enum CopyAction {
    /// Nothing: the file is there already.
    Skip,
    /// Create the directories above the target, then copy the file.
    CopyFile,
    /// Copy each entry of the directory to the entry of the same name under
    /// the target.
    Descend,
}

/// What `copy_path` decides.
pub open spec fn copy_action_spec(kind: FileKind, target_is_file: bool, ignore_existing: bool)
    -> Option<CopyAction> {
    match kind {
        FileKind::File => if !target_is_file {
            Some(CopyAction::CopyFile)
        } else if ignore_existing {
            Some(CopyAction::Skip)
        } else {
            None
        },
        FileKind::Dir => Some(CopyAction::Descend),
        _ => None,
    }
}

/// What is done to copy `src`, where `kind` stands, to `target`: a file is
/// copied unless one is in the way, which is skipped over or a failure as
/// `ignore_existing` says; a directory is copied entry by entry; anything
/// else is a failure. Links are not copied.
pub fn copy_path(
    src: &str,
    target: &str,
    kind: FileKind,
    target_is_file: bool,
    ignore_existing: bool,
) -> (r: Result<CopyAction, Error>)
    requires
        !(kind is Symlink),
    ensures
        match r {
            Ok(action) => copy_action_spec(kind, target_is_file, ignore_existing) == Some(action),
            Err(e) => copy_action_spec(kind, target_is_file, ignore_existing) is None
                && e.kind is Configuration && e.context@.len() == 0 && e.message@
                == "Could not copy from '"@ + src@ + "' to '"@ + target@ + if kind is File {
                "': destination already exists"@
            } else {
                "': unknown file type"@
            },
        },
{
    match kind {
        FileKind::File => {
            if !target_is_file {
                Ok(CopyAction::CopyFile)
            } else if ignore_existing {
                Ok(CopyAction::Skip)
            } else {
                let mut msg = "Could not copy from '".to_owned();
                msg.append(src);
                msg.append("' to '");
                msg.append(target);
                msg.append("': destination already exists");
                Err(Error::configuration(msg))
            }
        },
        FileKind::Dir => Ok(CopyAction::Descend),
        _ => {
            let mut msg = "Could not copy from '".to_owned();
            msg.append(src);
            msg.append("' to '");
            msg.append(target);
            msg.append("': unknown file type");
            Err(Error::configuration(msg))
        },
    }
}

} // verus!
